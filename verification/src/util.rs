//! Small helpers for building and copying byte buffers.
use vstd::prelude::*;

verus! {

/// A vector of `n` copies of `value`.
pub fn filled_u8(n: usize, value: u8) -> (r: Vec<u8>)
    ensures
        r@ == Seq::new(n as nat, |i: int| value),
{
    let mut r: Vec<u8> = Vec::new();
    let mut k: usize = 0;
    while k < n
        invariant
            k <= n,
            r@ == Seq::new(k as nat, |i: int| value),
        decreases n - k,
    {
        r.push(value);
        k = k + 1;
        proof {
            assert(r@ =~= Seq::new(k as nat, |i: int| value));
        }
    }
    proof {
        assert(r@ =~= Seq::new(n as nat, |i: int| value));
    }
    r
}

/// A vector of `n` copies of `value`.
pub fn filled_bool(n: usize, value: bool) -> (r: Vec<bool>)
    ensures
        r@ == Seq::new(n as nat, |i: int| value),
{
    let mut r: Vec<bool> = Vec::new();
    let mut k: usize = 0;
    while k < n
        invariant
            k <= n,
            r@ == Seq::new(k as nat, |i: int| value),
        decreases n - k,
    {
        r.push(value);
        k = k + 1;
        proof {
            assert(r@ =~= Seq::new(k as nat, |i: int| value));
        }
    }
    proof {
        assert(r@ =~= Seq::new(n as nat, |i: int| value));
    }
    r
}

/// The `len` bytes of `src` starting at `start`, as a fresh vector.
pub fn copy_range(src: &Vec<u8>, start: usize, len: usize) -> (r: Vec<u8>)
    requires
        start + len <= src@.len(),
    ensures
        r@ == src@.subrange(start as int, start as int + len as int),
{
    let n: usize = src.len();
    let mut r: Vec<u8> = Vec::new();
    let mut k: usize = 0;
    while k < len
        invariant
            k <= len,
            start + len <= n,
            n == src@.len(),
            r@ == src@.subrange(start as int, start as int + k as int),
        decreases len - k,
    {
        r.push(src[start + k]);
        k = k + 1;
        proof {
            assert(r@ =~= src@.subrange(start as int, start as int + k as int));
        }
    }
    r
}

/// Two to the power `k`, for `k` below 8.
pub open spec fn spec_pow2_u8(k: u8) -> u8 {
    if k == 0 {
        1
    } else if k == 1 {
        2
    } else if k == 2 {
        4
    } else if k == 3 {
        8
    } else if k == 4 {
        16
    } else if k == 5 {
        32
    } else if k == 6 {
        64
    } else {
        128
    }
}

pub fn pow2_u8(k: u8) -> (r: u8)
    requires
        k < 8,
    ensures
        r == spec_pow2_u8(k),
        r >= 1,
{
    if k == 0 {
        1
    } else if k == 1 {
        2
    } else if k == 2 {
        4
    } else if k == 3 {
        8
    } else if k == 4 {
        16
    } else if k == 5 {
        32
    } else if k == 6 {
        64
    } else {
        128
    }
}

} // verus!
