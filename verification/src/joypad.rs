//! Standard controller port: an 8-bit button state read out one bit at a
//! time through a strobe-controlled shift register.
use vstd::prelude::*;

use crate::util::{pow2_u8, spec_pow2_u8};

verus! {

/// Live button state as the host sets it. Bit 0..7: A, B, Select, Start,
/// Up, Down, Left, Right.
#[derive(Debug, Clone, Copy, PartialEq, Eq, Structural)]
pub struct JoypadState {
    pub bits: u8,
}

impl JoypadState {
    pub fn new() -> (r: Self)
        ensures
            r.bits == 0,
    {
        JoypadState { bits: 0 }
    }

    /// Forces the button bits selected by `mask` to `pressed`.
    pub fn set_button(&mut self, mask: u8, pressed: bool)
        ensures
            final(self).bits == (if pressed {
                old(self).bits | mask
            } else {
                old(self).bits & !mask
            }),
    {
        if pressed {
            self.bits = self.bits | mask;
        } else {
            self.bits = self.bits & !mask;
        }
    }

    pub fn set_a(&mut self, pressed: bool)
        ensures
            final(self).bits == (if pressed {
                old(self).bits | 0x01
            } else {
                old(self).bits & !0x01
            }),
    {
        self.set_button(0x01, pressed);
    }

    pub fn set_b(&mut self, pressed: bool)
        ensures
            final(self).bits == (if pressed {
                old(self).bits | 0x02
            } else {
                old(self).bits & !0x02
            }),
    {
        self.set_button(0x02, pressed);
    }

    pub fn set_select(&mut self, pressed: bool)
        ensures
            final(self).bits == (if pressed {
                old(self).bits | 0x04
            } else {
                old(self).bits & !0x04
            }),
    {
        self.set_button(0x04, pressed);
    }

    pub fn set_start(&mut self, pressed: bool)
        ensures
            final(self).bits == (if pressed {
                old(self).bits | 0x08
            } else {
                old(self).bits & !0x08
            }),
    {
        self.set_button(0x08, pressed);
    }

    pub fn set_up(&mut self, pressed: bool)
        ensures
            final(self).bits == (if pressed {
                old(self).bits | 0x10
            } else {
                old(self).bits & !0x10
            }),
    {
        self.set_button(0x10, pressed);
    }

    pub fn set_down(&mut self, pressed: bool)
        ensures
            final(self).bits == (if pressed {
                old(self).bits | 0x20
            } else {
                old(self).bits & !0x20
            }),
    {
        self.set_button(0x20, pressed);
    }

    pub fn set_left(&mut self, pressed: bool)
        ensures
            final(self).bits == (if pressed {
                old(self).bits | 0x40
            } else {
                old(self).bits & !0x40
            }),
    {
        self.set_button(0x40, pressed);
    }

    pub fn set_right(&mut self, pressed: bool)
        ensures
            final(self).bits == (if pressed {
                old(self).bits | 0x80
            } else {
                old(self).bits & !0x80
            }),
    {
        self.set_button(0x80, pressed);
    }
}

/// Abstract controller port state.
pub ghost struct JoypadV {
    pub state: u8,
    pub latched: u8,
    pub strobe: bool,
    pub reads: u8,
}

/// One shift-register read: the next latched bit (LSB first) while fewer
/// than eight bits have gone out, then 1; with the strobe held high every
/// read re-latches the live state and returns its bit 0.
pub open spec fn spec_joypad_read(j: JoypadV) -> (u8, JoypadV) {
    let j1 = if j.strobe {
        JoypadV { latched: j.state, reads: 0, ..j }
    } else {
        j
    };
    if j1.reads < 8 {
        (
            (j1.latched / spec_pow2_u8(j1.reads)) % 2,
            JoypadV { reads: (j1.reads + 1) as u8, ..j1 },
        )
    } else {
        (1, j1)
    }
}

pub struct Joypad {
    pub state: JoypadState,
    latched: u8,
    shift_register_strobe: bool,
    current_read_number: u8,
}

impl View for Joypad {
    type V = JoypadV;

    closed spec fn view(&self) -> JoypadV {
        JoypadV {
            state: self.state.bits,
            latched: self.latched,
            strobe: self.shift_register_strobe,
            reads: self.current_read_number,
        }
    }
}

impl Joypad {
    pub fn new() -> (r: Self)
        ensures
            r@.state == 0,
            r@.latched == 0,
            r@.strobe == false,
            r@.reads == 0,
    {
        Joypad {
            state: JoypadState::new(),
            latched: 0,
            shift_register_strobe: false,
            current_read_number: 0,
        }
    }

    /// A write to the strobe line: captures the live button state into the
    /// shift register and rewinds the read counter.
    pub fn set_shift_register_strobe(&mut self, val: bool)
        ensures
            final(self)@ == (JoypadV {
                latched: old(self)@.state,
                strobe: val,
                reads: 0,
                ..old(self)@
            }),
    {
        self.latched = self.state.bits;
        self.shift_register_strobe = val;
        self.current_read_number = 0;
    }

    /// Reads one bit of the latched state; see `spec_joypad_read`.
    pub fn read_status(&mut self) -> (r: u8)
        ensures
            (r, final(self)@) == spec_joypad_read(old(self)@),
    {
        if self.shift_register_strobe {
            self.latched = self.state.bits;
            self.current_read_number = 0;
        }
        if self.current_read_number < 8 {
            let p: u8 = pow2_u8(self.current_read_number);
            let a: u8 = (self.latched / p) % 2;
            self.current_read_number = self.current_read_number + 1;
            a
        } else {
            1
        }
    }
}

} // verus!
