//! The joypad: an eight-button matrix read through register 0xFF00.
//!
//! Bits 5 and 4 of the register select the action and direction rows
//! (0 = selected); the low nybble reads the selected buttons, active
//! low.  When the low nybble falls from all-ones to having a zero bit —
//! a button newly pressed on a selected row — interrupt bit 4 is
//! requested.

use vstd::prelude::*;

use crate::cpu::CpuOutputPins;

verus! {

/// One of the eight buttons.
#[derive(Debug, Clone, Copy, PartialEq, Eq, Structural)]
pub enum Button {
    Start,
    Select,
    B,
    A,
    Left,
    Right,
    Up,
    Down,
}

/// The held-down state of every button, and the joypad register P1.
#[derive(Debug, Clone, Copy, PartialEq, Eq, Structural)]
pub struct Joypad {
    pub start: bool,
    pub select: bool,
    pub b: bool,
    pub a: bool,
    pub down: bool,
    pub up: bool,
    pub left: bool,
    pub right: bool,
    pub p1: u8,
}

/// The state effect of one M-cycle on the joypad: the row-select bits
/// of a 0xFF00 write land, then the button nybble refreshes from the
/// selected rows.
#[verifier::opaque]
pub open spec fn spec_joypad_step(pre: Joypad, post: Joypad, input: CpuOutputPins) -> bool {
    post == (Joypad {
        p1: spec_joypad_new_p1(spec_joypad_after_io(pre, input)),
        ..spec_joypad_after_io(pre, input)
    })
}

/// The byte a read drives through the joypad: register 0xFF00 only.
pub open spec fn spec_joypad_data(j: Joypad, addr: u16, d0: u8) -> u8 {
    if addr == 0xFF00 {
        j.p1
    } else {
        d0
    }
}

/// The weight of a pressed button within its row nybble.
pub open spec fn spec_bit_weight(b: bool, k: u8) -> u8 {
    if b {
        k
    } else {
        0
    }
}

/// The active-low nybble of the action row (Start, Select, B, A), or
/// all ones when the row is not selected (P1 bit 5 set).
pub open spec fn spec_action_nybble(j: Joypad) -> u8 {
    if j.p1 & 0x20 == 0 {
        (15 - spec_bit_weight(j.start, 8) - spec_bit_weight(j.select, 4) - spec_bit_weight(j.b, 2)
            - spec_bit_weight(j.a, 1)) as u8
    } else {
        0x0F
    }
}

/// The active-low nybble of the direction row (Down, Up, Left, Right),
/// or all ones when the row is not selected (P1 bit 4 set).
pub open spec fn spec_direction_nybble(j: Joypad) -> u8 {
    if j.p1 & 0x10 == 0 {
        (15 - spec_bit_weight(j.down, 8) - spec_bit_weight(j.up, 4) - spec_bit_weight(j.left, 2)
            - spec_bit_weight(j.right, 1)) as u8
    } else {
        0x0F
    }
}

/// The joypad after the bus traffic of one M-cycle: a write to 0xFF00
/// stores the row-select bits, everything else leaves it unchanged.
pub open spec fn spec_joypad_after_io(j: Joypad, input: CpuOutputPins) -> Joypad {
    match input {
        CpuOutputPins::Write { addr, data } => {
            if addr == 0xFF00 {
                Joypad { p1: (data & 0x30), ..j }
            } else {
                j
            }
        },
        CpuOutputPins::Read { .. } => j,
    }
}

/// The new P1 value after one M-cycle: the row-select bits with the
/// AND of the two row nybbles below them.
pub open spec fn spec_joypad_new_p1(j: Joypad) -> u8 {
    ((j.p1 & 0xF0) | (spec_action_nybble(j) & spec_direction_nybble(j))) as u8
}

/// True when the low nybble of P1 falls from all ones to having a zero
/// bit this cycle: the edge that requests interrupt bit 4.
pub open spec fn spec_joypad_edge(j: Joypad) -> bool {
    j.p1 & 0x0F == 0x0F && spec_joypad_new_p1(j) & 0x0F != 0x0F
}

/// The value of the single bit at a position.
pub open spec fn spec_bit_value(bit: u8) -> u8 {
    if bit == 0 {
        1
    } else if bit == 1 {
        2
    } else if bit == 2 {
        4
    } else if bit == 3 {
        8
    } else if bit == 4 {
        16
    } else if bit == 5 {
        32
    } else if bit == 6 {
        64
    } else {
        128
    }
}

/// The weight of a pressed button within its row nybble (1, 2, 4 or 8).
pub fn bool_to_bit(b: bool, bit: u8) -> (r: u8)
    requires
        bit < 8,
    ensures
        r == spec_bit_weight(b, spec_bit_value(bit)),
{
    let k: u8 = if bit == 0 {
        1
    } else if bit == 1 {
        2
    } else if bit == 2 {
        4
    } else if bit == 3 {
        8
    } else if bit == 4 {
        16
    } else if bit == 5 {
        32
    } else if bit == 6 {
        64
    } else {
        128
    };
    if b {
        k
    } else {
        0
    }
}

impl Joypad {
    /// No button held, no row selected.
    pub fn new() -> (r: Joypad)
        ensures
            r == (Joypad {
                start: false,
                select: false,
                b: false,
                a: false,
                down: false,
                up: false,
                left: false,
                right: false,
                p1: 0,
            }),
    {
        Joypad {
            start: false,
            select: false,
            b: false,
            a: false,
            down: false,
            up: false,
            left: false,
            right: false,
            p1: 0,
        }
    }

    /// The active-low nybble of the action row.
    fn action_nybble(&self) -> (r: u8)
        ensures
            r == spec_action_nybble(*self),
    {
        if self.p1 & 0x20 == 0 {
            15 - bool_to_bit(self.start, 3) - bool_to_bit(self.select, 2) - bool_to_bit(self.b, 1)
                - bool_to_bit(self.a, 0)
        } else {
            0x0F
        }
    }

    /// The active-low nybble of the direction row.
    fn direction_nybble(&self) -> (r: u8)
        ensures
            r == spec_direction_nybble(*self),
    {
        if self.p1 & 0x10 == 0 {
            15 - bool_to_bit(self.down, 3) - bool_to_bit(self.up, 2) - bool_to_bit(self.left, 1)
                - bool_to_bit(self.right, 0)
        } else {
            0x0F
        }
    }

    /// Record a button going down.
    pub fn press(&mut self, button: Button)
        ensures
            *final(self) == (match button {
                Button::Start => Joypad { start: true, ..*old(self) },
                Button::Select => Joypad { select: true, ..*old(self) },
                Button::B => Joypad { b: true, ..*old(self) },
                Button::A => Joypad { a: true, ..*old(self) },
                Button::Left => Joypad { left: true, ..*old(self) },
                Button::Right => Joypad { right: true, ..*old(self) },
                Button::Up => Joypad { up: true, ..*old(self) },
                Button::Down => Joypad { down: true, ..*old(self) },
            }),
    {
        match button {
            Button::Start => self.start = true,
            Button::Select => self.select = true,
            Button::B => self.b = true,
            Button::A => self.a = true,
            Button::Left => self.left = true,
            Button::Right => self.right = true,
            Button::Up => self.up = true,
            Button::Down => self.down = true,
        }
    }

    /// Record a button coming back up.
    pub fn release(&mut self, button: Button)
        ensures
            *final(self) == (match button {
                Button::Start => Joypad { start: false, ..*old(self) },
                Button::Select => Joypad { select: false, ..*old(self) },
                Button::B => Joypad { b: false, ..*old(self) },
                Button::A => Joypad { a: false, ..*old(self) },
                Button::Left => Joypad { left: false, ..*old(self) },
                Button::Right => Joypad { right: false, ..*old(self) },
                Button::Up => Joypad { up: false, ..*old(self) },
                Button::Down => Joypad { down: false, ..*old(self) },
            }),
    {
        match button {
            Button::Start => self.start = false,
            Button::Select => self.select = false,
            Button::B => self.b = false,
            Button::A => self.a = false,
            Button::Left => self.left = false,
            Button::Right => self.right = false,
            Button::Up => self.up = false,
            Button::Down => self.down = false,
        }
    }

    /// Observe one M-cycle: serve reads and writes of 0xFF00, refresh
    /// the button nybble from the selected rows, and request interrupt
    /// bit 4 on a falling edge of the low nybble.
    #[verifier::rlimit(100)]
    pub fn clock(&mut self, input: CpuOutputPins, data: &mut u8, interrupt_request: &mut u8)
        ensures
            spec_joypad_step(*old(self), *final(self), input),
            ({
                let j1 = spec_joypad_after_io(*old(self), input);
                &&& *final(self) == (Joypad { p1: spec_joypad_new_p1(j1), ..j1 })
                &&& *final(interrupt_request) == (if spec_joypad_edge(j1) {
                    *old(interrupt_request) | 0x10
                } else {
                    *old(interrupt_request)
                })
                &&& *final(data) == (match input {
                    CpuOutputPins::Read { addr } => {
                        if addr == 0xFF00 {
                            old(self).p1
                        } else {
                            *old(data)
                        }
                    },
                    CpuOutputPins::Write { .. } => *old(data),
                })
            }),
    {
        proof {
            reveal(spec_joypad_step);
        }
        match input {
            CpuOutputPins::Write { addr, data: v } => {
                if addr == 0xFF00 {
                    self.p1 = v & 0x30;
                }
            }
            CpuOutputPins::Read { addr } => {
                if addr == 0xFF00 {
                    *data = self.p1;
                }
            }
        }

        let action_buttons: u8 = self.action_nybble();
        let direction_buttons: u8 = self.direction_nybble();
        let old_p1 = self.p1;
        self.p1 = (old_p1 & 0xF0) | (action_buttons & direction_buttons);

        let interrupt = old_p1 & 0x0F == 0x0F && self.p1 & 0x0F != 0x0F;
        if interrupt {
            *interrupt_request = *interrupt_request | 0x10;
        }
    }
}

impl Default for Joypad {
    /// No button held, no row selected.
    fn default() -> (r: Joypad)
        ensures
            r == Joypad::new_spec(),
    {
        Joypad::new()
    }
}

impl Joypad {
    /// The reset state: no button held, no row selected.
    pub open spec fn new_spec() -> Joypad {
        Joypad {
            start: false,
            select: false,
            b: false,
            a: false,
            down: false,
            up: false,
            left: false,
            right: false,
            p1: 0,
        }
    }
}

} // verus!
