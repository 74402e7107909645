//! The timer chip: DIV, TIMA, TMA and TAC.
//!
//! DIV is a 16-bit counter that advances by four T-states every M-cycle;
//! reads of 0xFF04 return its top byte and any write clears it.  TIMA
//! increments whenever the advanced DIV is a multiple of the prescaler
//! selected by TAC's low two bits, gated by TAC bit 2.  On overflow TIMA
//! reloads from TMA and interrupt bit 2 is requested; a CPU write to
//! TIMA in the same M-cycle cancels that increment.

use vstd::prelude::*;

use crate::cpu::CpuOutputPins;

verus! {

/// The timer registers.
#[derive(Clone, Copy, Debug, PartialEq, Eq, Structural)]
pub struct Timer {
    pub div: u16,
    pub tima: u8,
    pub tma: u8,
    pub tac: u8,
}

/// The prescaler period in T-states selected by TAC's low two bits:
/// 1024, 16, 64 or 256.
pub open spec fn spec_timer_period(tac: u8) -> u16 {
    if tac % 4 == 0 {
        1024
    } else if tac % 4 == 1 {
        16
    } else if tac % 4 == 2 {
        64
    } else {
        256
    }
}

/// The registers after the bus traffic of one M-cycle is applied.
pub open spec fn spec_timer_after_io(t: Timer, input: CpuOutputPins) -> Timer {
    match input {
        CpuOutputPins::Write { addr, data } => {
            if addr == 0xFF04 {
                Timer { div: 0, ..t }
            } else if addr == 0xFF05 {
                Timer { tima: data, ..t }
            } else if addr == 0xFF06 {
                Timer { tma: data, ..t }
            } else if addr == 0xFF07 {
                Timer { tac: data, ..t }
            } else {
                t
            }
        },
        CpuOutputPins::Read { .. } => t,
    }
}

/// True when the M-cycle writes TIMA, which cancels this cycle's
/// increment.
pub open spec fn spec_timer_tima_written(input: CpuOutputPins) -> bool {
    match input {
        CpuOutputPins::Write { addr, .. } => addr == 0xFF05,
        CpuOutputPins::Read { .. } => false,
    }
}

/// True when advancing DIV by four T-states lands on the prescaler
/// period while the timer is enabled: the condition for a TIMA
/// increment.
pub open spec fn spec_timer_increments(t: Timer, tima_written: bool) -> bool {
    let div2 = ((t.div + 4) % 0x10000) as u16;
    !tima_written && t.tac % 8 >= 4 && div2 as int % spec_timer_period(t.tac) as int == 0
}

/// True when this cycle's TIMA increment overflows, reloading TMA and
/// requesting interrupt bit 2.
pub open spec fn spec_timer_overflows(t: Timer, tima_written: bool) -> bool {
    spec_timer_increments(t, tima_written) && t.tima == 0xFF
}

/// The registers after the whole M-cycle: bus traffic, the DIV advance,
/// and the TIMA increment or reload.
pub open spec fn spec_timer_next(t: Timer, tima_written: bool) -> Timer {
    let div2 = ((t.div + 4) % 0x10000) as u16;
    let t2 = Timer { div: div2, ..t };
    if spec_timer_increments(t, tima_written) {
        if t.tima == 0xFF {
            Timer { tima: t.tma, ..t2 }
        } else {
            Timer { tima: ((t.tima + 1) as u8), ..t2 }
        }
    } else {
        t2
    }
}

/// The byte a register read of this chip drives; other addresses leave
/// the line alone.
pub open spec fn spec_timer_data(t: Timer, input: CpuOutputPins, line: u8) -> u8 {
    match input {
        CpuOutputPins::Read { addr } => {
            if addr == 0xFF04 {
                (t.div >> 8) as u8
            } else if addr == 0xFF05 {
                t.tima
            } else if addr == 0xFF06 {
                t.tma
            } else if addr == 0xFF07 {
                t.tac
            } else {
                line
            }
        },
        CpuOutputPins::Write { .. } => line,
    }
}

impl Timer {
    /// All registers cleared.
    pub fn new() -> (r: Timer)
        ensures
            r == (Timer { div: 0, tima: 0, tma: 0, tac: 0 }),
    {
        Timer { div: 0, tima: 0, tma: 0, tac: 0 }
    }

    /// Observe one M-cycle: serve the register reads and writes, advance
    /// DIV by four T-states, and increment TIMA when the prescaler
    /// period elapses, requesting interrupt bit 2 on overflow.
    pub fn clock(&mut self, input: CpuOutputPins, data: &mut u8, interrupt_request: &mut u8)
        ensures
            *final(self) == spec_timer_next(
                spec_timer_after_io(*old(self), input),
                spec_timer_tima_written(input),
            ),
            *final(data) == spec_timer_data(*old(self), input, *old(data)),
            *final(interrupt_request) == (if spec_timer_overflows(
                spec_timer_after_io(*old(self), input),
                spec_timer_tima_written(input),
            ) {
                *old(interrupt_request) | 0x04
            } else {
                *old(interrupt_request)
            }),
    {
        let mut tima_write = false;
        match input {
            CpuOutputPins::Write { addr, data: v } => {
                if addr == 0xFF04 {
                    self.div = 0;
                } else if addr == 0xFF05 {
                    self.tima = v;
                    tima_write = true;
                } else if addr == 0xFF06 {
                    self.tma = v;
                } else if addr == 0xFF07 {
                    self.tac = v;
                }
            }
            CpuOutputPins::Read { addr } => {
                if addr == 0xFF04 {
                    *data = (self.div >> 8) as u8;
                } else if addr == 0xFF05 {
                    *data = self.tima;
                } else if addr == 0xFF06 {
                    *data = self.tma;
                } else if addr == 0xFF07 {
                    *data = self.tac;
                }
            }
        }
        self.div = ((self.div as u32 + 4) % 0x10000) as u16;

        let period: u16 = if self.tac % 4 == 0 {
            1024
        } else if self.tac % 4 == 1 {
            16
        } else if self.tac % 4 == 2 {
            64
        } else {
            256
        };
        let enabled: bool = self.tac % 8 >= 4;
        let timer_inc: bool = enabled && self.div % period == 0;

        if !tima_write && timer_inc {
            if self.tima == 0xFF {
                self.tima = self.tma;
                *interrupt_request = *interrupt_request | 0x04;
            } else {
                self.tima = self.tima + 1;
            }
        }
    }
}

impl Default for Timer {
    /// All registers cleared.
    fn default() -> (r: Timer)
        ensures
            r == (Timer { div: 0, tima: 0, tma: 0, tac: 0 }),
    {
        Timer::new()
    }
}

} // verus!
