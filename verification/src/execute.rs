//! Instruction execution as an explicit micro-op machine.
//!
//! The original LR35902 overlaps the last cycle of every instruction with
//! the fetch of the next opcode.  This module models that protocol
//! directly: decoding an opcode produces a short program of micro-ops,
//! one per M-cycle, plus a finishing action that runs on the overlap
//! cycle (the fetch of the following opcode), consuming the data byte
//! returned by the last bus operation.  An instruction therefore costs
//! one M-cycle for its own fetch plus one per queued micro-op, which is
//! what [`spec_instr_cycles`] states and [`CpuRunner::decode_first`]
//! proves.

use vstd::prelude::*;

use crate::alu;
use crate::cpu::Cpu;
use crate::cpu::CpuInputPins;
use crate::cpu::CpuOutputPins;
use crate::decode;
use crate::decode::FlagCondition;
use crate::decode::LoadDest;
use crate::decode::LoadDest16Bit;
use crate::decode::MathOperation;
use crate::decode::Opcode;
use crate::decode::RotateShiftOperation;
use crate::registers::FRegister;

verus! {

/// What a micro-op does with the data byte that the previous cycle's bus
/// operation produced, at the start of its own cycle.
#[derive(Clone, Copy, Debug, PartialEq, Eq, Structural)]
pub enum Pre {
    /// Ignore the byte.
    Nop,
    /// Latch the byte into Z (the low operand latch).
    Z,
    /// Latch the byte into W (the high operand latch).
    W,
    /// Store the byte into a register (never the (HL) slot).
    SetReg(LoadDest),
    /// Latch into Z, then abandon the rest of the instruction unless the
    /// condition holds.
    ZCond(FlagCondition),
    /// Latch into W, then abandon the rest of the instruction unless the
    /// condition holds.
    WCond(FlagCondition),
    /// Abandon the rest of the instruction unless the condition holds.
    Cond(FlagCondition),
    /// Rotate or shift the byte into Z, updating the flags.
    RotZ(RotateShiftOperation),
    /// Test the bits selected by the mask: Z flag from the masked byte,
    /// N cleared, H set, C preserved.
    BitD(u8),
    /// Clear the bits selected by the mask and latch the result into Z.
    ResZ(u8),
    /// Set the bits selected by the mask and latch the result into Z.
    SetZ(u8),
    /// Increment the byte into Z, updating the flags.
    IncZ,
    /// Decrement the byte into Z, updating the flags.
    DecZ,
}

/// An address selector for a bus operation, with its side effect on the
/// registers.
#[derive(Clone, Copy, Debug, PartialEq, Eq, Structural)]
pub enum AddrSel {
    BC,
    DE,
    HL,
    /// HL, then increment HL.
    HLInc,
    /// HL, then decrement HL.
    HLDec,
    /// The WZ latch pair.
    WZ,
    /// The WZ latch pair, then increment it.
    WZInc,
    /// 0xFF00 + Z.
    HighZ,
    /// 0xFF00 + C.
    HighC,
    /// SP, then increment SP (a stack pop step).
    SpInc,
    /// Decrement SP first, then use the new SP (a stack push step).
    SpDec,
}

/// A data selector for a bus write.
#[derive(Clone, Copy, Debug, PartialEq, Eq, Structural)]
pub enum DataSel {
    A,
    Z,
    SpLo,
    SpHi,
    PcLo,
    PcHi,
    /// Low byte of a register pair.
    RpLo(LoadDest16Bit),
    /// High byte of a register pair.
    RpHi(LoadDest16Bit),
    /// One of the eight-bit registers (never the (HL) slot).
    Reg(LoadDest),
}

/// Register work performed during an internal (idle) cycle.
#[derive(Clone, Copy, Debug, PartialEq, Eq, Structural)]
pub enum IntOp {
    Idle,
    /// ADD HL,rp with its flag updates.
    AddHL(LoadDest16Bit),
    /// 16-bit increment of a pair.
    IncRp(LoadDest16Bit),
    /// 16-bit decrement of a pair.
    DecRp(LoadDest16Bit),
    /// PC += signed Z.
    JumpRel,
    /// SP += signed Z with the SP-offset flags.
    AddSpZ,
    /// HL = SP + signed Z with the SP-offset flags.
    LdHlSpZ,
    /// SP = HL.
    LdSpHl,
}

/// The bus operation a micro-op emits for its cycle.
#[derive(Clone, Copy, Debug, PartialEq, Eq, Structural)]
pub enum Bus {
    /// Fetch the byte at PC and advance PC.
    FetchImm,
    /// An internal cycle with optional register work; the pins read
    /// address 0 and the result is ignored.
    Internal(IntOp),
    /// Read the byte at the selected address.
    ReadAt(AddrSel),
    /// Write the selected data byte at the selected address.
    WriteAt(AddrSel, DataSel),
}

/// One M-cycle of an instruction: what to do with the incoming data
/// byte, and which bus operation to emit.
#[derive(Clone, Copy, Debug, PartialEq, Eq, Structural)]
pub struct MicroOp {
    pub uses: Pre,
    pub bus: Bus,
}

/// The finishing action of an instruction, applied on the overlap cycle
/// (the fetch of the next opcode) to the data byte of the last bus
/// operation.
#[derive(Clone, Copy, Debug, PartialEq, Eq, Structural)]
pub enum Fin {
    Nop,
    /// Store the byte into a register (never the (HL) slot).
    SetReg(LoadDest),
    /// ALU operation between the accumulator and the byte.
    Math(MathOperation),
    /// Store (byte << 8) | Z into a register pair.
    SetRp(LoadDest16Bit),
    /// PC = (W << 8) | Z.
    SetPcWz,
    /// PC = (W << 8) | Z and enable interrupts (RETI).
    SetPcWzIme,
    /// PC = a fixed vector (RST).
    SetPcImm(u16),
    /// Test the bits selected by the mask (BIT n,(HL)).
    BitD(u8),
}

/// The phase the CPU machine is in, as visible to a debugger.
#[derive(Clone, Copy, Debug, PartialEq, Eq, Structural)]
pub enum CpuState {
    /// Waiting for the opcode byte of the next instruction.
    ReadyForInstruction,
    /// Executing the micro-ops of the current instruction.
    Executing,
    /// Halted until an enabled interrupt is requested.
    Halted,
    /// Pushing PC and jumping to an interrupt vector.
    Dispatching,
    /// Stopped on an undefined opcode.
    Trapped,
}

/// What one call of [`CpuRunner::clock`] hands back: the bus operation
/// for this M-cycle, whether it is an opcode fetch, and, when an
/// interrupt dispatch begins this cycle, the index of the interrupt
/// flag bit that the bus must clear.
#[derive(Clone, Copy, Debug, PartialEq, Eq, Structural)]
pub struct CpuRunnerYield {
    pub pins: CpuOutputPins,
    pub is_fetch_cycle: bool,
    pub interrupt_ack: Option<u8>,
}

/// True of the eleven opcodes the LR35902 does not define.
pub open spec fn spec_is_undefined(op: u8) -> bool {
    op == 0xD3 || op == 0xDB || op == 0xDD || op == 0xE3 || op == 0xE4 || op == 0xEB || op == 0xEC
        || op == 0xED || op == 0xF4 || op == 0xFC || op == 0xFD
}

/// Exec mirror of [`spec_is_undefined`].
pub fn is_undefined(op: u8) -> (r: bool)
    ensures
        r == spec_is_undefined(op),
{
    op == 0xD3 || op == 0xDB || op == 0xDD || op == 0xE3 || op == 0xE4 || op == 0xEB || op == 0xEC
        || op == 0xED || op == 0xF4 || op == 0xFC || op == 0xFD
}

/// The number of M-cycles an instruction consumes, counting its own
/// opcode fetch, for the taken and the not-taken path of conditional
/// instructions (equal for unconditional ones).  Defined for every
/// opcode except HALT (0x76), the CB prefix (0xCB, see
/// [`spec_cb_cycles`]) and the undefined opcodes.
pub open spec fn spec_instr_cycles(op: u8, taken: bool) -> int {
    let x = op >> 6;
    let y = (op & 0x38) >> 3;
    let z = op & 0x07;
    let q = y & 1;
    let p = y >> 1;
    if x == 0 {
        if z == 0 {
            if y == 0 {
                1
            } else if y == 1 {
                5
            } else if y == 2 {
                1
            } else if y == 3 {
                3
            } else {
                if taken {
                    3
                } else {
                    2
                }
            }
        } else if z == 1 {
            if q == 0 {
                3
            } else {
                2
            }
        } else if z == 2 {
            2
        } else if z == 3 {
            2
        } else if z == 4 || z == 5 {
            if y == 6 {
                3
            } else {
                1
            }
        } else if z == 6 {
            if y == 6 {
                3
            } else {
                2
            }
        } else {
            1
        }
    } else if x == 1 {
        if y == 6 || z == 6 {
            2
        } else {
            1
        }
    } else if x == 2 {
        if z == 6 {
            2
        } else {
            1
        }
    } else {
        if z == 0 {
            if y < 4 {
                if taken {
                    5
                } else {
                    2
                }
            } else if y == 4 {
                3
            } else if y == 5 {
                4
            } else if y == 6 {
                3
            } else {
                3
            }
        } else if z == 1 {
            if q == 0 {
                3
            } else {
                if p == 0 {
                    4
                } else if p == 1 {
                    4
                } else if p == 2 {
                    1
                } else {
                    2
                }
            }
        } else if z == 2 {
            if y < 4 {
                if taken {
                    4
                } else {
                    3
                }
            } else if y == 4 || y == 6 {
                2
            } else {
                4
            }
        } else if z == 3 {
            if y == 0 {
                4
            } else {
                1
            }
        } else if z == 4 {
            if taken {
                6
            } else {
                3
            }
        } else if z == 5 {
            if q == 0 {
                4
            } else {
                6
            }
        } else if z == 6 {
            2
        } else {
            4
        }
    }
}

/// The number of M-cycles a CB-prefixed instruction consumes, counting
/// the prefix fetch and the sub-opcode fetch: 2 for register operands;
/// on the (HL) operand, 3 for BIT and 4 for the writing operations.
pub open spec fn spec_cb_cycles(sub: u8) -> int {
    let x = sub >> 6;
    let z = sub & 0x07;
    if z == 6 {
        if x == 1 {
            3
        } else {
            4
        }
    } else {
        2
    }
}

/// True of the micro-ops that test a branch condition and may abandon
/// the rest of the instruction.
pub open spec fn spec_pre_is_cond(p: Pre) -> bool {
    match p {
        Pre::Cond(_) => true,
        Pre::ZCond(_) => true,
        Pre::WCond(_) => true,
        _ => false,
    }
}

/// The number of micro-ops executed when the branch condition fails:
/// the ops before the first conditional one, plus that one (whose cycle
/// is replaced by the next fetch), counted from the front of the queue.
/// Equals the queue length when no op is conditional.
pub open spec fn spec_cond_cut_from(q: Seq<MicroOp>, i: int) -> int
    decreases q.len() - i,
{
    if i < 0 || i >= q.len() {
        i
    } else if spec_pre_is_cond(q[i].uses) {
        i
    } else {
        spec_cond_cut_from(q, i + 1)
    }
}

pub open spec fn spec_cond_cut(q: Seq<MicroOp>) -> int {
    spec_cond_cut_from(q, 0)
}

/// The lowest-index interrupt line raised in an input bundle: 0 for the
/// VBlank line (vector 0x40) through 4 for the joypad line (vector
/// 0x60).
pub open spec fn spec_lowest_interrupt(pins: CpuInputPins) -> u8 {
    if pins.interrupt_40h {
        0
    } else if pins.interrupt_48h {
        1
    } else if pins.interrupt_50h {
        2
    } else if pins.interrupt_58h {
        3
    } else {
        4
    }
}

/// The interrupt line at an index: 0 for VBlank through 4 for the
/// joypad.
pub open spec fn spec_interrupt_line(pins: CpuInputPins, i: u8) -> bool {
    if i == 0 {
        pins.interrupt_40h
    } else if i == 1 {
        pins.interrupt_48h
    } else if i == 2 {
        pins.interrupt_50h
    } else if i == 3 {
        pins.interrupt_58h
    } else if i == 4 {
        pins.interrupt_60h
    } else {
        false
    }
}

/// Interrupt priority: when any lines are pending, the one the CPU
/// dispatches — [`spec_lowest_interrupt`], which
/// [`CpuRunner::clock`] acknowledges — is raised, and no
/// lower-index line is.
pub proof fn lemma_interrupt_priority(pins: CpuInputPins)
    requires
        pins.spec_any_interrupt(),
    ensures
        spec_interrupt_line(pins, spec_lowest_interrupt(pins)),
        forall|j: u8| j < spec_lowest_interrupt(pins) ==> !spec_interrupt_line(pins, j),
{
}

/// The value of an eight-bit register operand; the (HL) slot reads as 0
/// on this path, which is never taken for it.
pub open spec fn spec_get_reg8(regs: crate::registers::Registers, d: LoadDest) -> u8 {
    match d {
        LoadDest::B => regs.b,
        LoadDest::C => regs.c,
        LoadDest::D => regs.d,
        LoadDest::E => regs.e,
        LoadDest::H => regs.h,
        LoadDest::L => regs.l,
        LoadDest::IndHL => 0,
        LoadDest::A => regs.a,
    }
}

/// The register file after storing a byte into an eight-bit register;
/// the (HL) slot stores nothing on this path.
pub open spec fn spec_set_reg8(regs: crate::registers::Registers, d: LoadDest, v: u8) -> crate::registers::Registers {
    match d {
        LoadDest::B => crate::registers::Registers { b: v, ..regs },
        LoadDest::C => crate::registers::Registers { c: v, ..regs },
        LoadDest::D => crate::registers::Registers { d: v, ..regs },
        LoadDest::E => crate::registers::Registers { e: v, ..regs },
        LoadDest::H => crate::registers::Registers { h: v, ..regs },
        LoadDest::L => crate::registers::Registers { l: v, ..regs },
        LoadDest::IndHL => regs,
        LoadDest::A => crate::registers::Registers { a: v, ..regs },
    }
}

/// Quadrant x = 0 of the decode table.
#[verifier::opaque]
pub open spec fn spec_decode_x0(pre: CpuRunner, post: CpuRunner, op: u8) -> bool {
    let y = (op & 0x38) >> 3;
    let z = op & 0x07;
    let q = y & 1;
    let p = y >> 1;
    let regs = pre.cpu.registers;
    let base = CpuRunner {
        queue: post.queue,
        qi: 0,
        fin: Fin::Nop,
        trapped: false,
        halted: false,
        ..pre
    };
    if z == 0 {
        if y == 0 || y == 2 {
            // NOP; STOP acts as NOP.
            post == base && post.queue@ == Seq::<MicroOp>::empty()
        } else if y == 1 {
            // LD (nn), SP
            post == base && post.queue@ == Seq::<MicroOp>::empty().push(MicroOp { uses: Pre::Nop, bus: Bus::FetchImm }).push(MicroOp { uses: Pre::Z, bus: Bus::FetchImm }).push(MicroOp { uses: Pre::W, bus: Bus::WriteAt(AddrSel::WZInc, DataSel::SpLo) }).push(MicroOp { uses: Pre::Nop, bus: Bus::WriteAt(AddrSel::WZ, DataSel::SpHi) })
        } else if y == 3 {
            // JR d
            post == base && post.queue@ == Seq::<MicroOp>::empty().push(MicroOp { uses: Pre::Nop, bus: Bus::FetchImm }).push(MicroOp { uses: Pre::Z, bus: Bus::Internal(IntOp::JumpRel) })
        } else {
            // JR cc, d
            post == base && post.queue@ == Seq::<MicroOp>::empty().push(MicroOp { uses: Pre::Nop, bus: Bus::FetchImm }).push(MicroOp { uses: Pre::ZCond(decode::spec_cc((y - 4) as u8)), bus: Bus::Internal(IntOp::JumpRel), })
        }
    } else if z == 1 {
        if q == 0 {
            // LD rp, nn
            post == (CpuRunner { fin: Fin::SetRp(decode::spec_rp(p)), ..base })
                && post.queue@ == Seq::<MicroOp>::empty().push(MicroOp { uses: Pre::Nop, bus: Bus::FetchImm }).push(MicroOp { uses: Pre::Z, bus: Bus::FetchImm })
        } else {
            // ADD HL, rp
            post == base && post.queue@ == Seq::<MicroOp>::empty().push(MicroOp { uses: Pre::Nop, bus: Bus::Internal(IntOp::AddHL(decode::spec_rp(p))) })
        }
    } else if z == 2 {
        let sel = if p == 0 {
            AddrSel::BC
        } else if p == 1 {
            AddrSel::DE
        } else if p == 2 {
            AddrSel::HLInc
        } else {
            AddrSel::HLDec
        };
        if q == 0 {
            // LD (rr), A
            post == base && post.queue@ == Seq::<MicroOp>::empty().push(MicroOp { uses: Pre::Nop, bus: Bus::WriteAt(sel, DataSel::A) })
        } else {
            // LD A, (rr)
            post == (CpuRunner { fin: Fin::SetReg(LoadDest::A), ..base }) && post.queue@
                == Seq::<MicroOp>::empty().push(MicroOp { uses: Pre::Nop, bus: Bus::ReadAt(sel) })
        }
    } else if z == 3 {
        // INC rp / DEC rp
        let iop = if q == 0 {
            IntOp::IncRp(decode::spec_rp(p))
        } else {
            IntOp::DecRp(decode::spec_rp(p))
        };
        post == base && post.queue@ == Seq::<MicroOp>::empty().push(MicroOp { uses: Pre::Nop, bus: Bus::Internal(iop) })
    } else if z == 4 {
        // INC r
        if y == 6 {
            post == base && post.queue@ == Seq::<MicroOp>::empty().push(MicroOp { uses: Pre::Nop, bus: Bus::ReadAt(AddrSel::HL) }).push(MicroOp { uses: Pre::IncZ, bus: Bus::WriteAt(AddrSel::HL, DataSel::Z) })
        } else {
            let v = spec_get_reg8(regs, decode::spec_r(y));
            post == (CpuRunner {
                cpu: Cpu {
                    registers: spec_set_reg8(
                        crate::registers::Registers {
                            f: FRegister {
                                z: alu::spec_inc_result(v) == 0,
                                n: false,
                                h: v % 16 == 15,
                                c: regs.f.c,
                            },
                            ..regs
                        },
                        decode::spec_r(y),
                        alu::spec_inc_result(v),
                    ),
                    ..pre.cpu
                },
                ..base
            }) && post.queue@ == Seq::<MicroOp>::empty()
        }
    } else if z == 5 {
        // DEC r
        if y == 6 {
            post == base && post.queue@ == Seq::<MicroOp>::empty().push(MicroOp { uses: Pre::Nop, bus: Bus::ReadAt(AddrSel::HL) }).push(MicroOp { uses: Pre::DecZ, bus: Bus::WriteAt(AddrSel::HL, DataSel::Z) })
        } else {
            let v = spec_get_reg8(regs, decode::spec_r(y));
            post == (CpuRunner {
                cpu: Cpu {
                    registers: spec_set_reg8(
                        crate::registers::Registers {
                            f: FRegister {
                                z: alu::spec_dec_result(v) == 0,
                                n: true,
                                h: v % 16 == 0,
                                c: regs.f.c,
                            },
                            ..regs
                        },
                        decode::spec_r(y),
                        alu::spec_dec_result(v),
                    ),
                    ..pre.cpu
                },
                ..base
            }) && post.queue@ == Seq::<MicroOp>::empty()
        }
    } else if z == 6 {
        // LD r, n
        if y == 6 {
            post == base && post.queue@ == Seq::<MicroOp>::empty().push(MicroOp { uses: Pre::Nop, bus: Bus::FetchImm }).push(MicroOp { uses: Pre::Z, bus: Bus::WriteAt(AddrSel::HL, DataSel::Z) })
        } else {
            post == (CpuRunner { fin: Fin::SetReg(decode::spec_r(y)), ..base })
                && post.queue@ == Seq::<MicroOp>::empty().push(MicroOp { uses: Pre::Nop, bus: Bus::FetchImm })
        }
    } else {
        // The one-cycle accumulator and flag instructions.
        let cpu2 = if y < 4 {
            // RLCA / RRCA / RLA / RRA: as the CB rotates with Z
            // forced low.
            let op2 = decode::spec_rot(y);
            Cpu {
                registers: crate::registers::Registers {
                    a: alu::spec_rot_result(regs.a, op2, regs.f.c),
                    f: FRegister { z: false, ..alu::spec_rot_flags(regs.a, op2, regs.f.c) },
                    ..regs
                },
                ..pre.cpu
            }
        } else if y == 4 {
            // DAA
            Cpu {
                registers: crate::registers::Registers {
                    a: alu::spec_daa_result(regs.a, regs.f),
                    f: FRegister {
                        z: alu::spec_daa_result(regs.a, regs.f) == 0,
                        n: regs.f.n,
                        h: false,
                        c: alu::spec_daa_carry(regs.a, regs.f),
                    },
                    ..regs
                },
                ..pre.cpu
            }
        } else if y == 5 {
            // CPL
            Cpu {
                registers: crate::registers::Registers {
                    a: !regs.a,
                    f: FRegister { n: true, h: true, ..regs.f },
                    ..regs
                },
                ..pre.cpu
            }
        } else if y == 6 {
            // SCF
            Cpu {
                registers: crate::registers::Registers {
                    f: FRegister { z: regs.f.z, n: false, h: false, c: true },
                    ..regs
                },
                ..pre.cpu
            }
        } else {
            // CCF
            Cpu {
                registers: crate::registers::Registers {
                    f: FRegister { z: regs.f.z, n: false, h: false, c: !regs.f.c },
                    ..regs
                },
                ..pre.cpu
            }
        };
        post == (CpuRunner { cpu: cpu2, ..base }) && post.queue@ == Seq::<MicroOp>::empty()
    }
}

/// Quadrant x = 1 of the decode table (the loads, and HALT).
#[verifier::opaque]
pub open spec fn spec_decode_x1(pre: CpuRunner, post: CpuRunner, op: u8, pending: bool) -> bool {
    let y = (op & 0x38) >> 3;
    let z = op & 0x07;
    let q = y & 1;
    let p = y >> 1;
    let regs = pre.cpu.registers;
    let base = CpuRunner {
        queue: post.queue,
        qi: 0,
        fin: Fin::Nop,
        trapped: false,
        halted: false,
        ..pre
    };
    if op == 0x76 {
        // HALT, or the HALT bug when a request is already pending
        // with IME low.
        if pending && !pre.cpu.ime {
            post == (CpuRunner { halt_bug: true, ..base }) && post.queue@
                == Seq::<MicroOp>::empty()
        } else {
            post == (CpuRunner { halted: true, ..base }) && post.queue@
                == Seq::<MicroOp>::empty()
        }
    } else if y == 6 {
        // LD (HL), r
        post == base && post.queue@ == Seq::<MicroOp>::empty().push(MicroOp { uses: Pre::Nop, bus: Bus::WriteAt(AddrSel::HL, DataSel::Reg(decode::spec_r(z))), })
    } else if z == 6 {
        // LD r, (HL)
        post == (CpuRunner { fin: Fin::SetReg(decode::spec_r(y)), ..base }) && post.queue@
            == Seq::<MicroOp>::empty().push(MicroOp { uses: Pre::Nop, bus: Bus::ReadAt(AddrSel::HL) })
    } else {
        // LD r, r'
        post == (CpuRunner {
            cpu: Cpu {
                registers: spec_set_reg8(
                    regs,
                    decode::spec_r(y),
                    spec_get_reg8(regs, decode::spec_r(z)),
                ),
                ..pre.cpu
            },
            ..base
        }) && post.queue@ == Seq::<MicroOp>::empty()
    }
}

/// Quadrant x = 2 of the decode table (the ALU operations).
#[verifier::opaque]
pub open spec fn spec_decode_x2(pre: CpuRunner, post: CpuRunner, op: u8) -> bool {
    let y = (op & 0x38) >> 3;
    let z = op & 0x07;
    let q = y & 1;
    let p = y >> 1;
    let regs = pre.cpu.registers;
    let base = CpuRunner {
        queue: post.queue,
        qi: 0,
        fin: Fin::Nop,
        trapped: false,
        halted: false,
        ..pre
    };
    if z == 6 {
        // alu A, (HL)
        post == (CpuRunner { fin: Fin::Math(decode::spec_alu(y)), ..base }) && post.queue@
            == Seq::<MicroOp>::empty().push(MicroOp { uses: Pre::Nop, bus: Bus::ReadAt(AddrSel::HL) })
    } else {
        // alu A, r
        post == (CpuRunner {
            cpu: Cpu {
                registers: crate::cpu::spec_do_math(
                    regs,
                    spec_get_reg8(regs, decode::spec_r(z)),
                    decode::spec_alu(y),
                ),
                ..pre.cpu
            },
            ..base
        }) && post.queue@ == Seq::<MicroOp>::empty()
    }
}

/// Quadrant x = 3 of the decode table.
#[verifier::opaque]
pub open spec fn spec_decode_x3(pre: CpuRunner, post: CpuRunner, op: u8) -> bool {
    let y = (op & 0x38) >> 3;
    let z = op & 0x07;
    let q = y & 1;
    let p = y >> 1;
    let regs = pre.cpu.registers;
    let base = CpuRunner {
        queue: post.queue,
        qi: 0,
        fin: Fin::Nop,
        trapped: false,
        halted: false,
        ..pre
    };
    if z == 0 {
        if y < 4 {
            // RET cc
            post == (CpuRunner { fin: Fin::SetPcWz, ..base }) && post.queue@ == Seq::<MicroOp>::empty().push(MicroOp { uses: Pre::Nop, bus: Bus::Internal(IntOp::Idle) }).push(MicroOp { uses: Pre::Cond(decode::spec_cc(y)), bus: Bus::ReadAt(AddrSel::SpInc) }).push(MicroOp { uses: Pre::Z, bus: Bus::ReadAt(AddrSel::SpInc) }).push(MicroOp { uses: Pre::W, bus: Bus::Internal(IntOp::Idle) })
        } else if y == 4 {
            // LDH (n), A
            post == base && post.queue@ == Seq::<MicroOp>::empty().push(MicroOp { uses: Pre::Nop, bus: Bus::FetchImm }).push(MicroOp { uses: Pre::Z, bus: Bus::WriteAt(AddrSel::HighZ, DataSel::A) })
        } else if y == 5 {
            // ADD SP, e
            post == base && post.queue@ == Seq::<MicroOp>::empty().push(MicroOp { uses: Pre::Nop, bus: Bus::FetchImm }).push(MicroOp { uses: Pre::Z, bus: Bus::Internal(IntOp::AddSpZ) }).push(MicroOp { uses: Pre::Nop, bus: Bus::Internal(IntOp::Idle) })
        } else if y == 6 {
            // LDH A, (n)
            post == (CpuRunner { fin: Fin::SetReg(LoadDest::A), ..base }) && post.queue@
                == Seq::<MicroOp>::empty().push(MicroOp { uses: Pre::Nop, bus: Bus::FetchImm }).push(MicroOp { uses: Pre::Z, bus: Bus::ReadAt(AddrSel::HighZ) })
        } else {
            // LD HL, SP+e
            post == base && post.queue@ == Seq::<MicroOp>::empty().push(MicroOp { uses: Pre::Nop, bus: Bus::FetchImm }).push(MicroOp { uses: Pre::Z, bus: Bus::Internal(IntOp::LdHlSpZ) })
        }
    } else if z == 1 {
        if q == 0 {
            // POP rp2
            post == (CpuRunner { fin: Fin::SetRp(decode::spec_rp2(p)), ..base })
                && post.queue@ == Seq::<MicroOp>::empty().push(MicroOp { uses: Pre::Nop, bus: Bus::ReadAt(AddrSel::SpInc) }).push(MicroOp { uses: Pre::Z, bus: Bus::ReadAt(AddrSel::SpInc) })
        } else if p == 0 || p == 1 {
            // RET / RETI
            let f = if p == 0 {
                Fin::SetPcWz
            } else {
                Fin::SetPcWzIme
            };
            post == (CpuRunner { fin: f, ..base }) && post.queue@ == Seq::<MicroOp>::empty().push(MicroOp { uses: Pre::Nop, bus: Bus::ReadAt(AddrSel::SpInc) }).push(MicroOp { uses: Pre::Z, bus: Bus::ReadAt(AddrSel::SpInc) }).push(MicroOp { uses: Pre::W, bus: Bus::Internal(IntOp::Idle) })
        } else if p == 2 {
            // JP HL
            post == (CpuRunner {
                cpu: Cpu {
                    registers: crate::registers::Registers {
                        pc: crate::registers::spec_pair(regs.h, regs.l),
                        ..regs
                    },
                    ..pre.cpu
                },
                ..base
            }) && post.queue@ == Seq::<MicroOp>::empty()
        } else {
            // LD SP, HL
            post == base && post.queue@ == Seq::<MicroOp>::empty().push(MicroOp { uses: Pre::Nop, bus: Bus::Internal(IntOp::LdSpHl) })
        }
    } else if z == 2 {
        if y < 4 {
            // JP cc, nn
            post == (CpuRunner { fin: Fin::SetPcWz, ..base }) && post.queue@ == Seq::<MicroOp>::empty().push(MicroOp { uses: Pre::Nop, bus: Bus::FetchImm }).push(MicroOp { uses: Pre::Z, bus: Bus::FetchImm }).push(MicroOp { uses: Pre::WCond(decode::spec_cc(y)), bus: Bus::Internal(IntOp::Idle) })
        } else if y == 4 {
            // LD (0xFF00+C), A
            post == base && post.queue@ == Seq::<MicroOp>::empty().push(MicroOp { uses: Pre::Nop, bus: Bus::WriteAt(AddrSel::HighC, DataSel::A) })
        } else if y == 5 {
            // LD (nn), A
            post == base && post.queue@ == Seq::<MicroOp>::empty().push(MicroOp { uses: Pre::Nop, bus: Bus::FetchImm }).push(MicroOp { uses: Pre::Z, bus: Bus::FetchImm }).push(MicroOp { uses: Pre::W, bus: Bus::WriteAt(AddrSel::WZ, DataSel::A) })
        } else if y == 6 {
            // LD A, (0xFF00+C)
            post == (CpuRunner { fin: Fin::SetReg(LoadDest::A), ..base }) && post.queue@
                == Seq::<MicroOp>::empty().push(MicroOp { uses: Pre::Nop, bus: Bus::ReadAt(AddrSel::HighC) })
        } else {
            // LD A, (nn)
            post == (CpuRunner { fin: Fin::SetReg(LoadDest::A), ..base }) && post.queue@
                == Seq::<MicroOp>::empty().push(MicroOp { uses: Pre::Nop, bus: Bus::FetchImm }).push(MicroOp { uses: Pre::Z, bus: Bus::FetchImm }).push(MicroOp { uses: Pre::W, bus: Bus::ReadAt(AddrSel::WZ) })
        }
    } else if z == 3 {
        if y == 0 {
            // JP nn
            post == (CpuRunner { fin: Fin::SetPcWz, ..base }) && post.queue@ == Seq::<MicroOp>::empty().push(MicroOp { uses: Pre::Nop, bus: Bus::FetchImm }).push(MicroOp { uses: Pre::Z, bus: Bus::FetchImm }).push(MicroOp { uses: Pre::W, bus: Bus::Internal(IntOp::Idle) })
        } else if y == 1 {
            // The CB prefix: fetch the sub-opcode next.
            post == (CpuRunner { cb_next: true, ..base }) && post.queue@ == Seq::<MicroOp>::empty().push(MicroOp { uses: Pre::Nop, bus: Bus::FetchImm })
        } else if y == 6 {
            // DI
            post == (CpuRunner { cpu: Cpu { ime: false, ..pre.cpu }, ..base })
                && post.queue@ == Seq::<MicroOp>::empty()
        } else if y == 7 {
            // EI
            post == (CpuRunner { ei_pending: true, ..base }) && post.queue@
                == Seq::<MicroOp>::empty()
        } else {
            post == (CpuRunner { trapped: true, ..base }) && post.queue@
                == Seq::<MicroOp>::empty()
        }
    } else if z == 4 {
        if y < 4 {
            // CALL cc, nn
            post == (CpuRunner { fin: Fin::SetPcWz, ..base }) && post.queue@ == Seq::<MicroOp>::empty().push(MicroOp { uses: Pre::Nop, bus: Bus::FetchImm }).push(MicroOp { uses: Pre::Z, bus: Bus::FetchImm }).push(MicroOp { uses: Pre::WCond(decode::spec_cc(y)), bus: Bus::Internal(IntOp::Idle) }).push(MicroOp { uses: Pre::Nop, bus: Bus::WriteAt(AddrSel::SpDec, DataSel::PcHi) }).push(MicroOp { uses: Pre::Nop, bus: Bus::WriteAt(AddrSel::SpDec, DataSel::PcLo) })
        } else {
            post == (CpuRunner { trapped: true, ..base }) && post.queue@
                == Seq::<MicroOp>::empty()
        }
    } else if z == 5 {
        if q == 0 {
            // PUSH rp2
            post == base && post.queue@ == Seq::<MicroOp>::empty().push(MicroOp { uses: Pre::Nop, bus: Bus::Internal(IntOp::Idle) }).push(MicroOp { uses: Pre::Nop, bus: Bus::WriteAt(AddrSel::SpDec, DataSel::RpHi(decode::spec_rp2(p))), }).push(MicroOp { uses: Pre::Nop, bus: Bus::WriteAt(AddrSel::SpDec, DataSel::RpLo(decode::spec_rp2(p))), })
        } else if p == 0 {
            // CALL nn
            post == (CpuRunner { fin: Fin::SetPcWz, ..base }) && post.queue@ == Seq::<MicroOp>::empty().push(MicroOp { uses: Pre::Nop, bus: Bus::FetchImm }).push(MicroOp { uses: Pre::Z, bus: Bus::FetchImm }).push(MicroOp { uses: Pre::W, bus: Bus::Internal(IntOp::Idle) }).push(MicroOp { uses: Pre::Nop, bus: Bus::WriteAt(AddrSel::SpDec, DataSel::PcHi) }).push(MicroOp { uses: Pre::Nop, bus: Bus::WriteAt(AddrSel::SpDec, DataSel::PcLo) })
        } else {
            post == (CpuRunner { trapped: true, ..base }) && post.queue@
                == Seq::<MicroOp>::empty()
        }
    } else if z == 6 {
        // alu A, n
        post == (CpuRunner { fin: Fin::Math(decode::spec_alu(y)), ..base }) && post.queue@
            == Seq::<MicroOp>::empty().push(MicroOp { uses: Pre::Nop, bus: Bus::FetchImm })
    } else {
        // RST y*8
        post == (CpuRunner { fin: Fin::SetPcImm(((y * 8) as u16)), ..base }) && post.queue@
            == Seq::<MicroOp>::empty().push(MicroOp { uses: Pre::Nop, bus: Bus::Internal(IntOp::Idle) }).push(MicroOp { uses: Pre::Nop, bus: Bus::WriteAt(AddrSel::SpDec, DataSel::PcHi) }).push(MicroOp { uses: Pre::Nop, bus: Bus::WriteAt(AddrSel::SpDec, DataSel::PcLo) })
    }
}

/// The complete decode table: how `post` follows from `pre` when the
/// opcode byte `op` is decoded.  Each family either queues its exact
/// micro-op program with its finishing action, or (for register-only
/// instructions) does its register work at once; HALT, the CB prefix
/// and the undefined opcodes set their phase flags.  `pending` is
/// whether any masked interrupt line is raised, which decides HALT's
/// two behaviours.
pub open spec fn spec_decode_effect(pre: CpuRunner, post: CpuRunner, op: u8, pending: bool) -> bool {
    if op >> 6 == 0 {
        spec_decode_x0(pre, post, op)
    } else if op >> 6 == 1 {
        spec_decode_x1(pre, post, op, pending)
    } else if op >> 6 == 2 {
        spec_decode_x2(pre, post, op)
    } else {
        spec_decode_x3(pre, post, op)
    }
}

/// The complete CB-page decode table, over the sub-opcode byte.
#[verifier::opaque]
pub open spec fn spec_decode_cb_effect(pre: CpuRunner, post: CpuRunner, sub: u8) -> bool {
    let x = sub >> 6;
    let y = (sub & 0x38) >> 3;
    let z = sub & 0x07;
    let mask = 1u8 << y;
    let regs = pre.cpu.registers;
    let base = CpuRunner { queue: post.queue, qi: 0, fin: Fin::Nop, ..pre };
    if z == 6 {
        if x == 0 {
            post == base && post.queue@ == Seq::<MicroOp>::empty().push(MicroOp { uses: Pre::Nop, bus: Bus::ReadAt(AddrSel::HL) }).push(MicroOp { uses: Pre::RotZ(decode::spec_rot(y)), bus: Bus::WriteAt(AddrSel::HL, DataSel::Z), })
        } else if x == 1 {
            post == (CpuRunner { fin: Fin::BitD(mask), ..base }) && post.queue@ == Seq::<MicroOp>::empty().push(MicroOp { uses: Pre::Nop, bus: Bus::ReadAt(AddrSel::HL) })
        } else if x == 2 {
            post == base && post.queue@ == Seq::<MicroOp>::empty().push(MicroOp { uses: Pre::Nop, bus: Bus::ReadAt(AddrSel::HL) }).push(MicroOp { uses: Pre::ResZ(mask), bus: Bus::WriteAt(AddrSel::HL, DataSel::Z) })
        } else {
            post == base && post.queue@ == Seq::<MicroOp>::empty().push(MicroOp { uses: Pre::Nop, bus: Bus::ReadAt(AddrSel::HL) }).push(MicroOp { uses: Pre::SetZ(mask), bus: Bus::WriteAt(AddrSel::HL, DataSel::Z) })
        }
    } else {
        let d = decode::spec_r(z);
        let v = spec_get_reg8(regs, d);
        let regs2 = if x == 0 {
            spec_set_reg8(
                crate::registers::Registers {
                    f: alu::spec_rot_flags(v, decode::spec_rot(y), regs.f.c),
                    ..regs
                },
                d,
                alu::spec_rot_result(v, decode::spec_rot(y), regs.f.c),
            )
        } else if x == 1 {
            crate::registers::Registers {
                f: FRegister { z: v & mask != 0, n: false, h: true, c: regs.f.c },
                ..regs
            }
        } else if x == 2 {
            spec_set_reg8(regs, d, (v & !mask))
        } else {
            spec_set_reg8(regs, d, (v | mask))
        };
        post == (CpuRunner { cpu: Cpu { registers: regs2, ..pre.cpu }, ..base }) && post.queue@
            == Seq::<MicroOp>::empty()
    }
}

/// The runner after a micro-op's use of the incoming data byte, and
/// whether a failed branch condition abandons the instruction.
#[verifier::opaque]
pub open spec fn spec_apply_pre(s: CpuRunner, uses: Pre, din: u8) -> (CpuRunner, bool) {
    match uses {
        Pre::Nop => (s, false),
        Pre::Z => (CpuRunner { z: din, ..s }, false),
        Pre::W => (CpuRunner { w: din, ..s }, false),
        Pre::SetReg(d) => (
            CpuRunner {
                cpu: Cpu { registers: spec_set_reg8(s.cpu.registers, d, din), ..s.cpu },
                ..s
            },
            false,
        ),
        Pre::ZCond(c) => (
            CpuRunner { z: din, ..s },
            !crate::cpu::spec_test_condition(s.cpu.registers.f, c),
        ),
        Pre::WCond(c) => (
            CpuRunner { w: din, ..s },
            !crate::cpu::spec_test_condition(s.cpu.registers.f, c),
        ),
        Pre::Cond(c) => (s, !crate::cpu::spec_test_condition(s.cpu.registers.f, c)),
        Pre::RotZ(op) => (
            CpuRunner {
                z: alu::spec_rot_result(din, op, s.cpu.registers.f.c),
                cpu: Cpu {
                    registers: crate::registers::Registers {
                        f: alu::spec_rot_flags(din, op, s.cpu.registers.f.c),
                        ..s.cpu.registers
                    },
                    ..s.cpu
                },
                ..s
            },
            false,
        ),
        Pre::BitD(mask) => (
            CpuRunner {
                cpu: Cpu {
                    registers: crate::registers::Registers {
                        f: FRegister {
                            z: din & mask != 0,
                            n: false,
                            h: true,
                            c: s.cpu.registers.f.c,
                        },
                        ..s.cpu.registers
                    },
                    ..s.cpu
                },
                ..s
            },
            false,
        ),
        Pre::ResZ(mask) => (CpuRunner { z: (din & !mask), ..s }, false),
        Pre::SetZ(mask) => (CpuRunner { z: (din | mask), ..s }, false),
        Pre::IncZ => (
            CpuRunner {
                z: alu::spec_inc_result(din),
                cpu: Cpu {
                    registers: crate::registers::Registers {
                        f: FRegister {
                            z: alu::spec_inc_result(din) == 0,
                            n: false,
                            h: din % 16 == 15,
                            c: s.cpu.registers.f.c,
                        },
                        ..s.cpu.registers
                    },
                    ..s.cpu
                },
                ..s
            },
            false,
        ),
        Pre::DecZ => (
            CpuRunner {
                z: alu::spec_dec_result(din),
                cpu: Cpu {
                    registers: crate::registers::Registers {
                        f: FRegister {
                            z: alu::spec_dec_result(din) == 0,
                            n: true,
                            h: din % 16 == 0,
                            c: s.cpu.registers.f.c,
                        },
                        ..s.cpu.registers
                    },
                    ..s.cpu
                },
                ..s
            },
            false,
        ),
    }
}

/// The runner after the register work of an internal cycle.
#[verifier::opaque]
pub open spec fn spec_do_int_op(s: CpuRunner, op: IntOp) -> CpuRunner {
    let regs = s.cpu.registers;
    match op {
        IntOp::Idle => s,
        IntOp::AddHL(rp) => {
            let hl = crate::registers::spec_pair(regs.h, regs.l);
            let rr = crate::cpu::spec_read_16(regs, rp);
            CpuRunner {
                cpu: Cpu {
                    registers: crate::registers::Registers {
                        h: (alu::spec_add16_result(hl, rr) >> 8) as u8,
                        l: (alu::spec_add16_result(hl, rr) & 0xFF) as u8,
                        f: FRegister {
                            z: regs.f.z,
                            n: false,
                            h: hl % 256 + rr % 256 >= 256,
                            c: hl + rr >= 0x10000,
                        },
                        ..regs
                    },
                    ..s.cpu
                },
                ..s
            }
        },
        IntOp::IncRp(rp) => CpuRunner {
            cpu: Cpu {
                registers: crate::cpu::spec_store_16(
                    regs,
                    (((crate::cpu::spec_read_16(regs, rp) + 1) % 0x10000) as u16),
                    rp,
                ),
                ..s.cpu
            },
            ..s
        },
        IntOp::DecRp(rp) => CpuRunner {
            cpu: Cpu {
                registers: crate::cpu::spec_store_16(
                    regs,
                    (((crate::cpu::spec_read_16(regs, rp) + 0xFFFF) % 0x10000) as u16),
                    rp,
                ),
                ..s.cpu
            },
            ..s
        },
        IntOp::JumpRel => CpuRunner {
            cpu: Cpu {
                registers: crate::registers::Registers {
                    pc: alu::spec_add_signed16(regs.pc, s.z),
                    ..regs
                },
                ..s.cpu
            },
            ..s
        },
        IntOp::AddSpZ => CpuRunner {
            cpu: Cpu {
                registers: crate::registers::Registers {
                    sp: alu::spec_add_signed16(regs.sp, s.z),
                    f: alu::spec_sp_offset_flags(regs.sp, s.z),
                    ..regs
                },
                ..s.cpu
            },
            ..s
        },
        IntOp::LdHlSpZ => CpuRunner {
            cpu: Cpu {
                registers: crate::registers::Registers {
                    h: (alu::spec_add_signed16(regs.sp, s.z) >> 8) as u8,
                    l: (alu::spec_add_signed16(regs.sp, s.z) & 0xFF) as u8,
                    f: alu::spec_sp_offset_flags(regs.sp, s.z),
                    ..regs
                },
                ..s.cpu
            },
            ..s
        },
        IntOp::LdSpHl => CpuRunner {
            cpu: Cpu {
                registers: crate::registers::Registers {
                    sp: crate::registers::spec_pair(regs.h, regs.l),
                    ..regs
                },
                ..s.cpu
            },
            ..s
        },
    }
}

/// The runner after an address selector's register side effect, and
/// the address it resolves to.
#[verifier::opaque]
pub open spec fn spec_resolve_addr(s: CpuRunner, a: AddrSel) -> (CpuRunner, u16) {
    let regs = s.cpu.registers;
    match a {
        AddrSel::BC => (s, crate::registers::spec_pair(regs.b, regs.c)),
        AddrSel::DE => (s, crate::registers::spec_pair(regs.d, regs.e)),
        AddrSel::HL => (s, crate::registers::spec_pair(regs.h, regs.l)),
        AddrSel::HLInc => {
            let hl = crate::registers::spec_pair(regs.h, regs.l);
            let next = ((hl + 1) % 0x10000) as u16;
            (
                CpuRunner {
                    cpu: Cpu {
                        registers: crate::registers::Registers {
                            h: (next >> 8) as u8,
                            l: (next & 0xFF) as u8,
                            ..regs
                        },
                        ..s.cpu
                    },
                    ..s
                },
                hl,
            )
        },
        AddrSel::HLDec => {
            let hl = crate::registers::spec_pair(regs.h, regs.l);
            let next = ((hl + 0xFFFF) % 0x10000) as u16;
            (
                CpuRunner {
                    cpu: Cpu {
                        registers: crate::registers::Registers {
                            h: (next >> 8) as u8,
                            l: (next & 0xFF) as u8,
                            ..regs
                        },
                        ..s.cpu
                    },
                    ..s
                },
                hl,
            )
        },
        AddrSel::WZ => (s, ((s.w * 256 + s.z) as u16)),
        AddrSel::WZInc => {
            let wz = (s.w * 256 + s.z) as u16;
            let next = ((wz + 1) % 0x10000) as u16;
            (CpuRunner { w: (next >> 8) as u8, z: (next & 0xFF) as u8, ..s }, wz)
        },
        AddrSel::HighZ => (s, ((0xFF00 + s.z) as u16)),
        AddrSel::HighC => (s, ((0xFF00 + regs.c) as u16)),
        AddrSel::SpInc => (
            CpuRunner {
                cpu: Cpu {
                    registers: crate::registers::Registers {
                        sp: (((regs.sp + 1) % 0x10000) as u16),
                        ..regs
                    },
                    ..s.cpu
                },
                ..s
            },
            regs.sp,
        ),
        AddrSel::SpDec => {
            let nsp = ((regs.sp + 0xFFFF) % 0x10000) as u16;
            (
                CpuRunner {
                    cpu: Cpu {
                        registers: crate::registers::Registers { sp: nsp, ..regs },
                        ..s.cpu
                    },
                    ..s
                },
                nsp,
            )
        },
    }
}

/// The byte a data selector reads.
#[verifier::opaque]
pub open spec fn spec_resolve_data(s: CpuRunner, d: DataSel) -> u8 {
    let regs = s.cpu.registers;
    match d {
        DataSel::A => regs.a,
        DataSel::Z => s.z,
        DataSel::SpLo => (regs.sp & 0xFF) as u8,
        DataSel::SpHi => (regs.sp >> 8) as u8,
        DataSel::PcLo => (regs.pc & 0xFF) as u8,
        DataSel::PcHi => (regs.pc >> 8) as u8,
        DataSel::RpLo(rp) => (crate::cpu::spec_read_16(regs, rp) & 0xFF) as u8,
        DataSel::RpHi(rp) => (crate::cpu::spec_read_16(regs, rp) >> 8) as u8,
        DataSel::Reg(r) => spec_get_reg8(regs, r),
    }
}

/// The runner after a micro-op's bus action, and the pins it emits.
#[verifier::opaque]
pub open spec fn spec_do_bus(s: CpuRunner, bus: Bus) -> (CpuRunner, CpuOutputPins) {
    match bus {
        Bus::FetchImm => (
            CpuRunner {
                cpu: Cpu {
                    registers: crate::registers::Registers {
                        pc: (((s.cpu.registers.pc + 1) % 0x10000) as u16),
                        ..s.cpu.registers
                    },
                    ..s.cpu
                },
                ..s
            },
            CpuOutputPins::Read { addr: s.cpu.registers.pc },
        ),
        Bus::Internal(op) => (spec_do_int_op(s, op), CpuOutputPins::Read { addr: 0 }),
        Bus::ReadAt(a) => {
            let (s2, addr) = spec_resolve_addr(s, a);
            (s2, CpuOutputPins::Read { addr })
        },
        Bus::WriteAt(a, d) => {
            let v = spec_resolve_data(s, d);
            let (s2, addr) = spec_resolve_addr(s, a);
            (s2, CpuOutputPins::Write { addr, data: v })
        },
    }
}

/// The runner after an instruction's finishing action.
#[verifier::opaque]
pub open spec fn spec_apply_fin(s: CpuRunner, fin: Fin, din: u8) -> CpuRunner {
    let regs = s.cpu.registers;
    match fin {
        Fin::Nop => s,
        Fin::SetReg(d) => CpuRunner {
            cpu: Cpu { registers: spec_set_reg8(regs, d, din), ..s.cpu },
            ..s
        },
        Fin::Math(op) => CpuRunner {
            cpu: Cpu { registers: crate::cpu::spec_do_math(regs, din, op), ..s.cpu },
            ..s
        },
        Fin::SetRp(rp) => CpuRunner {
            cpu: Cpu {
                registers: crate::cpu::spec_store_16(regs, ((din * 256 + s.z) as u16), rp),
                ..s.cpu
            },
            ..s
        },
        Fin::SetPcWz => CpuRunner {
            cpu: Cpu {
                registers: crate::registers::Registers { pc: ((s.w * 256 + s.z) as u16), ..regs },
                ..s.cpu
            },
            ..s
        },
        Fin::SetPcWzIme => CpuRunner {
            cpu: Cpu {
                registers: crate::registers::Registers { pc: ((s.w * 256 + s.z) as u16), ..regs },
                ime: true,
            },
            ..s
        },
        Fin::SetPcImm(v) => CpuRunner {
            cpu: Cpu { registers: crate::registers::Registers { pc: v, ..regs }, ..s.cpu },
            ..s
        },
        Fin::BitD(mask) => CpuRunner {
            cpu: Cpu {
                registers: crate::registers::Registers {
                    f: FRegister { z: din & mask != 0, n: false, h: true, c: regs.f.c },
                    ..regs
                },
                ..s.cpu
            },
            ..s
        },
    }
}

/// The runner and yield of an opcode fetch: the pins read the current
/// PC, which advances unless the HALT bug suppresses the increment.
#[verifier::opaque]
pub open spec fn spec_emit_fetch(s: CpuRunner) -> (CpuRunner, CpuRunnerYield) {
    let pc = s.cpu.registers.pc;
    (
        CpuRunner {
            cpu: Cpu {
                registers: crate::registers::Registers {
                    pc: (if s.halt_bug {
                        pc
                    } else {
                        (((pc + 1) % 0x10000) as u16)
                    }),
                    ..s.cpu.registers
                },
                ..s.cpu
            },
            fetched: true,
            halt_bug: false,
            ..s
        },
        CpuRunnerYield {
            pins: CpuOutputPins::Read { addr: pc },
            is_fetch_cycle: true,
            interrupt_ack: None,
        },
    )
}

/// The runner and yield of a beginning interrupt dispatch: IME falls,
/// the lowest pending line is latched and acknowledged, and an idle
/// cycle is emitted.
#[verifier::opaque]
pub open spec fn spec_begin_dispatch(s: CpuRunner, pins: CpuInputPins) -> (
    CpuRunner,
    CpuRunnerYield,
) {
    (
        CpuRunner {
            cpu: Cpu { ime: false, ..s.cpu },
            dispatch_step: 4,
            dispatch_index: spec_lowest_interrupt(pins),
            ..s
        },
        CpuRunnerYield {
            pins: CpuOutputPins::Read { addr: 0 },
            is_fetch_cycle: false,
            interrupt_ack: Some(spec_lowest_interrupt(pins)),
        },
    )
}

/// What happens at an instruction boundary: with IME set and a line
/// pending the dispatch begins; otherwise the next opcode is fetched.
pub open spec fn spec_boundary(s: CpuRunner, pins: CpuInputPins, post: CpuRunner, r: CpuRunnerYield) -> bool {
    if s.cpu.ime && pins.spec_any_interrupt() {
        (post, r) == spec_begin_dispatch(s, pins)
    } else {
        (post, r) == spec_emit_fetch(s)
    }
}

/// The runner and yield of one cycle of a dispatch in progress: an
/// idle cycle, the two pushes of PC, then the jump to the vector with
/// the fetch of its first byte.
#[verifier::opaque]
pub open spec fn spec_dispatch_cycle(s: CpuRunner) -> (CpuRunner, CpuRunnerYield) {
    let regs = s.cpu.registers;
    if s.dispatch_step >= 4 {
        (
            CpuRunner { dispatch_step: 3, ..s },
            CpuRunnerYield {
                pins: CpuOutputPins::Read { addr: 0 },
                is_fetch_cycle: false,
                interrupt_ack: None,
            },
        )
    } else if s.dispatch_step == 3 {
        let nsp = ((regs.sp + 0xFFFF) % 0x10000) as u16;
        (
            CpuRunner {
                cpu: Cpu { registers: crate::registers::Registers { sp: nsp, ..regs }, ..s.cpu },
                dispatch_step: 2,
                ..s
            },
            CpuRunnerYield {
                pins: CpuOutputPins::Write { addr: nsp, data: (regs.pc >> 8) as u8 },
                is_fetch_cycle: false,
                interrupt_ack: None,
            },
        )
    } else if s.dispatch_step == 2 {
        let nsp = ((regs.sp + 0xFFFF) % 0x10000) as u16;
        (
            CpuRunner {
                cpu: Cpu { registers: crate::registers::Registers { sp: nsp, ..regs }, ..s.cpu },
                dispatch_step: 1,
                ..s
            },
            CpuRunnerYield {
                pins: CpuOutputPins::Write { addr: nsp, data: (regs.pc & 0xFF) as u8 },
                is_fetch_cycle: false,
                interrupt_ack: None,
            },
        )
    } else {
        spec_emit_fetch(
            CpuRunner {
                cpu: Cpu {
                    registers: crate::registers::Registers {
                        pc: ((0x40 + s.dispatch_index * 8) as u16),
                        ..regs
                    },
                    ..s.cpu
                },
                dispatch_step: 0,
                ..s
            },
        )
    }
}

/// Two runner states that hold the same instruction program and machine
/// phase, differing at most in the CPU registers and the operand
/// latches.
pub open spec fn spec_same_program(a: CpuRunner, b: CpuRunner) -> bool {
    &&& a.queue@ == b.queue@
    &&& a.qi == b.qi
    &&& a.fin == b.fin
    &&& a.fetched == b.fetched
    &&& a.cb_next == b.cb_next
    &&& a.dispatch_step == b.dispatch_step
    &&& a.dispatch_index == b.dispatch_index
    &&& a.halted == b.halted
    &&& a.trapped == b.trapped
    &&& a.halt_bug == b.halt_bug
    &&& a.ei_pending == b.ei_pending
}

/// The CB-page cycle table, derived from its decode table: two fetch
/// cycles plus one per queued micro-op.
#[verifier::rlimit(100)]
pub proof fn lemma_decode_cb_cycle_table(pre: CpuRunner, post: CpuRunner, sub: u8)
    requires
        spec_decode_cb_effect(pre, post, sub),
    ensures
        post.qi == 0,
        2 + post.queue@.len() == spec_cb_cycles(sub),
        spec_cond_cut(post.queue@) == post.queue@.len(),
{
    reveal(spec_decode_cb_effect);
    reveal_with_fuel(spec_cond_cut_from, 4);
}

/// The whole one-M-cycle relation of the CPU: every phase clause of
/// [`CpuRunner::clock`]'s contract, gathered under one name so that
/// the bus top can state that its cycle performed exactly one CPU
/// step.  See the clock's own ensures for the commented, clause-by-
/// clause form.
#[verifier::opaque]
pub open spec fn spec_cpu_clock_rel(pre: CpuRunner, post: CpuRunner, pins: CpuInputPins, r: CpuRunnerYield) -> bool {
    &&& (r.interrupt_ack is Some ==> pins.spec_any_interrupt() && r.interrupt_ack == Some(
                spec_lowest_interrupt(pins),
            ))
    &&& (r.is_fetch_cycle ==> r.pins matches CpuOutputPins::Read { .. })
    &&& (r.is_fetch_cycle ==> post.fetched)
    &&& (pre.trapped ==> post == pre && r == (CpuRunnerYield {
                pins: CpuOutputPins::Read { addr: 0 },
                is_fetch_cycle: false,
                interrupt_ack: None,
            }))
    &&& ((!pre.trapped && pre.dispatch_step > 0) ==> (post, r)
                == spec_dispatch_cycle(pre))
    &&& ((!pre.trapped && pre.dispatch_step == 0 && pre.halted) ==> (
            if !pins.spec_any_interrupt() {
                post == pre && r == (CpuRunnerYield {
                    pins: CpuOutputPins::Read { addr: 0 },
                    is_fetch_cycle: false,
                    interrupt_ack: None,
                })
            } else {
                spec_boundary(CpuRunner { halted: false, ..pre }, pins, post, r)
            }))
    &&& ((!pre.trapped && pre.dispatch_step == 0 && !pre.halted && !pre.fetched && !pre.cb_next && pre.qi < pre.queue@.len()) ==> ({
                let op = pre.queue@[pre.qi as int];
                let stepped = CpuRunner { qi: ((pre.qi + 1) as usize), ..pre };
                let (s2, skip) = spec_apply_pre(stepped, op.uses, pins.data);
                if !skip {
                    post == spec_do_bus(s2, op.bus).0 && r == (CpuRunnerYield {
                        pins: spec_do_bus(s2, op.bus).1,
                        is_fetch_cycle: false,
                        interrupt_ack: None,
                    })
                } else {
                    spec_boundary(
                        CpuRunner {
                            qi: (s2.queue@.len() as usize),
                            fin: Fin::Nop,
                            ..s2
                        },
                        pins,
                        post,
                        r,
                    )
                }
            }))
    &&& ((!pre.trapped && pre.dispatch_step == 0 && !pre.halted && !pre.fetched && !pre.cb_next && pre.qi >= pre.queue@.len())
                ==> spec_boundary(
                spec_apply_fin(
                    CpuRunner { fin: Fin::Nop, ..pre },
                    pre.fin,
                    pins.data,
                ),
                pins,
                post,
                r,
            ))
}

/// Drives a [`Cpu`] one M-cycle at a time, holding the in-flight
/// instruction's remaining micro-ops, its finishing action and the two
/// operand latches.
pub struct CpuRunner {
    pub cpu: Cpu,
    /// Remaining micro-ops of the current instruction.
    pub queue: Vec<MicroOp>,
    /// Index of the next micro-op; equal to the queue length when the
    /// instruction is on its overlap cycle.
    pub qi: usize,
    /// The finishing action, applied on the overlap cycle.
    pub fin: Fin,
    /// The previous cycle emitted an opcode fetch.
    pub fetched: bool,
    /// The previous cycle emitted the fetch of a CB sub-opcode.
    pub cb_next: bool,
    /// Low operand latch.
    pub z: u8,
    /// High operand latch.
    pub w: u8,
    /// Remaining dispatch cycles (0 when not dispatching).
    pub dispatch_step: u8,
    /// The interrupt index being dispatched.
    pub dispatch_index: u8,
    pub halted: bool,
    pub trapped: bool,
    /// The next opcode fetch must not advance PC (the HALT bug).
    pub halt_bug: bool,
    /// An EI was executed; IME rises when the next opcode is decoded.
    pub ei_pending: bool,
}

impl Cpu {
    /// Wrap this CPU state in a runner, ready to fetch its first
    /// instruction.
    pub fn runner(self) -> (r: CpuRunner)
        ensures
            r.cpu == self,
            !r.spec_trapped(),
            !r.spec_halted(),
    {
        CpuRunner {
            cpu: self,
            queue: Vec::new(),
            qi: 0,
            fin: Fin::Nop,
            fetched: false,
            cb_next: false,
            z: 0,
            w: 0,
            dispatch_step: 0,
            dispatch_index: 0,
            halted: false,
            trapped: false,
            halt_bug: false,
            ei_pending: false,
        }
    }
}

impl CpuRunner {
    /// True once the CPU has trapped on an undefined opcode.
    pub closed spec fn spec_trapped(&self) -> bool {
        self.trapped
    }

    /// True while the CPU is halted.
    pub closed spec fn spec_halted(&self) -> bool {
        self.halted
    }

    /// True once the CPU has trapped on an undefined opcode.
    pub fn is_trapped(&self) -> (r: bool)
        ensures
            r == self.spec_trapped(),
    {
        self.trapped
    }

    /// The phase the machine is currently in.
    pub fn state(&self) -> (r: CpuState)
        ensures
            self.spec_trapped() ==> r == CpuState::Trapped,
            self.spec_halted() && !self.spec_trapped() ==> r == CpuState::Halted,
    {
        if self.trapped {
            CpuState::Trapped
        } else if self.halted {
            CpuState::Halted
        } else if self.dispatch_step > 0 {
            CpuState::Dispatching
        } else if self.qi < self.queue.len() {
            CpuState::Executing
        } else {
            CpuState::ReadyForInstruction
        }
    }

    /// Apply a micro-op's use of the incoming data byte.  Returns true
    /// when a failed branch condition abandons the instruction.
    #[verifier::rlimit(60)]
    fn apply_pre(&mut self, uses: Pre, din: u8) -> (skip: bool)
        ensures
            skip ==> spec_pre_is_cond(uses),
            spec_same_program(*final(self), *old(self)),
            final(self).cpu.ime == old(self).cpu.ime,
            *final(self) == spec_apply_pre(*old(self), uses, din).0,
            skip == spec_apply_pre(*old(self), uses, din).1,
    {
        proof {
            reveal(spec_apply_pre);
        }
        match uses {
            Pre::Nop => false,
            Pre::Z => {
                self.z = din;
                false
            }
            Pre::W => {
                self.w = din;
                false
            }
            Pre::SetReg(d) => {
                self.set_reg8(d, din);
                false
            }
            Pre::ZCond(c) => {
                self.z = din;
                !self.cpu.test_condition(c)
            }
            Pre::WCond(c) => {
                self.w = din;
                !self.cpu.test_condition(c)
            }
            Pre::Cond(c) => !self.cpu.test_condition(c),
            Pre::RotZ(op) => {
                self.z = self.cpu.do_rotate_shift(din, op);
                false
            }
            Pre::BitD(mask) => {
                let f = self.cpu.registers.f;
                self.cpu.registers.f = FRegister {
                    z: din & mask != 0,
                    n: false,
                    h: true,
                    c: f.c,
                };
                false
            }
            Pre::ResZ(mask) => {
                self.z = din & !mask;
                false
            }
            Pre::SetZ(mask) => {
                self.z = din | mask;
                false
            }
            Pre::IncZ => {
                let (nv, f) = alu::alu_inc(din, self.cpu.registers.f);
                self.z = nv;
                self.cpu.registers.f = f;
                false
            }
            Pre::DecZ => {
                let (nv, f) = alu::alu_dec(din, self.cpu.registers.f);
                self.z = nv;
                self.cpu.registers.f = f;
                false
            }
        }
    }

    /// Store a byte into one of the eight-bit registers.  The (HL) slot
    /// never reaches this path; it is handled by explicit bus writes.
    fn set_reg8(&mut self, d: LoadDest, v: u8)
        ensures
            *final(self) == (CpuRunner {
                cpu: Cpu {
                    registers: spec_set_reg8(old(self).cpu.registers, d, v),
                    ..old(self).cpu
                },
                ..*old(self)
            }),
    {
        match d {
            LoadDest::B => self.cpu.registers.b = v,
            LoadDest::C => self.cpu.registers.c = v,
            LoadDest::D => self.cpu.registers.d = v,
            LoadDest::E => self.cpu.registers.e = v,
            LoadDest::H => self.cpu.registers.h = v,
            LoadDest::L => self.cpu.registers.l = v,
            LoadDest::IndHL => {}
            LoadDest::A => self.cpu.registers.a = v,
        }
    }

    /// Read one of the eight-bit registers.  The (HL) slot never
    /// reaches this path.
    fn get_reg8(&self, d: LoadDest) -> (r: u8)
        ensures
            r == spec_get_reg8(self.cpu.registers, d),
    {
        match d {
            LoadDest::B => self.cpu.registers.b,
            LoadDest::C => self.cpu.registers.c,
            LoadDest::D => self.cpu.registers.d,
            LoadDest::E => self.cpu.registers.e,
            LoadDest::H => self.cpu.registers.h,
            LoadDest::L => self.cpu.registers.l,
            LoadDest::IndHL => 0,
            LoadDest::A => self.cpu.registers.a,
        }
    }

    /// Resolve an address selector, applying its register side effect.
    fn resolve_addr(&mut self, a: AddrSel) -> (r: u16)
        ensures
            *final(self) == spec_resolve_addr(*old(self), a).0,
            r == spec_resolve_addr(*old(self), a).1,
    {
        proof {
            reveal(spec_resolve_addr);
        }
        match a {
            AddrSel::BC => self.cpu.registers.get_bc(),
            AddrSel::DE => self.cpu.registers.get_de(),
            AddrSel::HL => self.cpu.registers.get_hl(),
            AddrSel::HLInc => {
                let hl = self.cpu.registers.get_hl();
                self.cpu.registers.set_hl(((hl as u32 + 1) % 0x10000) as u16);
                hl
            }
            AddrSel::HLDec => {
                let hl = self.cpu.registers.get_hl();
                self.cpu.registers.set_hl(((hl as u32 + 0xFFFF) % 0x10000) as u16);
                hl
            }
            AddrSel::WZ => (self.w as u16) * 256 + (self.z as u16),
            AddrSel::WZInc => {
                let wz: u16 = (self.w as u16) * 256 + (self.z as u16);
                let next: u16 = ((wz as u32 + 1) % 0x10000) as u16;
                self.w = (next >> 8) as u8;
                self.z = (next & 0xFF) as u8;
                wz
            }
            AddrSel::HighZ => 0xFF00 + (self.z as u16),
            AddrSel::HighC => 0xFF00 + (self.cpu.registers.c as u16),
            AddrSel::SpInc => {
                let sp = self.cpu.registers.sp;
                self.cpu.registers.sp = ((sp as u32 + 1) % 0x10000) as u16;
                sp
            }
            AddrSel::SpDec => {
                let sp = self.cpu.registers.sp;
                let nsp: u16 = ((sp as u32 + 0xFFFF) % 0x10000) as u16;
                self.cpu.registers.sp = nsp;
                nsp
            }
        }
    }

    /// Resolve a data selector for a bus write.
    fn resolve_data(&self, d: DataSel) -> (r: u8)
        ensures
            r == spec_resolve_data(*self, d),
    {
        proof {
            reveal(spec_resolve_data);
        }
        match d {
            DataSel::A => self.cpu.registers.a,
            DataSel::Z => self.z,
            DataSel::SpLo => (self.cpu.registers.sp & 0xFF) as u8,
            DataSel::SpHi => (self.cpu.registers.sp >> 8) as u8,
            DataSel::PcLo => (self.cpu.registers.pc & 0xFF) as u8,
            DataSel::PcHi => (self.cpu.registers.pc >> 8) as u8,
            DataSel::RpLo(rp) => (self.cpu.read_16_bits(rp) & 0xFF) as u8,
            DataSel::RpHi(rp) => (self.cpu.read_16_bits(rp) >> 8) as u8,
            DataSel::Reg(r) => self.get_reg8(r),
        }
    }

    /// Perform the register work of an internal cycle.
    fn do_int_op(&mut self, op: IntOp)
        ensures
            *final(self) == spec_do_int_op(*old(self), op),
    {
        proof {
            reveal(spec_do_int_op);
        }
        match op {
            IntOp::Idle => {}
            IntOp::AddHL(rp) => {
                let hl = self.cpu.registers.get_hl();
                let rr = self.cpu.read_16_bits(rp);
                let (res, f) = alu::alu_add16(hl, rr, self.cpu.registers.f);
                self.cpu.registers.set_hl(res);
                self.cpu.registers.f = f;
            }
            IntOp::IncRp(rp) => {
                let v = self.cpu.read_16_bits(rp);
                self.cpu.store_16_bits(((v as u32 + 1) % 0x10000) as u16, rp);
            }
            IntOp::DecRp(rp) => {
                let v = self.cpu.read_16_bits(rp);
                self.cpu.store_16_bits(((v as u32 + 0xFFFF) % 0x10000) as u16, rp);
            }
            IntOp::JumpRel => {
                let pc = self.cpu.registers.pc;
                self.cpu.registers.pc = alu::add_signed16(pc, self.z);
            }
            IntOp::AddSpZ => {
                let sp = self.cpu.registers.sp;
                self.cpu.registers.f = alu::sp_offset_flags(sp, self.z);
                self.cpu.registers.sp = alu::add_signed16(sp, self.z);
            }
            IntOp::LdHlSpZ => {
                let sp = self.cpu.registers.sp;
                self.cpu.registers.f = alu::sp_offset_flags(sp, self.z);
                let res = alu::add_signed16(sp, self.z);
                self.cpu.registers.set_hl(res);
            }
            IntOp::LdSpHl => {
                self.cpu.registers.sp = self.cpu.registers.get_hl();
            }
        }
    }

    /// Emit the bus operation of a micro-op, applying its register side
    /// effects.
    fn do_bus(&mut self, bus: Bus) -> (r: CpuOutputPins)
        ensures
            *final(self) == spec_do_bus(*old(self), bus).0,
            r == spec_do_bus(*old(self), bus).1,
    {
        proof {
            reveal(spec_do_bus);
        }
        match bus {
            Bus::FetchImm => self.cpu.fetch_byte(),
            Bus::Internal(op) => {
                self.do_int_op(op);
                self.cpu.nop()
            }
            Bus::ReadAt(a) => {
                let addr = self.resolve_addr(a);
                self.cpu.read_byte(addr)
            }
            Bus::WriteAt(a, d) => {
                let data = self.resolve_data(d);
                let addr = self.resolve_addr(a);
                self.cpu.write_byte(addr, data)
            }
        }
    }

    /// Apply the finishing action of an instruction on its overlap
    /// cycle.
    fn apply_fin(&mut self, fin: Fin, din: u8)
        ensures
            *final(self) == spec_apply_fin(*old(self), fin, din),
            spec_same_program(*final(self), *old(self)),
    {
        proof {
            reveal(spec_apply_fin);
        }
        match fin {
            Fin::Nop => {}
            Fin::SetReg(d) => self.set_reg8(d, din),
            Fin::Math(op) => self.cpu.do_math(din, op),
            Fin::SetRp(rp) => {
                let v: u16 = (din as u16) * 256 + (self.z as u16);
                self.cpu.store_16_bits(v, rp);
            }
            Fin::SetPcWz => {
                self.cpu.registers.pc = (self.w as u16) * 256 + (self.z as u16);
            }
            Fin::SetPcWzIme => {
                self.cpu.registers.pc = (self.w as u16) * 256 + (self.z as u16);
                self.cpu.ime = true;
            }
            Fin::SetPcImm(v) => {
                self.cpu.registers.pc = v;
            }
            Fin::BitD(mask) => {
                let f = self.cpu.registers.f;
                self.cpu.registers.f = FRegister {
                    z: din & mask != 0,
                    n: false,
                    h: true,
                    c: f.c,
                };
            }
        }
    }
}


impl CpuRunner {
    /// Decode an opcode byte into this instruction's micro-op program.
    ///
    /// Register-only instructions do their work right here, on the cycle
    /// that overlaps the fetch of the byte that follows them.  `pending`
    /// reports whether any masked interrupt line is raised, which decides
    /// whether HALT actually halts or triggers the HALT bug.
    ///
    /// The program length carries the cycle accounting: an instruction
    /// costs one M-cycle for its own fetch plus one per queued micro-op,
    /// and a failed branch condition cuts the program at its conditional
    /// micro-op.  Both counts are proved equal to [`spec_instr_cycles`].
    /// Decode an opcode byte into this instruction's micro-op program,
    /// as [`spec_decode_effect`] states family by family.
    ///
    /// Register-only instructions do their work right here, on the cycle
    /// that overlaps the fetch of the byte that follows them.  `pending`
    /// reports whether any masked interrupt line is raised, which decides
    /// whether HALT actually halts or triggers the HALT bug.
    ///
    /// The program length carries the cycle accounting: an instruction
    /// costs one M-cycle for its own fetch plus one per queued micro-op,
    /// and a failed branch condition cuts the program at its conditional
    /// micro-op.  Both counts are proved equal to [`spec_instr_cycles`].
    pub fn decode_first(&mut self, opcode: u8, pending: bool)
        ensures
            final(self).spec_trapped() == spec_is_undefined(opcode),
            opcode == 0x76 ==> final(self).spec_halted() == !(pending && !old(self).cpu.ime),
            opcode != 0x76 ==> !final(self).spec_halted(),
            spec_decode_effect(*old(self), *final(self), opcode, pending),
            (!spec_is_undefined(opcode) && opcode != 0x76 && opcode != 0xCB) ==> {
                &&& final(self).qi == 0
                &&& 1 + final(self).queue@.len() == spec_instr_cycles(opcode, true)
                &&& 1 + spec_cond_cut(final(self).queue@) == spec_instr_cycles(opcode, false)
            },
    {
        self.qi = 0;
        self.fin = Fin::Nop;
        self.queue = Vec::new();
        self.trapped = false;
        self.halted = false;
        let ghost pre = *old(self);
        let o = Opcode(opcode);
        let x = o.x();
        proof {
            let op = opcode;
            assert(op == (op >> 6) * 64 + ((op & 0x38) >> 3) * 8 + (op & 0x07)) by (bit_vector);
            assert(op >> 6 < 4 && ((op & 0x38) >> 3) < 8 && (op & 0x07) < 8) by (bit_vector);
        }
        if x == 0 {
            self.decode_arm_x0(o, Ghost(pre));
        } else if x == 1 {
            self.decode_arm_x1(o, pending, Ghost(pre));
        } else if x == 2 {
            self.decode_arm_x2(o, Ghost(pre));
        } else {
            self.decode_arm_x3(o, Ghost(pre));
        }
    }

    /// Decode quadrant x = 0, from the freshly reset program state.
    #[verifier::rlimit(100)]
    #[verifier::spinoff_prover]
    fn decode_arm_x0(&mut self, o: Opcode, Ghost(pre): Ghost<CpuRunner>)
        requires
            o.0 >> 6 == 0,
            *old(self) == (CpuRunner {
                queue: old(self).queue,
                qi: 0,
                fin: Fin::Nop,
                trapped: false,
                halted: false,
                ..pre
            }),
            old(self).queue@ == Seq::<MicroOp>::empty(),
        ensures
            spec_decode_x0(pre, *final(self), o.0),
            !final(self).trapped,
            !final(self).halted,
            final(self).qi == 0,
            1 + final(self).queue@.len() == spec_instr_cycles(o.0, true),
            1 + spec_cond_cut(final(self).queue@) == spec_instr_cycles(o.0, false),
    {
        proof {
            reveal(spec_decode_x0);
        }
        proof {
            let op = o.0;
            assert(op == (op >> 6) * 64 + ((op & 0x38) >> 3) * 8 + (op & 0x07)) by (bit_vector);
            assert(((op & 0x38) >> 3) == (((op & 0x38) >> 3) >> 1) * 2 + (((op & 0x38) >> 3)
                & 1)) by (bit_vector);
            reveal_with_fuel(spec_cond_cut_from, 8);
        }
        let y = o.y();
        let z = o.z();
        let q = o.q();
        let p = o.p();
        if z == 0 {
            if y == 0 {
                // NOP
            } else if y == 1 {
                // LD (nn), SP
                self.queue.push(MicroOp { uses: Pre::Nop, bus: Bus::FetchImm });
                self.queue.push(MicroOp { uses: Pre::Z, bus: Bus::FetchImm });
                self.queue.push(
                    MicroOp { uses: Pre::W, bus: Bus::WriteAt(AddrSel::WZInc, DataSel::SpLo) },
                );
                self.queue.push(
                    MicroOp { uses: Pre::Nop, bus: Bus::WriteAt(AddrSel::WZ, DataSel::SpHi) },
                );
            } else if y == 2 {
                // STOP, treated as a one-cycle NOP: no stop-wake input
                // exists in this core.
            } else if y == 3 {
                // JR d
                self.queue.push(MicroOp { uses: Pre::Nop, bus: Bus::FetchImm });
                self.queue.push(MicroOp { uses: Pre::Z, bus: Bus::Internal(IntOp::JumpRel) });
            } else {
                // JR cc, d
                let cond = decode::cc(y - 4);
                self.queue.push(MicroOp { uses: Pre::Nop, bus: Bus::FetchImm });
                self.queue.push(
                    MicroOp { uses: Pre::ZCond(cond), bus: Bus::Internal(IntOp::JumpRel) },
                );
            }
        } else if z == 1 {
            let rp = decode::rp(p);
            if q == 0 {
                // LD rp, nn
                self.queue.push(MicroOp { uses: Pre::Nop, bus: Bus::FetchImm });
                self.queue.push(MicroOp { uses: Pre::Z, bus: Bus::FetchImm });
                self.fin = Fin::SetRp(rp);
            } else {
                // ADD HL, rp
                self.queue.push(
                    MicroOp { uses: Pre::Nop, bus: Bus::Internal(IntOp::AddHL(rp)) },
                );
            }
        } else if z == 2 {
            let addr = if p == 0 {
                AddrSel::BC
            } else if p == 1 {
                AddrSel::DE
            } else if p == 2 {
                AddrSel::HLInc
            } else {
                AddrSel::HLDec
            };
            if q == 0 {
                // LD (rr), A
                self.queue.push(MicroOp { uses: Pre::Nop, bus: Bus::WriteAt(addr, DataSel::A) });
            } else {
                // LD A, (rr)
                self.queue.push(MicroOp { uses: Pre::Nop, bus: Bus::ReadAt(addr) });
                self.fin = Fin::SetReg(LoadDest::A);
            }
        } else if z == 3 {
            let rp = decode::rp(p);
            if q == 0 {
                // INC rp
                self.queue.push(
                    MicroOp { uses: Pre::Nop, bus: Bus::Internal(IntOp::IncRp(rp)) },
                );
            } else {
                // DEC rp
                self.queue.push(
                    MicroOp { uses: Pre::Nop, bus: Bus::Internal(IntOp::DecRp(rp)) },
                );
            }
        } else if z == 4 {
            // INC r
            let dst = decode::r(y);
            if y == 6 {
                self.queue.push(MicroOp { uses: Pre::Nop, bus: Bus::ReadAt(AddrSel::HL) });
                self.queue.push(
                    MicroOp { uses: Pre::IncZ, bus: Bus::WriteAt(AddrSel::HL, DataSel::Z) },
                );
            } else {
                let v = self.get_reg8(dst);
                let (nv, f) = alu::alu_inc(v, self.cpu.registers.f);
                self.set_reg8(dst, nv);
                self.cpu.registers.f = f;
            }
        } else if z == 5 {
            // DEC r
            let dst = decode::r(y);
            if y == 6 {
                self.queue.push(MicroOp { uses: Pre::Nop, bus: Bus::ReadAt(AddrSel::HL) });
                self.queue.push(
                    MicroOp { uses: Pre::DecZ, bus: Bus::WriteAt(AddrSel::HL, DataSel::Z) },
                );
            } else {
                let v = self.get_reg8(dst);
                let (nv, f) = alu::alu_dec(v, self.cpu.registers.f);
                self.set_reg8(dst, nv);
                self.cpu.registers.f = f;
            }
        } else if z == 6 {
            // LD r, n
            let dst = decode::r(y);
            if y == 6 {
                self.queue.push(MicroOp { uses: Pre::Nop, bus: Bus::FetchImm });
                self.queue.push(
                    MicroOp { uses: Pre::Z, bus: Bus::WriteAt(AddrSel::HL, DataSel::Z) },
                );
            } else {
                self.queue.push(MicroOp { uses: Pre::Nop, bus: Bus::FetchImm });
                self.fin = Fin::SetReg(dst);
            }
        } else {
            if y == 0 || y == 1 || y == 2 || y == 3 {
                // RLCA / RRCA / RLA / RRA: as the CB rotates, but Z is
                // forced to zero.
                let op = decode::rot(y);
                let a = self.cpu.registers.a;
                let nv = self.cpu.do_rotate_shift(a, op);
                self.cpu.registers.a = nv;
                let f = self.cpu.registers.f;
                self.cpu.registers.f = FRegister { z: false, ..f };
            } else if y == 4 {
                // DAA
                let (res, f) = alu::alu_daa(self.cpu.registers.a, self.cpu.registers.f);
                self.cpu.registers.a = res;
                self.cpu.registers.f = f;
            } else if y == 5 {
                // CPL
                self.cpu.registers.a = !self.cpu.registers.a;
                let f = self.cpu.registers.f;
                self.cpu.registers.f = FRegister { n: true, h: true, ..f };
            } else if y == 6 {
                // SCF
                let f = self.cpu.registers.f;
                self.cpu.registers.f = FRegister { z: f.z, n: false, h: false, c: true };
            } else {
                // CCF
                let f = self.cpu.registers.f;
                self.cpu.registers.f = FRegister { z: f.z, n: false, h: false, c: !f.c };
            }
        }
    }

    /// Decode quadrant x = 1 (the loads, and HALT).
    #[verifier::rlimit(100)]
    #[verifier::spinoff_prover]
    fn decode_arm_x1(&mut self, o: Opcode, pending: bool, Ghost(pre): Ghost<CpuRunner>)
        requires
            o.0 >> 6 == 1,
            *old(self) == (CpuRunner {
                queue: old(self).queue,
                qi: 0,
                fin: Fin::Nop,
                trapped: false,
                halted: false,
                ..pre
            }),
            old(self).queue@ == Seq::<MicroOp>::empty(),
        ensures
            spec_decode_x1(pre, *final(self), o.0, pending),
            !final(self).trapped,
            o.0 == 0x76 ==> final(self).halted == !(pending && !pre.cpu.ime),
            o.0 != 0x76 ==> !final(self).halted && final(self).qi == 0 && 1 + final(self).queue@.len() == spec_instr_cycles(o.0, true) && 1 + spec_cond_cut(final(self).queue@) == spec_instr_cycles(o.0, false),
    {
        proof {
            reveal(spec_decode_x1);
        }
        proof {
            let op = o.0;
            assert(op == (op >> 6) * 64 + ((op & 0x38) >> 3) * 8 + (op & 0x07)) by (bit_vector);
            assert(((op & 0x38) >> 3) == (((op & 0x38) >> 3) >> 1) * 2 + (((op & 0x38) >> 3)
                & 1)) by (bit_vector);
            reveal_with_fuel(spec_cond_cut_from, 8);
        }
        let y = o.y();
        let z = o.z();
        let q = o.q();
        let p = o.p();
        if o.0 == 0x76 {
            // HALT: stop fetching until an enabled interrupt is
            // requested.  With IME clear and a request already
            // pending, the CPU fails to halt and the next fetch does
            // not advance PC (the HALT bug).
            if pending && !self.cpu.ime {
                self.halt_bug = true;
            } else {
                self.halted = true;
            }
        } else {
            let dst = decode::r(y);
            let src = decode::r(z);
            if y == 6 {
                // LD (HL), r
                self.queue.push(
                    MicroOp { uses: Pre::Nop, bus: Bus::WriteAt(AddrSel::HL, DataSel::Reg(src)) },
                );
            } else if z == 6 {
                // LD r, (HL)
                self.queue.push(MicroOp { uses: Pre::Nop, bus: Bus::ReadAt(AddrSel::HL) });
                self.fin = Fin::SetReg(dst);
            } else {
                // LD r, r'
                let v = self.get_reg8(src);
                self.set_reg8(dst, v);
            }
        }
    }

    /// Decode quadrant x = 2 (the ALU operations).
    #[verifier::rlimit(100)]
    #[verifier::spinoff_prover]
    fn decode_arm_x2(&mut self, o: Opcode, Ghost(pre): Ghost<CpuRunner>)
        requires
            o.0 >> 6 == 2,
            *old(self) == (CpuRunner {
                queue: old(self).queue,
                qi: 0,
                fin: Fin::Nop,
                trapped: false,
                halted: false,
                ..pre
            }),
            old(self).queue@ == Seq::<MicroOp>::empty(),
        ensures
            spec_decode_x2(pre, *final(self), o.0),
            !final(self).trapped,
            !final(self).halted,
            final(self).qi == 0,
            1 + final(self).queue@.len() == spec_instr_cycles(o.0, true),
            1 + spec_cond_cut(final(self).queue@) == spec_instr_cycles(o.0, false),
    {
        proof {
            reveal(spec_decode_x2);
        }
        proof {
            let op = o.0;
            assert(op == (op >> 6) * 64 + ((op & 0x38) >> 3) * 8 + (op & 0x07)) by (bit_vector);
            assert(((op & 0x38) >> 3) == (((op & 0x38) >> 3) >> 1) * 2 + (((op & 0x38) >> 3)
                & 1)) by (bit_vector);
            reveal_with_fuel(spec_cond_cut_from, 8);
        }
        let y = o.y();
        let z = o.z();
        let q = o.q();
        let p = o.p();
        let op = decode::alu(y);
        if z == 6 {
            // alu A, (HL)
            self.queue.push(MicroOp { uses: Pre::Nop, bus: Bus::ReadAt(AddrSel::HL) });
            self.fin = Fin::Math(op);
        } else {
            // alu A, r
            let src = decode::r(z);
            let v = self.get_reg8(src);
            self.cpu.do_math(v, op);
        }
    }

    /// Decode quadrant x = 3.
    #[verifier::rlimit(100)]
    #[verifier::spinoff_prover]
    fn decode_arm_x3(&mut self, o: Opcode, Ghost(pre): Ghost<CpuRunner>)
        requires
            o.0 >> 6 == 3,
            *old(self) == (CpuRunner {
                queue: old(self).queue,
                qi: 0,
                fin: Fin::Nop,
                trapped: false,
                halted: false,
                ..pre
            }),
            old(self).queue@ == Seq::<MicroOp>::empty(),
        ensures
            spec_decode_x3(pre, *final(self), o.0),
            final(self).trapped == spec_is_undefined(o.0),
            !final(self).halted,
            (!spec_is_undefined(o.0) && o.0 != 0xCB) ==> final(self).qi == 0 && 1 + final(self).queue@.len() == spec_instr_cycles(o.0, true) && 1 + spec_cond_cut(final(self).queue@) == spec_instr_cycles(o.0, false),
    {
        proof {
            reveal(spec_decode_x3);
        }
        proof {
            let op = o.0;
            assert(op == (op >> 6) * 64 + ((op & 0x38) >> 3) * 8 + (op & 0x07)) by (bit_vector);
            assert(((op & 0x38) >> 3) == (((op & 0x38) >> 3) >> 1) * 2 + (((op & 0x38) >> 3)
                & 1)) by (bit_vector);
            reveal_with_fuel(spec_cond_cut_from, 8);
        }
        let y = o.y();
        let z = o.z();
        let q = o.q();
        let p = o.p();
        if z == 0 {
            if y < 4 {
                // RET cc
                let cond = decode::cc(y);
                self.queue.push(MicroOp { uses: Pre::Nop, bus: Bus::Internal(IntOp::Idle) });
                self.queue.push(MicroOp { uses: Pre::Cond(cond), bus: Bus::ReadAt(AddrSel::SpInc) });
                self.queue.push(MicroOp { uses: Pre::Z, bus: Bus::ReadAt(AddrSel::SpInc) });
                self.queue.push(MicroOp { uses: Pre::W, bus: Bus::Internal(IntOp::Idle) });
                self.fin = Fin::SetPcWz;
            } else if y == 4 {
                // LDH (n), A
                self.queue.push(MicroOp { uses: Pre::Nop, bus: Bus::FetchImm });
                self.queue.push(
                    MicroOp { uses: Pre::Z, bus: Bus::WriteAt(AddrSel::HighZ, DataSel::A) },
                );
            } else if y == 5 {
                // ADD SP, e
                self.queue.push(MicroOp { uses: Pre::Nop, bus: Bus::FetchImm });
                self.queue.push(MicroOp { uses: Pre::Z, bus: Bus::Internal(IntOp::AddSpZ) });
                self.queue.push(MicroOp { uses: Pre::Nop, bus: Bus::Internal(IntOp::Idle) });
            } else if y == 6 {
                // LDH A, (n)
                self.queue.push(MicroOp { uses: Pre::Nop, bus: Bus::FetchImm });
                self.queue.push(MicroOp { uses: Pre::Z, bus: Bus::ReadAt(AddrSel::HighZ) });
                self.fin = Fin::SetReg(LoadDest::A);
            } else {
                // LD HL, SP+e
                self.queue.push(MicroOp { uses: Pre::Nop, bus: Bus::FetchImm });
                self.queue.push(MicroOp { uses: Pre::Z, bus: Bus::Internal(IntOp::LdHlSpZ) });
            }
        } else if z == 1 {
            if q == 0 {
                // POP rp2
                let rp = decode::rp2(p);
                self.queue.push(MicroOp { uses: Pre::Nop, bus: Bus::ReadAt(AddrSel::SpInc) });
                self.queue.push(MicroOp { uses: Pre::Z, bus: Bus::ReadAt(AddrSel::SpInc) });
                self.fin = Fin::SetRp(rp);
            } else if p == 0 {
                // RET
                self.queue.push(MicroOp { uses: Pre::Nop, bus: Bus::ReadAt(AddrSel::SpInc) });
                self.queue.push(MicroOp { uses: Pre::Z, bus: Bus::ReadAt(AddrSel::SpInc) });
                self.queue.push(MicroOp { uses: Pre::W, bus: Bus::Internal(IntOp::Idle) });
                self.fin = Fin::SetPcWz;
            } else if p == 1 {
                // RETI
                self.queue.push(MicroOp { uses: Pre::Nop, bus: Bus::ReadAt(AddrSel::SpInc) });
                self.queue.push(MicroOp { uses: Pre::Z, bus: Bus::ReadAt(AddrSel::SpInc) });
                self.queue.push(MicroOp { uses: Pre::W, bus: Bus::Internal(IntOp::Idle) });
                self.fin = Fin::SetPcWzIme;
            } else if p == 2 {
                // JP HL
                self.cpu.registers.pc = self.cpu.registers.get_hl();
            } else {
                // LD SP, HL
                self.queue.push(MicroOp { uses: Pre::Nop, bus: Bus::Internal(IntOp::LdSpHl) });
            }
        } else if z == 2 {
            if y < 4 {
                // JP cc, nn
                let cond = decode::cc(y);
                self.queue.push(MicroOp { uses: Pre::Nop, bus: Bus::FetchImm });
                self.queue.push(MicroOp { uses: Pre::Z, bus: Bus::FetchImm });
                self.queue.push(
                    MicroOp { uses: Pre::WCond(cond), bus: Bus::Internal(IntOp::Idle) },
                );
                self.fin = Fin::SetPcWz;
            } else if y == 4 {
                // LD (0xFF00+C), A
                self.queue.push(
                    MicroOp { uses: Pre::Nop, bus: Bus::WriteAt(AddrSel::HighC, DataSel::A) },
                );
            } else if y == 5 {
                // LD (nn), A
                self.queue.push(MicroOp { uses: Pre::Nop, bus: Bus::FetchImm });
                self.queue.push(MicroOp { uses: Pre::Z, bus: Bus::FetchImm });
                self.queue.push(
                    MicroOp { uses: Pre::W, bus: Bus::WriteAt(AddrSel::WZ, DataSel::A) },
                );
            } else if y == 6 {
                // LD A, (0xFF00+C)
                self.queue.push(MicroOp { uses: Pre::Nop, bus: Bus::ReadAt(AddrSel::HighC) });
                self.fin = Fin::SetReg(LoadDest::A);
            } else {
                // LD A, (nn)
                self.queue.push(MicroOp { uses: Pre::Nop, bus: Bus::FetchImm });
                self.queue.push(MicroOp { uses: Pre::Z, bus: Bus::FetchImm });
                self.queue.push(MicroOp { uses: Pre::W, bus: Bus::ReadAt(AddrSel::WZ) });
                self.fin = Fin::SetReg(LoadDest::A);
            }
        } else if z == 3 {
            if y == 0 {
                // JP nn
                self.queue.push(MicroOp { uses: Pre::Nop, bus: Bus::FetchImm });
                self.queue.push(MicroOp { uses: Pre::Z, bus: Bus::FetchImm });
                self.queue.push(MicroOp { uses: Pre::W, bus: Bus::Internal(IntOp::Idle) });
                self.fin = Fin::SetPcWz;
            } else if y == 1 {
                // CB prefix: the next fetched byte selects the
                // operation; see `decode_cb`.
                self.queue.push(MicroOp { uses: Pre::Nop, bus: Bus::FetchImm });
                self.cb_next = true;
            } else if y == 6 {
                // DI takes effect immediately.
                self.cpu.ime = false;
            } else if y == 7 {
                // EI takes effect after the following instruction.
                self.ei_pending = true;
            } else {
                self.trapped = true;
            }
        } else if z == 4 {
            if y < 4 {
                // CALL cc, nn
                let cond = decode::cc(y);
                self.queue.push(MicroOp { uses: Pre::Nop, bus: Bus::FetchImm });
                self.queue.push(MicroOp { uses: Pre::Z, bus: Bus::FetchImm });
                self.queue.push(
                    MicroOp { uses: Pre::WCond(cond), bus: Bus::Internal(IntOp::Idle) },
                );
                self.queue.push(
                    MicroOp { uses: Pre::Nop, bus: Bus::WriteAt(AddrSel::SpDec, DataSel::PcHi) },
                );
                self.queue.push(
                    MicroOp { uses: Pre::Nop, bus: Bus::WriteAt(AddrSel::SpDec, DataSel::PcLo) },
                );
                self.fin = Fin::SetPcWz;
            } else {
                self.trapped = true;
            }
        } else if z == 5 {
            if q == 0 {
                // PUSH rp2
                let rp = decode::rp2(p);
                self.queue.push(MicroOp { uses: Pre::Nop, bus: Bus::Internal(IntOp::Idle) });
                self.queue.push(
                    MicroOp { uses: Pre::Nop, bus: Bus::WriteAt(AddrSel::SpDec, DataSel::RpHi(rp)) },
                );
                self.queue.push(
                    MicroOp { uses: Pre::Nop, bus: Bus::WriteAt(AddrSel::SpDec, DataSel::RpLo(rp)) },
                );
            } else if p == 0 {
                // CALL nn
                self.queue.push(MicroOp { uses: Pre::Nop, bus: Bus::FetchImm });
                self.queue.push(MicroOp { uses: Pre::Z, bus: Bus::FetchImm });
                self.queue.push(MicroOp { uses: Pre::W, bus: Bus::Internal(IntOp::Idle) });
                self.queue.push(
                    MicroOp { uses: Pre::Nop, bus: Bus::WriteAt(AddrSel::SpDec, DataSel::PcHi) },
                );
                self.queue.push(
                    MicroOp { uses: Pre::Nop, bus: Bus::WriteAt(AddrSel::SpDec, DataSel::PcLo) },
                );
                self.fin = Fin::SetPcWz;
            } else {
                self.trapped = true;
            }
        } else if z == 6 {
            // alu A, n
            let op = decode::alu(y);
            self.queue.push(MicroOp { uses: Pre::Nop, bus: Bus::FetchImm });
            self.fin = Fin::Math(op);
        } else {
            // RST y*8
            self.queue.push(MicroOp { uses: Pre::Nop, bus: Bus::Internal(IntOp::Idle) });
            self.queue.push(
                MicroOp { uses: Pre::Nop, bus: Bus::WriteAt(AddrSel::SpDec, DataSel::PcHi) },
            );
            self.queue.push(
                MicroOp { uses: Pre::Nop, bus: Bus::WriteAt(AddrSel::SpDec, DataSel::PcLo) },
            );
            self.fin = Fin::SetPcImm((y as u16) * 8);
        }
    }

    /// Decode the sub-opcode byte of a CB-prefixed instruction.
    ///
    /// Register operands do their work right here; the (HL) operand
    /// queues the memory traffic.  A CB instruction costs two fetch
    /// cycles plus one per queued micro-op, proved equal to
    /// [`spec_cb_cycles`].
    pub fn decode_cb(&mut self, sub: u8)
        ensures
            final(self).spec_trapped() == old(self).spec_trapped(),
            final(self).spec_halted() == old(self).spec_halted(),
            spec_decode_cb_effect(*old(self), *final(self), sub),
    {
        proof {
            reveal(spec_decode_cb_effect);
        }
        self.qi = 0;
        self.fin = Fin::Nop;
        self.queue = Vec::new();
        let o = Opcode(sub);
        let x = o.x();
        let y = o.y();
        let z = o.z();
        let mask: u8 = 1u8 << y;
        if z == 6 {
            if x == 0 {
                let op = decode::rot(y);
                self.queue.push(MicroOp { uses: Pre::Nop, bus: Bus::ReadAt(AddrSel::HL) });
                self.queue.push(
                    MicroOp { uses: Pre::RotZ(op), bus: Bus::WriteAt(AddrSel::HL, DataSel::Z) },
                );
            } else if x == 1 {
                // BIT y, (HL)
                self.queue.push(MicroOp { uses: Pre::Nop, bus: Bus::ReadAt(AddrSel::HL) });
                self.fin = Fin::BitD(mask);
            } else if x == 2 {
                // RES y, (HL)
                self.queue.push(MicroOp { uses: Pre::Nop, bus: Bus::ReadAt(AddrSel::HL) });
                self.queue.push(
                    MicroOp { uses: Pre::ResZ(mask), bus: Bus::WriteAt(AddrSel::HL, DataSel::Z) },
                );
            } else {
                // SET y, (HL)
                self.queue.push(MicroOp { uses: Pre::Nop, bus: Bus::ReadAt(AddrSel::HL) });
                self.queue.push(
                    MicroOp { uses: Pre::SetZ(mask), bus: Bus::WriteAt(AddrSel::HL, DataSel::Z) },
                );
            }
        } else {
            let dest = decode::r(z);
            let v = self.get_reg8(dest);
            if x == 0 {
                let op = decode::rot(y);
                let nv = self.cpu.do_rotate_shift(v, op);
                self.set_reg8(dest, nv);
            } else if x == 1 {
                // BIT y, r
                let f = self.cpu.registers.f;
                self.cpu.registers.f = FRegister {
                    z: v & mask != 0,
                    n: false,
                    h: true,
                    c: f.c,
                };
            } else if x == 2 {
                // RES y, r
                self.set_reg8(dest, v & !mask);
            } else {
                // SET y, r
                self.set_reg8(dest, v | mask);
            }
        }
    }

    /// Emit the fetch of the next opcode.  PC advances by one, except
    /// when the HALT bug suppresses the increment.
    fn emit_fetch(&mut self) -> (r: CpuRunnerYield)
        ensures
            *final(self) == spec_emit_fetch(*old(self)).0,
            r == spec_emit_fetch(*old(self)).1,
    {
        proof {
            reveal(spec_emit_fetch);
        }
        let pc = self.cpu.registers.pc;
        if self.halt_bug {
            self.halt_bug = false;
        } else {
            self.cpu.registers.pc = ((pc as u32 + 1) % 0x10000) as u16;
        }
        self.fetched = true;
        CpuRunnerYield {
            pins: CpuOutputPins::Read { addr: pc },
            is_fetch_cycle: true,
            interrupt_ack: None,
        }
    }

    /// Begin an interrupt dispatch: pick the lowest-index raised line,
    /// clear IME, and ask the bus to clear that interrupt flag bit.
    /// The dispatch runs for five M-cycles in all: this idle cycle,
    /// another idle cycle, the two pushes of PC, and the fetch of the
    /// first handler byte.
    fn begin_dispatch(&mut self, pins: CpuInputPins) -> (r: CpuRunnerYield)
        requires
            pins.spec_any_interrupt(),
        ensures
            *final(self) == spec_begin_dispatch(*old(self), pins).0,
            r == spec_begin_dispatch(*old(self), pins).1,
    {
        proof {
            reveal(spec_begin_dispatch);
        }
        let idx: u8 = if pins.interrupt_40h {
            0
        } else if pins.interrupt_48h {
            1
        } else if pins.interrupt_50h {
            2
        } else if pins.interrupt_58h {
            3
        } else {
            4
        };
        self.dispatch_index = idx;
        self.dispatch_step = 4;
        self.cpu.ime = false;
        CpuRunnerYield {
            pins: self.cpu.nop(),
            is_fetch_cycle: false,
            interrupt_ack: Some(idx),
        }
    }

    /// Run one cycle of an interrupt dispatch that has already begun.
    fn dispatch_cycle(&mut self) -> (r: CpuRunnerYield)
        ensures
            *final(self) == spec_dispatch_cycle(*old(self)).0,
            r == spec_dispatch_cycle(*old(self)).1,
    {
        proof {
            reveal(spec_dispatch_cycle);
        }
        let step = self.dispatch_step;
        if step >= 4 {
            // Second internal cycle.
            self.dispatch_step = 3;
            CpuRunnerYield { pins: self.cpu.nop(), is_fetch_cycle: false, interrupt_ack: None }
        } else if step == 3 {
            // Push the high byte of PC.
            let sp = self.cpu.registers.sp;
            let nsp: u16 = ((sp as u32 + 0xFFFF) % 0x10000) as u16;
            self.cpu.registers.sp = nsp;
            let hi: u8 = (self.cpu.registers.pc >> 8) as u8;
            self.dispatch_step = 2;
            CpuRunnerYield {
                pins: CpuOutputPins::Write { addr: nsp, data: hi },
                is_fetch_cycle: false,
                interrupt_ack: None,
            }
        } else if step == 2 {
            // Push the low byte of PC.
            let sp = self.cpu.registers.sp;
            let nsp: u16 = ((sp as u32 + 0xFFFF) % 0x10000) as u16;
            self.cpu.registers.sp = nsp;
            let lo: u8 = (self.cpu.registers.pc & 0xFF) as u8;
            self.dispatch_step = 1;
            CpuRunnerYield {
                pins: CpuOutputPins::Write { addr: nsp, data: lo },
                is_fetch_cycle: false,
                interrupt_ack: None,
            }
        } else {
            // Jump to the vector and fetch its first byte.
            self.dispatch_step = 0;
            self.cpu.registers.pc = 0x40 + (self.dispatch_index as u16) * 8;
            self.emit_fetch()
        }
    }

    /// Advance the CPU by exactly one M-cycle.
    ///
    /// `pins` carries the data byte that the bus produced for the
    /// previous cycle's operation and the five masked interrupt lines.
    /// The returned bundle holds this cycle's bus operation; when an
    /// interrupt dispatch begins, `interrupt_ack` names the interrupt
    /// flag bit to clear, and it is always the lowest-index raised line.
    ///
    /// The contract follows the machine's phases.  A trapped CPU holds
    /// its state; a dispatch in progress runs its next cycle; a halted
    /// CPU idles until a line rises; mid-instruction, exactly the next
    /// queued micro-op runs; and at an instruction boundary the
    /// finishing action is applied and the next opcode is fetched or a
    /// dispatch begins.  The remaining phase — the decode of a newly
    /// fetched opcode — is specified by [`CpuRunner::decode_first`] and
    /// [`CpuRunner::decode_cb`], whose contracts fix the micro-op
    /// program's cycle counts and the register-only instruction
    /// families.
    pub fn clock(&mut self, pins: CpuInputPins) -> (r: CpuRunnerYield)
        ensures
            spec_cpu_clock_rel(*old(self), *final(self), pins, r),
            r.interrupt_ack is Some ==> pins.spec_any_interrupt() && r.interrupt_ack == Some(
                spec_lowest_interrupt(pins),
            ),
            r.is_fetch_cycle ==> r.pins matches CpuOutputPins::Read { .. },
            r.is_fetch_cycle ==> final(self).fetched,
            // A trapped CPU holds its state and stays off the bus.
            old(self).trapped ==> *final(self) == *old(self) && r == (CpuRunnerYield {
                pins: CpuOutputPins::Read { addr: 0 },
                is_fetch_cycle: false,
                interrupt_ack: None,
            }),
            // A dispatch in progress runs its next cycle.
            (!old(self).trapped && old(self).dispatch_step > 0) ==> (*final(self), r)
                == spec_dispatch_cycle(*old(self)),
            // A halted CPU idles until a line rises, then dispatches or
            // resumes fetching.
            (!old(self).trapped && old(self).dispatch_step == 0 && old(self).halted) ==> (
            if !pins.spec_any_interrupt() {
                *final(self) == *old(self) && r == (CpuRunnerYield {
                    pins: CpuOutputPins::Read { addr: 0 },
                    is_fetch_cycle: false,
                    interrupt_ack: None,
                })
            } else {
                spec_boundary(CpuRunner { halted: false, ..*old(self) }, pins, *final(self), r)
            }),
            // Mid-instruction, exactly the next queued micro-op runs;
            // a failed branch condition abandons the instruction and
            // reaches the boundary in the same cycle.
            (!old(self).trapped && old(self).dispatch_step == 0 && !old(self).halted && !old(self).fetched && !old(self).cb_next && old(self).qi < old(self).queue@.len()) ==> ({
                let op = old(self).queue@[old(self).qi as int];
                let stepped = CpuRunner { qi: ((old(self).qi + 1) as usize), ..*old(self) };
                let (s2, skip) = spec_apply_pre(stepped, op.uses, pins.data);
                if !skip {
                    *final(self) == spec_do_bus(s2, op.bus).0 && r == (CpuRunnerYield {
                        pins: spec_do_bus(s2, op.bus).1,
                        is_fetch_cycle: false,
                        interrupt_ack: None,
                    })
                } else {
                    spec_boundary(
                        CpuRunner {
                            qi: (s2.queue@.len() as usize),
                            fin: Fin::Nop,
                            ..s2
                        },
                        pins,
                        *final(self),
                        r,
                    )
                }
            }),
            // At an instruction boundary, the finishing action consumes
            // the last byte, then the next opcode is fetched or a
            // dispatch begins.
            (!old(self).trapped && old(self).dispatch_step == 0 && !old(self).halted && !old(self).fetched && !old(self).cb_next && old(self).qi >= old(self).queue@.len())
                ==> spec_boundary(
                spec_apply_fin(
                    CpuRunner { fin: Fin::Nop, ..*old(self) },
                    old(self).fin,
                    pins.data,
                ),
                pins,
                *final(self),
                r,
            ),
    {
        proof {
            reveal(spec_cpu_clock_rel);
            reveal(spec_emit_fetch);
            reveal(spec_begin_dispatch);
            reveal(spec_dispatch_cycle);
        }
        if self.trapped {
            // An undefined opcode was reached: the CPU holds its state
            // and performs no further work.
            return CpuRunnerYield {
                pins: self.cpu.nop(),
                is_fetch_cycle: false,
                interrupt_ack: None,
            };
        }
        if self.dispatch_step > 0 {
            return self.dispatch_cycle();
        }
        if self.halted {
            if pins.any_interrupt() {
                self.halted = false;
                if self.cpu.ime {
                    return self.begin_dispatch(pins);
                }
                return self.emit_fetch();
            }
            return CpuRunnerYield {
                pins: self.cpu.nop(),
                is_fetch_cycle: false,
                interrupt_ack: None,
            };
        }
        let din = pins.data;
        if self.cb_next {
            self.cb_next = false;
            self.decode_cb(din);
        } else if self.fetched {
            self.fetched = false;
            if self.ei_pending {
                self.cpu.ime = true;
                self.ei_pending = false;
            }
            self.decode_first(din, pins.any_interrupt());
            if self.trapped || self.halted {
                return CpuRunnerYield {
                    pins: self.cpu.nop(),
                    is_fetch_cycle: false,
                    interrupt_ack: None,
                };
            }
        } else if self.qi < self.queue.len() {
            // Mid-instruction: run the next micro-op.
            let op = self.queue[self.qi];
            self.qi = self.qi + 1;
            let skip = self.apply_pre(op.uses, din);
            if skip {
                self.qi = self.queue.len();
                self.fin = Fin::Nop;
            } else {
                let out = self.do_bus(op.bus);
                return CpuRunnerYield { pins: out, is_fetch_cycle: false, interrupt_ack: None };
            }
        } else {
            // Overlap cycle: the instruction finishes with the byte its
            // last bus operation produced.
            let fin = self.fin;
            self.fin = Fin::Nop;
            self.apply_fin(fin, din);
        }
        // A freshly decoded instruction starts its first micro-op in the
        // same cycle.
        if self.qi < self.queue.len() {
            let op = self.queue[self.qi];
            self.qi = self.qi + 1;
            let skip = self.apply_pre(op.uses, din);
            if !skip {
                let out = self.do_bus(op.bus);
                return CpuRunnerYield { pins: out, is_fetch_cycle: false, interrupt_ack: None };
            }
            self.qi = self.queue.len();
            self.fin = Fin::Nop;
        }
        // Fetch position: dispatch an interrupt or fetch the next opcode.
        if self.cpu.ime && pins.any_interrupt() {
            return self.begin_dispatch(pins);
        }
        self.emit_fetch()
    }
}

} // verus!
