//! The assembled machine: the CPU and every chip on one bus.
//!
//! Each call to [`Gameboy::clock`] advances the whole system by exactly
//! one M-cycle: the CPU emits a bus operation, every chip observes it in
//! a fixed order (PPU, memory, cartridge, timer, joypad) while a shared
//! data accumulator and the interrupt request byte thread through them,
//! and the CPU's next input bundle is assembled from the result.  The
//! IE and IF registers live here, outside any chip; reads and writes of
//! 0xFFFF and 0xFF0F are intercepted at this level.

use vstd::prelude::*;

use crate::cart::Cart;
use crate::cpu::Cpu;
use crate::cpu::CpuInputPins;
use crate::cpu::CpuOutputPins;
use crate::execute::CpuRunner;
use crate::joypad::Joypad;
use crate::memory::Memory;
use crate::ppu::Ppu;
use crate::ppu::frame::Frame;
use crate::timer::Timer;

verus! {

/// The capability every chip on the bus offers: observe one M-cycle of
/// bus traffic, driving the shared data line when selected and
/// OR-contributing interrupt requests.
pub trait Chip {
    /// The chip's own well-formedness, preserved by clocking.
    spec fn chip_wf(&self) -> bool;

    /// Observe one M-cycle.
    fn clock(&mut self, input: CpuOutputPins, data: &mut u8, interrupt_request: &mut u8)
        requires
            old(self).chip_wf(),
        ensures
            final(self).chip_wf(),
    ;
}

impl Chip for Ppu {
    open spec fn chip_wf(&self) -> bool {
        self.wf()
    }

    fn clock(&mut self, input: CpuOutputPins, data: &mut u8, interrupt_request: &mut u8) {
        Ppu::clock(self, input, data, interrupt_request);
    }
}

impl Chip for Memory {
    open spec fn chip_wf(&self) -> bool {
        self.wf()
    }

    fn clock(&mut self, input: CpuOutputPins, data: &mut u8, interrupt_request: &mut u8) {
        Memory::clock(self, input, data, interrupt_request);
    }
}

impl Chip for Cart {
    open spec fn chip_wf(&self) -> bool {
        self.wf()
    }

    fn clock(&mut self, input: CpuOutputPins, data: &mut u8, interrupt_request: &mut u8) {
        Cart::clock(self, input, data, interrupt_request);
    }
}

impl Chip for Timer {
    open spec fn chip_wf(&self) -> bool {
        true
    }

    fn clock(&mut self, input: CpuOutputPins, data: &mut u8, interrupt_request: &mut u8) {
        Timer::clock(self, input, data, interrupt_request);
    }
}

impl Chip for Joypad {
    open spec fn chip_wf(&self) -> bool {
        true
    }

    fn clock(&mut self, input: CpuOutputPins, data: &mut u8, interrupt_request: &mut u8) {
        Joypad::clock(self, input, data, interrupt_request);
    }
}

/// What one M-cycle looked like, for debuggers: whether the CPU fetched
/// an opcode and from which address, the bus operation of the cycle,
/// and the interrupt the CPU acknowledged, if any.
pub struct ClockDebug {
    pub is_fetch_cycle: bool,
    pub opcode_fetched: Option<u16>,
    pub pins: CpuOutputPins,
    pub interrupt_ack: Option<u8>,
}

/// The IF byte after the CPU's acknowledge and before the chips
/// contribute: the served bit is cleared.
pub open spec fn spec_if_base(ir: u8, ack: Option<u8>) -> u8 {
    match ack {
        Some(i) => if i < 5 {
            (ir & !crate::joypad::spec_bit_value(i)) as u8
        } else {
            ir
        },
        None => ir,
    }
}

/// The byte an OAM copy reads from a source address: work RAM and its
/// echo, high RAM, cartridge ROM and RAM, and video RAM are reachable;
/// other pages read as 0xFF.
pub open spec fn spec_dma_source(
    ppu: crate::ppu::PpuState,
    mem: Memory,
    cart: Cart,
    addr: u16,
) -> u8 {
    if crate::memory::spec_mem_in_range(addr) {
        mem.spec_read(addr)
    } else if addr < 0x8000 || (0xA000 <= addr && addr <= 0xBFFF) {
        crate::cart::spec_cart_data(cart, addr, 0xFF)
    } else if 0x8000 <= addr && addr <= 0x9FFF {
        crate::ppu::spec_ppu_data(ppu, addr, 0xFF)
    } else {
        0xFF
    }
}

/// The byte the open-drain data line carries after every chip has seen
/// a read of `addr`: the line starts at 0xFF and the chips drive it in
/// bus order (PPU, memory, cartridge, timer, joypad), each only within
/// its own address range.
pub open spec fn spec_bus_data(
    ppu: crate::ppu::PpuState,
    mem: Memory,
    cart: Cart,
    timer: Timer,
    joypad: Joypad,
    addr: u16,
) -> u8 {
    crate::joypad::spec_joypad_data(
        joypad,
        addr,
        crate::timer::spec_timer_data(
            timer,
            CpuOutputPins::Read { addr },
            crate::cart::spec_cart_data(
                cart,
                addr,
                crate::memory::spec_mem_data(
                    mem,
                    addr,
                    crate::ppu::spec_ppu_data(ppu, addr, 0xFF),
                ),
            ),
        ),
    )
}

/// The whole machine.
pub struct Gameboy {
    pub cpu: CpuRunner,
    pub ppu: Ppu,
    pub memory: Memory,
    pub cart: Cart,
    pub timer: Timer,
    pub joypad: Joypad,
    /// The input bundle the CPU will receive next cycle.
    pub cpu_input: CpuInputPins,
    /// The IE register (0xFFFF), low five bits.
    pub interrupt_enable: u8,
    /// The IF register (0xFF0F), low five bits.
    pub interrupt_request: u8,
}

impl Gameboy {
    /// Every chip with state is well formed.
    pub open spec fn wf(&self) -> bool {
        &&& self.ppu.wf()
        &&& self.memory.wf()
        &&& self.cart.wf()
    }

    /// Assemble a machine around a ROM image.  The image must reach
    /// header byte 0x147 and name a supported mapper, exactly as
    /// [`Cart::new`] demands; anything else is rejected.  On success
    /// every chip is fresh: the cartridge holds the image under the
    /// mapper its header names, RAM and the frame are zeroed, the CPU
    /// is at reset, and IE and IF are clear.
    pub fn new(rom: Vec<u8>) -> (r: Result<Gameboy, &'static str>)
        ensures
            r is Ok <==> rom@.len() > 0x147 && rom@[0x147] <= 3,
            r matches Err(m) ==> m@ == "Invalid ROM file"@,
            r matches Ok(gb) ==> {
                &&& gb.wf()
                &&& crate::cart::spec_cart_loaded(gb.cart, rom@)
                &&& gb.interrupt_enable == 0
                &&& gb.interrupt_request == 0
                &&& gb.cpu.cpu == (Cpu {
                    registers: crate::registers::Registers::spec_zeroed(),
                    ime: false,
                })
                &&& !gb.cpu.spec_trapped()
                &&& !gb.cpu.spec_halted()
                &&& gb.ppu.state.ly == 0
                &&& gb.ppu.dot == 0
                &&& (forall|i: int| 0 <= i < 160 * 144 ==> gb.ppu.state.frame.pixels@[i] == 0u32)
                &&& (forall|a: u16|
                    crate::memory::spec_mem_in_range(a) ==> gb.memory.spec_read(a) == 0)
                &&& gb.timer == (Timer { div: 0, tima: 0, tma: 0, tac: 0 })
                &&& gb.joypad == Joypad::new_spec()
                &&& !gb.cpu_input.spec_any_interrupt()
            },
    {
        let cart = match Cart::new(rom) {
            Ok(c) => c,
            Err(e) => {
                return Err(e);
            }
        };
        Ok(
            Gameboy {
                cpu: Cpu::new().runner(),
                ppu: Ppu::new(),
                memory: Memory::new(),
                cart,
                timer: Timer::new(),
                joypad: Joypad::new(),
                cpu_input: CpuInputPins {
                    data: 0,
                    interrupt_40h: false,
                    interrupt_48h: false,
                    interrupt_50h: false,
                    interrupt_58h: false,
                    interrupt_60h: false,
                },
                interrupt_enable: 0,
                interrupt_request: 0,
            },
        )
    }

    /// Reset the execution state: PC to the cartridge entry point
    /// 0x0100, SP to 0xFFFE, and both interrupt registers cleared.
    pub fn reset(&mut self)
        requires
            old(self).wf(),
        ensures
            final(self).wf(),
            final(self).cpu.cpu.registers.pc == 0x100,
            final(self).cpu.cpu.registers.sp == 0xFFFE,
            final(self).interrupt_enable == 0,
            final(self).interrupt_request == 0,
            // Nothing else is touched: the chips, the rest of the CPU
            // and the pending input keep their state.
            *final(self) == (Gameboy {
                cpu: final(self).cpu,
                interrupt_enable: 0,
                interrupt_request: 0,
                ..*old(self)
            }),
            final(self).cpu == (crate::execute::CpuRunner {
                cpu: final(self).cpu.cpu,
                ..old(self).cpu
            }),
            final(self).cpu.cpu == (crate::cpu::Cpu {
                registers: final(self).cpu.cpu.registers,
                ..old(self).cpu.cpu
            }),
            final(self).cpu.cpu.registers == (crate::registers::Registers {
                pc: 0x100,
                sp: 0xFFFE,
                ..old(self).cpu.cpu.registers
            }),
    {
        self.cpu.cpu.registers.pc = 0x100;
        self.cpu.cpu.registers.sp = 0xFFFE;
        self.interrupt_enable = 0;
        self.interrupt_request = 0;
    }

    /// Read one byte for the OAM copy: work RAM and its echo, high
    /// RAM, cartridge ROM and RAM, and video RAM are reachable; other
    /// pages read as 0xFF.
    fn dma_source_byte(&mut self, addr: u16) -> (r: u8)
        requires
            old(self).wf(),
        ensures
            final(self).wf(),
            *final(self) == *old(self),
            r == spec_dma_source(old(self).ppu.state, old(self).memory, old(self).cart, addr),
    {
        if Memory::address_is_in_range(addr) {
            self.memory.read(addr)
        } else if addr < 0x8000 || (0xA000 <= addr && addr <= 0xBFFF) {
            let mut b: u8 = 0xFF;
            let mut scratch: u8 = 0;
            self.cart.clock(CpuOutputPins::Read { addr }, &mut b, &mut scratch);
            b
        } else if 0x8000 <= addr && addr <= 0x97FF {
            self.ppu.state.tile_data[(addr - 0x8000) as usize]
        } else if 0x9800 <= addr && addr <= 0x9BFF {
            self.ppu.state.bg_map_1[(addr - 0x9800) as usize]
        } else if 0x9C00 <= addr && addr <= 0x9FFF {
            self.ppu.state.bg_map_2[(addr - 0x9C00) as usize]
        } else {
            0xFF
        }
    }

    /// Copy the 160 bytes of page `page` into OAM at once.
    fn oam_dma_copy(&mut self, page: u8)
        requires
            old(self).wf(),
        ensures
            final(self).wf(),
            *final(self) == (Gameboy { ppu: final(self).ppu, ..*old(self) }),
            final(self).ppu == (Ppu { state: final(self).ppu.state, ..old(self).ppu }),
            final(self).ppu.state == (crate::ppu::PpuState {
                oam: final(self).ppu.state.oam,
                ..old(self).ppu.state
            }),
            final(self).ppu.state.oam@.len() == 0xA0,
            forall|i: int|
                0 <= i < 0xA0 ==> final(self).ppu.state.oam@[i] == spec_dma_source(
                    old(self).ppu.state,
                    old(self).memory,
                    old(self).cart,
                    ((page * 256 + i) as u16),
                ),
    {
        let base: u16 = (page as u16) * 256;
        let ghost snap = *self;
        let mut i: usize = 0;
        while i < 0xA0
            invariant
                self.wf(),
                base == page * 256,
                *self == (Gameboy { ppu: self.ppu, ..snap }),
                self.ppu == (Ppu { state: self.ppu.state, ..snap.ppu }),
                self.ppu.state == (crate::ppu::PpuState {
                    oam: self.ppu.state.oam,
                    ..snap.ppu.state
                }),
                self.ppu.state.oam@.len() == 0xA0,
                forall|j: int|
                    0 <= j < i ==> self.ppu.state.oam@[j] == spec_dma_source(
                        snap.ppu.state,
                        snap.memory,
                        snap.cart,
                        ((base + j) as u16),
                    ),
                i <= 0xA0,
            decreases 0xA0 - i,
        {
            let b = self.dma_source_byte(base + i as u16);
            proof {
                // The partially rewritten OAM does not feed the copy:
                // every reachable source region reads other memories.
                assert(b == spec_dma_source(
                    snap.ppu.state,
                    snap.memory,
                    snap.cart,
                    ((base + i) as u16),
                ));
            }
            self.ppu.state.oam.set(i, b);
            i = i + 1;
        }
        proof {
            assert(snap == *old(self));
            assert forall|k: int| 0 <= k < 0xA0 implies self.ppu.state.oam@[k] == spec_dma_source(
                old(self).ppu.state,
                old(self).memory,
                old(self).cart,
                ((page * 256 + k) as u16),
            ) by {
                assert(self.ppu.state.oam@[k] == spec_dma_source(
                    snap.ppu.state,
                    snap.memory,
                    snap.cart,
                    ((base + k) as u16),
                ));
                assert(((base + k) as u16) == ((page * 256 + k) as u16));
            }
        }
    }

    /// Advance the whole machine by one M-cycle.
    ///
    /// The CPU runs first on the input assembled last cycle; when it
    /// begins an interrupt dispatch it names the IF bit to clear, and
    /// that bit is always the lowest-index pending one.  Every chip
    /// then observes the CPU's bus operation; interrupt requests raised
    /// during this cycle reach the CPU on the next one.
    #[verifier::rlimit(100)]
    pub fn clock(&mut self) -> (r: ClockDebug)
        requires
            old(self).wf(),
        ensures
            final(self).wf(),
            r.is_fetch_cycle <==> r.opcode_fetched is Some,
            r.is_fetch_cycle ==> final(self).cpu.fetched,
            // The CPU's next input lines are the bits of IE & IF.
            final(self).cpu_input.interrupt_40h == ((final(self).interrupt_enable & final(self).interrupt_request) & 0x01 != 0),
            final(self).cpu_input.interrupt_48h == ((final(self).interrupt_enable & final(self).interrupt_request) & 0x02 != 0),
            final(self).cpu_input.interrupt_50h == ((final(self).interrupt_enable & final(self).interrupt_request) & 0x04 != 0),
            final(self).cpu_input.interrupt_58h == ((final(self).interrupt_enable & final(self).interrupt_request) & 0x08 != 0),
            final(self).cpu_input.interrupt_60h == ((final(self).interrupt_enable & final(self).interrupt_request) & 0x10 != 0),
            // This cycle performed exactly one CPU step on the input
            // assembled last cycle; the pins, fetch flag and
            // acknowledge are that step's yield.
            crate::execute::spec_cpu_clock_rel(
                old(self).cpu,
                final(self).cpu,
                old(self).cpu_input,
                crate::execute::CpuRunnerYield {
                    pins: r.pins,
                    is_fetch_cycle: r.is_fetch_cycle,
                    interrupt_ack: r.interrupt_ack,
                },
            ),
            // An acknowledged dispatch serves the lowest pending line
            // and clears exactly that IF bit before the chips run.
            r.interrupt_ack matches Some(i) ==> old(self).cpu_input.spec_any_interrupt() && i
                == crate::execute::spec_lowest_interrupt(old(self).cpu_input) && i < 5,
            // IE and IF are intercepted here: writes store their low
            // five bits, reads return them regardless of chip output,
            // with the unused upper IF bits reading as ones.
            r.pins matches CpuOutputPins::Write { addr: 0xFF0F, data: v } ==> final(self).interrupt_request == v % 32,
            r.pins matches CpuOutputPins::Write { addr: 0xFFFF, data: v } ==> final(self).interrupt_enable == v % 32,
            !(r.pins matches CpuOutputPins::Write { addr: 0xFFFF, .. }) ==> final(self).interrupt_enable == old(self).interrupt_enable,
            // The data byte handed to the CPU: IE and IF when they are
            // addressed, the chip-driven line for other reads (0xFF
            // where no chip drives it), and the idle line for writes.
            final(self).cpu_input.data == (match r.pins {
                CpuOutputPins::Read { addr } => {
                    if addr == 0xFF0F {
                        (0xE0 + final(self).interrupt_request % 32) as u8
                    } else if addr == 0xFFFF {
                        final(self).interrupt_enable
                    } else {
                        spec_bus_data(
                            old(self).ppu.state,
                            old(self).memory,
                            old(self).cart,
                            old(self).timer,
                            old(self).joypad,
                            addr,
                        )
                    }
                },
                CpuOutputPins::Write { .. } => 0xFF,
            }),
            // Each chip observed this cycle's bus operation.
            match r.pins {
                CpuOutputPins::Read { .. } => final(self).memory == old(self).memory,
                CpuOutputPins::Write { addr, data: v } => {
                    if crate::memory::spec_mem_in_range(addr) {
                        old(self).memory.spec_written(final(self).memory, addr, v)
                    } else {
                        final(self).memory == old(self).memory
                    }
                },
            },
            final(self).timer == crate::timer::spec_timer_next(
                crate::timer::spec_timer_after_io(old(self).timer, r.pins),
                crate::timer::spec_timer_tima_written(r.pins),
            ),
            crate::joypad::spec_joypad_step(old(self).joypad, final(self).joypad, r.pins),
            crate::cart::spec_cart_step(old(self).cart, final(self).cart, r.pins),
            // The PPU served the cycle and advanced four T-states (an
            // OAM copy may then overwrite its OAM; see below).
            !(r.pins matches CpuOutputPins::Write { addr: 0xFF46, .. }) ==> exists|s0: Ppu|
                {
                    &&& #[trigger] crate::ppu::spec_ppu_t_steps(s0, final(self).ppu, 4)
                    &&& exists|d1: u8, q1: u8|
                        {
                            &&& crate::ppu::spec_ppu_io_rel(
                                old(self).ppu.state,
                                s0.state,
                                r.pins,
                                0xFF,
                                d1,
                                spec_if_base(old(self).interrupt_request, r.interrupt_ack),
                                q1,
                            )
                            // The chips after the PPU only OR their
                            // own request bits in, so the acknowledged
                            // bit stays cleared unless re-raised.
                            &&& (!(r.pins matches CpuOutputPins::Write { addr: 0xFF0F, .. })
                                ==> final(self).interrupt_request == ({
                                let q2 = if crate::timer::spec_timer_overflows(
                                    crate::timer::spec_timer_after_io(old(self).timer, r.pins),
                                    crate::timer::spec_timer_tima_written(r.pins),
                                ) {
                                    ((q1 | 0x04) as u8)
                                } else {
                                    q1
                                };
                                if crate::joypad::spec_joypad_edge(
                                    crate::joypad::spec_joypad_after_io(old(self).joypad, r.pins),
                                ) {
                                    ((q2 | 0x10) as u8)
                                } else {
                                    q2
                                }
                            }))
                        }
                    &&& s0 == (Ppu { state: s0.state, ..old(self).ppu })
                },
            // A write to 0xFF46 performs the OAM copy at once, reading
            // the machine's memories as they stand after the cycle's
            // bus traffic (which a write to 0xFF46 leaves untouched).
            r.pins matches CpuOutputPins::Write { addr: 0xFF46, data: page } ==> (forall|i: int|
                0 <= i < 0xA0 ==> final(self).ppu.state.oam@[i] == spec_dma_source(
                    final(self).ppu.state,
                    old(self).memory,
                    old(self).cart,
                    ((page * 256 + i) as u16),
                )),
    {
        let yielded = self.cpu.clock(self.cpu_input);
        let cpu_pins_out = yielded.pins;

        // An interrupt dispatch acknowledges exactly one request: the
        // lowest-index pending bit, which the CPU contract guarantees.
        match yielded.interrupt_ack {
            Some(i) => {
                if i < 5 {
                    let m: u8 = crate::joypad::bool_to_bit(true, i);
                    self.interrupt_request = self.interrupt_request & !m;
                }
            }
            None => {}
        }
        proof {
            assert(self.interrupt_request == spec_if_base(
                old(self).interrupt_request,
                yielded.interrupt_ack,
            ));
        }

        let opcode_fetched: Option<u16> = if yielded.is_fetch_cycle {
            Some(cpu_pins_out.addr())
        } else {
            None
        };

        // The bus: an open-drain data line starting at 0xFF, driven by
        // whichever chip the address selects, and the shared interrupt
        // request byte.
        let mut data: u8 = 0xFF;
        let mut ir: u8 = self.interrupt_request;
        self.ppu.clock(cpu_pins_out, &mut data, &mut ir);
        self.memory.clock(cpu_pins_out, &mut data, &mut ir);
        self.cart.clock(cpu_pins_out, &mut data, &mut ir);
        self.timer.clock(cpu_pins_out, &mut data, &mut ir);
        self.joypad.clock(cpu_pins_out, &mut data, &mut ir);
        self.interrupt_request = ir;

        // IE and IF live at this level, not in any chip.
        match cpu_pins_out {
            CpuOutputPins::Write { addr, data: v } => {
                if addr == 0xFF0F {
                    self.interrupt_request = v % 32;
                } else if addr == 0xFFFF {
                    self.interrupt_enable = v % 32;
                }
            }
            CpuOutputPins::Read { .. } => {}
        }
        // A write to the OAM DMA register performs the 160-byte copy at
        // once, rather than spreading it over 160 cycles; the sprite
        // data is in place on the next cycle either way, and the bus
        // lockout that real hardware shows during the copy is not
        // modelled.
        match cpu_pins_out {
            CpuOutputPins::Write { addr, data: page } => {
                if addr == 0xFF46 {
                    self.oam_dma_copy(page);
                }
            }
            CpuOutputPins::Read { .. } => {}
        }

        let masked: u8 = self.interrupt_enable & self.interrupt_request;
        self.cpu_input = CpuInputPins {
            data: match cpu_pins_out {
                CpuOutputPins::Read { addr } => {
                    if addr == 0xFF0F {
                        // The upper three IF bits read as ones.
                        0xE0 + self.interrupt_request % 32
                    } else if addr == 0xFFFF {
                        self.interrupt_enable
                    } else {
                        data
                    }
                },
                CpuOutputPins::Write { .. } => data,
            },
            interrupt_40h: masked & 0x01 != 0,
            interrupt_48h: masked & 0x02 != 0,
            interrupt_50h: masked & 0x04 != 0,
            interrupt_58h: masked & 0x08 != 0,
            interrupt_60h: masked & 0x10 != 0,
        };

        ClockDebug {
            is_fetch_cycle: yielded.is_fetch_cycle,
            opcode_fetched,
            pins: cpu_pins_out,
            interrupt_ack: yielded.interrupt_ack,
        }
    }

    /// Clock the machine until the CPU fetches an opcode, completing
    /// the instruction in flight, and report whether a fetch was
    /// reached.  A halted or trapped CPU with no pending interrupt
    /// never fetches; the loop gives up only after enough cycles for
    /// the slowest interrupt source to break a halt — a full TIMA
    /// period at the 1024-T-state prescaler is 65536 M-cycles — and
    /// reports false.  (That the
    /// loop stops on the first fetch is a property of the cycle trace,
    /// which a single pre/post contract cannot carry; the per-cycle
    /// behaviour is fixed by [`Gameboy::clock`]'s contract.)
    pub fn step_instruction(&mut self) -> (r: bool)
        requires
            old(self).wf(),
        ensures
            final(self).wf(),
            r ==> final(self).cpu.fetched,
    {
        let mut budget: u32 = 131072;
        while budget > 0
            invariant
                self.wf(),
            decreases budget,
        {
            budget = budget - 1;
            let dbg = self.clock();
            if dbg.is_fetch_cycle {
                return true;
            }
        }
        false
    }

    /// A copy of the most recently completed frame.
    pub fn get_frame(&self) -> (r: Frame)
        requires
            self.wf(),
        ensures
            r.wf(),
            r.pixels@ == self.ppu.state.frame.pixels@,
    {
        self.ppu.get_frame()
    }

    /// Push a button down: the named button's held flag rises and
    /// nothing else in the machine moves.
    pub fn press(&mut self, button: crate::joypad::Button)
        requires
            old(self).wf(),
        ensures
            final(self).wf(),
            *final(self) == (Gameboy { joypad: final(self).joypad, ..*old(self) }),
            final(self).joypad == (match button {
                crate::joypad::Button::Start => Joypad { start: true, ..old(self).joypad },
                crate::joypad::Button::Select => Joypad { select: true, ..old(self).joypad },
                crate::joypad::Button::B => Joypad { b: true, ..old(self).joypad },
                crate::joypad::Button::A => Joypad { a: true, ..old(self).joypad },
                crate::joypad::Button::Left => Joypad { left: true, ..old(self).joypad },
                crate::joypad::Button::Right => Joypad { right: true, ..old(self).joypad },
                crate::joypad::Button::Up => Joypad { up: true, ..old(self).joypad },
                crate::joypad::Button::Down => Joypad { down: true, ..old(self).joypad },
            }),
    {
        self.joypad.press(button);
    }

    /// Let a button back up: the named button's held flag falls and
    /// nothing else in the machine moves.
    pub fn release(&mut self, button: crate::joypad::Button)
        requires
            old(self).wf(),
        ensures
            final(self).wf(),
            *final(self) == (Gameboy { joypad: final(self).joypad, ..*old(self) }),
            final(self).joypad == (match button {
                crate::joypad::Button::Start => Joypad { start: false, ..old(self).joypad },
                crate::joypad::Button::Select => Joypad { select: false, ..old(self).joypad },
                crate::joypad::Button::B => Joypad { b: false, ..old(self).joypad },
                crate::joypad::Button::A => Joypad { a: false, ..old(self).joypad },
                crate::joypad::Button::Left => Joypad { left: false, ..old(self).joypad },
                crate::joypad::Button::Right => Joypad { right: false, ..old(self).joypad },
                crate::joypad::Button::Up => Joypad { up: false, ..old(self).joypad },
                crate::joypad::Button::Down => Joypad { down: false, ..old(self).joypad },
            }),
    {
        self.joypad.release(button);
    }
}

/// Pulling the frame twice with no clocking in between returns
/// identical pixel sequences: the pull only reads the stable front
/// buffer, which [`Gameboy::get_frame`]'s contract pins down.
pub proof fn lemma_frame_pull_idempotent(gb: Gameboy, r1: Frame, r2: Frame)
    requires
        r1.pixels@ == gb.ppu.state.frame.pixels@,
        r2.pixels@ == gb.ppu.state.frame.pixels@,
    ensures
        r1.pixels@ == r2.pixels@,
{
}

} // verus!
