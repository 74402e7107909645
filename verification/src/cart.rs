//! The cartridge: a ROM-only mapper and the MBC1 bank-switching mapper
//! with optional external RAM.
//!
//! The mapper is selected by ROM header byte 0x147: 0 is ROM-only, 1 is
//! MBC1, 2 and 3 are MBC1 with RAM (3 nominally battery-backed; the
//! persistence of that RAM is the host's concern).  Any other id is
//! rejected at construction.

use vstd::prelude::*;

use crate::cpu::CpuOutputPins;

verus! {

/// External cartridge RAM as the MBC1 mapper sees it: a byte array
/// whose size the implementation fixes.
pub trait Ram: Sized {
    /// The bytes held.
    spec fn view(&self) -> Seq<u8>;

    /// The number of bytes held.
    fn ram_len(&self) -> (r: usize)
        ensures
            r == self.view().len(),
    ;

    /// Read the byte at an index.
    fn read(&self, i: usize) -> (r: u8)
        requires
            i < self.view().len(),
        ensures
            r == self.view()[i as int],
    ;

    /// Store a byte at an index.
    fn write(&mut self, i: usize, v: u8)
        requires
            i < old(self).view().len(),
        ensures
            final(self).view() == old(self).view().update(i as int, v),
    ;

    /// A fresh, zeroed RAM.
    fn new_ram() -> (r: Self)
        ensures
            forall|i: int| 0 <= i < r.view().len() ==> r.view()[i] == 0,
    ;
}

/// The RAM of a cartridge that has none: zero bytes.
pub struct NullRam {}

impl Ram for NullRam {
    open spec fn view(&self) -> Seq<u8> {
        Seq::empty()
    }

    fn ram_len(&self) -> (r: usize) {
        0
    }

    fn read(&self, i: usize) -> (r: u8) {
        0
    }

    fn write(&mut self, i: usize, v: u8) {
    }

    fn new_ram() -> (r: Self) {
        NullRam {  }
    }
}

/// A plain 8 KiB external RAM.
pub struct BasicRam {
    pub data: Vec<u8>,
}

impl Ram for BasicRam {
    open spec fn view(&self) -> Seq<u8> {
        self.data@
    }

    fn ram_len(&self) -> (r: usize) {
        self.data.len()
    }

    fn read(&self, i: usize) -> (r: u8) {
        self.data[i]
    }

    fn write(&mut self, i: usize, v: u8) {
        self.data.set(i, v);
    }

    fn new_ram() -> (r: Self) {
        let mut d: Vec<u8> = Vec::new();
        d.resize(0x2000, 0u8);
        BasicRam { data: d }
    }
}

/// The ROM-only mapper: 32 KiB of ROM, writes ignored.
pub struct Rom {
    pub data: Vec<u8>,
}

/// The mapper holds the image's first 32 KiB, zero-padded.
pub open spec fn spec_rom_loaded(r: Rom, img: Seq<u8>) -> bool {
    &&& r.data@.len() == 0x8000
    &&& forall|i: int|
        0 <= i < 0x8000 ==> r.data@[i] == (if i < img.len() {
            img[i]
        } else {
            0u8
        })
}

/// The byte a read drives through the ROM-only mapper.
pub open spec fn spec_rom_data(pre: Rom, addr: u16, d0: u8) -> u8 {
    if addr < 0x8000 {
        pre.data@[addr as int]
    } else {
        d0
    }
}

/// The bus relation of the ROM-only mapper: reads of 0x0000 to 0x7FFF
/// drive the data line, nothing else changes.
pub open spec fn spec_rom_clock_rel(pre: Rom, post: Rom, input: CpuOutputPins, d0: u8, d1: u8) -> bool {
    &&& post == pre
    &&& d1 == (match input {
        CpuOutputPins::Read { addr } => spec_rom_data(pre, addr, d0),
        CpuOutputPins::Write { .. } => d0,
    })
}

impl Rom {
    /// The ROM image is exactly 32 KiB.
    pub open spec fn wf(&self) -> bool {
        self.data@.len() == 0x8000
    }

    /// Build the mapper from a ROM image, truncating past 32 KiB and
    /// padding a short image with zeroes.
    pub fn new(data: Vec<u8>) -> (r: Rom)
        ensures
            r.wf(),
            spec_rom_loaded(r, data@),
    {
        let mut buf: Vec<u8> = Vec::new();
        let mut i: usize = 0;
        while i < 0x8000
            invariant
                i <= 0x8000,
                buf@.len() == i,
                forall|j: int|
                    0 <= j < i ==> buf@[j] == (if j < data@.len() {
                        data@[j]
                    } else {
                        0u8
                    }),
            decreases 0x8000 - i,
        {
            if i < data.len() {
                buf.push(data[i]);
            } else {
                buf.push(0);
            }
            i = i + 1;
        }
        Rom { data: buf }
    }

    /// Observe one bus cycle: drive the data line for reads of
    /// 0x0000 to 0x7FFF; ignore everything else.
    pub fn clock(&mut self, input: CpuOutputPins, data: &mut u8, interrupt_request: &mut u8)
        requires
            old(self).wf(),
        ensures
            *final(interrupt_request) == *old(interrupt_request),
            spec_rom_clock_rel(*old(self), *final(self), input, *old(data), *final(data)),
    {
        match input {
            CpuOutputPins::Read { addr } => {
                if addr < 0x8000 {
                    *data = self.data[addr as usize];
                }
            }
            CpuOutputPins::Write { .. } => {}
        }
    }
}

/// The MBC1 mapper: 128 banks of 16 KiB, a RAM enable gate, a 5-bit low
/// bank register, a 2-bit upper register and a 1-bit mode select.
pub struct Mbc1Generic<R: Ram> {
    pub data: Vec<Vec<u8>>,
    pub ram: R,
    pub ram_enable: bool,
    pub rom_bank_lower: u8,
    pub rom_bank_upper: u8,
    pub mode_select: bool,
}

/// The bank mapped at 0x0000 to 0x3FFF: bank 0, except in mode 1 where
/// the upper register selects a 512 KiB page.
pub open spec fn spec_bank0_index<R: Ram>(m: Mbc1Generic<R>) -> int {
    if m.mode_select {
        m.rom_bank_upper * 32
    } else {
        0
    }
}

/// The bank mapped at 0x4000 to 0x7FFF: the upper register joined with
/// the low register, a zero low register reading as one.
pub open spec fn spec_bank1_index<R: Ram>(m: Mbc1Generic<R>) -> int {
    m.rom_bank_upper * 32 + (if m.rom_bank_lower == 0 {
        1int
    } else {
        m.rom_bank_lower as int
    })
}

/// The mapper holds the image split into 16 KiB banks, zero-padded to
/// 128 banks, with the control registers at their reset values.
pub open spec fn spec_mbc1_loaded<R: Ram>(m: Mbc1Generic<R>, img: Seq<u8>) -> bool {
    &&& m.wf()
    &&& !m.ram_enable
    &&& m.rom_bank_lower == 1
    &&& m.rom_bank_upper == 0
    &&& !m.mode_select
    &&& forall|i: int, j: int|
        0 <= i < 128 && 0 <= j < 0x4000 ==> (#[trigger] (m.data@[i])@[j]) == (if i * 0x4000 + j
            < img.len() {
            img[i * 0x4000 + j]
        } else {
            0u8
        })
}

/// The byte a read drives through the MBC1 mapper.
pub open spec fn spec_mbc1_data<R: Ram>(pre: Mbc1Generic<R>, addr: u16, d0: u8) -> u8 {
    if addr < 0x4000 {
        (pre.data@[spec_bank0_index(pre)])@[addr as int]
    } else if addr < 0x8000 {
        (pre.data@[spec_bank1_index(pre)])@[addr - 0x4000]
    } else if 0xA000 <= addr <= 0xBFFF {
        if pre.ram_enable && addr - 0xA000 < pre.ram.view().len() {
            pre.ram.view()[addr - 0xA000]
        } else {
            0xFF
        }
    } else {
        d0
    }
}

/// The bus relation of the MBC1 mapper: ROM reads come from the mapped
/// banks, the RAM window is gated by the enable register, writes latch
/// the four control regions, and reads of disabled or absent RAM
/// return 0xFF.
pub open spec fn spec_mbc1_clock_rel<R: Ram>(
    pre: Mbc1Generic<R>,
    post: Mbc1Generic<R>,
    input: CpuOutputPins,
    d0: u8,
    d1: u8,
) -> bool {
    match input {
        CpuOutputPins::Read { addr } => {
            &&& post == pre
            &&& d1 == spec_mbc1_data(pre, addr, d0)
        },
        CpuOutputPins::Write { addr, data: v } => {
            &&& d1 == d0
            &&& post.data@ == pre.data@
            &&& if addr < 0x2000 {
                post == (Mbc1Generic { ram_enable: v & 0x0F == 0x0A, ..pre })
            } else if addr < 0x4000 {
                post == (Mbc1Generic { rom_bank_lower: v & 0x1F, ..pre })
            } else if addr < 0x6000 {
                post == (Mbc1Generic { rom_bank_upper: v & 0x03, ..pre })
            } else if addr < 0x8000 {
                post == (Mbc1Generic { mode_select: v & 0x01 != 0, ..pre })
            } else if 0xA000 <= addr <= 0xBFFF {
                if pre.ram_enable && addr - 0xA000 < pre.ram.view().len() {
                    &&& post.ram.view() == pre.ram.view().update(addr - 0xA000, v)
                    &&& post.ram_enable == pre.ram_enable
                    &&& post.rom_bank_lower == pre.rom_bank_lower
                    &&& post.rom_bank_upper == pre.rom_bank_upper
                    &&& post.mode_select == pre.mode_select
                } else {
                    post == pre
                }
            } else {
                post == pre
            }
        },
    }
}

impl<R: Ram> Mbc1Generic<R> {
    /// 128 banks of 16 KiB each, and the control registers within their
    /// widths.
    pub open spec fn wf(&self) -> bool {
        &&& self.data@.len() == 128
        &&& forall|i: int| 0 <= i < 128 ==> (#[trigger] self.data@[i])@.len() == 0x4000
        &&& self.rom_bank_lower < 32
        &&& self.rom_bank_upper < 4
    }

    /// Build the mapper from a ROM image, split into 16 KiB banks and
    /// padded with zero banks up to the full 2 MiB address space.
    pub fn new(data: Vec<u8>) -> (r: Mbc1Generic<R>)
        ensures
            r.wf(),
            spec_mbc1_loaded(r, data@),
    {
        let mut banks: Vec<Vec<u8>> = Vec::new();
        let mut i: usize = 0;
        while i < 128
            invariant
                i <= 128,
                banks@.len() == i,
                forall|b: int| 0 <= b < i ==> (#[trigger] banks@[b])@.len() == 0x4000,
                forall|b: int, j: int|
                    0 <= b < i && 0 <= j < 0x4000 ==> (#[trigger] (banks@[b])@[j]) == (if b
                        * 0x4000 + j < data@.len() {
                        data@[b * 0x4000 + j]
                    } else {
                        0u8
                    }),
            decreases 128 - i,
        {
            let mut bank: Vec<u8> = Vec::new();
            let base: usize = i * 0x4000;
            let mut j: usize = 0;
            while j < 0x4000
                invariant
                    j <= 0x4000,
                    bank@.len() == j,
                    base == i * 0x4000,
                    i < 128,
                    forall|k: int|
                        0 <= k < j ==> bank@[k] == (if base + k < data@.len() {
                            data@[base + k]
                        } else {
                            0u8
                        }),
                decreases 0x4000 - j,
            {
                if base + j < data.len() {
                    bank.push(data[base + j]);
                } else {
                    bank.push(0);
                }
                j = j + 1;
            }
            banks.push(bank);
            i = i + 1;
        }
        Mbc1Generic {
            data: banks,
            ram: R::new_ram(),
            ram_enable: false,
            rom_bank_lower: 1,
            rom_bank_upper: 0,
            mode_select: false,
        }
    }

    /// The index of the bank mapped at 0x0000 to 0x3FFF.
    pub fn bank_0(&self) -> (r: usize)
        requires
            self.wf(),
        ensures
            r == spec_bank0_index(*self),
            r < 128,
    {
        if self.mode_select {
            (self.rom_bank_upper as usize) * 32
        } else {
            0
        }
    }

    /// The index of the bank mapped at 0x4000 to 0x7FFF.
    pub fn bank_1(&self) -> (r: usize)
        requires
            self.wf(),
        ensures
            r == spec_bank1_index(*self),
            r < 128,
    {
        let lower: u8 = if self.rom_bank_lower == 0 {
            1
        } else {
            self.rom_bank_lower
        };
        (self.rom_bank_upper as usize) * 32 + lower as usize
    }

    /// Observe one bus cycle: serve ROM reads from the mapped banks,
    /// gate the RAM window on the enable register, and latch writes to
    /// the four control regions.  Reads of disabled or absent RAM
    /// return 0xFF; writes there are dropped.
    pub fn clock(&mut self, input: CpuOutputPins, data: &mut u8, interrupt_request: &mut u8)
        requires
            old(self).wf(),
        ensures
            final(self).wf(),
            *final(interrupt_request) == *old(interrupt_request),
            spec_mbc1_clock_rel(*old(self), *final(self), input, *old(data), *final(data)),
    {
        match input {
            CpuOutputPins::Read { addr } => {
                if addr < 0x4000 {
                    let b = self.bank_0();
                    *data = self.data[b][addr as usize];
                } else if addr < 0x8000 {
                    let b = self.bank_1();
                    *data = self.data[b][(addr - 0x4000) as usize];
                } else if 0xA000 <= addr && addr <= 0xBFFF {
                    let off = (addr - 0xA000) as usize;
                    if self.ram_enable && off < self.ram.ram_len() {
                        *data = self.ram.read(off);
                    } else {
                        *data = 0xFF;
                    }
                }
            }
            CpuOutputPins::Write { addr, data: v } => {
                if addr < 0x2000 {
                    self.ram_enable = v & 0x0F == 0x0A;
                    proof {
                        let b = v;
                        assert(b & 0x1F < 32 && b & 0x03 < 4 && b & 0x0F < 16) by (bit_vector);
                    }
                } else if addr < 0x4000 {
                    proof {
                        let b = v;
                        assert(b & 0x1F < 32) by (bit_vector);
                    }
                    self.rom_bank_lower = v & 0x1F;
                } else if addr < 0x6000 {
                    proof {
                        let b = v;
                        assert(b & 0x03 < 4) by (bit_vector);
                    }
                    self.rom_bank_upper = v & 0x03;
                } else if addr < 0x8000 {
                    self.mode_select = v & 0x01 != 0;
                } else if 0xA000 <= addr && addr <= 0xBFFF {
                    let off = (addr - 0xA000) as usize;
                    if self.ram_enable && off < self.ram.ram_len() {
                        self.ram.write(off, v);
                    }
                }
            }
        }
    }
}

/// The mapper a cartridge carries, chosen by header byte 0x147.
pub enum CartMapper {
    /// Mapper id 0.
    RomOnly(Rom),
    /// Mapper id 1.
    Mbc1(Mbc1Generic<NullRam>),
    /// Mapper ids 2 and 3.
    Mbc1WithRam(Mbc1Generic<BasicRam>),
}

/// A cartridge: the mapper built from a ROM image.
pub struct Cart {
    pub mapper: CartMapper,
}

/// The byte a read drives through whichever mapper the cartridge
/// carries.
pub open spec fn spec_cart_data(c: Cart, addr: u16, d0: u8) -> u8 {
    match c.mapper {
        CartMapper::RomOnly(r) => spec_rom_data(r, addr, d0),
        CartMapper::Mbc1(m) => spec_mbc1_data(m, addr, d0),
        CartMapper::Mbc1WithRam(m) => spec_mbc1_data(m, addr, d0),
    }
}

/// The state effect of one bus cycle on an MBC1 mapper, independent
/// of the data line: reads change nothing; writes latch the control
/// regions or land in enabled cartridge RAM.
pub open spec fn spec_mbc1_step<R: Ram>(pre: Mbc1Generic<R>, post: Mbc1Generic<R>, input: CpuOutputPins) -> bool {
    match input {
        CpuOutputPins::Read { .. } => post == pre,
        CpuOutputPins::Write { addr, data: v } => {
            &&& post.data@ == pre.data@
            &&& if addr < 0x2000 {
                post == (Mbc1Generic { ram_enable: v & 0x0F == 0x0A, ..pre })
            } else if addr < 0x4000 {
                post == (Mbc1Generic { rom_bank_lower: v & 0x1F, ..pre })
            } else if addr < 0x6000 {
                post == (Mbc1Generic { rom_bank_upper: v & 0x03, ..pre })
            } else if addr < 0x8000 {
                post == (Mbc1Generic { mode_select: v & 0x01 != 0, ..pre })
            } else if 0xA000 <= addr <= 0xBFFF {
                if pre.ram_enable && addr - 0xA000 < pre.ram.view().len() {
                    &&& post.ram.view() == pre.ram.view().update(addr - 0xA000, v)
                    &&& post.ram_enable == pre.ram_enable
                    &&& post.rom_bank_lower == pre.rom_bank_lower
                    &&& post.rom_bank_upper == pre.rom_bank_upper
                    &&& post.mode_select == pre.mode_select
                } else {
                    post == pre
                }
            } else {
                post == pre
            }
        },
    }
}

/// The state effect of one bus cycle on a cartridge, independent of
/// the data line.
#[verifier::opaque]
pub open spec fn spec_cart_step(pre: Cart, post: Cart, input: CpuOutputPins) -> bool {
    match pre.mapper {
        CartMapper::RomOnly(_) => post == pre,
        CartMapper::Mbc1(m) => post.mapper matches CartMapper::Mbc1(m2) && spec_mbc1_step(
            m,
            m2,
            input,
        ),
        CartMapper::Mbc1WithRam(m) => post.mapper matches CartMapper::Mbc1WithRam(m2)
            && spec_mbc1_step(m, m2, input),
    }
}

/// The cartridge carries the mapper that header byte 0x147 names,
/// loaded with the image's bytes.
pub open spec fn spec_cart_loaded(c: Cart, img: Seq<u8>) -> bool {
    &&& img.len() > 0x147
    &&& match c.mapper {
        CartMapper::RomOnly(r) => img[0x147] == 0 && spec_rom_loaded(r, img),
        CartMapper::Mbc1(m) => img[0x147] == 1 && spec_mbc1_loaded(m, img),
        CartMapper::Mbc1WithRam(m) => (img[0x147] == 2 || img[0x147] == 3) && spec_mbc1_loaded(
            m,
            img,
        ),
    }
}

impl Cart {
    /// Every mapper variant is well formed.
    pub open spec fn wf(&self) -> bool {
        match self.mapper {
            CartMapper::RomOnly(r) => r.wf(),
            CartMapper::Mbc1(m) => m.wf(),
            CartMapper::Mbc1WithRam(m) => m.wf(),
        }
    }

    /// Build a cartridge from a ROM image.  The image must reach header
    /// byte 0x147 and that byte must name a supported mapper (0 to 3);
    /// any other image is rejected.
    pub fn new(data: Vec<u8>) -> (r: Result<Cart, &'static str>)
        ensures
            r is Ok <==> data@.len() > 0x147 && data@[0x147] <= 3,
            r matches Err(m) ==> m@ == "Invalid ROM file"@,
            r matches Ok(c) ==> c.wf() && spec_cart_loaded(c, data@),
    {
        if data.len() <= 0x147 {
            return Err("Invalid ROM file");
        }
        let id = data[0x147];
        if id == 0 {
            Ok(Cart { mapper: CartMapper::RomOnly(Rom::new(data)) })
        } else if id == 1 {
            Ok(Cart { mapper: CartMapper::Mbc1(Mbc1Generic::new(data)) })
        } else if id <= 3 {
            Ok(Cart { mapper: CartMapper::Mbc1WithRam(Mbc1Generic::new(data)) })
        } else {
            Err("Invalid ROM file")
        }
    }

    /// Observe one bus cycle through whichever mapper the cartridge
    /// carries; the mapper kind never changes.
    pub fn clock(&mut self, input: CpuOutputPins, data: &mut u8, interrupt_request: &mut u8)
        requires
            old(self).wf(),
        ensures
            final(self).wf(),
            *final(interrupt_request) == *old(interrupt_request),
            spec_cart_step(*old(self), *final(self), input),
            match old(self).mapper {
                CartMapper::RomOnly(pre) => final(self).mapper matches CartMapper::RomOnly(post)
                    && spec_rom_clock_rel(pre, post, input, *old(data), *final(data)),
                CartMapper::Mbc1(pre) => final(self).mapper matches CartMapper::Mbc1(post)
                    && spec_mbc1_clock_rel(pre, post, input, *old(data), *final(data)),
                CartMapper::Mbc1WithRam(pre) => final(self).mapper matches CartMapper::Mbc1WithRam(
                    post,
                ) && spec_mbc1_clock_rel(pre, post, input, *old(data), *final(data)),
            },
    {
        proof {
            reveal(spec_cart_step);
        }
        match &mut self.mapper {
            CartMapper::RomOnly(r) => r.clock(input, data, interrupt_request),
            CartMapper::Mbc1(m) => m.clock(input, data, interrupt_request),
            CartMapper::Mbc1WithRam(m) => m.clock(input, data, interrupt_request),
        }
    }
}

} // verus!
