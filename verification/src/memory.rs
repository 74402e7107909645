//! On-board RAM: 8 KiB of work RAM, 127 bytes of high RAM, and the echo
//! window that mirrors work RAM.
//!
//! Writing any byte in range and reading the same address back returns
//! that byte; [`lemma_memory_round_trip`] states this of the memory
//! model that [`Memory::clock`]'s contract is written against.

use vstd::prelude::*;

use crate::cpu::CpuOutputPins;

verus! {

/// Work RAM (0xC000 to 0xDFFF, echoed at 0xE000 to 0xFDFF) and high RAM
/// (0xFF80 to 0xFFFE).
pub struct Memory {
    pub work_ram_1: Vec<u8>,
    pub work_ram_2: Vec<u8>,
    pub high_ram: Vec<u8>,
}

/// True of the addresses this chip serves: work RAM, its echo, and
/// high RAM.
pub open spec fn spec_mem_in_range(addr: u16) -> bool {
    (0xC000 <= addr <= 0xDFFF) || (0xE000 <= addr <= 0xFDFF) || (0xFF80 <= addr <= 0xFFFE)
}

/// The address a bus address maps to after folding the echo window onto
/// work RAM.
pub open spec fn spec_mem_fold(addr: u16) -> u16 {
    if 0xE000 <= addr <= 0xFDFF {
        (addr - 0x2000) as u16
    } else {
        addr
    }
}

/// The byte a read drives through the RAM chip.
pub open spec fn spec_mem_data(m: Memory, addr: u16, d0: u8) -> u8 {
    if spec_mem_in_range(addr) {
        m.spec_read(addr)
    } else {
        d0
    }
}

impl Memory {
    /// The two work-RAM halves are 4 KiB each and high RAM is 127 bytes.
    pub open spec fn wf(&self) -> bool {
        &&& self.work_ram_1@.len() == 0x1000
        &&& self.work_ram_2@.len() == 0x1000
        &&& self.high_ram@.len() == 0x7F
    }

    /// The byte stored at a bus address in range.
    pub open spec fn spec_read(&self, addr: u16) -> u8 {
        let a = spec_mem_fold(addr);
        if 0xC000 <= a <= 0xCFFF {
            self.work_ram_1@[a - 0xC000]
        } else if 0xD000 <= a <= 0xDFFF {
            self.work_ram_2@[a - 0xD000]
        } else {
            self.high_ram@[a - 0xFF80]
        }
    }

    /// Relates the memory before and after storing a byte at a bus
    /// address in range: the folded address's cell holds the byte and
    /// every other cell is unchanged.
    pub open spec fn spec_written(&self, post: Memory, addr: u16, v: u8) -> bool {
        let a = spec_mem_fold(addr);
        if 0xC000 <= a <= 0xCFFF {
            &&& post.work_ram_1@ == self.work_ram_1@.update(a - 0xC000, v)
            &&& post.work_ram_2@ == self.work_ram_2@
            &&& post.high_ram@ == self.high_ram@
        } else if 0xD000 <= a <= 0xDFFF {
            &&& post.work_ram_1@ == self.work_ram_1@
            &&& post.work_ram_2@ == self.work_ram_2@.update(a - 0xD000, v)
            &&& post.high_ram@ == self.high_ram@
        } else {
            &&& post.work_ram_1@ == self.work_ram_1@
            &&& post.work_ram_2@ == self.work_ram_2@
            &&& post.high_ram@ == self.high_ram@.update(a - 0xFF80, v)
        }
    }

    /// Zeroed RAM.
    pub fn new() -> (r: Memory)
        ensures
            r.wf(),
            forall|addr: u16| spec_mem_in_range(addr) ==> r.spec_read(addr) == 0,
    {
        let mut w1: Vec<u8> = Vec::new();
        let mut w2: Vec<u8> = Vec::new();
        let mut hi: Vec<u8> = Vec::new();
        w1.resize(0x1000, 0u8);
        w2.resize(0x1000, 0u8);
        hi.resize(0x7F, 0u8);
        Memory { work_ram_1: w1, work_ram_2: w2, high_ram: hi }
    }

    /// True of the addresses this chip serves.
    pub fn address_is_in_range(addr: u16) -> (r: bool)
        ensures
            r == spec_mem_in_range(addr),
    {
        (0xC000 <= addr && addr <= 0xDFFF) || (0xE000 <= addr && addr <= 0xFDFF) || (0xFF80 <= addr
            && addr <= 0xFFFE)
    }

    /// Read the byte at a bus address in range.
    pub fn read(&self, addr: u16) -> (r: u8)
        requires
            self.wf(),
            spec_mem_in_range(addr),
        ensures
            r == self.spec_read(addr),
    {
        let a: u16 = if 0xE000 <= addr && addr <= 0xFDFF {
            addr - 0x2000
        } else {
            addr
        };
        if 0xC000 <= a && a <= 0xCFFF {
            self.work_ram_1[(a - 0xC000) as usize]
        } else if 0xD000 <= a && a <= 0xDFFF {
            self.work_ram_2[(a - 0xD000) as usize]
        } else {
            self.high_ram[(a - 0xFF80) as usize]
        }
    }

    /// Store a byte at a bus address in range.
    pub fn write(&mut self, addr: u16, v: u8)
        requires
            old(self).wf(),
            spec_mem_in_range(addr),
        ensures
            final(self).wf(),
            old(self).spec_written(*final(self), addr, v),
    {
        let a: u16 = if 0xE000 <= addr && addr <= 0xFDFF {
            addr - 0x2000
        } else {
            addr
        };
        if 0xC000 <= a && a <= 0xCFFF {
            self.work_ram_1.set((a - 0xC000) as usize, v);
        } else if 0xD000 <= a && a <= 0xDFFF {
            self.work_ram_2.set((a - 0xD000) as usize, v);
        } else {
            self.high_ram.set((a - 0xFF80) as usize, v);
        }
    }

    /// Observe one bus cycle: drive the data line on a read in range,
    /// store the byte on a write in range, and otherwise stay silent.
    /// This chip never requests an interrupt.
    pub fn clock(&mut self, input: CpuOutputPins, data: &mut u8, interrupt_request: &mut u8)
        requires
            old(self).wf(),
        ensures
            final(self).wf(),
            *final(interrupt_request) == *old(interrupt_request),
            match input {
                CpuOutputPins::Read { addr } => {
                    &&& *final(self) == *old(self)
                    &&& *final(data) == (if spec_mem_in_range(addr) {
                        old(self).spec_read(addr)
                    } else {
                        *old(data)
                    })
                },
                CpuOutputPins::Write { addr, data: v } => {
                    &&& *final(data) == *old(data)
                    &&& if spec_mem_in_range(addr) {
                        old(self).spec_written(*final(self), addr, v)
                    } else {
                        *final(self) == *old(self)
                    }
                },
            },
    {
        match input {
            CpuOutputPins::Read { addr } => {
                if Memory::address_is_in_range(addr) {
                    *data = self.read(addr);
                }
            }
            CpuOutputPins::Write { addr, data: v } => {
                if Memory::address_is_in_range(addr) {
                    self.write(addr, v);
                }
            }
        }
    }
}

impl Default for Memory {
    /// Zeroed RAM.
    fn default() -> (r: Memory)
        ensures
            r.wf(),
    {
        Memory::new()
    }
}

/// Round trip: storing a byte at any work-RAM, echo or high-RAM address
/// and reading the same address back returns that byte.
pub proof fn lemma_memory_round_trip(m0: Memory, m1: Memory, addr: u16, v: u8)
    requires
        m0.wf(),
        spec_mem_in_range(addr),
        m0.spec_written(m1, addr, v),
    ensures
        m1.spec_read(addr) == v,
{
}

/// The echo window aliases work RAM: a store through either window is
/// read back through the other.
pub proof fn lemma_memory_echo(m0: Memory, m1: Memory, addr: u16, v: u8)
    requires
        m0.wf(),
        0xE000 <= addr <= 0xFDFF,
        m0.spec_written(m1, addr, v),
    ensures
        m1.spec_read((addr - 0x2000) as u16) == v,
{
}

} // verus!
