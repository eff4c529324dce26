//! The DMC's reader over the CPU's address space: a sample starts at
//! $C000 plus 64 times its address byte, and reading past $FFFF goes on at
//! $8000.
use super::DmcMemory;
use crate::memory::Memory;
use vstd::prelude::*;

verus! {

/// The address where the sample of address byte `a` starts.
pub open spec fn sample_start(a: u8) -> u16 {
    (0xC000 + 64 * a) as u16
}

/// The address after `address`, wrapping from $FFFF to $8000.
pub open spec fn next_sample_address(address: u16) -> u16 {
    if address == 0xFFFF {
        0x8000
    } else {
        (address + 1) as u16
    }
}

/// Reads sample bytes from a memory, one address after another.
pub struct CpuMemoryReader<'a, M: Memory> {
    pub memory: &'a M,
    pub current_address: u16,
}

impl<'a, M: Memory> CpuMemoryReader<'a, M> {
    /// A reader at $C000.
    pub fn new(memory: &'a M) -> (r: CpuMemoryReader<'a, M>)
        ensures
            r.memory == memory,
            r.current_address == 0xC000,
    {
        CpuMemoryReader { memory, current_address: 0xC000 }
    }
}

impl<'a, M: Memory> DmcMemory for CpuMemoryReader<'a, M> {
    open spec fn inv(&self) -> bool {
        self.memory.inv()
    }

    open spec fn next_byte(&self) -> u8 {
        M::read_model(self.memory.model(), self.current_address)
    }

    open spec fn pointed_at(&self, new: Self, address: u8) -> bool {
        new.memory == self.memory && new.current_address == sample_start(address)
    }

    open spec fn advanced(&self, new: Self) -> bool {
        new.memory == self.memory && new.current_address == next_sample_address(self.current_address)
    }

    fn set_sample_address(&mut self, address: u8) {
        self.current_address = 0xC000 + (address as u16) * 64;
    }

    fn get_next_sample_byte(&mut self) -> (r: u8) {
        let r = self.memory.get_byte(self.current_address);
        self.current_address = if self.current_address == 0xFFFF {
            0x8000
        } else {
            self.current_address + 1
        };
        r
    }
}

} // verus!
