//! NROM: fixed 16 or 32 KiB of PRG ROM and 8 KiB of CHR.
use super::mapper_internal::{bank_index, BankSize, MapperInternal, CHR_RAM_DATA_SIZE, CHR_ROM_DATA_SIZE, PRG_ROM_DATA_SIZE};
use super::Mapper;
use crate::common::Mirroring;
use vstd::prelude::*;

verus! {

pub struct Mapper0 {
    pub mapper_internal: MapperInternal,
    pub mirroring: Mirroring,
}

/// A 16 KiB (or smaller) PRG ROM is mirrored into both halves.
pub open spec fn nrom_prg(prg_rom: Seq<u8>) -> Seq<u8> {
    if prg_rom.len() <= 16384 {
        prg_rom + prg_rom
    } else {
        prg_rom
    }
}

impl Mapper0 {
    /// The PRG ROM byte at a CPU address: the first bank below $C000, the second above.
    pub open spec fn prg_byte(&self, address: u16) -> u8 {
        self.mapper_internal.prg_rom@[bank_index(address, if address < 0xC000 { 0 } else { 1 }, BankSize::_16KB)]
    }

    pub fn new(prg_rom: Vec<u8>, chr_rom: Vec<u8>, mirroring: Mirroring) -> (r: Mapper0)
        requires
            nrom_prg(prg_rom@).len() <= PRG_ROM_DATA_SIZE,
            chr_rom@.len() <= CHR_ROM_DATA_SIZE,
        ensures
            r.inv(),
            r.mapper_internal.prg_rom@.subrange(0, nrom_prg(prg_rom@).len() as int) == nrom_prg(prg_rom@),
            r.mapper_internal.prg_rom_size == nrom_prg(prg_rom@).len(),
            r.mapper_internal.chr_rom@.subrange(0, chr_rom@.len() as int) == chr_rom@,
            r.mapper_internal.chr_rom_size == chr_rom@.len(),
            r.mirroring == mirroring,
    {
        let mut final_prg_rom = prg_rom.clone();
        if final_prg_rom.len() <= 16384 {
            let mut i: usize = 0;
            while i < prg_rom.len()
                invariant
                    prg_rom@.len() <= 16384,
                    i <= prg_rom@.len(),
                    final_prg_rom@ == prg_rom@ + prg_rom@.subrange(0, i as int),
                decreases prg_rom@.len() - i,
            {
                final_prg_rom.push(prg_rom[i]);
                i = i + 1;
                assert(prg_rom@.subrange(0, i as int) =~= prg_rom@.subrange(0, i - 1).push(prg_rom@[i - 1]));
            }
            assert(prg_rom@.subrange(0, prg_rom@.len() as int) =~= prg_rom@);
        }
        let mapper_internal = MapperInternal::new(final_prg_rom, chr_rom);
        proof {
            assert(mapper_internal.prg_rom@.subrange(0, nrom_prg(prg_rom@).len() as int) =~= nrom_prg(prg_rom@));
            assert(mapper_internal.chr_rom@.subrange(0, chr_rom@.len() as int) =~= chr_rom@);
        }
        Mapper0 { mirroring, mapper_internal }
    }
}

impl Mapper for Mapper0 {
    open spec fn inv(&self) -> bool {
        self.mapper_internal.wf()
    }

    open spec fn prg_read_ok(&self, address: u16) -> bool {
        true
    }

    /// NROM has no registers: every write to PRG space is refused.
    open spec fn prg_write_ok(&self, address: u16, byte: u8) -> bool {
        false
    }

    open spec fn chr_read_ok(&self, address: u16) -> bool {
        self.mapper_internal.chr_readable(address, 0, BankSize::_8KB)
    }

    open spec fn chr_write_ok(&self, address: u16) -> bool {
        address < CHR_RAM_DATA_SIZE
    }

    open spec fn mirroring_value(&self) -> Mirroring {
        self.mirroring
    }

    /// NROM has no registers: a write changes nothing.
    open spec fn prg_written(&self, new: Self, address: u16, byte: u8) -> bool {
        new == *self
    }

    open spec fn chr_written(&self, new: Self, address: u16, byte: u8) -> bool {
        self.mapper_internal.chr_ram_stored(new.mapper_internal, address, byte) && new.mirroring == self.mirroring
    }

    open spec fn powered_on(&self, new: Self) -> bool {
        self.mapper_internal.rams_cleared(new.mapper_internal) && new.mirroring == self.mirroring
    }

    fn get_mapper_id(&self) -> (r: u8)
        ensures
            r == 0,
    {
        0
    }

    fn get_chr_byte(&mut self, address: u16) -> (r: u8)
        ensures
            r == old(self).mapper_internal.chr_byte(address, 0, BankSize::_8KB),
            *final(self) == *old(self),
    {
        self.mapper_internal.get_chr_byte(address, 0, BankSize::_8KB)
    }

    fn store_chr_byte(&mut self, address: u16, byte: u8) {
        self.mapper_internal.store_chr_byte(address, 0, BankSize::_8KB, byte)
    }

    fn get_prg_byte(&mut self, address: u16) -> (r: u8)
        ensures
            r == old(self).prg_byte(address),
            *final(self) == *old(self),
    {
        if address < 0xC000 {
            self.mapper_internal.get_prg_rom_byte(address, 0, BankSize::_16KB)
        } else {
            self.mapper_internal.get_prg_rom_byte(address, 1, BankSize::_16KB)
        }
    }

    fn store_prg_byte(&mut self, address: u16, byte: u8) {
    }

    fn get_mirroring(&self) -> (r: Mirroring) {
        self.mirroring
    }

    fn power_cycle(&mut self) {
        self.mapper_internal.reset();
    }

    fn is_irq_pending(&mut self) -> (r: bool) {
        false
    }

    fn ppu_a12_rising_edge_triggered(&mut self) {
    }
}

} // verus!
