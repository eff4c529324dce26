//! GxROM: one register selects a PRG bank and a CHR bank.
use super::mapper_internal::{bank_index, lemma_bank_index_bound, BankSize, MapperInternal, CHR_RAM_DATA_SIZE, CHR_ROM_DATA_SIZE, PRG_ROM_DATA_SIZE};
use super::Mapper;
use crate::common::Mirroring;
use vstd::prelude::*;

verus! {

pub struct Mapper66 {
    pub mapper_internal: MapperInternal,
    pub mirroring: Mirroring,
    pub prg_bank: usize,
    pub chr_bank: usize,
}

impl Mapper66 {
    pub open spec fn prg_byte(&self, address: u16) -> u8 {
        self.mapper_internal.prg_rom@[bank_index(address, self.prg_bank, BankSize::_16KB)]
    }

    pub fn new(prg_rom: Vec<u8>, chr_rom: Vec<u8>, mirroring: Mirroring) -> (r: Mapper66)
        requires
            prg_rom@.len() <= PRG_ROM_DATA_SIZE,
            chr_rom@.len() <= CHR_ROM_DATA_SIZE,
        ensures
            r.inv(),
            r.mirroring == mirroring,
            r.prg_bank == 0,
            r.chr_bank == 0,
            r.mapper_internal.fresh(prg_rom@, chr_rom@),
    {
        let mapper_internal = MapperInternal::new(prg_rom, chr_rom);
        Mapper66 { mapper_internal, mirroring, prg_bank: 0, chr_bank: 0 }
    }
}

impl Mapper for Mapper66 {
    /// Both bank numbers come from two-bit fields.
    open spec fn inv(&self) -> bool {
        self.mapper_internal.wf() && self.prg_bank < 4 && self.chr_bank < 4
    }

    open spec fn prg_read_ok(&self, address: u16) -> bool {
        true
    }

    open spec fn prg_write_ok(&self, address: u16, byte: u8) -> bool {
        true
    }

    open spec fn chr_read_ok(&self, address: u16) -> bool {
        self.mapper_internal.chr_readable(address, self.chr_bank, BankSize::_8KB)
    }

    open spec fn chr_write_ok(&self, address: u16) -> bool {
        address < CHR_RAM_DATA_SIZE
    }

    open spec fn mirroring_value(&self) -> Mirroring {
        self.mirroring
    }

    /// Bits 0-1 select the CHR bank, bits 4-5 the PRG bank.
    open spec fn prg_written(&self, new: Self, address: u16, byte: u8) -> bool {
        &&& new.chr_bank == (byte % 4) as usize
        &&& new.prg_bank == ((byte / 16) % 4) as usize
        &&& new.mapper_internal == self.mapper_internal
        &&& new.mirroring == self.mirroring
    }

    open spec fn chr_written(&self, new: Self, address: u16, byte: u8) -> bool {
        &&& self.mapper_internal.chr_ram_stored(new.mapper_internal, address, byte)
        &&& new.prg_bank == self.prg_bank
        &&& new.chr_bank == self.chr_bank
        &&& new.mirroring == self.mirroring
    }

    open spec fn powered_on(&self, new: Self) -> bool {
        &&& self.mapper_internal.rams_cleared(new.mapper_internal)
        &&& new.prg_bank == 0
        &&& new.chr_bank == 0
        &&& new.mirroring == self.mirroring
    }

    fn get_mapper_id(&self) -> (r: u8)
        ensures
            r == 66,
    {
        66
    }

    fn get_chr_byte(&mut self, address: u16) -> (r: u8)
        ensures
            r == old(self).mapper_internal.chr_byte(address, old(self).chr_bank, BankSize::_8KB),
            *final(self) == *old(self),
    {
        self.mapper_internal.get_chr_byte(address, self.chr_bank, BankSize::_8KB)
    }

    fn store_chr_byte(&mut self, address: u16, byte: u8) {
        self.mapper_internal.store_chr_byte(address, 0, BankSize::_8KB, byte)
    }

    fn get_prg_byte(&mut self, address: u16) -> (r: u8)
        ensures
            r == old(self).prg_byte(address),
            *final(self) == *old(self),
    {
        proof {
            lemma_bank_index_bound(address, self.prg_bank, BankSize::_16KB, 3);
        }
        self.mapper_internal.get_prg_rom_byte(address, self.prg_bank, BankSize::_16KB)
    }

    /// Bits 0-1 select the CHR bank, bits 4-5 the PRG bank.
    fn store_prg_byte(&mut self, address: u16, byte: u8) {
        self.chr_bank = (byte % 4) as usize;
        self.prg_bank = ((byte / 16) % 4) as usize;
    }

    fn get_mirroring(&self) -> (r: Mirroring) {
        self.mirroring
    }

    fn power_cycle(&mut self) {
        self.prg_bank = 0;
        self.chr_bank = 0;
        self.mapper_internal.reset();
    }

    fn is_irq_pending(&mut self) -> (r: bool) {
        false
    }

    fn ppu_a12_rising_edge_triggered(&mut self) {
    }
}

/// After a write, PRG reads come from the 16 KiB bank in bits 4 and 5 of
/// the written byte and pattern-table reads from the 8 KiB CHR ROM bank in
/// bits 0 and 1.
pub proof fn law_bank_select(m: Mapper66, new: Mapper66, address: u16, byte: u8, read_address: u16, chr_address: u16)
    requires
        m.prg_written(new, address, byte),
        m.mapper_internal.chr_rom_size != 0,
        chr_address < 0x2000,
    ensures
        new.prg_byte(read_address) == m.mapper_internal.prg_rom@[0x4000 * ((byte / 16) % 4) + read_address % 0x4000],
        new.mapper_internal.chr_byte(chr_address, new.chr_bank, BankSize::_8KB) == m.mapper_internal.chr_rom@[0x2000 * (
        byte % 4) + chr_address],
{
    assert(chr_address as int % 0x2000 == chr_address as int);
}

} // verus!
