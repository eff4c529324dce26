//! UxROM: a switchable 16 KiB PRG bank at $8000 and the last bank fixed at $C000.
use super::mapper_internal::{bank_index, lemma_bank_index_bound, BankSize, MapperInternal, CHR_RAM_DATA_SIZE, CHR_ROM_DATA_SIZE, PRG_ROM_DATA_SIZE};
use super::Mapper;
use crate::common::Mirroring;
use vstd::prelude::*;

verus! {

pub struct Mapper2 {
    pub mapper_internal: MapperInternal,
    pub mirroring: Mirroring,
    pub switchable_bank_0: usize,
}

impl Mapper2 {
    /// The PRG bank of a CPU address: the switchable one below $C000, the last one above.
    pub open spec fn prg_bank(&self, address: u16) -> int {
        if address < 0xC000 {
            self.switchable_bank_0 as int
        } else {
            self.mapper_internal.prg_rom_size / 0x4000 - 1
        }
    }

    pub open spec fn prg_byte(&self, address: u16) -> u8 {
        self.mapper_internal.prg_rom@[bank_index(address, self.prg_bank(address) as usize, BankSize::_16KB)]
    }

    pub fn new(prg_rom: Vec<u8>, chr_rom: Vec<u8>, mirroring: Mirroring) -> (r: Mapper2)
        requires
            prg_rom@.len() <= PRG_ROM_DATA_SIZE,
            chr_rom@.len() <= CHR_ROM_DATA_SIZE,
        ensures
            r.inv(),
            r.mirroring == mirroring,
            r.switchable_bank_0 == 0,
            r.mapper_internal.fresh(prg_rom@, chr_rom@),
    {
        let mapper_internal = MapperInternal::new(prg_rom, chr_rom);
        Mapper2 { mapper_internal, mirroring, switchable_bank_0: 0 }
    }
}

impl Mapper for Mapper2 {
    open spec fn inv(&self) -> bool {
        self.mapper_internal.wf()
    }

    /// The selected bank lies within the PRG table (and the ROM has at least
    /// one bank for the fixed half).
    open spec fn prg_read_ok(&self, address: u16) -> bool {
        &&& self.prg_bank(address) >= 0
        &&& bank_index(address, self.prg_bank(address) as usize, BankSize::_16KB) < PRG_ROM_DATA_SIZE
    }

    open spec fn prg_write_ok(&self, address: u16, byte: u8) -> bool {
        true
    }

    open spec fn chr_read_ok(&self, address: u16) -> bool {
        self.mapper_internal.chr_readable(address, 0, BankSize::_8KB)
    }

    open spec fn chr_write_ok(&self, address: u16) -> bool {
        address < CHR_RAM_DATA_SIZE
    }

    open spec fn mirroring_value(&self) -> Mirroring {
        self.mirroring
    }

    /// Any write selects the low bank.
    open spec fn prg_written(&self, new: Self, address: u16, byte: u8) -> bool {
        new.switchable_bank_0 == byte as usize && new.mapper_internal == self.mapper_internal && new.mirroring
            == self.mirroring
    }

    open spec fn chr_written(&self, new: Self, address: u16, byte: u8) -> bool {
        &&& self.mapper_internal.chr_ram_stored(new.mapper_internal, address, byte)
        &&& new.switchable_bank_0 == self.switchable_bank_0
        &&& new.mirroring == self.mirroring
    }

    open spec fn powered_on(&self, new: Self) -> bool {
        &&& self.mapper_internal.rams_cleared(new.mapper_internal)
        &&& new.switchable_bank_0 == 0
        &&& new.mirroring == self.mirroring
    }

    fn get_mapper_id(&self) -> (r: u8)
        ensures
            r == 2,
    {
        2
    }

    fn get_chr_byte(&mut self, address: u16) -> (r: u8)
        ensures
            r == old(self).mapper_internal.chr_byte(address, 0, BankSize::_8KB),
            *final(self) == *old(self),
    {
        self.mapper_internal.get_chr_byte(address, 0, BankSize::_8KB)
    }

    fn store_chr_byte(&mut self, address: u16, byte: u8) {
        self.mapper_internal.store_chr_byte(address, 0, BankSize::_8KB, byte)
    }

    fn get_prg_byte(&mut self, address: u16) -> (r: u8)
        ensures
            r == old(self).prg_byte(address),
            *final(self) == *old(self),
    {
        let bank = if address < 0xC000 {
            self.switchable_bank_0
        } else {
            self.mapper_internal.get_prg_rom_bank_count(BankSize::_16KB) - 1
        };
        self.mapper_internal.get_prg_rom_byte(address, bank, BankSize::_16KB)
    }

    /// Any write selects the switchable bank.
    fn store_prg_byte(&mut self, address: u16, byte: u8) {
        self.switchable_bank_0 = byte as usize;
    }

    fn get_mirroring(&self) -> (r: Mirroring) {
        self.mirroring
    }

    fn power_cycle(&mut self) {
        self.switchable_bank_0 = 0;
        self.mapper_internal.reset();
    }

    fn is_irq_pending(&mut self) -> (r: bool) {
        false
    }

    fn ppu_a12_rising_edge_triggered(&mut self) {
    }
}

/// After a bank-select write, reads from $8000 to $BFFF come from the 16 KiB
/// bank that the written byte names, and reads from $C000 up still come
/// from the last bank.
pub proof fn law_bank_select(m: Mapper2, new: Mapper2, address: u16, byte: u8, read_address: u16)
    requires
        m.prg_written(new, address, byte),
        read_address >= 0x8000,
    ensures
        read_address < 0xC000 ==> new.prg_byte(read_address) == m.mapper_internal.prg_rom@[0x4000 * byte + (read_address
            - 0x8000)],
        read_address >= 0xC000 ==> new.prg_byte(read_address) == m.prg_byte(read_address),
{
    assert(read_address < 0xC000 ==> read_address as int % 0x4000 == read_address - 0x8000);
}

} // verus!
