//! AxROM: one switchable 32 KiB PRG bank and single-screen mirroring.
use super::mapper_internal::{bank_index, lemma_bank_index_bound, BankSize, MapperInternal, CHR_RAM_DATA_SIZE, CHR_ROM_DATA_SIZE, PRG_ROM_DATA_SIZE};
use super::Mapper;
use crate::common::Mirroring;
use vstd::prelude::*;

verus! {

pub struct Mapper7 {
    pub mapper_internal: MapperInternal,
    pub register: usize,
}

impl Mapper7 {
    /// ROM from $8000 up through the bank in the low three bits of the
    /// register; 0 below.
    pub open spec fn prg_byte(&self, address: u16) -> u8 {
        if address >= 0x8000 {
            self.mapper_internal.prg_rom@[bank_index(address, self.register % 8, BankSize::_32KB)]
        } else {
            0
        }
    }

    pub open spec fn mirroring_of(register: usize) -> Mirroring {
        if (register / 16) % 2 == 1 {
            Mirroring::SingleScreenUpperBank
        } else {
            Mirroring::SingleScreenLowerBank
        }
    }

    pub fn new(prg_rom: Vec<u8>, chr_rom: Vec<u8>) -> (r: Mapper7)
        requires
            prg_rom@.len() <= PRG_ROM_DATA_SIZE,
            chr_rom@.len() <= CHR_ROM_DATA_SIZE,
        ensures
            r.inv(),
            r.register == 0,
            r.mapper_internal.fresh(prg_rom@, chr_rom@),
    {
        let mapper_internal = MapperInternal::new(prg_rom, chr_rom);
        Mapper7 { mapper_internal, register: 0 }
    }
}

impl Mapper for Mapper7 {
    open spec fn inv(&self) -> bool {
        self.mapper_internal.wf()
    }

    open spec fn prg_read_ok(&self, address: u16) -> bool {
        true
    }

    open spec fn prg_write_ok(&self, address: u16, byte: u8) -> bool {
        true
    }

    open spec fn chr_read_ok(&self, address: u16) -> bool {
        self.mapper_internal.chr_readable(address, 0, BankSize::_8KB)
    }

    open spec fn chr_write_ok(&self, address: u16) -> bool {
        address < CHR_RAM_DATA_SIZE
    }

    open spec fn mirroring_value(&self) -> Mirroring {
        Mapper7::mirroring_of(self.register)
    }

    /// A write from $8000 up is stored in the register.
    open spec fn prg_written(&self, new: Self, address: u16, byte: u8) -> bool {
        new.register == (if address >= 0x8000 { byte as usize } else { self.register }) && new.mapper_internal
            == self.mapper_internal
    }

    open spec fn chr_written(&self, new: Self, address: u16, byte: u8) -> bool {
        self.mapper_internal.chr_ram_stored(new.mapper_internal, address, byte) && new.register == self.register
    }

    open spec fn powered_on(&self, new: Self) -> bool {
        self.mapper_internal.rams_cleared(new.mapper_internal) && new.register == 0
    }

    fn get_mapper_id(&self) -> (r: u8)
        ensures
            r == 7,
    {
        7
    }

    fn get_chr_byte(&mut self, address: u16) -> (r: u8)
        ensures
            r == old(self).mapper_internal.chr_byte(address, 0, BankSize::_8KB),
            *final(self) == *old(self),
    {
        self.mapper_internal.get_chr_byte(address, 0, BankSize::_8KB)
    }

    fn store_chr_byte(&mut self, address: u16, byte: u8) {
        self.mapper_internal.store_chr_byte(address, 0, BankSize::_8KB, byte)
    }

    fn get_prg_byte(&mut self, address: u16) -> (r: u8)
        ensures
            r == old(self).prg_byte(address),
            *final(self) == *old(self),
    {
        if address >= 0x8000 {
            let bank = self.register % 8;
            proof {
                lemma_bank_index_bound(address, bank, BankSize::_32KB, 7);
            }
            self.mapper_internal.get_prg_rom_byte(address, bank, BankSize::_32KB)
        } else {
            0
        }
    }

    /// A write from $8000 up stores the byte in the register.
    fn store_prg_byte(&mut self, address: u16, byte: u8) {
        if address >= 0x8000 {
            self.register = byte as usize;
        }
    }

    fn get_mirroring(&self) -> (r: Mirroring) {
        if (self.register / 16) % 2 == 1 {
            Mirroring::SingleScreenUpperBank
        } else {
            Mirroring::SingleScreenLowerBank
        }
    }

    fn power_cycle(&mut self) {
        self.register = 0;
        self.mapper_internal.reset();
    }

    fn is_irq_pending(&mut self) -> (r: bool) {
        false
    }

    fn ppu_a12_rising_edge_triggered(&mut self) {
    }
}

/// After a write from $8000 up, reads from $8000 up come from the 32 KiB
/// bank in the low three bits of the written byte, and bit 4 selects the
/// upper or lower single screen.
pub proof fn law_bank_select(m: Mapper7, new: Mapper7, address: u16, byte: u8, read_address: u16)
    requires
        m.prg_written(new, address, byte),
        address >= 0x8000,
        read_address >= 0x8000,
    ensures
        new.prg_byte(read_address) == m.mapper_internal.prg_rom@[0x8000 * (byte % 8) + (read_address - 0x8000)],
        new.mirroring_value() == (if byte & 0x10 != 0 {
            Mirroring::SingleScreenUpperBank
        } else {
            Mirroring::SingleScreenLowerBank
        }),
{
    assert(read_address as int % 0x8000 == read_address - 0x8000);
    assert((byte & 0x10 != 0) == ((byte / 16) % 2 == 1)) by (bit_vector);
    assert(((byte as usize) % 8) as int == byte % 8);
}

} // verus!
