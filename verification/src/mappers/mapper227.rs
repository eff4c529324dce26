//! Mapper 227: the register is the address of the last write.
use super::mapper_internal::{bank_index, BankSize, MapperInternal, CHR_RAM_DATA_SIZE, CHR_ROM_DATA_SIZE, PRG_ROM_DATA_SIZE};
use super::Mapper;
use crate::common::Mirroring;
use vstd::prelude::*;

verus! {

/// The PRG bank field: bits 2 to 6 of the register, with bit 8 as bank bit 5.
pub open spec fn register_prg_bank(register: u16) -> usize {
    ((register / 4) % 32 + 32 * ((register / 256) % 2)) as usize
}

pub open spec fn is_last_prg_page_mode(register: u16) -> bool {
    (register / 512) % 2 == 1
}

pub open spec fn is_mode_1_enabled(register: u16) -> bool {
    (register / 128) % 2 == 1
}

pub open spec fn register_mirroring(register: u16) -> Mirroring {
    if (register / 2) % 2 == 1 {
        Mirroring::Horizontal
    } else {
        Mirroring::Vertical
    }
}

/// Bit 0 selects 32 KiB banks, else 16 KiB.
pub open spec fn register_prg_bank_size(register: u16) -> BankSize {
    if register % 2 == 1 {
        BankSize::_32KB
    } else {
        BankSize::_16KB
    }
}

pub open spec fn is_menu_selection_mode(register: u16) -> bool {
    (register / 1024) % 2 == 1
}

pub struct Mapper227 {
    pub mapper_internal: MapperInternal,
    pub register: u16,
    pub bank_1: usize,
    pub bank_2: usize,
}

/// The two PRG banks that a register value selects, given the banks before.
pub open spec fn updated_banks(register: u16, bank_1: usize, bank_2: usize) -> (usize, usize) {
    let bank = register_prg_bank(register);
    let is_32kb = register_prg_bank_size(register) == BankSize::_32KB;
    if is_mode_1_enabled(register) {
        if is_32kb {
            (bank / 2, bank_2)
        } else {
            (bank, bank)
        }
    } else {
        (
            if is_32kb { (bank - bank % 2) as usize } else { bank },
            if is_last_prg_page_mode(register) { (bank - bank % 8 + 7) as usize } else { (bank - bank % 8) as usize },
        )
    }
}

impl Mapper227 {
    /// The bank of a CPU address: the first bank in 32 KiB mode 1 or below
    /// $C000, else the second.
    pub open spec fn prg_bank(&self, address: u16) -> usize {
        if (register_prg_bank_size(self.register) == BankSize::_32KB && is_mode_1_enabled(self.register))
            || address < 0xC000 {
            self.bank_1
        } else {
            self.bank_2
        }
    }

    pub open spec fn prg_byte(&self, address: u16) -> u8 {
        self.mapper_internal.prg_rom@[bank_index(address, self.prg_bank(address), register_prg_bank_size(self.register))]
    }

    pub fn new(prg_rom: Vec<u8>, chr_rom: Vec<u8>) -> (r: Mapper227)
        requires
            prg_rom@.len() <= PRG_ROM_DATA_SIZE,
            chr_rom@.len() <= CHR_ROM_DATA_SIZE,
        ensures
            r.inv(),
            r.register == 0,
            r.bank_1 == 0,
            r.bank_2 == 0,
            r.mapper_internal.fresh(prg_rom@, chr_rom@),
    {
        let mapper_internal = MapperInternal::new(prg_rom, chr_rom);
        Mapper227 { mapper_internal, register: 0, bank_1: 0, bank_2: 0 }
    }

    fn get_prg_bank(&self) -> (r: usize)
        ensures
            r == register_prg_bank(self.register),
    {
        let bits_0_4 = (self.register / 4) % 32;
        let bit_5 = ((self.register / 256) % 2) * 32;
        (bit_5 + bits_0_4) as usize
    }

    fn is_bank_size_32kb(&self) -> (r: bool)
        ensures
            r == (register_prg_bank_size(self.register) == BankSize::_32KB),
    {
        self.register % 2 == 1
    }

    fn is_mode_1_enabled(&self) -> (r: bool)
        ensures
            r == is_mode_1_enabled(self.register),
    {
        (self.register / 128) % 2 == 1
    }

    fn update_banks(&mut self)
        ensures
            (final(self).bank_1, final(self).bank_2) == updated_banks(old(self).register, old(self).bank_1, old(self).bank_2),
            final(self).register == old(self).register,
            final(self).mapper_internal == old(self).mapper_internal,
    {
        let is_bank_size_32kb = self.is_bank_size_32kb();
        let bank = self.get_prg_bank();
        let is_last_prg_page_mode = (self.register / 512) % 2 == 1;
        let is_mode_1 = self.is_mode_1_enabled();
        if is_mode_1 {
            if is_bank_size_32kb {
                self.bank_1 = bank / 2;
            } else {
                self.bank_1 = bank;
                self.bank_2 = bank;
            }
        } else {
            if is_bank_size_32kb {
                self.bank_1 = bank - bank % 2;
            } else {
                self.bank_1 = bank;
            }
            if is_last_prg_page_mode {
                self.bank_2 = bank - bank % 8 + 7;
            } else {
                self.bank_2 = bank - bank % 8;
            }
        }
    }
}

impl Mapper for Mapper227 {
    open spec fn inv(&self) -> bool {
        self.mapper_internal.wf()
    }

    /// The selected bank lies within the PRG table.
    open spec fn prg_read_ok(&self, address: u16) -> bool {
        bank_index(address, self.prg_bank(address), register_prg_bank_size(self.register)) < PRG_ROM_DATA_SIZE
    }

    open spec fn prg_write_ok(&self, address: u16, byte: u8) -> bool {
        true
    }

    open spec fn chr_read_ok(&self, address: u16) -> bool {
        self.mapper_internal.chr_readable(address, 0, BankSize::_8KB)
    }

    /// CHR RAM is written only outside mode 1.
    open spec fn chr_write_ok(&self, address: u16) -> bool {
        !is_mode_1_enabled(self.register) ==> address < CHR_RAM_DATA_SIZE
    }

    open spec fn mirroring_value(&self) -> Mirroring {
        register_mirroring(self.register)
    }

    /// A write stores its address in the register and selects the banks.
    open spec fn prg_written(&self, new: Self, address: u16, byte: u8) -> bool {
        &&& new.register == address
        &&& (new.bank_1, new.bank_2) == updated_banks(address, self.bank_1, self.bank_2)
        &&& new.mapper_internal == self.mapper_internal
    }

    /// CHR RAM is written outside mode 1; in mode 1 the write is dropped.
    open spec fn chr_written(&self, new: Self, address: u16, byte: u8) -> bool {
        &&& if is_mode_1_enabled(self.register) {
            new.mapper_internal == self.mapper_internal
        } else {
            self.mapper_internal.chr_ram_stored(new.mapper_internal, address, byte)
        }
        &&& new.register == self.register
        &&& new.bank_1 == self.bank_1
        &&& new.bank_2 == self.bank_2
    }

    /// The register and the RAMs are cleared; the selected banks stay.
    open spec fn powered_on(&self, new: Self) -> bool {
        &&& self.mapper_internal.rams_cleared(new.mapper_internal)
        &&& new.register == 0
        &&& new.bank_1 == self.bank_1
        &&& new.bank_2 == self.bank_2
    }

    fn get_mapper_id(&self) -> (r: u8)
        ensures
            r == 227,
    {
        227
    }

    fn get_chr_byte(&mut self, address: u16) -> (r: u8)
        ensures
            r == old(self).mapper_internal.chr_byte(address, 0, BankSize::_8KB),
            *final(self) == *old(self),
    {
        self.mapper_internal.get_chr_byte(address, 0, BankSize::_8KB)
    }

    fn store_chr_byte(&mut self, address: u16, byte: u8) {
        if !self.is_mode_1_enabled() {
            self.mapper_internal.store_chr_byte(address, 0, BankSize::_8KB, byte)
        }
    }

    fn get_prg_byte(&mut self, address: u16) -> (r: u8)
        ensures
            r == old(self).prg_byte(address),
            *final(self) == *old(self),
    {
        let size = if self.is_bank_size_32kb() {
            BankSize::_32KB
        } else {
            BankSize::_16KB
        };
        let bank = if (self.is_bank_size_32kb() && self.is_mode_1_enabled()) || address < 0xC000 {
            self.bank_1
        } else {
            self.bank_2
        };
        self.mapper_internal.get_prg_rom_byte(address, bank, size)
    }

    /// A write stores its address in the register and selects the banks.
    fn store_prg_byte(&mut self, address: u16, byte: u8) {
        self.register = address;
        self.update_banks();
    }

    fn get_mirroring(&self) -> (r: Mirroring) {
        if (self.register / 2) % 2 == 1 {
            Mirroring::Horizontal
        } else {
            Mirroring::Vertical
        }
    }

    /// Clears the register and the RAMs; the selected banks stay.
    fn power_cycle(&mut self) {
        self.register = 0;
        self.mapper_internal.reset();
    }

    fn is_irq_pending(&mut self) -> (r: bool) {
        false
    }

    fn ppu_a12_rising_edge_triggered(&mut self) {
    }
}

} // verus!
