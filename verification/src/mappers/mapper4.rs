//! Mapper 4: the MMC3 (HKROM flavour).
use super::mmc3_6::{MMC3_6Variant, MMC3_6};
use super::mapper_internal::{CHR_ROM_DATA_SIZE, PRG_ROM_DATA_SIZE};
use super::Mapper;
use crate::common::Mirroring;
use vstd::prelude::*;

verus! {

pub struct Mapper4 {
    pub mmc3: MMC3_6,
}

impl Mapper4 {
    pub fn new(prg_rom: Vec<u8>, chr_rom: Vec<u8>) -> (r: Mapper4)
        requires
            prg_rom@.len() <= PRG_ROM_DATA_SIZE,
            chr_rom@.len() <= CHR_ROM_DATA_SIZE,
            prg_rom@.len() >= 0x2000,
        ensures
            r.inv(),
            r.mmc3.initial(prg_rom@, chr_rom@, MMC3_6Variant::MMC3HkROM),
    {
        Mapper4 { mmc3: MMC3_6::new(prg_rom, chr_rom, MMC3_6Variant::MMC3HkROM) }
    }
}

impl Mapper for Mapper4 {
    open spec fn inv(&self) -> bool {
        self.mmc3.inv()
    }

    open spec fn prg_read_ok(&self, address: u16) -> bool {
        self.mmc3.prg_read_ok(address)
    }

    open spec fn prg_write_ok(&self, address: u16, byte: u8) -> bool {
        self.mmc3.prg_write_ok(address, byte)
    }

    open spec fn chr_read_ok(&self, address: u16) -> bool {
        self.mmc3.chr_read_ok(address)
    }

    open spec fn chr_write_ok(&self, address: u16) -> bool {
        self.mmc3.chr_write_ok(address)
    }

    open spec fn mirroring_value(&self) -> Mirroring {
        self.mmc3.mirroring_value()
    }

    open spec fn prg_written(&self, new: Self, address: u16, byte: u8) -> bool {
        self.mmc3.prg_written(new.mmc3, address, byte)
    }

    open spec fn chr_written(&self, new: Self, address: u16, byte: u8) -> bool {
        self.mmc3.chr_written(new.mmc3, address, byte)
    }

    open spec fn powered_on(&self, new: Self) -> bool {
        self.mmc3.powered_on(new.mmc3)
    }

    fn get_mapper_id(&self) -> (r: u8)
        ensures
            r == 4,
    {
        4
    }

    fn get_chr_byte(&mut self, address: u16) -> (r: u8)
        ensures
            r == old(self).mmc3.chr_byte(address),
            final(self).mmc3 == old(self).mmc3,
    {
        self.mmc3.get_chr_byte(address)
    }

    fn get_mirroring(&self) -> (r: Mirroring) {
        self.mmc3.get_mirroring()
    }

    fn get_prg_byte(&mut self, address: u16) -> (r: u8)
        ensures
            r == old(self).mmc3.prg_byte(address),
            final(self).mmc3 == old(self).mmc3,
    {
        self.mmc3.get_prg_byte(address)
    }

    fn power_cycle(&mut self) {
        self.mmc3.power_cycle();
    }

    fn store_chr_byte(&mut self, address: u16, byte: u8) {
        self.mmc3.store_chr_byte(address, byte)
    }

    fn store_prg_byte(&mut self, address: u16, byte: u8) {
        self.mmc3.store_prg_byte(address, byte)
    }

    fn ppu_a12_rising_edge_triggered(&mut self) {
        self.mmc3.ppu_a12_rising_edge_triggered()
    }

    fn is_irq_pending(&mut self) -> (r: bool) {
        self.mmc3.is_irq_pending()
    }
}

} // verus!
