//! Cartridge mappers: how the CPU and PPU address spaces reach the
//! cartridge's memory.
pub mod mapper0;






pub mod mapper_internal;


use crate::common::Mirroring;
use vstd::prelude::*;

verus! {

/// A cartridge mapper. `inv` is the implementation's well-formedness; the
/// `*_ok` predicates say on which addresses (and bytes) an access stays
/// inside the cartridge's tables; the remaining spec functions say what each
/// operation makes of the mapper.
pub trait Mapper: Sized {
    spec fn inv(&self) -> bool;

    spec fn prg_read_ok(&self, address: u16) -> bool;

    spec fn prg_write_ok(&self, address: u16, byte: u8) -> bool;

    spec fn chr_read_ok(&self, address: u16) -> bool;

    spec fn chr_write_ok(&self, address: u16) -> bool;

    /// The name-table mirroring the mapper selects.
    spec fn mirroring_value(&self) -> Mirroring;

    /// `new` is this mapper after a CPU write of `byte` at `address`.
    spec fn prg_written(&self, new: Self, address: u16, byte: u8) -> bool;

    /// `new` is this mapper after a PPU write of `byte` at `address`.
    spec fn chr_written(&self, new: Self, address: u16, byte: u8) -> bool;

    /// `new` is this mapper after a power cycle.
    spec fn powered_on(&self, new: Self) -> bool;

    fn get_mapper_id(&self) -> u8;

    fn get_chr_byte(&mut self, address: u16) -> (r: u8)
        requires
            old(self).inv(),
            old(self).chr_read_ok(address),
        ensures
            final(self).inv(),
    ;

    fn store_chr_byte(&mut self, address: u16, byte: u8)
        requires
            old(self).inv(),
            old(self).chr_write_ok(address),
        ensures
            final(self).inv(),
            old(self).chr_written(*final(self), address, byte),
    ;

    fn get_prg_byte(&mut self, address: u16) -> (r: u8)
        requires
            old(self).inv(),
            old(self).prg_read_ok(address),
        ensures
            final(self).inv(),
    ;

    fn store_prg_byte(&mut self, address: u16, byte: u8)
        requires
            old(self).inv(),
            old(self).prg_write_ok(address, byte),
        ensures
            final(self).inv(),
            old(self).prg_written(*final(self), address, byte),
    ;

    fn get_mirroring(&self) -> (r: Mirroring)
        ensures
            r == self.mirroring_value(),
    ;

    fn power_cycle(&mut self)
        requires
            old(self).inv(),
        ensures
            final(self).inv(),
            old(self).powered_on(*final(self)),
    ;

    /// None of the supported mappers raises an interrupt.
    fn is_irq_pending(&mut self) -> (r: bool)
        ensures
            !r,
            *final(self) == *old(self),
    ;

    /// None of the supported mappers counts the PPU's A12 edges.
    fn ppu_a12_rising_edge_triggered(&mut self)
        ensures
            *final(self) == *old(self),
    ;
}

} // verus!
pub mod mapper1;
pub mod mapper2;
pub mod mapper7;
pub mod mapper66;
pub mod mapper227;
pub mod mmc3_6;
pub mod mapper4;

use self::mapper0::Mapper0;
use self::mapper1::{chr_bank_info, Mapper1};
use self::mapper2::Mapper2;
use self::mapper227::Mapper227;
use self::mapper4::Mapper4;
use self::mapper66::Mapper66;
use self::mapper7::Mapper7;
use self::mapper_internal::BankSize;

verus! {

/// The mappers that the emulator supports.
pub enum MapperEnum {
    Mapper0(Mapper0),
    Mapper1(Mapper1),
    Mapper2(Mapper2),
    Mapper4(Mapper4),
    Mapper7(Mapper7),
    Mapper66(Mapper66),
    Mapper227(Mapper227),
}

impl MapperEnum {
    /// The PRG byte that a read gives, by the mapper's own rule.
    pub open spec fn prg_byte(&self, address: u16) -> u8 {
        match self {
            MapperEnum::Mapper0(m) => m.prg_byte(address),
            MapperEnum::Mapper1(m) => m.prg_byte(address),
            MapperEnum::Mapper2(m) => m.prg_byte(address),
            MapperEnum::Mapper4(m) => m.mmc3.prg_byte(address),
            MapperEnum::Mapper7(m) => m.prg_byte(address),
            MapperEnum::Mapper66(m) => m.prg_byte(address),
            MapperEnum::Mapper227(m) => m.prg_byte(address),
        }
    }

    /// The CHR byte that a read gives, by the mapper's own rule.
    pub open spec fn chr_byte(&self, address: u16) -> u8 {
        match self {
            MapperEnum::Mapper0(m) => m.mapper_internal.chr_byte(address, 0, BankSize::_8KB),
            MapperEnum::Mapper1(m) => m.mapper_internal.chr_byte(address, chr_bank_info(*m, address).0, chr_bank_info(*m, address).1),
            MapperEnum::Mapper2(m) => m.mapper_internal.chr_byte(address, 0, BankSize::_8KB),
            MapperEnum::Mapper4(m) => m.mmc3.chr_byte(address),
            MapperEnum::Mapper7(m) => m.mapper_internal.chr_byte(address, 0, BankSize::_8KB),
            MapperEnum::Mapper66(m) => m.mapper_internal.chr_byte(address, m.chr_bank, BankSize::_8KB),
            MapperEnum::Mapper227(m) => m.mapper_internal.chr_byte(address, 0, BankSize::_8KB),
        }
    }

    /// The iNES mapper number.
    pub open spec fn mapper_id(&self) -> u8 {
        match self {
            MapperEnum::Mapper0(_) => 0,
            MapperEnum::Mapper1(_) => 1,
            MapperEnum::Mapper2(_) => 2,
            MapperEnum::Mapper4(_) => 4,
            MapperEnum::Mapper7(_) => 7,
            MapperEnum::Mapper66(_) => 66,
            MapperEnum::Mapper227(_) => 227,
        }
    }
}

impl Mapper for MapperEnum {
    open spec fn inv(&self) -> bool {
        match self {
            MapperEnum::Mapper0(m) => m.inv(),
            MapperEnum::Mapper1(m) => m.inv(),
            MapperEnum::Mapper2(m) => m.inv(),
            MapperEnum::Mapper4(m) => m.inv(),
            MapperEnum::Mapper7(m) => m.inv(),
            MapperEnum::Mapper66(m) => m.inv(),
            MapperEnum::Mapper227(m) => m.inv(),
        }
    }

    open spec fn prg_read_ok(&self, address: u16) -> bool {
        match self {
            MapperEnum::Mapper0(m) => m.prg_read_ok(address),
            MapperEnum::Mapper1(m) => m.prg_read_ok(address),
            MapperEnum::Mapper2(m) => m.prg_read_ok(address),
            MapperEnum::Mapper4(m) => m.prg_read_ok(address),
            MapperEnum::Mapper7(m) => m.prg_read_ok(address),
            MapperEnum::Mapper66(m) => m.prg_read_ok(address),
            MapperEnum::Mapper227(m) => m.prg_read_ok(address),
        }
    }

    open spec fn prg_write_ok(&self, address: u16, byte: u8) -> bool {
        match self {
            MapperEnum::Mapper0(m) => m.prg_write_ok(address, byte),
            MapperEnum::Mapper1(m) => m.prg_write_ok(address, byte),
            MapperEnum::Mapper2(m) => m.prg_write_ok(address, byte),
            MapperEnum::Mapper4(m) => m.prg_write_ok(address, byte),
            MapperEnum::Mapper7(m) => m.prg_write_ok(address, byte),
            MapperEnum::Mapper66(m) => m.prg_write_ok(address, byte),
            MapperEnum::Mapper227(m) => m.prg_write_ok(address, byte),
        }
    }

    open spec fn chr_read_ok(&self, address: u16) -> bool {
        match self {
            MapperEnum::Mapper0(m) => m.chr_read_ok(address),
            MapperEnum::Mapper1(m) => m.chr_read_ok(address),
            MapperEnum::Mapper2(m) => m.chr_read_ok(address),
            MapperEnum::Mapper4(m) => m.chr_read_ok(address),
            MapperEnum::Mapper7(m) => m.chr_read_ok(address),
            MapperEnum::Mapper66(m) => m.chr_read_ok(address),
            MapperEnum::Mapper227(m) => m.chr_read_ok(address),
        }
    }

    open spec fn chr_write_ok(&self, address: u16) -> bool {
        match self {
            MapperEnum::Mapper0(m) => m.chr_write_ok(address),
            MapperEnum::Mapper1(m) => m.chr_write_ok(address),
            MapperEnum::Mapper2(m) => m.chr_write_ok(address),
            MapperEnum::Mapper4(m) => m.chr_write_ok(address),
            MapperEnum::Mapper7(m) => m.chr_write_ok(address),
            MapperEnum::Mapper66(m) => m.chr_write_ok(address),
            MapperEnum::Mapper227(m) => m.chr_write_ok(address),
        }
    }

    open spec fn mirroring_value(&self) -> Mirroring {
        match self {
            MapperEnum::Mapper0(m) => m.mirroring_value(),
            MapperEnum::Mapper1(m) => m.mirroring_value(),
            MapperEnum::Mapper2(m) => m.mirroring_value(),
            MapperEnum::Mapper4(m) => m.mirroring_value(),
            MapperEnum::Mapper7(m) => m.mirroring_value(),
            MapperEnum::Mapper66(m) => m.mirroring_value(),
            MapperEnum::Mapper227(m) => m.mirroring_value(),
        }
    }

    /// The same mapper, changed as its own write changes it.
    open spec fn prg_written(&self, new: Self, address: u16, byte: u8) -> bool {
        match (*self, new) {
            (MapperEnum::Mapper0(a), MapperEnum::Mapper0(b)) => a.prg_written(b, address, byte),
            (MapperEnum::Mapper1(a), MapperEnum::Mapper1(b)) => a.prg_written(b, address, byte),
            (MapperEnum::Mapper2(a), MapperEnum::Mapper2(b)) => a.prg_written(b, address, byte),
            (MapperEnum::Mapper4(a), MapperEnum::Mapper4(b)) => a.prg_written(b, address, byte),
            (MapperEnum::Mapper7(a), MapperEnum::Mapper7(b)) => a.prg_written(b, address, byte),
            (MapperEnum::Mapper66(a), MapperEnum::Mapper66(b)) => a.prg_written(b, address, byte),
            (MapperEnum::Mapper227(a), MapperEnum::Mapper227(b)) => a.prg_written(b, address, byte),
            _ => false,
        }
    }

    open spec fn chr_written(&self, new: Self, address: u16, byte: u8) -> bool {
        match (*self, new) {
            (MapperEnum::Mapper0(a), MapperEnum::Mapper0(b)) => a.chr_written(b, address, byte),
            (MapperEnum::Mapper1(a), MapperEnum::Mapper1(b)) => a.chr_written(b, address, byte),
            (MapperEnum::Mapper2(a), MapperEnum::Mapper2(b)) => a.chr_written(b, address, byte),
            (MapperEnum::Mapper4(a), MapperEnum::Mapper4(b)) => a.chr_written(b, address, byte),
            (MapperEnum::Mapper7(a), MapperEnum::Mapper7(b)) => a.chr_written(b, address, byte),
            (MapperEnum::Mapper66(a), MapperEnum::Mapper66(b)) => a.chr_written(b, address, byte),
            (MapperEnum::Mapper227(a), MapperEnum::Mapper227(b)) => a.chr_written(b, address, byte),
            _ => false,
        }
    }

    open spec fn powered_on(&self, new: Self) -> bool {
        match (*self, new) {
            (MapperEnum::Mapper0(a), MapperEnum::Mapper0(b)) => a.powered_on(b),
            (MapperEnum::Mapper1(a), MapperEnum::Mapper1(b)) => a.powered_on(b),
            (MapperEnum::Mapper2(a), MapperEnum::Mapper2(b)) => a.powered_on(b),
            (MapperEnum::Mapper4(a), MapperEnum::Mapper4(b)) => a.powered_on(b),
            (MapperEnum::Mapper7(a), MapperEnum::Mapper7(b)) => a.powered_on(b),
            (MapperEnum::Mapper66(a), MapperEnum::Mapper66(b)) => a.powered_on(b),
            (MapperEnum::Mapper227(a), MapperEnum::Mapper227(b)) => a.powered_on(b),
            _ => false,
        }
    }

    fn get_mapper_id(&self) -> (r: u8)
        ensures
            r == self.mapper_id(),
    {
        match self {
            MapperEnum::Mapper0(mapper) => mapper.get_mapper_id(),
            MapperEnum::Mapper1(mapper) => mapper.get_mapper_id(),
            MapperEnum::Mapper2(mapper) => mapper.get_mapper_id(),
            MapperEnum::Mapper4(mapper) => mapper.get_mapper_id(),
            MapperEnum::Mapper7(mapper) => mapper.get_mapper_id(),
            MapperEnum::Mapper66(mapper) => mapper.get_mapper_id(),
            MapperEnum::Mapper227(mapper) => mapper.get_mapper_id(),
        }
    }

    fn get_chr_byte(&mut self, address: u16) -> (r: u8)
        ensures
            r == old(self).chr_byte(address),
    {
        match self {
            MapperEnum::Mapper0(mapper) => mapper.get_chr_byte(address),
            MapperEnum::Mapper1(mapper) => mapper.get_chr_byte(address),
            MapperEnum::Mapper2(mapper) => mapper.get_chr_byte(address),
            MapperEnum::Mapper4(mapper) => mapper.get_chr_byte(address),
            MapperEnum::Mapper7(mapper) => mapper.get_chr_byte(address),
            MapperEnum::Mapper66(mapper) => mapper.get_chr_byte(address),
            MapperEnum::Mapper227(mapper) => mapper.get_chr_byte(address),
        }
    }

    fn store_chr_byte(&mut self, address: u16, byte: u8) {
        match self {
            MapperEnum::Mapper0(mapper) => mapper.store_chr_byte(address, byte),
            MapperEnum::Mapper1(mapper) => mapper.store_chr_byte(address, byte),
            MapperEnum::Mapper2(mapper) => mapper.store_chr_byte(address, byte),
            MapperEnum::Mapper4(mapper) => mapper.store_chr_byte(address, byte),
            MapperEnum::Mapper7(mapper) => mapper.store_chr_byte(address, byte),
            MapperEnum::Mapper66(mapper) => mapper.store_chr_byte(address, byte),
            MapperEnum::Mapper227(mapper) => mapper.store_chr_byte(address, byte),
        }
    }

    fn get_prg_byte(&mut self, address: u16) -> (r: u8)
        ensures
            r == old(self).prg_byte(address),
    {
        match self {
            MapperEnum::Mapper0(mapper) => mapper.get_prg_byte(address),
            MapperEnum::Mapper1(mapper) => mapper.get_prg_byte(address),
            MapperEnum::Mapper2(mapper) => mapper.get_prg_byte(address),
            MapperEnum::Mapper4(mapper) => mapper.get_prg_byte(address),
            MapperEnum::Mapper7(mapper) => mapper.get_prg_byte(address),
            MapperEnum::Mapper66(mapper) => mapper.get_prg_byte(address),
            MapperEnum::Mapper227(mapper) => mapper.get_prg_byte(address),
        }
    }

    fn store_prg_byte(&mut self, address: u16, byte: u8) {
        match self {
            MapperEnum::Mapper0(mapper) => mapper.store_prg_byte(address, byte),
            MapperEnum::Mapper1(mapper) => mapper.store_prg_byte(address, byte),
            MapperEnum::Mapper2(mapper) => mapper.store_prg_byte(address, byte),
            MapperEnum::Mapper4(mapper) => mapper.store_prg_byte(address, byte),
            MapperEnum::Mapper7(mapper) => mapper.store_prg_byte(address, byte),
            MapperEnum::Mapper66(mapper) => mapper.store_prg_byte(address, byte),
            MapperEnum::Mapper227(mapper) => mapper.store_prg_byte(address, byte),
        }
    }

    fn get_mirroring(&self) -> Mirroring {
        match self {
            MapperEnum::Mapper0(mapper) => mapper.get_mirroring(),
            MapperEnum::Mapper1(mapper) => mapper.get_mirroring(),
            MapperEnum::Mapper2(mapper) => mapper.get_mirroring(),
            MapperEnum::Mapper4(mapper) => mapper.get_mirroring(),
            MapperEnum::Mapper7(mapper) => mapper.get_mirroring(),
            MapperEnum::Mapper66(mapper) => mapper.get_mirroring(),
            MapperEnum::Mapper227(mapper) => mapper.get_mirroring(),
        }
    }

    fn power_cycle(&mut self) {
        match self {
            MapperEnum::Mapper0(mapper) => mapper.power_cycle(),
            MapperEnum::Mapper1(mapper) => mapper.power_cycle(),
            MapperEnum::Mapper2(mapper) => mapper.power_cycle(),
            MapperEnum::Mapper4(mapper) => mapper.power_cycle(),
            MapperEnum::Mapper7(mapper) => mapper.power_cycle(),
            MapperEnum::Mapper66(mapper) => mapper.power_cycle(),
            MapperEnum::Mapper227(mapper) => mapper.power_cycle(),
        }
    }

    fn is_irq_pending(&mut self) -> (r: bool) {
        match self {
            MapperEnum::Mapper0(mapper) => mapper.is_irq_pending(),
            MapperEnum::Mapper1(mapper) => mapper.is_irq_pending(),
            MapperEnum::Mapper2(mapper) => mapper.is_irq_pending(),
            MapperEnum::Mapper4(mapper) => mapper.is_irq_pending(),
            MapperEnum::Mapper7(mapper) => mapper.is_irq_pending(),
            MapperEnum::Mapper66(mapper) => mapper.is_irq_pending(),
            MapperEnum::Mapper227(mapper) => mapper.is_irq_pending(),
        }
    }

    fn ppu_a12_rising_edge_triggered(&mut self) {
        match self {
            MapperEnum::Mapper0(mapper) => mapper.ppu_a12_rising_edge_triggered(),
            MapperEnum::Mapper1(mapper) => mapper.ppu_a12_rising_edge_triggered(),
            MapperEnum::Mapper2(mapper) => mapper.ppu_a12_rising_edge_triggered(),
            MapperEnum::Mapper4(mapper) => mapper.ppu_a12_rising_edge_triggered(),
            MapperEnum::Mapper7(mapper) => mapper.ppu_a12_rising_edge_triggered(),
            MapperEnum::Mapper66(mapper) => mapper.ppu_a12_rising_edge_triggered(),
            MapperEnum::Mapper227(mapper) => mapper.ppu_a12_rising_edge_triggered(),
        }
    }
}

} // verus!
