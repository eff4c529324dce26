use nes_rs::common::Mirroring;
use nes_rs::mappers::mapper0::Mapper0;
use nes_rs::mappers::mapper1::Mapper1;
use nes_rs::mappers::mapper2::Mapper2;
use nes_rs::mappers::mapper4::Mapper4;
use nes_rs::mappers::mapper66::Mapper66;
use nes_rs::mappers::mapper7::Mapper7;
use nes_rs::mappers::mapper_internal::{BankSize, MapperInternal};
use nes_rs::mappers::{Mapper, MapperEnum};

/// A ROM of `banks` banks of `size` bytes, each filled with its own number.
fn banked_rom(banks: usize, size: usize) -> Vec<u8> {
    let mut rom = Vec::new();
    for b in 0..banks {
        rom.extend(std::iter::repeat(b as u8 + 1).take(size));
    }
    rom
}

#[test]
fn nrom_16k_is_mirrored() {
    let mut m = Mapper0::new(banked_rom(1, 0x4000), banked_rom(1, 0x2000), Mirroring::Vertical);
    assert_eq!(m.get_prg_byte(0x8000), 1);
    assert_eq!(m.get_prg_byte(0xC000), 1);
    assert_eq!(m.get_prg_byte(0xFFFF), 1);
    assert_eq!(m.get_mirroring(), Mirroring::Vertical);
    assert_eq!(m.get_mapper_id(), 0);
}

#[test]
fn nrom_32k_has_two_halves() {
    let mut m = Mapper0::new(banked_rom(2, 0x4000), vec![], Mirroring::Horizontal);
    assert_eq!(m.get_prg_byte(0x8000), 1);
    assert_eq!(m.get_prg_byte(0xBFFF), 1);
    assert_eq!(m.get_prg_byte(0xC000), 2);
}

#[test]
fn chr_ram_read_after_write() {
    let mut m = Mapper0::new(banked_rom(1, 0x4000), vec![], Mirroring::Vertical);
    assert_eq!(m.get_chr_byte(0x0123), 0);
    m.store_chr_byte(0x0123, 0x77);
    assert_eq!(m.get_chr_byte(0x0123), 0x77);
    assert_eq!(m.get_chr_byte(0x0124), 0);
}

#[test]
fn chr_rom_is_read() {
    let mut m = Mapper0::new(banked_rom(1, 0x4000), banked_rom(1, 0x2000), Mirroring::Vertical);
    assert_eq!(m.get_chr_byte(0x1FFF), 1);
}

#[test]
fn uxrom_switches_the_low_bank() {
    let mut m = Mapper2::new(banked_rom(4, 0x4000), vec![], Mirroring::Vertical);
    assert_eq!(m.get_prg_byte(0x8000), 1);
    assert_eq!(m.get_prg_byte(0xC000), 4, "last bank fixed at $C000");
    m.store_prg_byte(0x8000, 2);
    assert_eq!(m.get_prg_byte(0x8000), 3);
    assert_eq!(m.get_prg_byte(0xC000), 4);
    assert_eq!(m.get_mapper_id(), 2);
}

#[test]
fn axrom_switches_32k_and_single_screen() {
    let mut m = Mapper7::new(banked_rom(2, 0x8000), vec![]);
    assert_eq!(m.get_prg_byte(0x8000), 1);
    assert_eq!(m.get_mirroring(), Mirroring::SingleScreenLowerBank);
    m.store_prg_byte(0x8000, 0x11);
    assert_eq!(m.get_prg_byte(0xC000), 2);
    assert_eq!(m.get_mirroring(), Mirroring::SingleScreenUpperBank);
    assert_eq!(m.get_mapper_id(), 7);
}

#[test]
fn gxrom_selects_prg_and_chr() {
    let mut m = Mapper66::new(banked_rom(4, 0x4000), banked_rom(4, 0x2000), Mirroring::Horizontal);
    m.store_prg_byte(0x8000, 0x12);
    assert_eq!(m.get_prg_byte(0x8000), 2);
    assert_eq!(m.get_chr_byte(0x0000), 3);
    assert_eq!(m.get_mapper_id(), 66);
}

#[test]
fn mmc1_five_writes_load_a_register() {
    let mut m = Mapper1::new(banked_rom(8, 0x4000), vec![]);
    // bits go in from bit 0 up: 1, 1, 0, 0, 0 loads 3
    for byte in [1u8, 1, 0, 0, 0] {
        m.store_prg_byte(0xE000, byte);
    }
    assert_eq!(m.prg_bank, 3);
    assert_eq!(m.shift_register.write_count, 0);
    m.store_prg_byte(0x8000, 1);
    assert_eq!(m.shift_register.write_count, 1);
    m.store_prg_byte(0x8000, 0x80);
    assert_eq!(m.shift_register.write_count, 0, "bit 7 resets the shift register");
    assert_eq!(m.control & 0x0C, 0x0C);
    assert_eq!(m.get_mapper_id(), 1);
}

#[test]
fn mmc3_work_ram_read_after_write() {
    let mut m = Mapper4::new(banked_rom(4, 0x2000), banked_rom(8, 0x400));
    m.store_prg_byte(0x6000, 0xAB);
    m.store_prg_byte(0x7FFF, 0xCD);
    assert_eq!(m.get_prg_byte(0x6000), 0xAB);
    assert_eq!(m.get_prg_byte(0x7FFF), 0xCD);
    assert_eq!(m.get_prg_byte(0x6001), 0);
    assert_eq!(m.get_prg_byte(0xE000), 4, "last bank at $E000");
    assert_eq!(m.get_mapper_id(), 4);
}

#[test]
fn mapper_enum_dispatches() {
    let mut m = MapperEnum::Mapper2(Mapper2::new(banked_rom(2, 0x4000), vec![], Mirroring::Vertical));
    assert_eq!(m.get_mapper_id(), 2);
    assert_eq!(m.get_prg_byte(0xC000), 2);
    assert!(!m.is_irq_pending());
}

#[test]
fn mapper_internal_banks_and_ram() {
    let mut mi = MapperInternal::new(banked_rom(4, 0x4000), vec![]);
    assert_eq!(mi.get_prg_rom_bank_count(BankSize::_16KB), 4);
    assert_eq!(mi.get_prg_rom_bank_count(BankSize::_32KB), 2);
    assert_eq!(mi.get_prg_rom_byte(0x8000, 3, BankSize::_16KB), 4);
    mi.store_prg_ram_byte(0x6005, 1, BankSize::_8KB, 9);
    assert_eq!(mi.get_prg_ram_byte(0x6005, 1, BankSize::_8KB), 9);
    assert_eq!(mi.get_prg_ram_byte(0x6005, 0, BankSize::_8KB), 0);
    mi.reset();
    assert_eq!(mi.get_prg_ram_byte(0x6005, 1, BankSize::_8KB), 0);
    assert_eq!(mi.get_prg_rom_byte(0x8000, 3, BankSize::_16KB), 4, "reset keeps the ROM");
}

#[test]
fn mmc1_serial_load_of_control_sets_mirroring() {
    let mut m = Mapper1::new(banked_rom(2, 0x4000), vec![]);
    for byte in [0x00u8, 0x01, 0x00, 0x00, 0x00] {
        m.store_prg_byte(0x8000, byte);
    }
    assert_eq!(m.control, 0b00010);
    assert_eq!(m.get_mirroring(), Mirroring::Vertical);
    for byte in [0xFEu8, 0xFF, 0x00, 0x00, 0x00] {
        m.store_prg_byte(0x8000, byte & 0x7F);
    }
    assert_eq!(m.control, 0b00010, "only bit 0 of each write counts");
}
