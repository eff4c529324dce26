//! MMC1: a serial shift register loads a control register and three bank
//! registers.
use super::mapper_internal::{bank_index, lemma_bank_index_bound, BankSize, MapperInternal, CHR_RAM_DATA_SIZE, CHR_ROM_DATA_SIZE, PRG_ROM_DATA_SIZE};
use super::Mapper;
use crate::common::Mirroring;
use vstd::prelude::*;

verus! {

/// The mirroring selected by the low two bits of the control register.
pub open spec fn control_mirroring(control: u8) -> Mirroring {
    match control % 4 {
        0 => Mirroring::SingleScreenLowerBank,
        1 => Mirroring::SingleScreenUpperBank,
        2 => Mirroring::Vertical,
        _ => Mirroring::Horizontal,
    }
}

/// The PRG bank mode, bits 2 and 3 of the control register.
pub open spec fn prg_bank_mode(control: u8) -> u8 {
    (control / 4) % 4
}

/// The CHR bank mode, bit 4 of the control register.
pub open spec fn chr_bank_mode(control: u8) -> u8 {
    (control / 16) % 2
}

pub fn get_mirroring_of(control: u8) -> (r: Mirroring)
    ensures
        r == control_mirroring(control),
{
    match control % 4 {
        0 => Mirroring::SingleScreenLowerBank,
        1 => Mirroring::SingleScreenUpperBank,
        2 => Mirroring::Vertical,
        _ => Mirroring::Horizontal,
    }
}

/// The PRG bank mode of a control register value.
pub fn get_prg_bank_mode(control: u8) -> (r: u8)
    ensures
        r == prg_bank_mode(control),
        r < 4,
{
    (control / 4) % 4
}

/// The CHR bank mode of a control register value.
pub fn get_chr_bank_mode(control: u8) -> (r: u8)
    ensures
        r == chr_bank_mode(control),
        r < 2,
{
    (control / 16) % 2
}

#[derive(Copy, Clone, Debug, PartialEq, Eq, Structural)]
pub struct ShiftRegister {
    pub value: u8,
    pub write_count: u8,
}

pub struct Mapper1 {
    pub mapper_internal: MapperInternal,
    pub shift_register: ShiftRegister,
    pub control: u8,
    pub chr_bank_0: u8,
    pub chr_bank_1: u8,
    pub prg_bank: u8,
}

/// The CHR bank of an address: one 8 KiB bank (register 0 halved) in mode
/// 0, two 4 KiB banks in mode 1.
pub open spec fn chr_bank_info(m: Mapper1, address: u16) -> (usize, BankSize) {
    if chr_bank_mode(m.control) == 0 {
        ((m.chr_bank_0 / 2) as usize, BankSize::_8KB)
    } else if address < 0x1000 {
        (m.chr_bank_0 as usize, BankSize::_4KB)
    } else {
        (m.chr_bank_1 as usize, BankSize::_4KB)
    }
}

/// The PRG bank of the CPU space: one 32 KiB bank (low three bits of the
/// register) in modes 0 and 1, a 16 KiB bank (low four bits) otherwise.
pub open spec fn prg_bank_info(m: Mapper1) -> (usize, BankSize) {
    if prg_bank_mode(m.control) < 2 {
        ((m.prg_bank % 8) as usize, BankSize::_32KB)
    } else {
        ((m.prg_bank % 16) as usize, BankSize::_16KB)
    }
}

/// Bit 0 of a written byte shifted into the five-bit shift register: the
/// register moves right and the bit enters at bit 4, so after five writes
/// the first bit written is bit 0.
pub open spec fn shifted_in(value: u8, byte: u8) -> u8 {
    (value / 2 + (byte % 2) * 16) as u8
}

impl Mapper1 {
    pub open spec fn prg_byte(&self, address: u16) -> u8 {
        self.mapper_internal.prg_rom@[bank_index(address, prg_bank_info(*self).0, prg_bank_info(*self).1)]
    }

    /// The registers after a write to the CPU space: bit 7 resets the shift
    /// register and sets PRG mode 3; otherwise bit 0 is shifted in, and the
    /// fifth write stores the five shifted-in bits in the register that the
    /// address selects ($8000 control, $A000 CHR 0, $C000 CHR 1, $E000 PRG).
    pub open spec fn registers_written(old: Mapper1, new: Mapper1, address: u16, byte: u8) -> bool {
        if byte >= 0x80 {
            new.shift_register == ShiftRegister { value: 0, write_count: 0 } && new.control == old.control | 0x0C
                && new.chr_bank_0 == old.chr_bank_0 && new.chr_bank_1 == old.chr_bank_1
                && new.prg_bank == old.prg_bank
        } else if old.shift_register.write_count + 1 == 5 {
            &&& new.shift_register == ShiftRegister { value: 0, write_count: 0 }
            &&& new.control == if address <= 0x9FFF {
                shifted_in(old.shift_register.value, byte)
            } else {
                old.control
            }
            &&& new.chr_bank_0 == if 0xA000 <= address <= 0xBFFF {
                shifted_in(old.shift_register.value, byte)
            } else {
                old.chr_bank_0
            }
            &&& new.chr_bank_1 == if 0xC000 <= address <= 0xDFFF {
                shifted_in(old.shift_register.value, byte)
            } else {
                old.chr_bank_1
            }
            &&& new.prg_bank == if 0xE000 <= address {
                shifted_in(old.shift_register.value, byte)
            } else {
                old.prg_bank
            }
        } else {
            new.shift_register == ShiftRegister {
                value: shifted_in(old.shift_register.value, byte),
                write_count: (old.shift_register.write_count + 1) as u8,
            } && new.control == old.control && new.chr_bank_0 == old.chr_bank_0 && new.chr_bank_1
                == old.chr_bank_1 && new.prg_bank == old.prg_bank
        }
    }

    pub fn new(prg_rom: Vec<u8>, chr_rom: Vec<u8>) -> (r: Mapper1)
        requires
            prg_rom@.len() <= PRG_ROM_DATA_SIZE,
            chr_rom@.len() <= CHR_ROM_DATA_SIZE,
        ensures
            r.inv(),
            r.shift_register == (ShiftRegister { value: 0, write_count: 0 }),
            r.control == 0,
            r.chr_bank_0 == 0,
            r.chr_bank_1 == 0,
            r.prg_bank == 0,
            r.mapper_internal.fresh(prg_rom@, chr_rom@),
    {
        let mapper_internal = MapperInternal::new(prg_rom, chr_rom);
        Mapper1 {
            mapper_internal,
            shift_register: ShiftRegister { value: 0, write_count: 0 },
            control: 0,
            chr_bank_0: 0,
            chr_bank_1: 0,
            prg_bank: 0,
        }
    }

    fn get_chr_bank_info_from_address(&self, address: u16) -> (r: (usize, BankSize))
        requires
            chr_bank_mode(self.control) == 1 ==> address < 0x2000,
        ensures
            r == chr_bank_info(*self, address),
    {
        if get_chr_bank_mode(self.control) == 0 {
            ((self.chr_bank_0 / 2) as usize, BankSize::_8KB)
        } else if address <= 0x0FFF {
            (self.chr_bank_0 as usize, BankSize::_4KB)
        } else {
            (self.chr_bank_1 as usize, BankSize::_4KB)
        }
    }
}

impl Mapper for Mapper1 {
    open spec fn inv(&self) -> bool {
        self.mapper_internal.wf() && self.shift_register.write_count < 5
    }

    open spec fn prg_read_ok(&self, address: u16) -> bool {
        true
    }

    /// The fifth write of a series must address a register ($8000 and up).
    open spec fn prg_write_ok(&self, address: u16, byte: u8) -> bool {
        (byte < 0x80 && self.shift_register.write_count + 1 == 5) ==> address >= 0x8000
    }

    open spec fn chr_read_ok(&self, address: u16) -> bool {
        &&& chr_bank_mode(self.control) == 1 ==> address < 0x2000
        &&& self.mapper_internal.chr_readable(address, chr_bank_info(*self, address).0, chr_bank_info(*self, address).1)
    }

    open spec fn chr_write_ok(&self, address: u16) -> bool {
        address < CHR_RAM_DATA_SIZE
    }

    open spec fn mirroring_value(&self) -> Mirroring {
        control_mirroring(self.control)
    }

    open spec fn prg_written(&self, new: Self, address: u16, byte: u8) -> bool {
        Mapper1::registers_written(*self, new, address, byte) && new.mapper_internal == self.mapper_internal
    }

    open spec fn chr_written(&self, new: Self, address: u16, byte: u8) -> bool {
        &&& self.mapper_internal.chr_ram_stored(new.mapper_internal, address, byte)
        &&& new.shift_register == self.shift_register
        &&& new.control == self.control
        &&& new.chr_bank_0 == self.chr_bank_0
        &&& new.chr_bank_1 == self.chr_bank_1
        &&& new.prg_bank == self.prg_bank
    }

    /// The RAMs, the CHR banks and the shift register are cleared; the
    /// control and PRG registers stay.
    open spec fn powered_on(&self, new: Self) -> bool {
        &&& self.mapper_internal.rams_cleared(new.mapper_internal)
        &&& new.chr_bank_0 == 0
        &&& new.chr_bank_1 == 0
        &&& new.shift_register == (ShiftRegister { value: 0, write_count: 0 })
        &&& new.control == self.control
        &&& new.prg_bank == self.prg_bank
    }

    fn get_mapper_id(&self) -> (r: u8)
        ensures
            r == 1,
    {
        1
    }

    fn get_chr_byte(&mut self, address: u16) -> (r: u8)
        ensures
            r == old(self).mapper_internal.chr_byte(address, chr_bank_info(*old(self), address).0, chr_bank_info(*old(self), address).1),
            *final(self) == *old(self),
    {
        let (bank, bank_size) = self.get_chr_bank_info_from_address(address);
        self.mapper_internal.get_chr_byte(address, bank, bank_size)
    }

    fn store_chr_byte(&mut self, address: u16, byte: u8) {
        let (bank, bank_size) = self.get_chr_bank_info_from_address(address);
        self.mapper_internal.store_chr_byte(address, bank, bank_size, byte)
    }

    fn get_prg_byte(&mut self, address: u16) -> (r: u8)
        ensures
            r == old(self).prg_byte(address),
            *final(self) == *old(self),
    {
        proof {
            lemma_bank_index_bound(address, (self.prg_bank % 8) as usize, BankSize::_32KB, 7);
            lemma_bank_index_bound(address, (self.prg_bank % 16) as usize, BankSize::_16KB, 15);
        }
        if get_prg_bank_mode(self.control) < 2 {
            self.mapper_internal.get_prg_rom_byte(address, (self.prg_bank % 8) as usize, BankSize::_32KB)
        } else {
            self.mapper_internal.get_prg_rom_byte(address, (self.prg_bank % 16) as usize, BankSize::_16KB)
        }
    }

    fn store_prg_byte(&mut self, address: u16, byte: u8) {
        if byte >= 0x80 {
            self.shift_register = ShiftRegister { value: 0, write_count: 0 };
            self.control = self.control | 0x0C;
        } else {
            let v = self.shift_register.value;
            self.shift_register.value = v / 2 + (byte % 2) * 16;
            self.shift_register.write_count = self.shift_register.write_count + 1;
            if self.shift_register.write_count == 5 {
                let value = self.shift_register.value;
                if address <= 0x9FFF {
                    self.control = value;
                } else if address <= 0xBFFF {
                    self.chr_bank_0 = value;
                } else if address <= 0xDFFF {
                    self.chr_bank_1 = value;
                } else {
                    self.prg_bank = value;
                }
                self.shift_register = ShiftRegister { value: 0, write_count: 0 };
            }
        }
    }

    fn get_mirroring(&self) -> (r: Mirroring) {
        get_mirroring_of(self.control)
    }

    /// Clears the RAMs, both CHR bank registers and the shift register; the
    /// control and PRG registers stay.
    fn power_cycle(&mut self) {
        self.mapper_internal.reset();
        self.chr_bank_0 = 0;
        self.chr_bank_1 = 0;
        self.shift_register.value = 0;
        self.shift_register.write_count = 0;
    }

    fn is_irq_pending(&mut self) -> (r: bool) {
        false
    }

    fn ppu_a12_rising_edge_triggered(&mut self) {
    }
}

/// The CHR byte at a pattern-table address: in 8 KiB mode from the 8 KiB
/// bank that CHR register 0 selects with its low bit ignored, so that two
/// values of the register that differ only there read alike; in 4 KiB mode
/// the lower table from the 4 KiB bank of register 0 and the upper table
/// from that of register 1.
pub proof fn law_chr_banks(m: Mapper1, address: u16, other_bank_0: u8)
    requires
        m.mapper_internal.chr_rom_size != 0,
        address < 0x2000,
        other_bank_0 / 2 == m.chr_bank_0 / 2,
    ensures
        chr_bank_mode(m.control) == 0 ==> m.mapper_internal.chr_byte(
            address,
            chr_bank_info(m, address).0,
            chr_bank_info(m, address).1,
        ) == m.mapper_internal.chr_rom@[0x2000 * (m.chr_bank_0 / 2) + address],
        chr_bank_mode(m.control) == 0 ==> chr_bank_info(Mapper1 { chr_bank_0: other_bank_0, ..m }, address) == chr_bank_info(m, address),
        chr_bank_mode(m.control) == 1 && address < 0x1000 ==> m.mapper_internal.chr_byte(
            address,
            chr_bank_info(m, address).0,
            chr_bank_info(m, address).1,
        ) == m.mapper_internal.chr_rom@[0x1000 * m.chr_bank_0 + address],
        chr_bank_mode(m.control) == 1 && address >= 0x1000 ==> m.mapper_internal.chr_byte(
            address,
            chr_bank_info(m, address).0,
            chr_bank_info(m, address).1,
        ) == m.mapper_internal.chr_rom@[0x1000 * m.chr_bank_1 + (address - 0x1000)],
{
    assert(address as int % 0x2000 == address as int);
    assert(address < 0x1000 ==> address as int % 0x1000 == address as int);
    assert(((m.chr_bank_0 / 2) as usize) as int == m.chr_bank_0 / 2);
    assert((m.chr_bank_0 as usize) as int == m.chr_bank_0 as int);
}

/// The PRG byte at a CPU address from $8000: in modes 0 and 1 from the
/// 32 KiB bank of the low three bits of the PRG register, otherwise from
/// the 16 KiB bank of its low four bits.
pub proof fn law_prg_banks(m: Mapper1, address: u16)
    requires
        address >= 0x8000,
    ensures
        prg_bank_mode(m.control) < 2 ==> m.prg_byte(address) == m.mapper_internal.prg_rom@[0x8000 * (m.prg_bank % 8) + (
        address - 0x8000)],
        prg_bank_mode(m.control) >= 2 ==> m.prg_byte(address) == m.mapper_internal.prg_rom@[0x4000 * (m.prg_bank % 16) + (
        address % 0x4000)],
{
    assert(address as int % 0x8000 == address - 0x8000);
    assert(((m.prg_bank % 8) as usize) as int == m.prg_bank % 8);
    assert(((m.prg_bank % 16) as usize) as int == m.prg_bank % 16);
}

/// Five writes with bit 7 clear, from an empty shift register, load the
/// register that the address selects with the five bits written, the first
/// write's bit 0 as bit 0 of the register; the shift register is emptied
/// and the other registers stay.
pub proof fn law_serial_load(
    m0: Mapper1,
    m1: Mapper1,
    m2: Mapper1,
    m3: Mapper1,
    m4: Mapper1,
    m5: Mapper1,
    address: u16,
    b0: u8,
    b1: u8,
    b2: u8,
    b3: u8,
    b4: u8,
)
    requires
        m0.shift_register == (ShiftRegister { value: 0, write_count: 0 }),
        b0 < 0x80 && b1 < 0x80 && b2 < 0x80 && b3 < 0x80 && b4 < 0x80,
        m0.prg_written(m1, address, b0),
        m1.prg_written(m2, address, b1),
        m2.prg_written(m3, address, b2),
        m3.prg_written(m4, address, b3),
        m4.prg_written(m5, address, b4),
    ensures
        ({
            let value = b0 % 2 + 2 * (b1 % 2) + 4 * (b2 % 2) + 8 * (b3 % 2) + 16 * (b4 % 2);
            &&& m5.shift_register == ShiftRegister { value: 0, write_count: 0 }
            &&& m5.control == (if address <= 0x9FFF { value } else { m0.control as int })
            &&& m5.chr_bank_0 == (if 0xA000 <= address <= 0xBFFF { value } else { m0.chr_bank_0 as int })
            &&& m5.chr_bank_1 == (if 0xC000 <= address <= 0xDFFF { value } else { m0.chr_bank_1 as int })
            &&& m5.prg_bank == (if 0xE000 <= address { value } else { m0.prg_bank as int })
            &&& m5.mapper_internal == m0.mapper_internal
        }),
{
    assert(m1.shift_register.value == 16 * (b0 % 2));
    assert(m2.shift_register.value == 8 * (b0 % 2) + 16 * (b1 % 2));
    assert(m3.shift_register.value == 4 * (b0 % 2) + 8 * (b1 % 2) + 16 * (b2 % 2));
    assert(m4.shift_register.value == 2 * (b0 % 2) + 4 * (b1 % 2) + 8 * (b2 % 2) + 16 * (b3 % 2));
    assert(m4.shift_register.write_count == 4);
}

} // verus!
