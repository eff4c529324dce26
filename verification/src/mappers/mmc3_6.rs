//! MMC3 and MMC6: eight bank registers selected through a bank-select
//! register, 8 KiB PRG banks and 1 or 2 KiB CHR banks.
use super::mapper_internal::{bank_index, bank_size_bytes, BankSelect, BankSize, MapperInternal, CHR_ROM_DATA_SIZE, PRG_RAM_DATA_SIZE, PRG_ROM_DATA_SIZE};
use super::Mapper;
use crate::common::Mirroring;
use vstd::prelude::*;

verus! {

#[derive(Copy, Clone, Debug, PartialEq, Eq, Structural)]
pub enum MMC3_6Variant {
    MMC3HkROM,
    MMC3TkTlSROM,
    MMC3TqSROM,
    MMC6,
}

pub struct MMC3_6 {
    pub mapper_internal: MapperInternal,
    pub variant: MMC3_6Variant,
    pub prg_rom_banks: Vec<BankSelect>,
    pub chr_rom_banks: Vec<BankSelect>,
    pub prg_rom_banks_count: usize,
    pub bank_select: u8,
    pub is_bank_select_initialized: bool,
    pub bank_data: u8,
    pub mirroring: u8,
    pub prg_ram_protect: u8,
    pub reload_irq_counter_at_zero: u8,
    pub reload_irq_counter_at_next_edge: Option<u8>,
    pub irq_enabled: bool,
}

/// The bank register number in the low three bits of the bank select.
pub open spec fn selected_bank(bank_select: u8) -> usize {
    (bank_select % 8) as usize
}

/// Bit 6 of the bank select: which of $8000 and $C000 is switchable.
pub open spec fn prg_rom_mode(bank_select: u8) -> usize {
    ((bank_select / 64) % 2) as usize
}

/// Bit 7 of the bank select: whether the CHR halves are swapped.
pub open spec fn chr_inversion_mode(bank_select: u8) -> usize {
    (bank_select / 128) as usize
}

pub fn get_selected_bank(bank_select: u8) -> (r: usize)
    ensures
        r == selected_bank(bank_select),
        r < 8,
{
    (bank_select % 8) as usize
}

pub fn get_prg_rom_mode(bank_select: u8) -> (r: usize)
    ensures
        r == prg_rom_mode(bank_select),
        r < 2,
{
    ((bank_select / 64) % 2) as usize
}

pub fn get_chr_inversion_mode(bank_select: u8) -> (r: usize)
    ensures
        r == chr_inversion_mode(bank_select),
        r < 2,
{
    (bank_select / 128) as usize
}

/// The CHR slots that bank registers 0 to 5 fill, without and with inversion:
/// registers 0 and 1 fill two 1 KiB slots each with a 2 KiB bank, registers
/// 2 to 5 one slot each with a 1 KiB bank.
pub open spec fn chr_map(selected: usize, mode: usize) -> (int, int) {
    if mode == 0 {
        match selected {
            0 => (0int, 1int),
            1 => (2, 3),
            2 => (4, 4),
            3 => (5, 5),
            4 => (6, 6),
            _ => (7, 7),
        }
    } else {
        match selected {
            0 => (4int, 5int),
            1 => (6, 7),
            2 => (0, 0),
            3 => (1, 1),
            4 => (2, 2),
            _ => (3, 3),
        }
    }
}

/// The CHR slots after bank register `selected` (0 to 5) takes `bank_data`.
pub open spec fn chr_banks_updated(chr: Seq<BankSelect>, selected: usize, bank_select: u8, bank_data: u8) -> Seq<BankSelect> {
    let (i1, i2) = chr_map(selected, chr_inversion_mode(bank_select));
    if i1 != i2 {
        let b = BankSelect { size: BankSize::_2KB, bank: (bank_data / 2) as usize };
        chr.update(i1, b).update(i2, b)
    } else {
        chr.update(i1, BankSelect { size: BankSize::_1KB, bank: bank_data as usize })
    }
}

/// The PRG slots after bank register `selected` (6 or 7) takes `bank_data`:
/// register 6 switches $8000 (or $C000 in mode 1), the other of the two
/// holding the second-to-last bank; register 7 switches $A000.
pub open spec fn prg_banks_updated(prg: Seq<BankSelect>, count: usize, selected: usize, bank_select: u8, bank_data: u8) -> Seq<BankSelect> {
    let bank = (bank_data % 64) as usize;
    if selected == 6 {
        if prg_rom_mode(bank_select) == 0 {
            prg.update(0, BankSelect { bank, ..prg[0] }).update(2, BankSelect { bank: (count - 2) as usize, ..prg[2] })
        } else {
            prg.update(0, BankSelect { bank: (count - 2) as usize, ..prg[0] }).update(2, BankSelect { bank, ..prg[2] })
        }
    } else {
        prg.update(1, BankSelect { bank: bank_data as usize, ..prg[1] })
    }
}

/// The CHR and PRG slots after bank registers 0 to `n - 1` have each taken
/// `bank_data` in turn.
pub open spec fn banks_loaded(
    chr: Seq<BankSelect>,
    prg: Seq<BankSelect>,
    count: usize,
    bank_select: u8,
    bank_data: u8,
    n: nat,
) -> (Seq<BankSelect>, Seq<BankSelect>)
    decreases n,
{
    if n == 0 {
        (chr, prg)
    } else {
        let (c, p) = banks_loaded(chr, prg, count, bank_select, bank_data, (n - 1) as nat);
        let selected = (n - 1) as usize;
        if selected < 6 {
            (chr_banks_updated(c, selected, bank_select, bank_data), p)
        } else {
            (c, prg_banks_updated(p, count, selected, bank_select, bank_data))
        }
    }
}

/// The PRG address range mapped to the cartridge's RAM.
pub open spec fn in_prg_ram_range(address: u16) -> bool {
    0x6000 <= address < 0x8000
}

impl MMC3_6 {
    /// A CHR slot is 1 KiB; a PRG slot is 8 KiB from $8000.
    pub open spec fn chr_slot(address: u16) -> int {
        address as int / 1024
    }

    pub open spec fn prg_slot(address: u16) -> int {
        (address - 0x8000) / 8192
    }

    pub open spec fn chr_byte(&self, address: u16) -> u8 {
        let bs = self.chr_rom_banks@[MMC3_6::chr_slot(address)];
        self.mapper_internal.chr_byte(address, bs.bank, bs.size)
    }

    pub open spec fn prg_byte(&self, address: u16) -> u8 {
        if in_prg_ram_range(address) {
            self.mapper_internal.prg_ram@[bank_index(address, 0, BankSize::_8KB)]
        } else {
            let bs = self.prg_rom_banks@[MMC3_6::prg_slot(address)];
            self.mapper_internal.prg_rom@[bank_index(address, bs.bank, bs.size)]
        }
    }

    /// Both slot tables are the same.
    pub open spec fn same_banks(&self, other: MMC3_6) -> bool {
        self.chr_rom_banks@ == other.chr_rom_banks@ && self.prg_rom_banks@ == other.prg_rom_banks@
    }

    /// The bank select and bank data registers are the same.
    pub open spec fn same_bank_registers(&self, other: MMC3_6) -> bool {
        &&& self.bank_select == other.bank_select
        &&& self.bank_data == other.bank_data
        &&& self.is_bank_select_initialized == other.is_bank_select_initialized
    }

    /// The mirroring and RAM protect registers are the same.
    pub open spec fn same_mirroring_registers(&self, other: MMC3_6) -> bool {
        self.mirroring == other.mirroring && self.prg_ram_protect == other.prg_ram_protect
    }

    /// The IRQ registers are the same.
    pub open spec fn same_irq_registers(&self, other: MMC3_6) -> bool {
        &&& self.reload_irq_counter_at_zero == other.reload_irq_counter_at_zero
        &&& self.reload_irq_counter_at_next_edge == other.reload_irq_counter_at_next_edge
        &&& self.irq_enabled == other.irq_enabled
    }

    pub open spec fn wf(&self) -> bool {
        &&& self.mapper_internal.wf()
        &&& self.prg_rom_banks@.len() == 4
        &&& self.chr_rom_banks@.len() == 8
        &&& self.prg_rom_banks_count >= 1
    }

    /// The mapper as built from these ROMs: every bank slot on the last PRG
    /// bank or CHR bank 0, every register zero, the memory fresh.
    pub open spec fn initial(&self, prg_rom: Seq<u8>, chr_rom: Seq<u8>, variant: MMC3_6Variant) -> bool {
        &&& self.variant == variant
        &&& self.prg_rom_banks_count == prg_rom.len() / 0x2000
        &&& self.prg_rom_banks@ == Seq::new(
            4,
            |i: int| BankSelect { size: BankSize::_8KB, bank: (self.prg_rom_banks_count - 1) as usize },
        )
        &&& self.chr_rom_banks@ == Seq::new(8, |i: int| BankSelect { size: BankSize::_1KB, bank: 0 })
        &&& self.bank_select == 0
        &&& !self.is_bank_select_initialized
        &&& self.bank_data == 0
        &&& self.mirroring == 0
        &&& self.prg_ram_protect == 0
        &&& self.reload_irq_counter_at_zero == 0
        &&& self.reload_irq_counter_at_next_edge is None
        &&& !self.irq_enabled
        &&& self.mapper_internal.fresh(prg_rom, chr_rom)
    }

    pub fn new(prg_rom: Vec<u8>, chr_rom: Vec<u8>, variant: MMC3_6Variant) -> (r: MMC3_6)
        requires
            prg_rom@.len() <= PRG_ROM_DATA_SIZE,
            chr_rom@.len() <= CHR_ROM_DATA_SIZE,
            prg_rom@.len() >= 0x2000,
        ensures
            r.wf(),
            r.initial(prg_rom@, chr_rom@, variant),
    {
        let mapper_internal = MapperInternal::new(prg_rom, chr_rom);
        let prg_rom_banks_count = mapper_internal.get_prg_rom_bank_count(BankSize::_8KB);
        assert(prg_rom_banks_count >= 1) by {
            assert(mapper_internal.prg_rom_size >= 0x2000);
            assert(bank_size_bytes(BankSize::_8KB) == 0x2000);
        }
        let last = BankSelect { size: BankSize::_8KB, bank: prg_rom_banks_count - 1 };
        let prg_rom_banks = vec![last, last, last, last];
        let chr_rom_banks = vec![
            BankSelect::new(),
            BankSelect::new(),
            BankSelect::new(),
            BankSelect::new(),
            BankSelect::new(),
            BankSelect::new(),
            BankSelect::new(),
            BankSelect::new(),
        ];
        let r = MMC3_6 {
            mapper_internal,
            variant,
            prg_rom_banks,
            chr_rom_banks,
            prg_rom_banks_count,
            bank_select: 0,
            is_bank_select_initialized: false,
            bank_data: 0,
            mirroring: 0,
            prg_ram_protect: 0,
            reload_irq_counter_at_zero: 0,
            reload_irq_counter_at_next_edge: None,
            irq_enabled: false,
        };
        assert(r.prg_rom_banks@ =~= Seq::new(4, |i: int| BankSelect { size: BankSize::_8KB, bank: (r.prg_rom_banks_count - 1) as usize }));
        assert(r.chr_rom_banks@ =~= Seq::new(8, |i: int| BankSelect { size: BankSize::_1KB, bank: 0 }));
        r
    }

    /// Loads bank register `selected` from the bank data register.
    fn update_selected_bank(&mut self, selected_bank: usize)
        requires
            old(self).wf(),
            selected_bank < 8,
            selected_bank == 6 ==> old(self).prg_rom_banks_count >= 2,
        ensures
            final(self).wf(),
            final(self).chr_rom_banks@ == if selected_bank < 6 {
                chr_banks_updated(old(self).chr_rom_banks@, selected_bank, old(self).bank_select, old(self).bank_data)
            } else {
                old(self).chr_rom_banks@
            },
            final(self).prg_rom_banks@ == if selected_bank < 6 {
                old(self).prg_rom_banks@
            } else {
                prg_banks_updated(old(self).prg_rom_banks@, old(self).prg_rom_banks_count, selected_bank, old(self).bank_select, old(self).bank_data)
            },
            final(self).mapper_internal == old(self).mapper_internal,
            final(self).bank_select == old(self).bank_select,
            final(self).bank_data == old(self).bank_data,
            final(self).is_bank_select_initialized == old(self).is_bank_select_initialized,
            final(self).prg_rom_banks_count == old(self).prg_rom_banks_count,
            final(self).mirroring == old(self).mirroring,
            final(self).prg_ram_protect == old(self).prg_ram_protect,
            final(self).reload_irq_counter_at_zero == old(self).reload_irq_counter_at_zero,
            final(self).reload_irq_counter_at_next_edge == old(self).reload_irq_counter_at_next_edge,
            final(self).irq_enabled == old(self).irq_enabled,
            final(self).variant == old(self).variant,
    {
        if selected_bank < 6 {
            let mode = get_chr_inversion_mode(self.bank_select);
            let _1kb_bank = self.bank_data as usize;
            let _2kb_bank = (self.bank_data / 2) as usize;
            let (bank_index_1, bank_index_2): (usize, usize) = if mode == 0 {
                match selected_bank {
                    0 => (0, 1),
                    1 => (2, 3),
                    2 => (4, 4),
                    3 => (5, 5),
                    4 => (6, 6),
                    _ => (7, 7),
                }
            } else {
                match selected_bank {
                    0 => (4, 5),
                    1 => (6, 7),
                    2 => (0, 0),
                    3 => (1, 1),
                    4 => (2, 2),
                    _ => (3, 3),
                }
            };
            if bank_index_1 != bank_index_2 {
                let b = BankSelect { size: BankSize::_2KB, bank: _2kb_bank };
                self.chr_rom_banks.set(bank_index_1, b);
                self.chr_rom_banks.set(bank_index_2, b);
            } else {
                self.chr_rom_banks.set(bank_index_1, BankSelect { size: BankSize::_1KB, bank: _1kb_bank });
            }
        } else {
            let mode = get_prg_rom_mode(self.bank_select);
            let bank = (self.bank_data % 64) as usize;
            if selected_bank == 6 {
                let b0 = self.prg_rom_banks[0];
                let b2 = self.prg_rom_banks[2];
                if mode == 0 {
                    self.prg_rom_banks.set(0, BankSelect { bank, ..b0 });
                    self.prg_rom_banks.set(2, BankSelect { bank: self.prg_rom_banks_count - 2, ..b2 });
                } else {
                    self.prg_rom_banks.set(0, BankSelect { bank: self.prg_rom_banks_count - 2, ..b0 });
                    self.prg_rom_banks.set(2, BankSelect { bank, ..b2 });
                }
            } else {
                let b1 = self.prg_rom_banks[1];
                self.prg_rom_banks.set(1, BankSelect { bank: self.bank_data as usize, ..b1 });
            }
        }
    }

    fn init_all_banks(&mut self)
        requires
            old(self).wf(),
            old(self).prg_rom_banks_count >= 2,
        ensures
            final(self).wf(),
            (final(self).chr_rom_banks@, final(self).prg_rom_banks@) == banks_loaded(
                old(self).chr_rom_banks@,
                old(self).prg_rom_banks@,
                old(self).prg_rom_banks_count,
                old(self).bank_select,
                old(self).bank_data,
                8,
            ),
            final(self).mapper_internal == old(self).mapper_internal,
            final(self).bank_select == old(self).bank_select,
            final(self).bank_data == old(self).bank_data,
            final(self).is_bank_select_initialized == old(self).is_bank_select_initialized,
            final(self).prg_rom_banks_count == old(self).prg_rom_banks_count,
            final(self).mirroring == old(self).mirroring,
            final(self).prg_ram_protect == old(self).prg_ram_protect,
            final(self).reload_irq_counter_at_zero == old(self).reload_irq_counter_at_zero,
            final(self).reload_irq_counter_at_next_edge == old(self).reload_irq_counter_at_next_edge,
            final(self).irq_enabled == old(self).irq_enabled,
            final(self).variant == old(self).variant,
    {
        let mut i: usize = 0;
        while i < 8
            invariant
                self.wf(),
                i <= 8,
                old(self).prg_rom_banks_count >= 2,
                (self.chr_rom_banks@, self.prg_rom_banks@) == banks_loaded(
                    old(self).chr_rom_banks@,
                    old(self).prg_rom_banks@,
                    old(self).prg_rom_banks_count,
                    old(self).bank_select,
                    old(self).bank_data,
                    i as nat,
                ),
                self.mapper_internal == old(self).mapper_internal,
                self.bank_select == old(self).bank_select,
                self.bank_data == old(self).bank_data,
                self.is_bank_select_initialized == old(self).is_bank_select_initialized,
                self.prg_rom_banks_count == old(self).prg_rom_banks_count,
                self.mirroring == old(self).mirroring,
                self.prg_ram_protect == old(self).prg_ram_protect,
                self.reload_irq_counter_at_zero == old(self).reload_irq_counter_at_zero,
                self.reload_irq_counter_at_next_edge == old(self).reload_irq_counter_at_next_edge,
                self.irq_enabled == old(self).irq_enabled,
                self.variant == old(self).variant,
            decreases 8 - i,
        {
            self.update_selected_bank(i);
            i = i + 1;
        }
    }
}

impl Mapper for MMC3_6 {
    open spec fn inv(&self) -> bool {
        self.wf()
    }

    /// Reads from $6000 up; the selected bank lies within the PRG table.
    open spec fn prg_read_ok(&self, address: u16) -> bool {
        &&& address >= 0x6000
        &&& !in_prg_ram_range(address) ==> {
            let bs = self.prg_rom_banks@[MMC3_6::prg_slot(address)];
            bank_index(address, bs.bank, bs.size) < PRG_ROM_DATA_SIZE
        }
    }

    /// Writes from $6000 up; a write that loads bank register 6 (the first
    /// bank select, or bank data while register 6 is selected) needs two PRG banks.
    open spec fn prg_write_ok(&self, address: u16, byte: u8) -> bool {
        &&& address >= 0x6000
        &&& (0x8000 <= address <= 0x9FFF && address % 2 == 0 && !self.is_bank_select_initialized)
            ==> self.prg_rom_banks_count >= 2
        &&& (0x8000 <= address <= 0x9FFF && address % 2 == 1 && selected_bank(self.bank_select) == 6)
            ==> self.prg_rom_banks_count >= 2
    }

    open spec fn chr_read_ok(&self, address: u16) -> bool {
        &&& address < 0x2000
        &&& {
            let bs = self.chr_rom_banks@[MMC3_6::chr_slot(address)];
            self.mapper_internal.chr_readable(address, bs.bank, bs.size)
        }
    }

    open spec fn chr_write_ok(&self, address: u16) -> bool {
        true
    }

    open spec fn mirroring_value(&self) -> Mirroring {
        if self.mirroring % 2 == 1 {
            Mirroring::Horizontal
        } else {
            Mirroring::Vertical
        }
    }

    /// $6000-$7FFF is RAM; above, even and odd addresses of each 8 KiB range
    /// hit bank select / bank data, mirroring / RAM protect, IRQ latch / IRQ
    /// reload, IRQ disable / enable. The first bank select loads all eight
    /// bank registers.
    open spec fn prg_written(&self, new: Self, address: u16, byte: u8) -> bool {
        &&& new.variant == self.variant
        &&& new.prg_rom_banks_count == self.prg_rom_banks_count
        &&& if in_prg_ram_range(address) {
            &&& self.mapper_internal.prg_ram_stored(
                new.mapper_internal,
                bank_index(address, 0, BankSize::_8KB),
                byte,
            )
            &&& self.same_banks(new)
            &&& self.same_bank_registers(new)
            &&& self.same_mirroring_registers(new)
            &&& self.same_irq_registers(new)
        } else if address <= 0x9FFF {
            &&& new.mapper_internal == self.mapper_internal
            &&& self.same_mirroring_registers(new)
            &&& self.same_irq_registers(new)
            &&& if address % 2 == 0 {
                &&& new.bank_select == byte
                &&& new.bank_data == self.bank_data
                &&& new.is_bank_select_initialized
                &&& if self.is_bank_select_initialized {
                    self.same_banks(new)
                } else {
                    (new.chr_rom_banks@, new.prg_rom_banks@) == banks_loaded(
                        self.chr_rom_banks@,
                        self.prg_rom_banks@,
                        self.prg_rom_banks_count,
                        byte,
                        self.bank_data,
                        8,
                    )
                }
            } else {
                &&& new.bank_data == byte
                &&& new.bank_select == self.bank_select
                &&& new.is_bank_select_initialized == self.is_bank_select_initialized
                &&& new.chr_rom_banks@ == if selected_bank(self.bank_select) < 6 {
                    chr_banks_updated(self.chr_rom_banks@, selected_bank(self.bank_select), self.bank_select, byte)
                } else {
                    self.chr_rom_banks@
                }
                &&& new.prg_rom_banks@ == if selected_bank(self.bank_select) < 6 {
                    self.prg_rom_banks@
                } else {
                    prg_banks_updated(
                        self.prg_rom_banks@,
                        self.prg_rom_banks_count,
                        selected_bank(self.bank_select),
                        self.bank_select,
                        byte,
                    )
                }
            }
        } else {
            &&& new.mapper_internal == self.mapper_internal
            &&& self.same_banks(new)
            &&& self.same_bank_registers(new)
            &&& if address <= 0xBFFF {
                &&& self.same_irq_registers(new)
                &&& if address % 2 == 0 {
                    new.mirroring == byte && new.prg_ram_protect == self.prg_ram_protect
                } else {
                    new.prg_ram_protect == byte && new.mirroring == self.mirroring
                }
            } else if address <= 0xDFFF {
                &&& self.same_mirroring_registers(new)
                &&& new.irq_enabled == self.irq_enabled
                &&& if address % 2 == 0 {
                    new.reload_irq_counter_at_zero == byte && new.reload_irq_counter_at_next_edge
                        == self.reload_irq_counter_at_next_edge
                } else {
                    new.reload_irq_counter_at_next_edge == Some(byte) && new.reload_irq_counter_at_zero
                        == self.reload_irq_counter_at_zero
                }
            } else {
                &&& self.same_mirroring_registers(new)
                &&& new.reload_irq_counter_at_zero == self.reload_irq_counter_at_zero
                &&& new.reload_irq_counter_at_next_edge == self.reload_irq_counter_at_next_edge
                &&& new.irq_enabled == (address % 2 == 1)
            }
        }
    }

    /// CHR writes are ignored.
    open spec fn chr_written(&self, new: Self, address: u16, byte: u8) -> bool {
        new == *self
    }

    /// Clears the RAMs and every register; the PRG slots go back to the last bank.
    open spec fn powered_on(&self, new: Self) -> bool {
        &&& self.mapper_internal.rams_cleared(new.mapper_internal)
        &&& new.prg_rom_banks@ == Seq::new(
            4,
            |i: int| BankSelect { size: BankSize::_8KB, bank: (self.prg_rom_banks_count - 1) as usize },
        )
        &&& new.chr_rom_banks@ == Seq::new(8, |i: int| BankSelect { size: BankSize::_1KB, bank: 0 })
        &&& new.bank_select == 0
        &&& !new.is_bank_select_initialized
        &&& new.bank_data == 0
        &&& new.mirroring == 0
        &&& new.prg_ram_protect == 0
        &&& new.reload_irq_counter_at_next_edge is None
        &&& new.reload_irq_counter_at_zero == 0
        &&& !new.irq_enabled
        &&& new.prg_rom_banks_count == self.prg_rom_banks_count
        &&& new.variant == self.variant
    }

    fn get_mapper_id(&self) -> (r: u8)
        ensures
            r == 4,
    {
        4
    }

    fn get_chr_byte(&mut self, address: u16) -> (r: u8)
        ensures
            r == old(self).chr_byte(address),
            *final(self) == *old(self),
    {
        let bank_select = self.chr_rom_banks[(address / 1024) as usize];
        self.mapper_internal.get_chr_byte(address, bank_select.bank, bank_select.size)
    }

    fn get_prg_byte(&mut self, address: u16) -> (r: u8)
        ensures
            r == old(self).prg_byte(address),
            *final(self) == *old(self),
    {
        if 0x6000 <= address && address < 0x8000 {
            self.mapper_internal.get_prg_ram_byte(address, 0, BankSize::_8KB)
        } else {
            let bank_select = self.prg_rom_banks[((address - 0x8000) / 8192) as usize];
            self.mapper_internal.get_prg_rom_byte(address, bank_select.bank, bank_select.size)
        }
    }

    /// CHR space is ROM: writes are ignored.
    fn store_chr_byte(&mut self, address: u16, byte: u8) {
    }

    /// $6000-$7FFF is RAM; above, even and odd addresses of each 8 KiB range
    /// hit bank select / bank data, mirroring / RAM protect, IRQ latch / IRQ
    /// reload, IRQ disable / enable. The first bank select loads all eight
    /// bank registers.
    fn store_prg_byte(&mut self, address: u16, byte: u8) {
        if 0x6000 <= address && address < 0x8000 {
            self.mapper_internal.store_prg_ram_byte(address, 0, BankSize::_8KB, byte)
        } else {
            let is_even = address % 2 == 0;
            if address <= 0x9FFF {
                if is_even {
                    self.bank_select = byte;
                    if !self.is_bank_select_initialized {
                        self.init_all_banks();
                        self.is_bank_select_initialized = true;
                    }
                } else {
                    self.bank_data = byte;
                    self.update_selected_bank(get_selected_bank(self.bank_select));
                }
            } else if address <= 0xBFFF {
                if is_even {
                    self.mirroring = byte;
                } else {
                    self.prg_ram_protect = byte;
                }
            } else if address <= 0xDFFF {
                if is_even {
                    self.reload_irq_counter_at_zero = byte;
                } else {
                    self.reload_irq_counter_at_next_edge = Some(byte);
                }
            } else {
                self.irq_enabled = !is_even;
            }
        }
    }

    fn get_mirroring(&self) -> (r: Mirroring) {
        if self.mirroring % 2 == 1 {
            Mirroring::Horizontal
        } else {
            Mirroring::Vertical
        }
    }

    /// Clears the RAMs and every register; the PRG slots go back to the last bank.
    fn power_cycle(&mut self) {
        self.mapper_internal.reset();
        let last = BankSelect { size: BankSize::_8KB, bank: self.prg_rom_banks_count - 1 };
        self.prg_rom_banks = vec![last, last, last, last];
        self.chr_rom_banks = vec![
            BankSelect::new(),
            BankSelect::new(),
            BankSelect::new(),
            BankSelect::new(),
            BankSelect::new(),
            BankSelect::new(),
            BankSelect::new(),
            BankSelect::new(),
        ];
        self.bank_select = 0;
        self.is_bank_select_initialized = false;
        self.bank_data = 0;
        self.mirroring = 0;
        self.prg_ram_protect = 0;
        self.reload_irq_counter_at_next_edge = None;
        self.reload_irq_counter_at_zero = 0;
        self.irq_enabled = false;
        assert(self.prg_rom_banks@ =~= Seq::new(4, |i: int| BankSelect { size: BankSize::_8KB, bank: (old(self).prg_rom_banks_count - 1) as usize }));
        assert(self.chr_rom_banks@ =~= Seq::new(8, |i: int| BankSelect { size: BankSize::_1KB, bank: 0 }));
    }

    fn is_irq_pending(&mut self) -> (r: bool) {
        false
    }

    fn ppu_a12_rising_edge_triggered(&mut self) {
    }
}

/// The MMC3's work RAM at $6000-$7FFF: a CPU read gives back the byte last
/// written at that address, and a write leaves the other RAM addresses alone.
pub proof fn law_work_ram_read_after_write(before: MMC3_6, after: MMC3_6, address: u16, other: u16, byte: u8)
    requires
        before.wf(),
        in_prg_ram_range(address),
        after.mapper_internal.prg_ram@ == before.mapper_internal.prg_ram@.update(
            bank_index(address, 0, BankSize::_8KB),
            byte,
        ),
    ensures
        after.prg_byte(address) == byte,
        in_prg_ram_range(other) && other != address ==> after.prg_byte(other) == before.prg_byte(other),
{
    assert(bank_index(address, 0, BankSize::_8KB) == address as int % 8192);
    assert(bank_index(other, 0, BankSize::_8KB) == other as int % 8192);
}

/// A write of a CHR bank register (0 to 5): registers 0 and 1 each put a
/// 2 KiB bank (the data halved) in two neighbouring 1 KiB slots of one
/// pattern table, registers 2 to 5 a 1 KiB bank in one slot each of the
/// other table; without inversion the 2 KiB banks are at $0000, with
/// inversion (bit 7 of the bank select) at $1000. The other slots stay.
pub proof fn law_chr_bank_register_write(chr: Seq<BankSelect>, selected: usize, bank_select: u8, bank_data: u8, slot: int)
    requires
        chr.len() == 8,
        selected < 6,
        0 <= slot < 8,
    ensures
        ({
            let r = chr_banks_updated(chr, selected, bank_select, bank_data);
            let two_k_base: int = if bank_select >= 0x80 { 4 } else { 0 };
            let one_k_base: int = 4 - two_k_base;
            &&& r.len() == 8
            &&& selected < 2 && (slot == two_k_base + 2 * selected || slot == two_k_base + 2 * selected + 1) ==> r[slot]
                == BankSelect { size: BankSize::_2KB, bank: (bank_data / 2) as usize }
            &&& selected < 2 && slot != two_k_base + 2 * selected && slot != two_k_base + 2 * selected + 1 ==> r[slot]
                == chr[slot]
            &&& selected >= 2 && slot == one_k_base + selected - 2 ==> r[slot] == BankSelect {
                size: BankSize::_1KB,
                bank: bank_data as usize,
            }
            &&& selected >= 2 && slot != one_k_base + selected - 2 ==> r[slot] == chr[slot]
        }),
{
}

/// A write of PRG bank register 6 switches the 8 KiB slot at $8000 (or at
/// $C000 when bit 6 of the bank select is set) to the bank in the low six
/// bits of the data, the other of the two getting the second-to-last bank;
/// register 7 switches the slot at $A000. The slot at $E000 always keeps
/// the last bank.
pub proof fn law_prg_bank_register_write(prg: Seq<BankSelect>, count: usize, selected: usize, bank_select: u8, bank_data: u8)
    requires
        prg.len() == 4,
        selected == 6 || selected == 7,
        count >= 2,
    ensures
        ({
            let r = prg_banks_updated(prg, count, selected, bank_select, bank_data);
            &&& r.len() == 4
            &&& r[3] == prg[3]
            &&& selected == 7 ==> r[1].bank == bank_data && r[0] == prg[0] && r[2] == prg[2]
            &&& selected == 6 && bank_select & 0x40 == 0 ==> r[0].bank == bank_data % 64 && r[2].bank == count - 2
                && r[1] == prg[1]
            &&& selected == 6 && bank_select & 0x40 != 0 ==> r[2].bank == bank_data % 64 && r[0].bank == count - 2
                && r[1] == prg[1]
        }),
{
    assert((bank_select & 0x40 == 0) == ((bank_select / 64) % 2 == 0)) by (bit_vector);
}

/// A bank select (even address from $8000 to $9FFF) followed by a bank data
/// write (odd address there) loads the selected register: a CHR register
/// fills its slots as `law_chr_bank_register_write` says, register 6 the
/// switchable 8 KiB slot of the PRG mode, register 7 the slot at $A000.
pub proof fn law_select_then_data(
    m0: MMC3_6,
    m1: MMC3_6,
    m2: MMC3_6,
    select_address: u16,
    data_address: u16,
    select: u8,
    data: u8,
)
    requires
        m0.is_bank_select_initialized,
        m0.chr_rom_banks@.len() == 8,
        m0.prg_rom_banks@.len() == 4,
        m0.prg_rom_banks_count >= 2,
        0x8000 <= select_address <= 0x9FFF && select_address % 2 == 0,
        0x8000 <= data_address <= 0x9FFF && data_address % 2 == 1,
        m0.prg_written(m1, select_address, select),
        m1.prg_written(m2, data_address, data),
    ensures
        ({
            let sel = select % 8;
            let two_k_base: int = if select >= 0x80 { 4 } else { 0 };
            &&& sel < 2 ==> m2.chr_rom_banks@[two_k_base + 2 * sel] == BankSelect { size: BankSize::_2KB, bank: (data / 2) as usize }
                && m2.chr_rom_banks@[two_k_base + 2 * sel + 1] == BankSelect { size: BankSize::_2KB, bank: (data / 2) as usize }
            &&& 2 <= sel < 6 ==> m2.chr_rom_banks@[4 - two_k_base + sel - 2] == BankSelect { size: BankSize::_1KB, bank: data as usize }
            &&& sel >= 6 ==> m2.chr_rom_banks@ == m0.chr_rom_banks@
            &&& sel == 7 ==> m2.prg_rom_banks@[1].bank == data
            &&& sel == 6 && select & 0x40 == 0 ==> m2.prg_rom_banks@[0].bank == data % 64
            &&& sel == 6 && select & 0x40 != 0 ==> m2.prg_rom_banks@[2].bank == data % 64
            &&& m2.prg_rom_banks@[3] == m0.prg_rom_banks@[3]
        }),
{
    assert(m1.bank_select == select);
    assert(selected_bank(select) == select % 8);
    if select % 8 < 6 {
        law_chr_bank_register_write(m0.chr_rom_banks@, (select % 8) as usize, select, data, 0);
        let two_k_base: int = if select >= 0x80 { 4 } else { 0 };
        let sel = (select % 8) as int;
        if sel < 2 {
            law_chr_bank_register_write(m0.chr_rom_banks@, (select % 8) as usize, select, data, two_k_base + 2 * sel);
            law_chr_bank_register_write(m0.chr_rom_banks@, (select % 8) as usize, select, data, two_k_base + 2 * sel + 1);
        } else {
            law_chr_bank_register_write(m0.chr_rom_banks@, (select % 8) as usize, select, data, 4 - two_k_base + sel - 2);
        }
    } else {
        law_prg_bank_register_write(m0.prg_rom_banks@, m0.prg_rom_banks_count, (select % 8) as usize, select, data);
    }
}

/// The other registers: at $A000-$BFFF an even address sets the mirroring
/// (bit 0: horizontal when set, vertical when clear); at $E000-$FFFF an even
/// address disables the IRQ and an odd one enables it.
pub proof fn law_mirroring_and_irq_enable(m: MMC3_6, new: MMC3_6, address: u16, byte: u8)
    requires
        m.prg_written(new, address, byte),
    ensures
        0xA000 <= address <= 0xBFFF && address % 2 == 0 ==> new.mirroring_value() == (if byte & 1 != 0 {
            Mirroring::Horizontal
        } else {
            Mirroring::Vertical
        }),
        0xE000 <= address ==> new.irq_enabled == (address % 2 == 1),
{
    assert((byte & 1 != 0) == (byte % 2 == 1)) by (bit_vector);
}

} // verus!
