//! The memory of a cartridge: PRG ROM and RAM, CHR ROM and RAM, read
//! through switchable banks.
use vstd::prelude::*;

verus! {

pub const PRG_RAM_DATA_SIZE: usize = 0x20000;
pub const PRG_ROM_DATA_SIZE: usize = 0x80000;
pub const CHR_ROM_DATA_SIZE: usize = 0x40000;
pub const CHR_RAM_DATA_SIZE: usize = 0x2000;

/// The sizes a bank can have.
#[derive(Copy, Clone, Debug, PartialEq, Eq, Structural)]
pub enum BankSize {
    _1KB,
    _2KB,
    _4KB,
    _8KB,
    _16KB,
    _32KB,
}

pub open spec fn bank_size_bytes(size: BankSize) -> usize {
    match size {
        BankSize::_1KB => 0x0400,
        BankSize::_2KB => 0x0800,
        BankSize::_4KB => 0x1000,
        BankSize::_8KB => 0x2000,
        BankSize::_16KB => 0x4000,
        BankSize::_32KB => 0x8000,
    }
}

impl BankSize {
    pub fn bytes(self) -> (r: usize)
        ensures
            r == bank_size_bytes(self),
    {
        match self {
            BankSize::_1KB => 0x0400,
            BankSize::_2KB => 0x0800,
            BankSize::_4KB => 0x1000,
            BankSize::_8KB => 0x2000,
            BankSize::_16KB => 0x4000,
            BankSize::_32KB => 0x8000,
        }
    }
}

/// A selected bank: its size and its number.
#[derive(Copy, Clone, Debug, PartialEq, Eq, Structural)]
pub struct BankSelect {
    pub size: BankSize,
    pub bank: usize,
}

impl BankSelect {
    pub fn new() -> (r: BankSelect)
        ensures
            r == (BankSelect { size: BankSize::_1KB, bank: 0 }),
    {
        BankSelect { size: BankSize::_1KB, bank: 0 }
    }
}

/// Where an address falls in a table read through a bank: the bank's start
/// plus the address's offset within a bank.
pub open spec fn bank_index(address: u16, bank: usize, size: BankSize) -> int {
    bank_size_bytes(size) as int * bank as int + (address as int) % (bank_size_bytes(size) as int)
}

pub struct MapperInternal {
    pub prg_ram: Vec<u8>,
    pub prg_rom: Vec<u8>,
    pub prg_rom_size: usize,
    pub chr_rom: Vec<u8>,
    pub chr_rom_size: usize,
    pub chr_ram: Vec<u8>,
}

/// `bytes` followed by zeros up to `len`.
pub open spec fn padded(bytes: Seq<u8>, len: nat) -> Seq<u8> {
    bytes + Seq::new((len - bytes.len()) as nat, |i: int| 0u8)
}

/// A table of `len` zero bytes.
pub open spec fn zeros(len: nat) -> Seq<u8> {
    Seq::new(len, |i: int| 0u8)
}

fn padded_vec(bytes: &Vec<u8>, len: usize) -> (r: Vec<u8>)
    requires
        bytes@.len() <= len,
    ensures
        r@ == padded(bytes@, len as nat),
{
    let mut r: Vec<u8> = Vec::new();
    let mut i: usize = 0;
    while i < len
        invariant
            i <= len,
            bytes@.len() <= len,
            r@.len() == i,
            forall|j: int| 0 <= j < i ==> #[trigger] r@[j] == padded(bytes@, len as nat)[j],
        decreases len - i,
    {
        if i < bytes.len() {
            r.push(bytes[i]);
        } else {
            r.push(0u8);
        }
        i = i + 1;
    }
    assert(r@ =~= padded(bytes@, len as nat));
    r
}

fn zeroed(v: &mut Vec<u8>)
    ensures
        final(v)@ == zeros(old(v)@.len()),
{
    let mut i: usize = 0;
    while i < v.len()
        invariant
            v@.len() == old(v)@.len(),
            i <= v@.len(),
            forall|j: int| 0 <= j < i ==> v@[j] == 0u8,
        decreases v@.len() - i,
    {
        v.set(i, 0u8);
        i = i + 1;
    }
    assert(v@ =~= zeros(old(v)@.len()));
}

impl MapperInternal {
    /// The memory holds the given ROMs (padded with zeros) and zeroed RAMs.
    pub open spec fn fresh(&self, prg_rom: Seq<u8>, chr_rom: Seq<u8>) -> bool {
        &&& self.prg_rom@ == padded(prg_rom, PRG_ROM_DATA_SIZE as nat)
        &&& self.chr_rom@ == padded(chr_rom, CHR_ROM_DATA_SIZE as nat)
        &&& self.prg_rom_size == prg_rom.len()
        &&& self.chr_rom_size == chr_rom.len()
        &&& self.prg_ram@ == zeros(PRG_RAM_DATA_SIZE as nat)
        &&& self.chr_ram@ == zeros(CHR_RAM_DATA_SIZE as nat)
    }

    /// `new` is this memory with one CHR RAM byte written and all else kept.
    pub open spec fn chr_ram_stored(&self, new: MapperInternal, address: u16, byte: u8) -> bool {
        &&& new.chr_ram@ == self.chr_ram@.update(address as int, byte)
        &&& new.prg_ram == self.prg_ram
        &&& new.prg_rom == self.prg_rom
        &&& new.chr_rom == self.chr_rom
        &&& new.prg_rom_size == self.prg_rom_size
        &&& new.chr_rom_size == self.chr_rom_size
    }

    /// `new` is this memory with the PRG RAM byte at `index` written and all else kept.
    pub open spec fn prg_ram_stored(&self, new: MapperInternal, index: int, byte: u8) -> bool {
        &&& new.prg_ram@ == self.prg_ram@.update(index, byte)
        &&& new.chr_ram == self.chr_ram
        &&& new.prg_rom == self.prg_rom
        &&& new.chr_rom == self.chr_rom
        &&& new.prg_rom_size == self.prg_rom_size
        &&& new.chr_rom_size == self.chr_rom_size
    }

    /// `new` is this memory with both RAMs zeroed and the ROMs kept.
    pub open spec fn rams_cleared(&self, new: MapperInternal) -> bool {
        &&& new.prg_ram@ == zeros(PRG_RAM_DATA_SIZE as nat)
        &&& new.chr_ram@ == zeros(CHR_RAM_DATA_SIZE as nat)
        &&& new.prg_rom == self.prg_rom
        &&& new.chr_rom == self.chr_rom
        &&& new.prg_rom_size == self.prg_rom_size
        &&& new.chr_rom_size == self.chr_rom_size
    }

    pub open spec fn wf(&self) -> bool {
        &&& self.prg_ram@.len() == PRG_RAM_DATA_SIZE
        &&& self.prg_rom@.len() == PRG_ROM_DATA_SIZE
        &&& self.chr_rom@.len() == CHR_ROM_DATA_SIZE
        &&& self.chr_ram@.len() == CHR_RAM_DATA_SIZE
        &&& self.prg_rom_size <= PRG_ROM_DATA_SIZE
        &&& self.chr_rom_size <= CHR_ROM_DATA_SIZE
    }

    /// The cartridge's ROMs, padded with zeros, and zeroed RAMs.
    pub fn new(prg_rom: Vec<u8>, chr_rom: Vec<u8>) -> (r: MapperInternal)
        requires
            prg_rom@.len() <= PRG_ROM_DATA_SIZE,
            chr_rom@.len() <= CHR_ROM_DATA_SIZE,
        ensures
            r.wf(),
            r.prg_rom@ == padded(prg_rom@, PRG_ROM_DATA_SIZE as nat),
            r.chr_rom@ == padded(chr_rom@, CHR_ROM_DATA_SIZE as nat),
            r.prg_rom_size == prg_rom@.len(),
            r.chr_rom_size == chr_rom@.len(),
            r.prg_ram@ == zeros(PRG_RAM_DATA_SIZE as nat),
            r.chr_ram@ == zeros(CHR_RAM_DATA_SIZE as nat),
    {
        let empty: Vec<u8> = Vec::new();
        MapperInternal {
            prg_ram: padded_vec(&empty, PRG_RAM_DATA_SIZE),
            prg_rom: padded_vec(&prg_rom, PRG_ROM_DATA_SIZE),
            prg_rom_size: prg_rom.len(),
            chr_rom: padded_vec(&chr_rom, CHR_ROM_DATA_SIZE),
            chr_rom_size: chr_rom.len(),
            chr_ram: padded_vec(&empty, CHR_RAM_DATA_SIZE),
        }
    }

    fn get_address_index(&self, address: u16, bank: usize, bank_size: BankSize) -> (r: usize)
        requires
            bank_index(address, bank, bank_size) <= usize::MAX,
        ensures
            r == bank_index(address, bank, bank_size),
    {
        let size = bank_size.bytes();
        proof {
            vstd::arithmetic::mul::lemma_mul_nonnegative(size as int, bank as int);
        }
        size * bank + (address as usize % size)
    }

    pub fn get_prg_rom_byte(&self, address: u16, bank: usize, prg_bank_size: BankSize) -> (r: u8)
        requires
            self.wf(),
            bank_index(address, bank, prg_bank_size) < PRG_ROM_DATA_SIZE,
        ensures
            r == self.prg_rom@[bank_index(address, bank, prg_bank_size)],
    {
        let index = self.get_address_index(address, bank, prg_bank_size);
        self.prg_rom[index]
    }

    pub fn get_prg_ram_byte(&self, address: u16, bank: usize, bank_size: BankSize) -> (r: u8)
        requires
            self.wf(),
            bank_index(address, bank, bank_size) < PRG_RAM_DATA_SIZE,
        ensures
            r == self.prg_ram@[bank_index(address, bank, bank_size)],
    {
        self.prg_ram[self.get_address_index(address, bank, bank_size)]
    }

    pub fn store_prg_ram_byte(&mut self, address: u16, bank: usize, bank_size: BankSize, byte: u8)
        requires
            old(self).wf(),
            bank_index(address, bank, bank_size) < PRG_RAM_DATA_SIZE,
        ensures
            final(self).wf(),
            final(self).prg_ram@ == old(self).prg_ram@.update(bank_index(address, bank, bank_size), byte),
            final(self).prg_rom == old(self).prg_rom,
            final(self).chr_rom == old(self).chr_rom,
            final(self).chr_ram == old(self).chr_ram,
            final(self).prg_rom_size == old(self).prg_rom_size,
            final(self).chr_rom_size == old(self).chr_rom_size,
    {
        let index = self.get_address_index(address, bank, bank_size);
        self.prg_ram.set(index, byte);
    }

    /// The pattern byte: from CHR RAM when the cartridge has no CHR ROM
    /// (the address taken as is), else from the CHR ROM bank.
    pub open spec fn chr_byte(&self, address: u16, bank: usize, size: BankSize) -> u8 {
        if self.chr_rom_size == 0 {
            self.chr_ram@[address as int]
        } else {
            self.chr_rom@[bank_index(address, bank, size)]
        }
    }

    pub open spec fn chr_readable(&self, address: u16, bank: usize, size: BankSize) -> bool {
        if self.chr_rom_size == 0 {
            address < CHR_RAM_DATA_SIZE
        } else {
            bank_index(address, bank, size) < CHR_ROM_DATA_SIZE
        }
    }

    pub fn get_chr_byte(&self, address: u16, bank: usize, chr_bank_size: BankSize) -> (r: u8)
        requires
            self.wf(),
            self.chr_readable(address, bank, chr_bank_size),
        ensures
            r == self.chr_byte(address, bank, chr_bank_size),
    {
        if self.chr_rom_size == 0 {
            self.chr_ram[address as usize]
        } else {
            let index = self.get_address_index(address, bank, chr_bank_size);
            self.chr_rom[index]
        }
    }

    /// Writes go to CHR RAM at the address as is.
    pub fn store_chr_byte(&mut self, address: u16, bank: usize, bank_size: BankSize, byte: u8)
        requires
            old(self).wf(),
            address < CHR_RAM_DATA_SIZE,
        ensures
            final(self).wf(),
            final(self).chr_ram@ == old(self).chr_ram@.update(address as int, byte),
            final(self).prg_rom == old(self).prg_rom,
            final(self).prg_ram == old(self).prg_ram,
            final(self).chr_rom == old(self).chr_rom,
            final(self).prg_rom_size == old(self).prg_rom_size,
            final(self).chr_rom_size == old(self).chr_rom_size,
    {
        self.chr_ram.set(address as usize, byte);
    }

    pub fn get_prg_rom_bank_count(&self, prg_bank_size: BankSize) -> (r: usize)
        ensures
            r == self.prg_rom_size / bank_size_bytes(prg_bank_size),
    {
        self.prg_rom_size / prg_bank_size.bytes()
    }

    /// Clears both RAMs; the ROMs stay.
    pub fn reset(&mut self)
        requires
            old(self).wf(),
        ensures
            final(self).wf(),
            final(self).prg_ram@ == zeros(PRG_RAM_DATA_SIZE as nat),
            final(self).chr_ram@ == zeros(CHR_RAM_DATA_SIZE as nat),
            final(self).prg_rom == old(self).prg_rom,
            final(self).chr_rom == old(self).chr_rom,
            final(self).prg_rom_size == old(self).prg_rom_size,
            final(self).chr_rom_size == old(self).chr_rom_size,
    {
        zeroed(&mut self.chr_ram);
        zeroed(&mut self.prg_ram);
    }
}

} // verus!

verus! {

/// A bank number at most `max_bank` reaches no further than the end of bank `max_bank`.
pub proof fn lemma_bank_index_bound(address: u16, bank: usize, size: BankSize, max_bank: int)
    requires
        bank <= max_bank,
    ensures
        0 <= bank_index(address, bank, size) < bank_size_bytes(size) * (max_bank + 1),
{
    let s = bank_size_bytes(size) as int;
    assert(s * bank <= s * max_bank) by (nonlinear_arith)
        requires
            0 <= bank <= max_bank,
            s > 0,
    ;
    assert(s * (max_bank + 1) == s * max_bank + s) by (nonlinear_arith);
    assert(0 <= s * bank) by (nonlinear_arith)
        requires
            0 <= bank,
            s > 0,
    ;
}

/// On a cartridge without CHR ROM, a pattern read gives back the byte last
/// written at that address, whatever bank the read goes through.
pub proof fn law_chr_ram_read_after_write(
    before: MapperInternal,
    after: MapperInternal,
    address: u16,
    bank: usize,
    size: BankSize,
    byte: u8,
)
    requires
        before.wf(),
        before.chr_rom_size == 0,
        address < CHR_RAM_DATA_SIZE,
        after.chr_ram@ == before.chr_ram@.update(address as int, byte),
        after.chr_rom_size == before.chr_rom_size,
    ensures
        after.chr_byte(address, bank, size) == byte,
{
}

/// A PRG RAM read through a bank gives back the byte last written there
/// through the same bank, and other places keep their bytes.
pub proof fn law_prg_ram_read_after_write(
    before: MapperInternal,
    after: MapperInternal,
    address: u16,
    other: u16,
    bank: usize,
    size: BankSize,
    byte: u8,
)
    requires
        before.wf(),
        bank_index(address, bank, size) < PRG_RAM_DATA_SIZE,
        after.prg_ram@ == before.prg_ram@.update(bank_index(address, bank, size), byte),
    ensures
        after.prg_ram@[bank_index(address, bank, size)] == byte,
        bank_index(other, bank, size) < PRG_RAM_DATA_SIZE && bank_index(other, bank, size) != bank_index(
            address,
            bank,
            size,
        ) ==> after.prg_ram@[bank_index(other, bank, size)] == before.prg_ram@[bank_index(other, bank, size)],
{
    lemma_bank_index_bound(address, bank, size, bank as int);
    lemma_bank_index_bound(other, bank, size, bank as int);
}

} // verus!
