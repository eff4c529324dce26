use crate::mappers::MapperEnum;
use vstd::prelude::*;

verus! {

/// A byte-addressed memory as the CPU sees it.
///
/// Each implementation gives an abstract model of its contents, what a read
/// of the model gives, and what a write makes of it.
pub trait Memory: Sized {
    type Model;

    /// The implementation's own well-formedness.
    spec fn inv(&self) -> bool;

    spec fn model(&self) -> Self::Model;

    /// The byte that reading `addr` gives.
    spec fn read_model(m: Self::Model, addr: u16) -> u8;

    /// The model after `byte` has been written at `addr`.
    spec fn write_model(m: Self::Model, addr: u16, byte: u8) -> Self::Model;

    fn get_byte(&self, addr: u16) -> (r: u8)
        requires
            self.inv(),
        ensures
            r == Self::read_model(self.model(), addr),
    ;

    fn store_byte(&mut self, addr: u16, byte: u8)
        requires
            old(self).inv(),
        ensures
            final(self).inv(),
            final(self).model() == Self::write_model(old(self).model(), addr, byte),
    ;
}

/// The picture unit's memory: pattern tables, name tables and palettes,
/// some of them on the cartridge behind its mapper.
pub trait VideoMemory {
    fn get_byte(&self, addr: u16, mapper: &mut MapperEnum) -> u8;

    fn store_byte(&mut self, addr: u16, byte: u8, mapper: &mut MapperEnum);

    fn get_nametable_tile_index(&self, table_index: u8, tile_x: u8, tile_y: u8, mapper: &mut MapperEnum) -> u8;

    fn get_pattern_table_tile_data(&self, table_index: u8, tile_index: u8, mapper: &mut MapperEnum) -> [u8; 16];

    fn get_universal_background_color(&self, mapper: &mut MapperEnum) -> u8;

    fn get_background_palette(&self, palette_index: u8, mapper: &mut MapperEnum) -> [u8; 3];

    fn get_attribute_data(&self, table_index: u8, color_tile_x: u8, color_tile_y: u8, mapper: &mut MapperEnum) -> u8;

    fn get_low_pattern_data(&self, table_index: u8, tile_index: u8, y: u8, mapper: &mut MapperEnum) -> u8;

    fn get_high_pattern_data(&self, table_index: u8, tile_index: u8, y: u8, mapper: &mut MapperEnum) -> u8;

    fn get_sprite_palette(&self, palette_index: u8, mapper: &mut MapperEnum) -> [u8; 3];
}

/// A plain block of `N` bytes, all zero at first.
pub struct MemoryImpl<const N: usize> {
    memory: Vec<u8>,
}

impl<const N: usize> View for MemoryImpl<N> {
    type V = Seq<u8>;

    closed spec fn view(&self) -> Seq<u8> {
        self.memory@
    }
}

impl<const N: usize> MemoryImpl<N> {
    /// The block holds exactly `N` bytes.
    pub open spec fn wf(&self) -> bool {
        self@.len() == N
    }

    pub fn new() -> (r: Self)
        ensures
            r.wf(),
            r@ == Seq::new(N as nat, |i: int| 0u8),
    {
        let mut memory: Vec<u8> = Vec::new();
        let mut i: usize = 0;
        while i < N
            invariant
                i <= N,
                memory@.len() == i,
                forall|j: int| 0 <= j < i ==> memory@[j] == 0u8,
            decreases N - i,
        {
            memory.push(0u8);
            i = i + 1;
        }
        let r = Self { memory };
        assert(r@ =~= Seq::new(N as nat, |i: int| 0u8));
        r
    }

    pub fn get_byte(&self, addr: u16) -> (r: u8)
        requires
            self.wf(),
            (addr as int) < N,
        ensures
            r == self@[addr as int],
    {
        self.memory[addr as usize]
    }

    pub fn store_byte(&mut self, addr: u16, byte: u8)
        requires
            old(self).wf(),
            (addr as int) < N,
        ensures
            final(self).wf(),
            final(self)@ == old(self)@.update(addr as int, byte),
    {
        self.memory.set(addr as usize, byte);
    }

    pub fn clear(&mut self)
        requires
            old(self).wf(),
        ensures
            final(self).wf(),
            final(self)@ == Seq::new(N as nat, |i: int| 0u8),
    {
        let mut i: usize = 0;
        while i < self.memory.len()
            invariant
                self.memory@.len() == N,
                i <= N,
                forall|j: int| 0 <= j < i ==> self.memory@[j] == 0u8,
            decreases N - i,
        {
            self.memory.set(i, 0u8);
            i = i + 1;
        }
        assert(self@ =~= Seq::new(N as nat, |i: int| 0u8));
    }
}

impl<const N: usize> Default for MemoryImpl<N> {
    fn default() -> (r: Self)
        ensures
            r.wf(),
            r@ == Seq::new(N as nat, |i: int| 0u8),
    {
        Self::new()
    }
}

/// The CPU's whole 64 KiB address space as plain memory.
impl Memory for MemoryImpl<0x10000> {
    type Model = Seq<u8>;

    open spec fn inv(&self) -> bool {
        self.wf()
    }

    open spec fn model(&self) -> Seq<u8> {
        self@
    }

    open spec fn read_model(m: Seq<u8>, addr: u16) -> u8 {
        if (addr as int) < m.len() {
            m[addr as int]
        } else {
            0
        }
    }

    open spec fn write_model(m: Seq<u8>, addr: u16, byte: u8) -> Seq<u8> {
        if (addr as int) < m.len() {
            m.update(addr as int, byte)
        } else {
            m
        }
    }

    fn get_byte(&self, addr: u16) -> (r: u8) {
        MemoryImpl::<0x10000>::get_byte(self, addr)
    }

    fn store_byte(&mut self, addr: u16, byte: u8) {
        MemoryImpl::<0x10000>::store_byte(self, addr, byte)
    }
}

/// Reading an address of the whole address space gives back the last byte
/// written there, and a write leaves every other address as it was.
pub proof fn law_read_after_write(m: Seq<u8>, addr: u16, other: u16, byte: u8)
    requires
        m.len() == 0x10000,
    ensures
        <MemoryImpl<0x10000> as Memory>::read_model(
            <MemoryImpl<0x10000> as Memory>::write_model(m, addr, byte),
            addr,
        ) == byte,
        other != addr ==> <MemoryImpl<0x10000> as Memory>::read_model(
            <MemoryImpl<0x10000> as Memory>::write_model(m, addr, byte),
            other,
        ) == <MemoryImpl<0x10000> as Memory>::read_model(m, other),
{
}

} // verus!
