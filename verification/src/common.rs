use vstd::prelude::*;

verus! {

pub const PRG_ROM_UNIT_SIZE: usize = 0x4000;
pub const CHR_ROM_UNIT_SIZE: usize = 0x2000;
pub const PRG_RAM_UNIT_SIZE: usize = 0x2000;

pub const CPU_CYCLES_PER_FRAME: u16 = 29780;

/// The picture: 256 by 240 pixels of three bytes (red, green, blue).
pub const FRAME_WIDTH: usize = 256;
pub const FRAME_HEIGHT: usize = 240;
pub const PIXEL_SIZE: usize = 3;

pub const DEFAULT_FPS: u16 = 60;
pub const DOUBLE_FPS: u16 = 120;
pub const HALF_FPS: u16 = 30;

/// How the two physical name tables are mapped into the PPU address space.
#[derive(Copy, Clone, Debug, PartialEq, Eq, Structural)]
pub enum Mirroring {
    Vertical,
    Horizontal,
    SingleScreenLowerBank,
    SingleScreenUpperBank,
}

/// The little-endian word made of a low byte and a high byte.
pub open spec fn word_of(lo: u8, hi: u8) -> u16 {
    (lo as int + 256 * (hi as int)) as u16
}

/// Joins a low byte `b0` and a high byte `b1` into a 16-bit word.
pub fn convert_2u8_to_u16(b0: u8, b1: u8) -> (r: u16)
    ensures
        r == word_of(b0, b1),
        r as int == b0 as int + 256 * (b1 as int),
{
    let r = (b0 as u16) | ((b1 as u16) << 8);
    assert(((b0 as u16) | ((b1 as u16) << 8)) == b0 as u16 + 256 * (b1 as u16)) by (bit_vector);
    r
}

/// The low byte of a word.
pub open spec fn low_byte(w: u16) -> u8 {
    (w % 256) as u8
}

/// The high byte of a word.
pub open spec fn high_byte(w: u16) -> u8 {
    (w / 256) as u8
}

/// Splitting a word into its two bytes and joining them again gives the word back,
/// and joining two bytes and splitting the word gives the bytes back.
pub proof fn law_word_bytes_roundtrip(w: u16, lo: u8, hi: u8)
    ensures
        word_of(low_byte(w), high_byte(w)) == w,
        low_byte(word_of(lo, hi)) == lo,
        high_byte(word_of(lo, hi)) == hi,
{
}

} // verus!
