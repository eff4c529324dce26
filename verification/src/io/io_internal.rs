//! The picture a frontend draws into: one RGB triple per pixel, row by row.
use crate::colors::RgbColor;
use crate::common::{FRAME_HEIGHT, FRAME_WIDTH, PIXEL_SIZE};
use vstd::prelude::*;

verus! {

/// The number of bytes in a picture: 256 by 240 pixels of 3 bytes.
pub const FRAME_SIZE: usize = 184320;

/// Where a pixel's first byte lies: rows of `FRAME_WIDTH` pixels.
pub open spec fn pixel_index(x: usize, y: usize) -> int {
    (y * PIXEL_SIZE * FRAME_WIDTH + x * PIXEL_SIZE) as int
}

/// A picture, all black at first.
pub struct IOInternal {
    frame: [u8; FRAME_SIZE],
}

impl View for IOInternal {
    type V = Seq<u8>;

    closed spec fn view(&self) -> Seq<u8> {
        self.frame@
    }
}

impl IOInternal {
    pub fn new() -> (r: IOInternal)
        ensures
            r@ == Seq::new(FRAME_SIZE as nat, |i: int| 0u8),
    {
        let r = IOInternal { frame: [0u8; FRAME_SIZE] };
        assert(r@ =~= Seq::new(FRAME_SIZE as nat, |i: int| 0u8));
        r
    }

    pub fn get_pixels_slice(&mut self) -> (r: &[u8])
        ensures
            r@ == old(self)@,
            *final(self) == *old(self),
    {
        self.frame.as_slice()
    }

    pub fn get_pixels_slice_const(&self) -> (r: &[u8])
        ensures
            r@ == self@,
    {
        self.frame.as_slice()
    }

    /// A picture always holds `FRAME_SIZE` bytes.
    pub proof fn lemma_frame_len(&self)
        ensures
            self@.len() == FRAME_SIZE,
    {
    }

    /// Paints one pixel; the other bytes stay.
    pub fn set_pixel(&mut self, x: usize, y: usize, color: RgbColor)
        requires
            x < FRAME_WIDTH,
            y < FRAME_HEIGHT,
        ensures
            final(self)@ == old(self)@.update(pixel_index(x, y), color.0).update(pixel_index(x, y) + 1, color.1).update(
                pixel_index(x, y) + 2,
                color.2,
            ),
    {
        let index = y * PIXEL_SIZE * FRAME_WIDTH + x * PIXEL_SIZE;
        self.frame[index] = color.0;
        self.frame[index + 1] = color.1;
        self.frame[index + 2] = color.2;
    }
}

} // verus!
