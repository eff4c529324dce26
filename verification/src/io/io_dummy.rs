//! A frontend that shows nothing: it keeps the picture and has no keys.
use super::io_internal::{pixel_index, IOInternal, FRAME_SIZE};
use crate::colors::RgbColor;
use crate::common::{FRAME_HEIGHT, FRAME_WIDTH};
use vstd::prelude::*;

verus! {

pub struct IODummy {
    io_internal: IOInternal,
}

impl View for IODummy {
    type V = Seq<u8>;

    closed spec fn view(&self) -> Seq<u8> {
        self.io_internal@
    }
}

impl IODummy {
    /// A black picture.
    pub fn new(_name: &str) -> (r: IODummy)
        ensures
            r@ == Seq::new(184320, |i: int| 0u8),
    {
        IODummy { io_internal: IOInternal::new() }
    }

    /// The picture always holds `FRAME_SIZE` bytes.
    pub proof fn lemma_frame_len(&self)
        ensures
            self@.len() == FRAME_SIZE,
    {
        self.io_internal.lemma_frame_len();
    }

    /// Nothing to show.
    pub fn present_frame(&mut self)
        ensures
            final(self)@ == old(self)@,
    {
    }

    pub fn set_pixel(&mut self, x: usize, y: usize, color: RgbColor)
        requires
            x < FRAME_WIDTH,
            y < FRAME_HEIGHT,
        ensures
            final(self)@ == old(self)@.update(pixel_index(x, y), color.0).update(pixel_index(x, y) + 1, color.1).update(
                pixel_index(x, y) + 2,
                color.2,
            ),
    {
        self.io_internal.set_pixel(x, y, color);
    }

    /// The picture's bytes.
    pub fn pixels(&self) -> (r: &[u8])
        ensures
            r@ == self@,
    {
        self.io_internal.get_pixels_slice_const()
    }
}

} // verus!
