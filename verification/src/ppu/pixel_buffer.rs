//! A frame of pixels for the renderer to draw into.

use vstd::array::spec_array_update;
use vstd::prelude::*;

verus! {

/// Columns in a frame.
pub const WIDTH: usize = 256;

/// Lines in a frame.
pub const HEIGHT: usize = 240;

/// Pixels in a frame.
pub const PIXELS: usize = 61440;

/// One word per pixel, line after line; the colour sits in the low byte.
pub struct PixelBuffer(pub [u32; 61440]);

impl PixelBuffer {
    /// A frame of colour zero.
    pub fn new() -> (buffer: Self)
        ensures
            forall|i: int| 0 <= i < PIXELS ==> buffer.0[i] == 0,
    {
        Self([0; 61440])
    }

    /// Gives the pixel in column `x` of line `y` the colour `color`.
    pub fn set_color(&mut self, x: usize, y: usize, color: u8)
        requires
            x < WIDTH,
            y < HEIGHT,
        ensures
            final(self).0 == spec_array_update(old(self).0, (y * WIDTH + x) as int, color as u32),
    {
        let pixel_i = y * WIDTH + x;
        self.0[pixel_i] = color as u32;
    }
}

} // verus!
