//! The RGB frame buffer the renderer paints into: 256 by 240 pixels, three
//! bytes each, row-major.

use vstd::prelude::*;

verus! {

/// The frame buffer.
pub struct Frame {
    pub data: Vec<u8>,
}

/// Frame width in pixels.
pub const FRAME_WIDTH: usize = 256;

/// Frame height in pixels.
pub const FRAME_HEIGHT: usize = 240;

/// One pixel painted: the three bytes at the pixel's offset are replaced,
/// and a write that would fall past the buffer is dropped.
pub open spec fn spec_set_pixel(d: Seq<u8>, x: int, y: int, rgb: (u8, u8, u8)) -> Seq<u8> {
    let base = y * 3 * 256 + x * 3;
    if base + 2 < d.len() {
        d.update(base, rgb.0).update(base + 1, rgb.1).update(base + 2, rgb.2)
    } else {
        d
    }
}

impl Frame {
    /// A black frame.
    pub fn new() -> (r: Frame)
        ensures
            r.data@ =~= Seq::new((256 * 240 * 3) as nat, |_i: int| 0u8),
    {
        Frame { data: crate::ppu::zeroed(256 * 240 * 3) }
    }

    /// Paints one pixel, dropping writes that fall past the buffer.
    pub fn set_pixel(&mut self, x: usize, y: usize, rgb: (u8, u8, u8))
        requires
            x < 65536,
            y < 65536,
        ensures
            final(self).data@ == spec_set_pixel(old(self).data@, x as int, y as int, rgb),
    {
        let base = y * 3 * 256 + x * 3;
        if base + 2 < self.data.len() {
            self.data.set(base, rgb.0);
            self.data.set(base + 1, rgb.1);
            self.data.set(base + 2, rgb.2);
        }
    }
}

} // verus!
