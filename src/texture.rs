use vstd::prelude::*;
use crate::types::{decoded_pixel, in_rect, spec_bytes_per_pixel, GpuGlyph, PixelType, Rgba8};

verus! {

/// Pixel storage that glyph bitmaps are written into: a CPU image or a GPU
/// texture. Its size never changes. The spec functions describe a texture to
/// verified callers; one written outside verified code keeps their opaque
/// defaults.
pub trait Texture {
    closed spec fn spec_width(&self) -> u32 {
        arbitrary()
    }

    closed spec fn spec_height(&self) -> u32 {
        arbitrary()
    }

    /// The pixel at column `x`, row `y`.
    closed spec fn spec_pixel(&self, x: int, y: int) -> Rgba8 {
        arbitrary()
    }

    fn width(&self) -> (r: u32)
        ensures
            r == self.spec_width(),
    ;

    fn height(&self) -> (r: u32)
        ensures
            r == self.spec_height(),
    ;

    /// Writes the bitmap `data`, laid out as `pixel` says, into the
    /// rectangle `gpu`; every other pixel keeps its value.
    fn put_rect(&mut self, pixel: PixelType, data: &[u8], gpu: &GpuGlyph)
        requires
            gpu.x + gpu.width <= old(self).spec_width(),
            gpu.y + gpu.height <= old(self).spec_height(),
            data@.len() == gpu.width * gpu.height * spec_bytes_per_pixel(pixel),
        ensures
            final(self).spec_width() == old(self).spec_width(),
            final(self).spec_height() == old(self).spec_height(),
            forall|x: int, y: int|
                0 <= x < old(self).spec_width() && 0 <= y < old(self).spec_height()
                    ==> #[trigger] final(self).spec_pixel(x, y) == if in_rect(*gpu, x, y) {
                    decoded_pixel(pixel, data@, gpu.width as int, x - gpu.x, y - gpu.y)
                } else {
                    old(self).spec_pixel(x, y)
                },
    ;
}

} // verus!
