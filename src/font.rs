use vstd::prelude::*;
use crate::types::{spec_bytes_per_pixel, Glyph, GlyphKey, Metrics, PixelType};

verus! {

/// A font backend: turns text into glyph ids and glyphs into bitmaps.
///
/// What a backend reports of a glyph is a function of the glyph and its size.
/// The spec functions describe a backend to verified callers; a backend
/// written outside verified code keeps their opaque defaults.
pub trait FontProvider {
    /// The layout of the bitmaps this backend produces.
    closed spec fn spec_pixel_type(&self) -> PixelType {
        arbitrary()
    }

    /// The glyph ids for a text, one per character, in order.
    closed spec fn spec_glyphs(&self, text: Seq<char>) -> Seq<Glyph> {
        arbitrary()
    }

    /// The (width, height) in pixels of a glyph's bitmap.
    closed spec fn spec_size(&self, key: GlyphKey) -> (u32, u32) {
        arbitrary()
    }

    /// The bitmap of a glyph, row-major, top to bottom.
    closed spec fn spec_bitmap(&self, key: GlyphKey) -> Seq<u8> {
        arbitrary()
    }

    fn supports_vertical(&self) -> bool;

    fn pixel_type(&self) -> (r: PixelType)
        ensures
            r == self.spec_pixel_type(),
    ;

    /// Appends the glyph ids of `string` to `glyphs`.
    fn glyphs(&self, string: &str, glyphs: &mut Vec<Glyph>)
        ensures
            final(glyphs)@ == old(glyphs)@ + self.spec_glyphs(string@),
            self.spec_glyphs(string@).len() == string@.len(),
    ;

    fn metrics(&self, key: GlyphKey) -> (m: Metrics)
        ensures
            (m.width, m.height) == self.spec_size(key),
    ;

    fn rasterize(&self, key: GlyphKey) -> (r: Vec<u8>)
        ensures
            r@ == self.spec_bitmap(key),
            r@.len() == self.spec_size(key).0 as int * self.spec_size(key).1 as int
                * spec_bytes_per_pixel(self.spec_pixel_type()),
    ;
}

} // verus!
