use vstd::prelude::*;

verus! {

/// The index of the font character to render.
#[derive(Clone, Copy, PartialEq, Eq, Structural, Hash, Debug)]
pub struct Glyph(pub u32);

/// A glyph at one rasterization size: the key of the cache.
///
/// The size is kept as the bit pattern of the floating-point size, so that
/// two requests share an entry only when their sizes are bit-identical.
#[derive(Clone, Copy, PartialEq, Eq, Structural, Hash, Debug)]
pub struct GlyphKey {
    pub glyph: Glyph,
    pub size: u32,
}

impl GlyphKey {
    pub fn new(glyph: Glyph, size: u32) -> (r: GlyphKey)
        ensures
            r.glyph == glyph,
            r.size == size,
    {
        GlyphKey { glyph, size }
    }
}

/// Where a glyph lies in the texture.
#[derive(Clone, Copy, PartialEq, Eq, Structural, Hash, Debug)]
pub struct GpuGlyph {
    pub x: u32,
    pub y: u32,
    pub width: u32,
    pub height: u32,
}

/// The rasterized size of a glyph, with the typographic offsets that callers
/// use for layout. The offsets are bit patterns of floating-point values; the
/// cache reads only `width` and `height`.
#[non_exhaustive]
#[derive(Clone, Copy, PartialEq, Eq, Structural, Debug)]
pub struct Metrics {
    pub width: u32,
    pub height: u32,
    pub bearing_x: u32,
    pub advance_x: u32,
    pub bearing_y: u32,
    pub advance_y: u32,
}

impl Metrics {
    pub fn new(width: u32, height: u32, bearing_x: u32, advance_x: u32, bearing_y: u32, advance_y: u32) -> (r: Metrics)
        ensures
            r == (Metrics { width, height, bearing_x, advance_x, bearing_y, advance_y }),
    {
        Metrics { width, height, bearing_x, advance_x, bearing_y, advance_y }
    }
}

#[derive(Clone, Copy, PartialEq, Eq, Structural, Debug)]
pub enum CacheError {
    /// The glyph is larger than the whole texture.
    TextureTooSmall,
    /// The texture has no room left before the next `clear`.
    OutOfSpace,
}

/// The byte layout of a rasterized bitmap.
#[derive(Clone, Copy, PartialEq, Eq, Structural, Debug)]
pub enum PixelType {
    Alpha,
    RGB,
    RGBA,
}

/// One texture pixel as (red, green, blue, alpha).
pub type Rgba8 = (u8, u8, u8, u8);

pub open spec fn spec_bytes_per_pixel(p: PixelType) -> nat {
    match p {
        PixelType::Alpha => 1,
        PixelType::RGB => 3,
        PixelType::RGBA => 4,
    }
}

impl PixelType {
    pub fn bytes_per_pixel(&self) -> (r: u32)
        ensures
            r == spec_bytes_per_pixel(*self),
    {
        match self {
            PixelType::Alpha => 1,
            PixelType::RGB => 3,
            PixelType::RGBA => 4,
        }
    }
}

/// Whether the point `(x, y)` lies inside `g`.
pub open spec fn in_rect(g: GpuGlyph, x: int, y: int) -> bool {
    g.x <= x < g.x + g.width && g.y <= y < g.y + g.height
}

/// Whether two rectangles share no pixel.
pub open spec fn disjoint(a: GpuGlyph, b: GpuGlyph) -> bool {
    a.x + a.width <= b.x || b.x + b.width <= a.x || a.y + a.height <= b.y || b.y + b.height
        <= a.y
}

/// The byte offset of the pixel at column `dx`, row `dy` of a row-major
/// bitmap `width` pixels wide.
pub open spec fn pixel_offset(p: PixelType, width: int, dx: int, dy: int) -> int {
    (dy * width + dx) * spec_bytes_per_pixel(p)
}

/// The texture pixel that the bitmap `data` gives at column `dx`, row `dy`:
/// an alpha byte becomes white with that alpha, an RGB triple becomes opaque,
/// and RGBA is copied.
pub open spec fn decoded_pixel(p: PixelType, data: Seq<u8>, width: int, dx: int, dy: int) -> Rgba8 {
    let i = pixel_offset(p, width, dx, dy);
    match p {
        PixelType::Alpha => (255u8, 255u8, 255u8, data[i]),
        PixelType::RGB => (data[i], data[i + 1], data[i + 2], 255u8),
        PixelType::RGBA => (data[i], data[i + 1], data[i + 2], data[i + 3]),
    }
}

} // verus!
