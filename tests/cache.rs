use std::cell::Cell;
use std::rc::Rc;

use font_cache::font::FontProvider;
use font_cache::image_sink::ImageTexture;
use font_cache::render::FontCache;
use font_cache::texture::Texture;
use font_cache::types::{CacheError, Glyph, GlyphKey, GpuGlyph, Metrics, PixelType};

/// A font whose glyph `g` is `sizes(g)` pixels large, filled with the byte
/// `g`, counting its rasterizations.
struct TestFont {
    sizes: fn(u32) -> (u32, u32),
    pixel: PixelType,
    rasterized: Rc<Cell<usize>>,
}

impl FontProvider for TestFont {
    fn supports_vertical(&self) -> bool {
        false
    }

    fn pixel_type(&self) -> PixelType {
        self.pixel
    }

    fn glyphs(&self, string: &str, glyphs: &mut Vec<Glyph>) {
        for c in string.chars() {
            glyphs.push(Glyph(c as u32));
        }
    }

    fn metrics(&self, key: GlyphKey) -> Metrics {
        let (w, h) = (self.sizes)(key.glyph.0);
        Metrics::new(w, h, 0, 0, 0, 0)
    }

    fn rasterize(&self, key: GlyphKey) -> Vec<u8> {
        self.rasterized.set(self.rasterized.get() + 1);
        let (w, h) = (self.sizes)(key.glyph.0);
        vec![key.glyph.0 as u8; (w * h * self.pixel.bytes_per_pixel()) as usize]
    }
}

/// A texture that records nothing but how often it was written.
struct CountingTexture {
    width: u32,
    height: u32,
    writes: Rc<Cell<usize>>,
}

impl Texture for CountingTexture {
    fn width(&self) -> u32 {
        self.width
    }

    fn height(&self) -> u32 {
        self.height
    }

    fn put_rect(&mut self, _pixel: PixelType, _data: &[u8], _gpu: &GpuGlyph) {
        self.writes.set(self.writes.get() + 1);
    }
}

fn counting_cache(
    width: u32,
    height: u32,
    sizes: fn(u32) -> (u32, u32),
) -> (FontCache<TestFont, CountingTexture>, Rc<Cell<usize>>, Rc<Cell<usize>>) {
    let rasterized = Rc::new(Cell::new(0));
    let writes = Rc::new(Cell::new(0));
    let font = TestFont { sizes, pixel: PixelType::Alpha, rasterized: rasterized.clone() };
    let texture = CountingTexture { width, height, writes: writes.clone() };
    (FontCache::new(font, texture), rasterized, writes)
}

fn key(g: u32) -> GlyphKey {
    GlyphKey::new(Glyph(g), 24.0f32.to_bits())
}

fn rect(x: u32, y: u32, width: u32, height: u32) -> GpuGlyph {
    GpuGlyph { x, y, width, height }
}

#[test]
fn cache_hit_is_idempotent() {
    let (mut cache, rasterized, writes) = counting_cache(32, 32, |_| (5, 7));
    let first = cache.render_glyph(key(3));
    assert_eq!(first, Ok(rect(0, 0, 5, 7)));
    assert_eq!((rasterized.get(), writes.get()), (1, 1));
    let second = cache.render_glyph(key(3));
    assert_eq!(second, first);
    assert_eq!((rasterized.get(), writes.get()), (1, 1));
}

#[test]
fn sizes_with_other_bits_are_other_keys() {
    let (mut cache, rasterized, _) = counting_cache(32, 32, |_| (4, 4));
    let a = cache.render_glyph(GlyphKey::new(Glyph(1), 12.0f32.to_bits()));
    let b = cache.render_glyph(GlyphKey::new(Glyph(1), 12.5f32.to_bits()));
    assert_eq!(a, Ok(rect(0, 0, 4, 4)));
    assert_eq!(b, Ok(rect(4, 0, 4, 4)));
    assert_eq!(rasterized.get(), 2);
}

#[test]
fn row_wrap_scenario() {
    let (mut cache, _, _) = counting_cache(10, 10, |_| (6, 4));
    assert_eq!(cache.render_glyph(key(1)), Ok(rect(0, 0, 6, 4)));
    assert_eq!(cache.render_glyph(key(2)), Ok(rect(0, 4, 6, 4)));
}

#[test]
fn row_keeps_tallest_height() {
    let (mut cache, _, _) = counting_cache(10, 20, |g| (4, g));
    assert_eq!(cache.render_glyph(key(3)), Ok(rect(0, 0, 4, 3)));
    assert_eq!(cache.render_glyph(key(5)), Ok(rect(4, 0, 4, 5)));
    assert_eq!(cache.render_glyph(key(2)), Ok(rect(0, 5, 4, 2)));
}

#[test]
fn out_of_space_then_recovery() {
    let (mut cache, rasterized, _) = counting_cache(8, 8, |_| (5, 5));
    assert_eq!(cache.render_glyph(key(1)), Ok(rect(0, 0, 5, 5)));
    assert_eq!(cache.render_glyph(key(2)), Err(CacheError::OutOfSpace));
    assert_eq!(cache.render_glyph(key(2)), Err(CacheError::OutOfSpace));
    assert_eq!(rasterized.get(), 1);
    cache.clear();
    assert_eq!(cache.render_glyph(key(2)), Ok(rect(0, 0, 5, 5)));
}

#[test]
fn texture_too_small_whatever_the_state() {
    let (mut cache, rasterized, _) = counting_cache(10, 10, |g| if g == 9 { (11, 1) } else { (3, 3) });
    assert_eq!(cache.render_glyph(key(9)), Err(CacheError::TextureTooSmall));
    assert!(cache.render_glyph(key(1)).is_ok());
    assert!(cache.render_glyph(key(2)).is_ok());
    assert_eq!(cache.render_glyph(key(9)), Err(CacheError::TextureTooSmall));
    cache.clear();
    assert_eq!(cache.render_glyph(key(9)), Err(CacheError::TextureTooSmall));
    assert_eq!(rasterized.get(), 2);
}

#[test]
fn too_tall_glyph_is_too_small() {
    let (mut cache, _, _) = counting_cache(10, 10, |_| (1, 11));
    assert_eq!(cache.render_glyph(key(1)), Err(CacheError::TextureTooSmall));
}

#[test]
fn placements_stay_in_bounds_and_apart() {
    let (mut cache, _, _) = counting_cache(23, 17, |g| (1 + g % 7, 1 + g % 5));
    let mut placed: Vec<GpuGlyph> = Vec::new();
    for g in 0..200 {
        if let Ok(r) = cache.render_glyph(key(g)) {
            assert!(r.x + r.width <= 23 && r.y + r.height <= 17);
            placed.push(r);
        }
    }
    assert!(placed.len() > 10);
    for (i, a) in placed.iter().enumerate() {
        for b in placed.iter().skip(i + 1) {
            let apart = a.x + a.width <= b.x
                || b.x + b.width <= a.x
                || a.y + a.height <= b.y
                || b.y + b.height <= a.y;
            assert!(apart, "{:?} overlaps {:?}", a, b);
        }
    }
}

#[test]
fn render_string_is_lazy() {
    let (mut cache, rasterized, _) = counting_cache(64, 64, |_| (2, 2));
    cache.render_string("abc", 16.0f32.to_bits());
    assert_eq!(rasterized.get(), 0);
    assert_eq!(cache.next_glyph(), Some(Ok(rect(0, 0, 2, 2))));
    assert_eq!(rasterized.get(), 1);
    assert_eq!(cache.next_glyph(), Some(Ok(rect(2, 0, 2, 2))));
    assert_eq!(rasterized.get(), 2);
    assert_eq!(cache.next_glyph(), Some(Ok(rect(4, 0, 2, 2))));
    assert_eq!(cache.next_glyph(), None);
    assert_eq!(rasterized.get(), 3);
}

#[test]
fn render_string_repeats_hit_the_cache() {
    let (mut cache, rasterized, _) = counting_cache(64, 64, |_| (2, 2));
    cache.render_string("aba", 16.0f32.to_bits());
    let mut results = Vec::new();
    while let Some(r) = cache.next_glyph() {
        results.push(r);
    }
    assert_eq!(results, vec![Ok(rect(0, 0, 2, 2)), Ok(rect(2, 0, 2, 2)), Ok(rect(0, 0, 2, 2))]);
    assert_eq!(rasterized.get(), 2);
}

#[test]
fn render_string_keeps_going_after_errors() {
    let (mut cache, _, _) = counting_cache(4, 4, |g| if g == 'x' as u32 { (9, 9) } else { (4, 4) });
    cache.render_string("axb", 16.0f32.to_bits());
    assert_eq!(cache.next_glyph(), Some(Ok(rect(0, 0, 4, 4))));
    assert_eq!(cache.next_glyph(), Some(Err(CacheError::TextureTooSmall)));
    assert_eq!(cache.next_glyph(), Some(Err(CacheError::OutOfSpace)));
    assert_eq!(cache.next_glyph(), None);
}

#[test]
fn render_string_composes_canonically() {
    let (mut cache, _, _) = counting_cache(64, 64, |_| (2, 2));
    cache.render_string("e\u{301}", 16.0f32.to_bits());
    let mut n = 0;
    while cache.next_glyph().is_some() {
        n += 1;
    }
    assert_eq!(n, 1);
    cache.queue_string("e\u{301}", 16.0f32.to_bits());
    let mut m = 0;
    while cache.next_glyph().is_some() {
        m += 1;
    }
    assert_eq!(m, 2);
}

#[test]
fn render_string_replaces_the_queue() {
    let (mut cache, rasterized, _) = counting_cache(64, 64, |_| (2, 2));
    cache.render_string("abc", 16.0f32.to_bits());
    cache.render_string("z", 16.0f32.to_bits());
    assert_eq!(cache.next_glyph(), Some(Ok(rect(0, 0, 2, 2))));
    assert_eq!(cache.next_glyph(), None);
    assert_eq!(rasterized.get(), 1);
}

#[test]
fn alpha_expansion() {
    let mut tex = ImageTexture::new(4, 4);
    tex.put_rect(PixelType::Alpha, &[10, 20, 30, 40], &rect(0, 0, 2, 2));
    assert_eq!(tex.pixel(0, 0), (255, 255, 255, 10));
    assert_eq!(tex.pixel(1, 0), (255, 255, 255, 20));
    assert_eq!(tex.pixel(0, 1), (255, 255, 255, 30));
    assert_eq!(tex.pixel(1, 1), (255, 255, 255, 40));
    assert_eq!(tex.pixel(2, 0), (0, 0, 0, 0));
    assert_eq!(tex.pixel(0, 2), (0, 0, 0, 0));
}

#[test]
fn rgba_copy_at_offset() {
    let mut tex = ImageTexture::new(4, 3);
    let data: Vec<u8> = (1..=16).collect();
    tex.put_rect(PixelType::RGBA, &data, &rect(1, 1, 2, 2));
    assert_eq!(tex.pixel(1, 1), (1, 2, 3, 4));
    assert_eq!(tex.pixel(2, 1), (5, 6, 7, 8));
    assert_eq!(tex.pixel(1, 2), (9, 10, 11, 12));
    assert_eq!(tex.pixel(2, 2), (13, 14, 15, 16));
    assert_eq!(tex.pixel(0, 0), (0, 0, 0, 0));
    assert_eq!(tex.pixel(3, 1), (0, 0, 0, 0));
}

#[test]
fn rgb_becomes_opaque() {
    let mut tex = ImageTexture::new(2, 1);
    tex.put_rect(PixelType::RGB, &[1, 2, 3, 4, 5, 6], &rect(0, 0, 2, 1));
    assert_eq!(tex.pixel(0, 0), (1, 2, 3, 255));
    assert_eq!(tex.pixel(1, 0), (4, 5, 6, 255));
}

#[test]
fn image_texture_size() {
    let tex = ImageTexture::new(7, 5);
    assert_eq!((tex.width(), tex.height()), (7, 5));
}

#[test]
fn glyphs_land_in_the_image() {
    let rasterized = Rc::new(Cell::new(0));
    let font = TestFont { sizes: |_| (2, 1), pixel: PixelType::Alpha, rasterized };
    let mut cache = FontCache::new(font, ImageTexture::new(4, 4));
    assert_eq!(cache.render_glyph(key(7)), Ok(rect(0, 0, 2, 1)));
    assert_eq!(cache.render_glyph(key(9)), Ok(rect(2, 0, 2, 1)));
    let tex = cache.texture();
    assert_eq!(tex.pixel(0, 0), (255, 255, 255, 7));
    assert_eq!(tex.pixel(1, 0), (255, 255, 255, 7));
    assert_eq!(tex.pixel(2, 0), (255, 255, 255, 9));
    assert_eq!(tex.pixel(0, 1), (0, 0, 0, 0));
    cache.clear();
    assert_eq!(cache.texture().pixel(2, 0), (255, 255, 255, 9));
}

#[test]
fn bytes_per_pixel_of_each_layout() {
    assert_eq!(PixelType::Alpha.bytes_per_pixel(), 1);
    assert_eq!(PixelType::RGB.bytes_per_pixel(), 3);
    assert_eq!(PixelType::RGBA.bytes_per_pixel(), 4);
}

#[test]
fn empty_string_yields_nothing() {
    let (mut cache, rasterized, _) = counting_cache(8, 8, |_| (2, 2));
    cache.render_string("", 16.0f32.to_bits());
    assert_eq!(cache.next_glyph(), None);
    assert_eq!(rasterized.get(), 0);
}

#[test]
fn glyph_as_large_as_the_texture_fits() {
    let (mut cache, _, _) = counting_cache(10, 10, |g| if g == 1 { (10, 10) } else { (1, 1) });
    assert_eq!(cache.render_glyph(key(1)), Ok(rect(0, 0, 10, 10)));
    assert_eq!(cache.render_glyph(key(2)), Err(CacheError::OutOfSpace));
}

#[test]
fn clear_moves_back_to_the_origin() {
    let (mut cache, rasterized, _) = counting_cache(10, 10, |_| (3, 3));
    assert_eq!(cache.render_glyph(key(1)), Ok(rect(0, 0, 3, 3)));
    assert_eq!(cache.render_glyph(key(2)), Ok(rect(3, 0, 3, 3)));
    cache.clear();
    assert_eq!(cache.render_glyph(key(2)), Ok(rect(0, 0, 3, 3)));
    assert_eq!(cache.render_glyph(key(1)), Ok(rect(3, 0, 3, 3)));
    assert_eq!(rasterized.get(), 4);
}
