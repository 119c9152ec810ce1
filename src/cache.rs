use vstd::prelude::*;
use std::collections::HashMap;
use crate::font::FontProvider;
use crate::pack::Shelf;
use crate::texture::Texture;
use crate::types::{decoded_pixel, disjoint, in_rect, CacheError, GlyphKey, GpuGlyph};

verus! {

broadcast use vstd::std_specs::hash::group_hash_axioms;

/// The number that a key is stored under: glyph id in the high half, size
/// bits in the low half.
pub open spec fn key_code(k: GlyphKey) -> u64 {
    (k.glyph.0 as int * 0x1_0000_0000 + k.size as int) as u64
}

proof fn lemma_key_code_injective(a: GlyphKey, b: GlyphKey)
    requires
        key_code(a) == key_code(b),
    ensures
        a == b,
{
    let ga = a.glyph.0 as int;
    let gb = b.glyph.0 as int;
    let sa = a.size as int;
    let sb = b.size as int;
    assert(0 <= ga * 0x1_0000_0000 + sa < 0x1_0000_0000_0000_0000) by (nonlinear_arith)
        requires 0 <= ga < 0x1_0000_0000, 0 <= sa < 0x1_0000_0000;
    assert(0 <= gb * 0x1_0000_0000 + sb < 0x1_0000_0000_0000_0000) by (nonlinear_arith)
        requires 0 <= gb < 0x1_0000_0000, 0 <= sb < 0x1_0000_0000;
    assert(ga == gb && sa == sb) by (nonlinear_arith)
        requires
            ga * 0x1_0000_0000 + sa == gb * 0x1_0000_0000 + sb,
            0 <= sa < 0x1_0000_0000,
            0 <= sb < 0x1_0000_0000,
    ;
}

fn code_of(k: GlyphKey) -> (r: u64)
    ensures
        r == key_code(k),
{
    let g = k.glyph.0 as u64;
    assert(g * 0x1_0000_0000 + k.size as u64 <= u64::MAX) by (nonlinear_arith)
        requires g < 0x1_0000_0000, k.size < 0x1_0000_0000;
    g * 0x1_0000_0000 + k.size as u64
}

/// The placements that a table of codes holds, by key.
pub open spec fn placements_of(m: Map<u64, GpuGlyph>) -> Map<GlyphKey, GpuGlyph> {
    Map::new(|k: GlyphKey| m.contains_key(key_code(k)), |k: GlyphKey| m[key_code(k)])
}

proof fn lemma_placements_insert(m: Map<u64, GpuGlyph>, key: GlyphKey, g: GpuGlyph)
    ensures
        placements_of(m.insert(key_code(key), g)) == placements_of(m).insert(key, g),
{
    assert forall|k: GlyphKey| k != key implies key_code(k) != key_code(key) by {
        if key_code(k) == key_code(key) {
            lemma_key_code_injective(k, key);
        }
    }
    assert(placements_of(m.insert(key_code(key), g)) =~= placements_of(m).insert(key, g));
}

proof fn lemma_placements_empty()
    ensures
        placements_of(Map::empty()) == Map::<GlyphKey, GpuGlyph>::empty(),
{
    assert(placements_of(Map::empty()) =~= Map::<GlyphKey, GpuGlyph>::empty());
}

/// The packing cache: which glyph lies where in the texture, and where the
/// next one goes.
pub struct Cache<F: FontProvider, T: Texture> {
    font: F,
    texture: T,
    map: HashMap<u64, GpuGlyph>,
    shelf: Shelf,
}

impl<F: FontProvider, T: Texture> Cache<F, T> {
    /// The glyphs placed since the last `clear`, and where.
    pub closed spec fn placements(&self) -> Map<GlyphKey, GpuGlyph> {
        placements_of(self.map@)
    }

    pub closed spec fn shelf(&self) -> Shelf {
        self.shelf
    }

    pub closed spec fn font(&self) -> F {
        self.font
    }

    pub closed spec fn texture_view(&self) -> T {
        self.texture
    }

    pub open spec fn tex_width(&self) -> u32 {
        self.texture_view().spec_width()
    }

    pub open spec fn tex_height(&self) -> u32 {
        self.texture_view().spec_height()
    }

    /// Nothing is placed and the packer stands at the origin.
    pub open spec fn is_cleared(&self) -> bool {
        self.placements() == Map::<GlyphKey, GpuGlyph>::empty() && self.shelf() == Shelf::origin()
    }

    /// Whether the texture pixel (x, y), inside the placement of `k`, holds
    /// the matching pixel of that glyph's bitmap.
    pub open spec fn shows(&self, k: GlyphKey, x: int, y: int) -> bool {
        let g = self.placements()[k];
        self.texture_view().spec_pixel(x, y) == decoded_pixel(
            self.font().spec_pixel_type(),
            self.font().spec_bitmap(k),
            g.width as int,
            x - g.x,
            y - g.y,
        )
    }

    /// The cache's invariant: every placement has its glyph's size, lies in
    /// the texture and behind the packer's cursors, shows its glyph, and no
    /// two overlap.
    pub closed spec fn wf(&self) -> bool {
        let p = self.placements();
        &&& self.shelf.wf(self.tex_width(), self.tex_height())
        &&& forall|k: GlyphKey| #[trigger]
            p.contains_key(k) ==> {
                &&& (p[k].width, p[k].height) == self.font.spec_size(k)
                &&& p[k].x + p[k].width <= self.tex_width()
                &&& p[k].y + p[k].height <= self.tex_height()
                &&& self.shelf.covers(p[k])
            }
        &&& forall|a: GlyphKey, b: GlyphKey|
            #![trigger p[a], p[b]]
            p.contains_key(a) && p.contains_key(b) && a != b ==> disjoint(p[a], p[b])
        &&& forall|k: GlyphKey, x: int, y: int|
            p.contains_key(k) && in_rect(p[k], x, y) ==> #[trigger] self.shows(k, x, y)
    }

    /// What resolving `key` does: `r` is the result and `next` the cache
    /// afterwards.
    pub open spec fn resolved(self, key: GlyphKey, r: Result<GpuGlyph, CacheError>, next: Self) -> bool {
        let (w, h) = self.font().spec_size(key);
        let tw = self.tex_width();
        let th = self.tex_height();
        if self.placements().contains_key(key) {
            r == Ok::<GpuGlyph, CacheError>(self.placements()[key]) && next == self
        } else if w > tw || h > th {
            r == Err::<GpuGlyph, CacheError>(CacheError::TextureTooSmall) && next == self
        } else {
            match self.shelf().spec_place(tw, th, w, h) {
                None => r == Err::<GpuGlyph, CacheError>(CacheError::OutOfSpace) && next == self,
                Some((g, s)) => {
                    &&& r == Ok::<GpuGlyph, CacheError>(g)
                    &&& next.placements() == self.placements().insert(key, g)
                    &&& next.shelf() == s
                    &&& next.font() == self.font()
                    &&& next.tex_width() == tw
                    &&& next.tex_height() == th
                    &&& forall|x: int, y: int|
                        0 <= x < tw && 0 <= y < th ==> #[trigger] next.texture_view().spec_pixel(x, y)
                            == if in_rect(g, x, y) {
                            decoded_pixel(
                                self.font().spec_pixel_type(),
                                self.font().spec_bitmap(key),
                                w as int,
                                x - g.x,
                                y - g.y,
                            )
                        } else {
                            self.texture_view().spec_pixel(x, y)
                        }
                },
            }
        }
    }

    pub fn font_ref(&self) -> (r: &F)
        ensures
            *r == self.font(),
    {
        &self.font
    }

    pub fn texture_ref(&self) -> (r: &T)
        ensures
            *r == self.texture_view(),
    {
        &self.texture
    }

    pub fn new(font: F, texture: T) -> (r: Self)
        ensures
            r.wf(),
            r.is_cleared(),
            r.font() == font,
            r.texture_view() == texture,
    {
        let r = Cache { font, texture, map: HashMap::new(), shelf: Shelf::new() };
        proof {
            lemma_placements_empty();
        }
        r
    }

    /// Forgets every placement and moves the packer back to the origin. The
    /// texture's pixels are left as they are.
    pub fn clear(&mut self)
        ensures
            final(self).wf(),
            final(self).is_cleared(),
            final(self).font() == old(self).font(),
            final(self).texture_view() == old(self).texture_view(),
    {
        self.map.clear();
        self.shelf = Shelf::new();
        proof {
            lemma_placements_empty();
        }
    }

    /// Looks `key` up; on a miss, rasterizes the glyph, packs it into the
    /// texture and remembers where it went.
    pub fn render_glyph(&mut self, key: GlyphKey) -> (r: Result<GpuGlyph, CacheError>)
        requires
            old(self).wf(),
        ensures
            final(self).wf(),
            old(self).resolved(key, r, *final(self)),
    {
        let code = code_of(key);
        match self.map.get(&code) {
            Some(g) => {
                return Ok(*g);
            },
            None => {},
        }
        let metrics = self.font.metrics(key);
        let tw = self.texture.width();
        let th = self.texture.height();
        if metrics.width > tw || metrics.height > th {
            return Err(CacheError::TextureTooSmall);
        }
        match self.shelf.place(tw, th, metrics.width, metrics.height) {
            None => Err(CacheError::OutOfSpace),
            Some((gpu, shelf)) => {
                let ghost before = *self;
                let pixel_type = self.font.pixel_type();
                let data = self.font.rasterize(key);
                self.texture.put_rect(pixel_type, data.as_slice(), &gpu);
                self.shelf = shelf;
                self.map.insert(code, gpu);
                proof {
                    lemma_placements_insert(before.map@, key, gpu);
                    let p0 = before.placements();
                    let p = self.placements();
                    assert forall|k: GlyphKey| #[trigger] p0.contains_key(k) implies {
                        &&& shelf.covers(p0[k])
                        &&& disjoint(gpu, p0[k])
                    } by {
                        before.shelf.lemma_place_keeps_cover(tw, th, metrics.width, metrics.height, p0[k]);
                    }
                    assert forall|k: GlyphKey, x: int, y: int|
                        p.contains_key(k) && in_rect(p[k], x, y) implies #[trigger] self.shows(k, x, y) by {
                        if k != key {
                            assert(p[k] == p0[k]);
                            assert(!in_rect(gpu, x, y));
                            assert(before.shows(k, x, y));
                        }
                    }
                    assert forall|a: GlyphKey, b: GlyphKey|
                        #![trigger p[a], p[b]]
                        p.contains_key(a) && p.contains_key(b) && a != b implies disjoint(p[a], p[b]) by {
                        if a != key && b != key {
                            assert(p[a] == p0[a] && p[b] == p0[b]);
                        }
                    }
                }
                Ok(gpu)
            },
        }
    }

    /// Resolving a key a second time, with no `clear` between, gives the
    /// same placement again and changes nothing: no rasterization, no write.
    pub proof fn lemma_hit_idempotent(
        self,
        key: GlyphKey,
        g: GpuGlyph,
        mid: Self,
        r2: Result<GpuGlyph, CacheError>,
        last: Self,
    )
        requires
            self.resolved(key, Ok(g), mid),
            mid.resolved(key, r2, last),
        ensures
            r2 == Ok::<GpuGlyph, CacheError>(g),
            last == mid,
    {
        assert(mid.placements().contains_key(key) && mid.placements()[key] == g);
    }

    /// No two placements of a cache share a pixel.
    pub proof fn lemma_placements_disjoint(self, a: GlyphKey, b: GlyphKey)
        requires
            self.wf(),
            self.placements().contains_key(a),
            self.placements().contains_key(b),
            a != b,
        ensures
            disjoint(self.placements()[a], self.placements()[b]),
    {
    }

    /// The texture holds each cached glyph at its placement: the place a
    /// lookup returns is where the glyph can be sampled.
    pub proof fn lemma_placement_shows_glyph(self, key: GlyphKey, x: int, y: int)
        requires
            self.wf(),
            self.placements().contains_key(key),
            in_rect(self.placements()[key], x, y),
        ensures
            self.shows(key, x, y),
    {
    }

    /// Every placement lies within the texture.
    pub proof fn lemma_placement_in_bounds(self, key: GlyphKey)
        requires
            self.wf(),
            self.placements().contains_key(key),
        ensures
            self.placements()[key].x + self.placements()[key].width <= self.tex_width(),
            self.placements()[key].y + self.placements()[key].height <= self.tex_height(),
    {
    }

    /// A glyph larger than the texture fails with `TextureTooSmall`, whatever
    /// the cache holds.
    pub proof fn lemma_too_small(self, key: GlyphKey, r: Result<GpuGlyph, CacheError>, next: Self)
        requires
            self.wf(),
            self.font().spec_size(key).0 > self.tex_width() || self.font().spec_size(key).1
                > self.tex_height(),
            self.resolved(key, r, next),
        ensures
            r == Err::<GpuGlyph, CacheError>(CacheError::TextureTooSmall),
            next == self,
    {
        if self.placements().contains_key(key) {
            assert(self.shelf.wf(self.tex_width(), self.tex_height()));
        }
    }

    /// Right after a `clear`, a glyph that fits the texture is placed at the
    /// origin.
    pub proof fn lemma_place_after_clear(self, key: GlyphKey, r: Result<GpuGlyph, CacheError>, next: Self)
        requires
            self.is_cleared(),
            self.font().spec_size(key).0 <= self.tex_width(),
            self.font().spec_size(key).1 <= self.tex_height(),
            self.resolved(key, r, next),
        ensures
            r == Ok::<GpuGlyph, CacheError>(
                GpuGlyph {
                    x: 0,
                    y: 0,
                    width: self.font().spec_size(key).0,
                    height: self.font().spec_size(key).1,
                },
            ),
    {
    }
}

} // verus!
