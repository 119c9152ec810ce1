use vstd::prelude::*;
use crate::cache::Cache;
use crate::font::FontProvider;
use crate::normalize::{nfc, nfc_of};
use crate::texture::Texture;
use crate::types::{CacheError, Glyph, GlyphKey, GpuGlyph};

verus! {

/// The keys of `glyphs` at the size `size`.
pub open spec fn keys_at(glyphs: Seq<Glyph>, size: u32) -> Seq<GlyphKey> {
    glyphs.map_values(|g: Glyph| GlyphKey { glyph: g, size })
}

/// A glyph cache over one font and one texture.
///
/// `render_string` queues the glyphs of a text; each call of `next_glyph`
/// then resolves the next one of them, so that a glyph is rasterized only
/// when its result is asked for.
pub struct FontCache<F: FontProvider, T: Texture> {
    glyph_buffer: Vec<Glyph>,
    next: usize,
    size: u32,
    cache: Cache<F, T>,
}

impl<F: FontProvider, T: Texture> FontCache<F, T> {
    pub closed spec fn cache(&self) -> Cache<F, T> {
        self.cache
    }

    /// The keys queued by the last `render_string` and not yet resolved.
    pub closed spec fn pending(&self) -> Seq<GlyphKey> {
        keys_at(self.glyph_buffer@.subrange(self.next as int, self.glyph_buffer@.len() as int), self.size)
    }

    pub closed spec fn wf(&self) -> bool {
        self.cache.wf() && self.next <= self.glyph_buffer@.len()
    }

    pub fn new(font: F, texture: T) -> (r: Self)
        ensures
            r.wf(),
            r.cache().is_cleared(),
            r.cache().font() == font,
            r.cache().texture_view() == texture,
            r.pending().len() == 0,
    {
        FontCache { glyph_buffer: Vec::new(), next: 0, size: 0, cache: Cache::new(font, texture) }
    }

    /// Forgets every placement; see `Cache::clear`.
    pub fn clear(&mut self)
        requires
            old(self).wf(),
        ensures
            final(self).wf(),
            final(self).cache().is_cleared(),
            final(self).cache().font() == old(self).cache().font(),
            final(self).cache().texture_view() == old(self).cache().texture_view(),
            final(self).pending() == old(self).pending(),
    {
        self.cache.clear();
    }

    /// Resolves one key; see `Cache::render_glyph`.
    pub fn render_glyph(&mut self, key: GlyphKey) -> (r: Result<GpuGlyph, CacheError>)
        requires
            old(self).wf(),
        ensures
            final(self).wf(),
            old(self).cache().resolved(key, r, final(self).cache()),
            final(self).pending() == old(self).pending(),
    {
        self.cache.render_glyph(key)
    }

    /// Queues the glyphs of `string`, taken as it is, at the size whose bit
    /// pattern is `size`, in place of whatever was queued before. Nothing is
    /// resolved yet.
    pub fn queue_string(&mut self, string: &str, size: u32)
        requires
            old(self).wf(),
        ensures
            final(self).wf(),
            final(self).cache() == old(self).cache(),
            final(self).pending() == keys_at(old(self).cache().font().spec_glyphs(string@), size),
    {
        self.glyph_buffer.clear();
        self.next = 0;
        self.size = size;
        self.cache.font_ref().glyphs(string, &mut self.glyph_buffer);
        assert(self.glyph_buffer@.subrange(0, self.glyph_buffer@.len() as int) =~= self.glyph_buffer@);
    }

    /// Queues the glyphs of `string` after canonical composition (NFC).
    pub fn render_string(&mut self, string: &str, size: u32)
        requires
            old(self).wf(),
        ensures
            final(self).wf(),
            final(self).cache() == old(self).cache(),
            final(self).pending() == keys_at(old(self).cache().font().spec_glyphs(nfc_of(string@)), size),
    {
        let normalized = nfc(string);
        self.queue_string(normalized.as_str(), size);
    }

    /// Resolves the next queued glyph; `None` once the queue is empty.
    pub fn next_glyph(&mut self) -> (r: Option<Result<GpuGlyph, CacheError>>)
        requires
            old(self).wf(),
        ensures
            final(self).wf(),
            old(self).pending().len() == 0 ==> r is None && *final(self) == *old(self),
            old(self).pending().len() > 0 ==> {
                &&& r matches Some(res) && old(self).cache().resolved(old(self).pending()[0], res, final(self).cache())
                &&& final(self).pending() == old(self).pending().drop_first()
            },
    {
        if self.next >= self.glyph_buffer.len() {
            return None;
        }
        let glyph = self.glyph_buffer[self.next];
        let key = GlyphKey { glyph, size: self.size };
        let ghost buf = self.glyph_buffer@;
        let ghost i = self.next as int;
        assert(buf.subrange(i + 1, buf.len() as int) =~= buf.subrange(i, buf.len() as int).drop_first());
        self.next = self.next + 1;
        Some(self.cache.render_glyph(key))
    }

    /// The texture, for presenting or saving.
    pub fn texture(&self) -> (r: &T)
        ensures
            *r == self.cache().texture_view(),
    {
        self.cache.texture_ref()
    }
}

} // verus!
