//! A cache of rendered glyphs packed into one texture.
//!
//! Strings are turned into glyph ids by a font backend; each glyph is looked
//! up in the cache and, on a miss, rasterized, packed into the texture by a
//! shelf packer, and remembered until the next `clear`.

pub mod types;
pub mod font;
pub mod texture;
pub mod pack;
pub mod cache;
pub mod normalize;
pub mod render;
pub mod image_sink;

pub use cache::Cache;
pub use font::FontProvider;
pub use image_sink::ImageTexture;
pub use pack::Shelf;
pub use render::FontCache;
pub use texture::Texture;
pub use types::{CacheError, Glyph, GlyphKey, GpuGlyph, Metrics, PixelType};
