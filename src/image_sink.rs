use vstd::prelude::*;
use image::{ImageBuffer, Rgba};
use crate::texture::Texture;
use crate::types::{decoded_pixel, in_rect, pixel_offset, spec_bytes_per_pixel, GpuGlyph, PixelType, Rgba8};

verus! {

/// An RGBA image of the `image` crate, used as a texture: four bytes per
/// pixel, rows top to bottom.
#[verifier::external_body]
pub struct ImageTexture {
    img: ImageBuffer<Rgba<u8>, Vec<u8>>,
}

/// The (width, height) of an image texture.
pub uninterp spec fn image_size(img: ImageTexture) -> (u32, u32);

/// The pixels of an image texture, by (column, row).
pub uninterp spec fn image_pixels(img: ImageTexture) -> Map<(int, int), Rgba8>;

/// Relies on image's `ImageBuffer::new`: an image of the given size whose
/// samples are all zero; it panics where the sample count overflows usize.
#[verifier::external_body]
fn image_new(width: u32, height: u32) -> (r: ImageTexture)
    requires
        width as int * height as int * 4 <= usize::MAX,
    ensures
        image_size(r) == (width, height),
        forall|x: int, y: int|
            0 <= x < width && 0 <= y < height ==> #[trigger] image_pixels(r)[(x, y)] == (
            0u8,
            0u8,
            0u8,
            0u8,
        ),
{
    ImageTexture { img: ImageBuffer::new(width, height) }
}

/// Relies on image's `ImageBuffer::width`: the width the image was made with.
#[verifier::external_body]
fn image_width(t: &ImageTexture) -> (r: u32)
    ensures
        r == image_size(*t).0,
{
    t.img.width()
}

/// Relies on image's `ImageBuffer::height`: the height the image was made with.
#[verifier::external_body]
fn image_height(t: &ImageTexture) -> (r: u32)
    ensures
        r == image_size(*t).1,
{
    t.img.height()
}

/// Relies on image's `ImageBuffer::get_pixel`: the four samples of pixel
/// (x, y); it panics outside the image.
#[verifier::external_body]
fn image_get_pixel(t: &ImageTexture, x: u32, y: u32) -> (r: Rgba8)
    requires
        x < image_size(*t).0,
        y < image_size(*t).1,
    ensures
        r == image_pixels(*t)[(x as int, y as int)],
{
    let p = t.img.get_pixel(x, y);
    (p.0[0], p.0[1], p.0[2], p.0[3])
}

/// Relies on image's `ImageBuffer::put_pixel`: it overwrites the four samples
/// of pixel (x, y) and no others; it panics outside the image.
#[verifier::external_body]
fn image_put_pixel(t: &mut ImageTexture, x: u32, y: u32, px: Rgba8)
    requires
        x < image_size(*old(t)).0,
        y < image_size(*old(t)).1,
    ensures
        image_size(*final(t)) == image_size(*old(t)),
        image_pixels(*final(t)) == image_pixels(*old(t)).insert((x as int, y as int), px),
{
    t.img.put_pixel(x, y, Rgba([px.0, px.1, px.2, px.3]))
}

impl ImageTexture {
    /// A fully transparent black image of `width` by `height` pixels.
    pub fn new(width: u32, height: u32) -> (r: ImageTexture)
        requires
            width as int * height as int * 4 <= usize::MAX,
        ensures
            r.spec_width() == width,
            r.spec_height() == height,
            forall|x: int, y: int|
                0 <= x < width && 0 <= y < height ==> #[trigger] r.spec_pixel(x, y) == (
                0u8,
                0u8,
                0u8,
                0u8,
            ),
    {
        image_new(width, height)
    }

    /// The pixel at column `x`, row `y`.
    pub fn pixel(&self, x: u32, y: u32) -> (r: Rgba8)
        requires
            x < self.spec_width(),
            y < self.spec_height(),
        ensures
            r == self.spec_pixel(x as int, y as int),
    {
        image_get_pixel(self, x, y)
    }
}

/// Whether the bitmap pixel at column `cx`, row `cy` comes before the one at
/// column `dx`, row `dy` in row-major order.
pub open spec fn written_before(cx: int, cy: int, dx: int, dy: int) -> bool {
    cy < dy || (cy == dy && cx < dx)
}

/// Reads the texture pixel at column `dx`, row `dy` of a bitmap.
fn decode_pixel(pixel: PixelType, data: &[u8], width: u32, dx: u32, dy: u32) -> (r: Rgba8)
    requires
        dx < width,
        (dy as int * width as int + dx as int + 1) * spec_bytes_per_pixel(pixel) <= data@.len(),
    ensures
        r == decoded_pixel(pixel, data@, width as int, dx as int, dy as int),
{
    let bpp = pixel.bytes_per_pixel();
    let ghost n = dy as int * width as int + dx as int;
    assert(n * bpp + bpp <= data@.len()) by (nonlinear_arith)
        requires (n + 1) * spec_bytes_per_pixel(pixel) <= data@.len(), bpp == spec_bytes_per_pixel(pixel);
    assert(n * bpp == pixel_offset(pixel, width as int, dx as int, dy as int));
    let _len = data.len();
    assert(n <= n * bpp) by (nonlinear_arith)
        requires n >= 0, bpp >= 1;
    assert(dy as int * width as int <= n);
    let i = (dy as usize * width as usize + dx as usize) * bpp as usize;
    match pixel {
        PixelType::Alpha => (255u8, 255u8, 255u8, data[i]),
        PixelType::RGB => (data[i], data[i + 1], data[i + 2], 255u8),
        PixelType::RGBA => (data[i], data[i + 1], data[i + 2], data[i + 3]),
    }
}

impl Texture for ImageTexture {
    open spec fn spec_width(&self) -> u32 {
        image_size(*self).0
    }

    open spec fn spec_height(&self) -> u32 {
        image_size(*self).1
    }

    open spec fn spec_pixel(&self, x: int, y: int) -> Rgba8 {
        image_pixels(*self)[(x, y)]
    }

    fn width(&self) -> (r: u32) {
        image_width(self)
    }

    fn height(&self) -> (r: u32) {
        image_height(self)
    }

    fn put_rect(&mut self, pixel: PixelType, data: &[u8], gpu: &GpuGlyph) {
        let ghost orig = *self;
        let ghost size = image_size(orig);
        let mut dy: u32 = 0;
        while dy < gpu.height
            invariant
                dy <= gpu.height,
                gpu.x + gpu.width <= size.0,
                gpu.y + gpu.height <= size.1,
                data@.len() == gpu.width * gpu.height * spec_bytes_per_pixel(pixel),
                image_size(*self) == size,
                forall|x: int, y: int|
                    0 <= x < size.0 && 0 <= y < size.1 ==> #[trigger] image_pixels(*self)[(x, y)]
                        == if in_rect(*gpu, x, y) && written_before(x - gpu.x, y - gpu.y, 0, dy as int) {
                        decoded_pixel(pixel, data@, gpu.width as int, x - gpu.x, y - gpu.y)
                    } else {
                        image_pixels(orig)[(x, y)]
                    },
            decreases gpu.height - dy,
        {
            let mut dx: u32 = 0;
            while dx < gpu.width
                invariant
                    dx <= gpu.width,
                    dy < gpu.height,
                    gpu.x + gpu.width <= size.0,
                    gpu.y + gpu.height <= size.1,
                    data@.len() == gpu.width * gpu.height * spec_bytes_per_pixel(pixel),
                    image_size(*self) == size,
                    forall|x: int, y: int|
                        0 <= x < size.0 && 0 <= y < size.1 ==> #[trigger] image_pixels(*self)[(x, y)]
                            == if in_rect(*gpu, x, y) && written_before(x - gpu.x, y - gpu.y, dx as int, dy as int) {
                            decoded_pixel(pixel, data@, gpu.width as int, x - gpu.x, y - gpu.y)
                        } else {
                            image_pixels(orig)[(x, y)]
                        },
                decreases gpu.width - dx,
            {
                let ghost w = gpu.width as int;
                let ghost h = gpu.height as int;
                assert((dy as int * w + dx as int + 1) * spec_bytes_per_pixel(pixel) <= w * h
                    * spec_bytes_per_pixel(pixel)) by (nonlinear_arith)
                    requires 0 <= dy < h, 0 <= dx < w, spec_bytes_per_pixel(pixel) >= 1;
                let px = decode_pixel(pixel, data, gpu.width, dx, dy);
                image_put_pixel(self, gpu.x + dx, gpu.y + dy, px);
                dx = dx + 1;
            }
            dy = dy + 1;
        }
    }
}

} // verus!
