//! The raster images that the engine holds: their extent, their pixels, and
//! the cut-outs taken from them.

use vstd::prelude::*;
use image::DynamicImage;

verus! {

#[verifier::external_type_specification]
#[verifier::external_body]
pub struct ExDynamicImage(image::DynamicImage);

/// The width and the height of an image, in pixels.
pub uninterp spec fn image_extent(img: DynamicImage) -> (u32, u32);

/// The pixels of an image as red, green, blue and alpha, keyed by column
/// and row.
pub uninterp spec fn image_pixels(img: DynamicImage) -> Map<(int, int), (u8, u8, u8, u8)>;

/// The rectangle that a cut-out at `(x, y)` of `width` by `height` pixels
/// really covers in an image of the given extent: the origin is moved back
/// onto the image, and the size is cut down to what lies inside it.
pub open spec fn clamped_region(extent: (u32, u32), x: u32, y: u32, width: u32, height: u32) -> (
    int,
    int,
    int,
    int,
) {
    let x0 = if x <= extent.0 { x as int } else { extent.0 as int };
    let y0 = if y <= extent.1 { y as int } else { extent.1 as int };
    let w = if width <= extent.0 - x0 { width as int } else { extent.0 - x0 };
    let h = if height <= extent.1 - y0 { height as int } else { extent.1 - y0 };
    (x0, y0, w, h)
}

/// `out` is the cut-out of `source` at `(x, y)` of `width` by `height`
/// pixels: it has the extent of the clamped region and the pixels that
/// `source` has there.
pub open spec fn is_crop_of(
    out: DynamicImage,
    source: DynamicImage,
    x: u32,
    y: u32,
    width: u32,
    height: u32,
) -> bool {
    let (x0, y0, w, h) = clamped_region(image_extent(source), x, y, width, height);
    &&& image_extent(out).0 == w
    &&& image_extent(out).1 == h
    &&& forall|i: int, j: int|
        0 <= i < w && 0 <= j < h ==> #[trigger] image_pixels(out)[(i, j)] == image_pixels(
            source,
        )[(x0 + i, y0 + j)]
}

/// `DynamicImage::width`: the number of pixel columns.
#[verifier::external_body]
pub(crate) fn image_width(img: &DynamicImage) -> (w: u32)
    ensures
        w == image_extent(*img).0,
{
    img.width()
}

/// `DynamicImage::height`: the number of pixel rows.
#[verifier::external_body]
pub(crate) fn image_height(img: &DynamicImage) -> (h: u32)
    ensures
        h == image_extent(*img).1,
{
    img.height()
}

/// `GenericImageView::get_pixel` on a `DynamicImage`: the pixel in column
/// `x` of row `y`, converted to 8-bit RGBA. It panics outside the image,
/// which the precondition excludes.
#[verifier::external_body]
pub(crate) fn image_pixel(img: &DynamicImage, x: u32, y: u32) -> (p: (u8, u8, u8, u8))
    requires
        x < image_extent(*img).0,
        y < image_extent(*img).1,
    ensures
        p == image_pixels(*img)[(x as int, y as int)],
{
    let p = image::GenericImageView::get_pixel(img, x, y);
    (p.0[0], p.0[1], p.0[2], p.0[3])
}

/// `DynamicImage::crop_imm`: a copy of the part of the image inside the
/// given rectangle, after the rectangle has been clamped to the image.
#[verifier::external_body]
pub(crate) fn image_crop(img: &DynamicImage, x: u32, y: u32, width: u32, height: u32) -> (out:
    DynamicImage)
    ensures
        is_crop_of(out, *img, x, y, width, height),
{
    img.crop_imm(x, y, width, height)
}

} // verus!
