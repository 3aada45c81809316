//! The pixel buffers that a capture produces, and the two operations on them
//! that the capture service needs: decoding an encoded buffer and cutting a
//! rectangle out of a decoded image. Both are done by the `image` crate.

use image::DynamicImage;
use image::GenericImageView;
use image::ImageError;
use vstd::prelude::*;

verus! {

/// `image::DynamicImage`: a decoded image in any of the pixel formats of
/// the `image` crate. Nothing of its inside is known here but what
/// `image_rows` and `image_width` name.
#[verifier::external_type_specification]
#[verifier::external_body]
pub struct ExDynamicImage(DynamicImage);

/// `image::ImageError`: why the `image` crate could not decode. Opaque.
#[verifier::external_type_specification]
#[verifier::external_body]
pub struct ExImageError(ImageError);

/// A rectangle of whole physical pixels inside an image.
#[derive(Clone, Copy, Debug, PartialEq, Eq, Structural)]
pub struct PixelRect {
    pub x: u32,
    pub y: u32,
    pub width: u32,
    pub height: u32,
}

/// The pixels of an image as rows from top to bottom, each pixel as the
/// red, green, blue and alpha value that `GenericImageView::get_pixel`
/// reports for it.
pub uninterp spec fn image_rows(image: DynamicImage) -> Seq<Seq<(u8, u8, u8, u8)>>;

/// The number of pixels in each row of an image.
pub uninterp spec fn image_width(image: DynamicImage) -> nat;

/// The image that an encoded buffer decodes to, if it decodes at all.
pub uninterp spec fn decoded_image(bytes: Seq<u8>) -> Option<DynamicImage>;

/// The number of rows of an image.
pub open spec fn image_height(image: DynamicImage) -> nat {
    image_rows(image).len()
}

/// The part of `rect` that lies inside an image of the given size. A
/// rectangle that starts outside the image keeps nothing.
pub open spec fn clip_to_image(rect: PixelRect, width: nat, height: nat) -> PixelRect {
    let x = if rect.x <= width { rect.x as nat } else { width };
    let y = if rect.y <= height { rect.y as nat } else { height };
    PixelRect {
        x: x as u32,
        y: y as u32,
        width: (if rect.width <= width - x { rect.width as nat } else { (width - x) as nat }) as u32,
        height: (if rect.height <= height - y { rect.height as nat } else { (height - y) as nat }) as u32,
    }
}

/// The part of `rect` that lies inside `source`.
pub open spec fn kept_rect(source: DynamicImage, rect: PixelRect) -> PixelRect {
    clip_to_image(rect, image_width(source), image_height(source))
}

/// `cut` holds exactly the pixels of `source` inside `rect`, after `rect`
/// has been clipped to `source`.
pub open spec fn is_cutout(cut: DynamicImage, source: DynamicImage, rect: PixelRect) -> bool {
    let kept = kept_rect(source, rect);
    &&& image_width(cut) == kept.width
    &&& image_height(cut) == kept.height
    &&& forall|row: int|
        0 <= row < kept.height ==> #[trigger] image_rows(cut)[row] == image_rows(source)[kept.y
            + row].subrange(kept.x as int, kept.x + kept.width)
}

/// Where the first sample of the pixel in column `x` of row `y` stands in a
/// buffer of rows of three samples per pixel.
pub open spec fn sample_index(width: u32, x: int, y: int) -> int {
    3 * (y * width + x)
}

/// Builds an image from a buffer of red, green and blue samples, row after
/// row, with `RgbImage::from_raw` and `DynamicImage::ImageRgb8`. Trusted:
/// there is an image when the buffer holds enough samples for the given
/// size, and its pixels are those of the buffer, all opaque.
#[verifier::external_body]
pub(crate) fn rgb_image(width: u32, height: u32, samples: Vec<u8>) -> (r: Option<DynamicImage>)
    ensures
        r is Some <==> samples@.len() >= 3 * width * height,
        r is Some ==> image_width(r->0) == width && image_rows(r->0).len() == height,
        r is Some ==> forall|x: int, y: int|
            0 <= x < width && 0 <= y < height ==> #[trigger] image_rows(r->0)[y][x] == (
                samples@[sample_index(width, x, y)],
                samples@[sample_index(width, x, y) + 1],
                samples@[sample_index(width, x, y) + 2],
                255u8,
            ),
{
    image::RgbImage::from_raw(width, height, samples).map(DynamicImage::ImageRgb8)
}

/// Decodes an encoded image with `image::load_from_memory`, which guesses
/// the format from the first bytes. Trusted: the outcome depends on the
/// bytes alone, so success and the image obtained are `decoded_image` of them.
#[verifier::external_body]
pub(crate) fn decode_image(bytes: &[u8]) -> (r: Result<DynamicImage, ImageError>)
    ensures
        match r {
            Ok(image) => decoded_image(bytes@) == Some(image),
            Err(_) => decoded_image(bytes@) is None,
        },
{
    image::load_from_memory(bytes)
}

/// Cuts a rectangle out of an image with `DynamicImage::crop_imm`. Trusted:
/// the rectangle is first clipped to the image, and the result holds a copy
/// of each pixel inside it, in place.
#[verifier::external_body]
fn crop_imm(source: &DynamicImage, rect: PixelRect) -> (r: DynamicImage)
    ensures
        image_width(r) == kept_rect(*source, rect).width,
        image_rows(r).len() == kept_rect(*source, rect).height,
        forall|row: int|
            0 <= row < image_rows(r).len() ==> #[trigger] image_rows(r)[row] == image_rows(
                *source,
            )[kept_rect(*source, rect).y + row].subrange(
                kept_rect(*source, rect).x as int,
                kept_rect(*source, rect).x + kept_rect(*source, rect).width,
            ),
{
    source.crop_imm(rect.x, rect.y, rect.width, rect.height)
}

/// The cutout of `source` at `rect`.
pub(crate) fn crop_image(source: &DynamicImage, rect: PixelRect) -> (r: DynamicImage)
    ensures
        is_cutout(r, *source, rect),
{
    crop_imm(source, rect)
}

/// The text that `ImageError` shows for itself through `Display`. Trusted;
/// nothing is claimed of the text.
#[verifier::external_body]
pub(crate) fn image_error_text(error: &ImageError) -> (r: String) {
    error.to_string()
}

} // verus!
