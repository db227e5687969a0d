//! What the crate `image` does for this library: it decodes an image, and it
//! scales a glyph. Nothing in this file is proved: each function here calls
//! one function of `image`, and its contract is what that function is taken
//! to do.

use image::GenericImageView;
use vstd::prelude::*;

verus! {

/// The largest width or height of an image that is handed to `image` to be
/// scaled, and the largest that is asked for.
pub const MAX_SIDE: u32 = 4096;

/// The error of `image`, carried through as it is.
#[verifier::external_type_specification]
#[verifier::external_body]
pub struct ExImageError(image::ImageError);

/// What `image::load_from_memory_with_format` makes of `bytes` when they are
/// read as a PNG file: the width and the height of the image and its pixels,
/// row by row, each as `get_pixel` gives it; `None` where the bytes are not a
/// PNG file that it can decode.
pub uninterp spec fn decoded_image(bytes: Seq<u8>) -> Option<(u32, u32, Seq<[u8; 4]>)>;

/// What `image::imageops::resize` with the filter `Nearest` makes of the image
/// of `width` by `height` pixels `pixels`, asked for `new_width` by
/// `new_height` pixels: the pixels of the new image, row by row.
pub uninterp spec fn resized_nearest(
    width: u32,
    height: u32,
    pixels: Seq<[u8; 4]>,
    new_width: u32,
    new_height: u32,
) -> Seq<[u8; 4]>;

/// Decodes `bytes` with `image::load_from_memory_with_format` as a PNG file,
/// and lists the pixels of the image with `pixels`, which walks the rows from
/// the top and each row from the left. The format is given, so that nothing
/// but the bytes decides what comes out. An image that was decoded has one
/// pixel for each cell.
#[verifier::external_body]
pub(crate) fn load_pixels(bytes: &[u8]) -> (r: Result<(u32, u32, Vec<[u8; 4]>), image::ImageError>)
    ensures
        match r {
            Ok((width, height, pixels)) => {
                &&& decoded_image(bytes@) == Some((width, height, pixels@))
                &&& pixels@.len() == width * height
            },
            Err(_) => decoded_image(bytes@) is None,
        },
{
    let img = image::load_from_memory_with_format(bytes, image::ImageFormat::Png)?;
    let pixels: Vec<[u8; 4]> = img.pixels().map(|(_, _, px)| px.0).collect();
    Ok((img.width(), img.height(), pixels))
}

/// The text of an error of `image`, from its `to_string`. `image` promises
/// nothing of the text, and nothing is stated of it here.
#[verifier::external_body]
pub(crate) fn error_text(e: &image::ImageError) -> String {
    e.to_string()
}

/// Scales an image with `image::imageops::resize` and the filter `Nearest`.
/// The result is a function of the arguments alone and has one pixel for each
/// cell of the new size. With this filter each pixel of the result is taken
/// from one pixel of the image as it is, so where the image has pixels, the
/// result holds no color that the image does not hold. There must be one
/// pixel for each cell of the old size, or the image cannot be made; and no
/// side may be above `MAX_SIDE`, so that no buffer that `resize` allocates is
/// larger than 2^28 bytes.
#[verifier::external_body]
pub(crate) fn resize_nearest(
    width: u32,
    height: u32,
    pixels: &Vec<[u8; 4]>,
    new_width: u32,
    new_height: u32,
) -> (out: Vec<[u8; 4]>)
    requires
        pixels@.len() == width * height,
        width <= MAX_SIDE,
        height <= MAX_SIDE,
        new_width <= MAX_SIDE,
        new_height <= MAX_SIDE,
    ensures
        out@ == resized_nearest(width, height, pixels@, new_width, new_height),
        out@.len() == new_width * new_height,
        width > 0 && height > 0 ==> forall|i: int|
            0 <= i < out@.len() ==> pixels@.contains(#[trigger] out@[i]),
{
    let source = image::RgbaImage::from_raw(width, height, pixels.concat()).unwrap();
    let filter = image::imageops::FilterType::Nearest;
    let scaled = image::imageops::resize(&source, new_width, new_height, filter);
    scaled.pixels().map(|px| px.0).collect()
}

} // verus!
