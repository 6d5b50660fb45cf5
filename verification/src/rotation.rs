//! Quarter turns, clockwise.

use vstd::prelude::*;
use crate::raster::{Image, ImageView};

verus! {

/// The image `v` turned clockwise by a quarter: the pixel in column `x` of
/// row `y` of the result is the one in column `y` of row
/// `height - 1 - x` of `v`. Width and height change places.
pub open spec fn rotated90(v: ImageView) -> ImageView {
    ImageView {
        width: v.height,
        height: v.width,
        pixels: Seq::new(
            v.pixels.len(),
            |i: int|
                {
                    let x = (i / 4) % (v.height as int);
                    let y = (i / 4) / (v.height as int);
                    v.sample(y, v.height - 1 - x, i % 4)
                },
        ),
    }
}

/// The image `v` turned by a half: the pixel in column `x` of row `y` of
/// the result is the one in column `width - 1 - x` of row
/// `height - 1 - y` of `v`.
pub open spec fn rotated180(v: ImageView) -> ImageView {
    ImageView {
        width: v.width,
        height: v.height,
        pixels: Seq::new(
            v.pixels.len(),
            |i: int|
                {
                    let x = (i / 4) % (v.width as int);
                    let y = (i / 4) / (v.width as int);
                    v.sample(v.width - 1 - x, v.height - 1 - y, i % 4)
                },
        ),
    }
}

/// The image `v` turned clockwise by three quarters: the pixel in column
/// `x` of row `y` of the result is the one in column `width - 1 - y` of
/// row `x` of `v`. Width and height change places.
pub open spec fn rotated270(v: ImageView) -> ImageView {
    ImageView {
        width: v.height,
        height: v.width,
        pixels: Seq::new(
            v.pixels.len(),
            |i: int|
                {
                    let x = (i / 4) % (v.height as int);
                    let y = (i / 4) / (v.height as int);
                    v.sample(v.width - 1 - y, x, i % 4)
                },
        ),
    }
}

/// The image `v` turned clockwise by `rotation` degrees where that is 90,
/// 180 or 270, and `v` itself for any other value.
pub open spec fn rotated(v: ImageView, rotation: u32) -> ImageView {
    if rotation == 90 {
        rotated90(v)
    } else if rotation == 180 {
        rotated180(v)
    } else if rotation == 270 {
        rotated270(v)
    } else {
        v
    }
}

/// `image::imageops::rotate90` on the samples taken as an RGBA buffer,
/// which `ImageBuffer::from_raw` makes of any `Image` as it is. Trusted: the result has the height of the image as its width and the
/// width as its height, and the pixel at `(x, y)` of the image stands at
/// `(height - 1 - y, x)` of the result.
#[verifier::external_body]
fn turn90(image: &Image) -> (turned: Image)
    ensures
        turned@ == rotated90(image@),
{
    let samples = image.pixels.clone();
    let buffer = image::RgbaImage::from_raw(image.width, image.height, samples)
        .expect("the buffer holds width * height * 4 samples");
    let out = image::imageops::rotate90(&buffer);
    Image { width: out.width(), height: out.height(), pixels: out.into_raw() }
}

/// `image::imageops::rotate180` on the samples taken as an RGBA buffer,
/// which `ImageBuffer::from_raw` makes of any `Image` as it is. Trusted: the result has the size of the image, and the pixel at
/// `(x, y)` of the image stands at `(width - 1 - x, height - 1 - y)` of the
/// result.
#[verifier::external_body]
fn turn180(image: &Image) -> (turned: Image)
    ensures
        turned@ == rotated180(image@),
{
    let samples = image.pixels.clone();
    let buffer = image::RgbaImage::from_raw(image.width, image.height, samples)
        .expect("the buffer holds width * height * 4 samples");
    let out = image::imageops::rotate180(&buffer);
    Image { width: out.width(), height: out.height(), pixels: out.into_raw() }
}

/// `image::imageops::rotate270` on the samples taken as an RGBA buffer,
/// which `ImageBuffer::from_raw` makes of any `Image` as it is. Trusted: the result has the height of the image as its width and the
/// width as its height, and the pixel at `(x, y)` of the image stands at
/// `(y, width - 1 - x)` of the result.
#[verifier::external_body]
fn turn270(image: &Image) -> (turned: Image)
    ensures
        turned@ == rotated270(image@),
{
    let samples = image.pixels.clone();
    let buffer = image::RgbaImage::from_raw(image.width, image.height, samples)
        .expect("the buffer holds width * height * 4 samples");
    let out = image::imageops::rotate270(&buffer);
    Image { width: out.width(), height: out.height(), pixels: out.into_raw() }
}

/// Turns the image clockwise by `rotation` degrees where that is 90, 180
/// or 270, and hands it back unchanged for any other value.
pub fn rotate(image: Image, rotation: u32) -> (result: Image)
    ensures
        result@ == rotated(image@, rotation),
        rotation == 90 || rotation == 270 ==> result@.width == image@.height && result@.height
            == image@.width,
        rotation != 90 && rotation != 270 ==> result@.width == image@.width && result@.height
            == image@.height,
{
    if rotation == 90 {
        turn90(&image)
    } else if rotation == 180 {
        turn180(&image)
    } else if rotation == 270 {
        turn270(&image)
    } else {
        image
    }
}

} // verus!
