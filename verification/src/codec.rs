//! Reading images from bytes and writing them as PNG.
//!
//! An image may arrive in any format the decoder knows. What it makes of
//! the bytes of some formats depends on the processor it runs on, so of a
//! decoded upload nothing is promised but that it is an image. PNG is the
//! one format the service writes; its files are written and read back by
//! whole-number arithmetic that the format fixes, and the contracts speak
//! of them by name.

use vstd::prelude::*;
use crate::error::StoreError;
use crate::raster::{Image, ImageView};

verus! {

/// The PNG file that `DynamicImage::write_to` writes for an RGBA image of
/// the given width, height and samples, or nothing where it refuses.
pub uninterp spec fn png_encoding(width: nat, height: nat, pixels: Seq<u8>) -> Option<Seq<u8>>;

/// What `image::load_from_memory_with_format` with the PNG format,
/// followed by `DynamicImage::into_rgba8`, makes of the bytes: width,
/// height and RGBA samples, or nothing where the bytes are no PNG file
/// that it can read.
pub uninterp spec fn png_decoding(bytes: Seq<u8>) -> Option<(nat, nat, Seq<u8>)>;

/// The PNG file of the image, if it has one.
pub open spec fn encoded(v: ImageView) -> Option<Seq<u8>> {
    png_encoding(v.width, v.height, v.pixels)
}

/// The image that the bytes hold as a PNG file, if they are one.
pub open spec fn png_decoded(bytes: Seq<u8>) -> Option<ImageView> {
    match png_decoding(bytes) {
        Some((width, height, pixels)) => Some(ImageView { width, height, pixels }),
        None => None,
    }
}

/// Whether the bytes are the PNG file that the encoder writes for some
/// image.
pub open spec fn is_written_png(bytes: Seq<u8>) -> bool {
    exists|width: nat, height: nat, pixels: Seq<u8>|
        #[trigger] png_encoding(width, height, pixels) == Some(bytes)
}

/// Whether the image can be kept as a PNG file: it has one, and reading
/// that file gives the image back, sample for sample.
pub open spec fn keeps(v: ImageView) -> bool {
    encoded(v) matches Some(bytes) && png_decoded(bytes) == Some(v)
}

/// `image::ImageError`, the decoder's and encoder's error. Nothing is read
/// from it.
#[verifier::external_type_specification]
#[verifier::external_body]
pub struct ExImageError(image::ImageError);

/// `image::load_from_memory`, which finds the format by the first bytes
/// and decodes, then `DynamicImage::into_rgba8`, whose buffer holds
/// `width * height * 4` samples. Nothing is claimed of the outcome: for
/// some formats the samples depend on the processor.
#[verifier::external_body]
fn load(bytes: &[u8]) -> (result: Result<Image, image::ImageError>) {
    let buffer = image::load_from_memory(bytes)?.into_rgba8();
    Ok(Image { width: buffer.width(), height: buffer.height(), pixels: buffer.into_raw() })
}

/// `image::load_from_memory_with_format` with `ImageFormat::Png`, then
/// `DynamicImage::into_rgba8`, whose buffer holds `width * height * 4`
/// samples, on a file that the encoder wrote. Trusted: the outcome depends
/// on the bytes alone; it is what `png_decoding` names, and a failure of
/// any kind is its `None`. Nothing is claimed of other bytes.
#[verifier::external_body]
fn load_png(bytes: &[u8]) -> (result: Result<Image, image::ImageError>)
    requires
        is_written_png(bytes@),
    ensures
        match result {
            Ok(image) => png_decoding(bytes@) == Some(
                (image@.width, image@.height, image@.pixels),
            ),
            Err(_) => png_decoding(bytes@) is None,
        },
{
    let format = image::ImageFormat::Png;
    let buffer = image::load_from_memory_with_format(bytes, format)?.into_rgba8();
    Ok(Image { width: buffer.width(), height: buffer.height(), pixels: buffer.into_raw() })
}

/// `DynamicImage::write_to` with the PNG format, into memory, on the
/// samples taken as an RGBA buffer, which `ImageBuffer::from_raw` makes of
/// any `Image` as it is. Trusted: the outcome depends on the image alone;
/// it is what `png_encoding` names, and a failure of any kind is its
/// `None`.
#[verifier::external_body]
fn write_png(image: &Image) -> (result: Result<Vec<u8>, image::ImageError>)
    ensures
        match result {
            Ok(bytes) => png_encoding(image@.width, image@.height, image@.pixels) == Some(
                bytes@,
            ),
            Err(_) => png_encoding(image@.width, image@.height, image@.pixels) is None,
        },
{
    let samples = image.pixels.clone();
    let buffer = image::RgbaImage::from_raw(image.width, image.height, samples)
        .expect("the buffer holds width * height * 4 samples");
    let mut bytes = Vec::new();
    let mut sink = std::io::Cursor::new(&mut bytes);
    image::DynamicImage::ImageRgba8(buffer).write_to(&mut sink, image::ImageOutputFormat::Png)?;
    Ok(bytes)
}

/// What reading an image gives for each outcome of the decoder: the image,
/// or `DecodeFailed`.
pub fn read_outcome<E>(outcome: Result<Image, E>) -> (result: Result<Image, StoreError>)
    ensures
        match (outcome, result) {
            (Ok(image), Ok(read)) => read@ == image@,
            (Err(_), Err(error)) => error == StoreError::DecodeFailed,
            _ => false,
        },
{
    match outcome {
        Ok(image) => Ok(image),
        Err(_) => Err(StoreError::DecodeFailed),
    }
}

/// Reads an image from bytes in any format the decoder knows by its first
/// bytes. The only failure is `DecodeFailed`; which bytes are an image,
/// and which image, is the decoder's to say.
pub fn decode(bytes: &[u8]) -> (result: Result<Image, StoreError>)
    ensures
        result matches Err(error) ==> error == StoreError::DecodeFailed,
{
    read_outcome(load(bytes))
}

/// Writes the image as PNG. Fails with `EncodeFailed` exactly where the
/// image has no PNG file.
pub fn encode(image: &Image) -> (result: Result<Vec<u8>, StoreError>)
    ensures
        match result {
            Ok(bytes) => encoded(image@) == Some(bytes@),
            Err(error) => error == StoreError::EncodeFailed && encoded(image@) is None,
        },
{
    match write_png(image) {
        Ok(bytes) => Ok(bytes),
        Err(_) => Err(StoreError::EncodeFailed),
    }
}

/// Writes the image as PNG for keeping, and reads the file back to see
/// that it holds the image, sample for sample. Fails with `EncodeFailed`
/// exactly where the image cannot be kept so.
pub fn encode_kept(image: &Image) -> (result: Result<Vec<u8>, StoreError>)
    ensures
        match result {
            Ok(bytes) => encoded(image@) == Some(bytes@) && png_decoded(bytes@) == Some(image@),
            Err(error) => error == StoreError::EncodeFailed && !keeps(image@),
        },
{
    let bytes = match encode(image) {
        Ok(bytes) => bytes,
        Err(error) => {
            return Err(error);
        },
    };
    assert(png_encoding(image@.width, image@.height, image@.pixels) == Some(bytes@));
    match load_png(bytes.as_slice()) {
        Ok(back) => if back.same_as(image) {
            Ok(bytes)
        } else {
            Err(StoreError::EncodeFailed)
        },
        Err(_) => Err(StoreError::EncodeFailed),
    }
}

} // verus!
