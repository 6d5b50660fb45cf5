use p2m_server::codec::{decode, encode, encode_kept, read_outcome};
use p2m_server::error::StoreError;
use p2m_server::raster::Image;

fn patterned() -> Image {
    let mut pixels = Vec::new();
    for i in 0..(4u32 * 3) {
        pixels.extend_from_slice(&[(i * 20) as u8, (255 - i * 7) as u8, (i * i) as u8, (i * 23) as u8]);
    }
    Image::new(4, 3, pixels).unwrap()
}

#[test]
fn encoding_writes_a_png_file() {
    let bytes = encode(&patterned()).unwrap();
    assert_eq!(&bytes[..8], b"\x89PNG\r\n\x1a\n");
    assert_ne!(&bytes, patterned().pixels());
}

#[test]
fn stored_image_comes_back_as_it_went() {
    let image = patterned();
    let bytes = encode(&image).unwrap();
    let back = decode(&bytes).unwrap();
    assert_eq!(back, image);
    assert_eq!(back.pixels(), image.pixels());
    // and once more through the codec
    assert_eq!(decode(&encode(&back).unwrap()).unwrap(), image);
}

#[test]
fn encoding_repeats_itself() {
    assert_eq!(encode(&patterned()).unwrap(), encode(&patterned()).unwrap());
}

#[test]
fn image_without_pixels_has_no_png() {
    assert_eq!(encode(&Image::new(0, 0, vec![]).unwrap()), Err(StoreError::EncodeFailed));
    assert_eq!(encode(&Image::new(0, 2, vec![]).unwrap()), Err(StoreError::EncodeFailed));
    assert_eq!(encode(&Image::new(2, 0, vec![]).unwrap()), Err(StoreError::EncodeFailed));
}

#[test]
fn bytes_that_are_no_image_fail_to_decode() {
    assert_eq!(decode(b""), Err(StoreError::DecodeFailed));
    assert_eq!(decode(b"not an image at all"), Err(StoreError::DecodeFailed));
    // the beginning of a PNG file, and nothing after it
    assert_eq!(decode(b"\x89PNG\r\n\x1a\n"), Err(StoreError::DecodeFailed));
    let mut bytes = encode(&patterned()).unwrap();
    bytes.truncate(bytes.len() / 2);
    assert_eq!(decode(&bytes), Err(StoreError::DecodeFailed));
}

#[test]
fn other_formats_decode_to_rgba() {
    // a plain-text graymap of two pixels
    let gray = decode(b"P2\n2 1\n255\n0 200\n").unwrap();
    assert_eq!((gray.width(), gray.height()), (2, 1));
    assert_eq!(gray.pixels(), &vec![0, 0, 0, 255, 200, 200, 200, 255]);
    // a plain-text pixmap of one pixel
    let colour = decode(b"P3\n1 1\n255\n10 20 30\n").unwrap();
    assert_eq!(colour.pixels(), &vec![10, 20, 30, 255]);
}

#[test]
fn kept_encoding_is_the_encoding() {
    assert_eq!(encode_kept(&patterned()), encode(&patterned()));
    assert!(decode(&encode_kept(&patterned()).unwrap()).unwrap().same_as(&patterned()));
    assert_eq!(encode_kept(&Image::new(0, 0, vec![]).unwrap()), Err(StoreError::EncodeFailed));
}

#[test]
fn read_outcome_names_every_failure_alike() {
    assert_eq!(read_outcome::<u8>(Ok(patterned())), Ok(patterned()));
    assert_eq!(read_outcome(Err(7u8)), Err(StoreError::DecodeFailed));
    assert_eq!(read_outcome(Err("anything")), Err(StoreError::DecodeFailed));
}

#[test]
fn images_are_the_same_by_size_and_samples() {
    let image = patterned();
    assert!(image.same_as(&patterned()));
    let mut pixels = image.pixels().clone();
    pixels[47] ^= 1;
    assert!(!image.same_as(&Image::new(4, 3, pixels).unwrap()));
    // the same samples in another shape
    assert!(!image.same_as(&Image::new(3, 4, image.pixels().clone()).unwrap()));
    assert!(!image.same_as(&Image::new(0, 0, vec![]).unwrap()));
}
