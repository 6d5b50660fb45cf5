use p2m_server::codec::{decode, encode};
use p2m_server::error::{ErrorKind, StoreError};
use p2m_server::pipeline::{apply, TransformRequest};
use p2m_server::raster::Image;
use p2m_server::routes::{index, rocket, Endpoint, Method};
use p2m_server::service::{
    accept, answer, download, locate, receive, serve, upload, ContentType, DownloadError, Located,
    UploadError,
};
use p2m_server::store::ImageStore;

const IDENTITY: TransformRequest =
    TransformRequest { grayscale: 0, brightness: 50, threshold: 0, rotation: 0 };

fn striped() -> Image {
    let mut pixels = Vec::new();
    for i in 0..(3u32 * 2) {
        pixels.extend_from_slice(&[(40 * i) as u8, (200 - 30 * i) as u8, 50, 255]);
    }
    Image::new(3, 2, pixels).unwrap()
}

fn store() -> ImageStore {
    ImageStore::new("uploads".to_string())
}

fn place() -> Located {
    locate(&store(), "striped.png").unwrap()
}

#[test]
fn upload_then_plain_download_keeps_every_pixel() {
    let sent = encode(&striped()).unwrap();
    let receipt = upload(&store(), true, Some("striped.png"), Some(&sent)).unwrap();
    assert_eq!(receipt.id, "striped.png");
    assert_eq!(receipt.entry.path, "uploads/striped.png");
    // what a plain download hands out is what was stored
    assert_eq!(decode(&receipt.entry.bytes).unwrap(), decode(&sent).unwrap());
    assert_eq!(decode(&receipt.entry.bytes).unwrap(), striped());
    assert!(decode(&receipt.entry.bytes).unwrap().same_as(&striped()));
}

#[test]
fn upload_then_identity_download_keeps_every_pixel() {
    let sent = encode(&striped()).unwrap();
    let receipt = upload(&store(), true, Some("striped.png"), Some(&sent)).unwrap();
    let response = download(&store(), &place(), Some(&receipt.entry.bytes), &IDENTITY).unwrap();
    assert_eq!(response.content_type, ContentType::Png);
    assert_eq!(decode(&response.data).unwrap(), striped());
}

#[test]
fn upload_stores_other_formats_as_png() {
    let body = b"P3\n1 1\n255\n10 20 30\n";
    let receipt = upload(&store(), true, Some("dot.ppm"), Some(body)).unwrap();
    assert_eq!(receipt.id, "dot.ppm");
    assert_eq!(&receipt.entry.bytes[..4], b"\x89PNG");
    assert_eq!(decode(&receipt.entry.bytes).unwrap().pixels(), &vec![10, 20, 30, 255]);
}

#[test]
fn upload_without_a_name_is_stored_as_upload() {
    let receipt = upload(&store(), true, None, Some(&encode(&striped()).unwrap())).unwrap();
    assert_eq!(receipt.id, "upload");
    assert_eq!(receipt.entry.path, "uploads/upload");
}

#[test]
fn upload_that_is_no_form_fails_to_parse() {
    let body = encode(&striped()).unwrap();
    assert_eq!(upload(&store(), false, None, None), Err(UploadError::ParseForm));
    // whatever else came with it
    assert_eq!(upload(&store(), false, Some("a.png"), Some(&body)), Err(UploadError::ParseForm));
    assert_eq!(UploadError::ParseForm.message(), "Failed to parse form data");
    assert_eq!(UploadError::ParseForm.kind(), ErrorKind::MalformedRequest);
}

#[test]
fn upload_without_a_file_misses_the_field() {
    assert_eq!(upload(&store(), true, Some("a.png"), None), Err(UploadError::MissingField));
    assert_eq!(upload(&store(), true, None, None), Err(UploadError::MissingField));
    // the missing file is told before the name is looked at
    assert_eq!(upload(&store(), true, Some("../a.png"), None), Err(UploadError::MissingField));
    assert_eq!(UploadError::MissingField.message(), "File field is missing");
    assert_eq!(UploadError::MissingField.kind(), ErrorKind::MalformedRequest);
}

#[test]
fn upload_under_an_unsafe_name_is_refused() {
    let body = encode(&striped()).unwrap();
    for name in ["../a.png", "/etc/a.png", "", "a/../../b.png", ".."] {
        assert_eq!(upload(&store(), true, Some(name), Some(&body)), Err(UploadError::UnsafeName));
        assert_eq!(accept(&store(), name, &striped()), Err(UploadError::UnsafeName));
    }
    // the name is looked at before the file is
    assert_eq!(upload(&store(), true, Some(".."), Some(b"no image")), Err(UploadError::UnsafeName));
    assert_eq!(UploadError::UnsafeName.kind(), ErrorKind::MalformedRequest);
}

#[test]
fn upload_of_no_image_fails_to_decode() {
    assert_eq!(upload(&store(), true, Some("a.png"), Some(b"hello")), Err(UploadError::Decode));
    assert_eq!(upload(&store(), true, Some("a.png"), Some(b"")), Err(UploadError::Decode));
    assert_eq!(UploadError::Decode.kind(), ErrorKind::UnsupportedImageFormat);
}

#[test]
fn accept_stores_the_image_as_png() {
    let receipt = accept(&store(), "a/striped", &striped()).unwrap();
    assert_eq!(receipt.id, "a/striped");
    assert_eq!(receipt.entry.path, "uploads/a/striped");
    assert_eq!(receipt.entry.bytes, encode(&striped()).unwrap());
    assert_eq!(decode(&receipt.entry.bytes).unwrap(), striped());
    let nothing = Image::new(0, 0, vec![]).unwrap();
    assert_eq!(accept(&store(), "nothing", &nothing), Err(UploadError::Encode));
    assert_eq!(UploadError::Encode.kind(), ErrorKind::EncodeFailure);
}

#[test]
fn upload_failures_have_their_messages() {
    assert_eq!(UploadError::UnsafeName.message(), "File name is not usable");
    assert_eq!(UploadError::Decode.message(), "Failed to decode image");
    assert_eq!(UploadError::Encode.message(), "Failed to encode image");
    assert_eq!(UploadError::SaveFile.message(), "Failed to save file");
    assert_eq!(UploadError::SaveFile.kind(), ErrorKind::StorageIO);
}

#[test]
fn locate_gives_the_path_of_a_safe_identifier() {
    let place = locate(&store(), "cat.png").unwrap();
    assert_eq!(place.id(), "cat.png");
    assert_eq!(place.path(), "uploads/cat.png");
    let deep = locate(&store(), "a/b/cat.png").unwrap();
    assert_eq!(deep.id(), "a/b/cat.png");
    assert_eq!(deep.path(), "uploads/a/b/cat.png");
}

#[test]
fn locate_refuses_what_leads_out_of_the_store() {
    for id in ["../secret.png", "a/../../b.png", "..", "a/..", "..\\secret.png", "/etc/passwd", ""] {
        assert_eq!(locate(&store(), id), Err(DownloadError::NotFound), "{:?}", id);
    }
}

#[test]
fn download_of_nothing_is_not_found() {
    assert_eq!(download(&store(), &place(), None, &IDENTITY), Err(DownloadError::NotFound));
    let ask = TransformRequest { grayscale: 100, brightness: 0, threshold: 100, rotation: 90 };
    assert_eq!(download(&store(), &place(), None, &ask), Err(DownloadError::NotFound));
    assert_eq!(DownloadError::NotFound.kind(), ErrorKind::NotFound);
    assert_eq!(DownloadError::NotFound.kind().status(), 404);
    assert_eq!(DownloadError::NotFound.message(), "Failed to open the image");
}

#[test]
fn download_of_no_image_is_unreadable() {
    assert_eq!(download(&store(), &place(), Some(b"not an image"), &IDENTITY), Err(DownloadError::Unreadable));
    assert_eq!(download(&store(), &place(), Some(b""), &IDENTITY), Err(DownloadError::Unreadable));
    assert_eq!(DownloadError::Unreadable.kind(), ErrorKind::UnsupportedImageFormat);
    assert_eq!(DownloadError::Unreadable.message(), "Failed to open the image");
}

#[test]
fn download_transforms_what_is_stored() {
    let stored = encode(&striped()).unwrap();
    let ask = TransformRequest { grayscale: 100, brightness: 75, threshold: 20, rotation: 90 };
    let response = download(&store(), &place(), Some(&stored), &ask).unwrap();
    assert_eq!(response.content_type, ContentType::Png);
    assert_eq!(response.content_type.mime(), "image/png");
    let shown = decode(&response.data).unwrap();
    assert_eq!((shown.width(), shown.height()), (2, 3));
    assert_eq!(shown, apply(striped(), &ask));
    assert_ne!(shown, striped());
    // the stored bytes are as they were
    assert_eq!(stored, encode(&striped()).unwrap());
}

#[test]
fn answer_follows_what_the_store_read() {
    let ask = TransformRequest { grayscale: 10, brightness: 60, threshold: 5, rotation: 270 };
    assert_eq!(answer(Err(StoreError::NotFound), &ask), Err(DownloadError::NotFound));
    assert_eq!(answer(Err(StoreError::InvalidIdentifier), &ask), Err(DownloadError::NotFound));
    assert_eq!(answer(Err(StoreError::DecodeFailed), &ask), Err(DownloadError::Unreadable));
    assert_eq!(answer(Ok(striped()), &ask), serve(striped(), &ask));
    let nothing = Image::new(0, 0, vec![]).unwrap();
    assert_eq!(answer(Ok(nothing), &ask), Err(DownloadError::Encode));
}

#[test]
fn serve_encodes_the_transformed_image() {
    let ask = TransformRequest { grayscale: 0, brightness: 100, threshold: 0, rotation: 180 };
    let response = serve(striped(), &ask).unwrap();
    assert_eq!(response.data, encode(&apply(striped(), &ask)).unwrap());
}

#[test]
fn serve_of_an_image_without_pixels_fails_to_encode() {
    let nothing = Image::new(0, 0, vec![]).unwrap();
    assert_eq!(serve(nothing, &IDENTITY), Err(DownloadError::Encode));
    assert_eq!(DownloadError::Encode.kind(), ErrorKind::EncodeFailure);
    assert_eq!(DownloadError::Encode.message(), "Failed to encode image");
}

#[test]
fn index_greets() {
    assert_eq!(index(), "Hello, world!");
}

#[test]
fn rocket_mounts_five_routes() {
    let routes = rocket();
    let seen: Vec<(Method, &str, bool, u64, Endpoint)> = routes
        .iter()
        .map(|r| (r.method, r.path, r.takes_identifier, r.upload_limit, r.endpoint))
        .collect();
    assert_eq!(
        seen,
        vec![
            (Method::Get, "/", false, 0, Endpoint::Index),
            (Method::Post, "/upload/obj", false, 5 * 1024 * 1024, Endpoint::UploadObj),
            (Method::Get, "/download/obj", true, 0, Endpoint::DownloadObj),
            (Method::Post, "/upload/img", false, 10 * 1024 * 1024, Endpoint::UploadImg),
            (Method::Get, "/download/img", true, 0, Endpoint::DownloadImg),
        ]
    );
}

#[test]
fn receive_follows_what_the_decoder_made() {
    assert_eq!(receive(&store(), "a.png", Err(StoreError::DecodeFailed)), Err(UploadError::Decode));
    assert_eq!(receive(&store(), "a.png", Ok(striped())), accept(&store(), "a.png", &striped()));
    assert_eq!(receive(&store(), "a.png", Ok(striped())).unwrap().entry.path, "uploads/a.png");
    let nothing = Image::new(0, 0, vec![]).unwrap();
    assert_eq!(receive(&store(), "a.png", Ok(nothing)), Err(UploadError::Encode));
    assert_eq!(receive(&store(), "../a.png", Ok(striped())), Err(UploadError::UnsafeName));
}

#[test]
fn undecodable_upload_stores_nothing() {
    let result = upload(&store(), true, Some("hello.png"), Some(b"hello"));
    assert_eq!(result, Err(UploadError::Decode));
    assert_eq!(UploadError::Decode.kind(), ErrorKind::UnsupportedImageFormat);
    assert_eq!(UploadError::Decode.kind().status(), 415);
}
