//! What the handlers of upload and download decide, between reading a
//! request and sending the response. Reading and writing files is left
//! to the caller: a handler gets what was found, and says what to store.

use vstd::prelude::*;
use vstd::string::{StringExecFns, StringSliceAdditionalSpecFns};
use vstd::utf8::encode_utf8;
use crate::codec::{decode, encode, encoded, keeps, png_decoded};
use crate::error::{ErrorKind, StoreError};
use crate::pipeline::{apply, transformed, TransformRequest};
use crate::raster::{Image, ImageView};
use crate::store::{check_identifier, has_parent_segment, is_safe_identifier, Entry, ImageStore};

verus! {

/// The identifier of an upload whose file has no name.
pub const DEFAULT_NAME: &'static str = "upload";

/// The format of a response body.
#[derive(Clone, Copy, Debug, PartialEq, Eq, Structural)]
pub enum ContentType {
    Png,
}

impl ContentType {
    /// The media type to announce.
    pub fn mime(self) -> (text: &'static str)
        ensures
            text@ == "image/png"@,
    {
        "image/png"
    }
}

/// A transformed image, ready to send: the encoded bytes and their format.
#[derive(Debug, PartialEq, Eq)]
pub struct ProcessedImage {
    pub content_type: ContentType,
    pub data: Vec<u8>,
}

/// An accepted upload: the identifier to answer with, and what to store.
#[derive(Debug, PartialEq, Eq)]
pub struct Receipt {
    pub id: String,
    pub entry: Entry,
}

/// Where a stored image lies: a safe identifier, and the path below the
/// store's root that it leads to. Only `locate` makes one, so whatever
/// reads a file for a download reads at a path that a safe identifier
/// gave.
#[derive(Debug, PartialEq, Eq)]
pub struct Located {
    id: String,
    path: String,
}

impl Located {
    #[verifier::type_invariant]
    spec fn inv(self) -> bool {
        is_safe_identifier(encode_utf8(self.id@))
    }

    /// The characters of the identifier.
    pub closed spec fn id_chars(self) -> Seq<char> {
        self.id@
    }

    /// The characters of the path.
    pub closed spec fn path_chars(self) -> Seq<char> {
        self.path@
    }

    /// The identifier that was asked for.
    pub fn id(&self) -> (id: &str)
        ensures
            id@ == self.id_chars(),
            is_safe_identifier(id.spec_bytes()),
            !has_parent_segment(id.spec_bytes()),
    {
        proof {
            use_type_invariant(self);
        }
        self.id.as_str()
    }

    /// The path to read.
    pub fn path(&self) -> (path: &str)
        ensures
            path@ == self.path_chars(),
    {
        self.path.as_str()
    }
}

/// Why a download failed.
#[derive(Clone, Copy, Debug, PartialEq, Eq, Structural)]
pub enum DownloadError {
    /// Nothing is stored under the identifier, or the identifier is none
    /// that anything could be stored under.
    NotFound,
    /// What is stored is no image that can be read.
    Unreadable,
    /// The transformed image has no PNG file.
    Encode,
}

/// Why an upload failed.
#[derive(Clone, Copy, Debug, PartialEq, Eq, Structural)]
pub enum UploadError {
    /// The request body is no multipart form.
    ParseForm,
    /// The form has no file under the name `file`.
    MissingField,
    /// The name of the file cannot serve as an identifier.
    UnsafeName,
    /// The file holds no image.
    Decode,
    /// The image cannot be kept as PNG.
    Encode,
    /// The file could not be written into the store.
    SaveFile,
}

/// The kind of each failure of a download.
pub open spec fn download_kind(error: DownloadError) -> ErrorKind {
    match error {
        DownloadError::NotFound => ErrorKind::NotFound,
        DownloadError::Unreadable => ErrorKind::UnsupportedImageFormat,
        DownloadError::Encode => ErrorKind::EncodeFailure,
    }
}

/// The message of each failure of a download.
pub open spec fn download_message(error: DownloadError) -> Seq<char> {
    match error {
        DownloadError::NotFound => "Failed to open the image"@,
        DownloadError::Unreadable => "Failed to open the image"@,
        DownloadError::Encode => "Failed to encode image"@,
    }
}

/// The kind of each failure of an upload.
pub open spec fn upload_kind(error: UploadError) -> ErrorKind {
    match error {
        UploadError::ParseForm => ErrorKind::MalformedRequest,
        UploadError::MissingField => ErrorKind::MalformedRequest,
        UploadError::UnsafeName => ErrorKind::MalformedRequest,
        UploadError::Decode => ErrorKind::UnsupportedImageFormat,
        UploadError::Encode => ErrorKind::EncodeFailure,
        UploadError::SaveFile => ErrorKind::StorageIO,
    }
}

/// The message of each failure of an upload.
pub open spec fn upload_message(error: UploadError) -> Seq<char> {
    match error {
        UploadError::ParseForm => "Failed to parse form data"@,
        UploadError::MissingField => "File field is missing"@,
        UploadError::UnsafeName => "File name is not usable"@,
        UploadError::Decode => "Failed to decode image"@,
        UploadError::Encode => "Failed to encode image"@,
        UploadError::SaveFile => "Failed to save file"@,
    }
}

impl DownloadError {
    /// The kind under which the failure is reported.
    pub fn kind(self) -> (kind: ErrorKind)
        ensures
            kind == download_kind(self),
    {
        match self {
            DownloadError::NotFound => ErrorKind::NotFound,
            DownloadError::Unreadable => ErrorKind::UnsupportedImageFormat,
            DownloadError::Encode => ErrorKind::EncodeFailure,
        }
    }

    /// The message to answer with.
    pub fn message(self) -> (text: &'static str)
        ensures
            text@ == download_message(self),
    {
        match self {
            DownloadError::NotFound => "Failed to open the image",
            DownloadError::Unreadable => "Failed to open the image",
            DownloadError::Encode => "Failed to encode image",
        }
    }
}

impl UploadError {
    /// The kind under which the failure is reported.
    pub fn kind(self) -> (kind: ErrorKind)
        ensures
            kind == upload_kind(self),
    {
        match self {
            UploadError::ParseForm => ErrorKind::MalformedRequest,
            UploadError::MissingField => ErrorKind::MalformedRequest,
            UploadError::UnsafeName => ErrorKind::MalformedRequest,
            UploadError::Decode => ErrorKind::UnsupportedImageFormat,
            UploadError::Encode => ErrorKind::EncodeFailure,
            UploadError::SaveFile => ErrorKind::StorageIO,
        }
    }

    /// The message to answer with.
    pub fn message(self) -> (text: &'static str)
        ensures
            text@ == upload_message(self),
    {
        match self {
            UploadError::ParseForm => "Failed to parse form data",
            UploadError::MissingField => "File field is missing",
            UploadError::UnsafeName => "File name is not usable",
            UploadError::Decode => "Failed to decode image",
            UploadError::Encode => "Failed to encode image",
            UploadError::SaveFile => "Failed to save file",
        }
    }
}

/// What answers a request to transform the image `v`: the PNG file of the
/// transformed image, or `Encode` where it has none.
pub open spec fn served(v: ImageView, request: TransformRequest) -> Result<
    Seq<u8>,
    DownloadError,
> {
    match encoded(transformed(v, request)) {
        Some(data) => Ok(data),
        None => Err(DownloadError::Encode),
    }
}

/// What answers a download of what was found, where `opened` is what the
/// decoder made of it: `Unreadable` where it made no image, and else what
/// transforming the image gives.
pub open spec fn answered(opened: Option<ImageView>, request: TransformRequest) -> Result<
    Seq<u8>,
    DownloadError,
> {
    match opened {
        None => Err(DownloadError::Unreadable),
        Some(v) => served(v, request),
    }
}

/// The answer to a download as a mathematical value: the bytes sent, or
/// the failure.
pub open spec fn shows(result: Result<ProcessedImage, DownloadError>) -> Result<
    Seq<u8>,
    DownloadError,
> {
    match result {
        Ok(response) => Ok(response.data@),
        Err(error) => Err(error),
    }
}

/// What storing the image `v` gives: its PNG file where that reads back
/// as the image, and `Encode` where not.
pub open spec fn stored(v: ImageView) -> Result<Seq<u8>, UploadError> {
    match encoded(v) {
        Some(bytes) => if png_decoded(bytes) == Some(v) {
            Ok(bytes)
        } else {
            Err(UploadError::Encode)
        },
        None => Err(UploadError::Encode),
    }
}

/// What an upload under a safe name gives, where `opened` is what the
/// decoder made of the file: `Decode` where it made no image, and else
/// what storing the image gives.
pub open spec fn received(opened: Option<ImageView>) -> Result<Seq<u8>, UploadError> {
    match opened {
        None => Err(UploadError::Decode),
        Some(v) => stored(v),
    }
}

/// The answer to an upload as a mathematical value: the bytes to store,
/// or the failure.
pub open spec fn files(result: Result<Receipt, UploadError>) -> Result<Seq<u8>, UploadError> {
    match result {
        Ok(receipt) => Ok(receipt.entry.bytes@),
        Err(error) => Err(error),
    }
}

/// The characters of the identifier that an upload is stored under.
pub open spec fn name_of(file_name: Option<&str>) -> Seq<char> {
    match file_name {
        Some(name) => name@,
        None => DEFAULT_NAME@,
    }
}

/// The bytes of the identifier that an upload is stored under.
pub open spec fn name_bytes_of(file_name: Option<&str>) -> Seq<u8> {
    match file_name {
        Some(name) => name.spec_bytes(),
        None => DEFAULT_NAME.spec_bytes(),
    }
}

/// Why an upload is turned down before its file is looked into, if it is.
pub open spec fn turned_down(parsed: bool, name_bytes: Seq<u8>, has_file: bool) -> Option<
    UploadError,
> {
    if !parsed {
        Some(UploadError::ParseForm)
    } else if !has_file {
        Some(UploadError::MissingField)
    } else if !is_safe_identifier(name_bytes) {
        Some(UploadError::UnsafeName)
    } else {
        None
    }
}

/// Finds where the image asked for is stored, before anything is read.
/// An identifier that is not safe, one with a parent segment among them,
/// is answered as not found and leads to no path.
pub fn locate(store: &ImageStore, id: &str) -> (result: Result<Located, DownloadError>)
    ensures
        match result {
            Ok(place) => {
                &&& is_safe_identifier(id.spec_bytes())
                &&& place.id_chars() == id@
                &&& place.path_chars() == store@ + "/"@ + id@
            },
            Err(error) => error == DownloadError::NotFound && !is_safe_identifier(
                id.spec_bytes(),
            ),
        },
        has_parent_segment(id.spec_bytes()) ==> result == Err::<Located, DownloadError>(
            DownloadError::NotFound,
        ),
{
    match store.path_of(id) {
        Ok(path) => Ok(Located { id: String::from_str(id), path }),
        Err(_) => Err(DownloadError::NotFound),
    }
}

/// Transforms the image as the request asks and encodes the result as
/// PNG.
pub fn serve(image: Image, request: &TransformRequest) -> (result: Result<
    ProcessedImage,
    DownloadError,
>)
    ensures
        match result {
            Ok(response) => response.content_type == ContentType::Png && served(image@, *request)
                == Ok::<Seq<u8>, DownloadError>(response.data@),
            Err(error) => served(image@, *request) == Err::<Seq<u8>, DownloadError>(error),
        },
{
    let shown = apply(image, request);
    match encode(&shown) {
        Ok(data) => Ok(ProcessedImage { content_type: ContentType::Png, data }),
        Err(_) => Err(DownloadError::Encode),
    }
}

/// What answers a download for each outcome of reading the stored image:
/// the failure of the store under its own name, or what transforming the
/// image gives.
pub fn answer(opened: Result<Image, StoreError>, request: &TransformRequest) -> (result: Result<
    ProcessedImage,
    DownloadError,
>)
    ensures
        match opened {
            Ok(image) => match result {
                Ok(response) => response.content_type == ContentType::Png && served(
                    image@,
                    *request,
                ) == Ok::<Seq<u8>, DownloadError>(response.data@),
                Err(error) => served(image@, *request) == Err::<Seq<u8>, DownloadError>(error),
            },
            Err(StoreError::DecodeFailed) => result == Err::<ProcessedImage, DownloadError>(
                DownloadError::Unreadable,
            ),
            Err(_) => result == Err::<ProcessedImage, DownloadError>(DownloadError::NotFound),
        },
{
    match opened {
        Ok(image) => serve(image, request),
        Err(StoreError::DecodeFailed) => Err(DownloadError::Unreadable),
        Err(_) => Err(DownloadError::NotFound),
    }
}

/// Answers a download with a transform. `place` is what `locate` made of
/// the identifier, so no download is answered for an identifier that is
/// not safe; `found` is what the store holds at the path of `place`,
/// `None` where it holds nothing. Nothing found is `NotFound`; what the
/// decoder makes no image of is `Unreadable`; an image is transformed and
/// answered as `serve` says. The stored image itself is not changed.
pub fn download(
    store: &ImageStore,
    place: &Located,
    found: Option<&[u8]>,
    request: &TransformRequest,
) -> (result: Result<ProcessedImage, DownloadError>)
    ensures
        is_safe_identifier(encode_utf8(place.id_chars())),
        found is None <==> result == Err::<ProcessedImage, DownloadError>(DownloadError::NotFound),
        result matches Ok(response) ==> response.content_type == ContentType::Png,
        found is Some ==> exists|opened: Option<ImageView>|
            shows(result) == #[trigger] answered(opened, *request),
{
    proof {
        use_type_invariant(place);
    }
    let opened = store.get(found);
    let ghost cause = opened;
    let result = answer(opened, request);
    proof {
        if found is Some {
            let seen: Option<ImageView> = match cause {
                Ok(image) => Some(image@),
                Err(_) => None,
            };
            assert(shows(result) == answered(seen, *request));
        }
    }
    result
}

/// Stores an uploaded image under `name`: the receipt holds the name, the
/// path below the store's root, and the PNG file, which reads back as the
/// image, sample for sample. Fails with `UnsafeName` exactly where the
/// name is no safe identifier, and else with `Encode` exactly where the
/// image cannot be kept as PNG.
pub fn accept(store: &ImageStore, name: &str, image: &Image) -> (result: Result<
    Receipt,
    UploadError,
>)
    ensures
        match result {
            Ok(receipt) => {
                &&& is_safe_identifier(name.spec_bytes())
                &&& receipt.id@ == name@
                &&& receipt.entry.path@ == store@ + "/"@ + name@
                &&& encoded(image@) == Some(receipt.entry.bytes@)
                &&& png_decoded(receipt.entry.bytes@) == Some(image@)
            },
            Err(error) => if is_safe_identifier(name.spec_bytes()) {
                error == UploadError::Encode && !keeps(image@)
            } else {
                error == UploadError::UnsafeName
            },
        },
{
    match store.put(name, image) {
        Ok(entry) => Ok(Receipt { id: String::from_str(name), entry }),
        Err(StoreError::InvalidIdentifier) => Err(UploadError::UnsafeName),
        Err(_) => Err(UploadError::Encode),
    }
}

/// What answers an upload under `name` for each outcome of decoding its
/// file: `Decode` where the decoder made no image, and else what `accept`
/// gives for the image.
pub fn receive(store: &ImageStore, name: &str, opened: Result<Image, StoreError>) -> (result:
    Result<Receipt, UploadError>)
    ensures
        match opened {
            Err(_) => result == Err::<Receipt, UploadError>(UploadError::Decode),
            Ok(image) => match result {
                Ok(receipt) => {
                    &&& is_safe_identifier(name.spec_bytes())
                    &&& receipt.id@ == name@
                    &&& receipt.entry.path@ == store@ + "/"@ + name@
                    &&& encoded(image@) == Some(receipt.entry.bytes@)
                    &&& png_decoded(receipt.entry.bytes@) == Some(image@)
                },
                Err(error) => if is_safe_identifier(name.spec_bytes()) {
                    error == UploadError::Encode && !keeps(image@)
                } else {
                    error == UploadError::UnsafeName
                },
            },
        },
        is_safe_identifier(name.spec_bytes()) ==> files(result) == received(
            match opened {
                Ok(image) => Some(image@),
                Err(_) => None,
            },
        ),
{
    match opened {
        Ok(image) => accept(store, name, &image),
        Err(_) => Err(UploadError::Decode),
    }
}

/// Answers an upload. `parsed` says whether the request body was a form;
/// `body` is the content of the uploaded file, `None` where the form held
/// no file; `file_name` is the name it came under, which becomes the
/// identifier (`upload` where it had none). A request that is no form, has
/// no file, or names the file unsafely is turned down, in that order.
/// Else the file is decoded and the outcome answered as `receive` says:
/// `Decode` where the decoder made no image of the file, and else the
/// image stored as PNG under the name; nothing is transformed.
pub fn upload(
    store: &ImageStore,
    parsed: bool,
    file_name: Option<&str>,
    body: Option<&[u8]>,
) -> (result: Result<Receipt, UploadError>)
    ensures
        match turned_down(parsed, name_bytes_of(file_name), body is Some) {
            Some(reason) => result == Err::<Receipt, UploadError>(reason),
            None => {
                &&& exists|opened: Option<ImageView>| files(result) == #[trigger] received(opened)
                &&& result matches Ok(receipt) ==> {
                    &&& receipt.id@ == name_of(file_name)
                    &&& receipt.entry.path@ == store@ + "/"@ + name_of(file_name)
                }
            },
        },
{
    if !parsed {
        return Err(UploadError::ParseForm);
    }
    let name: &str = match file_name {
        Some(name) => name,
        None => DEFAULT_NAME,
    };
    let bytes = match body {
        Some(bytes) => bytes,
        None => {
            return Err(UploadError::MissingField);
        },
    };
    if check_identifier(name).is_err() {
        return Err(UploadError::UnsafeName);
    }
    let opened = decode(bytes);
    let ghost cause = opened;
    let result = receive(store, name, opened);
    proof {
        let seen: Option<ImageView> = match cause {
            Ok(image) => Some(image@),
            Err(_) => None,
        };
        assert(files(result) == received(seen));
    }
    result
}

} // verus!
