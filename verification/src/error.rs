//! The ways a request can fail.

use vstd::prelude::*;

verus! {

/// Why the image store could not do what it was asked.
#[derive(Clone, Copy, Debug, PartialEq, Eq, Structural)]
pub enum StoreError {
    /// The identifier could lead out of the store's directory, or names
    /// nothing.
    InvalidIdentifier,
    /// Nothing is stored under the identifier.
    NotFound,
    /// What is stored is no image that can be read.
    DecodeFailed,
    /// The image cannot be written as PNG.
    EncodeFailed,
    /// Writing to the store failed.
    WriteFailed,
}

/// The kind of failure that a caller is told of.
#[derive(Clone, Copy, Debug, PartialEq, Eq, Structural)]
pub enum ErrorKind {
    /// The request cannot be read: no file field, an unusable file name.
    MalformedRequest,
    /// The bytes are no image in a known format.
    UnsupportedImageFormat,
    /// Nothing is stored under the identifier.
    NotFound,
    /// Reading from or writing to the store failed.
    StorageIO,
    /// The transformed image could not be encoded.
    EncodeFailure,
}

/// The kind under which a failure of the store is reported.
pub open spec fn kind_of(error: StoreError) -> ErrorKind {
    match error {
        StoreError::InvalidIdentifier => ErrorKind::NotFound,
        StoreError::NotFound => ErrorKind::NotFound,
        StoreError::DecodeFailed => ErrorKind::UnsupportedImageFormat,
        StoreError::EncodeFailed => ErrorKind::EncodeFailure,
        StoreError::WriteFailed => ErrorKind::StorageIO,
    }
}

/// The HTTP status that a failure of each kind is answered with: in the
/// four hundreds for what the caller sent, 500 for the server's own faults.
pub open spec fn status_of(kind: ErrorKind) -> u16 {
    match kind {
        ErrorKind::MalformedRequest => 400u16,
        ErrorKind::UnsupportedImageFormat => 415u16,
        ErrorKind::NotFound => 404u16,
        ErrorKind::StorageIO => 500u16,
        ErrorKind::EncodeFailure => 500u16,
    }
}

impl ErrorKind {
    /// The kind under which a failure of the store is reported. An
    /// identifier that the store refuses names nothing that is stored.
    pub fn of_store(error: StoreError) -> (kind: ErrorKind)
        ensures
            kind == kind_of(error),
    {
        match error {
            StoreError::InvalidIdentifier => ErrorKind::NotFound,
            StoreError::NotFound => ErrorKind::NotFound,
            StoreError::DecodeFailed => ErrorKind::UnsupportedImageFormat,
            StoreError::EncodeFailed => ErrorKind::EncodeFailure,
            StoreError::WriteFailed => ErrorKind::StorageIO,
        }
    }

    /// Whether the failure is the server's own: only a failure of storage
    /// or of encoding is; the others come from what the caller sent.
    pub fn is_server_fault(self) -> (fault: bool)
        ensures
            fault == (self == ErrorKind::StorageIO || self == ErrorKind::EncodeFailure),
    {
        match self {
            ErrorKind::StorageIO => true,
            ErrorKind::EncodeFailure => true,
            _ => false,
        }
    }

    /// The HTTP status to answer with.
    pub fn status(self) -> (code: u16)
        ensures
            code == status_of(self),
            400 <= code < 600,
            code >= 500 <==> (self == ErrorKind::StorageIO || self == ErrorKind::EncodeFailure),
    {
        match self {
            ErrorKind::MalformedRequest => 400,
            ErrorKind::UnsupportedImageFormat => 415,
            ErrorKind::NotFound => 404,
            ErrorKind::StorageIO => 500,
            ErrorKind::EncodeFailure => 500,
        }
    }
}

} // verus!
