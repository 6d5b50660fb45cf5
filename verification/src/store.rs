//! How stored images are addressed.
//!
//! An identifier is a path below the store's root, given by whoever sends
//! a request. The store hands out a location only for identifiers that
//! stay below the root, so what reads and writes files never sees another.

use vstd::prelude::*;
use vstd::string::{StringExecFns, StringSliceAdditionalSpecFns};
use crate::codec::{decode, encode_kept, encoded, keeps, png_decoded};
use crate::error::StoreError;
use crate::raster::Image;

verus! {

/// Whether the byte parts two segments of a path: `/` or `\`.
pub open spec fn is_separator(b: u8) -> bool {
    b == 47 || b == 92
}

/// Whether a segment begins at position `i` of `s`.
pub open spec fn starts_segment(s: Seq<u8>, i: int) -> bool {
    i == 0 || is_separator(s[i - 1])
}

/// Whether a segment ends before position `i` of `s`.
pub open spec fn ends_segment(s: Seq<u8>, i: int) -> bool {
    i == s.len() || is_separator(s[i])
}

/// Whether the segment that begins at position `i` of `s` is `..`, the
/// parent directory.
pub open spec fn parent_segment_at(s: Seq<u8>, i: int) -> bool {
    &&& 0 <= i
    &&& i + 2 <= s.len()
    &&& starts_segment(s, i)
    &&& s[i] == 46
    &&& s[i + 1] == 46
    &&& ends_segment(s, i + 2)
}

/// Whether some segment of `s` is the parent directory.
pub open spec fn has_parent_segment(s: Seq<u8>) -> bool {
    exists|i: int| parent_segment_at(s, i)
}

/// Whether the bytes can serve as an identifier: they are not empty, do
/// not begin at the file system's root, and no segment of them is the
/// parent directory.
pub open spec fn is_safe_identifier(s: Seq<u8>) -> bool {
    &&& s.len() > 0
    &&& !is_separator(s[0])
    &&& !has_parent_segment(s)
}

/// Accepts the identifier exactly where it is safe. Looks at its bytes
/// and at nothing else.
pub fn check_identifier(id: &str) -> (result: Result<(), StoreError>)
    ensures
        result is Ok <==> is_safe_identifier(id.spec_bytes()),
        result matches Err(error) ==> error == StoreError::InvalidIdentifier,
        has_parent_segment(id.spec_bytes()) ==> result is Err,
{
    let bytes = id.as_bytes();
    let n = bytes.len();
    if n == 0 {
        return Err(StoreError::InvalidIdentifier);
    }
    if bytes[0] == 47 || bytes[0] == 92 {
        return Err(StoreError::InvalidIdentifier);
    }
    let mut i: usize = 0;
    while i + 1 < n
        invariant
            i < n,
            n == bytes@.len(),
            bytes@ == id.spec_bytes(),
            forall|j: int| 0 <= j < i ==> !parent_segment_at(bytes@, j),
        decreases n - i,
    {
        let begins = i == 0 || bytes[i - 1] == 47 || bytes[i - 1] == 92;
        let ends = i + 2 >= n || bytes[i + 2] == 47 || bytes[i + 2] == 92;
        if begins && bytes[i] == 46 && bytes[i + 1] == 46 && ends {
            assert(parent_segment_at(bytes@, i as int));
            return Err(StoreError::InvalidIdentifier);
        }
        i += 1;
    }
    Ok(())
}

/// What the store asks to have written: the bytes, and the path to write
/// them to.
#[derive(Debug, PartialEq, Eq)]
pub struct Entry {
    pub path: String,
    pub bytes: Vec<u8>,
}

/// Prepares the image for writing to `path`: its PNG file, read back to
/// see that it holds the image, and the path. Fails with `EncodeFailed`
/// exactly where the image cannot be kept as PNG.
pub fn save_image(image: &Image, path: String) -> (result: Result<Entry, StoreError>)
    ensures
        match result {
            Ok(entry) => {
                &&& entry.path@ == path@
                &&& encoded(image@) == Some(entry.bytes@)
                &&& png_decoded(entry.bytes@) == Some(image@)
            },
            Err(error) => error == StoreError::EncodeFailed && !keeps(image@),
        },
{
    match encode_kept(image) {
        Ok(bytes) => Ok(Entry { path, bytes }),
        Err(error) => Err(error),
    }
}

/// The image store: a directory, and the images below it, each a PNG file
/// under its identifier.
#[derive(Debug, PartialEq, Eq)]
pub struct ImageStore {
    root: String,
}

impl View for ImageStore {
    type V = Seq<char>;

    closed spec fn view(&self) -> Seq<char> {
        self.root@
    }
}

impl ImageStore {
    /// A store below the directory `root`.
    pub fn new(root: String) -> (store: ImageStore)
        ensures
            store@ == root@,
    {
        ImageStore { root }
    }

    /// The store's directory.
    pub fn root(&self) -> (root: &str)
        ensures
            root@ == self@,
    {
        self.root.as_str()
    }

    /// The path of what is stored under `id`: the root, `/`, and the
    /// identifier. Refuses the identifier with `InvalidIdentifier` exactly
    /// where it is not safe.
    pub fn path_of(&self, id: &str) -> (result: Result<String, StoreError>)
        ensures
            match result {
                Ok(path) => is_safe_identifier(id.spec_bytes()) && path@ == self@ + "/"@ + id@,
                Err(error) => error == StoreError::InvalidIdentifier && !is_safe_identifier(
                    id.spec_bytes(),
                ),
            },
            has_parent_segment(id.spec_bytes()) ==> result is Err,
    {
        match check_identifier(id) {
            Ok(()) => {
                let mut path = self.root.clone();
                path.append("/");
                path.append(id);
                Ok(path)
            },
            Err(error) => Err(error),
        }
    }

    /// Prepares the image for storing under `id`: its PNG file, and the
    /// path to write it to, replacing what is there. Whoever reads the file
    /// back as PNG gets the image, sample for sample. Refuses an unsafe
    /// identifier first, with `InvalidIdentifier`, and fails with
    /// `EncodeFailed` where the image cannot be kept as PNG.
    pub fn put(&self, id: &str, image: &Image) -> (result: Result<Entry, StoreError>)
        ensures
            match result {
                Ok(entry) => {
                    &&& is_safe_identifier(id.spec_bytes())
                    &&& entry.path@ == self@ + "/"@ + id@
                    &&& encoded(image@) == Some(entry.bytes@)
                    &&& png_decoded(entry.bytes@) == Some(image@)
                },
                Err(error) => if is_safe_identifier(id.spec_bytes()) {
                    error == StoreError::EncodeFailed && !keeps(image@)
                } else {
                    error == StoreError::InvalidIdentifier
                },
            },
    {
        match self.path_of(id) {
            Ok(path) => save_image(image, path),
            Err(error) => Err(error),
        }
    }

    /// Makes the stored image of what was found at a path that `path_of`
    /// gave: `NotFound` exactly where nothing was found, and where the
    /// decoder makes no image of what was found, `DecodeFailed`.
    pub fn get(&self, found: Option<&[u8]>) -> (result: Result<Image, StoreError>)
        ensures
            match result {
                Ok(_) => found is Some,
                Err(error) => if found is None {
                    error == StoreError::NotFound
                } else {
                    error == StoreError::DecodeFailed
                },
            },
    {
        match found {
            None => Err(StoreError::NotFound),
            Some(bytes) => decode(bytes),
        }
    }
}

} // verus!
