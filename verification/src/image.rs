//! Whether a file of the folder is an image that can be shown.

use vstd::prelude::*;
use vstd::slice::slice_subrange;

verus! {

/// How many bytes from the start of a file decide over its format.
pub const HEADER_LENGTH: usize = 12;

/// The formats that `imghdr` tells apart.
#[verifier::external_type_specification]
#[verifier::external_body]
pub struct ExImageType(imghdr::Type);

/// Whether `imghdr` knows an image format that starts with these bytes.
pub uninterp spec fn recognized_image(header: Seq<u8>) -> bool;

/// The image format of a file that starts with `header`, if `imghdr` knows
/// one.
///
/// Calls `imghdr::from_bytes`, which compares the first twelve bytes with the
/// signatures of the formats it knows and reads nothing else. It indexes
/// those bytes without a check, so there have to be twelve of them.
#[verifier::external_body]
fn sniff(header: &[u8]) -> (format: Option<imghdr::Type>)
    requires
        header@.len() >= HEADER_LENGTH,
    ensures
        format.is_some() == recognized_image(header@),
{
    imghdr::from_bytes(header)
}

/// Why an image cannot be shown.
#[derive(Debug)]
pub enum ImageError {
    /// The file could not be read; the text says why.
    Unreadable(String),
    /// The file does not start like an image of any known format.
    InvalidData,
}

impl ImageError {
    /// The error in words, to be shown in place of the image.
    pub open spec fn spec_message(&self) -> Seq<char> {
        match *self {
            ImageError::Unreadable(reason) => reason@,
            ImageError::InvalidData => "Invalid file, please check if it is a valid image file!"@,
        }
    }

    /// The error in words, to be shown in place of the image.
    pub fn message(&self) -> (text: String)
        ensures
            text@ == self.spec_message(),
    {
        match self {
            ImageError::Unreadable(reason) => reason.clone(),
            ImageError::InvalidData => {
                "Invalid file, please check if it is a valid image file!".to_string()
            },
        }
    }
}

/// What the check of a file's first bytes came to: the reason why they could
/// not be read, or whether they are those of an image.
pub type Sniffed = Result<bool, String>;

/// What is shown for the image at `path`, given what the check of its first
/// bytes came to: the image itself where the bytes are those of an image.
pub fn accept_image(path: String, sniffed: Sniffed) -> (shown: Result<String, ImageError>)
    ensures
        match sniffed {
            Ok(true) => shown == Ok::<String, ImageError>(path),
            Ok(false) => shown == Err::<String, ImageError>(ImageError::InvalidData),
            Err(reason) => shown == Err::<String, ImageError>(ImageError::Unreadable(reason)),
        },
{
    match sniffed {
        Ok(true) => Ok(path),
        Ok(false) => Err(ImageError::InvalidData),
        Err(reason) => Err(ImageError::Unreadable(reason)),
    }
}

/// What the first bytes of a file say of it, where `header` holds what the
/// shell read from its start, or the reason why it could not read.
///
/// A file shorter than `HEADER_LENGTH` bytes is no image. Of a longer header
/// only the first `HEADER_LENGTH` bytes count.
pub open spec fn sniffed_header(header: Result<Vec<u8>, String>) -> Sniffed {
    match header {
        Ok(bytes) => Ok(
            bytes@.len() >= HEADER_LENGTH && recognized_image(
                bytes@.subrange(0, HEADER_LENGTH as int),
            ),
        ),
        Err(reason) => Err(reason),
    }
}

/// Checks the first bytes of a file.
pub fn sniff_header(header: Result<Vec<u8>, String>) -> (sniffed: Sniffed)
    ensures
        sniffed == sniffed_header(header),
{
    match header {
        Ok(bytes) => {
            if bytes.len() < HEADER_LENGTH {
                Ok(false)
            } else {
                Ok(sniff(slice_subrange(bytes.as_slice(), 0, HEADER_LENGTH)).is_some())
            }
        },
        Err(reason) => Err(reason),
    }
}

/// The image to show for the current position, or the reason why none can be
/// shown. `header` holds the first bytes of the file at that position, as
/// the shell read them, or the reason why it could not read them.
///
/// The position has to be one of the list.
pub fn fetch_image(all_images: Vec<String>, curr_idx: &usize, header: Result<Vec<u8>, String>) -> (shown:
    Result<String, ImageError>)
    requires
        *curr_idx < all_images.len(),
    ensures
        match sniffed_header(header) {
            Ok(true) => shown matches Ok(path) && path@ == all_images[*curr_idx as int]@,
            Ok(false) => shown == Err::<String, ImageError>(ImageError::InvalidData),
            Err(reason) => shown == Err::<String, ImageError>(ImageError::Unreadable(reason)),
        },
{
    let path = all_images[*curr_idx].clone();
    accept_image(path, sniff_header(header))
}

} // verus!
