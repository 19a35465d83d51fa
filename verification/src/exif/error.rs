//! Why an image could not be rewritten.

use vstd::prelude::*;

verus! {

/// The ways in which stripping fails. No output is produced on any of them.
#[derive(Clone, Copy, Debug, PartialEq, Eq, Structural)]
pub enum FormatError {
    /// Fewer than eight bytes: too short to tell the format.
    TooShort,
    /// No known signature opens the data.
    UnknownFormat,
    /// A JPEG segment or its entropy-coded data is cut short by the end of the input.
    TruncatedJpeg,
    /// The data is shorter than a PNG signature.
    InvalidPngFile,
    /// A PNG chunk is cut short by the end of the input.
    InvalidPngChunk,
    /// The data does not open with a RIFF header that names WEBP.
    InvalidWebp,
    /// The chunks to keep do not fit the 32-bit size field of a RIFF header.
    WebpTooLarge,
    /// The image codec could not decode the data.
    DecodeFailed,
    /// The image codec could not encode the picture again.
    EncodeFailed,
}

impl FormatError {
    /// The text of the error.
    pub open spec fn message(self) -> Seq<char> {
        match self {
            FormatError::TooShort => "Data too short to detect format"@,
            FormatError::UnknownFormat => "Failed to detect image format"@,
            FormatError::TruncatedJpeg => "Truncated JPEG data"@,
            FormatError::InvalidPngFile => "Invalid PNG file"@,
            FormatError::InvalidPngChunk => "Invalid PNG chunk"@,
            FormatError::InvalidWebp => "Not a valid WebP file"@,
            FormatError::WebpTooLarge => "WebP data too large"@,
            FormatError::DecodeFailed => "Failed to load image"@,
            FormatError::EncodeFailed => "Failed to re-encode image"@,
        }
    }

    /// Writes the error out for the user.
    pub fn to_string(&self) -> (text: String)
        ensures
            text@ == self.message(),
    {
        match self {
            FormatError::TooShort => String::from_str("Data too short to detect format"),
            FormatError::UnknownFormat => String::from_str("Failed to detect image format"),
            FormatError::TruncatedJpeg => String::from_str("Truncated JPEG data"),
            FormatError::InvalidPngFile => String::from_str("Invalid PNG file"),
            FormatError::InvalidPngChunk => String::from_str("Invalid PNG chunk"),
            FormatError::InvalidWebp => String::from_str("Not a valid WebP file"),
            FormatError::WebpTooLarge => String::from_str("WebP data too large"),
            FormatError::DecodeFailed => String::from_str("Failed to load image"),
            FormatError::EncodeFailed => String::from_str("Failed to re-encode image"),
        }
    }
}

/// What a rewriter hands back, seen as a value of the model: the bytes on
/// success, the error otherwise.
pub open spec fn outcome(r: Result<Vec<u8>, FormatError>) -> Result<Seq<u8>, FormatError> {
    match r {
        Ok(v) => Ok(v@),
        Err(e) => Err(e),
    }
}

/// `head` followed by what is still to come, where that is known to succeed.
pub open spec fn prepend(head: Seq<u8>, tail: Option<Seq<u8>>) -> Option<Seq<u8>> {
    match tail {
        Some(t) => Some(head + t),
        None => None,
    }
}

} // verus!
