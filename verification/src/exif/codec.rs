//! The image codec behind the rewriters: signature sniffing and the full
//! decode and encode that serves formats without a rewriter of their own.
//! What the codec makes of a picture is its own affair; nothing here says
//! what it decodes or what bytes it writes.

use crate::clipboard::{signature_format, ImageFormat};
use crate::exif::error::FormatError;
use vstd::prelude::*;

verus! {

/// The error type of the image codec.
#[verifier::external_type_specification]
#[verifier::external_body]
pub struct ExImageError(image::ImageError);

/// A decoded picture, as the image codec holds it.
#[verifier::external_type_specification]
#[verifier::external_body]
pub struct ExDynamicImage(image::DynamicImage);

/// The formats that the codec encodes.
#[derive(Clone, Copy, Debug, PartialEq, Eq, Structural)]
pub enum CodecFormat {
    Png,
    Jpeg,
    Gif,
    Bmp,
    Tiff,
    WebP,
}

/// The codec's format for an image format; none for `Unknown`.
pub open spec fn codec_format_of(format: ImageFormat) -> Option<CodecFormat> {
    match format {
        ImageFormat::Png => Some(CodecFormat::Png),
        ImageFormat::Jpeg => Some(CodecFormat::Jpeg),
        ImageFormat::Gif => Some(CodecFormat::Gif),
        ImageFormat::Bmp => Some(CodecFormat::Bmp),
        ImageFormat::Tiff => Some(CodecFormat::Tiff),
        ImageFormat::WebP => Some(CodecFormat::WebP),
        ImageFormat::Unknown => None,
    }
}

/// What a pass through the codec comes to, given what the codec answered:
/// outside, how decoding went; inside, how encoding went.
pub open spec fn codec_result(
    answer: Result<Result<Vec<u8>, image::ImageError>, image::ImageError>,
) -> Result<Seq<u8>, FormatError> {
    match answer {
        Err(_) => Err(FormatError::DecodeFailed),
        Ok(Err(_)) => Err(FormatError::EncodeFailed),
        Ok(Ok(bytes)) => Ok(bytes@),
    }
}

/// Whether a result is one that a pass through the codec can end in: some
/// bytes, or the failure of one of its two steps.
pub open spec fn is_codec_outcome(r: Result<Vec<u8>, FormatError>) -> bool {
    r is Ok || r == Err::<Vec<u8>, FormatError>(FormatError::DecodeFailed) || r == Err::<
        Vec<u8>,
        FormatError,
    >(FormatError::EncodeFailed)
}

/// Says what a pass through the codec comes to, from what the codec
/// answered: the bytes where both steps worked, else which step failed.
pub fn codec_outcome(
    answer: Result<Result<Vec<u8>, image::ImageError>, image::ImageError>,
) -> (r: Result<Vec<u8>, FormatError>)
    ensures
        crate::exif::error::outcome(r) == codec_result(answer),
        is_codec_outcome(r),
{
    match answer {
        Err(_) => Err(FormatError::DecodeFailed),
        Ok(Err(_)) => Err(FormatError::EncodeFailed),
        Ok(Ok(bytes)) => Ok(bytes),
    }
}

/// Gives the codec's format for an image format.
pub fn codec_format(format: ImageFormat) -> (r: Option<CodecFormat>)
    ensures
        r == codec_format_of(format),
{
    match format {
        ImageFormat::Png => Some(CodecFormat::Png),
        ImageFormat::Jpeg => Some(CodecFormat::Jpeg),
        ImageFormat::Gif => Some(CodecFormat::Gif),
        ImageFormat::Bmp => Some(CodecFormat::Bmp),
        ImageFormat::Tiff => Some(CodecFormat::Tiff),
        ImageFormat::WebP => Some(CodecFormat::WebP),
        ImageFormat::Unknown => None,
    }
}

/// Calls `image::guess_format`, which goes through the codec's table of
/// magic bytes and takes the first entry that opens the data. Not proved:
/// that for the six formats told apart here the table holds the signatures
/// of `signature_format` and no others, and that every other entry, and no
/// entry at all, comes out as `Unknown`.
#[verifier::external_body]
pub(crate) fn guess_format(data: &[u8]) -> (format: ImageFormat)
    ensures
        format == signature_format(data@),
{
    match image::guess_format(data) {
        Ok(image::ImageFormat::Png) => ImageFormat::Png,
        Ok(image::ImageFormat::Jpeg) => ImageFormat::Jpeg,
        Ok(image::ImageFormat::Gif) => ImageFormat::Gif,
        Ok(image::ImageFormat::Bmp) => ImageFormat::Bmp,
        Ok(image::ImageFormat::Tiff) => ImageFormat::Tiff,
        Ok(image::ImageFormat::WebP) => ImageFormat::WebP,
        _ => ImageFormat::Unknown,
    }
}

/// Calls `image::load_from_memory`, which tells the format from the data
/// and decodes it. Nothing is claimed of the picture or of the failure.
#[verifier::external_body]
pub(crate) fn decode(data: &[u8]) -> (r: Result<image::DynamicImage, image::ImageError>) {
    image::load_from_memory(data)
}

/// Calls `DynamicImage::write_to` with the codec's own value for the
/// format. Nothing is claimed of the bytes or of the failure.
#[verifier::external_body]
pub(crate) fn encode(picture: &image::DynamicImage, format: CodecFormat) -> (r: Result<
    Vec<u8>,
    image::ImageError,
>) {
    let target = match format {
        CodecFormat::Png => image::ImageFormat::Png,
        CodecFormat::Jpeg => image::ImageFormat::Jpeg,
        CodecFormat::Gif => image::ImageFormat::Gif,
        CodecFormat::Bmp => image::ImageFormat::Bmp,
        CodecFormat::Tiff => image::ImageFormat::Tiff,
        CodecFormat::WebP => image::ImageFormat::WebP,
    };
    let mut buffer = std::io::Cursor::new(Vec::new());
    picture.write_to(&mut buffer, target).map(|_| buffer.into_inner())
}

} // verus!
