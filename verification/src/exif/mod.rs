//! Removal of metadata from images. The format is told from the first
//! bytes; JPEG, PNG and WebP are rewritten record by record, every other
//! known format is decoded and encoded again.

pub mod codec;
pub mod error;
pub mod jpeg;
pub mod png;
pub mod reader;
pub mod webp;

use crate::clipboard::{is_jpeg_signature, signature_format, ImageFormat};
use crate::exif::codec::{
    codec_format, codec_format_of, codec_outcome, decode, encode, guess_format, is_codec_outcome,
};
use crate::exif::error::{outcome, FormatError};
use crate::exif::jpeg::{
    jpeg_all_kept, jpeg_cut_inside, jpeg_framed, jpeg_stripped, lemma_jpeg_clean_input_unchanged,
    lemma_jpeg_strip_idempotent, lemma_jpeg_truncated_rejected, strip_jpeg_exif,
};
use crate::exif::png::{
    lemma_png_clean_input_unchanged, lemma_png_output_clean, lemma_png_strip_idempotent,
    lemma_png_truncated_rejected, png_all_kept, png_boundary, png_stripped, strip_png_exif,
};
use crate::exif::webp::{
    lemma_webp_size_field, lemma_webp_strip_idempotent, strip_webp_exif, webp_stripped,
};
use vstd::prelude::*;

verus! {

/// Whether `data` is of a format that has no rewriter and goes through
/// the codec: a GIF, a BMP or a TIFF by its signature.
pub open spec fn through_codec(data: Seq<u8>) -> bool {
    data.len() >= 8 && (signature_format(data) == ImageFormat::Gif || signature_format(data)
        == ImageFormat::Bmp || signature_format(data) == ImageFormat::Tiff)
}

/// What stripping yields, where that is for the rewriters to say: by the
/// signature, the result of the rewriter for that format, and an error for
/// data that is too short or that no signature opens. `None` for data that
/// goes through the codec.
pub open spec fn stripped(data: Seq<u8>) -> Option<Result<Seq<u8>, FormatError>> {
    if data.len() < 8 {
        Some(Err(FormatError::TooShort))
    } else {
        match signature_format(data) {
            ImageFormat::Jpeg => Some(jpeg_stripped(data)),
            ImageFormat::Png => Some(png_stripped(data)),
            ImageFormat::WebP => Some(webp_stripped(data)),
            ImageFormat::Unknown => Some(Err(FormatError::UnknownFormat)),
            _ => None,
        }
    }
}

/// Tells the format of `data` from its signature. Data shorter than eight
/// bytes is refused; data that no signature opens is `Unknown`.
pub fn detect_format(data: &[u8]) -> (r: Result<ImageFormat, FormatError>)
    ensures
        data@.len() < 8 ==> r == Err::<ImageFormat, FormatError>(FormatError::TooShort),
        data@.len() >= 8 ==> r == Ok::<ImageFormat, FormatError>(signature_format(data@)),
{
    if data.len() < 8 {
        return Err(FormatError::TooShort);
    }
    Ok(guess_format(data))
}

/// Strips metadata by decoding the picture and encoding it again in the
/// given format, which is its own where the format was told from its
/// signature. Fails for `Unknown` without asking the codec. With any other
/// format the codec decides: the result is what it encoded, or tells which
/// of its two steps failed.
pub fn strip_generic(data: &[u8], format: ImageFormat) -> (r: Result<Vec<u8>, FormatError>)
    ensures
        format == ImageFormat::Unknown ==> r == Err::<Vec<u8>, FormatError>(
            FormatError::UnknownFormat,
        ),
        format != ImageFormat::Unknown ==> is_codec_outcome(r),
{
    match codec_format(format) {
        None => Err(FormatError::UnknownFormat),
        Some(target) => {
            let answer = match decode(data) {
                Ok(picture) => Ok(encode(&picture, target)),
                Err(e) => Err(e),
            };
            codec_outcome(answer)
        },
    }
}

/// Strips identifying metadata from an image and returns the rewritten
/// bytes, in the same container format. Either the whole image is rewritten
/// or an error is returned; the caller keeps its own bytes then. A JPEG, a
/// PNG and a WebP are rewritten record by record; a GIF, a BMP and a TIFF
/// go through the codec, which decides what comes out.
pub fn strip_exif(data: &[u8]) -> (r: Result<Vec<u8>, FormatError>)
    ensures
        match stripped(data@) {
            Some(result) => outcome(r) == result,
            None => is_codec_outcome(r),
        },
{
    let format = match detect_format(data) {
        Ok(format) => format,
        Err(e) => {
            return Err(e);
        },
    };
    match format {
        ImageFormat::Jpeg => strip_jpeg_exif(data),
        ImageFormat::Png => strip_png_exif(data),
        ImageFormat::WebP => strip_webp_exif(data),
        _ => strip_generic(data, format),
    }
}

/// Whether `data` is a JPEG, a PNG or a WebP by its signature: one of the
/// formats that are rewritten record by record.
pub open spec fn has_rewriter(data: Seq<u8>) -> bool {
    data.len() >= 8 && (signature_format(data) == ImageFormat::Jpeg || signature_format(data)
        == ImageFormat::Png || signature_format(data) == ImageFormat::WebP)
}

/// Whether a second pass over the output of stripping `data` finds what
/// the first pass found. It does for every PNG and WebP. For a JPEG it takes
/// that a marker follows every run of entropy-coded data in the output, and
/// that the output is still long enough, and opens as a JPEG does, to be
/// told for one.
pub open spec fn restrippable(data: Seq<u8>) -> bool {
    signature_format(data) == ImageFormat::Jpeg ==> {
        &&& jpeg_framed(data, 0)
        &&& stripped(data) matches Some(Ok(out))
        &&& out.len() >= 8
        &&& is_jpeg_signature(out)
    }
}

/// The codec decides for a GIF, a BMP and a TIFF, and for nothing else.
pub proof fn lemma_codec_formats(data: Seq<u8>)
    ensures
        stripped(data).is_none() <==> through_codec(data),
{
}

/// The bytes that stripping yields, where it yields any.
pub open spec fn stripped_bytes(data: Seq<u8>) -> Seq<u8> {
    stripped(data).unwrap().unwrap()
}

/// Stripping twice gives what stripping once gives, for the three formats
/// with a rewriter. A JPEG has to meet `restrippable`: the eighteen bytes
/// `FF D8 FF E1 00 0C 45 78 69 66 00 00 74 65 73 74 FF D9` strip to `FF D8 FF
/// D9`, which is too short to be told for an image.
pub proof fn lemma_strip_idempotent(data: Seq<u8>)
    requires
        has_rewriter(data),
        stripped(data) matches Some(Ok(_)),
        restrippable(data),
    ensures
        stripped(stripped_bytes(data)) == stripped(data),
{
    let out = stripped_bytes(data);
    match signature_format(data) {
        ImageFormat::Jpeg => {
            lemma_jpeg_strip_idempotent(data);
        },
        ImageFormat::Png => {
            lemma_png_output_clean(data);
            lemma_png_strip_idempotent(data);
            assert(out[0] == out.subrange(0, 8)[0] && out[1] == out.subrange(0, 8)[1] && out[2]
                == out.subrange(0, 8)[2] && out[3] == out.subrange(0, 8)[3]);
            assert(out[4] == out.subrange(0, 8)[4] && out[5] == out.subrange(0, 8)[5] && out[6]
                == out.subrange(0, 8)[6] && out[7] == out.subrange(0, 8)[7]);
            assert(data[0] == data.subrange(0, 8)[0] && data[1] == data.subrange(0, 8)[1]
                && data[2] == data.subrange(0, 8)[2] && data[3] == data.subrange(0, 8)[3]);
            assert(data[4] == data.subrange(0, 8)[4] && data[5] == data.subrange(0, 8)[5]
                && data[6] == data.subrange(0, 8)[6] && data[7] == data.subrange(0, 8)[7]);
        },
        _ => {
            lemma_webp_size_field(data);
            lemma_webp_strip_idempotent(data);
        },
    }
}

/// A JPEG or PNG that holds nothing to strip comes back byte for byte: a
/// PNG whose chunks are all whole and of kept types, a JPEG whose records
/// are all copied as they stand, which includes the fixed JFIF segment.
pub proof fn lemma_strip_clean_input_unchanged(data: Seq<u8>)
    requires
        data.len() >= 8,
        (signature_format(data) == ImageFormat::Png && png_all_kept(data, 8)) || (signature_format(
            data,
        ) == ImageFormat::Jpeg && jpeg_all_kept(data, 0)),
    ensures
        stripped(data) == Some(Ok::<Seq<u8>, FormatError>(data)),
{
    if signature_format(data) == ImageFormat::Png {
        lemma_png_clean_input_unchanged(data);
    } else {
        lemma_jpeg_clean_input_unchanged(data);
    }
}

/// A JPEG or PNG cut short inside a record is refused: the first `n` bytes
/// of a PNG, where no chunk of it begins at `n`, and the first `n` bytes of
/// a JPEG, where `n` falls inside one of its records.
pub proof fn lemma_strip_truncated_rejected(data: Seq<u8>, n: int)
    requires
        0 <= n < data.len(),
        (signature_format(data) == ImageFormat::Png && !png_boundary(data, 8, n)) || (
        signature_format(data) == ImageFormat::Jpeg && jpeg_cut_inside(data, 0, n)),
    ensures
        stripped(data.subrange(0, n)) matches Some(Err(_)),
{
    let cut = data.subrange(0, n);
    if n >= 8 {
        assert(cut[0] == data[0] && cut[1] == data[1] && cut[2] == data[2] && cut[3] == data[3]);
        assert(cut[4] == data[4] && cut[5] == data[5] && cut[6] == data[6] && cut[7] == data[7]);
        if signature_format(data) == ImageFormat::Png {
            lemma_png_truncated_rejected(data, n);
        } else {
            lemma_jpeg_truncated_rejected(data, n);
        }
    }
}

} // verus!
