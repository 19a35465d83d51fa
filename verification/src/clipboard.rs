//! What a clipboard holds, and the image formats told apart by their
//! opening bytes.

use crate::naming::{is_random_name, random_name};
use crate::text::{has_prefix, is_blank, is_blank_text, starts_with, to_chars};
use std::path::PathBuf;
use vstd::prelude::*;
use vstd::string::StringSliceAdditionalSpecFns;
use vstd::utf8::encode_utf8;

verus! {

/// A path of the file system, as `std` has it.
#[verifier::external_type_specification]
#[verifier::external_body]
pub struct ExPathBuf(PathBuf);

/// What the clipboard was found to hold.
#[derive(Debug)]
pub enum ClipboardContent {
    Text(String),
    Image { data: Vec<u8>, format: ImageFormat },
    Files(Vec<PathBuf>),
    Empty,
}

/// An image container format, as its signature shows it.
#[derive(Clone, Copy, Debug, PartialEq, Eq, Structural)]
pub enum ImageFormat {
    Png,
    Jpeg,
    Gif,
    Bmp,
    Tiff,
    WebP,
    Unknown,
}

/// `89 50 4E 47 0D 0A 1A 0A`
pub open spec fn is_png_signature(d: Seq<u8>) -> bool {
    &&& d.len() >= 8
    &&& d[0] == 0x89
    &&& d[1] == 0x50
    &&& d[2] == 0x4E
    &&& d[3] == 0x47
    &&& d[4] == 0x0D
    &&& d[5] == 0x0A
    &&& d[6] == 0x1A
    &&& d[7] == 0x0A
}

/// `FF D8 FF`
pub open spec fn is_jpeg_signature(d: Seq<u8>) -> bool {
    d.len() >= 3 && d[0] == 0xFF && d[1] == 0xD8 && d[2] == 0xFF
}

/// `GIF87a` or `GIF89a`
pub open spec fn is_gif_signature(d: Seq<u8>) -> bool {
    &&& d.len() >= 6
    &&& d[0] == 0x47
    &&& d[1] == 0x49
    &&& d[2] == 0x46
    &&& d[3] == 0x38
    &&& (d[4] == 0x37 || d[4] == 0x39)
    &&& d[5] == 0x61
}

/// `BM`
pub open spec fn is_bmp_signature(d: Seq<u8>) -> bool {
    d.len() >= 2 && d[0] == 0x42 && d[1] == 0x4D
}

/// `RIFF`, four bytes of any value, `WEBP`
pub open spec fn is_webp_signature(d: Seq<u8>) -> bool {
    &&& d.len() >= 12
    &&& d[0] == 0x52
    &&& d[1] == 0x49
    &&& d[2] == 0x46
    &&& d[3] == 0x46
    &&& d[8] == 0x57
    &&& d[9] == 0x45
    &&& d[10] == 0x42
    &&& d[11] == 0x50
}

/// `4D 4D 00 2A` or `49 49 2A 00`
pub open spec fn is_tiff_signature(d: Seq<u8>) -> bool {
    &&& d.len() >= 4
    &&& {
        ||| d[0] == 0x4D && d[1] == 0x4D && d[2] == 0x00 && d[3] == 0x2A
        ||| d[0] == 0x49 && d[1] == 0x49 && d[2] == 0x2A && d[3] == 0x00
    }
}

/// The format whose signature opens `d`; the first that matches, in this
/// order, though no two of them can match at once.
pub open spec fn signature_format(d: Seq<u8>) -> ImageFormat {
    if is_png_signature(d) {
        ImageFormat::Png
    } else if is_jpeg_signature(d) {
        ImageFormat::Jpeg
    } else if is_gif_signature(d) {
        ImageFormat::Gif
    } else if is_bmp_signature(d) {
        ImageFormat::Bmp
    } else if is_webp_signature(d) {
        ImageFormat::WebP
    } else if is_tiff_signature(d) {
        ImageFormat::Tiff
    } else {
        ImageFormat::Unknown
    }
}

/// The format that `detect_image_format` reports: that of the signature,
/// but `Unknown` for anything shorter than eight bytes.
pub open spec fn detected_format(d: Seq<u8>) -> ImageFormat {
    if d.len() < 8 {
        ImageFormat::Unknown
    } else {
        signature_format(d)
    }
}

/// No two signatures match the same data.
pub proof fn lemma_signatures_exclusive(d: Seq<u8>)
    ensures
        is_png_signature(d) ==> !is_jpeg_signature(d) && !is_gif_signature(d) && !is_bmp_signature(
            d,
        ) && !is_webp_signature(d) && !is_tiff_signature(d),
        is_jpeg_signature(d) ==> !is_gif_signature(d) && !is_bmp_signature(d)
            && !is_webp_signature(d) && !is_tiff_signature(d),
        is_gif_signature(d) ==> !is_bmp_signature(d) && !is_webp_signature(d)
            && !is_tiff_signature(d),
        is_bmp_signature(d) ==> !is_webp_signature(d) && !is_tiff_signature(d),
        is_webp_signature(d) ==> !is_tiff_signature(d),
{
}

/// Tells the image format from the first bytes of `data`. Data shorter than
/// eight bytes has no format.
pub fn detect_image_format(data: &[u8]) -> (format: ImageFormat)
    ensures
        format == detected_format(data@),
{
    let n = data.len();
    if n < 8 {
        return ImageFormat::Unknown;
    }
    if data[0] == 0x89 && data[1] == 0x50 && data[2] == 0x4E && data[3] == 0x47 && data[4] == 0x0D
        && data[5] == 0x0A && data[6] == 0x1A && data[7] == 0x0A {
        return ImageFormat::Png;
    }
    if data[0] == 0xFF && data[1] == 0xD8 && data[2] == 0xFF {
        return ImageFormat::Jpeg;
    }
    if data[0] == 0x47 && data[1] == 0x49 && data[2] == 0x46 && data[3] == 0x38 && (data[4] == 0x37
        || data[4] == 0x39) && data[5] == 0x61 {
        return ImageFormat::Gif;
    }
    if data[0] == 0x42 && data[1] == 0x4D {
        return ImageFormat::Bmp;
    }
    if n >= 12 && data[0] == 0x52 && data[1] == 0x49 && data[2] == 0x46 && data[3] == 0x46
        && data[8] == 0x57 && data[9] == 0x45 && data[10] == 0x42 && data[11] == 0x50 {
        return ImageFormat::WebP;
    }
    if (data[0] == 0x4D && data[1] == 0x4D && data[2] == 0x00 && data[3] == 0x2A) || (data[0]
        == 0x49 && data[1] == 0x49 && data[2] == 0x2A && data[3] == 0x00) {
        return ImageFormat::Tiff;
    }
    ImageFormat::Unknown
}

/// The file extension for an image of the given format.
pub open spec fn extension_of(format: ImageFormat) -> Seq<char> {
    match format {
        ImageFormat::Png => "png"@,
        ImageFormat::Jpeg => "jpg"@,
        ImageFormat::Gif => "gif"@,
        ImageFormat::Bmp => "bmp"@,
        ImageFormat::Tiff => "tiff"@,
        ImageFormat::WebP => "webp"@,
        ImageFormat::Unknown => "bin"@,
    }
}

/// Gives the file extension, without a dot, under which an image taken from
/// the clipboard is uploaded.
pub fn get_clipboard_extension(format: &ImageFormat) -> (ext: &'static str)
    ensures
        ext@ == extension_of(*format),
{
    match format {
        ImageFormat::Png => "png",
        ImageFormat::Jpeg => "jpg",
        ImageFormat::Gif => "gif",
        ImageFormat::Bmp => "bmp",
        ImageFormat::Tiff => "tiff",
        ImageFormat::WebP => "webp",
        ImageFormat::Unknown => "bin",
    }
}

/// Bytes that stand for printable text: visible ASCII, the space, tab,
/// line feed, form feed and carriage return.
pub open spec fn is_text_byte(b: u8) -> bool {
    (0x21 <= b <= 0x7E) || b == 0x20 || b == 0x09 || b == 0x0A || b == 0x0C || b == 0x0D
}

/// Number of text bytes among the first `upto` bytes of `data`.
pub open spec fn text_byte_count(data: Seq<u8>, upto: int) -> int
    decreases upto,
{
    if upto <= 0 {
        0
    } else {
        text_byte_count(data, upto - 1) + (if is_text_byte(data[upto - 1]) {
            1int
        } else {
            0int
        })
    }
}

/// Whether `d` opens like a file that is no text: a JPEG, a PNG, a GIF or
/// a PDF.
pub open spec fn has_binary_signature(d: Seq<u8>) -> bool {
    ||| is_jpeg_signature(d)
    ||| d.len() >= 4 && d[0] == 0x89 && d[1] == 0x50 && d[2] == 0x4E && d[3] == 0x47
    ||| is_gif_signature(d)
    ||| d.len() >= 4 && d[0] == 0x25 && d[1] == 0x50 && d[2] == 0x44 && d[3] == 0x46
}

/// Whether data is taken for binary: more than four bytes that open with a
/// binary signature, or of which fewer than four in five are text bytes.
pub open spec fn likely_binary(d: Seq<u8>) -> bool {
    d.len() > 4 && (has_binary_signature(d) || 5 * text_byte_count(d, d.len() as int) < 4
        * d.len())
}

/// Tells whether a byte stands for printable text.
pub fn byte_is_text(b: u8) -> (r: bool)
    ensures
        r == is_text_byte(b),
{
    (0x21 <= b && b <= 0x7E) || b == 0x20 || b == 0x09 || b == 0x0A || b == 0x0C || b == 0x0D
}

/// Tells whether data that came as text is more likely binary.
pub fn is_likely_binary_data(data: &[u8]) -> (r: bool)
    ensures
        r == likely_binary(data@),
{
    let n = data.len();
    if n <= 4 {
        return false;
    }
    if (data[0] == 0xFF && data[1] == 0xD8 && data[2] == 0xFF) || (data[0] == 0x89 && data[1]
        == 0x50 && data[2] == 0x4E && data[3] == 0x47) || (n >= 6 && data[0] == 0x47 && data[1]
        == 0x49 && data[2] == 0x46 && data[3] == 0x38 && (data[4] == 0x37 || data[4] == 0x39)
        && data[5] == 0x61) || (data[0] == 0x25 && data[1] == 0x50 && data[2] == 0x44 && data[3]
        == 0x46) {
        return true;
    }
    let mut text_chars: usize = 0;
    let mut i: usize = 0;
    while i < n
        invariant
            i <= n,
            n == data@.len(),
            text_chars == text_byte_count(data@, i as int),
            text_chars <= i,
        decreases n - i,
    {
        if byte_is_text(data[i]) {
            text_chars += 1;
        }
        i += 1;
    }
    (text_chars as u128) * 5 < (n as u128) * 4
}

/// An extension with its dot: as it is where it has one.
pub open spec fn dotted(extension: Seq<char>) -> Seq<char> {
    if has_prefix(extension, "."@) {
        extension
    } else {
        "."@ + extension
    }
}

/// Puts `stem` in front of the extension, which gets a dot where it has none.
pub fn filename_with_stem(stem: &str, extension: &str) -> (name: String)
    ensures
        name@ == stem@ + dotted(extension@),
{
    let mut name = String::from_str(stem);
    if !starts_with(extension, ".") {
        name.append(".");
    }
    name.append(extension);
    assert(name@ =~= stem@ + dotted(extension@));
    name
}

/// Makes up a file name: eight random letters and digits, then the
/// extension, with a dot between them.
pub fn generate_random_filename(extension: &str) -> (name: String)
    ensures
        exists|stem: Seq<char>|
            is_random_name(stem) && name@ == #[trigger] (stem + dotted(extension@)),
{
    let stem = random_name();
    filename_with_stem(stem.as_str(), extension)
}

/// What text from the clipboard is taken for, before the file system is
/// asked about the paths it may name: nothing, an image that came as text,
/// or text that may name files.
pub enum TextKind {
    Blank,
    Image,
    Words,
}

/// What text of the clipboard is taken for. Blank text is nothing; text of
/// more than a hundred bytes that looks binary is an image.
pub open spec fn text_kind(text: Seq<char>, bytes: Seq<u8>) -> TextKind {
    if is_blank(text) {
        TextKind::Blank
    } else if bytes.len() > 100 && likely_binary(bytes) {
        TextKind::Image
    } else {
        TextKind::Words
    }
}

impl ClipboardContent {
    /// Takes text from the clipboard for what it is. `existing` holds the
    /// paths among the words of the text that exist as files; they count
    /// only where the text is neither blank nor an image.
    pub fn from_text(text: String, existing: Vec<PathBuf>) -> (r: Self)
        ensures
            match text_kind(text@, encode_utf8(text@)) {
                TextKind::Blank => r is Empty,
                TextKind::Image => r matches ClipboardContent::Image { data, format } && data@
                    == encode_utf8(text@) && format == detected_format(data@),
                TextKind::Words => if existing@.len() > 0 {
                    r == ClipboardContent::Files(existing)
                } else {
                    r == ClipboardContent::Text(text)
                },
            },
    {
        if is_blank_text(text.as_str()) {
            return ClipboardContent::Empty;
        }
        let bytes = text.as_str().as_bytes();
        if bytes.len() > 100 && is_likely_binary_data(bytes) {
            let format = detect_image_format(bytes);
            let data = text.as_str().as_bytes_vec();
            return ClipboardContent::Image { data, format };
        }
        if existing.len() > 0 {
            ClipboardContent::Files(existing)
        } else {
            ClipboardContent::Text(text)
        }
    }
}

/// The characters that part the words of clipboard text: line feed,
/// carriage return and space.
pub open spec fn is_separator(c: char) -> bool {
    c == '\n' || c == '\r' || c == ' '
}

/// The words of the first `upto` characters: those that are closed by a
/// separator and not blank, and the one still open.
pub open spec fn words_upto(s: Seq<char>, upto: int) -> (Seq<Seq<char>>, Seq<char>)
    decreases upto,
{
    if upto <= 0 {
        (Seq::empty(), Seq::empty())
    } else {
        let (done, open) = words_upto(s, upto - 1);
        if is_separator(s[upto - 1]) {
            (
                if is_blank(open) {
                    done
                } else {
                    done.push(open)
                },
                Seq::empty(),
            )
        } else {
            (done, open.push(s[upto - 1]))
        }
    }
}

/// The words of a text that may be paths: what stands between separators,
/// but for what is blank.
pub open spec fn path_words(s: Seq<char>) -> Seq<Seq<char>> {
    let (done, open) = words_upto(s, s.len() as int);
    if is_blank(open) {
        done
    } else {
        done.push(open)
    }
}

/// Splits clipboard text into the words that may be paths of files.
pub fn path_candidates(text: &str) -> (words: Vec<String>)
    ensures
        words@.map_values(|w: String| w@) == path_words(text@),
{
    let chars = to_chars(text);
    let n = chars.len();
    let mut words: Vec<String> = Vec::new();
    let mut start: usize = 0;
    let mut i: usize = 0;
    proof {
        assert(words@.map_values(|w: String| w@) =~= words_upto(text@, 0).0);
        assert(text@.subrange(0, 0) =~= words_upto(text@, 0).1);
    }
    while i < n
        invariant
            start <= i <= n,
            n == text@.len(),
            chars@ == text@,
            words@.map_values(|w: String| w@) == words_upto(text@, i as int).0,
            text@.subrange(start as int, i as int) == words_upto(text@, i as int).1,
        decreases n - i,
    {
        let ghost before = words@;
        if chars[i] == '\n' || chars[i] == '\r' || chars[i] == ' ' {
            let word = text.substring_char(start, i);
            if !is_blank_text(word) {
                words.push(String::from_str(word));
                proof {
                    assert(words@.map_values(|w: String| w@) =~= before.map_values(
                        |w: String| w@,
                    ).push(word@));
                }
            }
            start = i + 1;
            proof {
                assert(text@.subrange(start as int, i + 1) =~= Seq::<char>::empty());
            }
        } else {
            proof {
                assert(text@.subrange(start as int, i + 1) =~= text@.subrange(
                    start as int,
                    i as int,
                ).push(text@[i as int]));
            }
        }
        i += 1;
    }
    let ghost before = words@;
    let word = text.substring_char(start, n);
    if !is_blank_text(word) {
        words.push(String::from_str(word));
        proof {
            assert(words@.map_values(|w: String| w@) =~= before.map_values(|w: String| w@).push(
                word@,
            ));
        }
    }
    words
}

/// How the bytes of a raw picture are laid out.
#[derive(Debug, Clone, Copy, PartialEq, Eq, Structural)]
pub enum PixelLayout {
    /// Four bytes a pixel: red, green, blue, alpha.
    Rgba,
    /// Three bytes a pixel: red, green, blue.
    Rgb,
    /// One byte a pixel: grey.
    Luma,
}

/// Why a picture from the clipboard could not be taken.
#[derive(Debug, Clone, Copy, PartialEq, Eq, Structural)]
pub enum ClipboardError {
    /// The bytes do not fill a picture of the given size.
    ImageBuffer,
    /// The picture could not be encoded as PNG.
    PngEncoding,
}

/// Number of bytes that one pixel takes.
pub open spec fn channels(layout: PixelLayout) -> int {
    match layout {
        PixelLayout::Rgba => 4,
        PixelLayout::Rgb => 3,
        PixelLayout::Luma => 1,
    }
}

/// The layout for a picture with the given number of bytes per pixel.
/// Anything but three and one is taken for four.
pub open spec fn layout_of(bytes_per_pixel: int) -> PixelLayout {
    if bytes_per_pixel == 3 {
        PixelLayout::Rgb
    } else if bytes_per_pixel == 1 {
        PixelLayout::Luma
    } else {
        PixelLayout::Rgba
    }
}

/// Whether `len` bytes fill a picture of the given layout and size.
pub open spec fn buffer_fits(layout: PixelLayout, width: u32, height: u32, len: int) -> bool {
    channels(layout) * width * height <= len
}

/// What encoding a raw picture as PNG yields; `None` where the codec fails.
pub uninterp spec fn png_encoded(
    layout: PixelLayout,
    width: u32,
    height: u32,
    bytes: Seq<u8>,
) -> Option<Seq<u8>>;

/// What a raw picture from the clipboard comes to.
pub open spec fn picture_content(width: usize, height: usize, bytes: Seq<u8>) -> Result<
    Seq<u8>,
    ClipboardError,
> {
    let layout = layout_of(bytes.len() as int / (width * height));
    if !buffer_fits(layout, width as u32, height as u32, bytes.len() as int) {
        Err(ClipboardError::ImageBuffer)
    } else {
        match png_encoded(layout, width as u32, height as u32, bytes) {
            Some(png) => Ok(png),
            None => Err(ClipboardError::PngEncoding),
        }
    }
}

/// Calls `ImageBuffer::from_vec` and `ImageBuffer::write_to`, for the
/// layout's kind of pixel and with the PNG format. Not proved: that the
/// buffer is refused exactly where it is too short for the picture, and
/// that the PNG, or the failure to make one, depends on the arguments alone.
#[verifier::external_body]
pub(crate) fn encode_png(layout: PixelLayout, width: u32, height: u32, bytes: Vec<u8>) -> (r:
    Option<Result<Vec<u8>, image::ImageError>>)
    ensures
        r.is_some() == buffer_fits(layout, width, height, bytes@.len() as int),
        r matches Some(Ok(png)) ==> png_encoded(layout, width, height, bytes@) == Some(png@),
        r matches Some(Err(_)) ==> png_encoded(layout, width, height, bytes@).is_none(),
{
    let mut png = std::io::Cursor::new(Vec::new());
    let (w, h, f) = (width, height, image::ImageFormat::Png);
    let written = match layout {
        PixelLayout::Rgba => image::RgbaImage::from_vec(w, h, bytes)?.write_to(&mut png, f),
        PixelLayout::Rgb => image::RgbImage::from_vec(w, h, bytes)?.write_to(&mut png, f),
        PixelLayout::Luma => image::GrayImage::from_vec(w, h, bytes)?.write_to(&mut png, f),
    };
    Some(written.map(|_| png.into_inner()))
}

/// Tells the layout of a raw picture from its number of bytes per pixel.
pub fn pixel_layout(bytes_per_pixel: usize) -> (layout: PixelLayout)
    ensures
        layout == layout_of(bytes_per_pixel as int),
{
    if bytes_per_pixel == 3 {
        PixelLayout::Rgb
    } else if bytes_per_pixel == 1 {
        PixelLayout::Luma
    } else {
        PixelLayout::Rgba
    }
}

impl ClipboardContent {
    /// Takes a raw picture from the clipboard and makes a PNG of it. The
    /// layout follows from the number of bytes per pixel; width and height
    /// are cut to 32 bits.
    pub fn from_image(width: usize, height: usize, bytes: Vec<u8>) -> (r: Result<
        Self,
        ClipboardError,
    >)
        requires
            0 < width * height <= usize::MAX,
        ensures
            match picture_content(width, height, bytes@) {
                Ok(png) => r matches Ok(ClipboardContent::Image { data, format }) && data@ == png
                    && format == ImageFormat::Png,
                Err(e) => r matches Err(why) && why == e,
            },
    {
        let bytes_per_pixel = bytes.len() / (width * height);
        let layout = pixel_layout(bytes_per_pixel);
        match encode_png(
            layout,
            #[verifier::truncate]
            (width as u32),
            #[verifier::truncate]
            (height as u32),
            bytes,
        ) {
            None => Err(ClipboardError::ImageBuffer),
            Some(Err(_)) => Err(ClipboardError::PngEncoding),
            Some(Ok(data)) => Ok(ClipboardContent::Image { data, format: ImageFormat::Png }),
        }
    }
}

} // verus!
