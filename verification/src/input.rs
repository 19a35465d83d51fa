//! What the user handed over, and what to make of it: which file
//! argument counts, whether content is text, and the group, name and kind
//! under which it is uploaded.

use crate::exif::error::FormatError;
use crate::exif::strip_exif;
use crate::models::upload_request::UploadType;
use crate::text::{
    fits_filename, has_prefix, is_plain_name, lowered, path_extension, plain_extension,
    starts_with, str_eq, str_of, to_chars, to_lowercase, trim, trimmed, utf8_text,
};
use vstd::prelude::*;
use vstd::string::StringSliceAdditionalSpecFns;
use vstd::utf8::{decode_utf8, encode_utf8, valid_utf8};

verus! {

/// Number of bytes at the start of content that are looked at for zeros.
pub const SAMPLE_SIZE: usize = 8192;

/// What is wrong with the input as given.
#[derive(Debug, Clone, Copy, PartialEq, Eq, Structural)]
pub enum InputError {
    /// A file was named both by option and by position.
    BothFileArguments,
    /// The target of a redirect is no HTTP or HTTPS URL.
    InvalidRedirectUrl,
}

/// The group, file name and kind under which content is uploaded.
pub struct UploadPlan {
    pub group: String,
    pub filename: Option<String>,
    pub upload_type: UploadType,
}

impl InputError {
    /// The text of the error.
    pub open spec fn message(self) -> Seq<char> {
        match self {
            InputError::BothFileArguments =>
                "Cannot specify both -f/--file and a positional file argument"@,
            InputError::InvalidRedirectUrl => "Redirect URL must start with http:// or https://"@,
        }
    }

    /// Writes the error out for the user.
    pub fn to_string(&self) -> (text: String)
        ensures
            text@ == self.message(),
    {
        match self {
            InputError::BothFileArguments => String::from_str(
                "Cannot specify both -f/--file and a positional file argument",
            ),
            InputError::InvalidRedirectUrl => String::from_str(
                "Redirect URL must start with http:// or https://",
            ),
        }
    }
}

/// Picks the file to upload from the two ways of naming one: the option
/// and the position. Naming one in both ways is an error.
pub fn get_file_path<'a>(file: &'a Option<String>, input_file: &'a Option<String>) -> (r: Result<
    Option<&'a String>,
    InputError,
>)
    ensures
        file.is_some() && input_file.is_some() ==> r == Err::<Option<&String>, InputError>(
            InputError::BothFileArguments,
        ),
        file.is_some() && input_file.is_none() ==> r == Ok::<Option<&String>, InputError>(
            Some(&file->0),
        ),
        file.is_none() && input_file.is_some() ==> r == Ok::<Option<&String>, InputError>(
            Some(&input_file->0),
        ),
        file.is_none() && input_file.is_none() ==> r == Ok::<Option<&String>, InputError>(None),
{
    match (file, input_file) {
        (Some(_), Some(_)) => Err(InputError::BothFileArguments),
        (Some(f), None) => Ok(Some(f)),
        (None, Some(f)) => Ok(Some(f)),
        (None, None) => Ok(None),
    }
}

/// Number of zero bytes among the first `upto` bytes.
pub open spec fn zero_count(content: Seq<u8>, upto: int) -> int
    decreases upto,
{
    if upto <= 0 {
        0
    } else {
        zero_count(content, upto - 1) + (if content[upto - 1] == 0 {
            1int
        } else {
            0int
        })
    }
}

/// Length of the sample that is looked at: the content, up to 8192 bytes.
pub open spec fn sample_len(content: Seq<u8>) -> int {
    if content.len() < SAMPLE_SIZE {
        content.len() as int
    } else {
        SAMPLE_SIZE as int
    }
}

/// Whether content is binary: more than one in a hundred bytes of its
/// sample is zero.
pub open spec fn binary_content(content: Seq<u8>) -> bool {
    100 * zero_count(content, sample_len(content)) > sample_len(content)
}

/// Characters that count as text: visible ASCII, ASCII whitespace, and
/// control characters.
pub open spec fn is_text_char(c: char) -> bool {
    let n = c as u32;
    ||| 0x21 <= n <= 0x7E
    ||| n == 0x20 || n == 0x09 || n == 0x0A || n == 0x0C || n == 0x0D
    ||| n <= 0x1F || 0x7F <= n <= 0x9F
}

/// Number of text characters among the first `upto`.
pub open spec fn text_char_count(chars: Seq<char>, upto: int) -> int
    decreases upto,
{
    if upto <= 0 {
        0
    } else {
        text_char_count(chars, upto - 1) + (if is_text_char(chars[upto - 1]) {
            1int
        } else {
            0int
        })
    }
}

/// Whether more than four in five characters are text characters.
pub open spec fn mostly_text(chars: Seq<char>) -> bool {
    5 * text_char_count(chars, chars.len() as int) > 4 * chars.len()
}

/// Whether content is text for sure: empty, or UTF-8 of which more than
/// four in five characters are text characters.
pub open spec fn definitely_text(content: Seq<u8>) -> bool {
    content.len() == 0 || (valid_utf8(content) && mostly_text(decode_utf8(content)))
}

/// Tells whether content is binary, by the zero bytes in its first 8192
/// bytes. Empty content is not.
pub fn is_binary_content(content: &[u8]) -> (r: bool)
    ensures
        r == binary_content(content@),
{
    let n = content.len();
    let sample_size: usize = if n < SAMPLE_SIZE {
        n
    } else {
        SAMPLE_SIZE
    };
    let mut null_bytes: usize = 0;
    let mut i: usize = 0;
    while i < sample_size
        invariant
            i <= sample_size <= n,
            sample_size <= SAMPLE_SIZE,
            n == content@.len(),
            null_bytes == zero_count(content@, i as int),
            null_bytes <= i,
        decreases sample_size - i,
    {
        if content[i] == 0 {
            null_bytes += 1;
        }
        i += 1;
    }
    null_bytes * 100 > sample_size
}

/// Tells whether a character counts as text.
pub fn char_is_text(c: char) -> (r: bool)
    ensures
        r == is_text_char(c),
{
    let n: u32 = c as u32;
    (0x21 <= n && n <= 0x7E) || n == 0x20 || n == 0x09 || n == 0x0A || n == 0x0C || n == 0x0D || n
        <= 0x1F || (0x7F <= n && n <= 0x9F)
}

/// Tells whether more than four in five characters of a text are text
/// characters.
pub fn is_mostly_text(text: &str) -> (r: bool)
    ensures
        r == mostly_text(text@),
{
    let chars = to_chars(text);
    let total = chars.len();
    let mut printable: usize = 0;
    let mut i: usize = 0;
    while i < total
        invariant
            i <= total,
            total == chars@.len(),
            chars@ == text@,
            printable == text_char_count(text@, i as int),
            printable <= i,
        decreases total - i,
    {
        if char_is_text(chars[i]) {
            printable += 1;
        }
        i += 1;
    }
    (printable as u128) * 5 > (total as u128) * 4
}

/// Tells whether content is text for sure.
pub fn is_definitely_text(content: &[u8]) -> (r: bool)
    ensures
        r == definitely_text(content@),
{
    if content.len() == 0 {
        return true;
    }
    match utf8_text(content) {
        Some(text) => {
            proof {
                vstd::utf8::encode_utf8_decode_utf8(text@);
            }
            is_mostly_text(text)
        },
        None => false,
    }
}

/// Whether an extension, in lower case, is that of a text file.
pub open spec fn is_text_extension(ext: Seq<char>) -> bool {
    ||| ext == "txt"@
    ||| ext == "md"@
    ||| ext == "rs"@
    ||| ext == "py"@
    ||| ext == "js"@
    ||| ext == "json"@
    ||| ext == "toml"@
    ||| ext == "yaml"@
    ||| ext == "yml"@
    ||| ext == "html"@
    ||| ext == "css"@
    ||| ext == "log"@
    ||| ext == "xml"@
    ||| ext == "csv"@
    ||| ext == "ini"@
    ||| ext == "conf"@
    ||| ext == "sh"@
    ||| ext == "bat"@
}

/// Whether an extension, in lower case, is that of an image.
pub open spec fn is_image_extension(ext: Seq<char>) -> bool {
    ||| ext == "png"@
    ||| ext == "jpg"@
    ||| ext == "jpeg"@
    ||| ext == "gif"@
    ||| ext == "webp"@
    ||| ext == "svg"@
    ||| ext == "ico"@
    ||| ext == "bmp"@
    ||| ext == "tif"@
    ||| ext == "tiff"@
}

/// The kind of upload, by the extension in lower case where there is one
/// that is known, else by the content.
pub open spec fn upload_kind(content: Seq<u8>, ext: Option<Seq<char>>) -> UploadType {
    if ext matches Some(e) && is_text_extension(e) {
        UploadType::Paste
    } else if ext matches Some(e) && is_image_extension(e) {
        UploadType::Image
    } else if !binary_content(content) && definitely_text(content) {
        UploadType::Paste
    } else {
        UploadType::File
    }
}

/// The group of providers for a kind of upload.
pub open spec fn group_of_kind(kind: UploadType) -> Seq<char> {
    match kind {
        UploadType::Paste => "pastes"@,
        UploadType::Image => "images"@,
        UploadType::File => "files"@,
    }
}

/// Whether a plan is the one for content of the given kind and name.
pub open spec fn is_plan(plan: UploadPlan, kind: UploadType, filename: Option<Seq<char>>) -> bool {
    &&& plan.upload_type == kind
    &&& plan.group@ == group_of_kind(kind)
    &&& match filename {
        Some(name) => plan.filename matches Some(n) && n@ == name,
        None => plan.filename.is_none(),
    }
}

/// Tells whether an extension in lower case is that of a text file.
pub fn has_text_extension(ext: &str) -> (r: bool)
    ensures
        r == is_text_extension(ext@),
{
    str_eq(ext, "txt") || str_eq(ext, "md") || str_eq(ext, "rs") || str_eq(ext, "py") || str_eq(
        ext,
        "js",
    ) || str_eq(ext, "json") || str_eq(ext, "toml") || str_eq(ext, "yaml") || str_eq(ext, "yml")
        || str_eq(ext, "html") || str_eq(ext, "css") || str_eq(ext, "log") || str_eq(ext, "xml")
        || str_eq(ext, "csv") || str_eq(ext, "ini") || str_eq(ext, "conf") || str_eq(ext, "sh")
        || str_eq(ext, "bat")
}

/// Tells whether an extension in lower case is that of an image.
pub fn has_image_extension(ext: &str) -> (r: bool)
    ensures
        r == is_image_extension(ext@),
{
    str_eq(ext, "png") || str_eq(ext, "jpg") || str_eq(ext, "jpeg") || str_eq(ext, "gif")
        || str_eq(ext, "webp") || str_eq(ext, "svg") || str_eq(ext, "ico") || str_eq(ext, "bmp")
        || str_eq(ext, "tif") || str_eq(ext, "tiff")
}

/// Plans an upload from the content, its file name, and the extension of
/// that name in lower case. A known extension decides; without one, content
/// that is text for sure and not binary is a paste, anything else a file.
pub fn plan_upload(content: &[u8], filename: Option<&str>, ext: Option<&str>) -> (plan: UploadPlan)
    ensures
        is_plan(
            plan,
            upload_kind(
                content@,
                match ext {
                    Some(e) => Some(e@),
                    None => None,
                },
            ),
            match filename {
                Some(name) => Some(name@),
                None => None,
            },
        ),
{
    let name = match filename {
        Some(name) => Some(String::from_str(name)),
        None => None,
    };
    let by_extension = match ext {
        Some(e) => {
            if has_text_extension(e) {
                Some(UploadType::Paste)
            } else if has_image_extension(e) {
                Some(UploadType::Image)
            } else {
                None
            }
        },
        None => None,
    };
    let kind = match by_extension {
        Some(kind) => kind,
        None => {
            if !is_binary_content(content) && is_definitely_text(content) {
                UploadType::Paste
            } else {
                UploadType::File
            }
        },
    };
    let group = match kind {
        UploadType::Paste => String::from_str("pastes"),
        UploadType::Image => String::from_str("images"),
        UploadType::File => String::from_str("files"),
    };
    UploadPlan { group, filename: name, upload_type: kind }
}

/// Decides under which group, name and kind content is uploaded. The
/// extension of the file name decides where it is a known one, compared in
/// lower case; else the content does. Where the content came from makes no
/// difference. Without a file name the content alone decides. The extension
/// is the one that the name has as a path: for a name of one word, what
/// stands behind its last dot.
pub fn determine_upload_type(content: &[u8], filename: Option<&str>, from_clipboard: bool) -> (r: (
    String,
    Option<String>,
    UploadType,
))
    ensures
        exists|ext: Option<Seq<char>>|
            #[trigger] fits_filename(str_of(filename), ext) && is_plan(
                UploadPlan { group: r.0, filename: r.1, upload_type: r.2 },
                upload_kind(content@, lowered(ext)),
                str_of(filename),
            ),
        filename.is_none() ==> is_plan(
            UploadPlan { group: r.0, filename: r.1, upload_type: r.2 },
            upload_kind(content@, None),
            None,
        ),
        filename matches Some(name) ==> (is_plain_name(name@) ==> is_plan(
            UploadPlan { group: r.0, filename: r.1, upload_type: r.2 },
            upload_kind(content@, lowered(plain_extension(name@))),
            Some(name@),
        )),
{
    let found: Option<String> = match filename {
        Some(name) => path_extension(name),
        None => None,
    };
    let ghost raw = crate::text::text_of(found);
    assert(fits_filename(str_of(filename), raw));
    let ext: Option<String> = match &found {
        Some(e) => Some(to_lowercase(e.as_str())),
        None => None,
    };
    assert(crate::text::text_of(ext) == lowered(raw));
    let plan = match &ext {
        Some(e) => plan_upload(content, filename, Some(e.as_str())),
        None => plan_upload(content, filename, None),
    };
    assert(is_plan(plan, upload_kind(content@, lowered(raw)), str_of(filename)));
    (plan.group, plan.filename, plan.upload_type)
}

/// Whether a URL can be the target of a redirect: it opens with `http://`
/// or `https://`.
pub open spec fn is_redirect_target(url: Seq<char>) -> bool {
    has_prefix(url, "http://"@) || has_prefix(url, "https://"@)
}

/// Checks the target of a redirect.
pub fn check_redirect_target(url: &str) -> (r: Result<(), InputError>)
    ensures
        is_redirect_target(url@) ==> r.is_ok(),
        !is_redirect_target(url@) ==> r == Err::<(), InputError>(InputError::InvalidRedirectUrl),
{
    if starts_with(url, "http://") || starts_with(url, "https://") {
        Ok(())
    } else {
        Err(InputError::InvalidRedirectUrl)
    }
}

/// Whether piped text is the complaint of a failed command rather than its
/// output: trimmed, it opens with one of the usual words.
pub open spec fn is_error_output(text: Seq<char>) -> bool {
    let t = trimmed(text);
    ||| has_prefix(t, "Error:"@)
    ||| has_prefix(t, "error:"@)
    ||| has_prefix(t, "Unknown option:"@)
    ||| has_prefix(t, "unknown option:"@)
    ||| has_prefix(t, "command not found"@)
    ||| has_prefix(t, "Command not found"@)
    ||| has_prefix(t, "usage:"@)
    ||| has_prefix(t, "Usage:"@)
}

/// Tells whether piped text is the complaint of a failed command, which is
/// not to be uploaded.
pub fn looks_like_error_output(text: &str) -> (r: bool)
    ensures
        r == is_error_output(text@),
{
    let t = trim(text);
    let t = t.as_str();
    starts_with(t, "Error:") || starts_with(t, "error:") || starts_with(t, "Unknown option:")
        || starts_with(t, "unknown option:") || starts_with(t, "command not found") || starts_with(
        t,
        "Command not found",
    ) || starts_with(t, "usage:") || starts_with(t, "Usage:")
}

/// The file name that asks a provider for a random name with the given
/// extension: `*.` and the extension.
pub fn extension_marker(ext: &str) -> (marker: String)
    ensures
        marker@ == "*."@ + ext@,
{
    String::from_str("*.").concat(ext)
}

/// Whether metadata is to be stripped: from images, where the settings ask
/// for it and the user has not opted out, and never from a redirect page.
pub open spec fn strips_metadata(
    upload_type: UploadType,
    is_redirect: bool,
    configured: bool,
    opted_out: bool,
) -> bool {
    upload_type == UploadType::Image && !is_redirect && configured && !opted_out
}

/// Tells whether metadata is to be stripped before the upload.
pub fn should_strip_exif(
    upload_type: UploadType,
    is_redirect: bool,
    configured: bool,
    opted_out: bool,
) -> (r: bool)
    ensures
        r == strips_metadata(upload_type, is_redirect, configured, opted_out),
{
    let is_image = match upload_type {
        UploadType::Image => true,
        _ => false,
    };
    is_image && !is_redirect && configured && !opted_out
}

/// The content to upload: stripped of metadata where that is asked for and
/// works, the content as it came otherwise. The second part of the result
/// tells why stripping failed, where it did. For a format that goes through
/// the codec, either the codec's bytes come back or the content as it came,
/// with the step at which the codec failed.
pub fn prepare_content(content: Vec<u8>, strip: bool) -> (r: (Vec<u8>, Option<FormatError>))
    ensures
        !strip ==> r.0 == content && r.1.is_none(),
        strip ==> match crate::exif::stripped(content@) {
            Some(Ok(bytes)) => r.0@ == bytes && r.1.is_none(),
            Some(Err(e)) => r.0 == content && r.1 == Some(e),
            None => r.1.is_none() || (r.0 == content && (r.1 == Some(FormatError::DecodeFailed)
                || r.1 == Some(FormatError::EncodeFailed))),
        },
{
    if !strip {
        return (content, None);
    }
    match strip_exif(content.as_slice()) {
        Ok(bytes) => (bytes, None),
        Err(e) => (content, Some(e)),
    }
}

/// What is uploaded in the end, given what was detected and what the user
/// asked for. The user's group and file name go first. A redirect page is a
/// paste, goes to the pastes unless the user names a group, and has no file
/// name unless the user gives one.
pub fn final_plan(
    detected: UploadPlan,
    group: Option<String>,
    filename: Option<String>,
    is_redirect: bool,
) -> (plan: UploadPlan)
    ensures
        plan.group@ == (match group {
            Some(g) => g@,
            None => if is_redirect {
                "pastes"@
            } else {
                detected.group@
            },
        }),
        plan.filename == (match filename {
            Some(name) => Some(name),
            None => if is_redirect {
                None
            } else {
                detected.filename
            },
        }),
        plan.upload_type == (if is_redirect {
            UploadType::Paste
        } else {
            detected.upload_type
        }),
{
    let final_group = match group {
        Some(g) => g,
        None => if is_redirect {
            String::from_str("pastes")
        } else {
            detected.group
        },
    };
    let final_filename = match filename {
        Some(name) => Some(name),
        None => if is_redirect {
            None
        } else {
            detected.filename
        },
    };
    let upload_type = if is_redirect {
        UploadType::Paste
    } else {
        detected.upload_type
    };
    UploadPlan { group: final_group, filename: final_filename, upload_type }
}

/// The lines written one below the other.
pub open spec fn lines_joined(lines: Seq<String>, upto: int) -> Seq<char>
    decreases upto,
{
    if upto <= 0 {
        Seq::empty()
    } else if upto == 1 {
        lines[0]@
    } else {
        lines_joined(lines, upto - 1) + "\n"@ + lines[upto - 1]@
    }
}

/// Writes a listing: the lines one below the other, with a line break
/// between each two.
pub fn join_lines(lines: &Vec<String>) -> (text: String)
    ensures
        text@ == lines_joined(lines@, lines@.len() as int),
{
    let mut text = String::new();
    let mut i: usize = 0;
    while i < lines.len()
        invariant
            i <= lines@.len(),
            text@ == lines_joined(lines@, i as int),
        decreases lines@.len() - i,
    {
        if i > 0 {
            text.append("\n");
        }
        text.append(lines[i].as_str());
        i += 1;
        proof {
            assert(text@ =~= lines_joined(lines@, i as int));
        }
    }
    text
}

} // verus!
