//! Decisions that the HTTP providers share: the MIME type and name under
//! which content is sent, and what a server's reply amounts to.

use crate::models::upload_response::UploadResponse;
use crate::providers::upload_trait::UploadError;
use crate::text::{
    fits_filename, is_plain_name, lowercased, path_extension, plain_extension, str_eq, text_of,
    to_lowercase, trim, trimmed,
};
use vstd::prelude::*;

verus! {

/// The version of this library, as sent to servers.
pub const VERSION: &'static str = "0.1.0";

/// The name and version under which requests are sent.
pub fn user_agent() -> (agent: String)
    ensures
        agent@ == "pst/"@ + VERSION@,
{
    String::from_str("pst/").concat(VERSION)
}

/// The MIME type sent for a file with the given extension, which is taken
/// in lower case: a handful of common types, and a catch-all.
pub open spec fn mime_of(ext: Seq<char>) -> Seq<char> {
    if ext == "txt"@ || ext == "log"@ || ext == "md"@ {
        "text/plain"@
    } else if ext == "html"@ || ext == "htm"@ {
        "text/html"@
    } else if ext == "css"@ {
        "text/css"@
    } else if ext == "js"@ {
        "application/javascript"@
    } else if ext == "json"@ {
        "application/json"@
    } else if ext == "xml"@ {
        "application/xml"@
    } else if ext == "png"@ {
        "image/png"@
    } else if ext == "jpg"@ || ext == "jpeg"@ {
        "image/jpeg"@
    } else if ext == "gif"@ {
        "image/gif"@
    } else if ext == "webp"@ {
        "image/webp"@
    } else if ext == "svg"@ {
        "image/svg+xml"@
    } else if ext == "pdf"@ {
        "application/pdf"@
    } else if ext == "zip"@ {
        "application/zip"@
    } else {
        "application/octet-stream"@
    }
}

/// The MIME type for an extension as found in a file name, in any case.
pub open spec fn mime_of_extension(ext: Option<Seq<char>>) -> Seq<char> {
    match ext {
        Some(ext) => mime_of(lowercased(ext)),
        None => "application/octet-stream"@,
    }
}

/// A server's reply, as far as the decisions need it.
pub struct HttpReply {
    /// The status code.
    pub status: u16,
    /// The status as the server put it, code and reason.
    pub status_line: String,
    /// The body as text, or why it could not be read.
    pub body: Result<String, String>,
}

/// What a reply amounts to.
pub enum ReplyOutcome {
    /// The upload is stored under this URL.
    Url(Seq<char>),
    /// The server refused the upload.
    UploadFailed(Seq<char>),
    /// The server's answer makes no sense.
    InvalidResponse(Seq<char>),
}

/// Whether a status code is in the range of success, 200 to 299.
pub open spec fn is_success_status(status: u16) -> bool {
    200 <= status <= 299
}

/// What is reported when the server refuses: its status and what it said.
pub open spec fn refusal(reply: HttpReply) -> Seq<char> {
    "HTTP "@ + reply.status_line@ + ": "@ + (match reply.body {
        Ok(text) => text@,
        Err(_) => "Unknown error"@,
    })
}

/// What a reply with a URL in its body amounts to, where `accepted` tells
/// whether the status is one of success: the trimmed body is the URL, and an
/// empty one is no answer.
pub open spec fn url_reply(reply: HttpReply, accepted: bool) -> ReplyOutcome {
    if !accepted {
        ReplyOutcome::UploadFailed(refusal(reply))
    } else {
        match reply.body {
            Err(why) => ReplyOutcome::InvalidResponse(why@),
            Ok(text) => if trimmed(text@).len() == 0 {
                ReplyOutcome::InvalidResponse("Empty response from server"@)
            } else {
                ReplyOutcome::Url(trimmed(text@))
            },
        }
    }
}

/// Whether a result is the given outcome.
pub open spec fn is_outcome(r: Result<String, UploadError>, outcome: ReplyOutcome) -> bool {
    match outcome {
        ReplyOutcome::Url(url) => r matches Ok(u) && u@ == url,
        ReplyOutcome::UploadFailed(detail) => r matches Err(UploadError::UploadFailed(d)) && d@
            == detail,
        ReplyOutcome::InvalidResponse(detail) => r matches Err(UploadError::InvalidResponse(d))
            && d@ == detail,
    }
}

/// Gives the MIME type for a file extension in lower case.
pub fn mime_type_for_extension(ext: &str) -> (mime: &'static str)
    ensures
        mime@ == mime_of(ext@),
{
    if str_eq(ext, "txt") || str_eq(ext, "log") || str_eq(ext, "md") {
        "text/plain"
    } else if str_eq(ext, "html") || str_eq(ext, "htm") {
        "text/html"
    } else if str_eq(ext, "css") {
        "text/css"
    } else if str_eq(ext, "js") {
        "application/javascript"
    } else if str_eq(ext, "json") {
        "application/json"
    } else if str_eq(ext, "xml") {
        "application/xml"
    } else if str_eq(ext, "png") {
        "image/png"
    } else if str_eq(ext, "jpg") || str_eq(ext, "jpeg") {
        "image/jpeg"
    } else if str_eq(ext, "gif") {
        "image/gif"
    } else if str_eq(ext, "webp") {
        "image/webp"
    } else if str_eq(ext, "svg") {
        "image/svg+xml"
    } else if str_eq(ext, "pdf") {
        "application/pdf"
    } else if str_eq(ext, "zip") {
        "application/zip"
    } else {
        "application/octet-stream"
    }
}

/// Gives the MIME type for an extension as it stands in a file name:
/// compared in lower case, and the catch-all where there is none.
pub fn mime_type_for(ext: Option<&str>) -> (mime: &'static str)
    ensures
        mime@ == mime_of_extension(
            match ext {
                Some(e) => Some(e@),
                None => None,
            },
        ),
{
    match ext {
        Some(ext) => {
            let lower = to_lowercase(ext);
            mime_type_for_extension(lower.as_str())
        },
        None => "application/octet-stream",
    }
}

/// Gives the MIME type under which a request's content is sent, by the
/// extension of its file name. Without a file name it is the catch-all;
/// with one, it is the type of the extension that the name has as a path:
/// for a name of one word, of what stands behind its last dot.
pub fn mime_type_of_filename(filename: &Option<String>) -> (mime: &'static str)
    ensures
        exists|ext: Option<Seq<char>>|
            #[trigger] fits_filename(text_of(*filename), ext) && mime@ == mime_of_extension(ext),
        filename.is_none() ==> mime@ == "application/octet-stream"@,
        filename matches Some(name) ==> (is_plain_name(name@) ==> mime@ == mime_of_extension(
            plain_extension(name@),
        )),
{
    let found: Option<String> = match filename {
        Some(name) => path_extension(name.as_str()),
        None => None,
    };
    assert(fits_filename(text_of(*filename), text_of(found)));
    match &found {
        Some(e) => mime_type_for(Some(e.as_str())),
        None => mime_type_for(None),
    }
}

/// The name under which content is sent: the request's own, or `fallback`.
pub fn filename_or(filename: &Option<String>, fallback: &str) -> (name: String)
    ensures
        name@ == (match filename {
            Some(given) => given@,
            None => fallback@,
        }),
{
    match filename {
        Some(given) => given.clone(),
        None => String::from_str(fallback),
    }
}

/// Tells whether a status code is in the range of success.
pub fn status_is_success(status: u16) -> (r: bool)
    ensures
        r == is_success_status(status),
{
    200 <= status && status <= 299
}

/// Reads a reply whose body is the URL of the upload. With a status that is
/// not `accepted` the upload has failed; a body that cannot be read, or that
/// is empty once trimmed, is an invalid response.
pub fn read_url_reply(reply: &HttpReply, accepted: bool) -> (r: Result<String, UploadError>)
    ensures
        is_outcome(r, url_reply(*reply, accepted)),
{
    if !accepted {
        let mut detail = String::from_str("HTTP ");
        detail.append(reply.status_line.as_str());
        detail.append(": ");
        match &reply.body {
            Ok(text) => detail.append(text.as_str()),
            Err(_) => detail.append("Unknown error"),
        }
        return Err(UploadError::UploadFailed(detail));
    }
    match &reply.body {
        Err(why) => Err(UploadError::InvalidResponse(why.clone())),
        Ok(text) => {
            let url = trim(text.as_str());
            if url.as_str().unicode_len() == 0 {
                Err(UploadError::InvalidResponse(String::from_str("Empty response from server")))
            } else {
                Ok(url)
            }
        },
    }
}

/// Whether a result is the given outcome, reported by `provider`: a
/// successful response with the URL and nothing else, or the error.
pub open spec fn is_response(
    r: Result<UploadResponse, UploadError>,
    outcome: ReplyOutcome,
    provider: Seq<char>,
) -> bool {
    match outcome {
        ReplyOutcome::Url(url) => {
            &&& r matches Ok(response)
            &&& response.success
            &&& response.url matches Some(u)
            &&& u@ == url
            &&& response.provider@ == provider
            &&& response.error.is_none()
            &&& response.metadata.is_none()
        },
        ReplyOutcome::UploadFailed(detail) => r matches Err(UploadError::UploadFailed(d)) && d@
            == detail,
        ReplyOutcome::InvalidResponse(detail) => r matches Err(UploadError::InvalidResponse(d))
            && d@ == detail,
    }
}

/// Reads a reply whose body is the URL of the upload and reports it in the
/// name of `provider`.
pub fn read_upload_reply(reply: &HttpReply, accepted: bool, provider: &str) -> (r: Result<
    UploadResponse,
    UploadError,
>)
    ensures
        is_response(r, url_reply(*reply, accepted), provider@),
{
    match read_url_reply(reply, accepted) {
        Ok(url) => Ok(UploadResponse::success(url, String::from_str(provider), None)),
        Err(e) => Err(e),
    }
}

} // verus!
