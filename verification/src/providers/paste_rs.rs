//! The provider paste.rs: the content is the body of the request, the URL
//! or the paste's key comes back as text.

use crate::models::upload_request::{UploadRequest, UploadType};
use crate::models::upload_response::UploadResponse;
use crate::providers::common::{is_response, read_url_reply, url_reply, HttpReply, ReplyOutcome};
use crate::providers::upload_trait::{check_file_size, UploadError};
use crate::text::{has_prefix, starts_with};
use vstd::prelude::*;

verus! {

/// The most that the provider takes, in bytes: 10 MiB.
pub const MAX_FILE_SIZE: u64 = 10485760;

/// The provider paste.rs.
pub struct PasteRsProvider {
    pub endpoint: String,
    pub timeout_seconds: u64,
}

/// Whether the server has stored the paste, wholly or in part: status 201
/// or 206.
pub open spec fn paste_stored(status: u16) -> bool {
    status == 201 || status == 206
}

/// The URL of a paste, from what the server answered: the answer itself
/// where it is a URL, else the key it names under the site.
pub open spec fn paste_url(answer: Seq<char>) -> Seq<char> {
    if has_prefix(answer, "http"@) {
        answer
    } else {
        "https://paste.rs/"@ + answer
    }
}

/// What a reply of paste.rs amounts to.
pub open spec fn paste_reply(reply: HttpReply) -> ReplyOutcome {
    match url_reply(reply, paste_stored(reply.status)) {
        ReplyOutcome::Url(answer) => ReplyOutcome::Url(paste_url(answer)),
        other => other,
    }
}

impl PasteRsProvider {
    /// The provider at its fixed endpoint.
    pub fn new(timeout_seconds: u64) -> (r: Self)
        ensures
            r.endpoint@ == "https://paste.rs"@,
            r.timeout_seconds == timeout_seconds,
    {
        PasteRsProvider { endpoint: String::from_str("https://paste.rs"), timeout_seconds }
    }

    /// The name by which the provider is known.
    pub fn provider_name(&self) -> (name: &'static str)
        ensures
            name@ == "paste_rs"@,
    {
        "paste_rs"
    }

    /// Pastes only.
    pub fn supports_upload_type(&self, upload_type: UploadType) -> (r: bool)
        ensures
            r == (upload_type == UploadType::Paste),
    {
        match upload_type {
            UploadType::Paste => true,
            _ => false,
        }
    }

    /// The size limit.
    pub fn max_file_size(&self) -> (max: u64)
        ensures
            max == MAX_FILE_SIZE,
    {
        MAX_FILE_SIZE
    }

    /// Refuses content over the size limit.
    pub fn check_request(&self, request: &UploadRequest) -> (r: Result<(), UploadError>)
        ensures
            request.content@.len() <= MAX_FILE_SIZE ==> r.is_ok(),
            request.content@.len() > MAX_FILE_SIZE ==> r == Err::<(), UploadError>(
                UploadError::FileTooLarge {
                    max_size: MAX_FILE_SIZE,
                    actual_size: request.content@.len() as u64,
                },
            ),
    {
        check_file_size(request.file_size(), self.max_file_size())
    }

    /// What the server's reply amounts to: with status 201 or 206, the
    /// trimmed body is the URL, or the key of the paste.
    pub fn read_reply(&self, reply: &HttpReply) -> (r: Result<UploadResponse, UploadError>)
        ensures
            is_response(r, paste_reply(*reply), "paste_rs"@),
    {
        let stored = reply.status == 201 || reply.status == 206;
        match read_url_reply(reply, stored) {
            Ok(answer) => {
                let url = if starts_with(answer.as_str(), "http") {
                    answer
                } else {
                    String::from_str("https://paste.rs/").concat(answer.as_str())
                };
                Ok(UploadResponse::success(url, String::from_str(self.provider_name()), None))
            },
            Err(e) => Err(e),
        }
    }
}

} // verus!
