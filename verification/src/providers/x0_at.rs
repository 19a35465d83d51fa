//! The provider x0.at: multipart upload, the URL comes back as text.

use crate::models::upload_request::{UploadRequest, UploadType};
use crate::models::upload_response::UploadResponse;
use crate::providers::common::{
    filename_or, is_response, is_success_status, mime_of_extension, mime_type_of_filename,
    read_upload_reply, status_is_success, url_reply, HttpReply,
};
use crate::providers::upload_trait::{check_file_size, ProviderCapabilities, UploadError};
use crate::text::{fits_filename, is_plain_name, plain_extension, text_of};
use vstd::prelude::*;

verus! {

/// The most that the provider takes, in bytes: 512 MiB.
pub const MAX_FILE_SIZE: u64 = 536870912;

/// The provider x0.at.
pub struct X0AtProvider {
    pub endpoint: String,
    pub timeout_seconds: u64,
}

impl X0AtProvider {
    /// The provider at its fixed endpoint.
    pub fn new(timeout_seconds: u64) -> (r: Self)
        ensures
            r.endpoint@ == "https://x0.at/"@,
            r.timeout_seconds == timeout_seconds,
    {
        X0AtProvider { endpoint: String::from_str("https://x0.at/"), timeout_seconds }
    }

    /// The name by which the provider is known.
    pub fn provider_name(&self) -> (name: &'static str)
        ensures
            name@ == "x0at"@,
    {
        "x0at"
    }

    /// Every kind of upload is taken.
    pub fn supports_upload_type(&self, upload_type: UploadType) -> (r: bool)
        ensures
            r,
    {
        match upload_type {
            UploadType::File | UploadType::Image | UploadType::Paste => true,
        }
    }

    /// The size limit.
    pub fn max_file_size(&self) -> (max: u64)
        ensures
            max == MAX_FILE_SIZE,
    {
        MAX_FILE_SIZE
    }

    /// Nothing is on offer beyond a plain upload.
    pub fn capabilities(&self) -> (r: ProviderCapabilities)
        ensures
            r == ProviderCapabilities::none(),
    {
        ProviderCapabilities {
            supports_expiration: false,
            supports_custom_names: false,
            requires_auth: false,
            supports_direct_text: false,
        }
    }

    /// Refuses content over the size limit.
    pub fn check_request(&self, request: &UploadRequest) -> (r: Result<(), UploadError>)
        ensures
            request.content@.len() <= MAX_FILE_SIZE ==> r.is_ok(),
            request.content@.len() > MAX_FILE_SIZE ==> r == Err::<(), UploadError>(
                UploadError::FileTooLarge {
                    max_size: MAX_FILE_SIZE,
                    actual_size: request.content@.len() as u64,
                },
            ),
    {
        check_file_size(request.file_size(), self.max_file_size())
    }

    /// The file name sent with the content: the request's own, else
    /// `redirect.html` for a redirect page and `file` for anything else.
    pub fn upload_filename(&self, request: &UploadRequest) -> (name: String)
        ensures
            name@ == (match request.filename {
                Some(given) => given@,
                None => if request.is_redirect {
                    "redirect.html"@
                } else {
                    "file"@
                },
            }),
    {
        if request.is_redirect {
            filename_or(&request.filename, "redirect.html")
        } else {
            filename_or(&request.filename, "file")
        }
    }

    /// The MIME type sent with the content, by the extension of the file name.
    pub fn mime_type(&self, request: &UploadRequest) -> (mime: &'static str)
        ensures
            exists|ext: Option<Seq<char>>|
                #[trigger] fits_filename(text_of(request.filename), ext) && mime@
                    == mime_of_extension(ext),
            request.filename.is_none() ==> mime@ == "application/octet-stream"@,
            request.filename matches Some(name) ==> (is_plain_name(name@) ==> mime@
                == mime_of_extension(plain_extension(name@))),
    {
        mime_type_of_filename(&request.filename)
    }

    /// What the server's reply amounts to: with a status of success, the
    /// trimmed body is the URL.
    pub fn read_reply(&self, reply: &HttpReply) -> (r: Result<UploadResponse, UploadError>)
        ensures
            is_response(r, url_reply(*reply, is_success_status(reply.status)), "x0at"@),
    {
        read_upload_reply(reply, status_is_success(reply.status), self.provider_name())
    }
}

} // verus!
