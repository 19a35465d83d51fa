//! The provider uguu.se: multipart upload, the answer is a JSON document
//! that lists the stored files.

use crate::models::upload_request::{UploadRequest, UploadType};
use crate::models::upload_response::UploadResponse;
use crate::providers::common::{
    filename_or, is_response, is_success_status, mime_of_extension, mime_type_of_filename, refusal,
    status_is_success, HttpReply, ReplyOutcome,
};
use crate::providers::upload_trait::{check_file_size, UploadError};
use crate::text::{fits_filename, is_plain_name, plain_extension, text_of};
use vstd::prelude::*;

verus! {

/// The most that the provider takes, in bytes: 128 MiB.
pub const MAX_FILE_SIZE: u64 = 134217728;

/// The provider uguu.se.
pub struct UguuProvider {
    pub endpoint: String,
    pub timeout_seconds: u64,
}

/// What the status and body of a reply amount to, before the document in
/// the body is read: the document, or the failure.
pub open spec fn uguu_document(reply: HttpReply) -> Result<Seq<char>, ReplyOutcome> {
    if !is_success_status(reply.status) {
        Err(ReplyOutcome::UploadFailed(refusal(reply)))
    } else {
        match reply.body {
            Ok(text) => Ok(text@),
            Err(why) => Err(ReplyOutcome::InvalidResponse(why@)),
        }
    }
}

/// What the parsed document amounts to: the URL of the first file, or an
/// invalid response where the document could not be parsed or lists none.
pub open spec fn uguu_files(parsed: Result<Vec<String>, String>) -> ReplyOutcome {
    match parsed {
        Err(why) => ReplyOutcome::InvalidResponse(why@),
        Ok(urls) => if urls@.len() == 0 {
            ReplyOutcome::InvalidResponse("No files in response"@)
        } else {
            ReplyOutcome::Url(urls@[0]@)
        },
    }
}

impl UguuProvider {
    /// The provider at its fixed endpoint.
    pub fn new(timeout_seconds: u64) -> (r: Self)
        ensures
            r.endpoint@ == "https://uguu.se/upload"@,
            r.timeout_seconds == timeout_seconds,
    {
        UguuProvider { endpoint: String::from_str("https://uguu.se/upload"), timeout_seconds }
    }

    /// The name by which the provider is known.
    pub fn provider_name(&self) -> (name: &'static str)
        ensures
            name@ == "uguu"@,
    {
        "uguu"
    }

    /// Every kind of upload is taken.
    pub fn supports_upload_type(&self, upload_type: UploadType) -> (r: bool)
        ensures
            r,
    {
        match upload_type {
            UploadType::File | UploadType::Image | UploadType::Paste => true,
        }
    }

    /// The size limit.
    pub fn max_file_size(&self) -> (max: u64)
        ensures
            max == MAX_FILE_SIZE,
    {
        MAX_FILE_SIZE
    }

    /// Refuses content over the size limit.
    pub fn check_request(&self, request: &UploadRequest) -> (r: Result<(), UploadError>)
        ensures
            request.content@.len() <= MAX_FILE_SIZE ==> r.is_ok(),
            request.content@.len() > MAX_FILE_SIZE ==> r == Err::<(), UploadError>(
                UploadError::FileTooLarge {
                    max_size: MAX_FILE_SIZE,
                    actual_size: request.content@.len() as u64,
                },
            ),
    {
        check_file_size(request.file_size(), self.max_file_size())
    }

    /// The file name sent with the content: the request's own, else `file`.
    pub fn upload_filename(&self, request: &UploadRequest) -> (name: String)
        ensures
            name@ == (match request.filename {
                Some(given) => given@,
                None => "file"@,
            }),
    {
        filename_or(&request.filename, "file")
    }

    /// The MIME type sent with the content, by the extension of the file name.
    pub fn mime_type(&self, request: &UploadRequest) -> (mime: &'static str)
        ensures
            exists|ext: Option<Seq<char>>|
                #[trigger] fits_filename(text_of(request.filename), ext) && mime@
                    == mime_of_extension(ext),
            request.filename.is_none() ==> mime@ == "application/octet-stream"@,
            request.filename matches Some(name) ==> (is_plain_name(name@) ==> mime@
                == mime_of_extension(plain_extension(name@))),
    {
        mime_type_of_filename(&request.filename)
    }

    /// Takes the JSON document out of a reply: with a status of success,
    /// the body; the failure otherwise.
    pub fn read_reply(&self, reply: &HttpReply) -> (r: Result<String, UploadError>)
        ensures
            match uguu_document(*reply) {
                Ok(document) => r matches Ok(text) && text@ == document,
                Err(ReplyOutcome::UploadFailed(detail)) => r matches Err(
                    UploadError::UploadFailed(d),
                ) && d@ == detail,
                Err(ReplyOutcome::InvalidResponse(detail)) => r matches Err(
                    UploadError::InvalidResponse(d),
                ) && d@ == detail,
                Err(ReplyOutcome::Url(_)) => false,
            },
    {
        if !status_is_success(reply.status) {
            let mut detail = String::from_str("HTTP ");
            detail.append(reply.status_line.as_str());
            detail.append(": ");
            match &reply.body {
                Ok(text) => detail.append(text.as_str()),
                Err(_) => detail.append("Unknown error"),
            }
            return Err(UploadError::UploadFailed(detail));
        }
        match &reply.body {
            Ok(text) => Ok(text.clone()),
            Err(why) => Err(UploadError::InvalidResponse(why.clone())),
        }
    }

    /// Reports the upload from the parsed document: `parsed` holds the URLs
    /// of the files that the document lists, in its order, or why the
    /// document could not be parsed. The first URL is the upload's.
    pub fn read_files(&self, parsed: Result<Vec<String>, String>) -> (r: Result<
        UploadResponse,
        UploadError,
    >)
        ensures
            is_response(r, uguu_files(parsed), "uguu"@),
    {
        match parsed {
            Err(why) => Err(UploadError::InvalidResponse(why)),
            Ok(urls) => {
                if urls.len() == 0 {
                    Err(UploadError::InvalidResponse(String::from_str("No files in response")))
                } else {
                    let url = urls[0].clone();
                    Ok(UploadResponse::success(url, String::from_str(self.provider_name()), None))
                }
            },
        }
    }
}

} // verus!
