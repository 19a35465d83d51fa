//! The provider Bunny: content is put into a storage zone and served from
//! a public URL.

use crate::models::upload_request::{UploadRequest, UploadType};
use crate::models::upload_response::UploadResponse;
use crate::naming::{is_random_name, random_name, stored_name, stored_name_with};
use crate::providers::common::{
    is_response, is_success_status, refusal, status_is_success, HttpReply, ReplyOutcome,
};
use crate::providers::upload_trait::{check_file_size, UploadError};
use vstd::prelude::*;

verus! {

/// The largest limit in MiB whose number of bytes still fits 64 bits.
pub const MAX_SIZE_MB: u64 = 17592186044415;

/// A Bunny storage zone and the URL under which it is served.
pub struct BunnyProvider {
    pub storage_zone: String,
    pub access_key: String,
    pub region: Option<String>,
    pub public_url: String,
    pub max_file_size_mb: u64,
    pub timeout_seconds: u64,
}

/// The storage host: that of the region, where one is named.
pub open spec fn storage_host(region: Option<String>) -> Seq<char> {
    match region {
        Some(region) => if region@.len() > 0 {
            region@ + ".storage.bunnycdn.com"@
        } else {
            "storage.bunnycdn.com"@
        },
        None => "storage.bunnycdn.com"@,
    }
}

/// The extension of a random name for content of the given kind.
pub open spec fn bunny_extension(upload_type: UploadType) -> Seq<char> {
    if upload_type == UploadType::Paste {
        ".txt"@
    } else {
        ".bin"@
    }
}

impl BunnyProvider {
    /// The provider for a storage zone.
    pub fn new(
        storage_zone: String,
        access_key: String,
        region: Option<String>,
        public_url: String,
        max_file_size_mb: u64,
        timeout_seconds: u64,
    ) -> (r: Self)
        ensures
            r.storage_zone == storage_zone,
            r.access_key == access_key,
            r.region == region,
            r.public_url == public_url,
            r.max_file_size_mb == max_file_size_mb,
            r.timeout_seconds == timeout_seconds,
    {
        BunnyProvider {
            storage_zone,
            access_key,
            region,
            public_url,
            max_file_size_mb,
            timeout_seconds,
        }
    }

    /// The URL to which a file of the given name is put.
    pub fn build_upload_url(&self, filename: &str) -> (url: String)
        ensures
            url@ == "https://"@ + storage_host(self.region) + "/"@ + self.storage_zone@ + "/"@
                + filename@,
    {
        let mut url = String::from_str("https://");
        match &self.region {
            Some(region) => {
                if region.as_str().unicode_len() > 0 {
                    url.append(region.as_str());
                    url.append(".storage.bunnycdn.com");
                } else {
                    url.append("storage.bunnycdn.com");
                }
            },
            None => {
                url.append("storage.bunnycdn.com");
            },
        }
        url.append("/");
        url.append(self.storage_zone.as_str());
        url.append("/");
        url.append(filename);
        assert(url@ =~= "https://"@ + storage_host(self.region) + "/"@ + self.storage_zone@ + "/"@
            + filename@);
        url
    }

    /// The name under which the content is stored, given the random part.
    pub fn filename_with_stem(&self, request: &UploadRequest, stem: &str) -> (name: String)
        ensures
            name@ == stored_name(request.filename, bunny_extension(request.upload_type), stem@),
    {
        match request.upload_type {
            UploadType::Paste => stored_name_with(&request.filename, ".txt", stem),
            _ => stored_name_with(&request.filename, ".bin", stem),
        }
    }

    /// The name under which the content is stored: the request's own, or a
    /// random one with the extension that the request asks for or that its
    /// kind suggests.
    pub fn get_filename(&self, request: &UploadRequest) -> (name: String)
        ensures
            exists|stem: Seq<char>|
                is_random_name(stem) && name@ == #[trigger] stored_name(
                    request.filename,
                    bunny_extension(request.upload_type),
                    stem,
                ),
    {
        let stem = random_name();
        self.filename_with_stem(request, stem.as_str())
    }

    /// The name by which the provider is known.
    pub fn provider_name(&self) -> (name: &'static str)
        ensures
            name@ == "bunny"@,
    {
        "bunny"
    }

    /// Every kind of upload is taken.
    pub fn supports_upload_type(&self, upload_type: UploadType) -> (r: bool)
        ensures
            r,
    {
        match upload_type {
            UploadType::File | UploadType::Image | UploadType::Paste => true,
        }
    }

    /// The size limit in bytes.
    pub fn max_file_size(&self) -> (max: u64)
        requires
            self.max_file_size_mb <= MAX_SIZE_MB,
        ensures
            max == self.max_file_size_mb * 1024 * 1024,
    {
        self.max_file_size_mb * 1024 * 1024
    }

    /// Refuses content over the size limit.
    pub fn check_request(&self, request: &UploadRequest) -> (r: Result<(), UploadError>)
        requires
            self.max_file_size_mb <= MAX_SIZE_MB,
        ensures
            request.content@.len() <= self.max_file_size_mb * 1024 * 1024 ==> r.is_ok(),
            request.content@.len() > self.max_file_size_mb * 1024 * 1024 ==> r == Err::<
                (),
                UploadError,
            >(
                UploadError::FileTooLarge {
                    max_size: (self.max_file_size_mb * 1024 * 1024) as u64,
                    actual_size: request.content@.len() as u64,
                },
            ),
    {
        check_file_size(request.file_size(), self.max_file_size())
    }

    /// The public URL of a stored file.
    pub fn public_link(&self, filename: &str) -> (url: String)
        ensures
            url@ == self.public_url@ + "/"@ + filename@,
    {
        let mut url = self.public_url.clone();
        url.append("/");
        url.append(filename);
        url
    }

    /// What the server's reply to putting `filename` amounts to: with a
    /// status of success, the file is public under its link.
    pub fn read_reply(&self, reply: &HttpReply, filename: &str) -> (r: Result<
        UploadResponse,
        UploadError,
    >)
        ensures
            is_response(
                r,
                if is_success_status(reply.status) {
                    ReplyOutcome::Url(self.public_url@ + "/"@ + filename@)
                } else {
                    ReplyOutcome::UploadFailed(refusal(*reply))
                },
                "bunny"@,
            ),
    {
        if !status_is_success(reply.status) {
            let mut detail = String::from_str("HTTP ");
            detail.append(reply.status_line.as_str());
            detail.append(": ");
            match &reply.body {
                Ok(text) => detail.append(text.as_str()),
                Err(_) => detail.append("Unknown error"),
            }
            return Err(UploadError::UploadFailed(detail));
        }
        Ok(
            UploadResponse::success(
                self.public_link(filename),
                String::from_str(self.provider_name()),
                None,
            ),
        )
    }
}

} // verus!
