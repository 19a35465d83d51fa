//! A request to upload one piece of content.

use vstd::prelude::*;

verus! {

/// The kind of content, by which providers are chosen.
#[derive(Debug, Clone, Copy, PartialEq, Eq, Structural)]
pub enum UploadType {
    Paste,
    File,
    Image,
}

/// Wishes that a provider may honour.
#[derive(Debug, Clone)]
pub struct UploadOptions {
    pub expiration: Option<String>,
    pub secret_url: bool,
    pub custom_name: Option<String>,
}

/// Content with the name and kind under which it is uploaded.
#[derive(Debug, Clone)]
pub struct UploadRequest {
    pub content: Vec<u8>,
    pub filename: Option<String>,
    pub upload_type: UploadType,
    pub options: UploadOptions,
    pub is_redirect: bool,
}

impl Default for UploadOptions {
    /// No expiration, no secret URL, no custom name.
    fn default() -> (r: Self)
        ensures
            r.expiration.is_none(),
            !r.secret_url,
            r.custom_name.is_none(),
    {
        UploadOptions { expiration: None, secret_url: false, custom_name: None }
    }
}

impl UploadRequest {
    /// Puts a request together; options that are not given are the default
    /// ones.
    pub fn new(
        content: Vec<u8>,
        filename: Option<String>,
        upload_type: UploadType,
        options: Option<UploadOptions>,
        is_redirect: bool,
    ) -> (r: Self)
        ensures
            r.content == content,
            r.filename == filename,
            r.upload_type == upload_type,
            r.is_redirect == is_redirect,
            options matches Some(given) ==> r.options == given,
            options.is_none() ==> r.options.expiration.is_none() && !r.options.secret_url
                && r.options.custom_name.is_none(),
    {
        let options = match options {
            Some(given) => given,
            None => UploadOptions::default(),
        };
        UploadRequest { content, filename, upload_type, options, is_redirect }
    }

    /// Number of bytes of content.
    pub fn file_size(&self) -> (size: u64)
        ensures
            size == self.content@.len(),
    {
        self.content.len() as u64
    }
}

impl UploadType {
    /// Whether this is text: a paste.
    pub fn is_text(&self) -> (r: bool)
        ensures
            r == (*self == UploadType::Paste),
    {
        match self {
            UploadType::Paste => true,
            _ => false,
        }
    }
}

} // verus!
