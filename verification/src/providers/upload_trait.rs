//! What every provider shares: the errors an upload can end in, the size
//! check before an upload, and what a provider is capable of.

use crate::text::{decimal, push_decimal};
use vstd::prelude::*;

verus! {

/// Why an upload failed.
#[derive(Debug, Clone, PartialEq, Eq)]
pub enum UploadError {
    ConnectionFailed(String),
    UploadFailed(String),
    HttpError { status_code: u16, message: String },
    FileTooLarge { max_size: u64, actual_size: u64 },
    RateLimited { retry_after: u64 },
    AuthenticationFailed,
    InvalidResponse(String),
    ProviderNotAvailable(String),
    Timeout(String),
}

/// What a provider offers beyond a plain upload.
#[derive(Debug, Clone, Copy, PartialEq, Eq, Structural)]
pub struct ProviderCapabilities {
    pub supports_expiration: bool,
    pub supports_custom_names: bool,
    pub requires_auth: bool,
    pub supports_direct_text: bool,
}

impl Default for ProviderCapabilities {
    /// No capability at all.
    fn default() -> (r: Self)
        ensures
            r == ProviderCapabilities::none(),
    {
        ProviderCapabilities {
            supports_expiration: false,
            supports_custom_names: false,
            requires_auth: false,
            supports_direct_text: false,
        }
    }
}

impl ProviderCapabilities {
    /// The capabilities of a provider that offers nothing beyond an upload.
    pub open spec fn none() -> ProviderCapabilities {
        ProviderCapabilities {
            supports_expiration: false,
            supports_custom_names: false,
            requires_auth: false,
            supports_direct_text: false,
        }
    }
}

impl UploadError {
    /// The text of the error, as shown to the user.
    pub open spec fn message(self) -> Seq<char> {
        match self {
            UploadError::ConnectionFailed(detail) => "Connection failed: "@ + detail@,
            UploadError::UploadFailed(detail) => "Upload failed: "@ + detail@,
            UploadError::HttpError { status_code, message } => "HTTP error "@ + decimal(
                status_code as nat,
            ) + ": "@ + message@,
            UploadError::FileTooLarge { max_size, actual_size } => "File too large: max "@
                + decimal(max_size as nat) + " bytes, got "@ + decimal(actual_size as nat)
                + " bytes"@,
            UploadError::RateLimited { retry_after } => "Rate limited: retry after "@ + decimal(
                retry_after as nat,
            ) + "s"@,
            UploadError::AuthenticationFailed => "Authentication failed"@,
            UploadError::InvalidResponse(detail) => "Invalid response: "@ + detail@,
            UploadError::ProviderNotAvailable(detail) => "Provider not available: "@ + detail@,
            UploadError::Timeout(detail) => "Timeout: "@ + detail@,
        }
    }

    /// Writes the error out for the user.
    pub fn to_string(&self) -> (text: String)
        ensures
            text@ == self.message(),
    {
        match self {
            UploadError::ConnectionFailed(detail) => String::from_str("Connection failed: ").concat(
                detail.as_str(),
            ),
            UploadError::UploadFailed(detail) => String::from_str("Upload failed: ").concat(
                detail.as_str(),
            ),
            UploadError::HttpError { status_code, message } => {
                let mut text = String::from_str("HTTP error ");
                push_decimal(&mut text, *status_code as u64);
                text.append(": ");
                text.append(message.as_str());
                text
            },
            UploadError::FileTooLarge { max_size, actual_size } => {
                let mut text = String::from_str("File too large: max ");
                push_decimal(&mut text, *max_size);
                text.append(" bytes, got ");
                push_decimal(&mut text, *actual_size);
                text.append(" bytes");
                text
            },
            UploadError::RateLimited { retry_after } => {
                let mut text = String::from_str("Rate limited: retry after ");
                push_decimal(&mut text, *retry_after);
                text.append("s");
                text
            },
            UploadError::AuthenticationFailed => String::from_str("Authentication failed"),
            UploadError::InvalidResponse(detail) => String::from_str("Invalid response: ").concat(
                detail.as_str(),
            ),
            UploadError::ProviderNotAvailable(detail) => String::from_str(
                "Provider not available: ",
            ).concat(detail.as_str()),
            UploadError::Timeout(detail) => String::from_str("Timeout: ").concat(detail.as_str()),
        }
    }
}

/// Checks content of `actual_size` bytes against a provider's limit of
/// `max_size` bytes: content over the limit is refused, with both numbers.
pub fn check_file_size(actual_size: u64, max_size: u64) -> (r: Result<(), UploadError>)
    ensures
        actual_size <= max_size ==> r.is_ok(),
        actual_size > max_size ==> r == Err::<(), UploadError>(
            UploadError::FileTooLarge { max_size, actual_size },
        ),
{
    if actual_size > max_size {
        Err(UploadError::FileTooLarge { max_size, actual_size })
    } else {
        Ok(())
    }
}

} // verus!
