//! What is uploaded and what comes back.

pub mod progress;
pub mod upload_request;
pub mod upload_response;

pub use progress::{NoOpCallback, VerboseProgressCallback};
pub use upload_request::{UploadOptions, UploadRequest, UploadType};
pub use upload_response::{ResponseMetadata, UploadResponse};
