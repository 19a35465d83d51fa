//! The services that take uploads.

pub mod bunny;
pub mod common;
pub mod ftp_provider;
pub mod paste_rs;
pub mod uguu;
pub mod upload_trait;
pub mod x0_at;
pub mod zerox;

pub use bunny::BunnyProvider;
pub use common::{HttpReply, ReplyOutcome};
pub use ftp_provider::{DirectoryMode, FTPProvider, FtpProviderConfig, SftpAuth, TransferProtocol};
pub use paste_rs::PasteRsProvider;
pub use uguu::UguuProvider;
pub use upload_trait::{check_file_size, ProviderCapabilities, UploadError};
pub use x0_at::X0AtProvider;
pub use zerox::ZeroX0STProvider;
