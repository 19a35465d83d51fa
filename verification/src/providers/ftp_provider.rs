//! The provider for one's own server, reached by SFTP. Plain FTP and FTPS
//! can be configured but are not served.

use crate::models::upload_request::{UploadRequest, UploadType};
use crate::models::upload_response::UploadResponse;
use crate::naming::{is_random_name, random_name, stored_name, stored_name_with};
use crate::providers::bunny::MAX_SIZE_MB;
use crate::providers::upload_trait::{check_file_size, UploadError};
use crate::text::{decimal, lowercased, push_decimal, str_eq, to_lowercase};
use vstd::prelude::*;

verus! {

/// Number of bytes written to the server at a time.
pub const CHUNK_SIZE: usize = 32768;

/// The protocol by which a server is reached.
#[derive(Debug, Clone, Copy, PartialEq, Eq, Structural)]
pub enum TransferProtocol {
    Ftp,
    Ftps,
    Sftp,
}

/// What to do where the directory on the server is missing.
#[derive(Debug, Clone, Copy, PartialEq, Eq, Structural)]
pub enum DirectoryMode {
    ExistingOnly,
    CreateIfMissing,
}

/// How to log in to the server.
#[derive(Debug, Clone, Copy, PartialEq, Eq, Structural)]
pub enum SftpAuth {
    /// With the private key in the configured file.
    KeyFile,
    /// With the configured password.
    Password,
}

/// What a provider is made from.
pub struct FtpProviderConfig {
    pub protocol: TransferProtocol,
    pub host: String,
    pub port: u16,
    pub username: String,
    pub password: Option<String>,
    pub ssh_key_path: Option<String>,
    pub ssh_key_passphrase: Option<String>,
    pub directory: String,
    pub public_url: String,
    pub directory_mode: DirectoryMode,
    pub max_file_size_mb: u64,
    pub ascii_mode_for_pastes: bool,
}

/// One's own server.
pub struct FTPProvider {
    pub protocol: TransferProtocol,
    pub host: String,
    pub port: u16,
    pub username: String,
    pub password: Option<String>,
    pub ssh_key_path: Option<String>,
    pub ssh_key_passphrase: Option<String>,
    pub directory: String,
    pub public_url: String,
    pub directory_mode: DirectoryMode,
    /// The size limit in bytes.
    pub max_file_size: u64,
    pub ascii_mode_for_pastes: bool,
}

/// The directory mode that a configured word names, in any case.
pub open spec fn directory_mode_of(word: Seq<char>) -> Option<DirectoryMode> {
    if lowercased(word) == "existing_only"@ {
        Some(DirectoryMode::ExistingOnly)
    } else if lowercased(word) == "create_if_missing"@ {
        Some(DirectoryMode::CreateIfMissing)
    } else {
        None
    }
}

/// The extension of a random name for the given request.
pub open spec fn ftp_extension(request: UploadRequest) -> Seq<char> {
    if request.is_redirect {
        ".html"@
    } else if request.upload_type == UploadType::Paste {
        ".txt"@
    } else {
        ".bin"@
    }
}

/// How to log in, by what is configured and whether the key file is there:
/// the key where its file exists, else the password, else not at all.
pub open spec fn sftp_auth(has_key_path: bool, key_file_found: bool, has_password: bool) -> Option<
    SftpAuth,
> {
    if has_key_path && key_file_found {
        Some(SftpAuth::KeyFile)
    } else if has_password {
        Some(SftpAuth::Password)
    } else {
        None
    }
}

/// Length of the chunk to write at `offset` of `len` bytes: a full chunk,
/// or what is left, which is nothing at the end and behind it.
pub open spec fn chunk_len(len: int, offset: int) -> int {
    if offset >= len {
        0
    } else if len - offset < CHUNK_SIZE {
        len - offset
    } else {
        CHUNK_SIZE as int
    }
}

impl DirectoryMode {
    /// Reads a directory mode from its configured word, in any case. An
    /// unknown word is handed back in the error.
    pub fn try_from(s: &str) -> (r: Result<DirectoryMode, String>)
        ensures
            match directory_mode_of(s@) {
                Some(mode) => r == Ok::<DirectoryMode, String>(mode),
                None => r matches Err(why) && why@ == "Unknown directory mode: "@ + s@,
            },
    {
        let lower = to_lowercase(s);
        if str_eq(lower.as_str(), "existing_only") {
            Ok(DirectoryMode::ExistingOnly)
        } else if str_eq(lower.as_str(), "create_if_missing") {
            Ok(DirectoryMode::CreateIfMissing)
        } else {
            Err(String::from_str("Unknown directory mode: ").concat(s))
        }
    }
}

impl FTPProvider {
    /// The provider for a configuration; the size limit is taken to bytes.
    pub fn new(config: FtpProviderConfig) -> (r: Self)
        requires
            config.max_file_size_mb <= MAX_SIZE_MB,
        ensures
            r.protocol == config.protocol,
            r.host == config.host,
            r.port == config.port,
            r.username == config.username,
            r.password == config.password,
            r.ssh_key_path == config.ssh_key_path,
            r.ssh_key_passphrase == config.ssh_key_passphrase,
            r.directory == config.directory,
            r.public_url == config.public_url,
            r.directory_mode == config.directory_mode,
            r.max_file_size == config.max_file_size_mb * 1024 * 1024,
            r.ascii_mode_for_pastes == config.ascii_mode_for_pastes,
    {
        FTPProvider {
            protocol: config.protocol,
            host: config.host,
            port: config.port,
            username: config.username,
            password: config.password,
            ssh_key_path: config.ssh_key_path,
            ssh_key_passphrase: config.ssh_key_passphrase,
            directory: config.directory,
            public_url: config.public_url,
            directory_mode: config.directory_mode,
            max_file_size: config.max_file_size_mb * 1024 * 1024,
            ascii_mode_for_pastes: config.ascii_mode_for_pastes,
        }
    }

    /// The name under which the content is stored, given the random part.
    pub fn filename_with_stem(&self, request: &UploadRequest, stem: &str) -> (name: String)
        ensures
            name@ == stored_name(request.filename, ftp_extension(*request), stem@),
    {
        if request.is_redirect {
            stored_name_with(&request.filename, ".html", stem)
        } else {
            match request.upload_type {
                UploadType::Paste => stored_name_with(&request.filename, ".txt", stem),
                _ => stored_name_with(&request.filename, ".bin", stem),
            }
        }
    }

    /// The name under which the content is stored: the request's own, or a
    /// random one with the extension that the request asks for or that its
    /// kind suggests.
    pub fn get_filename(&self, request: &UploadRequest) -> (name: String)
        ensures
            exists|stem: Seq<char>|
                is_random_name(stem) && name@ == #[trigger] stored_name(
                    request.filename,
                    ftp_extension(*request),
                    stem,
                ),
    {
        let stem = random_name();
        self.filename_with_stem(request, stem.as_str())
    }

    /// The name by which the provider is known.
    pub fn provider_name(&self) -> (name: &'static str)
        ensures
            name@ == "ftp_sftp"@,
    {
        "ftp_sftp"
    }

    /// Every kind of upload is taken.
    pub fn supports_upload_type(&self, upload_type: UploadType) -> (r: bool)
        ensures
            r,
    {
        match upload_type {
            UploadType::File | UploadType::Image | UploadType::Paste => true,
        }
    }

    /// The size limit in bytes.
    pub fn max_file_size(&self) -> (max: u64)
        ensures
            max == self.max_file_size,
    {
        self.max_file_size
    }

    /// Refuses content over the size limit.
    pub fn check_request(&self, request: &UploadRequest) -> (r: Result<(), UploadError>)
        ensures
            request.content@.len() <= self.max_file_size ==> r.is_ok(),
            request.content@.len() > self.max_file_size ==> r == Err::<(), UploadError>(
                UploadError::FileTooLarge {
                    max_size: self.max_file_size,
                    actual_size: request.content@.len() as u64,
                },
            ),
    {
        check_file_size(request.file_size(), self.max_file_size())
    }

    /// Tells whether the configured protocol is served: SFTP is, the other
    /// two are refused with a hint.
    pub fn check_protocol(&self) -> (r: Result<(), UploadError>)
        ensures
            match self.protocol {
                TransferProtocol::Sftp => r.is_ok(),
                TransferProtocol::Ftp => r matches Err(UploadError::ProviderNotAvailable(why))
                    && why@ == "Plain FTP is not supported, use FTPS or SFTP instead"@,
                TransferProtocol::Ftps => r matches Err(UploadError::ProviderNotAvailable(why))
                    && why@ == "FTPS support coming soon, use SFTP for now"@,
            },
    {
        match self.protocol {
            TransferProtocol::Sftp => Ok(()),
            TransferProtocol::Ftp => Err(
                UploadError::ProviderNotAvailable(
                    String::from_str("Plain FTP is not supported, use FTPS or SFTP instead"),
                ),
            ),
            TransferProtocol::Ftps => Err(
                UploadError::ProviderNotAvailable(
                    String::from_str("FTPS support coming soon, use SFTP for now"),
                ),
            ),
        }
    }

    /// The address to connect to: host, colon, port.
    pub fn address(&self) -> (addr: String)
        ensures
            addr@ == self.host@ + ":"@ + decimal(self.port as nat),
    {
        let mut addr = self.host.clone();
        addr.append(":");
        push_decimal(&mut addr, self.port as u64);
        addr
    }

    /// Chooses how to log in, given whether the configured key file was
    /// found. Without a usable key and without a password the login fails.
    pub fn choose_auth(&self, key_file_found: bool) -> (r: Result<SftpAuth, UploadError>)
        ensures
            match sftp_auth(
                self.ssh_key_path.is_some(),
                key_file_found,
                self.password.is_some(),
            ) {
                Some(auth) => r == Ok::<SftpAuth, UploadError>(auth),
                None => r == Err::<SftpAuth, UploadError>(UploadError::AuthenticationFailed),
            },
    {
        if self.ssh_key_path.is_some() && key_file_found {
            Ok(SftpAuth::KeyFile)
        } else if self.password.is_some() {
            Ok(SftpAuth::Password)
        } else {
            Err(UploadError::AuthenticationFailed)
        }
    }

    /// Length of the next chunk to write, `offset` bytes into content of
    /// `len` bytes: a full chunk, or what is left.
    pub fn next_chunk_len(len: usize, offset: usize) -> (n: usize)
        ensures
            n == chunk_len(len as int, offset as int),
            offset <= len ==> offset + n <= len,
            offset < len ==> n > 0,
    {
        if offset >= len {
            0
        } else if len - offset < CHUNK_SIZE {
            len - offset
        } else {
            CHUNK_SIZE
        }
    }

    /// The public URL of a stored file.
    pub fn public_link(&self, filename: &str) -> (url: String)
        ensures
            url@ == self.public_url@ + "/"@ + filename@,
    {
        let mut url = self.public_url.clone();
        url.append("/");
        url.append(filename);
        url
    }

    /// The name under which a finished upload is reported: protocol, user
    /// and host.
    pub fn label(&self) -> (label: String)
        ensures
            label@ == "sftp ("@ + self.username@ + "@"@ + self.host@ + ")"@,
    {
        let mut label = String::from_str("sftp (");
        label.append(self.username.as_str());
        label.append("@");
        label.append(self.host.as_str());
        label.append(")");
        label
    }

    /// The response for content stored under `filename`.
    pub fn stored(&self, filename: &str) -> (r: UploadResponse)
        ensures
            r.success,
            r.url matches Some(url) && url@ == self.public_url@ + "/"@ + filename@,
            r.provider@ == "sftp ("@ + self.username@ + "@"@ + self.host@ + ")"@,
            r.error.is_none(),
            r.metadata.is_none(),
    {
        UploadResponse::success(self.public_link(filename), self.label(), None)
    }
}

} // verus!
