//! The providers that can be configured, as one type, and how one is made
//! from its name and configuration.

use crate::config::settings::{FTPSFTPProviderConfig, ProviderConfig};
use crate::models::upload_request::UploadType;
use crate::providers::bunny::{BunnyProvider, MAX_SIZE_MB};
use crate::providers::ftp_provider::{
    directory_mode_of, DirectoryMode, FTPProvider, FtpProviderConfig, TransferProtocol,
};
use crate::providers::paste_rs::PasteRsProvider;
use crate::providers::uguu::UguuProvider;
use crate::providers::upload_trait::ProviderCapabilities;
use crate::providers::x0_at::X0AtProvider;
use crate::providers::zerox::ZeroX0STProvider;
use crate::text::{has_prefix, has_suffix, lowercased, str_eq, to_lowercase};
use vstd::prelude::*;

verus! {

/// One of the providers.
pub enum Provider {
    ZeroX0ST(ZeroX0STProvider),
    PasteRs(PasteRsProvider),
    Uguu(UguuProvider),
    X0At(X0AtProvider),
    Ftp(FTPProvider),
    Bunny(BunnyProvider),
}

/// The kinds of provider that a name can stand for.
#[derive(Debug, Clone, Copy, PartialEq, Eq, Structural)]
pub enum ProviderKind {
    ZeroX0ST,
    PasteRs,
    Uguu,
    X0At,
    Ftp,
    Bunny,
}

/// The kind of provider that a name in lower case stands for.
pub open spec fn kind_of_name(name: Seq<char>) -> Option<ProviderKind> {
    if name == "0x0st"@ || name == "0x0.st"@ {
        Some(ProviderKind::ZeroX0ST)
    } else if name == "paste_rs"@ || name == "paste.rs"@ {
        Some(ProviderKind::PasteRs)
    } else if name == "uguu"@ || name == "uguu.se"@ {
        Some(ProviderKind::Uguu)
    } else if name == "x0at"@ || name == "x0.at"@ {
        Some(ProviderKind::X0At)
    } else if name == "ftp_sftp"@ || name == "ftp"@ || name == "sftp"@ {
        Some(ProviderKind::Ftp)
    } else if name == "bunny"@ || name == "bunnycdn"@ {
        Some(ProviderKind::Bunny)
    } else {
        None
    }
}

/// The protocol that a configuration asks for: SFTP before FTPS before FTP.
pub open spec fn protocol_of(config: FTPSFTPProviderConfig) -> TransferProtocol {
    if config.enable_sftp {
        TransferProtocol::Sftp
    } else if config.enable_ftps {
        TransferProtocol::Ftps
    } else {
        TransferProtocol::Ftp
    }
}

/// The directory mode that a configuration asks for; a word that names
/// none stands for creating what is missing.
pub open spec fn mode_of(config: FTPSFTPProviderConfig) -> DirectoryMode {
    match directory_mode_of(config.directory_mode@) {
        Some(mode) => mode,
        None => DirectoryMode::CreateIfMissing,
    }
}

/// What is known of a path after a leading tilde was replaced by the home
/// directory: a path without one is unchanged; of any other, the part behind
/// the tilde is still the end, if the path changed at all.
pub open spec fn is_expansion(path: Seq<char>, expanded: Seq<char>) -> bool {
    if has_prefix(path, "~"@) {
        expanded == path || has_suffix(expanded, path.subrange(1, path.len() as int))
    } else {
        expanded == path
    }
}

/// Whether `p` is the SFTP provider that `config` describes.
pub open spec fn is_ftp_provider(p: FTPProvider, config: FTPSFTPProviderConfig) -> bool {
    &&& p.protocol == protocol_of(config)
    &&& p.host@ == config.host@
    &&& p.port == config.port
    &&& p.username@ == config.username@
    &&& p.password == config.password
    &&& match config.ssh_private_key {
        Some(key) => p.ssh_key_path matches Some(path) && is_expansion(key@, path@),
        None => p.ssh_key_path.is_none(),
    }
    &&& p.ssh_key_passphrase == config.ssh_key_passphrase
    &&& p.directory@ == config.directory@
    &&& p.public_url@ == config.public_url@
    &&& p.directory_mode == mode_of(config)
    &&& p.max_file_size == config.max_file_size_mb * 1024 * 1024
    &&& p.ascii_mode_for_pastes == config.ascii_mode_for_pastes
}

/// Whether `r` is what a name of kind `kind` makes of `config`: the public
/// providers need nothing from it, the other two need a configuration of
/// their own kind.
pub open spec fn is_provider_for(
    r: Option<Provider>,
    kind: Option<ProviderKind>,
    config: ProviderConfig,
    timeout_seconds: u64,
) -> bool {
    match kind {
        None => r.is_none(),
        Some(ProviderKind::ZeroX0ST) => r matches Some(Provider::ZeroX0ST(p)) && p.endpoint@
            == "https://0x0.st"@ && p.timeout_seconds == timeout_seconds,
        Some(ProviderKind::PasteRs) => r matches Some(Provider::PasteRs(p)) && p.endpoint@
            == "https://paste.rs"@ && p.timeout_seconds == timeout_seconds,
        Some(ProviderKind::Uguu) => r matches Some(Provider::Uguu(p)) && p.endpoint@
            == "https://uguu.se/upload"@ && p.timeout_seconds == timeout_seconds,
        Some(ProviderKind::X0At) => r matches Some(Provider::X0At(p)) && p.endpoint@
            == "https://x0.at/"@ && p.timeout_seconds == timeout_seconds,
        Some(ProviderKind::Ftp) => match config {
            ProviderConfig::FtpSftp(c) => r matches Some(Provider::Ftp(p)) && is_ftp_provider(p, c),
            _ => r.is_none(),
        },
        Some(ProviderKind::Bunny) => match config {
            ProviderConfig::Bunny(c) => {
                &&& r matches Some(Provider::Bunny(p))
                &&& p.storage_zone@ == c.storage_zone@
                &&& p.access_key@ == c.access_key@
                &&& p.region == c.region
                &&& p.public_url@ == c.public_url@
                &&& p.max_file_size_mb == c.max_file_size_mb
                &&& p.timeout_seconds == timeout_seconds
            },
            _ => r.is_none(),
        },
    }
}

/// Calls `shellexpand::tilde`, which puts the user's home directory in
/// place of a leading tilde. Not proved: that a path without a leading
/// tilde comes back as it is, and that of any other either nothing changes
/// or only what stands before the rest of the path.
#[verifier::external_body]
pub(crate) fn expand_tilde(path: &str) -> (expanded: String)
    ensures
        is_expansion(path@, expanded@),
{
    shellexpand::tilde(path).into_owned()
}

/// Tells the kind of provider that a name in lower case stands for.
pub fn provider_kind(name: &str) -> (kind: Option<ProviderKind>)
    ensures
        kind == kind_of_name(name@),
{
    if str_eq(name, "0x0st") || str_eq(name, "0x0.st") {
        Some(ProviderKind::ZeroX0ST)
    } else if str_eq(name, "paste_rs") || str_eq(name, "paste.rs") {
        Some(ProviderKind::PasteRs)
    } else if str_eq(name, "uguu") || str_eq(name, "uguu.se") {
        Some(ProviderKind::Uguu)
    } else if str_eq(name, "x0at") || str_eq(name, "x0.at") {
        Some(ProviderKind::X0At)
    } else if str_eq(name, "ftp_sftp") || str_eq(name, "ftp") || str_eq(name, "sftp") {
        Some(ProviderKind::Ftp)
    } else if str_eq(name, "bunny") || str_eq(name, "bunnycdn") {
        Some(ProviderKind::Bunny)
    } else {
        None
    }
}

/// Makes the SFTP provider that a configuration describes. A tilde at the
/// start of the key's path stands for the home directory.
pub fn ftp_provider(config: &FTPSFTPProviderConfig) -> (p: FTPProvider)
    requires
        config.max_file_size_mb <= MAX_SIZE_MB,
    ensures
        is_ftp_provider(p, *config),
{
    let protocol = if config.enable_sftp {
        TransferProtocol::Sftp
    } else if config.enable_ftps {
        TransferProtocol::Ftps
    } else {
        TransferProtocol::Ftp
    };
    let ssh_key_path = match &config.ssh_private_key {
        Some(key) => Some(expand_tilde(key.as_str())),
        None => None,
    };
    let directory_mode = match DirectoryMode::try_from(config.directory_mode.as_str()) {
        Ok(mode) => mode,
        Err(_) => DirectoryMode::CreateIfMissing,
    };
    FTPProvider::new(
        FtpProviderConfig {
            protocol,
            host: config.host.clone(),
            port: config.port,
            username: config.username.clone(),
            password: config.password.clone(),
            ssh_key_path,
            ssh_key_passphrase: config.ssh_key_passphrase.clone(),
            directory: config.directory.clone(),
            public_url: config.public_url.clone(),
            directory_mode,
            max_file_size_mb: config.max_file_size_mb,
            ascii_mode_for_pastes: config.ascii_mode_for_pastes,
        },
    )
}

/// Makes the provider of a given kind from a configuration.
pub fn provider_of_kind(
    kind: Option<ProviderKind>,
    config: &ProviderConfig,
    timeout_seconds: u64,
) -> (r: Option<Provider>)
    requires
        config matches ProviderConfig::FtpSftp(c) ==> c.max_file_size_mb <= MAX_SIZE_MB,
    ensures
        is_provider_for(r, kind, *config, timeout_seconds),
{
    match kind {
        None => None,
        Some(ProviderKind::ZeroX0ST) => Some(
            Provider::ZeroX0ST(ZeroX0STProvider::new(timeout_seconds)),
        ),
        Some(ProviderKind::PasteRs) => Some(
            Provider::PasteRs(PasteRsProvider::new(timeout_seconds)),
        ),
        Some(ProviderKind::Uguu) => Some(Provider::Uguu(UguuProvider::new(timeout_seconds))),
        Some(ProviderKind::X0At) => Some(Provider::X0At(X0AtProvider::new(timeout_seconds))),
        Some(ProviderKind::Ftp) => match config {
            ProviderConfig::FtpSftp(ftp_config) => Some(Provider::Ftp(ftp_provider(ftp_config))),
            _ => None,
        },
        Some(ProviderKind::Bunny) => match config {
            ProviderConfig::Bunny(bunny_config) => Some(
                Provider::Bunny(
                    BunnyProvider::new(
                        bunny_config.storage_zone.clone(),
                        bunny_config.access_key.clone(),
                        bunny_config.region.clone(),
                        bunny_config.public_url.clone(),
                        bunny_config.max_file_size_mb,
                        timeout_seconds,
                    ),
                ),
            ),
            _ => None,
        },
    }
}

/// Makes the provider that a configured name stands for, in any case. A
/// name that stands for none, and a name whose kind of provider the
/// configuration does not describe, give no provider. The size limit of a
/// server of one's own has to be one whose number of bytes fits 64 bits.
pub fn create_provider(name: &str, config: &ProviderConfig, timeout_seconds: u64) -> (r: Option<
    Provider,
>)
    requires
        config matches ProviderConfig::FtpSftp(c) ==> c.max_file_size_mb <= MAX_SIZE_MB,
    ensures
        is_provider_for(r, kind_of_name(lowercased(name@)), *config, timeout_seconds),
{
    let lower = to_lowercase(name);
    provider_of_kind(provider_kind(lower.as_str()), config, timeout_seconds)
}

impl Provider {
    /// Whether the size limit is one whose number of bytes fits 64 bits.
    pub open spec fn wf(self) -> bool {
        self matches Provider::Bunny(p) ==> p.max_file_size_mb <= MAX_SIZE_MB
    }

    /// The name by which the provider is known.
    pub open spec fn name(self) -> Seq<char> {
        match self {
            Provider::ZeroX0ST(_) => "0x0st"@,
            Provider::PasteRs(_) => "paste_rs"@,
            Provider::Uguu(_) => "uguu"@,
            Provider::X0At(_) => "x0at"@,
            Provider::Ftp(_) => "ftp_sftp"@,
            Provider::Bunny(_) => "bunny"@,
        }
    }

    /// Whether the provider takes uploads of the given kind.
    pub open spec fn supports(self, upload_type: UploadType) -> bool {
        match self {
            Provider::ZeroX0ST(_) => upload_type != UploadType::Paste,
            Provider::PasteRs(_) => upload_type == UploadType::Paste,
            _ => true,
        }
    }

    /// The most that the provider takes, in bytes.
    pub open spec fn size_limit(self) -> int {
        match self {
            Provider::ZeroX0ST(_) => crate::providers::zerox::MAX_FILE_SIZE as int,
            Provider::PasteRs(_) => crate::providers::paste_rs::MAX_FILE_SIZE as int,
            Provider::Uguu(_) => crate::providers::uguu::MAX_FILE_SIZE as int,
            Provider::X0At(_) => crate::providers::x0_at::MAX_FILE_SIZE as int,
            Provider::Ftp(p) => p.max_file_size as int,
            Provider::Bunny(p) => p.max_file_size_mb * 1024 * 1024,
        }
    }

    /// The name by which the provider is known.
    pub fn provider_name(&self) -> (name: &'static str)
        ensures
            name@ == self.name(),
    {
        match self {
            Provider::ZeroX0ST(p) => p.provider_name(),
            Provider::PasteRs(p) => p.provider_name(),
            Provider::Uguu(p) => p.provider_name(),
            Provider::X0At(p) => p.provider_name(),
            Provider::Ftp(p) => p.provider_name(),
            Provider::Bunny(p) => p.provider_name(),
        }
    }

    /// Tells whether the provider takes uploads of the given kind.
    pub fn supports_upload_type(&self, upload_type: UploadType) -> (r: bool)
        ensures
            r == self.supports(upload_type),
    {
        match self {
            Provider::ZeroX0ST(p) => p.supports_upload_type(upload_type),
            Provider::PasteRs(p) => p.supports_upload_type(upload_type),
            Provider::Uguu(p) => p.supports_upload_type(upload_type),
            Provider::X0At(p) => p.supports_upload_type(upload_type),
            Provider::Ftp(p) => p.supports_upload_type(upload_type),
            Provider::Bunny(p) => p.supports_upload_type(upload_type),
        }
    }

    /// The most that the provider takes, in bytes.
    pub fn max_file_size(&self) -> (max: u64)
        requires
            self.wf(),
        ensures
            max == self.size_limit(),
    {
        match self {
            Provider::ZeroX0ST(p) => p.max_file_size(),
            Provider::PasteRs(p) => p.max_file_size(),
            Provider::Uguu(p) => p.max_file_size(),
            Provider::X0At(p) => p.max_file_size(),
            Provider::Ftp(p) => p.max_file_size(),
            Provider::Bunny(p) => p.max_file_size(),
        }
    }

    /// What the provider offers beyond a plain upload: 0x0.st offers
    /// expiration and custom names, the others nothing.
    pub fn capabilities(&self) -> (r: ProviderCapabilities)
        ensures
            r == (match self {
                Provider::ZeroX0ST(_) => ProviderCapabilities {
                    supports_expiration: true,
                    supports_custom_names: true,
                    requires_auth: false,
                    supports_direct_text: false,
                },
                _ => ProviderCapabilities::none(),
            }),
    {
        match self {
            Provider::ZeroX0ST(p) => p.capabilities(),
            Provider::X0At(p) => p.capabilities(),
            _ => ProviderCapabilities::default(),
        }
    }
}

} // verus!
