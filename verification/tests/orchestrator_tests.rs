use pst::config::settings::{BunnyProviderConfig, FTPSFTPProviderConfig, HttpProviderConfig};
use pst::config::{Config, GeneralConfig, ProviderConfig, ProviderGroupConfig};
use pst::models::{UploadRequest, UploadResponse, UploadType};
use pst::orchestrator::provider::{ftp_provider, provider_kind};
use pst::orchestrator::{create_provider, Provider, ProviderKind, RetryStep, UploadOrchestrator};
use pst::providers::{DirectoryMode, ProviderCapabilities, TransferProtocol, UploadError};

fn http() -> ProviderConfig {
    ProviderConfig::Http(HttpProviderConfig {
        enabled: true,
        max_file_size_mb: 1,
        ascii_mode_for_pastes: true,
        userhash: None,
        default_expiration: "1h".to_string(),
    })
}

fn ftp_config() -> FTPSFTPProviderConfig {
    FTPSFTPProviderConfig {
        enabled: true,
        host: "files.example.com".to_string(),
        port: 2222,
        username: "me".to_string(),
        password: Some("secret".to_string()),
        ssh_private_key: Some("~/.ssh/id_rsa".to_string()),
        ssh_key_passphrase: Some("phrase".to_string()),
        directory: "/srv/up".to_string(),
        public_url: "https://files.example.com/up".to_string(),
        directory_mode: "Existing_Only".to_string(),
        max_file_size_mb: 3,
        ascii_mode_for_pastes: false,
        enable_ftp: true,
        enable_ftps: true,
        enable_sftp: true,
        default_expiration: "1h".to_string(),
    }
}

fn bunny_config() -> BunnyProviderConfig {
    BunnyProviderConfig {
        enabled: true,
        storage_zone: "zone".to_string(),
        access_key: "key".to_string(),
        region: Some("de".to_string()),
        public_url: "https://cdn.example.com".to_string(),
        max_file_size_mb: 7,
    }
}

#[test]
fn provider_kinds_by_name() {
    assert_eq!(provider_kind("0x0st"), Some(ProviderKind::ZeroX0ST));
    assert_eq!(provider_kind("0x0.st"), Some(ProviderKind::ZeroX0ST));
    assert_eq!(provider_kind("paste_rs"), Some(ProviderKind::PasteRs));
    assert_eq!(provider_kind("paste.rs"), Some(ProviderKind::PasteRs));
    assert_eq!(provider_kind("uguu"), Some(ProviderKind::Uguu));
    assert_eq!(provider_kind("uguu.se"), Some(ProviderKind::Uguu));
    assert_eq!(provider_kind("x0at"), Some(ProviderKind::X0At));
    assert_eq!(provider_kind("x0.at"), Some(ProviderKind::X0At));
    assert_eq!(provider_kind("ftp_sftp"), Some(ProviderKind::Ftp));
    assert_eq!(provider_kind("ftp"), Some(ProviderKind::Ftp));
    assert_eq!(provider_kind("sftp"), Some(ProviderKind::Ftp));
    assert_eq!(provider_kind("bunny"), Some(ProviderKind::Bunny));
    assert_eq!(provider_kind("bunnycdn"), Some(ProviderKind::Bunny));
    assert_eq!(provider_kind("Bunny"), None);
    assert_eq!(provider_kind(""), None);
    assert_eq!(provider_kind("imgur"), None);
}

#[test]
fn create_provider_makes_the_public_providers_from_any_configuration() {
    match create_provider("0X0ST", &http(), 11) {
        Some(Provider::ZeroX0ST(p)) => {
            assert_eq!(p.endpoint, "https://0x0.st");
            assert_eq!(p.timeout_seconds, 11);
        }
        _ => panic!("no 0x0.st"),
    }
    assert!(matches!(create_provider("Paste.rs", &http(), 1), Some(Provider::PasteRs(_))));
    assert!(matches!(create_provider("uguu", &ProviderConfig::Bunny(bunny_config()), 1), Some(Provider::Uguu(_))));
    assert!(matches!(create_provider("X0.AT", &http(), 1), Some(Provider::X0At(_))));
    assert!(create_provider("imgur", &http(), 1).is_none());
}

#[test]
fn create_provider_needs_the_right_configuration_for_the_rest() {
    assert!(create_provider("ftp", &http(), 1).is_none());
    assert!(create_provider("bunny", &http(), 1).is_none());
    assert!(create_provider("sftp", &ProviderConfig::Bunny(bunny_config()), 1).is_none());
    assert!(create_provider("bunnycdn", &ProviderConfig::FtpSftp(ftp_config()), 1).is_none());
    match create_provider("BunnyCDN", &ProviderConfig::Bunny(bunny_config()), 9) {
        Some(Provider::Bunny(p)) => {
            assert_eq!(p.storage_zone, "zone");
            assert_eq!(p.access_key, "key");
            assert_eq!(p.region, Some("de".to_string()));
            assert_eq!(p.public_url, "https://cdn.example.com");
            assert_eq!(p.max_file_size_mb, 7);
            assert_eq!(p.timeout_seconds, 9);
        }
        _ => panic!("no bunny"),
    }
    assert!(matches!(create_provider("FTP_SFTP", &ProviderConfig::FtpSftp(ftp_config()), 1), Some(Provider::Ftp(_))));
}

#[test]
fn ftp_provider_follows_its_configuration() {
    let p = ftp_provider(&ftp_config());
    assert_eq!(p.protocol, TransferProtocol::Sftp);
    assert_eq!(p.host, "files.example.com");
    assert_eq!(p.port, 2222);
    assert_eq!(p.username, "me");
    assert_eq!(p.password, Some("secret".to_string()));
    assert_eq!(p.ssh_key_passphrase, Some("phrase".to_string()));
    assert_eq!(p.directory, "/srv/up");
    assert_eq!(p.public_url, "https://files.example.com/up");
    assert_eq!(p.directory_mode, DirectoryMode::ExistingOnly);
    assert_eq!(p.max_file_size, 3 * 1024 * 1024);
    assert!(!p.ascii_mode_for_pastes);

    let mut config = ftp_config();
    config.enable_sftp = false;
    config.directory_mode = "whatever".to_string();
    config.ssh_private_key = None;
    let p = ftp_provider(&config);
    assert_eq!(p.protocol, TransferProtocol::Ftps);
    assert_eq!(p.directory_mode, DirectoryMode::CreateIfMissing);
    assert_eq!(p.ssh_key_path, None);
    config.enable_ftps = false;
    assert_eq!(ftp_provider(&config).protocol, TransferProtocol::Ftp);
    config.enable_ftp = false;
    assert_eq!(ftp_provider(&config).protocol, TransferProtocol::Ftp);
}

#[test]
fn a_tilde_in_the_key_path_stands_for_the_home_directory() {
    let p = ftp_provider(&ftp_config());
    let path = p.ssh_key_path.unwrap();
    assert!(path.ends_with("/.ssh/id_rsa"));
    assert!(!path.starts_with('~'));
    assert!(path.len() > "/.ssh/id_rsa".len());

    let mut config = ftp_config();
    config.ssh_private_key = Some("/etc/keys/~id".to_string());
    assert_eq!(ftp_provider(&config).ssh_key_path, Some("/etc/keys/~id".to_string()));
    config.ssh_private_key = Some("~other/key".to_string());
    assert_eq!(ftp_provider(&config).ssh_key_path, Some("~other/key".to_string()));
}

#[test]
fn providers_answer_for_themselves() {
    let zerox = create_provider("0x0st", &http(), 1).unwrap();
    assert_eq!(zerox.provider_name(), "0x0st");
    assert!(zerox.supports_upload_type(UploadType::File));
    assert!(zerox.supports_upload_type(UploadType::Image));
    assert!(!zerox.supports_upload_type(UploadType::Paste));
    assert_eq!(zerox.max_file_size(), 512 * 1024 * 1024);
    assert_eq!(
        zerox.capabilities(),
        ProviderCapabilities {
            supports_expiration: true,
            supports_custom_names: true,
            requires_auth: false,
            supports_direct_text: false,
        }
    );
    let paste = create_provider("paste_rs", &http(), 1).unwrap();
    assert_eq!(paste.provider_name(), "paste_rs");
    assert!(paste.supports_upload_type(UploadType::Paste));
    assert!(!paste.supports_upload_type(UploadType::File));
    assert!(!paste.supports_upload_type(UploadType::Image));
    assert_eq!(paste.max_file_size(), 10 * 1024 * 1024);
    assert_eq!(paste.capabilities(), ProviderCapabilities::default());
    let uguu = create_provider("uguu", &http(), 1).unwrap();
    assert_eq!(uguu.provider_name(), "uguu");
    assert_eq!(uguu.max_file_size(), 128 * 1024 * 1024);
    assert!(uguu.supports_upload_type(UploadType::Paste));
    let x0at = create_provider("x0at", &http(), 1).unwrap();
    assert_eq!(x0at.provider_name(), "x0at");
    assert_eq!(x0at.max_file_size(), 512 * 1024 * 1024);
    let ftp = create_provider("ftp", &ProviderConfig::FtpSftp(ftp_config()), 1).unwrap();
    assert_eq!(ftp.provider_name(), "ftp_sftp");
    assert_eq!(ftp.max_file_size(), 3 * 1024 * 1024);
    assert!(ftp.supports_upload_type(UploadType::Image));
    assert_eq!(ftp.capabilities(), ProviderCapabilities::default());
    let bunny = create_provider("bunny", &ProviderConfig::Bunny(bunny_config()), 1).unwrap();
    assert_eq!(bunny.provider_name(), "bunny");
    assert_eq!(bunny.max_file_size(), 7 * 1024 * 1024);
    assert!(bunny.supports_upload_type(UploadType::File));
}

fn orchestrator() -> UploadOrchestrator {
    UploadOrchestrator::new(Config::default_with_ftp())
}

#[test]
fn orchestrator_sets_up_every_configured_provider() {
    let o = orchestrator();
    let provider_names: Vec<&str> = o.providers.iter().map(|p| p.provider_name()).collect();
    assert_eq!(provider_names, vec!["ftp_sftp", "0x0st", "paste_rs", "uguu", "bunny"]);
    let configured: Vec<(&str, usize)> = o.provider_names.iter().map(|(n, i)| (n.as_str(), *i)).collect();
    assert_eq!(
        configured,
        vec![("ftp_sftp", 0), ("0x0st", 1), ("paste_rs", 2), ("uguu", 3), ("bunny", 4)]
    );
    assert_eq!(o.max_retries, 3);
    assert_eq!(o.retry_delay_ms, 1000);
    assert_eq!(o.timeout_seconds, 30);
    assert_eq!(o.provider_place("uguu"), Some(3));
    assert_eq!(o.provider_place("x0at"), None);
}

#[test]
fn orchestrator_passes_over_what_gives_no_provider() {
    let config = Config {
        general: GeneralConfig::default(),
        providers: vec![
            ("imgur".to_string(), http()),
            ("X0.at".to_string(), http()),
            ("bunny".to_string(), http()),
            ("sftp".to_string(), ProviderConfig::FtpSftp(ftp_config())),
        ],
        provider_groups: vec![],
    };
    let o = UploadOrchestrator::new(config);
    let configured: Vec<(&str, usize)> = o.provider_names.iter().map(|(n, i)| (n.as_str(), *i)).collect();
    assert_eq!(configured, vec![("X0.at", 0), ("sftp", 1)]);
    assert_eq!(o.providers.len(), 2);
    assert_eq!(o.find_provider("x0at"), Some(0));
    assert_eq!(o.find_provider("ftp_sftp"), Some(1));
    assert_eq!(o.find_provider("X0.at"), None);
    assert_eq!(o.provider_place("X0.at"), Some(0));
}

#[test]
fn providers_to_try_are_those_of_the_group_that_take_the_upload() {
    let o = orchestrator();
    assert_eq!(o.get_provider_indices_for_group("files", UploadType::File), vec![1, 3]);
    assert_eq!(o.get_provider_indices_for_group("images", UploadType::Image), vec![1, 3]);
    assert_eq!(o.get_provider_indices_for_group("pastes", UploadType::Paste), vec![2]);
    assert_eq!(o.get_provider_indices_for_group("pastes", UploadType::File), Vec::<usize>::new());
    assert_eq!(o.get_provider_indices_for_group("files", UploadType::Paste), vec![3]);
    assert_eq!(o.get_provider_indices_for_group("anything", UploadType::Paste), vec![2, 3]);
    assert_eq!(o.get_provider_indices_for_group("anything", UploadType::File), vec![1, 3]);
}

#[test]
fn providers_to_try_keep_the_order_of_the_group() {
    let mut config = Config::default_with_ftp();
    config.provider_groups.push((
        "mine".to_string(),
        ProviderGroupConfig {
            providers: vec!["uguu".to_string(), "nobody".to_string(), "0x0st".to_string(), "uguu".to_string()],
        },
    ));
    let o = UploadOrchestrator::new(config);
    assert_eq!(o.get_provider_indices_for_group("mine", UploadType::File), vec![3, 1, 3]);
}

#[test]
fn size_is_checked_against_the_provider() {
    let o = orchestrator();
    let small = UploadRequest::new(vec![0u8; 10], None, UploadType::Paste, None, false);
    assert_eq!(o.check_size(2, &small), Ok(()));
    let exact = UploadRequest::new(vec![0u8; 10 * 1024 * 1024], None, UploadType::Paste, None, false);
    assert_eq!(o.check_size(2, &exact), Ok(()));
    let large = UploadRequest::new(vec![0u8; 10 * 1024 * 1024 + 1], None, UploadType::Paste, None, false);
    assert_eq!(
        o.check_size(2, &large),
        Err(UploadError::FileTooLarge { max_size: 10485760, actual_size: 10485761 })
    );
    assert_eq!(o.check_size(3, &large), Ok(()));
    assert_eq!(
        o.connection_failed(3),
        UploadError::ConnectionFailed("Cannot connect to uguu".to_string())
    );
}

#[test]
fn delay_doubles_until_the_retries_are_used_up() {
    let o = orchestrator();
    assert_eq!(o.after_failure(0), RetryStep::Wait { delay_ms: 1000, retries: 1 });
    assert_eq!(o.after_failure(1), RetryStep::Wait { delay_ms: 2000, retries: 2 });
    assert_eq!(o.after_failure(2), RetryStep::Wait { delay_ms: 4000, retries: 3 });
    assert_eq!(o.after_failure(3), RetryStep::GiveUp);
    assert_eq!(o.after_failure(4), RetryStep::GiveUp);
    let mut config = Config::default_with_ftp();
    config.general.max_retries = 0;
    assert_eq!(UploadOrchestrator::new(config).after_failure(0), RetryStep::GiveUp);
    let mut config = Config::default_with_ftp();
    config.general.max_retries = 40;
    config.general.retry_delay_ms = 3;
    assert_eq!(
        UploadOrchestrator::new(config).after_failure(39),
        RetryStep::Wait { delay_ms: 3 * (1u64 << 39), retries: 40 }
    );
}

#[test]
fn a_round_ends_with_the_first_success() {
    let mut errors: Vec<UploadResponse> = Vec::new();
    let refused = UploadOrchestrator::record_attempt(
        &mut errors,
        "0x0st",
        Err(UploadError::UploadFailed("HTTP 500: oops".to_string())),
    );
    assert!(refused.is_none());
    let odd = UploadOrchestrator::record_attempt(
        &mut errors,
        "uguu",
        Ok(UploadResponse::failed("uguu".to_string(), "quota".to_string())),
    );
    assert!(odd.is_none());
    let done = UploadOrchestrator::record_attempt(
        &mut errors,
        "x0at",
        Ok(UploadResponse::success("https://x0.at/a".to_string(), "x0at".to_string(), None)),
    );
    assert_eq!(done.unwrap().url, Some("https://x0.at/a".to_string()));
    assert_eq!(errors.len(), 2);
    assert_eq!(errors[0].provider, "0x0st");
    assert_eq!(errors[0].error, Some("Upload failed: HTTP 500: oops".to_string()));
    assert!(!errors[0].success);
    assert_eq!(errors[1].error, Some("quota".to_string()));

    let all = UploadResponse::all_providers_failed(errors);
    assert!(!all.success);
    assert_eq!(all.url, None);
    assert_eq!(all.provider, "all");
    assert_eq!(
        all.error,
        Some("All providers failed: 0x0st: Upload failed: HTTP 500: oops; uguu: quota".to_string())
    );
}

#[test]
fn all_providers_failed_lists_the_failures_only() {
    let none = UploadResponse::all_providers_failed(vec![]);
    assert_eq!(none.error, Some("All providers failed: ".to_string()));
    let mut nameless = UploadResponse::failed("x".to_string(), "gone".to_string());
    nameless.error = None;
    let mixed = UploadResponse::all_providers_failed(vec![
        UploadResponse::success("u".to_string(), "ok".to_string(), None),
        nameless,
        UploadResponse::success("u".to_string(), "ok".to_string(), None),
        UploadResponse::failed("y".to_string(), "late".to_string()),
    ]);
    assert_eq!(mixed.error, Some("All providers failed: x: Unknown; y: late".to_string()));
    assert_eq!(mixed.provider, "all");
}

#[test]
fn answers_for_a_provider_asked_for_by_name() {
    let unknown = UploadOrchestrator::unknown_provider("imgur");
    assert!(!unknown.success);
    assert_eq!(unknown.provider, "imgur");
    assert_eq!(
        unknown.error,
        Some("Unknown provider: imgur. Available providers: 0x0st, paste_rs, uguu, x0at, ftp_sftp, bunny".to_string())
    );
    let unsupported = UploadOrchestrator::unsupported_type("paste_rs");
    assert_eq!(unsupported.provider, "paste_rs");
    assert_eq!(
        unsupported.error,
        Some("Provider 'paste_rs' does not support this upload type".to_string())
    );
    let none = UploadOrchestrator::no_providers("videos");
    assert_eq!(none.provider, "orchestrator");
    assert_eq!(none.error, Some("No providers available for group: videos".to_string()));

    let failed = UploadOrchestrator::specific_outcome("uguu", Err(UploadError::AuthenticationFailed));
    assert_eq!(failed.provider, "uguu");
    assert_eq!(failed.error, Some("Authentication failed".to_string()));
    let passed = UploadOrchestrator::specific_outcome(
        "uguu",
        Ok(UploadResponse::failed("other".to_string(), "as it is".to_string())),
    );
    assert_eq!(passed.provider, "other");
    assert_eq!(passed.error, Some("as it is".to_string()));
}
