use pst::models::{UploadRequest, UploadType};
use pst::providers::common::{
    filename_or, mime_type_for, mime_type_for_extension, read_url_reply, status_is_success,
    HttpReply,
};
use pst::providers::{
    check_file_size, DirectoryMode, FTPProvider, FtpProviderConfig, PasteRsProvider,
    ProviderCapabilities, SftpAuth, TransferProtocol, UguuProvider, UploadError, ZeroX0STProvider,
};

fn reply(status: u16, line: &str, body: Result<&str, &str>) -> HttpReply {
    HttpReply {
        status,
        status_line: line.to_string(),
        body: body.map(|b| b.to_string()).map_err(|e| e.to_string()),
    }
}

#[test]
fn every_error_has_its_text() {
    assert_eq!(UploadError::ConnectionFailed("x".to_string()).to_string(), "Connection failed: x");
    assert_eq!(UploadError::UploadFailed("x".to_string()).to_string(), "Upload failed: x");
    assert_eq!(
        UploadError::HttpError { status_code: 404, message: "Not Found".to_string() }.to_string(),
        "HTTP error 404: Not Found"
    );
    assert_eq!(
        UploadError::FileTooLarge { max_size: 536870912, actual_size: 1073741824 }.to_string(),
        "File too large: max 536870912 bytes, got 1073741824 bytes"
    );
    assert_eq!(UploadError::RateLimited { retry_after: 0 }.to_string(), "Rate limited: retry after 0s");
    assert_eq!(UploadError::AuthenticationFailed.to_string(), "Authentication failed");
    assert_eq!(UploadError::InvalidResponse("x".to_string()).to_string(), "Invalid response: x");
    assert_eq!(UploadError::ProviderNotAvailable("x".to_string()).to_string(), "Provider not available: x");
    assert_eq!(UploadError::Timeout("x".to_string()).to_string(), "Timeout: x");
}

#[test]
fn file_size_is_checked_against_the_limit() {
    assert_eq!(check_file_size(0, 0), Ok(()));
    assert_eq!(check_file_size(5, 5), Ok(()));
    assert_eq!(check_file_size(6, 5), Err(UploadError::FileTooLarge { max_size: 5, actual_size: 6 }));
}

#[test]
fn mime_types_compare_in_lower_case() {
    assert_eq!(mime_type_for(Some("PNG")), "image/png");
    assert_eq!(mime_type_for(Some("Jpeg")), "image/jpeg");
    assert_eq!(mime_type_for(Some("")), "application/octet-stream");
    assert_eq!(mime_type_for(None), "application/octet-stream");
    assert_eq!(mime_type_for_extension("PNG"), "application/octet-stream");
    assert_eq!(mime_type_for_extension("md"), "text/plain");
}

#[test]
fn filename_falls_back() {
    assert_eq!(filename_or(&Some("a.b".to_string()), "file"), "a.b");
    assert_eq!(filename_or(&Some("".to_string()), "file"), "");
    assert_eq!(filename_or(&None, "file"), "file");
}

#[test]
fn success_is_a_status_from_200_to_299() {
    assert!(!status_is_success(199));
    assert!(status_is_success(200));
    assert!(status_is_success(204));
    assert!(status_is_success(299));
    assert!(!status_is_success(300));
    assert!(!status_is_success(0));
}

#[test]
fn url_reply_is_read_in_every_case() {
    assert_eq!(read_url_reply(&reply(200, "200 OK", Ok(" https://x/y \r\n")), true), Ok("https://x/y".to_string()));
    assert_eq!(
        read_url_reply(&reply(200, "200 OK", Ok(" \n")), true),
        Err(UploadError::InvalidResponse("Empty response from server".to_string()))
    );
    assert_eq!(
        read_url_reply(&reply(200, "200 OK", Err("connection reset")), true),
        Err(UploadError::InvalidResponse("connection reset".to_string()))
    );
    assert_eq!(
        read_url_reply(&reply(503, "503 Service Unavailable", Ok("try later")), false),
        Err(UploadError::UploadFailed("HTTP 503 Service Unavailable: try later".to_string()))
    );
    assert_eq!(
        read_url_reply(&reply(503, "503 Service Unavailable", Err("reset")), false),
        Err(UploadError::UploadFailed("HTTP 503 Service Unavailable: Unknown error".to_string()))
    );
}

#[test]
fn zerox_provider() {
    let p = ZeroX0STProvider::new(5);
    assert_eq!(p.endpoint, "https://0x0.st");
    assert_eq!(p.timeout_seconds, 5);
    assert_eq!(p.provider_name(), "0x0st");
    assert!(p.supports_upload_type(UploadType::File));
    assert!(p.supports_upload_type(UploadType::Image));
    assert!(!p.supports_upload_type(UploadType::Paste));
    assert_eq!(p.max_file_size(), 512 * 1024 * 1024);
    assert_eq!(
        p.capabilities(),
        ProviderCapabilities {
            supports_expiration: true,
            supports_custom_names: true,
            requires_auth: false,
            supports_direct_text: false,
        }
    );
    let redirect = UploadRequest::new(vec![1], None, UploadType::File, None, true);
    assert_eq!(p.upload_filename(&redirect), "file");
    assert_eq!(p.mime_type(&redirect), "application/octet-stream");
    let named = UploadRequest::new(vec![1], Some("a.SVG".to_string()), UploadType::File, None, false);
    assert_eq!(p.upload_filename(&named), "a.SVG");
    assert_eq!(p.mime_type(&named), "image/svg+xml");
    assert_eq!(p.check_request(&named), Ok(()));
    let response = p.read_reply(&reply(200, "200 OK", Ok("https://0x0.st/abc.svg\n"))).unwrap();
    assert!(response.success);
    assert_eq!(response.url, Some("https://0x0.st/abc.svg".to_string()));
    assert_eq!(response.provider, "0x0st");
    assert_eq!(response.error, None);
    assert_eq!(
        p.read_reply(&reply(404, "404 Not Found", Ok("nope"))).unwrap_err(),
        UploadError::UploadFailed("HTTP 404 Not Found: nope".to_string())
    );
}

#[test]
fn x0at_names_a_redirect_page() {
    let p = pst::providers::X0AtProvider::new(5);
    let redirect = UploadRequest::new(vec![1], None, UploadType::Paste, None, true);
    assert_eq!(p.upload_filename(&redirect), "redirect.html");
    let named = UploadRequest::new(vec![1], Some("go.html".to_string()), UploadType::Paste, None, true);
    assert_eq!(p.upload_filename(&named), "go.html");
    assert_eq!(p.mime_type(&named), "text/html");
    assert_eq!(
        p.read_reply(&reply(301, "301 Moved Permanently", Ok("https://x0.at/a"))).unwrap_err(),
        UploadError::UploadFailed("HTTP 301 Moved Permanently: https://x0.at/a".to_string())
    );
}

#[test]
fn paste_rs_provider() {
    let p = PasteRsProvider::new(5);
    assert_eq!(p.endpoint, "https://paste.rs");
    assert_eq!(p.provider_name(), "paste_rs");
    assert!(p.supports_upload_type(UploadType::Paste));
    assert!(!p.supports_upload_type(UploadType::File));
    assert!(!p.supports_upload_type(UploadType::Image));
    assert_eq!(p.max_file_size(), 10 * 1024 * 1024);
    let full = p.read_reply(&reply(201, "201 Created", Ok("https://paste.rs/abc\n"))).unwrap();
    assert_eq!(full.url, Some("https://paste.rs/abc".to_string()));
    assert_eq!(full.provider, "paste_rs");
    let partial = p.read_reply(&reply(206, "206 Partial Content", Ok("abc"))).unwrap();
    assert_eq!(partial.url, Some("https://paste.rs/abc".to_string()));
    let plain = p.read_reply(&reply(201, "201 Created", Ok("http://other/x"))).unwrap();
    assert_eq!(plain.url, Some("http://other/x".to_string()));
    assert_eq!(
        p.read_reply(&reply(200, "200 OK", Ok("https://paste.rs/abc"))).unwrap_err(),
        UploadError::UploadFailed("HTTP 200 OK: https://paste.rs/abc".to_string())
    );
    assert_eq!(
        p.read_reply(&reply(201, "201 Created", Ok("  "))).unwrap_err(),
        UploadError::InvalidResponse("Empty response from server".to_string())
    );
    let over = UploadRequest::new(vec![0u8; 10 * 1024 * 1024 + 1], None, UploadType::Paste, None, false);
    assert_eq!(
        p.check_request(&over),
        Err(UploadError::FileTooLarge { max_size: 10485760, actual_size: 10485761 })
    );
}

#[test]
fn uguu_provider() {
    let p = UguuProvider::new(5);
    assert_eq!(p.endpoint, "https://uguu.se/upload");
    assert_eq!(p.provider_name(), "uguu");
    assert!(p.supports_upload_type(UploadType::Paste));
    assert_eq!(p.max_file_size(), 128 * 1024 * 1024);
    let request = UploadRequest::new(vec![1], Some("a.tar.GZ".to_string()), UploadType::File, None, false);
    assert_eq!(p.upload_filename(&request), "a.tar.GZ");
    assert_eq!(p.mime_type(&request), "application/octet-stream");
    assert_eq!(p.read_reply(&reply(200, "200 OK", Ok(" {} "))), Ok(" {} ".to_string()));
    assert_eq!(
        p.read_reply(&reply(500, "500 Internal Server Error", Ok("boom"))),
        Err(UploadError::UploadFailed("HTTP 500 Internal Server Error: boom".to_string()))
    );
    assert_eq!(
        p.read_reply(&reply(200, "200 OK", Err("cut"))),
        Err(UploadError::InvalidResponse("cut".to_string()))
    );
    let response = p.read_files(Ok(vec!["https://a/1".to_string(), "https://a/2".to_string()])).unwrap();
    assert_eq!(response.url, Some("https://a/1".to_string()));
    assert_eq!(response.provider, "uguu");
    assert_eq!(
        p.read_files(Ok(vec![])).unwrap_err(),
        UploadError::InvalidResponse("No files in response".to_string())
    );
    assert_eq!(
        p.read_files(Err("expected value at line 1".to_string())).unwrap_err(),
        UploadError::InvalidResponse("expected value at line 1".to_string())
    );
}

fn ftp(protocol: TransferProtocol, key: Option<&str>, password: Option<&str>) -> FTPProvider {
    FTPProvider::new(FtpProviderConfig {
        protocol,
        host: "h.example".to_string(),
        port: 22,
        username: "u".to_string(),
        password: password.map(|p| p.to_string()),
        ssh_key_path: key.map(|k| k.to_string()),
        ssh_key_passphrase: None,
        directory: "/up".to_string(),
        public_url: "https://h.example/up".to_string(),
        directory_mode: DirectoryMode::CreateIfMissing,
        max_file_size_mb: 1,
        ascii_mode_for_pastes: true,
    })
}

#[test]
fn directory_mode_is_read_in_any_case() {
    assert_eq!(DirectoryMode::try_from("existing_only"), Ok(DirectoryMode::ExistingOnly));
    assert_eq!(DirectoryMode::try_from("CREATE_IF_MISSING"), Ok(DirectoryMode::CreateIfMissing));
    assert_eq!(DirectoryMode::try_from("Existing_Only"), Ok(DirectoryMode::ExistingOnly));
    assert_eq!(DirectoryMode::try_from("Maybe"), Err("Unknown directory mode: Maybe".to_string()));
    assert_eq!(DirectoryMode::try_from(""), Err("Unknown directory mode: ".to_string()));
}

#[test]
fn ftp_provider_names_and_limits() {
    let p = ftp(TransferProtocol::Sftp, None, Some("pw"));
    assert_eq!(p.provider_name(), "ftp_sftp");
    assert_eq!(p.max_file_size, 1024 * 1024);
    assert_eq!(p.max_file_size(), 1024 * 1024);
    assert!(p.supports_upload_type(UploadType::Paste));
    assert_eq!(p.address(), "h.example:22");
    assert_eq!(p.public_link("a.txt"), "https://h.example/up/a.txt");
    assert_eq!(p.label(), "sftp (u@h.example)");
    let stored = p.stored("a.txt");
    assert!(stored.success);
    assert_eq!(stored.url, Some("https://h.example/up/a.txt".to_string()));
    assert_eq!(stored.provider, "sftp (u@h.example)");
    let over = UploadRequest::new(vec![0u8; 1024 * 1024 + 1], None, UploadType::File, None, false);
    assert_eq!(
        p.check_request(&over),
        Err(UploadError::FileTooLarge { max_size: 1048576, actual_size: 1048577 })
    );
}

#[test]
fn ftp_serves_sftp_only() {
    assert_eq!(ftp(TransferProtocol::Sftp, None, None).check_protocol(), Ok(()));
    assert_eq!(
        ftp(TransferProtocol::Ftp, None, None).check_protocol(),
        Err(UploadError::ProviderNotAvailable(
            "Plain FTP is not supported, use FTPS or SFTP instead".to_string()
        ))
    );
    assert_eq!(
        ftp(TransferProtocol::Ftps, None, None).check_protocol(),
        Err(UploadError::ProviderNotAvailable("FTPS support coming soon, use SFTP for now".to_string()))
    );
}

#[test]
fn ftp_login_prefers_the_key() {
    assert_eq!(ftp(TransferProtocol::Sftp, Some("/k"), Some("pw")).choose_auth(true), Ok(SftpAuth::KeyFile));
    assert_eq!(ftp(TransferProtocol::Sftp, Some("/k"), Some("pw")).choose_auth(false), Ok(SftpAuth::Password));
    assert_eq!(ftp(TransferProtocol::Sftp, Some("/k"), None).choose_auth(true), Ok(SftpAuth::KeyFile));
    assert_eq!(
        ftp(TransferProtocol::Sftp, Some("/k"), None).choose_auth(false),
        Err(UploadError::AuthenticationFailed)
    );
    assert_eq!(ftp(TransferProtocol::Sftp, None, Some("pw")).choose_auth(true), Ok(SftpAuth::Password));
    assert_eq!(ftp(TransferProtocol::Sftp, None, None).choose_auth(true), Err(UploadError::AuthenticationFailed));
}

#[test]
fn ftp_writes_in_chunks_of_32_kib() {
    assert_eq!(FTPProvider::next_chunk_len(100_000, 0), 32768);
    assert_eq!(FTPProvider::next_chunk_len(100_000, 32768), 32768);
    assert_eq!(FTPProvider::next_chunk_len(100_000, 98304), 1696);
    assert_eq!(FTPProvider::next_chunk_len(100_000, 100_000), 0);
    assert_eq!(FTPProvider::next_chunk_len(32768, 0), 32768);
    assert_eq!(FTPProvider::next_chunk_len(0, 0), 0);
}

#[test]
fn ftp_filename_with_a_given_stem() {
    let p = ftp(TransferProtocol::Sftp, None, Some("pw"));
    let redirect = UploadRequest::new(vec![], None, UploadType::Paste, None, true);
    assert_eq!(p.filename_with_stem(&redirect, "Zz00Zz00"), "Zz00Zz00.html");
    let paste = UploadRequest::new(vec![], None, UploadType::Paste, None, false);
    assert_eq!(p.filename_with_stem(&paste, "Zz00Zz00"), "Zz00Zz00.txt");
    let file = UploadRequest::new(vec![], None, UploadType::Image, None, false);
    assert_eq!(p.filename_with_stem(&file, "Zz00Zz00"), "Zz00Zz00.bin");
    let marked = UploadRequest::new(vec![], Some("*.jpeg".to_string()), UploadType::Image, None, true);
    assert_eq!(p.filename_with_stem(&marked, "Zz00Zz00"), "Zz00Zz00.jpeg");
    let named = UploadRequest::new(vec![], Some("cat.jpeg".to_string()), UploadType::Image, None, true);
    assert_eq!(p.filename_with_stem(&named, "Zz00Zz00"), "cat.jpeg");
    let drawn = p.get_filename(&redirect);
    assert_eq!(drawn.len(), 13);
    assert!(drawn.ends_with(".html"));
    assert_eq!(p.get_filename(&named), "cat.jpeg");
}

#[test]
fn mime_type_goes_by_the_extension_behind_the_last_dot() {
    assert_eq!(pst::providers::common::mime_type_of_filename(&Some("a.png.zip".to_string())), "application/zip");
    assert_eq!(pst::providers::common::mime_type_of_filename(&Some("a.zip.png".to_string())), "image/png");
    assert_eq!(pst::providers::common::mime_type_of_filename(&Some("png".to_string())), "application/octet-stream");
    assert_eq!(pst::providers::common::mime_type_of_filename(&Some(".png".to_string())), "application/octet-stream");
    assert_eq!(pst::providers::common::mime_type_of_filename(&Some("a.png.".to_string())), "application/octet-stream");
    assert_eq!(pst::providers::common::mime_type_of_filename(&Some("a.HTM".to_string())), "text/html");
    assert_eq!(pst::providers::common::mime_type_of_filename(&None), "application/octet-stream");
}
