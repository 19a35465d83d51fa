//! The configuration and its defaults. Providers and groups are kept by
//! name, in the order in which they were entered; no name occurs twice in a
//! well-formed configuration.

use crate::text::str_eq;
use vstd::prelude::*;

verus! {

/// The whole configuration.
#[derive(Debug, Clone)]
pub struct Config {
    pub general: GeneralConfig,
    pub providers: Vec<(String, ProviderConfig)>,
    pub provider_groups: Vec<(String, ProviderGroupConfig)>,
}

/// Settings that hold for every upload.
#[derive(Debug, Clone)]
pub struct GeneralConfig {
    pub default_provider: String,
    pub timeout_seconds: u64,
    pub max_retries: u32,
    pub retry_delay_ms: u64,
    pub copy_to_clipboard: bool,
    pub strip_exif: bool,
}

/// The configuration of one provider, by its kind.
#[derive(Debug, Clone)]
pub enum ProviderConfig {
    Http(HttpProviderConfig),
    FtpSftp(FTPSFTPProviderConfig),
    Bunny(BunnyProviderConfig),
}

/// A public HTTP provider.
#[derive(Debug, Clone)]
pub struct HttpProviderConfig {
    pub enabled: bool,
    pub max_file_size_mb: u64,
    pub ascii_mode_for_pastes: bool,
    pub userhash: Option<String>,
    pub default_expiration: String,
}

/// One's own server, reached by FTP, FTPS or SFTP.
#[derive(Debug, Clone)]
pub struct FTPSFTPProviderConfig {
    pub enabled: bool,
    pub host: String,
    pub port: u16,
    pub username: String,
    pub password: Option<String>,
    pub ssh_private_key: Option<String>,
    pub ssh_key_passphrase: Option<String>,
    pub directory: String,
    pub public_url: String,
    pub directory_mode: String,
    pub max_file_size_mb: u64,
    pub ascii_mode_for_pastes: bool,
    pub enable_ftp: bool,
    pub enable_ftps: bool,
    pub enable_sftp: bool,
    pub default_expiration: String,
}

/// A Bunny storage zone.
#[derive(Debug, Clone)]
pub struct BunnyProviderConfig {
    pub enabled: bool,
    pub storage_zone: String,
    pub access_key: String,
    pub region: Option<String>,
    pub public_url: String,
    pub max_file_size_mb: u64,
}

/// The providers of a group, in the order in which they are tried.
#[derive(Debug, Clone)]
pub struct ProviderGroupConfig {
    pub providers: Vec<String>,
}

/// A provider is enabled unless the configuration says otherwise.
pub fn default_enabled() -> (r: bool)
    ensures
        r,
{
    true
}

/// The port where none is configured.
pub fn default_port() -> (r: u16)
    ensures
        r == 21,
{
    21
}

/// The directory mode where none is configured.
pub fn default_directory_mode() -> (r: String)
    ensures
        r@ == "create_if_missing"@,
{
    String::from_str("create_if_missing")
}

/// The size limit in MiB where none is configured.
pub fn default_max_file_size() -> (r: u64)
    ensures
        r == 1000,
{
    1000
}

/// Pastes go in ASCII mode unless the configuration says otherwise.
pub fn default_ascii_mode() -> (r: bool)
    ensures
        r,
{
    true
}

/// The expiration where none is configured.
pub fn default_expiration() -> (r: String)
    ensures
        r@ == "1h"@,
{
    String::from_str("1h")
}

/// URLs are not copied to the clipboard unless the configuration says so.
pub fn default_copy_to_clipboard() -> (r: bool)
    ensures
        !r,
{
    false
}

/// Metadata is stripped from images unless the configuration says otherwise.
pub fn default_strip_exif() -> (r: bool)
    ensures
        r,
{
    true
}

impl Default for GeneralConfig {
    /// No default provider, no timeout, no retries.
    fn default() -> (r: Self)
        ensures
            r.default_provider@.len() == 0,
            r.timeout_seconds == 0,
            r.max_retries == 0,
            r.retry_delay_ms == 0,
            !r.copy_to_clipboard,
            !r.strip_exif,
    {
        GeneralConfig {
            default_provider: String::new(),
            timeout_seconds: 0,
            max_retries: 0,
            retry_delay_ms: 0,
            copy_to_clipboard: false,
            strip_exif: false,
        }
    }
}

impl Default for Config {
    /// No providers and no groups.
    fn default() -> (r: Self)
        ensures
            r.wf(),
            r.providers@.len() == 0,
            r.provider_groups@.len() == 0,
            r.general.default_provider@.len() == 0,
            r.general.timeout_seconds == 0,
            r.general.max_retries == 0,
            r.general.retry_delay_ms == 0,
            !r.general.copy_to_clipboard,
            !r.general.strip_exif,
    {
        Config {
            general: GeneralConfig::default(),
            providers: Vec::new(),
            provider_groups: Vec::new(),
        }
    }
}

impl Default for HttpProviderConfig {
    /// Disabled, no limit, no expiration.
    fn default() -> (r: Self)
        ensures
            !r.enabled,
            r.max_file_size_mb == 0,
            !r.ascii_mode_for_pastes,
            r.userhash.is_none(),
            r.default_expiration@.len() == 0,
    {
        HttpProviderConfig {
            enabled: false,
            max_file_size_mb: 0,
            ascii_mode_for_pastes: false,
            userhash: None,
            default_expiration: String::new(),
        }
    }
}

impl Default for BunnyProviderConfig {
    /// Disabled, nothing named.
    fn default() -> (r: Self)
        ensures
            !r.enabled,
            r.storage_zone@.len() == 0,
            r.access_key@.len() == 0,
            r.region.is_none(),
            r.public_url@.len() == 0,
            r.max_file_size_mb == 0,
    {
        BunnyProviderConfig {
            enabled: false,
            storage_zone: String::new(),
            access_key: String::new(),
            region: None,
            public_url: String::new(),
            max_file_size_mb: 0,
        }
    }
}

impl Default for ProviderGroupConfig {
    /// An empty group.
    fn default() -> (r: Self)
        ensures
            r.providers@.len() == 0,
    {
        ProviderGroupConfig { providers: Vec::new() }
    }
}

impl ProviderConfig {
    /// Whether the provider is enabled, whatever its kind.
    pub open spec fn enabled(self) -> bool {
        match self {
            ProviderConfig::Http(config) => config.enabled,
            ProviderConfig::FtpSftp(config) => config.enabled,
            ProviderConfig::Bunny(config) => config.enabled,
        }
    }

    /// The size limit in MiB, whatever the kind of provider.
    pub open spec fn max_mb(self) -> u64 {
        match self {
            ProviderConfig::Http(config) => config.max_file_size_mb,
            ProviderConfig::FtpSftp(config) => config.max_file_size_mb,
            ProviderConfig::Bunny(config) => config.max_file_size_mb,
        }
    }

    /// Tells whether the provider is enabled.
    pub fn is_enabled(&self) -> (r: bool)
        ensures
            r == self.enabled(),
    {
        match self {
            ProviderConfig::Http(config) => config.enabled,
            ProviderConfig::FtpSftp(config) => config.enabled,
            ProviderConfig::Bunny(config) => config.enabled,
        }
    }

    /// Gives the size limit in MiB.
    pub fn get_max_file_size(&self) -> (r: u64)
        ensures
            r == self.max_mb(),
    {
        match self {
            ProviderConfig::Http(config) => config.max_file_size_mb,
            ProviderConfig::FtpSftp(config) => config.max_file_size_mb,
            ProviderConfig::Bunny(config) => config.max_file_size_mb,
        }
    }
}

/// Index of the first entry of `providers` under `name`, among the first
/// `upto` entries, or -1.
pub open spec fn provider_index(
    providers: Seq<(String, ProviderConfig)>,
    name: Seq<char>,
    upto: int,
) -> int
    decreases upto,
{
    if upto <= 0 {
        -1
    } else if provider_index(providers, name, upto - 1) >= 0 {
        provider_index(providers, name, upto - 1)
    } else if providers[upto - 1].0@ == name {
        upto - 1
    } else {
        -1
    }
}

/// Index of the first entry of `groups` under `name`, among the first
/// `upto` entries, or -1.
pub open spec fn group_index(
    groups: Seq<(String, ProviderGroupConfig)>,
    name: Seq<char>,
    upto: int,
) -> int
    decreases upto,
{
    if upto <= 0 {
        -1
    } else if group_index(groups, name, upto - 1) >= 0 {
        group_index(groups, name, upto - 1)
    } else if groups[upto - 1].0@ == name {
        upto - 1
    } else {
        -1
    }
}

/// What one entry of a selection is: the name and the configuration.
pub open spec fn selected(entry: (String, &ProviderConfig)) -> (Seq<char>, ProviderConfig) {
    (entry.0@, *entry.1)
}

/// The enabled providers among those that the first `upto` names of a group
/// name, in the order of the names. Names without a provider are passed over.
pub open spec fn group_selection(
    providers: Seq<(String, ProviderConfig)>,
    names: Seq<String>,
    upto: int,
) -> Seq<(Seq<char>, ProviderConfig)>
    decreases upto,
{
    if upto <= 0 {
        Seq::empty()
    } else {
        let before = group_selection(providers, names, upto - 1);
        let at = provider_index(providers, names[upto - 1]@, providers.len() as int);
        if at >= 0 && providers[at].1.enabled() {
            before.push((names[upto - 1]@, providers[at].1))
        } else {
            before
        }
    }
}

/// The enabled providers among the first `upto`, in their order.
pub open spec fn enabled_selection(providers: Seq<(String, ProviderConfig)>, upto: int) -> Seq<
    (Seq<char>, ProviderConfig),
>
    decreases upto,
{
    if upto <= 0 {
        Seq::empty()
    } else {
        let before = enabled_selection(providers, upto - 1);
        if providers[upto - 1].1.enabled() {
            before.push((providers[upto - 1].0@, providers[upto - 1].1))
        } else {
            before
        }
    }
}

impl Config {
    /// Whether no provider name and no group name occurs twice.
    pub open spec fn wf(self) -> bool {
        &&& forall|i: int, j: int|
            0 <= i < j < self.providers@.len() ==> self.providers@[i].0@ != self.providers@[j].0@
        &&& forall|i: int, j: int|
            0 <= i < j < self.provider_groups@.len() ==> self.provider_groups@[i].0@
                != self.provider_groups@[j].0@
    }

    /// What stripping a group down to its enabled providers gives; for a
    /// group that is not configured, every enabled provider.
    pub open spec fn selection(self, group: Seq<char>) -> Seq<(Seq<char>, ProviderConfig)> {
        let at = group_index(self.provider_groups@, group, self.provider_groups@.len() as int);
        if at >= 0 {
            let names = self.provider_groups@[at].1.providers@;
            group_selection(self.providers@, names, names.len() as int)
        } else {
            enabled_selection(self.providers@, self.providers@.len() as int)
        }
    }

    /// Looks a provider up by its name.
    pub fn get_provider_config(&self, name: &str) -> (r: Option<&ProviderConfig>)
        ensures
            ({
                let at = provider_index(self.providers@, name@, self.providers@.len() as int);
                if at >= 0 {
                    r == Some(&self.providers@[at].1)
                } else {
                    r.is_none()
                }
            }),
            r.is_some() <==> exists|i: int|
                0 <= i < self.providers@.len() && #[trigger] self.providers@[i].0@ == name@,
    {
        let mut i: usize = 0;
        while i < self.providers.len()
            invariant
                i <= self.providers@.len(),
                provider_index(self.providers@, name@, i as int) == -1,
                forall|k: int| 0 <= k < i ==> #[trigger] self.providers@[k].0@ != name@,
            decreases self.providers@.len() - i,
        {
            if str_eq(self.providers[i].0.as_str(), name) {
                proof {
                    lemma_provider_index_stays(
                        self.providers@,
                        name@,
                        i + 1,
                        self.providers@.len() as int,
                    );
                }
                return Some(&self.providers[i].1);
            }
            i += 1;
        }
        None
    }

    /// Looks the provider names of a group up by the group's name.
    pub fn get_provider_group(&self, name: &str) -> (r: Option<&Vec<String>>)
        ensures
            ({
                let at = group_index(
                    self.provider_groups@,
                    name@,
                    self.provider_groups@.len() as int,
                );
                if at >= 0 {
                    r == Some(&self.provider_groups@[at].1.providers)
                } else {
                    r.is_none()
                }
            }),
            r.is_some() <==> exists|i: int|
                0 <= i < self.provider_groups@.len() && #[trigger] self.provider_groups@[i].0@
                    == name@,
    {
        let mut i: usize = 0;
        while i < self.provider_groups.len()
            invariant
                i <= self.provider_groups@.len(),
                group_index(self.provider_groups@, name@, i as int) == -1,
                forall|k: int| 0 <= k < i ==> #[trigger] self.provider_groups@[k].0@ != name@,
            decreases self.provider_groups@.len() - i,
        {
            if str_eq(self.provider_groups[i].0.as_str(), name) {
                proof {
                    lemma_group_index_stays(
                        self.provider_groups@,
                        name@,
                        i + 1,
                        self.provider_groups@.len() as int,
                    );
                }
                return Some(&self.provider_groups[i].1.providers);
            }
            i += 1;
        }
        None
    }

    /// Gives the providers to try for a group, each with its name: the
    /// enabled ones among those that the group names, in the group's order;
    /// or, for a group that is not configured, every enabled provider.
    pub fn get_providers_for_group(&self, group: &str) -> (r: Vec<(String, &ProviderConfig)>)
        ensures
            r@.map_values(|e: (String, &ProviderConfig)| selected(e)) == self.selection(group@),
    {
        let mut out: Vec<(String, &ProviderConfig)> = Vec::new();
        match self.get_provider_group(group) {
            Some(names) => {
                let mut i: usize = 0;
                proof {
                    assert(out@.map_values(|e: (String, &ProviderConfig)| selected(e))
                        =~= group_selection(self.providers@, names@, 0));
                }
                while i < names.len()
                    invariant
                        i <= names@.len(),
                        out@.map_values(|e: (String, &ProviderConfig)| selected(e))
                            == group_selection(self.providers@, names@, i as int),
                    decreases names@.len() - i,
                {
                    let ghost before = out@;
                    match self.get_provider_config(names[i].as_str()) {
                        Some(config) => {
                            if config.is_enabled() {
                                out.push((names[i].clone(), config));
                                proof {
                                    assert(out@.map_values(
                                        |e: (String, &ProviderConfig)| selected(e),
                                    ) =~= before.map_values(
                                        |e: (String, &ProviderConfig)| selected(e),
                                    ).push((names@[i as int]@, *config)));
                                }
                            }
                        },
                        None => {},
                    }
                    i += 1;
                }
                out
            },
            None => {
                let mut i: usize = 0;
                proof {
                    assert(out@.map_values(|e: (String, &ProviderConfig)| selected(e))
                        =~= enabled_selection(self.providers@, 0));
                }
                while i < self.providers.len()
                    invariant
                        i <= self.providers@.len(),
                        out@.map_values(|e: (String, &ProviderConfig)| selected(e))
                            == enabled_selection(self.providers@, i as int),
                    decreases self.providers@.len() - i,
                {
                    let ghost before = out@;
                    if self.providers[i].1.is_enabled() {
                        out.push((self.providers[i].0.clone(), &self.providers[i].1));
                        proof {
                            assert(out@.map_values(|e: (String, &ProviderConfig)| selected(e))
                                =~= before.map_values(
                                |e: (String, &ProviderConfig)| selected(e),
                            ).push((self.providers@[i as int].0@, self.providers@[i as int].1)));
                        }
                    }
                    i += 1;
                }
                out
            },
        }
    }
}

/// Whether `e` is an HTTP provider under `name` as the defaults have it:
/// enabled, with the given limit in MiB.
pub open spec fn is_default_http(
    e: (String, ProviderConfig),
    name: Seq<char>,
    max_mb: u64,
) -> bool {
    &&& e.0@ == name
    &&& e.1 matches ProviderConfig::Http(c)
    &&& c.enabled
    &&& c.max_file_size_mb == max_mb
    &&& c.ascii_mode_for_pastes
    &&& c.userhash.is_none()
    &&& c.default_expiration@ == "1h"@
}

/// Whether `e` is the SFTP provider as the defaults have it: a disabled
/// example for the user to fill in.
pub open spec fn is_default_ftp(e: (String, ProviderConfig)) -> bool {
    &&& e.0@ == "ftp_sftp"@
    &&& e.1 matches ProviderConfig::FtpSftp(c)
    &&& !c.enabled
    &&& c.host@ == "ftp.example.com"@
    &&& c.port == 22
    &&& c.username@ == "username"@
    &&& c.password matches Some(password)
    &&& password@ == "password"@
    &&& c.ssh_private_key matches Some(key)
    &&& key@ == "~/.ssh/id_rsa"@
    &&& c.ssh_key_passphrase.is_none()
    &&& c.directory@ == "/public_html/uploads"@
    &&& c.public_url@ == "https://cdn.example.com/uploads"@
    &&& c.directory_mode@ == "create_if_missing"@
    &&& c.max_file_size_mb == 1000
    &&& c.ascii_mode_for_pastes
    &&& !c.enable_ftp
    &&& !c.enable_ftps
    &&& c.enable_sftp
    &&& c.default_expiration@ == "1h"@
}

/// Whether `e` is the Bunny provider as the defaults have it: a disabled
/// example for the user to fill in.
pub open spec fn is_default_bunny(e: (String, ProviderConfig)) -> bool {
    &&& e.0@ == "bunny"@
    &&& e.1 matches ProviderConfig::Bunny(c)
    &&& !c.enabled
    &&& c.storage_zone@ == "your-storage-zone"@
    &&& c.access_key@ == "your-access-key"@
    &&& c.region.is_none()
    &&& c.public_url@ == "https://cdn.example.com/files"@
    &&& c.max_file_size_mb == 500
}

/// Whether `e` is the group `name` with exactly the given members, in order.
pub open spec fn is_group(
    e: (String, ProviderGroupConfig),
    name: Seq<char>,
    members: Seq<Seq<char>>,
) -> bool {
    &&& e.0@ == name
    &&& e.1.providers@.len() == members.len()
    &&& forall|i: int| 0 <= i < members.len() ==> (#[trigger] e.1.providers@[i])@ == members[i]
}

/// The members of the default groups for files and for images.
pub open spec fn file_providers() -> Seq<Seq<char>> {
    seq!["ftp_sftp"@, "bunny"@, "0x0st"@, "uguu"@]
}

/// The members of the default group for pastes.
pub open spec fn paste_providers() -> Seq<Seq<char>> {
    seq!["ftp_sftp"@, "bunny"@, "paste_rs"@]
}

/// The five provider names of the defaults differ from one another, and so
/// do the three group names.
pub proof fn lemma_default_names_differ()
    ensures
        "ftp_sftp"@ != "0x0st"@,
        "ftp_sftp"@ != "paste_rs"@,
        "ftp_sftp"@ != "uguu"@,
        "ftp_sftp"@ != "bunny"@,
        "0x0st"@ != "paste_rs"@,
        "0x0st"@ != "uguu"@,
        "0x0st"@ != "bunny"@,
        "paste_rs"@ != "uguu"@,
        "paste_rs"@ != "bunny"@,
        "uguu"@ != "bunny"@,
        "files"@ != "pastes"@,
        "files"@ != "images"@,
        "pastes"@ != "images"@,
{
    reveal_strlit("ftp_sftp");
    reveal_strlit("0x0st");
    reveal_strlit("paste_rs");
    reveal_strlit("uguu");
    reveal_strlit("bunny");
    reveal_strlit("files");
    reveal_strlit("pastes");
    reveal_strlit("images");
    assert("ftp_sftp"@[0] != "paste_rs"@[0]);
    assert("0x0st"@[0] != "bunny"@[0]);
    assert("files"@[0] != "images"@[0]);
}

/// A group of four providers.
fn group_of(name: &str, a: &str, b: &str, c: &str, d: Option<&str>) -> (r: (
    String,
    ProviderGroupConfig,
))
    ensures
        r.0@ == name@,
        d matches Some(last) ==> is_group(r, name@, seq![a@, b@, c@, last@]),
        d.is_none() ==> is_group(r, name@, seq![a@, b@, c@]),
{
    let mut providers: Vec<String> = Vec::new();
    providers.push(String::from_str(a));
    providers.push(String::from_str(b));
    providers.push(String::from_str(c));
    match d {
        Some(last) => providers.push(String::from_str(last)),
        None => {},
    }
    (String::from_str(name), ProviderGroupConfig { providers })
}

/// An enabled HTTP provider with the usual defaults and the given limit.
fn http_entry(name: &str, max_file_size_mb: u64) -> (r: (String, ProviderConfig))
    ensures
        is_default_http(r, name@, max_file_size_mb),
{
    (
        String::from_str(name),
        ProviderConfig::Http(
            HttpProviderConfig {
                enabled: true,
                max_file_size_mb,
                ascii_mode_for_pastes: true,
                userhash: None,
                default_expiration: String::from_str("1h"),
            },
        ),
    )
}

impl Config {
    /// The configuration written out where none exists: the public
    /// providers enabled, SFTP and Bunny as disabled examples, and a group
    /// each for files, pastes and images with one's own server first.
    pub fn default_with_ftp() -> (r: Self)
        ensures
            r.wf(),
            r.general.default_provider@ == "all"@,
            r.general.timeout_seconds == 30,
            r.general.max_retries == 3,
            r.general.retry_delay_ms == 1000,
            !r.general.copy_to_clipboard,
            r.general.strip_exif,
            r.providers@.len() == 5,
            is_default_ftp(r.providers@[0]),
            is_default_http(r.providers@[1], "0x0st"@, 512),
            is_default_http(r.providers@[2], "paste_rs"@, 10),
            is_default_http(r.providers@[3], "uguu"@, 128),
            is_default_bunny(r.providers@[4]),
            r.provider_groups@.len() == 3,
            is_group(r.provider_groups@[0], "files"@, file_providers()),
            is_group(r.provider_groups@[1], "pastes"@, paste_providers()),
            is_group(r.provider_groups@[2], "images"@, file_providers()),
    {
        let general = GeneralConfig {
            default_provider: String::from_str("all"),
            timeout_seconds: 30,
            max_retries: 3,
            retry_delay_ms: 1000,
            copy_to_clipboard: false,
            strip_exif: true,
        };
        let mut providers: Vec<(String, ProviderConfig)> = Vec::new();
        providers.push(
            (
                String::from_str("ftp_sftp"),
                ProviderConfig::FtpSftp(
                    FTPSFTPProviderConfig {
                        enabled: false,
                        host: String::from_str("ftp.example.com"),
                        port: 22,
                        username: String::from_str("username"),
                        password: Some(String::from_str("password")),
                        ssh_private_key: Some(String::from_str("~/.ssh/id_rsa")),
                        ssh_key_passphrase: None,
                        directory: String::from_str("/public_html/uploads"),
                        public_url: String::from_str("https://cdn.example.com/uploads"),
                        directory_mode: String::from_str("create_if_missing"),
                        max_file_size_mb: 1000,
                        ascii_mode_for_pastes: true,
                        enable_ftp: false,
                        enable_ftps: false,
                        enable_sftp: true,
                        default_expiration: String::from_str("1h"),
                    },
                ),
            ),
        );
        providers.push(http_entry("0x0st", 512));
        providers.push(http_entry("paste_rs", 10));
        providers.push(http_entry("uguu", 128));
        providers.push(
            (
                String::from_str("bunny"),
                ProviderConfig::Bunny(
                    BunnyProviderConfig {
                        enabled: false,
                        storage_zone: String::from_str("your-storage-zone"),
                        access_key: String::from_str("your-access-key"),
                        region: None,
                        public_url: String::from_str("https://cdn.example.com/files"),
                        max_file_size_mb: 500,
                    },
                ),
            ),
        );
        let mut provider_groups: Vec<(String, ProviderGroupConfig)> = Vec::new();
        provider_groups.push(group_of("files", "ftp_sftp", "bunny", "0x0st", Some("uguu")));
        provider_groups.push(group_of("pastes", "ftp_sftp", "bunny", "paste_rs", None));
        provider_groups.push(group_of("images", "ftp_sftp", "bunny", "0x0st", Some("uguu")));
        proof {
            lemma_default_names_differ();
        }
        Config { general, providers, provider_groups }
    }
}

/// Once a name is found among the first entries, it stays found.
pub proof fn lemma_provider_index_stays(
    providers: Seq<(String, ProviderConfig)>,
    name: Seq<char>,
    from: int,
    upto: int,
)
    requires
        0 < from <= upto,
        provider_index(providers, name, from - 1) == -1,
        providers[from - 1].0@ == name,
    ensures
        provider_index(providers, name, upto) == from - 1,
    decreases upto,
{
    if from < upto {
        lemma_provider_index_stays(providers, name, from, upto - 1);
    }
}

/// Once a name is found among the first entries, it stays found.
pub proof fn lemma_group_index_stays(
    groups: Seq<(String, ProviderGroupConfig)>,
    name: Seq<char>,
    from: int,
    upto: int,
)
    requires
        0 < from <= upto,
        group_index(groups, name, from - 1) == -1,
        groups[from - 1].0@ == name,
    ensures
        group_index(groups, name, upto) == from - 1,
    decreases upto,
{
    if from < upto {
        lemma_group_index_stays(groups, name, from, upto - 1);
    }
}

} // verus!
