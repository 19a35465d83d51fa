//! Settings: providers, groups of providers, and general options.

pub mod settings;

pub use settings::{
    BunnyProviderConfig, Config, FTPSFTPProviderConfig, GeneralConfig, HttpProviderConfig,
    ProviderConfig, ProviderGroupConfig,
};
