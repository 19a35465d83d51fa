//! Choosing providers for an upload and deciding how often to try each.

pub mod provider;
pub mod upload_orchestrator;

pub use provider::{create_provider, Provider, ProviderKind};
pub use upload_orchestrator::{RetryStep, UploadOrchestrator};
