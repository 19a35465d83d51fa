//! Upload helper library: image metadata stripping, upload models,
//! provider configuration and the decisions that drive an upload.

pub mod clipboard;
pub mod config;
pub mod exif;
pub mod input;
pub mod models;
pub mod naming;
pub mod orchestrator;
pub mod providers;
pub mod redirect_generator;
pub mod text;
