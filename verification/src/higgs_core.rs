//! Valence / session hub: process configuration, request context and permission
//! payload helpers for server functions.

pub mod config;
pub mod error;
pub mod server_runtime;
pub mod text;

pub use config::{HiggsConfig, HiggsConfigBuilder, HiggsValenceFactory};
pub use error::HiggsError;
pub mod context;

pub use context::Higgs;
