//! Platform host wiring: the hub configuration plus optional scheduler, work-engine
//! and pub/sub backends, and a request context with accessors for them.

pub mod error;

pub use error::HiggsError;
pub mod config;

pub use config::{HiggsConfig, HiggsConfigBuilder, Subsystems};
pub mod context;

pub use context::Higgs;
