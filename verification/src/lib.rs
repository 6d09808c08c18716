//! Host wiring for a shared Valence context: session identity, host request
//! context, permission payloads, and process configuration with optional subsystem
//! backends.
//!
//! - [`identity`]: session snapshots and the identity adapter trait.
//! - [`host`]: the request context (router handle plus optional session) and the
//!   actor it maps to.
//! - [`higgs_core`]: the Valence/session hub: configuration, per-request context,
//!   permission payload helpers.
//! - [`platform`]: the hub plus scheduler / pub-sub / work-engine accessors.

pub mod higgs_core;
pub mod host;
pub mod identity;
pub mod platform;

pub use identity::{SessionIdentity, SessionSnapshot, SessionUserId};
pub use higgs_core::{server_runtime, HiggsValenceFactory};
pub use platform::{Higgs, HiggsConfig, HiggsConfigBuilder, HiggsError, Subsystems};
