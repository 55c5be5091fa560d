//! Runtime configuration of the daemon.
pub mod config;

pub use config::{DaemonConfig, DaemonConfigError};
