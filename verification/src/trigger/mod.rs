//! Wake-word trigger: sliding vote with cooldown, configuration, errors and
//! the decision part of the socket notification.
pub mod config;
pub mod engine;
pub mod error;
pub mod ipc;
pub mod runner;

pub use config::TriggerConfig;
pub use engine::TriggerEngine;
pub use error::TriggerError;
pub use ipc::IpcNotifier;
