//! Audio capture: configuration, errors, device decisions, the setup
//! sequence of the hardware unit and the consumer thread's decisions.
pub mod config;
pub mod consumer;
pub mod device;
pub mod error;
pub mod unit;

pub use config::AudioCaptureConfig;
pub use error::AudioCaptureError;
