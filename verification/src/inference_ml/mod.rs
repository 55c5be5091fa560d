//! Inference stage: configuration, errors, score checking and the decision
//! part of model loading.
pub mod config;
pub mod error;
pub mod model;
pub mod runner;

pub use config::InferenceConfig;
pub use error::InferenceError;
pub use model::CoreMLModel;
