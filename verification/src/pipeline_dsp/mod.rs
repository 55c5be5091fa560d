//! Integer and ordering logic of the DSP stage: its configuration check,
//! framing, the MFCC frame accumulator, their composition on a batch, the DCT size selection and the
//! decisions of the DSP thread.
pub mod config;
pub mod framing;
pub mod mfcc;
pub mod pipeline;
pub mod processor;
pub mod runner;

pub use config::{DspConfig, DspError};
pub use framing::Framer;
pub use processor::MfccAccumulator;
