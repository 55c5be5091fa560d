//! Word Waker: the decision logic of a wake-word daemon (capture
//! configuration, framing, sliding vote with cooldown, notification and
//! configuration checks), verified with Verus.
pub mod float_bits;
pub mod text;
pub mod clock;
pub mod trigger;
pub mod pipeline_dsp;
pub mod inference_ml;
pub mod audio_capture;
pub mod daemon;
