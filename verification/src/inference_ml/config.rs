//! Configuration of the inference module.
use vstd::prelude::*;
use vstd::string::*;
use crate::inference_ml::error::InferenceError;

verus! {

/// Configuration of the inference module.
#[derive(Debug, Clone)]
pub struct InferenceConfig {
    /// Path to the compiled `.mlmodelc` directory.
    pub model_path: String,
    /// Name of the model's input feature.
    pub input_name: String,
    /// Name of the model's output feature.
    pub output_name: String,
    /// Number of MFCC frames (time axis).
    pub n_frames: usize,
    /// Number of MFCC coefficients per frame.
    pub n_mfcc: usize,
}

impl Default for InferenceConfig {
    fn default() -> (c: Self)
        ensures
            c.model_path@ == Seq::<char>::empty(),
            c.input_name@ == "mfcc_input"@,
            c.output_name@ == "classLabel_probs"@,
            c.n_frames == 98,
            c.n_mfcc == 13,
    {
        InferenceConfig {
            model_path: String::new(),
            input_name: String::from_str("mfcc_input"),
            output_name: String::from_str("classLabel_probs"),
            n_frames: 98,
            n_mfcc: 13,
        }
    }
}

impl InferenceConfig {
    /// Checks that the configuration is consistent: a model path is given
    /// and both dimensions of the MFCC matrix are non-zero.
    pub fn validate(&self) -> (r: Result<(), InferenceError>)
        ensures
            self.model_path@.len() == 0 ==> (r matches Err(InferenceError::ModelNotFound(m))
                && m@ == "model_path est vide"@),
            self.model_path@.len() > 0 && self.n_frames == 0 ==> r == Err::<(), InferenceError>(
                InferenceError::InvalidInputShape { expected: (1, 1, 1, self.n_mfcc), got: 0 },
            ),
            self.model_path@.len() > 0 && self.n_frames > 0 && self.n_mfcc == 0 ==> r == Err::<
                (),
                InferenceError,
            >(InferenceError::InvalidInputShape { expected: (1, 1, self.n_frames, 1), got: 0 }),
            r is Ok <==> (self.model_path@.len() > 0 && self.n_frames > 0 && self.n_mfcc > 0),
    {
        if self.model_path.as_str().is_empty() {
            proof {
                reveal_strlit("model_path est vide");
            }
            return Err(InferenceError::ModelNotFound(String::from_str("model_path est vide")));
        }
        if self.n_frames == 0 {
            return Err(InferenceError::InvalidInputShape { expected: (1, 1, 1, self.n_mfcc), got: 0 });
        }
        if self.n_mfcc == 0 {
            return Err(
                InferenceError::InvalidInputShape { expected: (1, 1, self.n_frames, 1), got: 0 },
            );
        }
        Ok(())
    }
}

} // verus!
