//! Errors of the inference module.
use vstd::prelude::*;
use vstd::string::*;
use crate::text::{decimal, push_decimal};

verus! {

/// Errors of the inference module.
#[derive(Debug)]
pub enum InferenceError {
    /// The model path is empty or does not exist.
    ModelNotFound(String),
    /// Loading the Core ML model failed.
    LoadFailed(String),
    /// The Core ML bridge returned a null handle.
    NullHandle,
    /// The input shape does not match what the model expects.
    InvalidInputShape { expected: (usize, usize, usize, usize), got: usize },
    /// Inference failed (score out of range, bridge error...).
    InferenceFailed(String),
    /// The requested output is missing from the model's features.
    OutputNotFound(String),
    /// The communication channel was closed.
    ChannelClosed,
}

/// Number of elements of a four-dimensional shape.
pub open spec fn shape_elements(s: (usize, usize, usize, usize)) -> int {
    s.0 * s.1 * s.2 * s.3
}

/// Text of an inference error, as its `Display` renders it.
pub open spec fn inference_error_text(e: InferenceError) -> Seq<char> {
    match e {
        InferenceError::ModelNotFound(path) => "modèle introuvable : '"@ + path@ + "'"@,
        InferenceError::LoadFailed(msg) => "échec du chargement Core ML : "@ + msg@,
        InferenceError::NullHandle => "le bridge Core ML a retourné un handle null"@,
        InferenceError::InvalidInputShape { expected, got } => "forme d'entrée invalide : attendu "@
            + decimal(expected.0 as nat) + "×"@ + decimal(expected.1 as nat) + "×"@ + decimal(
            expected.2 as nat,
        ) + "×"@ + decimal(expected.3 as nat) + " = "@ + decimal(shape_elements(expected) as nat)
            + " éléments, reçu "@ + decimal(got as nat),
        InferenceError::InferenceFailed(msg) => "échec de l'inférence : "@ + msg@,
        InferenceError::OutputNotFound(name) => "sortie '"@ + name@
            + "' absente des features du modèle"@,
        InferenceError::ChannelClosed => "le channel de communication a été fermé"@,
    }
}

/// Whether rendering the error computes its element count without overflow.
pub open spec fn inference_error_renderable(e: InferenceError) -> bool {
    match e {
        InferenceError::InvalidInputShape { expected, got } => shape_elements(expected)
            <= usize::MAX,
        _ => true,
    }
}

impl InferenceError {
    /// Human-readable description of the error.
    pub fn message(&self) -> (s: String)
        requires
            inference_error_renderable(*self),
        ensures
            s@ == inference_error_text(*self),
            s@.len() > 0,
    {
        proof {
            reveal_strlit("modèle introuvable : '");
            reveal_strlit("'");
            reveal_strlit("échec du chargement Core ML : ");
            reveal_strlit("le bridge Core ML a retourné un handle null");
            reveal_strlit("forme d'entrée invalide : attendu ");
            reveal_strlit("×");
            reveal_strlit(" = ");
            reveal_strlit(" éléments, reçu ");
            reveal_strlit("échec de l'inférence : ");
            reveal_strlit("sortie '");
            reveal_strlit("' absente des features du modèle");
            reveal_strlit("le channel de communication a été fermé");
        }
        match self {
            InferenceError::ModelNotFound(path) => {
                let mut s = String::from_str("modèle introuvable : '");
                s.append(path.as_str());
                s.append("'");
                s
            },
            InferenceError::LoadFailed(msg) => {
                let mut s = String::from_str("échec du chargement Core ML : ");
                s.append(msg.as_str());
                s
            },
            InferenceError::NullHandle => String::from_str(
                "le bridge Core ML a retourné un handle null",
            ),
            InferenceError::InvalidInputShape { expected, got } => {
                let (a, b, c, d) = *expected;
                proof {
                    assert(a * b * c <= a * b * c * d || d == 0) by (nonlinear_arith);
                    assert(a * b <= a * b * c || c == 0) by (nonlinear_arith);
                    assert(a * b == 0 ==> a * b * c * d == 0) by (nonlinear_arith);
                    assert(a * b * c == 0 ==> a * b * c * d == 0) by (nonlinear_arith);
                }
                let ab: usize = if c == 0 || d == 0 { 0 } else { a * b };
                let abc: usize = if d == 0 { 0 } else { ab * c };
                let total: usize = abc * d;
                assert(total == shape_elements(*expected)) by (nonlinear_arith)
                    requires
                        ab == (if c == 0 || d == 0 { 0 } else { a * b }),
                        abc == (if d == 0 { 0 } else { ab * c }),
                        total == abc * d,
                        shape_elements(*expected) == a * b * c * d,
                ;
                let mut s = String::from_str("forme d'entrée invalide : attendu ");
                push_decimal(&mut s, a as u128);
                s.append("×");
                push_decimal(&mut s, b as u128);
                s.append("×");
                push_decimal(&mut s, c as u128);
                s.append("×");
                push_decimal(&mut s, d as u128);
                s.append(" = ");
                push_decimal(&mut s, total as u128);
                s.append(" éléments, reçu ");
                push_decimal(&mut s, *got as u128);
                s
            },
            InferenceError::InferenceFailed(msg) => {
                let mut s = String::from_str("échec de l'inférence : ");
                s.append(msg.as_str());
                s
            },
            InferenceError::OutputNotFound(name) => {
                let mut s = String::from_str("sortie '");
                s.append(name.as_str());
                s.append("' absente des features du modèle");
                s
            },
            InferenceError::ChannelClosed => String::from_str(
                "le channel de communication a été fermé",
            ),
        }
    }
}

/// Errors of different kinds never read the same, whatever their payloads.
pub proof fn lemma_inference_error_texts_distinct(a: InferenceError, b: InferenceError)
    requires
        !(a is ModelNotFound && b is ModelNotFound),
        !(a is LoadFailed && b is LoadFailed),
        !(a is NullHandle && b is NullHandle),
        !(a is InvalidInputShape && b is InvalidInputShape),
        !(a is InferenceFailed && b is InferenceFailed),
        !(a is OutputNotFound && b is OutputNotFound),
        !(a is ChannelClosed && b is ChannelClosed),
    ensures
        inference_error_text(a) != inference_error_text(b),
{
    reveal_strlit("modèle introuvable : '");
    reveal_strlit("échec du chargement Core ML : ");
    reveal_strlit("le bridge Core ML a retourné un handle null");
    reveal_strlit("forme d'entrée invalide : attendu ");
    reveal_strlit("échec de l'inférence : ");
    reveal_strlit("sortie '");
    reveal_strlit("le channel de communication a été fermé");
    let ta = inference_error_text(a);
    let tb = inference_error_text(b);
    assert(ta[0] != tb[0] || ta[3] != tb[3] || ta[7] != tb[7]);
}

} // verus!
