//! Errors of the audio capture module.
use vstd::prelude::*;
use vstd::string::*;
use crate::text::{push_signed_decimal, signed_decimal};

verus! {

/// Errors of the audio capture module.
#[derive(Debug)]
pub enum AudioCaptureError {
    /// No default input device was found.
    DeviceNotFound,
    /// The device does not support the required format (Float32 mono 16 kHz).
    FormatUnsupported,
    /// Creating the audio unit failed (CoreAudio status code).
    UnitCreationFailed(i32),
    /// Starting the audio unit failed.
    UnitStartFailed(i32),
    /// Stopping the audio unit failed.
    UnitStopFailed(i32),
    /// Setting a CoreAudio property failed.
    PropertySetFailed(i32),
    /// The ring buffer is full (overflow detected).
    RingBufferFull,
}

/// Text of a capture error, as its `Display` renders it.
pub open spec fn capture_error_text(e: AudioCaptureError) -> Seq<char> {
    match e {
        AudioCaptureError::DeviceNotFound => "Aucun device d'entrée audio par défaut trouvé"@,
        AudioCaptureError::FormatUnsupported => "Le device ne supporte pas le format Float32 mono 16 kHz"@,
        AudioCaptureError::UnitCreationFailed(c) => "Échec de création de l'AudioUnit (OSStatus: "@
            + signed_decimal(c as int) + ")"@,
        AudioCaptureError::UnitStartFailed(c) => "Échec du démarrage de l'AudioUnit (OSStatus: "@
            + signed_decimal(c as int) + ")"@,
        AudioCaptureError::UnitStopFailed(c) => "Échec de l'arrêt de l'AudioUnit (OSStatus: "@
            + signed_decimal(c as int) + ")"@,
        AudioCaptureError::PropertySetFailed(c) =>
            "Échec de la configuration d'une propriété CoreAudio (OSStatus: "@ + signed_decimal(
            c as int,
        ) + ")"@,
        AudioCaptureError::RingBufferFull => "Le ring buffer est plein — des samples ont été perdus"@,
    }
}

fn with_status(prefix: &str, code: i32) -> (s: String)
    ensures
        s@ == prefix@ + signed_decimal(code as int) + ")"@,
{
    proof {
        reveal_strlit(")");
    }
    let mut s = String::from_str(prefix);
    push_signed_decimal(&mut s, code as i64);
    s.append(")");
    s
}

impl AudioCaptureError {
    /// Human-readable description of the error.
    pub fn message(&self) -> (s: String)
        ensures
            s@ == capture_error_text(*self),
            s@.len() > 0,
    {
        proof {
            reveal_strlit("Aucun device d'entrée audio par défaut trouvé");
            reveal_strlit("Le device ne supporte pas le format Float32 mono 16 kHz");
            reveal_strlit("Échec de création de l'AudioUnit (OSStatus: ");
            reveal_strlit("Échec du démarrage de l'AudioUnit (OSStatus: ");
            reveal_strlit("Échec de l'arrêt de l'AudioUnit (OSStatus: ");
            reveal_strlit("Échec de la configuration d'une propriété CoreAudio (OSStatus: ");
            reveal_strlit("Le ring buffer est plein — des samples ont été perdus");
        }
        match self {
            AudioCaptureError::DeviceNotFound => String::from_str(
                "Aucun device d'entrée audio par défaut trouvé",
            ),
            AudioCaptureError::FormatUnsupported => String::from_str(
                "Le device ne supporte pas le format Float32 mono 16 kHz",
            ),
            AudioCaptureError::UnitCreationFailed(c) => with_status(
                "Échec de création de l'AudioUnit (OSStatus: ",
                *c,
            ),
            AudioCaptureError::UnitStartFailed(c) => with_status(
                "Échec du démarrage de l'AudioUnit (OSStatus: ",
                *c,
            ),
            AudioCaptureError::UnitStopFailed(c) => with_status(
                "Échec de l'arrêt de l'AudioUnit (OSStatus: ",
                *c,
            ),
            AudioCaptureError::PropertySetFailed(c) => with_status(
                "Échec de la configuration d'une propriété CoreAudio (OSStatus: ",
                *c,
            ),
            AudioCaptureError::RingBufferFull => String::from_str(
                "Le ring buffer est plein — des samples ont été perdus",
            ),
        }
    }
}

} // verus!
