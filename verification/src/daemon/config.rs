//! Runtime configuration of the daemon, from the values of its environment
//! variables. Reading the environment (and parsing the threshold, a
//! floating-point number) is done by the caller.
use vstd::prelude::*;
use vstd::string::*;
use crate::float_bits::{f32_at_most, f32_le, F32_ONE, F32_ZERO};
use crate::inference_ml::InferenceConfig;
use crate::trigger::TriggerConfig;

verus! {

/// Value of an ASCII decimal digit character, if it is one.
pub open spec fn digit_value(c: char) -> Option<nat> {
    if '0' <= c && c <= '9' {
        Some((c as nat - '0' as nat) as nat)
    } else {
        None
    }
}

/// Whether every character of `s` is an ASCII digit.
pub open spec fn all_digits(s: Seq<char>) -> bool {
    forall|i: int| 0 <= i < s.len() ==> #[trigger] digit_value(s[i]) is Some
}

/// Value of a string of ASCII digits, most significant first.
pub open spec fn digits_value(s: Seq<char>) -> nat
    decreases s.len(),
{
    if s.len() == 0 {
        0
    } else {
        digits_value(s.drop_last()) * 10 + digit_value(s.last()).unwrap_or(0)
    }
}

/// How `u64::from_str` reads a string: an optional `+`, then one or more
/// ASCII digits whose value fits in 64 bits; anything else is an error.
pub open spec fn parse_u64_spec(s: Seq<char>) -> Option<u64> {
    let t = if s.len() > 0 && s[0] == '+' {
        s.drop_first()
    } else {
        s
    };
    if t.len() > 0 && all_digits(t) && digits_value(t) <= u64::MAX {
        Some(digits_value(t) as u64)
    } else {
        None
    }
}

proof fn lemma_digits_value_grows(s: Seq<char>, i: int)
    requires
        0 <= i <= s.len(),
        all_digits(s),
    ensures
        digits_value(s.take(i)) <= digits_value(s),
    decreases s.len() - i,
{
    if i < s.len() {
        lemma_digits_value_grows(s, i + 1);
        assert(s.take(i + 1).drop_last() =~= s.take(i));
    } else {
        assert(s.take(i) =~= s);
    }
}

/// Reads an unsigned 64-bit integer as `u64::from_str` does.
pub fn parse_u64(s: &str) -> (r: Option<u64>)
    ensures
        r == parse_u64_spec(s@),
{
    let n = s.unicode_len();
    let mut i: usize = 0;
    if n > 0 && s.get_char(0) == '+' {
        i = 1;
    }
    let start = i;
    let ghost t = s@.skip(start as int);
    assert(t == if s@.len() > 0 && s@[0] == '+' { s@.drop_first() } else { s@ });
    if start == n {
        return None;
    }
    let mut value: u64 = 0;
    while i < n
        invariant
            n == s@.len(),
            start <= i <= n,
            t == s@.skip(start as int),
            t == (if s@.len() > 0 && s@[0] == '+' {
                s@.drop_first()
            } else {
                s@
            }),
            t.len() == n - start,
            t.len() > 0,
            all_digits(t.take(i - start)),
            value == digits_value(t.take(i - start)),
        decreases n - i,
    {
        let c = s.get_char(i);
        let ghost k = i - start;
        assert(t[k] == c);
        assert(t.take(k + 1).drop_last() =~= t.take(k));
        if c < '0' || c > '9' {
            proof {
                assert(digit_value(t[k]) is None);
            }
            return None;
        }
        let d = (c as u32 - '0' as u32) as u64;
        if value > (u64::MAX - d) / 10 {
            proof {
                assert(all_digits(t.take(k + 1))) by {
                    assert forall|j: int| 0 <= j < k + 1 implies #[trigger] digit_value(t.take(k + 1)[j]) is Some by {
                        if j < k {
                            assert(t.take(k + 1)[j] == t.take(k)[j]);
                        }
                    }
                }
                assert(digits_value(t.take(k + 1)) == value * 10 + d);
                assert(value * 10 + d > u64::MAX) by (nonlinear_arith)
                    requires
                        value > (u64::MAX - d) / 10,
                        d <= 9,
                ;
                if all_digits(t) {
                    lemma_digits_value_grows(t, k + 1);
                }
            }
            return None;
        }
        value = value * 10 + d;
        proof {
            assert(all_digits(t.take(k + 1))) by {
                assert forall|j: int| 0 <= j < k + 1 implies #[trigger] digit_value(t.take(k + 1)[j]) is Some by {
                    if j < k {
                        assert(t.take(k + 1)[j] == t.take(k)[j]);
                    }
                }
            }
        }
        i = i + 1;
    }
    assert(t.take(n - start) =~= t);
    Some(value)
}

/// Why the daemon configuration was refused.
#[derive(Debug, Clone, Copy, PartialEq, Eq)]
pub enum DaemonConfigError {
    /// `WAKEWORD_MODEL_PATH` is missing or empty.
    MissingModelPath,
    /// `WAKEWORD_THRESHOLD` is not a floating-point number.
    ThresholdNotANumber,
    /// `WAKEWORD_THRESHOLD` is outside `[0.0, 1.0]` (the value received, as
    /// a binary32 bit pattern).
    ThresholdOutOfRange(u32),
    /// `WAKEWORD_COOLDOWN_MS` is not an unsigned integer.
    CooldownNotAnInteger,
}

impl DaemonConfigError {
    /// Description of the error. For `ThresholdOutOfRange` it ends with
    /// `"valeur reçue : "`, after which the caller writes the value.
    pub fn message(&self) -> (s: String)
        ensures
            s@ == match *self {
                DaemonConfigError::MissingModelPath =>
                    "Variable d'environnement WAKEWORD_MODEL_PATH manquante.\nExemple : WAKEWORD_MODEL_PATH=/chemin/vers/WakeWord.mlmodelc word-waker"@,
                DaemonConfigError::ThresholdNotANumber =>
                    "WAKEWORD_THRESHOLD doit être un nombre flottant (ex: 0.80)"@,
                DaemonConfigError::ThresholdOutOfRange(_) =>
                    "WAKEWORD_THRESHOLD doit être dans [0.0, 1.0], valeur reçue : "@,
                DaemonConfigError::CooldownNotAnInteger =>
                    "WAKEWORD_COOLDOWN_MS doit être un entier positif"@,
            },
    {
        proof {
            reveal_strlit("Variable d'environnement WAKEWORD_MODEL_PATH manquante.\nExemple : WAKEWORD_MODEL_PATH=/chemin/vers/WakeWord.mlmodelc word-waker");
            reveal_strlit("WAKEWORD_THRESHOLD doit être un nombre flottant (ex: 0.80)");
            reveal_strlit("WAKEWORD_THRESHOLD doit être dans [0.0, 1.0], valeur reçue : ");
            reveal_strlit("WAKEWORD_COOLDOWN_MS doit être un entier positif");
        }
        match self {
            DaemonConfigError::MissingModelPath => String::from_str(
                "Variable d'environnement WAKEWORD_MODEL_PATH manquante.\nExemple : WAKEWORD_MODEL_PATH=/chemin/vers/WakeWord.mlmodelc word-waker",
            ),
            DaemonConfigError::ThresholdNotANumber => String::from_str(
                "WAKEWORD_THRESHOLD doit être un nombre flottant (ex: 0.80)",
            ),
            DaemonConfigError::ThresholdOutOfRange(_) => String::from_str(
                "WAKEWORD_THRESHOLD doit être dans [0.0, 1.0], valeur reçue : ",
            ),
            DaemonConfigError::CooldownNotAnInteger => String::from_str(
                "WAKEWORD_COOLDOWN_MS doit être un entier positif",
            ),
        }
    }
}

/// Parameters of the daemon.
#[derive(Debug)]
pub struct DaemonConfig {
    /// Path of the Core ML model (`.mlmodelc`). Required.
    pub model_path: String,
    /// Path of the Unix domain socket.
    pub socket_path: String,
    /// Individual score threshold, binary32 bit pattern.
    pub score_threshold: u32,
    /// Minimal delay between two detections, in milliseconds.
    pub cooldown_ms: u64,
}

impl DaemonConfig {
    /// Builds the configuration from the environment values.
    ///
    /// `model_path` and `socket_path` are the values of
    /// `WAKEWORD_MODEL_PATH` and `WAKEWORD_SOCKET_PATH` when set;
    /// `threshold` is `WAKEWORD_THRESHOLD` (or `"0.80"` when unset) read as
    /// a binary32 number, `None` when it is not one; `cooldown` is
    /// `WAKEWORD_COOLDOWN_MS` when set. Checks run in this order: model
    /// path, threshold, threshold range, cooldown.
    pub fn from_values(
        model_path: Option<String>,
        socket_path: Option<String>,
        threshold: Option<u32>,
        cooldown: Option<String>,
    ) -> (r: Result<DaemonConfig, DaemonConfigError>)
        ensures
            ({
                let model = match model_path {
                    Some(m) => m@,
                    None => Seq::<char>::empty(),
                };
                let cooldown_text = match cooldown {
                    Some(c) => c@,
                    None => "2000"@,
                };
                if model.len() == 0 {
                    r == Err::<DaemonConfig, DaemonConfigError>(DaemonConfigError::MissingModelPath)
                } else if threshold is None {
                    r == Err::<DaemonConfig, DaemonConfigError>(
                        DaemonConfigError::ThresholdNotANumber,
                    )
                } else if !(f32_le(F32_ZERO, threshold.unwrap()) && f32_le(
                    threshold.unwrap(),
                    F32_ONE,
                )) {
                    r == Err::<DaemonConfig, DaemonConfigError>(
                        DaemonConfigError::ThresholdOutOfRange(threshold.unwrap()),
                    )
                } else if parse_u64_spec(cooldown_text) is None {
                    r == Err::<DaemonConfig, DaemonConfigError>(
                        DaemonConfigError::CooldownNotAnInteger,
                    )
                } else {
                    r matches Ok(c) && c.model_path@ == model && c.socket_path@ == match socket_path {
                        Some(s) => s@,
                        None => "/tmp/wakeword_daemon.sock"@,
                    } && c.score_threshold == threshold.unwrap() && c.cooldown_ms
                        == parse_u64_spec(cooldown_text).unwrap()
                }
            }),
    {
        proof {
            reveal_strlit("2000");
            reveal_strlit("/tmp/wakeword_daemon.sock");
        }
        let model = match model_path {
            Some(m) => m,
            None => String::new(),
        };
        if model.as_str().is_empty() {
            return Err(DaemonConfigError::MissingModelPath);
        }
        let socket = match socket_path {
            Some(s) => s,
            None => String::from_str("/tmp/wakeword_daemon.sock"),
        };
        let t = match threshold {
            Some(t) => t,
            None => {
                return Err(DaemonConfigError::ThresholdNotANumber);
            },
        };
        if !(f32_at_most(F32_ZERO, t) && f32_at_most(t, F32_ONE)) {
            return Err(DaemonConfigError::ThresholdOutOfRange(t));
        }
        let parsed = match &cooldown {
            Some(c) => parse_u64(c.as_str()),
            None => parse_u64("2000"),
        };
        match parsed {
            Some(ms) => Ok(
                DaemonConfig {
                    model_path: model,
                    socket_path: socket,
                    score_threshold: t,
                    cooldown_ms: ms,
                },
            ),
            None => Err(DaemonConfigError::CooldownNotAnInteger),
        }
    }

    /// The trigger's configuration: the daemon's socket, threshold and
    /// cooldown, the default window and vote count.
    pub fn trigger_config(&self) -> (c: TriggerConfig)
        ensures
            c.socket_path@ == self.socket_path@,
            c.score_threshold == self.score_threshold,
            c.cooldown_ms == self.cooldown_ms,
            c.window_size == 5,
            c.vote_threshold == 3,
    {
        let d = TriggerConfig::default();
        TriggerConfig {
            socket_path: self.socket_path.clone(),
            score_threshold: self.score_threshold,
            cooldown_ms: self.cooldown_ms,
            window_size: d.window_size,
            vote_threshold: d.vote_threshold,
        }
    }

    /// The inference configuration: the daemon's model path, the default
    /// feature names and matrix shape.
    pub fn inference_config(&self) -> (c: InferenceConfig)
        ensures
            c.model_path@ == self.model_path@,
            c.input_name@ == "mfcc_input"@,
            c.output_name@ == "classLabel_probs"@,
            c.n_frames == 98,
            c.n_mfcc == 13,
    {
        let d = InferenceConfig::default();
        InferenceConfig {
            model_path: self.model_path.clone(),
            input_name: d.input_name,
            output_name: d.output_name,
            n_frames: d.n_frames,
            n_mfcc: d.n_mfcc,
        }
    }

    /// Default threshold text read when `WAKEWORD_THRESHOLD` is unset.
    pub fn default_threshold_text() -> (s: &'static str)
        ensures
            s@ == "0.80"@,
    {
        "0.80"
    }
}

} // verus!
