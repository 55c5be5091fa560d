//! Parameters of the trigger module.
use vstd::prelude::*;
use vstd::string::*;
use crate::float_bits::{f32_at_most, f32_greater_than, f32_gt, f32_le, F32_ONE, F32_ZERO};
use crate::text::{decimal, push_decimal};
use crate::trigger::error::TriggerError;

verus! {

/// Bit pattern of the binary32 value `0.80`, the default score threshold.
pub const DEFAULT_SCORE_THRESHOLD: u32 = 0x3f4c_cccd;

/// Parameters of the trigger module.
#[derive(Debug, Clone)]
pub struct TriggerConfig {
    /// Individual threshold, as the bit pattern of a binary32 value: a score
    /// counts as a positive vote only when it is strictly greater.
    pub score_threshold: u32,
    /// Number of positive votes in the window needed to trigger.
    pub vote_threshold: usize,
    /// Size of the sliding window, in number of scores.
    pub window_size: usize,
    /// Minimal delay between two detections, in milliseconds.
    pub cooldown_ms: u64,
    /// Path of the Unix domain socket that detections are announced on.
    pub socket_path: String,
}

/// The first rule that a configuration breaks, if any.
pub enum ConfigFault {
    ScoreThresholdOutOfRange,
    EmptyWindow,
    VotesExceedWindow,
    NoCooldown,
    NoSocketPath,
}

/// Which rule `validate` reports for a configuration, checked in order:
/// threshold in (0, 1] (a NaN threshold is in no interval), non-empty window, votes within the window,
/// non-zero cooldown, non-empty socket path.
pub open spec fn trigger_config_fault(c: TriggerConfig) -> Option<ConfigFault> {
    if !(f32_gt(c.score_threshold, F32_ZERO) && f32_le(c.score_threshold, F32_ONE)) {
        Some(ConfigFault::ScoreThresholdOutOfRange)
    } else if c.window_size == 0 {
        Some(ConfigFault::EmptyWindow)
    } else if c.vote_threshold > c.window_size {
        Some(ConfigFault::VotesExceedWindow)
    } else if c.cooldown_ms == 0 {
        Some(ConfigFault::NoCooldown)
    } else if c.socket_path@.len() == 0 {
        Some(ConfigFault::NoSocketPath)
    } else {
        None
    }
}

/// The explanation that `validate` gives for a broken rule.
pub open spec fn trigger_config_fault_text(c: TriggerConfig, f: ConfigFault) -> Seq<char> {
    match f {
        ConfigFault::ScoreThresholdOutOfRange => "score_threshold doit être dans (0.0, 1.0]"@,
        ConfigFault::EmptyWindow => "window_size doit être > 0"@,
        ConfigFault::VotesExceedWindow => "vote_threshold ("@ + decimal(c.vote_threshold as nat)
            + ") ne peut pas dépasser window_size ("@ + decimal(c.window_size as nat) + ")"@,
        ConfigFault::NoCooldown => "cooldown_ms doit être > 0"@,
        ConfigFault::NoSocketPath => "socket_path ne peut pas être vide"@,
    }
}

/// A configuration is accepted exactly when its threshold lies in (0, 1],
/// its window is non-empty, the vote count does not exceed the window (it
/// may equal it), the cooldown is positive and a socket path is given; the
/// vote rule is reported only when the votes exceed the window.
pub proof fn lemma_trigger_config_rules(c: TriggerConfig)
    ensures
        trigger_config_fault(c) is None <==> (f32_gt(c.score_threshold, F32_ZERO) && f32_le(
            c.score_threshold,
            F32_ONE,
        ) && c.window_size > 0 && c.vote_threshold <= c.window_size && c.cooldown_ms > 0
            && c.socket_path@.len() > 0),
        trigger_config_fault(c) matches Some(ConfigFault::VotesExceedWindow) ==> c.vote_threshold
            > c.window_size,
{
}

impl Default for TriggerConfig {
    fn default() -> (c: Self)
        ensures
            c.score_threshold == DEFAULT_SCORE_THRESHOLD,
            c.vote_threshold == 3,
            c.window_size == 5,
            c.cooldown_ms == 2000,
            c.socket_path@ == "/tmp/wakeword_daemon.sock"@,
    {
        TriggerConfig {
            score_threshold: DEFAULT_SCORE_THRESHOLD,
            vote_threshold: 3,
            window_size: 5,
            cooldown_ms: 2000,
            socket_path: String::from_str("/tmp/wakeword_daemon.sock"),
        }
    }
}

impl TriggerConfig {
    /// Checks that the parameters are consistent.
    ///
    /// Fails with `InvalidConfig` naming the first broken rule.
    pub fn validate(&self) -> (r: Result<(), TriggerError>)
        ensures
            match trigger_config_fault(*self) {
                None => r is Ok,
                Some(f) => r matches Err(TriggerError::InvalidConfig(msg))
                    && msg@ == trigger_config_fault_text(*self, f),
            },
            r is Ok <==> (f32_gt(self.score_threshold, F32_ZERO) && f32_le(
                self.score_threshold,
                F32_ONE,
            ) && self.window_size > 0 && self.vote_threshold <= self.window_size
                && self.cooldown_ms > 0 && self.socket_path@.len() > 0),
            r is Err ==> r matches Err(TriggerError::InvalidConfig(_)),
    {
        proof {
            lemma_trigger_config_rules(*self);
        }
        proof {
            reveal_strlit("score_threshold doit être dans (0.0, 1.0]");
            reveal_strlit("window_size doit être > 0");
            reveal_strlit("vote_threshold (");
            reveal_strlit(") ne peut pas dépasser window_size (");
            reveal_strlit(")");
            reveal_strlit("cooldown_ms doit être > 0");
            reveal_strlit("socket_path ne peut pas être vide");
        }
        if !(f32_greater_than(self.score_threshold, F32_ZERO) && f32_at_most(
            self.score_threshold,
            F32_ONE,
        )) {
            return Err(
                TriggerError::InvalidConfig(
                    String::from_str("score_threshold doit être dans (0.0, 1.0]"),
                ),
            );
        }
        if self.window_size == 0 {
            return Err(TriggerError::InvalidConfig(String::from_str("window_size doit être > 0")));
        }
        if self.vote_threshold > self.window_size {
            let mut msg = String::from_str("vote_threshold (");
            push_decimal(&mut msg, self.vote_threshold as u128);
            msg.append(") ne peut pas dépasser window_size (");
            push_decimal(&mut msg, self.window_size as u128);
            msg.append(")");
            return Err(TriggerError::InvalidConfig(msg));
        }
        if self.cooldown_ms == 0 {
            return Err(TriggerError::InvalidConfig(String::from_str("cooldown_ms doit être > 0")));
        }
        if self.socket_path.as_str().is_empty() {
            return Err(
                TriggerError::InvalidConfig(String::from_str("socket_path ne peut pas être vide")),
            );
        }
        Ok(())
    }
}

} // verus!
