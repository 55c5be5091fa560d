//! Daemon configuration from environment values.

use word_waker::daemon::config::parse_u64;
use word_waker::daemon::{DaemonConfig, DaemonConfigError};

fn threshold(text: &str) -> Option<u32> {
    text.parse::<f32>().ok().map(f32::to_bits)
}

#[test]
fn from_env_defaults_without_model_path_returns_error() {
    let r = DaemonConfig::from_values(None, None, threshold("0.80"), None);
    assert!(matches!(r, Err(DaemonConfigError::MissingModelPath)));
}

#[test]
fn from_env_with_model_path_uses_defaults() {
    let cfg = DaemonConfig::from_values(
        Some("/tmp/fake.mlmodelc".to_string()),
        None,
        threshold(DaemonConfig::default_threshold_text()),
        None,
    )
    .expect("from_values failed");
    assert_eq!(cfg.socket_path, "/tmp/wakeword_daemon.sock");
    assert!((f32::from_bits(cfg.score_threshold) - 0.80).abs() < 1e-5);
    assert_eq!(cfg.cooldown_ms, 2000);
}

#[test]
fn from_env_invalid_threshold_returns_error() {
    let r = DaemonConfig::from_values(
        Some("/tmp/fake.mlmodelc".to_string()),
        None,
        threshold("not_a_float"),
        None,
    );
    assert!(matches!(r, Err(DaemonConfigError::ThresholdNotANumber)));
}

#[test]
fn from_env_threshold_out_of_range_returns_error() {
    let r = DaemonConfig::from_values(
        Some("/tmp/fake.mlmodelc".to_string()),
        None,
        threshold("1.5"),
        None,
    );
    assert!(matches!(r, Err(DaemonConfigError::ThresholdOutOfRange(b)) if b == 1.5f32.to_bits()));
}

#[test]
fn empty_model_path_is_missing() {
    let r = DaemonConfig::from_values(Some(String::new()), None, threshold("0.5"), None);
    assert!(matches!(r, Err(DaemonConfigError::MissingModelPath)));
}

#[test]
fn cooldown_must_be_an_unsigned_integer() {
    for bad in ["", "+", "-1", "12a", " 5", "18446744073709551616"] {
        let r = DaemonConfig::from_values(
            Some("/m".to_string()),
            None,
            threshold("0.5"),
            Some(bad.to_string()),
        );
        assert!(matches!(r, Err(DaemonConfigError::CooldownNotAnInteger)), "{bad:?}");
    }
    let cfg = DaemonConfig::from_values(
        Some("/m".to_string()),
        Some("/tmp/s.sock".to_string()),
        threshold("0.5"),
        Some("+750".to_string()),
    )
    .unwrap();
    assert_eq!(cfg.cooldown_ms, 750);
    assert_eq!(cfg.socket_path, "/tmp/s.sock");
}

#[test]
fn parse_u64_matches_std() {
    for text in [
        "0", "7", "+7", "007", "18446744073709551615", "18446744073709551616", "", "+", "-0",
        "1_000", "٣", "99999999999999999999",
    ] {
        assert_eq!(parse_u64(text), text.parse::<u64>().ok(), "{text:?}");
    }
}

#[test]
fn config_error_messages() {
    assert_eq!(
        DaemonConfigError::CooldownNotAnInteger.message(),
        "WAKEWORD_COOLDOWN_MS doit être un entier positif"
    );
    assert!(DaemonConfigError::MissingModelPath
        .message()
        .contains("WAKEWORD_MODEL_PATH"));
}

#[test]
fn stage_configs_come_from_the_daemon_config() {
    let cfg = DaemonConfig::from_values(
        Some("/tmp/m.mlmodelc".to_string()),
        Some("/tmp/s.sock".to_string()),
        Some(0.9f32.to_bits()),
        Some("1500".to_string()),
    )
    .unwrap();
    let t = cfg.trigger_config();
    assert_eq!(t.socket_path, "/tmp/s.sock");
    assert_eq!(t.score_threshold, 0.9f32.to_bits());
    assert_eq!(t.cooldown_ms, 1500);
    assert_eq!((t.window_size, t.vote_threshold), (5, 3));
    assert!(t.validate().is_ok());
    let i = cfg.inference_config();
    assert_eq!(i.model_path, "/tmp/m.mlmodelc");
    assert_eq!((i.n_frames, i.n_mfcc), (98, 13));
    assert!(i.validate().is_ok());
}
