//! Audio capture configuration, errors, device decisions and unit setup.

use word_waker::audio_capture::device::{
    default_input_device_from, device_name, format_support_from, noErr,
    AudioObjectPropertyAddress,
};
use word_waker::audio_capture::unit::{
    capture_stream_format, setup_step, validate_asbd, SetupStage, SetupStep, StreamFormat,
    FORMAT_FLAG_IS_FLOAT, FORMAT_FLAG_IS_NON_INTERLEAVED, FORMAT_FLAG_IS_PACKED,
    FORMAT_LINEAR_PCM,
};
use word_waker::audio_capture::consumer::{consumer_start_check, consumer_step, ConsumerAction};
use word_waker::audio_capture::{AudioCaptureConfig, AudioCaptureError};

#[test]
fn default_config_valide() {
    assert!(AudioCaptureConfig::default().validate().is_ok());
}

#[test]
fn sample_rate_zero_rejete() {
    let cfg = AudioCaptureConfig {
        sample_rate: 0.0f64.to_bits(),
        ..Default::default()
    };
    assert!(cfg.validate().is_err());
}

#[test]
fn sample_rate_negatif_rejete() {
    let cfg = AudioCaptureConfig {
        sample_rate: (-16_000.0f64).to_bits(),
        ..Default::default()
    };
    assert!(cfg.validate().is_err());
}

#[test]
fn buffer_size_non_puissance_de_2_rejete() {
    let cfg = AudioCaptureConfig {
        buffer_size_frames: 300,
        ..Default::default()
    };
    assert!(cfg.validate().is_err());
}

#[test]
fn buffer_size_zero_rejete() {
    let cfg = AudioCaptureConfig {
        buffer_size_frames: 0,
        ..Default::default()
    };
    assert!(cfg.validate().is_err());
}

#[test]
fn ring_capacity_zero_rejete() {
    let cfg = AudioCaptureConfig {
        ring_capacity: 0,
        ..Default::default()
    };
    assert!(cfg.validate().is_err());
}

#[test]
fn regression_config_default_valide() {
    assert!(AudioCaptureConfig::default().validate().is_ok());
}

#[test]
fn default_sample_rate_is_16_khz() {
    assert_eq!(AudioCaptureConfig::default().sample_rate, 16_000.0f64.to_bits());
}

#[test]
fn every_power_of_two_buffer_is_accepted() {
    for k in 0..32 {
        let cfg = AudioCaptureConfig {
            buffer_size_frames: 1u32 << k,
            ..Default::default()
        };
        assert!(cfg.validate().is_ok(), "2^{k} refusé");
    }
    let cfg = AudioCaptureConfig {
        buffer_size_frames: 3 << 4,
        ..Default::default()
    };
    assert!(matches!(cfg.validate(), Err(AudioCaptureError::FormatUnsupported)));
}

#[test]
fn nan_sample_rate_is_refused() {
    let cfg = AudioCaptureConfig {
        sample_rate: f64::NAN.to_bits(),
        ..Default::default()
    };
    assert!(matches!(cfg.validate(), Err(AudioCaptureError::FormatUnsupported)));
}

#[test]
fn mock_device_not_found_retourne_erreur() {
    let err = AudioCaptureError::DeviceNotFound;
    assert!(!err.message().is_empty());
    assert!(matches!(err, AudioCaptureError::DeviceNotFound));
}

#[test]
fn device_name_retourne_chaine_non_vide() {
    let name = device_name(42);
    assert!(!name.is_empty());
    assert!(name.contains("42"));
    assert_eq!(name, "AudioDevice(id=42)");
}

#[test]
fn display_non_vide_pour_toutes_les_variantes() {
    let variantes: &[AudioCaptureError] = &[
        AudioCaptureError::DeviceNotFound,
        AudioCaptureError::FormatUnsupported,
        AudioCaptureError::UnitCreationFailed(-1),
        AudioCaptureError::UnitStartFailed(-2),
        AudioCaptureError::UnitStopFailed(-3),
        AudioCaptureError::PropertySetFailed(-4),
        AudioCaptureError::RingBufferFull,
    ];
    for variante in variantes {
        let msg = variante.message();
        assert!(!msg.is_empty(), "Display vide pour {:?}", variante);
    }
}

#[test]
fn regression_error_display_non_vide() {
    let variants = [
        AudioCaptureError::DeviceNotFound,
        AudioCaptureError::FormatUnsupported,
        AudioCaptureError::UnitCreationFailed(-1),
        AudioCaptureError::UnitStartFailed(-2),
        AudioCaptureError::UnitStopFailed(-3),
        AudioCaptureError::PropertySetFailed(-4),
        AudioCaptureError::RingBufferFull,
    ];
    for e in &variants {
        assert!(!e.message().is_empty(), "Display vide pour {e:?}");
    }
}

#[test]
fn status_codes_are_rendered_signed() {
    assert_eq!(
        AudioCaptureError::UnitStartFailed(-10863).message(),
        "Échec du démarrage de l'AudioUnit (OSStatus: -10863)"
    );
    assert_eq!(
        AudioCaptureError::PropertySetFailed(i32::MIN).message(),
        "Échec de la configuration d'une propriété CoreAudio (OSStatus: -2147483648)"
    );
}

#[test]
fn no_err_est_zero() {
    assert_eq!(noErr, 0);
}

#[test]
fn taille_audio_object_property_address() {
    assert_eq!(std::mem::size_of::<AudioObjectPropertyAddress>(), 12);
}

#[test]
fn device_query_decisions() {
    assert_eq!(default_input_device_from(0, 73).unwrap(), 73);
    assert!(matches!(default_input_device_from(0, 0), Err(AudioCaptureError::DeviceNotFound)));
    assert!(matches!(default_input_device_from(-1, 73), Err(AudioCaptureError::DeviceNotFound)));
    assert!(format_support_from(0, 48_000.0f64.to_bits()).is_ok());
    assert!(format_support_from(0, 0.0f64.to_bits()).is_err());
    assert!(format_support_from(1, 48_000.0f64.to_bits()).is_err());
}

#[test]
fn unit_setup_sequence() {
    let mut stage = SetupStage::FindComponent;
    let mut steps = 0;
    loop {
        match setup_step(stage, 0) {
            SetupStep::Next(next) => stage = next,
            SetupStep::Ready => break,
            SetupStep::Failed { .. } => panic!("échec inattendu"),
        }
        steps += 1;
    }
    assert_eq!(steps, 6);
    assert!(matches!(
        setup_step(SetupStage::FindComponent, -1),
        SetupStep::Failed { error: AudioCaptureError::UnitCreationFailed(0), dispose: false }
    ));
    assert!(matches!(
        setup_step(SetupStage::SelectDevice, -50),
        SetupStep::Failed { error: AudioCaptureError::PropertySetFailed(-50), dispose: true }
    ));
    assert!(matches!(
        setup_step(SetupStage::Initialize, 7),
        SetupStep::Failed { error: AudioCaptureError::UnitCreationFailed(7), dispose: true }
    ));
}

#[test]
fn stream_format_is_float32_mono() {
    let f = capture_stream_format(16_000.0f64.to_bits());
    assert_eq!(f.format_id, FORMAT_LINEAR_PCM);
    assert_eq!(f.format_flags, 1 | 8 | 32);
    assert_eq!((f.bytes_per_frame, f.channels_per_frame, f.bits_per_channel), (4, 1, 32));
    assert_eq!(f64::from_bits(f.sample_rate), 16_000.0);
}

#[test]
fn validate_asbd_rejette_format_non_pcm() {
    let asbd = StreamFormat {
        sample_rate: 44100.0f64.to_bits(),
        format_id: 0xDEAD_BEEF,
        format_flags: FORMAT_FLAG_IS_FLOAT,
        bytes_per_packet: 4,
        frames_per_packet: 1,
        bytes_per_frame: 4,
        channels_per_frame: 1,
        bits_per_channel: 32,
        reserved: 0,
    };
    assert!(matches!(validate_asbd(&asbd), Err(AudioCaptureError::FormatUnsupported)));
}

#[test]
fn validate_asbd_accepte_format_float32_mono() {
    let asbd = StreamFormat {
        sample_rate: 44100.0f64.to_bits(),
        format_id: FORMAT_LINEAR_PCM,
        format_flags: FORMAT_FLAG_IS_FLOAT | FORMAT_FLAG_IS_PACKED | FORMAT_FLAG_IS_NON_INTERLEAVED,
        bytes_per_packet: 4,
        frames_per_packet: 1,
        bytes_per_frame: 4,
        channels_per_frame: 1,
        bits_per_channel: 32,
        reserved: 0,
    };
    assert!(validate_asbd(&asbd).is_ok());
    assert!(validate_asbd(&capture_stream_format(16_000.0f64.to_bits())).is_ok());
}

#[test]
fn validate_asbd_rejette_zero_canaux() {
    let asbd = StreamFormat {
        sample_rate: 44100.0f64.to_bits(),
        format_id: FORMAT_LINEAR_PCM,
        format_flags: FORMAT_FLAG_IS_FLOAT,
        bytes_per_packet: 0,
        frames_per_packet: 1,
        bytes_per_frame: 0,
        channels_per_frame: 0,
        bits_per_channel: 32,
        reserved: 0,
    };
    assert!(matches!(validate_asbd(&asbd), Err(AudioCaptureError::FormatUnsupported)));
}

fn assert_send_sync<T: Send + Sync>() {}

#[test]
fn audio_capture_error_est_send_sync() {
    assert_send_sync::<AudioCaptureError>();
}

#[test]
fn consumer_refuses_a_second_start_and_steps() {
    assert!(consumer_start_check(false).is_ok());
    assert!(matches!(consumer_start_check(true), Err(AudioCaptureError::UnitStartFailed(-1))));
    assert_eq!(consumer_step(true, 10, false), ConsumerAction::Send);
    assert_eq!(consumer_step(true, 0, false), ConsumerAction::Sleep);
    assert_eq!(consumer_step(false, 10, false), ConsumerAction::Exit);
    assert_eq!(consumer_step(true, 10, true), ConsumerAction::Exit);
}
