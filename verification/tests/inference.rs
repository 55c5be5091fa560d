//! Inference configuration, errors, score range and model loading decisions.

use std::collections::HashSet;
use std::path::Path;

use word_waker::inference_ml::model::{
    check_score, plan_model_load, ComputeUnits, CoreMLModel, LoadRequest,
};
use word_waker::inference_ml::runner::{
    check_not_running, inference_step, InferenceAction, InferenceEvent,
};
use word_waker::inference_ml::{InferenceConfig, InferenceError};

#[test]
fn valid_config_ok() {
    let cfg = InferenceConfig {
        model_path: "fixtures/mock_model/WakeWordMock.mlmodelc".into(),
        ..InferenceConfig::default()
    };
    assert!(cfg.validate().is_ok());
}

#[test]
fn empty_model_path_returns_model_not_found() {
    let cfg = InferenceConfig::default();
    let err = cfg.validate().unwrap_err();
    assert!(matches!(err, InferenceError::ModelNotFound(_)));
}

#[test]
fn n_frames_zero_returns_err() {
    let cfg = InferenceConfig {
        model_path: "some/path".into(),
        n_frames: 0,
        ..InferenceConfig::default()
    };
    assert!(cfg.validate().is_err());
}

#[test]
fn n_mfcc_zero_reports_shape() {
    let cfg = InferenceConfig {
        model_path: "some/path".into(),
        n_mfcc: 0,
        ..InferenceConfig::default()
    };
    match cfg.validate() {
        Err(InferenceError::InvalidInputShape { expected, got }) => {
            assert_eq!(expected, (1, 1, 98, 1));
            assert_eq!(got, 0);
        }
        _ => panic!("attendu InvalidInputShape"),
    }
}

#[test]
fn default_config_values() {
    let cfg = InferenceConfig::default();
    assert_eq!(cfg.input_name, "mfcc_input");
    assert_eq!(cfg.output_name, "classLabel_probs");
    assert_eq!((cfg.n_frames, cfg.n_mfcc), (98, 13));
}

#[test]
fn all_variants_display_non_empty_and_distinct() {
    let variants: Vec<InferenceError> = vec![
        InferenceError::ModelNotFound("some/path".into()),
        InferenceError::LoadFailed("timeout".into()),
        InferenceError::NullHandle,
        InferenceError::InvalidInputShape {
            expected: (1, 1, 98, 13),
            got: 42,
        },
        InferenceError::InferenceFailed("score hors plage".into()),
        InferenceError::OutputNotFound("classLabel_probs".into()),
        InferenceError::ChannelClosed,
    ];
    let mut messages = HashSet::new();
    for v in &variants {
        let msg = v.message();
        assert!(!msg.is_empty(), "Display vide pour {:?}", v);
        assert!(messages.insert(msg.clone()), "Message dupliqué : '{msg}'");
    }
    assert_eq!(messages.len(), 7);
}

#[test]
fn shape_message_is_exact() {
    let e = InferenceError::InvalidInputShape {
        expected: (1, 1, 98, 13),
        got: 42,
    };
    assert_eq!(
        e.message(),
        "forme d'entrée invalide : attendu 1×1×98×13 = 1274 éléments, reçu 42"
    );
}

#[test]
fn score_below_zero_is_inference_failed() {
    let err = check_score((-0.1f32).to_bits()).unwrap_err();
    assert!(
        matches!(err, InferenceError::InferenceFailed(_)),
        "attendu InferenceFailed, obtenu {}",
        err.message()
    );
}

#[test]
fn score_above_one_is_inference_failed() {
    let err = check_score(1.1f32.to_bits()).unwrap_err();
    assert!(
        matches!(err, InferenceError::InferenceFailed(_)),
        "attendu InferenceFailed, obtenu {}",
        err.message()
    );
}

#[test]
fn score_at_bounds_is_ok() {
    assert!(check_score(0.0f32.to_bits()).is_ok());
    assert!(check_score(1.0f32.to_bits()).is_ok());
    assert!(check_score(0.5f32.to_bits()).is_ok());
}

#[test]
fn score_nan_and_negative_zero() {
    assert!(check_score(f32::NAN.to_bits()).is_err());
    assert_eq!(check_score((-0.0f32).to_bits()).unwrap(), (-0.0f32).to_bits());
}

#[test]
fn load_empty_path_returns_model_not_found() {
    let config = InferenceConfig {
        model_path: String::new(),
        ..Default::default()
    };
    let exists = Path::new(&config.model_path).exists();
    let err = CoreMLModel::load(&config, exists, bridge_never_called).err().unwrap();
    assert!(
        matches!(err, InferenceError::ModelNotFound(_)),
        "attendu ModelNotFound, obtenu {}",
        err.message()
    );
}

#[test]
fn load_nonexistent_path_returns_model_not_found() {
    let config = InferenceConfig {
        model_path: "/tmp/nonexistent_model.mlmodelc".into(),
        ..Default::default()
    };
    let exists = Path::new(&config.model_path).exists();
    let err = CoreMLModel::load(&config, exists, bridge_never_called).err().unwrap();
    assert!(
        matches!(err, InferenceError::ModelNotFound(_)),
        "attendu ModelNotFound, obtenu {}",
        err.message()
    );
}

#[test]
fn model_load_nonexistent_returns_model_not_found() {
    let config = InferenceConfig {
        model_path: "/tmp/inexistant.mlmodelc".into(),
        ..Default::default()
    };
    let exists = Path::new(&config.model_path).exists();
    let err = CoreMLModel::load(&config, exists, bridge_never_called).err().unwrap();
    assert!(
        matches!(err, InferenceError::ModelNotFound(_)),
        "attendu ModelNotFound, obtenu {}",
        err.message()
    );
}

#[test]
fn existing_path_gives_request() {
    let config = InferenceConfig {
        model_path: "/tmp".into(),
        ..Default::default()
    };
    let req = plan_model_load(&config, true, true).unwrap();
    assert_eq!(req.model_path, "/tmp");
    assert_eq!(req.compute_units, ComputeUnits::CpuOnly);
    let req = plan_model_load(&config, false, true).unwrap();
    assert_eq!(req.compute_units, ComputeUnits::All);
}

#[test]
fn nul_in_path_is_load_failed_at_byte_position() {
    let config = InferenceConfig {
        model_path: "aé\0b".into(),
        ..Default::default()
    };
    match plan_model_load(&config, false, true) {
        Err(InferenceError::LoadFailed(msg)) => {
            assert_eq!(msg, "nul byte found in provided data at position: 3");
        }
        _ => panic!("attendu LoadFailed"),
    }
}

#[test]
fn null_handle_is_an_error() {
    let config = InferenceConfig {
        model_path: "/tmp".into(),
        ..Default::default()
    };
    let err = CoreMLModel::<u32>::load(&config, true, |_req| None).err().unwrap();
    assert!(matches!(err, InferenceError::NullHandle));
}

#[test]
fn bridge_gets_the_planned_request() {
    let config = InferenceConfig {
        model_path: "/tmp/model.mlmodelc".into(),
        ..Default::default()
    };
    let model = CoreMLModel::load_cpu_only(&config, true, |req: LoadRequest| {
        assert_eq!(req.model_path, "/tmp/model.mlmodelc");
        assert_eq!(req.compute_units, ComputeUnits::CpuOnly);
        Some(7u32)
    })
    .unwrap();
    assert_eq!(*model.handle(), 7);
    assert_eq!(model.compute_units(), ComputeUnits::CpuOnly);
    let model = CoreMLModel::load(&config, true, |req: LoadRequest| {
        assert_eq!(req.compute_units, ComputeUnits::All);
        Some(9u32)
    })
    .unwrap();
    assert_eq!(*model.handle(), 9);
    assert_eq!(model.compute_units(), ComputeUnits::All);
}

#[test]
fn bridge_is_not_called_on_a_nul_path() {
    let config = InferenceConfig {
        model_path: "a\0b".into(),
        ..Default::default()
    };
    let err = CoreMLModel::load(&config, true, bridge_never_called).err().unwrap();
    assert!(matches!(err, InferenceError::LoadFailed(_)));
}

fn bridge_never_called(_req: LoadRequest) -> Option<u32> {
    panic!("le bridge ne doit pas être appelé")
}

#[test]
fn runner_refuses_second_start_and_steps() {
    assert!(check_not_running(false).is_ok());
    match check_not_running(true) {
        Err(InferenceError::InferenceFailed(m)) => assert_eq!(m, "runner déjà démarré"),
        _ => panic!("attendu InferenceFailed"),
    }
    let (a, go_on) = inference_step(InferenceEvent::Inferred(Ok(0.5f32.to_bits())), true);
    assert!(matches!(a, InferenceAction::Send(b) if b == 0.5f32.to_bits()));
    assert!(go_on);
    let (a, go_on) = inference_step(InferenceEvent::Inferred(Err(InferenceError::NullHandle)), false);
    assert!(matches!(a, InferenceAction::Report(InferenceError::NullHandle)));
    assert!(!go_on);
    let (a, go_on) = inference_step(InferenceEvent::InputClosed, true);
    assert!(matches!(a, InferenceAction::Nothing));
    assert!(!go_on);
}

fn assert_send_sync<T: Send + Sync>() {}

#[test]
fn inference_error_is_send_and_sync() {
    assert_send_sync::<InferenceError>();
}

#[test]
fn coreml_model_is_send_and_sync() {
    assert_send_sync::<CoreMLModel<u64>>();
}

#[test]
fn score_out_of_range_message_awaits_the_value() {
    match check_score(1.5f32.to_bits()) {
        Err(InferenceError::InferenceFailed(m)) => assert_eq!(m, "score hors [0.0, 1.0] : "),
        _ => panic!("attendu InferenceFailed"),
    }
    assert_eq!(check_score(0.25f32.to_bits()).unwrap(), 0.25f32.to_bits());
}

#[test]
fn infer_runs_the_bridge_on_the_handle_and_checks_the_score() {
    let config = InferenceConfig {
        model_path: "/tmp/model.mlmodelc".into(),
        ..Default::default()
    };
    let model = CoreMLModel::load(&config, true, |_req: LoadRequest| Some(7u32)).unwrap();
    let score = model
        .infer(|h: &u32| {
            assert_eq!(*h, 7);
            0.5f32.to_bits()
        })
        .unwrap();
    assert_eq!(score, 0.5f32.to_bits());
    match model.infer(|_h: &u32| 1.1f32.to_bits()) {
        Err(InferenceError::InferenceFailed(m)) => assert_eq!(m, "score hors [0.0, 1.0] : "),
        _ => panic!("attendu InferenceFailed"),
    }
}

#[test]
fn a_run_of_matrices_sends_the_successful_scores_in_order() {
    let outcomes = vec![
        Ok(0.25f32.to_bits()),
        Err(InferenceError::InferenceFailed("score hors [0.0, 1.0] : 2".into())),
        Ok(0.75f32.to_bits()),
    ];
    let mut sent = Vec::new();
    for o in outcomes {
        let (action, go_on) = inference_step(InferenceEvent::Inferred(o), true);
        assert!(go_on);
        if let InferenceAction::Send(s) = action {
            sent.push(s);
        }
    }
    assert_eq!(sent, vec![0.25f32.to_bits(), 0.75f32.to_bits()]);
}
