//! Framing, MFCC accumulation and DCT size selection.

use word_waker::pipeline_dsp::mfcc::next_valid_dct_size;
use word_waker::pipeline_dsp::pipeline::process_batch;
use word_waker::pipeline_dsp::processor::accumulate_batch;
use word_waker::pipeline_dsp::runner::{dsp_step, DspAction, DspEvent};
use word_waker::pipeline_dsp::{DspConfig, DspError, Framer, MfccAccumulator};

fn default_framer() -> Framer<f32> {
    Framer::new(400, 160)
}

#[test]
fn push_exact_frame_size() {
    let mut fr = default_framer();
    let samples: Vec<f32> = (0..400).map(|i| i as f32).collect();
    let frames = fr.push_samples(&samples);
    assert_eq!(frames.len(), 1, "attendu 1 trame");
    assert_eq!(frames[0].len(), 400);
    assert_eq!(fr.pending_samples(), 240);
}

#[test]
fn push_incremental_then_larger() {
    let mut fr = default_framer();
    let a: Vec<f32> = (0..160).map(|i| i as f32).collect();
    let b: Vec<f32> = (0..400).map(|i| i as f32).collect();
    let f1 = fr.push_samples(&a);
    assert_eq!(f1.len(), 0);
    let f2 = fr.push_samples(&b);
    assert_eq!(f2.len(), 2, "attendu 2 trames, obtenu {}", f2.len());
}

#[test]
fn push_large_chunk() {
    let mut fr = default_framer();
    let samples: Vec<f32> = vec![0.0; 10_000];
    let frames = fr.push_samples(&samples);
    let expected = (10_000 - 400) / 160 + 1;
    assert_eq!(frames.len(), expected, "attendu {} trames, obtenu {}", expected, frames.len());
}

#[test]
fn all_frames_have_correct_size() {
    let mut fr = default_framer();
    let samples: Vec<f32> = vec![1.0; 5_000];
    let frames = fr.push_samples(&samples);
    for (i, f) in frames.iter().enumerate() {
        assert_eq!(f.len(), 400, "trame {} a une taille incorrecte : {}", i, f.len());
    }
}

#[test]
fn overlap_content_correct() {
    let mut fr = default_framer();
    let samples: Vec<f32> = (0..1000).map(|i| i as f32).collect();
    let frames = fr.push_samples(&samples);
    assert!(frames.len() >= 2, "pas assez de trames pour tester l'overlap");
    assert_eq!(&frames[0][160..], &frames[1][..240]);
}

#[test]
fn reset_clears_buffer() {
    let mut fr = default_framer();
    fr.push_samples(&vec![1.0; 300]);
    assert!(fr.pending_samples() > 0);
    fr.reset();
    assert_eq!(fr.pending_samples(), 0);
}

#[test]
fn chunked_pushes_give_the_same_frames() {
    let samples: Vec<f32> = (0..5_000).map(|i| i as f32).collect();
    let mut bulk = default_framer();
    let all = bulk.push_samples(&samples);
    let mut incr = default_framer();
    let mut pieces = Vec::new();
    for chunk in samples.chunks(137) {
        pieces.extend(incr.push_samples(chunk));
    }
    assert_eq!(all, pieces);
    assert_eq!(bulk.pending_samples(), incr.pending_samples());
}

#[test]
fn hop_larger_than_frame_skips_samples() {
    let mut fr: Framer<u8> = Framer::new(2, 3);
    let frames = fr.push_samples(&[0, 1, 2, 3, 4, 5]);
    assert_eq!(frames, vec![vec![0, 1], vec![3, 4]]);
    assert_eq!(fr.pending_samples(), 0);
}

#[test]
fn accumulator_97_frames_not_ready() {
    let mut acc = MfccAccumulator::new(98);
    let frame = [0.0f32; 13];
    for _ in 0..97 {
        acc.push(frame);
    }
    assert!(!acc.is_ready(), "97 trames → is_ready() doit être false");
}

#[test]
fn accumulator_98_frames_ready() {
    let mut acc = MfccAccumulator::new(98);
    let frame = [0.0f32; 13];
    for _ in 0..98 {
        acc.push(frame);
    }
    assert!(acc.is_ready(), "98 trames → is_ready() doit être true");
}

#[test]
fn accumulator_sliding_window_evicts_oldest() {
    let mut acc = MfccAccumulator::new(98);
    for i in 0..98 {
        let mut frame = [0.0f32; 13];
        frame[0] = i as f32;
        acc.push(frame);
    }
    assert!(acc.is_ready());
    let mut frame99 = [0.0f32; 13];
    frame99[0] = 99.0;
    acc.push(frame99);
    let matrix = acc.get_matrix();
    assert!((matrix[0][0] - 1.0).abs() < 1e-6, "matrix[0][0]={}", matrix[0][0]);
    assert!((matrix[97][0] - 99.0).abs() < 1e-6, "matrix[97][0]={}", matrix[97][0]);
}

#[test]
fn get_matrix_is_contiguous_row_major() {
    let mut acc = MfccAccumulator::new(98);
    for i in 0..98 {
        let mut frame = [0.0f32; 13];
        frame[0] = i as f32;
        acc.push(frame);
    }
    let matrix = acc.get_matrix();
    let flat: Vec<f32> = matrix.iter().flatten().copied().collect();
    assert_eq!(flat.len(), 98 * 13);
    for i in 0..98usize {
        let val = flat[i * 13];
        assert!((val - i as f32).abs() < 1e-6, "matrix[{}][0] = {} (attendu {})", i, val, i);
    }
}

#[test]
fn regression_accumulator_ready_at_98_frames() {
    let mut acc = MfccAccumulator::new(98);
    for _ in 0..98 {
        acc.push([0.0f32; 13]);
    }
    assert!(acc.is_ready());
}

#[test]
fn smaller_accumulator_pads_with_zeros() {
    let mut acc = MfccAccumulator::new(2);
    acc.push([1.0f32; 13]);
    acc.push([2.0f32; 13]);
    let m = acc.get_matrix();
    assert_eq!(m[0], [1.0f32; 13]);
    assert_eq!(m[1], [2.0f32; 13]);
    assert_eq!(m[2], [0.0f32; 13]);
    assert_eq!(m[97], [0.0f32; 13]);
}

#[test]
fn dct_sizes() {
    assert_eq!(next_valid_dct_size(40), 48);
    assert_eq!(next_valid_dct_size(16), 16);
    assert_eq!(next_valid_dct_size(0), 16);
    assert_eq!(next_valid_dct_size(17), 32);
    assert_eq!(next_valid_dct_size(64), 64);
    assert_eq!(next_valid_dct_size(65), 80);
    assert_eq!(next_valid_dct_size(241), 256);
    assert_eq!(next_valid_dct_size(200), 240);
}

fn fmax_above_nyquist(cfg: &DspConfig) -> bool {
    f32::from_bits(cfg.mel_fmax) as f64 > f64::from_bits(cfg.sample_rate) / 2.0
}

fn check(cfg: &DspConfig) -> Result<(), DspError> {
    cfg.validate(fmax_above_nyquist(cfg))
}

#[test]
fn default_validates_ok() {
    let cfg = DspConfig::default();
    assert_eq!(f64::from_bits(cfg.sample_rate), 16_000.0);
    assert_eq!(f32::from_bits(cfg.alpha), 0.97);
    assert_eq!(f32::from_bits(cfg.mel_fmin), 20.0);
    assert_eq!(f32::from_bits(cfg.mel_fmax), 8_000.0);
    assert!(check(&cfg).is_ok());
}

#[test]
fn regression_default_config_validates() {
    assert!(check(&DspConfig::default()).is_ok());
}

#[test]
fn non_power_of_two_fft_fails() {
    let cfg = DspConfig { n_fft: 300, ..DspConfig::default() };
    assert_eq!(check(&cfg), Err(DspError::FftSetupFailed));
}

#[test]
fn n_mfcc_greater_than_n_mels_fails() {
    let cfg = DspConfig { n_mfcc: 50, n_mels: 40, ..DspConfig::default() };
    assert_eq!(check(&cfg), Err(DspError::DctSetupFailed));
}

#[test]
fn mel_fmax_above_nyquist_fails() {
    let cfg = DspConfig {
        mel_fmax: 9000.0f32.to_bits(),
        sample_rate: 16_000.0f64.to_bits(),
        ..DspConfig::default()
    };
    assert!(check(&cfg).is_err());
}

#[test]
fn dsp_config_errors_come_in_order() {
    let bad_rate = DspConfig { sample_rate: 0.0f64.to_bits(), n_fft: 300, ..DspConfig::default() };
    assert_eq!(check(&bad_rate), Err(DspError::InvalidSampleRate(0.0f64.to_bits())));
    let nan_rate = DspConfig { sample_rate: f64::NAN.to_bits(), ..DspConfig::default() };
    assert!(matches!(check(&nan_rate), Err(DspError::InvalidSampleRate(_))));
    let short_fft = DspConfig { n_fft: 256, ..DspConfig::default() };
    assert_eq!(check(&short_fft), Err(DspError::InvalidFrameSize { expected: 256, got: 400 }));
    assert_eq!(
        DspError::InvalidFrameSize { expected: 256, got: 400 }.message(),
        "Taille de trame invalide : attendu 256 samples, reçu 400"
    );
}

#[test]
fn dsp_thread_decisions() {
    assert_eq!(dsp_step(true, DspEvent::Matrices(2)), (DspAction::Send(2), true));
    assert_eq!(dsp_step(false, DspEvent::Matrices(0)), (DspAction::Send(0), false));
    assert_eq!(dsp_step(true, DspEvent::Timeout), (DspAction::Wait, true));
    assert_eq!(dsp_step(true, DspEvent::InputClosed), (DspAction::Exit, false));
    assert_eq!(dsp_step(true, DspEvent::SendFailed), (DspAction::Exit, false));
}

#[test]
fn batch_emits_a_matrix_after_each_ready_push() {
    let mut acc: MfccAccumulator<u32> = MfccAccumulator::new(3);
    let frames: Vec<[u32; 13]> = (1..=5u32).map(|k| [k; 13]).collect();
    let out = accumulate_batch(&mut acc, frames);
    assert_eq!(out.len(), 3);
    assert_eq!(out[0][0][0], 1);
    assert_eq!(out[0][2][0], 3);
    assert_eq!(out[2][0][0], 3);
    assert_eq!(out[2][2][0], 5);
    assert_eq!(out[2][3], [0u32; 13]);
    assert_eq!(acc.held_frames(), 3);
    let out = accumulate_batch(&mut acc, vec![[6u32; 13]]);
    assert_eq!(out.len(), 1);
    assert_eq!(out[0][0][0], 4);
}

#[test]
fn framing_check_refuses_a_bad_hop() {
    assert!(DspConfig::default().check_framing().is_ok());
    let zero_hop = DspConfig { hop_size: 0, ..DspConfig::default() };
    assert_eq!(
        zero_hop.check_framing(),
        Err(DspError::InvalidFrameSize { expected: 400, got: 0 })
    );
    let long_hop = DspConfig { hop_size: 500, ..DspConfig::default() };
    assert_eq!(
        long_hop.check_framing(),
        Err(DspError::InvalidFrameSize { expected: 400, got: 500 })
    );
    let zero_frame = DspConfig { frame_size: 0, ..DspConfig::default() };
    assert!(zero_frame.check_framing().is_err());
}

#[test]
fn batch_chain_frames_processes_and_accumulates() {
    let mut framer: Framer<u32> = Framer::new(4, 2);
    let mut acc: MfccAccumulator<u32> = MfccAccumulator::new(2);
    // Each frame becomes a row holding its first sample.
    let first = |f: &Vec<u32>| [f[0]; 13];
    let out = process_batch(&mut framer, &mut acc, &[0, 1, 2, 3, 4, 5, 6], first);
    // Frames start at 0 and 2: rows 0 and 2, a matrix once both are held.
    assert_eq!(out.len(), 1);
    assert_eq!((out[0][0][0], out[0][1][0]), (0, 2));
    assert_eq!(out[0][2], [0u32; 13]);
    assert_eq!(framer.pending_samples(), 3);
    // Samples 4..=9: frames start at 4 and 6, each push leaves it full.
    let out = process_batch(&mut framer, &mut acc, &[7, 8, 9], first);
    assert_eq!(out.len(), 2);
    assert_eq!((out[0][0][0], out[0][1][0]), (2, 4));
    assert_eq!((out[1][0][0], out[1][1][0]), (4, 6));
    assert_eq!(framer.pending_samples(), 2);
}
