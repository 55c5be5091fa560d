//! Parameters of the DSP stage, their consistency check and its errors.
//! Floating-point parameters are held as IEEE-754 bit patterns.
use vstd::prelude::*;
use vstd::string::*;
use crate::audio_capture::config::{is_power_of_two, lemma_power_of_two_is_pow2, power_of_two};
use vstd::arithmetic::power2::pow2;
use crate::float_bits::{f64_greater_than, f64_gt, F64_ZERO};
use crate::text::{decimal, push_decimal};

verus! {

/// Parameters of the DSP pipeline.
#[derive(Debug, Clone, Copy)]
pub struct DspConfig {
    /// Sample rate of the input signal in Hz (binary64 bit pattern).
    pub sample_rate: u64,
    /// Samples per frame.
    pub frame_size: usize,
    /// Samples between the starts of consecutive frames.
    pub hop_size: usize,
    /// FFT size; a power of two, at least `frame_size`.
    pub n_fft: usize,
    /// Number of Mel filters.
    pub n_mels: usize,
    /// Number of MFCC coefficients kept (at most `n_mels`).
    pub n_mfcc: usize,
    /// Pre-emphasis coefficient (binary32 bit pattern).
    pub alpha: u32,
    /// Lowest Mel filterbank frequency in Hz (binary32 bit pattern).
    pub mel_fmin: u32,
    /// Highest Mel filterbank frequency in Hz (binary32 bit pattern), at
    /// most half the sample rate.
    pub mel_fmax: u32,
    /// Frames accumulated into each MFCC matrix.
    pub n_frames: usize,
}

impl Default for DspConfig {
    fn default() -> (c: Self)
        ensures
            c.sample_rate == 0x40cf_4000_0000_0000u64,
            c.frame_size == 400,
            c.hop_size == 160,
            c.n_fft == 512,
            c.n_mels == 40,
            c.n_mfcc == 13,
            c.alpha == 0x3f78_51ecu32,
            c.mel_fmin == 0x41a0_0000u32,
            c.mel_fmax == 0x45fa_0000u32,
            c.n_frames == 98,
    {
        DspConfig {
            sample_rate: 0x40cf_4000_0000_0000,
            frame_size: 400,
            hop_size: 160,
            n_fft: 512,
            n_mels: 40,
            n_mfcc: 13,
            alpha: 0x3f78_51ec,
            mel_fmin: 0x41a0_0000,
            mel_fmax: 0x45fa_0000,
            n_frames: 98,
        }
    }
}

/// Errors of the DSP pipeline.
#[derive(Debug, Clone, Copy, PartialEq, Eq)]
pub enum DspError {
    /// The FFT setup could not be created.
    FftSetupFailed,
    /// The DCT setup could not be created.
    DctSetupFailed,
    /// A frame or FFT size does not fit.
    InvalidFrameSize { expected: usize, got: usize },
    /// The sample rate does not fit (binary64 bit pattern).
    InvalidSampleRate(u64),
    /// A numerical overflow at the named step.
    NumericalOverflow { step: &'static str },
    /// The PCM input channel was closed early.
    ChannelClosed,
}

/// What `validate` reports, checked in order: a sample rate above 0 (NaN
/// is not), a power-of-two FFT size, an FFT at least one frame long, no
/// more MFCC coefficients than Mel filters, and `mel_fmax` at most half
/// the sample rate (`fmax_above_nyquist` tells whether it is above).
pub open spec fn dsp_config_fault(c: DspConfig, fmax_above_nyquist: bool) -> Result<(), DspError> {
    if !f64_gt(c.sample_rate, F64_ZERO) {
        Err(DspError::InvalidSampleRate(c.sample_rate))
    } else if !power_of_two(c.n_fft as nat) {
        Err(DspError::FftSetupFailed)
    } else if c.n_fft < c.frame_size {
        Err(DspError::InvalidFrameSize { expected: c.n_fft, got: c.frame_size })
    } else if c.n_mfcc > c.n_mels {
        Err(DspError::DctSetupFailed)
    } else if fmax_above_nyquist {
        Err(DspError::InvalidSampleRate(c.sample_rate))
    } else {
        Ok(())
    }
}

/// A DSP configuration is accepted exactly when the sample rate is above 0,
/// the FFT size is a power of two at least one frame long (it may equal
/// the frame), there are no more MFCC coefficients than Mel filters and
/// `mel_fmax` is not above half the sample rate; `InvalidFrameSize` comes
/// only from an FFT shorter than a frame.
pub proof fn lemma_dsp_config_rules(c: DspConfig, fmax_above_nyquist: bool)
    ensures
        dsp_config_fault(c, fmax_above_nyquist) is Ok <==> (f64_gt(c.sample_rate, F64_ZERO) && (
        exists|k: nat| c.n_fft == pow2(k)) && c.n_fft >= c.frame_size && c.n_mfcc <= c.n_mels
            && !fmax_above_nyquist),
        dsp_config_fault(c, fmax_above_nyquist) matches Err(DspError::InvalidFrameSize { .. })
            ==> c.n_fft < c.frame_size,
{
    lemma_power_of_two_is_pow2(c.n_fft as nat);
}

impl DspConfig {
    /// Checks the consistency of the parameters.
    ///
    /// `fmax_above_nyquist` is whether `mel_fmax` exceeds half the sample
    /// rate, a floating-point comparison made by the caller.
    pub fn validate(&self, fmax_above_nyquist: bool) -> (r: Result<(), DspError>)
        ensures
            r == dsp_config_fault(*self, fmax_above_nyquist),
            r is Ok <==> (f64_gt(self.sample_rate, F64_ZERO) && (exists|k: nat| self.n_fft == pow2(k))
                && self.n_fft >= self.frame_size && self.n_mfcc <= self.n_mels
                && !fmax_above_nyquist),
            r matches Err(DspError::InvalidFrameSize { .. }) ==> self.n_fft < self.frame_size,
    {
        proof {
            lemma_dsp_config_rules(*self, fmax_above_nyquist);
        }
        if !f64_greater_than(self.sample_rate, F64_ZERO) {
            return Err(DspError::InvalidSampleRate(self.sample_rate));
        }
        if !is_power_of_two(self.n_fft as u64) {
            return Err(DspError::FftSetupFailed);
        }
        if self.n_fft < self.frame_size {
            return Err(DspError::InvalidFrameSize { expected: self.n_fft, got: self.frame_size });
        }
        if self.n_mfcc > self.n_mels {
            return Err(DspError::DctSetupFailed);
        }
        if fmax_above_nyquist {
            return Err(DspError::InvalidSampleRate(self.sample_rate));
        }
        Ok(())
    }
}

impl DspConfig {
    /// Checks that frames can be cut: `0 < hop_size <= frame_size`, so that
    /// every sample lands in a frame and none is dropped unread. Otherwise
    /// `InvalidFrameSize` with the frame size expected to cover the hop, and
    /// the hop given.
    pub fn check_framing(&self) -> (r: Result<(), DspError>)
        ensures
            (0 < self.hop_size <= self.frame_size) ==> r is Ok,
            !(0 < self.hop_size <= self.frame_size) ==> r == Err::<(), DspError>(
                DspError::InvalidFrameSize { expected: self.frame_size, got: self.hop_size },
            ),
    {
        if self.hop_size == 0 || self.hop_size > self.frame_size {
            return Err(DspError::InvalidFrameSize { expected: self.frame_size, got: self.hop_size });
        }
        Ok(())
    }
}

/// Text of a DSP error, as its `Display` renders it; the sample rate of
/// `InvalidSampleRate` is a floating-point value and is not rendered here.
pub open spec fn dsp_error_text(e: DspError) -> Seq<char> {
    match e {
        DspError::FftSetupFailed => "Échec d'initialisation du plan FFT Accelerate"@,
        DspError::DctSetupFailed => "Échec d'initialisation du plan DCT Accelerate"@,
        DspError::InvalidFrameSize { expected, got } => "Taille de trame invalide : attendu "@
            + decimal(expected as nat) + " samples, reçu "@ + decimal(got as nat),
        DspError::InvalidSampleRate(_) => Seq::empty(),
        DspError::NumericalOverflow { step } => "Dépassement numérique à l'étape « "@ + step@
            + " »"@,
        DspError::ChannelClosed => "Le channel d'entrée PCM a été fermé prématurément"@,
    }
}

impl DspError {
    /// Human-readable description of the error. `InvalidSampleRate` is
    /// rendered by the caller, its text holding a floating-point value.
    pub fn message(&self) -> (s: String)
        requires
            !(*self is InvalidSampleRate),
        ensures
            s@ == dsp_error_text(*self),
    {
        proof {
            reveal_strlit("Échec d'initialisation du plan FFT Accelerate");
            reveal_strlit("Échec d'initialisation du plan DCT Accelerate");
            reveal_strlit("Taille de trame invalide : attendu ");
            reveal_strlit(" samples, reçu ");
            reveal_strlit("Dépassement numérique à l'étape « ");
            reveal_strlit(" »");
            reveal_strlit("Le channel d'entrée PCM a été fermé prématurément");
        }
        match self {
            DspError::FftSetupFailed => String::from_str("Échec d'initialisation du plan FFT Accelerate"),
            DspError::DctSetupFailed => String::from_str("Échec d'initialisation du plan DCT Accelerate"),
            DspError::InvalidFrameSize { expected, got } => {
                let mut s = String::from_str("Taille de trame invalide : attendu ");
                push_decimal(&mut s, *expected as u128);
                s.append(" samples, reçu ");
                push_decimal(&mut s, *got as u128);
                s
            },
            DspError::InvalidSampleRate(_) => String::new(),
            DspError::NumericalOverflow { step } => {
                let mut s = String::from_str("Dépassement numérique à l'étape « ");
                s.append(step);
                s.append(" »");
                s
            },
            DspError::ChannelClosed => String::from_str(
                "Le channel d'entrée PCM a été fermé prématurément",
            ),
        }
    }
}

} // verus!
