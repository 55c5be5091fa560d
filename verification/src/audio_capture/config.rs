//! Configuration of the audio capture.
use vstd::prelude::*;
use crate::audio_capture::error::AudioCaptureError;
use crate::float_bits::{f64_greater_than, f64_gt, F64_ZERO};
use vstd::arithmetic::power2::{pow2, lemma2_to64, lemma_pow2_pos, lemma_pow2_unfold};

verus! {

/// Bit pattern of the binary64 value `16000.0`, the nominal sample rate.
pub const DEFAULT_SAMPLE_RATE: u64 = 0x40cf_4000_0000_0000;

/// Whether `n` is a power of two (1, 2, 4, ...).
pub open spec fn power_of_two(n: nat) -> bool
    decreases n,
{
    if n == 1 {
        true
    } else if n >= 2 && n % 2 == 0 {
        power_of_two(n / 2)
    } else {
        false
    }
}

/// `power_of_two` holds of exactly the numbers `2^k`: 1, 2, 4, 8, ...
pub proof fn lemma_power_of_two_is_pow2(n: nat)
    ensures
        power_of_two(n) <==> exists|k: nat| n == pow2(k),
    decreases n,
{
    lemma2_to64();
    if n == 1 {
        assert(n == pow2(0));
    } else if n >= 2 && n % 2 == 0 {
        lemma_power_of_two_is_pow2(n / 2);
        if power_of_two(n / 2) {
            let k = choose|k: nat| n / 2 == pow2(k);
            lemma_pow2_unfold(k + 1);
            assert(n == pow2(k + 1));
        }
        if exists|k: nat| n == pow2(k) {
            let k = choose|k: nat| n == pow2(k);
            if k == 0 {
                assert(pow2(0) == 1);
            } else {
                lemma_pow2_unfold(k);
                assert(n / 2 == pow2((k - 1) as nat));
            }
        }
    } else {
        if exists|k: nat| n == pow2(k) {
            let k = choose|k: nat| n == pow2(k);
            lemma_pow2_pos(k);
            if k == 0 {
                assert(pow2(0) == 1);
            } else {
                lemma_pow2_unfold(k);
                assert(n % 2 == 0);
            }
        }
    }
}

/// Whether `n` is a power of two.
pub fn is_power_of_two(n: u64) -> (r: bool)
    ensures
        r == power_of_two(n as nat),
        r <==> exists|k: nat| n == pow2(k),
{
    proof {
        lemma_power_of_two_is_pow2(n as nat);
    }
    let mut m = n;
    while m >= 2 && m % 2 == 0
        invariant
            power_of_two(m as nat) == power_of_two(n as nat),
        decreases m,
    {
        m = m / 2;
    }
    m == 1
}

/// Parameters of the audio capture.
#[derive(Debug, Clone, Copy)]
pub struct AudioCaptureConfig {
    /// Sample rate in Hz, as the bit pattern of a binary64 value.
    pub sample_rate: u64,
    /// Size of the hardware buffer in frames; a power of two.
    pub buffer_size_frames: u32,
    /// Capacity of the ring buffer in samples.
    pub ring_capacity: usize,
}

/// Whether a capture configuration passes `validate`: a sample rate above
/// `0.0` (NaN is not), a buffer size that is a power of two, a non-zero ring.
pub open spec fn capture_config_valid(c: AudioCaptureConfig) -> bool {
    f64_gt(c.sample_rate, F64_ZERO) && power_of_two(c.buffer_size_frames as nat)
        && c.ring_capacity > 0
}

impl Default for AudioCaptureConfig {
    fn default() -> (c: Self)
        ensures
            c.sample_rate == DEFAULT_SAMPLE_RATE,
            c.buffer_size_frames == 256,
            c.ring_capacity == 32_000,
    {
        AudioCaptureConfig {
            sample_rate: DEFAULT_SAMPLE_RATE,
            buffer_size_frames: 256,
            ring_capacity: 32_000,
        }
    }
}

impl AudioCaptureConfig {
    /// Checks the invariants of the configuration; `FormatUnsupported` when
    /// one does not hold.
    pub fn validate(&self) -> (r: Result<(), AudioCaptureError>)
        ensures
            capture_config_valid(*self) ==> r is Ok,
            !capture_config_valid(*self) ==> r == Err::<(), AudioCaptureError>(
                AudioCaptureError::FormatUnsupported,
            ),
            r is Ok <==> (f64_gt(self.sample_rate, F64_ZERO) && (exists|k: nat|
                self.buffer_size_frames == pow2(k)) && self.ring_capacity > 0),
    {
        proof {
            lemma_power_of_two_is_pow2(self.buffer_size_frames as nat);
        }
        if !f64_greater_than(self.sample_rate, F64_ZERO) {
            return Err(AudioCaptureError::FormatUnsupported);
        }
        if self.buffer_size_frames == 0 || !is_power_of_two(self.buffer_size_frames as u64) {
            return Err(AudioCaptureError::FormatUnsupported);
        }
        if self.ring_capacity == 0 {
            return Err(AudioCaptureError::FormatUnsupported);
        }
        Ok(())
    }
}

} // verus!
