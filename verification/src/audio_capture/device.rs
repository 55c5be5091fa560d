//! Decisions about the default input device. Querying CoreAudio is done by
//! the caller, which hands the status codes and values read to these
//! functions.
use vstd::prelude::*;
use vstd::string::*;
use crate::audio_capture::error::AudioCaptureError;
use crate::float_bits::{f64_at_most, f64_le, F64_ZERO};
use crate::text::{decimal, push_decimal};

verus! {

/// Identifier of an audio object (device, stream...).
pub type AudioObjectID = u32;

/// CoreAudio status code meaning success.
#[allow(non_upper_case_globals)]
pub const noErr: i32 = 0;

/// Selector of a property of an audio object.
#[allow(non_snake_case)]
#[derive(Debug, Clone, Copy)]
pub struct AudioObjectPropertyAddress {
    pub mSelector: u32,
    pub mScope: u32,
    pub mElement: u32,
}

/// Name of a device for logs: `"AudioDevice(id=<id>)"`.
pub fn device_name(device_id: AudioObjectID) -> (s: String)
    ensures
        s@ == "AudioDevice(id="@ + decimal(device_id as nat) + ")"@,
{
    proof {
        reveal_strlit("AudioDevice(id=");
        reveal_strlit(")");
    }
    let mut s = String::from_str("AudioDevice(id=");
    push_decimal(&mut s, device_id as u128);
    s.append(")");
    s
}

/// The default input device, given the status of the property query and the
/// identifier it wrote: a failed query or the null identifier 0 means that
/// no device was found.
pub fn default_input_device_from(status: i32, device_id: AudioObjectID) -> (r: Result<
    AudioObjectID,
    AudioCaptureError,
>)
    ensures
        status == noErr && device_id != 0 ==> r == Ok::<AudioObjectID, AudioCaptureError>(
            device_id,
        ),
        !(status == noErr && device_id != 0) ==> r == Err::<AudioObjectID, AudioCaptureError>(
            AudioCaptureError::DeviceNotFound,
        ),
{
    if status != noErr || device_id == 0 {
        return Err(AudioCaptureError::DeviceNotFound);
    }
    Ok(device_id)
}

/// Whether the device supports capture, given the status of the nominal
/// sample rate query and the rate it wrote (binary64 bit pattern): a failed
/// query or a rate `<= 0.0` means the format is unsupported.
pub fn format_support_from(status: i32, sample_rate: u64) -> (r: Result<(), AudioCaptureError>)
    ensures
        status == noErr && !f64_le(sample_rate, F64_ZERO) ==> r is Ok,
        !(status == noErr && !f64_le(sample_rate, F64_ZERO)) ==> r == Err::<(), AudioCaptureError>(
            AudioCaptureError::FormatUnsupported,
        ),
{
    if status != noErr || f64_at_most(sample_rate, F64_ZERO) {
        return Err(AudioCaptureError::FormatUnsupported);
    }
    Ok(())
}

} // verus!
