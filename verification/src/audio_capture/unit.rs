//! Setup sequence of the hardware input unit and the stream format it is
//! given. Each stage is a CoreAudio call made by the caller; this module
//! decides, from the status code of a stage, whether to go on, and on
//! failure which error to report and whether the created unit must be
//! disposed of.
use vstd::prelude::*;
use crate::audio_capture::error::AudioCaptureError;

verus! {

/// `'lpcm'`: linear PCM.
pub const FORMAT_LINEAR_PCM: u32 = 0x6c70_636d;

/// Format flag: samples are floating point.
pub const FORMAT_FLAG_IS_FLOAT: u32 = 1;

/// Format flag: samples are packed.
pub const FORMAT_FLAG_IS_PACKED: u32 = 8;

/// Format flag: one buffer per channel.
pub const FORMAT_FLAG_IS_NON_INTERLEAVED: u32 = 32;

/// The stages of the unit setup, in order.
#[derive(Debug, Clone, Copy, PartialEq, Eq)]
pub enum SetupStage {
    /// Find the HAL output component.
    FindComponent,
    /// Instantiate the unit.
    CreateInstance,
    /// Enable input on element 1.
    EnableInput,
    /// Disable output on element 0.
    DisableOutput,
    /// Select the capture device.
    SelectDevice,
    /// Set the Float32 mono stream format.
    SetStreamFormat,
    /// Initialize the unit.
    Initialize,
}

/// What follows a stage.
#[derive(Debug)]
pub enum SetupStep {
    /// Go on with this stage.
    Next(SetupStage),
    /// The unit is set up.
    Ready,
    /// Setup failed with `error`; `dispose` tells whether the unit that was
    /// already instantiated must be disposed of.
    Failed { error: AudioCaptureError, dispose: bool },
}

/// Position of a stage in the sequence.
pub open spec fn stage_index(s: SetupStage) -> nat {
    match s {
        SetupStage::FindComponent => 0,
        SetupStage::CreateInstance => 1,
        SetupStage::EnableInput => 2,
        SetupStage::DisableOutput => 3,
        SetupStage::SelectDevice => 4,
        SetupStage::SetStreamFormat => 5,
        SetupStage::Initialize => 6,
    }
}

/// The step after `stage` ended with `status` (0 is success; for
/// `FindComponent`, 0 means the component was found).
pub open spec fn setup_after(stage: SetupStage, status: i32) -> SetupStep {
    if status == 0 {
        match stage {
            SetupStage::FindComponent => SetupStep::Next(SetupStage::CreateInstance),
            SetupStage::CreateInstance => SetupStep::Next(SetupStage::EnableInput),
            SetupStage::EnableInput => SetupStep::Next(SetupStage::DisableOutput),
            SetupStage::DisableOutput => SetupStep::Next(SetupStage::SelectDevice),
            SetupStage::SelectDevice => SetupStep::Next(SetupStage::SetStreamFormat),
            SetupStage::SetStreamFormat => SetupStep::Next(SetupStage::Initialize),
            SetupStage::Initialize => SetupStep::Ready,
        }
    } else {
        match stage {
            SetupStage::FindComponent => SetupStep::Failed {
                error: AudioCaptureError::UnitCreationFailed(0),
                dispose: false,
            },
            SetupStage::CreateInstance => SetupStep::Failed {
                error: AudioCaptureError::UnitCreationFailed(status),
                dispose: false,
            },
            SetupStage::Initialize => SetupStep::Failed {
                error: AudioCaptureError::UnitCreationFailed(status),
                dispose: true,
            },
            _ => SetupStep::Failed { error: AudioCaptureError::PropertySetFailed(status), dispose: true },
        }
    }
}

/// Decides what follows `stage`, given the status code it ended with.
pub fn setup_step(stage: SetupStage, status: i32) -> (r: SetupStep)
    ensures
        r == setup_after(stage, status),
{
    if status == 0 {
        match stage {
            SetupStage::FindComponent => SetupStep::Next(SetupStage::CreateInstance),
            SetupStage::CreateInstance => SetupStep::Next(SetupStage::EnableInput),
            SetupStage::EnableInput => SetupStep::Next(SetupStage::DisableOutput),
            SetupStage::DisableOutput => SetupStep::Next(SetupStage::SelectDevice),
            SetupStage::SelectDevice => SetupStep::Next(SetupStage::SetStreamFormat),
            SetupStage::SetStreamFormat => SetupStep::Next(SetupStage::Initialize),
            SetupStage::Initialize => SetupStep::Ready,
        }
    } else {
        match stage {
            SetupStage::FindComponent => SetupStep::Failed {
                error: AudioCaptureError::UnitCreationFailed(0),
                dispose: false,
            },
            SetupStage::CreateInstance => SetupStep::Failed {
                error: AudioCaptureError::UnitCreationFailed(status),
                dispose: false,
            },
            SetupStage::Initialize => SetupStep::Failed {
                error: AudioCaptureError::UnitCreationFailed(status),
                dispose: true,
            },
            _ => SetupStep::Failed { error: AudioCaptureError::PropertySetFailed(status), dispose: true },
        }
    }
}

/// Runs the setup from `stage` on the given status codes, one per stage
/// reached, until it is ready or fails (or the codes run out).
pub open spec fn run_setup(stage: SetupStage, statuses: Seq<i32>) -> SetupStep
    decreases statuses.len(),
{
    if statuses.len() == 0 {
        SetupStep::Next(stage)
    } else {
        match setup_after(stage, statuses[0]) {
            SetupStep::Next(s) => run_setup(s, statuses.drop_first()),
            other => other,
        }
    }
}

/// The unit is ready exactly when all seven stages succeed; a failure
/// disposes of the unit exactly when it failed after the unit was
/// instantiated.
pub proof fn lemma_setup_ready_iff_all_succeed(statuses: Seq<i32>)
    requires
        statuses.len() == 7,
    ensures
        (run_setup(SetupStage::FindComponent, statuses) is Ready) <==> (forall|i: int|
            0 <= i < 7 ==> #[trigger] statuses[i] == 0),
        forall|i: int|
            0 <= i < 7 && statuses[i] != 0 && (forall|j: int| 0 <= j < i ==> statuses[j] == 0)
                ==> (run_setup(SetupStage::FindComponent, statuses) matches SetupStep::Failed {
                dispose,
                ..
            } && dispose == (i >= 2)),
{
    let s = statuses;
    reveal_with_fuel(run_setup, 8);
    assert(s.drop_first().drop_first().drop_first().drop_first().drop_first().drop_first()
        .drop_first().len() == 0);
    assert(s.drop_first()[0] == s[1]);
    assert(s.drop_first().drop_first()[0] == s[2]);
    assert(s.drop_first().drop_first().drop_first()[0] == s[3]);
    assert(s.drop_first().drop_first().drop_first().drop_first()[0] == s[4]);
    assert(s.drop_first().drop_first().drop_first().drop_first().drop_first()[0] == s[5]);
    assert(s.drop_first().drop_first().drop_first().drop_first().drop_first().drop_first()[0]
        == s[6]);
}

/// Description of the stream format that capture asks for.
#[derive(Debug, Clone, Copy)]
pub struct StreamFormat {
    /// Sample rate, binary64 bit pattern.
    pub sample_rate: u64,
    pub format_id: u32,
    pub format_flags: u32,
    pub bytes_per_packet: u32,
    pub frames_per_packet: u32,
    pub bytes_per_frame: u32,
    pub channels_per_frame: u32,
    pub bits_per_channel: u32,
    pub reserved: u32,
}

/// The capture format: linear PCM, Float32, packed, non-interleaved, mono,
/// one frame per packet, at `sample_rate` (binary64 bit pattern).
pub fn capture_stream_format(sample_rate: u64) -> (f: StreamFormat)
    ensures
        f.sample_rate == sample_rate,
        f.format_id == FORMAT_LINEAR_PCM,
        f.format_flags == FORMAT_FLAG_IS_FLOAT + FORMAT_FLAG_IS_PACKED
            + FORMAT_FLAG_IS_NON_INTERLEAVED,
        f.bytes_per_packet == 4,
        f.frames_per_packet == 1,
        f.bytes_per_frame == 4,
        f.channels_per_frame == 1,
        f.bits_per_channel == 32,
        f.reserved == 0,
{
    StreamFormat {
        sample_rate,
        format_id: FORMAT_LINEAR_PCM,
        format_flags: FORMAT_FLAG_IS_FLOAT + FORMAT_FLAG_IS_PACKED + FORMAT_FLAG_IS_NON_INTERLEAVED,
        bytes_per_packet: 4,
        frames_per_packet: 1,
        bytes_per_frame: 4,
        channels_per_frame: 1,
        bits_per_channel: 32,
        reserved: 0,
    }
}

/// Checks that a stream format is one capture can read: linear PCM with at
/// least one channel. The sample encoding (float or integer) is not
/// required, the unit converting it.
pub fn validate_asbd(f: &StreamFormat) -> (r: Result<(), AudioCaptureError>)
    ensures
        f.format_id == FORMAT_LINEAR_PCM && f.channels_per_frame > 0 ==> r is Ok,
        !(f.format_id == FORMAT_LINEAR_PCM && f.channels_per_frame > 0) ==> r == Err::<
            (),
            AudioCaptureError,
        >(AudioCaptureError::FormatUnsupported),
{
    if f.format_id != FORMAT_LINEAR_PCM {
        return Err(AudioCaptureError::FormatUnsupported);
    }
    if f.channels_per_frame == 0 {
        return Err(AudioCaptureError::FormatUnsupported);
    }
    Ok(())
}

} // verus!
