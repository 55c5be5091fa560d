//! Decisions of the DSP thread. The thread itself (waiting on the sample
//! channel, running the floating-point pipeline, sending matrices) belongs
//! to the caller, which hands each event to `dsp_step` and carries out the
//! action it returns.
use vstd::prelude::*;

verus! {

/// What the DSP thread met.
#[derive(Debug, Clone, Copy, PartialEq, Eq)]
pub enum DspEvent {
    /// A batch of samples arrived and yielded this many matrices.
    Matrices(usize),
    /// No batch arrived in time.
    Timeout,
    /// The sample channel was closed.
    InputClosed,
    /// Sending a matrix downstream failed.
    SendFailed,
}

/// What the DSP thread does next.
#[derive(Debug, Clone, Copy, PartialEq, Eq)]
pub enum DspAction {
    /// Send this many matrices, in the order they were produced.
    Send(usize),
    /// Wait for the next batch.
    Wait,
    /// Leave the loop.
    Exit,
}

/// Handles one event. Returns the action and whether the loop goes on: a
/// closed input or a failed send ends it at once; otherwise it goes on
/// only while the runner is still flagged as running.
pub fn dsp_step(running: bool, event: DspEvent) -> (r: (DspAction, bool))
    ensures
        match event {
            DspEvent::Matrices(n) => r == (DspAction::Send(n), running),
            DspEvent::Timeout => r == (DspAction::Wait, running),
            DspEvent::InputClosed => r == (DspAction::Exit, false),
            DspEvent::SendFailed => r == (DspAction::Exit, false),
        },
{
    match event {
        DspEvent::Matrices(n) => (DspAction::Send(n), running),
        DspEvent::Timeout => (DspAction::Wait, running),
        DspEvent::InputClosed => (DspAction::Exit, false),
        DspEvent::SendFailed => (DspAction::Exit, false),
    }
}

} // verus!
