//! Decisions of the consumer thread, which drains the ring buffer and sends
//! the samples downstream. The thread itself (draining, sending, sleeping)
//! belongs to the caller.
use vstd::prelude::*;
use crate::audio_capture::error::AudioCaptureError;

verus! {

/// Refuses to start a consumer that is already running.
pub fn consumer_start_check(running: bool) -> (r: Result<(), AudioCaptureError>)
    ensures
        running <==> r == Err::<(), AudioCaptureError>(AudioCaptureError::UnitStartFailed(-1i32)),
        !running ==> r is Ok,
{
    if running {
        Err(AudioCaptureError::UnitStartFailed(-1))
    } else {
        Ok(())
    }
}

/// What the consumer thread does next.
#[derive(Debug, Clone, Copy, PartialEq, Eq)]
pub enum ConsumerAction {
    /// Send the drained batch, then sleep for the poll interval.
    Send,
    /// Nothing to send: sleep for the poll interval.
    Sleep,
    /// Leave the loop.
    Exit,
}

/// Decides what follows a drain of `batch_len` samples: leave when the
/// consumer is no longer running or the last send failed, send a non-empty
/// batch, otherwise sleep.
pub fn consumer_step(running: bool, batch_len: usize, send_failed: bool) -> (a: ConsumerAction)
    ensures
        a == if !running || send_failed {
            ConsumerAction::Exit
        } else if batch_len > 0 {
            ConsumerAction::Send
        } else {
            ConsumerAction::Sleep
        },
{
    if !running || send_failed {
        ConsumerAction::Exit
    } else if batch_len > 0 {
        ConsumerAction::Send
    } else {
        ConsumerAction::Sleep
    }
}

} // verus!
