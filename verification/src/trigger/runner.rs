//! Decisions of the trigger thread. The thread itself (waiting on the score
//! channel and the stop channel, writing to the socket) belongs to the
//! caller, which hands each event to `runner_step` and carries out the
//! action it returns.
use vstd::prelude::*;
use crate::trigger::engine::{EngineState, TriggerEngine};

verus! {

/// What the trigger thread woke up for.
pub enum RunnerEvent {
    /// A score arrived (binary32 bit pattern).
    Score(u32),
    /// The score channel was closed.
    InputClosed,
    /// A stop was requested.
    StopRequested,
}

/// What the trigger thread does next.
#[derive(Debug, Clone, Copy, PartialEq, Eq)]
pub enum RunnerAction {
    /// Wait for the next event.
    Continue,
    /// A wake word was detected: send the notification, then wait.
    Notify,
    /// Leave the loop.
    Exit,
}

/// What the trigger thread does with `event` on an engine in state `s`,
/// the score (if any) arriving `elapsed` whole milliseconds after the last
/// detection: the engine's next state and the action.
pub open spec fn runner_decision(s: EngineState, event: RunnerEvent, elapsed: nat) -> (EngineState, RunnerAction) {
    match event {
        RunnerEvent::Score(score) => {
            let (next, detected) = s.after_push(score, elapsed);
            (next, if detected {
                RunnerAction::Notify
            } else {
                RunnerAction::Continue
            })
        },
        _ => (s, RunnerAction::Exit),
    }
}

/// Handles one event, a score arriving `elapsed_ms` whole milliseconds
/// after the last detection: the score goes through the engine and a
/// detection asks for a notification; a closed channel or a stop request
/// ends the loop.
pub fn runner_step_at(engine: &mut TriggerEngine, event: RunnerEvent, elapsed_ms: u64) -> (action: RunnerAction)
    requires
        old(engine).wf(),
    ensures
        final(engine).wf(),
        (final(engine)@, action) == runner_decision(old(engine)@, event, elapsed_ms as nat),
        action != RunnerAction::Notify ==> final(engine).last_detection()
            == old(engine).last_detection(),
        !(event is Score) ==> action == RunnerAction::Exit && final(engine)@ == old(engine)@,
        event is Score ==> action != RunnerAction::Exit,
{
    match event {
        RunnerEvent::Score(s) => {
            if engine.push_at(s, elapsed_ms) {
                RunnerAction::Notify
            } else {
                RunnerAction::Continue
            }
        },
        RunnerEvent::InputClosed => RunnerAction::Exit,
        RunnerEvent::StopRequested => RunnerAction::Exit,
    }
}

/// Handles one event as [`runner_step_at`] does, reading the time elapsed
/// since the last detection from the engine's clock when a score arrives.
pub fn runner_step(engine: &mut TriggerEngine, event: RunnerEvent) -> (action: RunnerAction)
    requires
        old(engine).wf(),
    ensures
        final(engine).wf(),
        exists|elapsed: u64|
            (final(engine)@, action) == #[trigger] runner_decision(
                old(engine)@,
                event,
                elapsed as nat,
            ),
        action != RunnerAction::Notify ==> final(engine).last_detection()
            == old(engine).last_detection(),
{
    let elapsed = match event {
        RunnerEvent::Score(_) => engine.elapsed_since_detection(),
        _ => 0,
    };
    runner_step_at(engine, event, elapsed)
}

/// The engine's state and the detections after pushing `scores[i]` with the
/// elapsed-time reading `readings[i]`, in order.
pub open spec fn detections(s: EngineState, scores: Seq<u32>, readings: Seq<nat>) -> (EngineState, Seq<bool>)
    decreases scores.len(),
{
    if scores.len() == 0 {
        (s, Seq::empty())
    } else {
        let (s1, ds) = detections(s, scores.drop_last(), readings.drop_last());
        let (s2, d) = s1.after_push(scores.last(), readings[scores.len() - 1]);
        (s2, ds.push(d))
    }
}

/// The engine's state and the runner's actions after the score events
/// `scores[i]`, read with `readings[i]`, in order.
pub open spec fn runner_run(s: EngineState, scores: Seq<u32>, readings: Seq<nat>) -> (EngineState, Seq<RunnerAction>)
    decreases scores.len(),
{
    if scores.len() == 0 {
        (s, Seq::empty())
    } else {
        let (s1, acts) = runner_run(s, scores.drop_last(), readings.drop_last());
        let (s2, a) = runner_decision(s1, RunnerEvent::Score(scores.last()), readings[scores.len() - 1]);
        (s2, acts.push(a))
    }
}

/// The runner notifies exactly when an engine fed the same scores with the
/// same readings detects, in the same order, never leaves the loop on a
/// score, and ends in the same state.
pub proof fn lemma_runner_notifies_on_detections(s: EngineState, scores: Seq<u32>, readings: Seq<nat>)
    requires
        scores.len() == readings.len(),
    ensures
        runner_run(s, scores, readings).0 == detections(s, scores, readings).0,
        runner_run(s, scores, readings).1.len() == scores.len(),
        detections(s, scores, readings).1.len() == scores.len(),
        forall|i: int|
            0 <= i < scores.len() ==> (runner_run(s, scores, readings).1[i]
                == RunnerAction::Notify) == #[trigger] detections(s, scores, readings).1[i],
        forall|i: int|
            0 <= i < scores.len() ==> #[trigger] runner_run(s, scores, readings).1[i]
                != RunnerAction::Exit,
    decreases scores.len(),
{
    if scores.len() > 0 {
        lemma_runner_notifies_on_detections(s, scores.drop_last(), readings.drop_last());
    }
}

} // verus!
