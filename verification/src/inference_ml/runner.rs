//! Decisions of the inference thread. The thread itself (waiting on the
//! matrix channel and the stop channel, calling the model, sending scores)
//! belongs to the caller, which hands each event to `inference_step` and
//! carries out the action it returns.
use vstd::prelude::*;
use vstd::string::*;
use crate::inference_ml::error::InferenceError;
use crate::inference_ml::model::score_in_range;

verus! {

/// Refuses to start a runner that is already running.
pub fn check_not_running(running: bool) -> (r: Result<(), InferenceError>)
    ensures
        !running ==> r is Ok,
        running ==> (r matches Err(InferenceError::InferenceFailed(m)) && m@
            == "runner déjà démarré"@),
{
    if running {
        proof {
            reveal_strlit("runner déjà démarré");
        }
        return Err(InferenceError::InferenceFailed(String::from_str("runner déjà démarré")));
    }
    Ok(())
}

/// What the inference thread woke up for.
pub enum InferenceEvent {
    /// A matrix arrived and the model was run on it, with this outcome
    /// (a score as a binary32 bit pattern, or the error).
    Inferred(Result<u32, InferenceError>),
    /// The matrix channel was closed.
    InputClosed,
    /// A stop was requested.
    StopRequested,
}

/// What the inference thread does with an event.
#[derive(Debug)]
pub enum InferenceAction {
    /// Send the score downstream.
    Send(u32),
    /// Report the error and drop the matrix.
    Report(InferenceError),
    /// Do nothing for this event.
    Nothing,
}

/// What the inference thread does with `event` while the runner's flag is
/// `running`: the action, and whether the loop goes on.
pub open spec fn inference_decision(event: InferenceEvent, running: bool) -> (InferenceAction, bool) {
    match event {
        InferenceEvent::Inferred(Ok(s)) => (InferenceAction::Send(s), running),
        InferenceEvent::Inferred(Err(e)) => (InferenceAction::Report(e), running),
        _ => (InferenceAction::Nothing, false),
    }
}

/// A stop request or a closed input ends the loop at once, whatever the
/// running flag, with nothing sent; after a matrix the loop goes on exactly
/// while the runner is flagged as running, sending the score or reporting
/// the error.
pub proof fn lemma_inference_loop_ends_on_stop(event: InferenceEvent, running: bool)
    ensures
        (event is StopRequested || event is InputClosed) ==> inference_decision(event, running).0 is Nothing
            && !inference_decision(event, running).1,
        event is Inferred ==> inference_decision(event, running).1 == running,
        event matches InferenceEvent::Inferred(Ok(s)) ==> inference_decision(event, running).0
            == InferenceAction::Send(s),
        event matches InferenceEvent::Inferred(Err(e)) ==> inference_decision(event, running).0
            == InferenceAction::Report(e),
{
}

/// Handles one event. Returns the action and whether the loop goes on: a
/// closed channel or a stop request ends it at once; after a matrix, it
/// goes on only while the runner is still flagged as running.
pub fn inference_step(event: InferenceEvent, running: bool) -> (r: (InferenceAction, bool))
    ensures
        r == inference_decision(event, running),
        (event is StopRequested || event is InputClosed) ==> r.0 is Nothing && !r.1,
        event is Inferred ==> r.1 == running,
        event matches InferenceEvent::Inferred(Ok(s)) ==> r.0 == InferenceAction::Send(s),
        event matches InferenceEvent::Inferred(Err(e)) ==> r.0 == InferenceAction::Report(e),
{
    match event {
        InferenceEvent::Inferred(Ok(s)) => (InferenceAction::Send(s), running),
        InferenceEvent::Inferred(Err(e)) => (InferenceAction::Report(e), running),
        InferenceEvent::InputClosed => (InferenceAction::Nothing, false),
        InferenceEvent::StopRequested => (InferenceAction::Nothing, false),
    }
}

/// The actions taken for the outcomes of a run of matrices, in order,
/// while the runner stays flagged as running.
pub open spec fn actions_for(outcomes: Seq<Result<u32, InferenceError>>) -> Seq<InferenceAction> {
    outcomes.map_values(|o: Result<u32, InferenceError>| inference_decision(InferenceEvent::Inferred(o), true).0)
}

/// The scores that a sequence of actions sends, in order.
pub open spec fn scores_sent(actions: Seq<InferenceAction>) -> Seq<u32>
    decreases actions.len(),
{
    if actions.len() == 0 {
        Seq::empty()
    } else {
        let before = scores_sent(actions.drop_last());
        match actions.last() {
            InferenceAction::Send(s) => before.push(s),
            _ => before,
        }
    }
}

/// The scores of the successful inferences among `outcomes`, in order.
pub open spec fn ok_scores(outcomes: Seq<Result<u32, InferenceError>>) -> Seq<u32>
    decreases outcomes.len(),
{
    if outcomes.len() == 0 {
        Seq::empty()
    } else {
        let before = ok_scores(outcomes.drop_last());
        match outcomes.last() {
            Ok(s) => before.push(s),
            Err(_) => before,
        }
    }
}

/// Over a run of matrices while the runner is running, the loop goes on
/// after every matrix, a failed inference sends nothing, and the scores
/// sent are exactly those of the successful inferences, in order; when
/// every successful score lies in `[0.0, 1.0]` (as `CoreMLModel::infer`
/// ensures), so does every score sent.
pub proof fn lemma_inference_run_sends_scores(outcomes: Seq<Result<u32, InferenceError>>)
    ensures
        forall|i: int|
            0 <= i < outcomes.len() ==> #[trigger] inference_decision(
                InferenceEvent::Inferred(outcomes[i]),
                true,
            ).1,
        scores_sent(actions_for(outcomes)) == ok_scores(outcomes),
        (forall|i: int| 0 <= i < outcomes.len() ==> (#[trigger] outcomes[i] matches Ok(s)
            ==> score_in_range(s))) ==> forall|j: int|
            0 <= j < ok_scores(outcomes).len() ==> score_in_range(#[trigger] ok_scores(outcomes)[j]),
    decreases outcomes.len(),
{
    if outcomes.len() > 0 {
        let p = outcomes.drop_last();
        lemma_inference_run_sends_scores(p);
        assert(actions_for(outcomes).drop_last() =~= actions_for(p));
        assert(actions_for(outcomes).last() == inference_decision(
            InferenceEvent::Inferred(outcomes.last()),
            true,
        ).0);
        if forall|i: int| 0 <= i < outcomes.len() ==> (#[trigger] outcomes[i] matches Ok(s)
            ==> score_in_range(s)) {
            assert forall|i: int| 0 <= i < p.len() implies (#[trigger] p[i] matches Ok(s)
                ==> score_in_range(s)) by {
                assert(p[i] == outcomes[i]);
            }
            assert(outcomes[outcomes.len() - 1] == outcomes.last());
        }
    }
}

} // verus!
