//! Sliding-window vote with a cooldown between detections.
use vstd::prelude::*;
use std::collections::VecDeque;
use std::time::Instant;
use crate::clock::{instant_now, millis_since};
use crate::float_bits::{f32_greater_than, f32_gt};
use crate::trigger::config::TriggerConfig;

verus! {

/// Number of scores in `h` that are strictly above `threshold` (IEEE-754
/// comparison of the binary32 bit patterns).
pub open spec fn count_votes(h: Seq<u32>, threshold: u32) -> nat
    decreases h.len(),
{
    if h.len() == 0 {
        0
    } else {
        count_votes(h.drop_last(), threshold) + if f32_gt(h.last(), threshold) {
            1nat
        } else {
            0nat
        }
    }
}

/// The window after appending `score`: the oldest score leaves when the
/// window would exceed `window` entries.
pub open spec fn slide(h: Seq<u32>, score: u32, window: nat) -> Seq<u32> {
    if h.push(score).len() > window {
        h.push(score).drop_first()
    } else {
        h.push(score)
    }
}

/// Whether the cooldown that follows the last detection is still running,
/// `elapsed` whole milliseconds after it. Without a detection there is no
/// cooldown.
pub open spec fn in_cooldown(triggered: bool, elapsed: nat, cooldown: nat) -> bool {
    triggered && elapsed < cooldown
}

/// Abstract state of a trigger engine. `triggered` tells whether a
/// detection happened since the engine was created or reset; the time
/// elapsed since that detection is read from the clock when a score comes.
pub struct EngineState {
    pub history: Seq<u32>,
    pub window_size: nat,
    pub score_threshold: u32,
    pub vote_threshold: nat,
    pub cooldown_ms: nat,
    pub triggered: bool,
}

impl EngineState {
    /// The engine with a new window and detection flag, same parameters.
    pub open spec fn with(self, history: Seq<u32>, triggered: bool) -> EngineState {
        EngineState {
            history,
            window_size: self.window_size,
            score_threshold: self.score_threshold,
            vote_threshold: self.vote_threshold,
            cooldown_ms: self.cooldown_ms,
            triggered,
        }
    }

    /// Effect of receiving `score` `elapsed` whole milliseconds after the
    /// last detection: the window slides first; during a cooldown nothing
    /// is detected; otherwise a detection happens when the window holds at
    /// least `vote_threshold` positive votes, and it empties the window and
    /// starts a new cooldown.
    pub open spec fn after_push(self, score: u32, elapsed: nat) -> (EngineState, bool) {
        let w = slide(self.history, score, self.window_size);
        if in_cooldown(self.triggered, elapsed, self.cooldown_ms) {
            (self.with(w, self.triggered), false)
        } else if count_votes(w, self.score_threshold) >= self.vote_threshold {
            (self.with(Seq::empty(), true), true)
        } else {
            (self.with(w, self.triggered), false)
        }
    }

    /// Milliseconds of cooldown left `elapsed` whole milliseconds after the
    /// last detection; zero when none is running.
    pub open spec fn cooldown_remaining(self, elapsed: nat) -> nat {
        if in_cooldown(self.triggered, elapsed, self.cooldown_ms) {
            (self.cooldown_ms - elapsed) as nat
        } else {
            0
        }
    }

    /// The engine after a reset: empty window, no cooldown.
    pub open spec fn reset(self) -> EngineState {
        self.with(Seq::empty(), false)
    }

    /// The window never holds more than `window_size` scores.
    pub open spec fn wf(self) -> bool {
        self.history.len() <= self.window_size
    }
}

/// Sliding-window vote against false positives.
///
/// Keeps the most recent scores (binary32 bit patterns) and detects a wake
/// word when enough of them are strictly above the score threshold, at most
/// once per cooldown period, measured from the instant of the last
/// detection.
pub struct TriggerEngine {
    history: VecDeque<u32>,
    window_size: usize,
    score_threshold: u32,
    vote_threshold: usize,
    cooldown_ms: u64,
    last_trigger: Option<Instant>,
}

impl View for TriggerEngine {
    type V = EngineState;

    closed spec fn view(&self) -> EngineState {
        EngineState {
            history: self.history@,
            window_size: self.window_size as nat,
            score_threshold: self.score_threshold,
            vote_threshold: self.vote_threshold as nat,
            cooldown_ms: self.cooldown_ms as nat,
            triggered: self.last_trigger is Some,
        }
    }
}

proof fn lemma_count_votes_take(h: Seq<u32>, t: u32, i: int)
    requires
        0 <= i < h.len(),
    ensures
        count_votes(h.take(i + 1), t) == count_votes(h.take(i), t) + if f32_gt(h[i], t) {
            1nat
        } else {
            0nat
        },
{
    assert(h.take(i + 1).drop_last() =~= h.take(i));
}

impl TriggerEngine {
    /// The engine's state is consistent.
    pub open spec fn wf(&self) -> bool {
        self@.wf()
    }

    /// The instant of the last detection, if any.
    pub closed spec fn last_detection(&self) -> Option<Instant> {
        self.last_trigger
    }

    /// Creates an engine from a configuration, with an empty window and no
    /// running cooldown, so that the first detection can happen at once.
    pub fn new(config: &TriggerConfig) -> (e: Self)
        ensures
            e.wf(),
            e@.history.len() == 0,
            e@.window_size == config.window_size,
            e@.score_threshold == config.score_threshold,
            e@.vote_threshold == config.vote_threshold,
            e@.cooldown_ms == config.cooldown_ms,
            !e@.triggered,
    {
        TriggerEngine {
            history: VecDeque::with_capacity(config.window_size),
            window_size: config.window_size,
            score_threshold: config.score_threshold,
            vote_threshold: config.vote_threshold,
            cooldown_ms: config.cooldown_ms,
            last_trigger: None,
        }
    }

    fn count_positive(&self) -> (c: usize)
        ensures
            c == count_votes(self@.history, self@.score_threshold),
    {
        let n = self.history.len();
        let mut c: usize = 0;
        let mut i: usize = 0;
        while i < n
            invariant
                n == self.history@.len(),
                i <= n,
                c <= i,
                c == count_votes(self.history@.take(i as int), self.score_threshold),
            decreases n - i,
        {
            proof {
                lemma_count_votes_take(self.history@, self.score_threshold, i as int);
            }
            if f32_greater_than(self.history[i], self.score_threshold) {
                c = c + 1;
            }
            i = i + 1;
        }
        assert(self.history@.take(n as int) =~= self.history@);
        c
    }

    /// Adds a score received `elapsed_ms` whole milliseconds after the last
    /// detection (ignored when there was none) and returns whether a wake
    /// word is detected. A detection records the current instant.
    pub fn push_at(&mut self, score: u32, elapsed_ms: u64) -> (detected: bool)
        requires
            old(self).wf(),
        ensures
            final(self).wf(),
            (final(self)@, detected) == old(self)@.after_push(score, elapsed_ms as nat),
            !detected ==> final(self).last_detection() == old(self).last_detection(),
    {
        self.history.push_back(score);
        if self.history.len() > self.window_size {
            let _ = self.history.pop_front();
        }
        let ghost w = self.history@;
        assert(w =~= slide(old(self)@.history, score, old(self)@.window_size));
        if self.last_trigger.is_some() && elapsed_ms < self.cooldown_ms {
            return false;
        }
        let votes = self.count_positive();
        if votes >= self.vote_threshold {
            self.last_trigger = Some(instant_now());
            self.history.clear();
            assert(self@.history =~= Seq::<u32>::empty());
            return true;
        }
        false
    }

    /// Whole milliseconds elapsed since the last detection, read from the
    /// clock (saturated to `u64::MAX`); zero when there was no detection,
    /// the elapsed time then playing no part.
    pub fn elapsed_since_detection(&self) -> (ms: u64)
        ensures
            !self@.triggered ==> ms == 0,
    {
        match &self.last_trigger {
            Some(t) => millis_since(t),
            None => 0,
        }
    }

    /// Adds a score (binary32 bit pattern) and returns whether a wake word is
    /// detected, reading the time elapsed since the last detection.
    pub fn push(&mut self, score: u32) -> (detected: bool)
        requires
            old(self).wf(),
        ensures
            final(self).wf(),
            exists|elapsed: u64|
                (final(self)@, detected) == old(self)@.after_push(score, elapsed as nat),
            !detected ==> final(self).last_detection() == old(self).last_detection(),
    {
        let elapsed = self.elapsed_since_detection();
        self.push_at(score, elapsed)
    }

    /// Empties the window and ends any running cooldown.
    pub fn reset(&mut self)
        requires
            old(self).wf(),
        ensures
            final(self).wf(),
            final(self)@ == old(self)@.reset(),
    {
        self.history.clear();
        self.last_trigger = None;
        assert(self@.history =~= Seq::<u32>::empty());
    }

    /// Number of positive votes currently in the window.
    pub fn pending_votes(&self) -> (n: usize)
        ensures
            n == count_votes(self@.history, self@.score_threshold),
    {
        self.count_positive()
    }

    /// Number of scores currently in the window.
    pub fn history_len(&self) -> (n: usize)
        ensures
            n == self@.history.len(),
    {
        self.history.len()
    }

    /// Milliseconds of cooldown left `elapsed_ms` whole milliseconds after
    /// the last detection; zero when none runs.
    pub fn cooldown_remaining_at(&self, elapsed_ms: u64) -> (ms: u64)
        ensures
            ms == self@.cooldown_remaining(elapsed_ms as nat),
    {
        if self.last_trigger.is_some() && elapsed_ms < self.cooldown_ms {
            self.cooldown_ms - elapsed_ms
        } else {
            0
        }
    }

    /// Milliseconds of cooldown left now; zero when none runs.
    pub fn cooldown_remaining_ms(&self) -> (ms: u64)
        ensures
            exists|elapsed: u64| ms == self@.cooldown_remaining(elapsed as nat),
    {
        let elapsed = self.elapsed_since_detection();
        self.cooldown_remaining_at(elapsed)
    }
}

/// Feeds `scores` one by one, each `elapsed` whole milliseconds after the
/// last detection, collecting the detections.
pub open spec fn push_all(s: EngineState, scores: Seq<u32>, elapsed: nat) -> (EngineState, Seq<bool>)
    decreases scores.len(),
{
    if scores.len() == 0 {
        (s, Seq::empty())
    } else {
        let (s1, outs) = push_all(s, scores.drop_last(), elapsed);
        let (s2, d) = s1.after_push(scores.last(), elapsed);
        (s2, outs.push(d))
    }
}

/// Receiving a score never lets the window grow beyond `window_size`.
pub proof fn lemma_window_stays_bounded(s: EngineState, score: u32, elapsed: nat)
    requires
        s.wf(),
    ensures
        s.after_push(score, elapsed).0.wf(),
        s.after_push(score, elapsed).0.window_size == s.window_size,
{
}

/// Less than `cooldown_ms` after a detection, no score triggers another
/// one and the engine stays in its detected state: two detections are
/// always at least `cooldown_ms` apart, measured from the earlier one.
pub proof fn lemma_no_detection_during_cooldown(s: EngineState, score: u32, elapsed: nat)
    requires
        s.triggered,
        elapsed < s.cooldown_ms,
    ensures
        !s.after_push(score, elapsed).1,
        s.after_push(score, elapsed).0.triggered,
{
}

/// Once `cooldown_ms` have elapsed since a detection, the cooldown is over:
/// a score that leaves at least `vote_threshold` positive votes in the
/// window detects again.
pub proof fn lemma_detects_again_after_cooldown(s: EngineState, score: u32, elapsed: nat)
    requires
        elapsed >= s.cooldown_ms,
        count_votes(slide(s.history, score, s.window_size), s.score_threshold) >= s.vote_threshold,
    ensures
        s.after_push(score, elapsed).1,
        s.after_push(score, elapsed).0.history.len() == 0,
{
}

/// Whether a detection happened changes only when a detection happens.
pub proof fn lemma_last_trigger_moves_only_on_detection(s: EngineState, score: u32, elapsed: nat)
    ensures
        !s.after_push(score, elapsed).1 ==> s.after_push(score, elapsed).0.triggered
            == s.triggered,
{
}

/// A detection needs enough positive votes in the slid window, happens only
/// outside a cooldown, empties the window and starts a full cooldown,
/// counted from the detection itself.
pub proof fn lemma_detection_effects(s: EngineState, score: u32, elapsed: nat)
    requires
        s.after_push(score, elapsed).1,
    ensures
        !in_cooldown(s.triggered, elapsed, s.cooldown_ms),
        count_votes(slide(s.history, score, s.window_size), s.score_threshold)
            >= s.vote_threshold,
        s.after_push(score, elapsed).0.history.len() == 0,
        s.after_push(score, elapsed).0.triggered,
        s.after_push(score, elapsed).0.cooldown_remaining(0) == s.cooldown_ms,
{
}

proof fn lemma_count_all_positive(h: Seq<u32>, t: u32)
    requires
        forall|i: int| 0 <= i < h.len() ==> f32_gt(#[trigger] h[i], t),
    ensures
        count_votes(h, t) == h.len(),
    decreases h.len(),
{
    if h.len() > 0 {
        lemma_count_all_positive(h.drop_last(), t);
    }
}

proof fn lemma_fresh_prefix(s: EngineState, scores: Seq<u32>, elapsed: nat, k: nat)
    requires
        s.history.len() == 0,
        !s.triggered,
        1 <= s.vote_threshold <= s.window_size,
        k < s.vote_threshold,
        k <= scores.len(),
        forall|i: int| 0 <= i < scores.len() ==> f32_gt(#[trigger] scores[i], s.score_threshold),
    ensures
        push_all(s, scores.take(k as int), elapsed).0 == s.with(scores.take(k as int), false),
        push_all(s, scores.take(k as int), elapsed).1 == Seq::new(k, |i: int| false),
    decreases k,
{
    let p = scores.take(k as int);
    if k == 0 {
        assert(p =~= Seq::<u32>::empty());
        assert(s.history =~= p);
        assert(Seq::new(k, |i: int| false) =~= Seq::<bool>::empty());
    } else {
        lemma_fresh_prefix(s, scores, elapsed, (k - 1) as nat);
        let q = scores.take(k - 1);
        assert(p.drop_last() =~= q);
        let s1 = s.with(q, false);
        assert(q.push(p.last()) =~= p);
        assert(slide(q, p.last(), s.window_size) =~= p);
        assert forall|i: int| 0 <= i < p.len() implies f32_gt(#[trigger] p[i], s.score_threshold) by {
            assert(p[i] == scores[i]);
        }
        lemma_count_all_positive(p, s.score_threshold);
        let (s1x, outs) = push_all(s, p.drop_last(), elapsed);
        assert(s1x == s1);
        assert(s1.after_push(p.last(), elapsed).0 == s.with(p, false));
        assert(Seq::new((k - 1) as nat, |i: int| false).push(false) =~= Seq::new(k, |i: int| false));
    }
}

/// With an empty window and no cooldown (a new or reset engine), and
/// `1 <= vote_threshold <= window_size`, receiving `vote_threshold` scores
/// that are all above the threshold detects exactly at the last of them.
pub proof fn lemma_fresh_engine_detects(s: EngineState, scores: Seq<u32>, elapsed: nat)
    requires
        s.history.len() == 0,
        !s.triggered,
        1 <= s.vote_threshold <= s.window_size,
        scores.len() == s.vote_threshold,
        forall|i: int| 0 <= i < scores.len() ==> f32_gt(#[trigger] scores[i], s.score_threshold),
    ensures
        push_all(s, scores, elapsed).1 == Seq::new((s.vote_threshold - 1) as nat, |i: int| false).push(true),
        push_all(s, scores, elapsed).0.history.len() == 0,
        push_all(s, scores, elapsed).0.triggered,
{
    let k = (s.vote_threshold - 1) as nat;
    lemma_fresh_prefix(s, scores, elapsed, k);
    assert(scores.drop_last() =~= scores.take(k as int));
    let q = scores.take(k as int);
    assert(q.push(scores.last()) =~= scores);
    assert(slide(q, scores.last(), s.window_size) =~= scores);
    lemma_count_all_positive(scores, s.score_threshold);
}

} // verus!
