//! Sliding accumulation of per-frame MFCC vectors into a fixed-size matrix.
use vstd::prelude::*;
use std::collections::VecDeque;

verus! {

/// Rows of the matrix handed to inference: one per frame.
pub const MATRIX_ROWS: usize = 98;

/// The accumulated frames after receiving `m`: when the accumulator is full
/// the oldest frame leaves first.
pub open spec fn accumulate<T>(frames: Seq<[T; 13]>, m: [T; 13], capacity: nat) -> Seq<[T; 13]> {
    if frames.len() == capacity && frames.len() > 0 {
        frames.drop_first().push(m)
    } else {
        frames.push(m)
    }
}

/// Keeps the last `capacity` MFCC vectors, oldest first.
pub struct MfccAccumulator<T> {
    frames: VecDeque<[T; 13]>,
    capacity: usize,
}

impl<T: Copy + Default> MfccAccumulator<T> {
    /// Frames currently held, oldest first.
    pub closed spec fn frames(&self) -> Seq<[T; 13]> {
        self.frames@
    }

    /// Number of frames the accumulator is meant to hold.
    pub closed spec fn capacity(&self) -> nat {
        self.capacity as nat
    }

    /// Creates an empty accumulator for `capacity` frames.
    pub fn new(capacity: usize) -> (a: Self)
        ensures
            a.frames().len() == 0,
            a.capacity() == capacity,
    {
        MfccAccumulator { frames: VecDeque::with_capacity(capacity), capacity }
    }

    /// Appends a frame, evicting the oldest one when the accumulator is full.
    pub fn push(&mut self, mfcc: [T; 13])
        requires
            old(self).frames().len() < usize::MAX,
        ensures
            final(self).capacity() == old(self).capacity(),
            final(self).frames() == accumulate(old(self).frames(), mfcc, old(self).capacity()),
    {
        if self.frames.len() == self.capacity {
            let _ = self.frames.pop_front();
        }
        self.frames.push_back(mfcc);
        assert(self.frames@ =~= accumulate(old(self).frames(), mfcc, old(self).capacity()));
    }

    /// Number of frames currently held.
    pub fn held_frames(&self) -> (n: usize)
        ensures
            n == self.frames().len(),
    {
        self.frames.len()
    }

    /// Whether the accumulator holds exactly `capacity` frames.
    pub fn is_ready(&self) -> (r: bool)
        ensures
            r == (self.frames().len() == self.capacity()),
    {
        self.frames.len() == self.capacity
    }

    /// The accumulated frames as a row-major matrix, oldest frame first.
    /// Rows past the held frames are filled with `T::default()`.
    pub fn get_matrix(&self) -> (m: [[T; 13]; 98])
        requires
            self.frames().len() == self.capacity(),
            self.frames().len() <= MATRIX_ROWS,
        ensures
            forall|i: int| 0 <= i < self.frames().len() ==> #[trigger] m@[i] == self.frames()[i],
            forall|i: int, j: int|
                self.frames().len() <= i < 98 && 0 <= j < 13 ==> call_ensures(
                    T::default,
                    (),
                    #[trigger] m@[i]@[j],
                ),
    {
        let d = T::default();
        let row = [d; 13];
        let mut matrix = [row; 98];
        let n = self.frames.len();
        let mut i: usize = 0;
        while i < n
            invariant
                n == self.frames@.len(),
                n <= 98,
                i <= n,
                call_ensures(T::default, (), d),
                forall|r: int| 0 <= r < i ==> #[trigger] matrix@[r] == self.frames@[r],
                forall|r: int, j: int| i <= r < 98 && 0 <= j < 13 ==> #[trigger] matrix@[r]@[j] == d,
            decreases n - i,
        {
            matrix[i] = self.frames[i];
            i = i + 1;
        }
        matrix
    }
}

/// Once full, an accumulator stays full: every further push keeps exactly
/// `capacity` frames, the newest last.
pub proof fn lemma_full_accumulator_stays_full<T>(frames: Seq<[T; 13]>, m: [T; 13], capacity: nat)
    requires
        capacity > 0,
        frames.len() == capacity,
    ensures
        accumulate(frames, m, capacity).len() == capacity,
        accumulate(frames, m, capacity).last() == m,
        forall|i: int|
            0 <= i < capacity - 1 ==> #[trigger] accumulate(frames, m, capacity)[i] == frames[i
                + 1],
{
}

/// Before it is full, an accumulator only grows: no frame is evicted.
pub proof fn lemma_filling_accumulator_keeps_frames<T>(
    frames: Seq<[T; 13]>,
    m: [T; 13],
    capacity: nat,
)
    requires
        frames.len() < capacity,
    ensures
        accumulate(frames, m, capacity) == frames.push(m),
{
}

/// The frames held after pushing every frame of `ms` in order, starting
/// from `frames`.
pub open spec fn accumulate_all<T>(frames: Seq<[T; 13]>, ms: Seq<[T; 13]>, capacity: nat) -> Seq<[T; 13]>
    decreases ms.len(),
{
    if ms.len() == 0 {
        frames
    } else {
        accumulate(accumulate_all(frames, ms.drop_last(), capacity), ms.last(), capacity)
    }
}

/// The matrices emitted while pushing `ms` in order, starting from
/// `frames`: after each push that leaves the accumulator full, the frames
/// it then holds.
pub open spec fn emitted<T>(frames: Seq<[T; 13]>, ms: Seq<[T; 13]>, capacity: nat) -> Seq<Seq<[T; 13]>>
    decreases ms.len(),
{
    if ms.len() == 0 {
        Seq::empty()
    } else {
        let before = emitted(frames, ms.drop_last(), capacity);
        let now = accumulate_all(frames, ms, capacity);
        if now.len() == capacity {
            before.push(now)
        } else {
            before
        }
    }
}

/// After `k` pushes into an empty accumulator of capacity `c >= 1`, it holds
/// the last `min(k, c)` frames pushed, oldest first, so it is ready exactly
/// when `k >= c`.
pub proof fn lemma_accumulator_holds_last_frames<T>(ms: Seq<[T; 13]>, capacity: nat)
    requires
        capacity >= 1,
    ensures
        accumulate_all(Seq::empty(), ms, capacity) == ms.subrange(
            if ms.len() >= capacity { ms.len() - capacity } else { 0 },
            ms.len() as int,
        ),
        (accumulate_all(Seq::empty(), ms, capacity).len() == capacity) <==> ms.len() >= capacity,
    decreases ms.len(),
{
    if ms.len() > 0 {
        let p = ms.drop_last();
        lemma_accumulator_holds_last_frames(p, capacity);
        let before = accumulate_all(Seq::<[T; 13]>::empty(), p, capacity);
        let lo = if p.len() >= capacity { p.len() - capacity } else { 0 };
        assert(before == p.subrange(lo, p.len() as int));
        if p.len() >= capacity {
            assert(before.drop_first().push(ms.last()) =~= ms.subrange(
                ms.len() - capacity,
                ms.len() as int,
            ));
        } else {
            assert(before.push(ms.last()) =~= ms.subrange(0, ms.len() as int));
        }
    } else {
        assert(ms.subrange(0, 0) =~= Seq::<[T; 13]>::empty());
    }
}

/// Pushes `mfccs` in order and returns a matrix after each push that leaves
/// the accumulator full: the one `get_matrix` gives at that point.
pub fn accumulate_batch<T: Copy + Default>(acc: &mut MfccAccumulator<T>, mfccs: Vec<[T; 13]>) -> (out: Vec<[[T; 13]; 98]>)
    requires
        old(acc).capacity() <= MATRIX_ROWS,
        old(acc).frames().len() + mfccs@.len() < usize::MAX,
    ensures
        final(acc).capacity() == old(acc).capacity(),
        final(acc).frames() == accumulate_all(old(acc).frames(), mfccs@, old(acc).capacity()),
        out@.len() == emitted(old(acc).frames(), mfccs@, old(acc).capacity()).len(),
        forall|j: int, i: int|
            0 <= j < out@.len() && 0 <= i < old(acc).capacity() ==> #[trigger] out@[j]@[i]
                == emitted(old(acc).frames(), mfccs@, old(acc).capacity())[j][i],
        forall|j: int, i: int, c: int|
            0 <= j < out@.len() && old(acc).capacity() <= i < 98 && 0 <= c < 13 ==> call_ensures(
                T::default,
                (),
                #[trigger] out@[j]@[i]@[c],
            ),
{
    let ghost f0 = acc.frames();
    let ghost cap = acc.capacity();
    let mut out: Vec<[[T; 13]; 98]> = Vec::new();
    let mut k: usize = 0;
    while k < mfccs.len()
        invariant
            0 <= k <= mfccs@.len(),
            acc.capacity() == cap,
            cap <= MATRIX_ROWS,
            f0.len() + mfccs@.len() < usize::MAX,
            acc.frames() == accumulate_all(f0, mfccs@.take(k as int), cap),
            acc.frames().len() <= f0.len() + k,
            out@.len() == emitted(f0, mfccs@.take(k as int), cap).len(),
            forall|j: int, i: int|
                0 <= j < out@.len() && 0 <= i < cap ==> #[trigger] out@[j]@[i] == emitted(
                    f0,
                    mfccs@.take(k as int),
                    cap,
                )[j][i],
            forall|j: int, i: int, c: int|
                0 <= j < out@.len() && cap <= i < 98 && 0 <= c < 13 ==> call_ensures(
                    T::default,
                    (),
                    #[trigger] out@[j]@[i]@[c],
                ),
        decreases mfccs@.len() - k,
    {
        let ghost before_out = out@;
        let ghost before_frames = acc.frames();
        assert(mfccs@.take(k + 1).drop_last() =~= mfccs@.take(k as int));
        acc.push(mfccs[k]);
        if acc.is_ready() {
            let m = acc.get_matrix();
            out.push(m);
            assert forall|j: int, i: int|
                0 <= j < out@.len() && 0 <= i < cap implies #[trigger] out@[j]@[i] == emitted(
                    f0,
                    mfccs@.take(k + 1),
                    cap,
                )[j][i] by {
                if j < before_out.len() {
                    assert(out@[j] == before_out[j]);
                }
            }
            assert forall|j: int, i: int, c: int|
                0 <= j < out@.len() && cap <= i < 98 && 0 <= c < 13 implies call_ensures(
                    T::default,
                    (),
                    #[trigger] out@[j]@[i]@[c],
                ) by {
                if j < before_out.len() {
                    assert(out@[j] == before_out[j]);
                }
            }
        }
        k = k + 1;
    }
    assert(mfccs@.take(mfccs@.len() as int) =~= mfccs@);
    out
}

} // verus!
