//! Cutting a stream of samples into fixed-size overlapping frames.
use vstd::prelude::*;

verus! {

/// Number of frames that a buffer of `len` samples yields: one frame starts
/// at every multiple of `hop` from which `frame` samples remain.
pub open spec fn frame_count(len: nat, frame: nat, hop: nat) -> nat {
    if len >= frame && hop > 0 {
        ((len - frame) as nat / hop + 1) as nat
    } else {
        0
    }
}

/// Whether advancing by `hop` after the last frame of a `len`-sample buffer
/// would drop more samples than the buffer holds (possible only when
/// `hop > frame`): such a push cannot be carried out.
pub open spec fn overruns(len: nat, frame: nat, hop: nat) -> bool {
    hop > frame && len >= frame && frame + (len - frame) as nat % hop < hop
}

/// The frames cut from `all`: frame `i` is `all[i*hop .. i*hop + frame]`.
pub open spec fn frames_of<T>(all: Seq<T>, frame: nat, hop: nat) -> Seq<Seq<T>> {
    Seq::new(
        frame_count(all.len(), frame, hop),
        |i: int| all.subrange(i * hop, i * hop + frame),
    )
}

/// The samples that stay buffered once every frame has been cut from `all`.
pub open spec fn rest_of<T>(all: Seq<T>, frame: nat, hop: nat) -> Seq<T> {
    all.skip((frame_count(all.len(), frame, hop) * hop) as int)
}

proof fn lemma_div_exact(d: int, hop: int, q: int)
    requires
        hop > 0,
        q * hop <= d < (q + 1) * hop,
    ensures
        d / hop == q,
{
    assert((q + 1) * hop == q * hop + hop) by (nonlinear_arith);
    vstd::arithmetic::div_mod::lemma_fundamental_div_mod_converse(d, hop, q, d - q * hop);
}

/// `k` frames come out of `len` samples exactly when `k` is zero and no frame
/// fits, or frame `k - 1` fits and frame `k` does not.
proof fn lemma_frame_count_char(len: nat, frame: nat, hop: nat, k: nat)
    requires
        hop > 0,
        (k == 0 && len < frame) || (k >= 1 && (k - 1) * hop + frame <= len && len < k * hop
            + frame),
    ensures
        frame_count(len, frame, hop) == k,
{
    if k >= 1 {
        assert((k - 1) * hop + hop == k * hop) by (nonlinear_arith);
        lemma_div_exact(len - frame, hop as int, k - 1);
    }
}

/// The frames of a buffer fit in it, and whenever a frame has just been cut,
/// `hop` more samples are there to be dropped.
proof fn lemma_hop_fits(len: nat, frame: nat, hop: nat, j: nat)
    requires
        hop > 0,
        j * hop + frame <= len,
        !overruns(len, frame, hop),
    ensures
        j * hop + hop <= len,
        j < frame_count(len, frame, hop),
{
    let d = (len - frame) as int;
    vstd::arithmetic::div_mod::lemma_fundamental_div_mod(d, hop as int);
    let q = d / (hop as int);
    let r = d % (hop as int);
    assert(j * hop <= d);
    if j > q {
        assert(j * hop >= (q + 1) * hop) by (nonlinear_arith)
            requires
                j >= q + 1,
                hop > 0,
        ;
        assert((q + 1) * hop == q * hop + hop) by (nonlinear_arith);
        assert(hop * q == q * hop) by (nonlinear_arith);
    }
    assert(j <= q);
    if j < q {
        assert(j * hop + hop <= q * hop) by (nonlinear_arith)
            requires
                j + 1 <= q,
                hop > 0,
        ;
        assert(hop * q == q * hop) by (nonlinear_arith);
    } else {
        assert(hop * q == q * hop) by (nonlinear_arith);
    }
}

pub(crate) proof fn lemma_frame_count_bounds(len: nat, frame: nat, hop: nat)
    requires
        hop > 0,
    ensures
        frame_count(len, frame, hop) == 0 ==> len < frame,
        frame_count(len, frame, hop) >= 1 ==> (frame_count(len, frame, hop) - 1) * hop + frame
            <= len < frame_count(len, frame, hop) * hop + frame,
{
    if len >= frame {
        let d = (len - frame) as int;
        let q = d / (hop as int);
        vstd::arithmetic::div_mod::lemma_fundamental_div_mod(d, hop as int);
        assert(hop * q == q * hop) by (nonlinear_arith);
        assert((q + 1) * hop == q * hop + hop) by (nonlinear_arith);
        assert(0 <= d % (hop as int) < hop);
    }
}

proof fn lemma_mul_le(i: int, j: int, hop: int)
    requires
        0 <= i <= j,
        hop >= 0,
    ensures
        i * hop <= j * hop,
{
    assert(i * hop <= j * hop) by (nonlinear_arith)
        requires
            0 <= i <= j,
            hop >= 0,
    ;
}

/// Framing does not depend on how the samples are split into pushes:
/// pushing `a` and then `b` onto a buffer holding `r` yields, in order, the
/// frames that pushing `a + b` at once yields, and leaves the same samples
/// buffered.
pub proof fn lemma_framing_ignores_chunking<T>(
    r: Seq<T>,
    a: Seq<T>,
    b: Seq<T>,
    frame: nat,
    hop: nat,
)
    requires
        frame > 0,
        hop > 0,
        !overruns((r + a).len(), frame, hop),
        !overruns((rest_of(r + a, frame, hop) + b).len(), frame, hop),
    ensures
        frames_of(r + a, frame, hop) + frames_of(rest_of(r + a, frame, hop) + b, frame, hop)
            == frames_of(r + a + b, frame, hop),
        rest_of(rest_of(r + a, frame, hop) + b, frame, hop) == rest_of(r + a + b, frame, hop),
{
    let ab = r + a;
    let x = r + a + b;
    let l1 = ab.len();
    let l = x.len();
    let k1 = frame_count(l1, frame, hop);
    lemma_frame_count_bounds(l1, frame, hop);
    if k1 >= 1 {
        lemma_hop_fits(l1, frame, hop, (k1 - 1) as nat);
        assert((k1 - 1) * hop + hop == k1 * hop) by (nonlinear_arith);
    }
    assert(k1 * hop <= l1);
    let bb = rest_of(ab, frame, hop) + b;
    assert(bb =~= x.skip((k1 * hop) as int));
    let lb = bb.len();
    assert(lb == l - k1 * hop);
    let k2 = frame_count(lb, frame, hop);
    lemma_frame_count_bounds(lb, frame, hop);
    if k1 == 0 {
        assert(bb =~= x);
    } else if k2 == 0 {
        lemma_frame_count_char(l, frame, hop, k1);
    } else {
        assert((k1 + k2 - 1) * hop == k1 * hop + (k2 - 1) * hop) by (nonlinear_arith)
            requires
                k2 >= 1,
        ;
        assert((k1 + k2) * hop == k1 * hop + k2 * hop) by (nonlinear_arith);
        lemma_frame_count_char(l, frame, hop, k1 + k2);
    }
    assert(frame_count(l, frame, hop) == k1 + k2);
    let f1 = frames_of(ab, frame, hop);
    let f2 = frames_of(bb, frame, hop);
    let f = frames_of(x, frame, hop);
    assert forall|i: int| 0 <= i < f.len() implies (f1 + f2)[i] == f[i] by {
        if i < k1 {
            lemma_mul_le(i, k1 - 1, hop as int);
            assert(f1[i] =~= f[i]);
        } else {
            let m = i - k1;
            assert(i * hop == k1 * hop + m * hop) by (nonlinear_arith)
                requires
                    m == i - k1,
            ;
            lemma_mul_le(m, k2 - 1, hop as int);
            assert((k2 - 1) * hop + hop == k2 * hop) by (nonlinear_arith);
            assert(f2[m] =~= f[i]);
        }
    }
    assert(f1 + f2 =~= f);
    assert((k1 + k2) * hop == k1 * hop + k2 * hop) by (nonlinear_arith);
    if k2 >= 1 {
        lemma_hop_fits(lb, frame, hop, (k2 - 1) as nat);
        assert((k2 - 1) * hop + hop == k2 * hop) by (nonlinear_arith);
    }
    assert(k2 * hop <= lb);
    assert(rest_of(bb, frame, hop) =~= rest_of(x, frame, hop));
}

/// The samples of `chunks` one after the other.
pub open spec fn concat_chunks<T>(chunks: Seq<Seq<T>>) -> Seq<T>
    decreases chunks.len(),
{
    if chunks.len() == 0 {
        Seq::empty()
    } else {
        concat_chunks(chunks.drop_last()) + chunks.last()
    }
}

/// The samples left buffered after pushing `chunks` in order onto a buffer
/// holding `r`.
pub open spec fn rest_after_pushes<T>(r: Seq<T>, chunks: Seq<Seq<T>>, frame: nat, hop: nat) -> Seq<T>
    decreases chunks.len(),
{
    if chunks.len() == 0 {
        r
    } else {
        rest_of(rest_after_pushes(r, chunks.drop_last(), frame, hop) + chunks.last(), frame, hop)
    }
}

/// The frames returned by pushing `chunks` in order onto a buffer holding
/// `r`, all calls concatenated.
pub open spec fn frames_after_pushes<T>(r: Seq<T>, chunks: Seq<Seq<T>>, frame: nat, hop: nat) -> Seq<Seq<T>>
    decreases chunks.len(),
{
    if chunks.len() == 0 {
        Seq::empty()
    } else {
        frames_after_pushes(r, chunks.drop_last(), frame, hop) + frames_of(
            rest_after_pushes(r, chunks.drop_last(), frame, hop) + chunks.last(),
            frame,
            hop,
        )
    }
}

/// With `0 < hop <= frame`, pushing any number of chunks one after the
/// other onto a buffer holding less than a frame (a new framer's is empty)
/// returns, all calls together, exactly the frames of the whole stream, and
/// leaves buffered what cutting the whole stream leaves.
pub proof fn lemma_framing_over_many_pushes<T>(r: Seq<T>, chunks: Seq<Seq<T>>, frame: nat, hop: nat)
    requires
        0 < hop <= frame,
        r.len() < frame,
    ensures
        frames_after_pushes(r, chunks, frame, hop) == frames_of(r + concat_chunks(chunks), frame, hop),
        rest_after_pushes(r, chunks, frame, hop) == rest_of(r + concat_chunks(chunks), frame, hop),
        rest_after_pushes(r, chunks, frame, hop).len() < frame,
    decreases chunks.len(),
{
    let x = r + concat_chunks(chunks);
    lemma_frame_count_bounds(x.len(), frame, hop);
    let k = frame_count(x.len(), frame, hop);
    if k >= 1 {
        assert((k - 1) * hop + hop == k * hop) by (nonlinear_arith);
    }
    if chunks.len() == 0 {
        assert(r + concat_chunks(chunks) =~= r);
        assert(frames_of(r, frame, hop) =~= Seq::<Seq<T>>::empty());
        assert(r.skip(0) =~= r);
    } else {
        let p = chunks.drop_last();
        let c = chunks.last();
        lemma_framing_over_many_pushes(r, p, frame, hop);
        let a = concat_chunks(p);
        lemma_framing_ignores_chunking(r, a, c, frame, hop);
        assert(r + a + c =~= r + concat_chunks(chunks));
    }
}

/// Every frame holds exactly `frame` samples, and consecutive frames overlap
/// by `frame - hop` samples when `hop <= frame`.
pub proof fn lemma_frames_overlap<T>(all: Seq<T>, frame: nat, hop: nat, i: int)
    requires
        hop > 0,
        hop <= frame,
        0 <= i,
        i + 1 < frames_of(all, frame, hop).len(),
    ensures
        frames_of(all, frame, hop)[i].len() == frame,
        frames_of(all, frame, hop)[i].skip(hop as int) == frames_of(all, frame, hop)[i + 1].take(
            frame - hop,
        ),
{
    let k = frame_count(all.len(), frame, hop);
    lemma_frame_count_bounds(all.len(), frame, hop);
    lemma_mul_le(i + 1, k - 1, hop as int);
    assert((i + 1) * hop == i * hop + hop) by (nonlinear_arith);
    assert(frames_of(all, frame, hop)[i].skip(hop as int) =~= frames_of(all, frame, hop)[i
        + 1].take(frame - hop));
}

/// Accumulates samples and cuts fixed-size frames every `hop_size` samples,
/// so that consecutive frames overlap by `frame_size - hop_size` samples.
#[derive(Debug, Clone)]
pub struct Framer<T> {
    buffer: Vec<T>,
    /// Number of samples per frame.
    pub frame_size: usize,
    /// Number of samples between the starts of two consecutive frames.
    pub hop_size: usize,
}

impl<T: Copy> Framer<T> {
    /// Samples waiting in the internal buffer.
    pub closed spec fn pending(&self) -> Seq<T> {
        self.buffer@
    }

    /// Samples per frame.
    pub closed spec fn frame_len(&self) -> nat {
        self.frame_size as nat
    }

    /// Samples between the starts of consecutive frames.
    pub closed spec fn hop_len(&self) -> nat {
        self.hop_size as nat
    }

    /// Creates an empty framer.
    pub fn new(frame_size: usize, hop_size: usize) -> (f: Self)
        requires
            frame_size > 0,
            hop_size > 0,
        ensures
            f.pending().len() == 0,
            f.frame_len() == frame_size,
            f.hop_len() == hop_size,
    {
        Framer { buffer: Vec::new(), frame_size, hop_size }
    }

    /// Appends `samples` to the buffer and returns every complete frame now
    /// available, dropping `hop_size` samples after each frame.
    pub fn push_samples(&mut self, samples: &[T]) -> (frames: Vec<Vec<T>>)
        requires
            old(self).frame_len() > 0,
            old(self).hop_len() > 0,
            old(self).pending().len() + samples@.len() <= usize::MAX,
            !overruns(
                old(self).pending().len() + samples@.len(),
                old(self).frame_len(),
                old(self).hop_len(),
            ),
        ensures
            final(self).frame_len() == old(self).frame_len(),
            final(self).hop_len() == old(self).hop_len(),
            frames@.len() == frames_of(
                old(self).pending() + samples@,
                old(self).frame_len(),
                old(self).hop_len(),
            ).len(),
            forall|i: int|
                0 <= i < frames@.len() ==> #[trigger] frames@[i]@ == frames_of(
                    old(self).pending() + samples@,
                    old(self).frame_len(),
                    old(self).hop_len(),
                )[i],
            final(self).pending() == rest_of(
                old(self).pending() + samples@,
                old(self).frame_len(),
                old(self).hop_len(),
            ),
    {
        let ghost all = self.buffer@ + samples@;
        let frame = self.frame_size;
        let hop = self.hop_size;
        let mut k: usize = 0;
        while k < samples.len()
            invariant
                0 <= k <= samples@.len(),
                self.buffer@ == old(self).buffer@ + samples@.take(k as int),
                self.frame_size == frame,
                self.hop_size == hop,
            decreases samples@.len() - k,
        {
            self.buffer.push(samples[k]);
            assert(samples@.take(k as int).push(samples@[k as int]) =~= samples@.take(k + 1));
            k = k + 1;
        }
        assert(samples@.take(samples@.len() as int) =~= samples@);
        assert(self.buffer@ =~= all);
        let len = self.buffer.len();
        let mut frames: Vec<Vec<T>> = Vec::new();
        let mut pos: usize = 0;
        let ghost mut j: nat = 0;
        while len - pos >= frame
            invariant
                self.buffer@ == all,
                len == all.len(),
                frame == self.frame_size,
                hop == self.hop_size,
                frame > 0,
                hop > 0,
                pos <= len,
                pos == j * hop,
                !overruns(len as nat, frame as nat, hop as nat),
                j <= frame_count(len as nat, frame as nat, hop as nat),
                j >= 1 ==> (j - 1) * hop + frame <= len,
                frames@.len() == j,
                forall|i: int|
                    0 <= i < j ==> #[trigger] frames@[i]@ == all.subrange(
                        i * hop,
                        i * hop + frame,
                    ),
            decreases len - pos,
        {
            proof {
                lemma_hop_fits(len as nat, frame as nat, hop as nat, j);
            }
            let mut f: Vec<T> = Vec::with_capacity(frame);
            let mut t: usize = 0;
            while t < frame
                invariant
                    self.buffer@ == all,
                    len == all.len(),
                    pos + frame <= len,
                    t <= frame,
                    f@ == all.subrange(pos as int, pos + t),
                decreases frame - t,
            {
                f.push(self.buffer[pos + t]);
                assert(all.subrange(pos as int, pos + t).push(all[pos + t]) =~= all.subrange(
                    pos as int,
                    pos + t + 1,
                ));
                t = t + 1;
            }
            frames.push(f);
            pos = pos + hop;
            proof {
                assert((j + 1) * hop == j * hop + hop) by (nonlinear_arith);
                j = j + 1;
            }
        }
        proof {
            if j == 0 {
                lemma_frame_count_char(len as nat, frame as nat, hop as nat, 0);
            } else {
                lemma_frame_count_char(len as nat, frame as nat, hop as nat, j);
            }
        }
        let mut rest: Vec<T> = Vec::new();
        let mut p = pos;
        while p < len
            invariant
                self.buffer@ == all,
                len == all.len(),
                pos <= p <= len,
                rest@ == all.subrange(pos as int, p as int),
            decreases len - p,
        {
            rest.push(self.buffer[p]);
            assert(all.subrange(pos as int, p as int).push(all[p as int]) =~= all.subrange(
                pos as int,
                p + 1,
            ));
            p = p + 1;
        }
        self.buffer = rest;
        assert(self.buffer@ =~= all.skip(pos as int));
        frames
    }

    /// Whether pushing `extra` more samples would overrun the buffer (see
    /// [`overruns`]), which `push_samples` cannot carry out.
    pub fn push_would_overrun(&self, extra: usize) -> (r: bool)
        requires
            self.pending().len() + extra <= usize::MAX,
        ensures
            r == overruns(
                (self.pending().len() + extra) as nat,
                self.frame_len(),
                self.hop_len(),
            ),
    {
        let len = self.buffer.len() + extra;
        self.hop_size > self.frame_size && len >= self.frame_size && (len - self.frame_size)
            % self.hop_size < self.hop_size - self.frame_size
    }

    /// Empties the internal buffer, as at the start of a new utterance.
    pub fn reset(&mut self)
        ensures
            final(self).pending().len() == 0,
            final(self).frame_len() == old(self).frame_len(),
            final(self).hop_len() == old(self).hop_len(),
    {
        self.buffer.clear();
    }

    /// Number of samples waiting in the internal buffer.
    pub fn pending_samples(&self) -> (n: usize)
        ensures
            n == self.pending().len(),
    {
        self.buffer.len()
    }
}

} // verus!
