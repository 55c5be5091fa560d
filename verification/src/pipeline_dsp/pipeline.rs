//! The DSP chain on a batch of samples: framing, one processing step per
//! frame, then accumulation into MFCC matrices. The per-frame processing
//! (pre-emphasis, window, FFT, Mel filters, log, DCT) is floating-point
//! work handed in by the caller.
use vstd::prelude::*;
use crate::pipeline_dsp::framing::{frame_count, frames_of, overruns, rest_of, lemma_frame_count_bounds, Framer};
use crate::pipeline_dsp::processor::{accumulate_all, accumulate_batch, emitted, MfccAccumulator, MATRIX_ROWS};

verus! {

/// `inputs` are the frames `frames`, in order, and `process` turned
/// `inputs[i]` into `mfccs[i]`.
pub open spec fn processed<T, P: Fn(&Vec<T>) -> [T; 13]>(
    process: P,
    frames: Seq<Seq<T>>,
    inputs: Seq<Vec<T>>,
    mfccs: Seq<[T; 13]>,
) -> bool {
    &&& inputs.len() == frames.len()
    &&& mfccs.len() == frames.len()
    &&& forall|i: int| 0 <= i < frames.len() ==> (#[trigger] inputs[i])@ == frames[i]
    &&& forall|i: int| 0 <= i < frames.len() ==> call_ensures(process, (&inputs[i],), #[trigger] mfccs[i])
}

/// What a batch gives: `process` turned the frames cut into `mfccs`, the
/// accumulator went from `before` to `after` by pushing them, and `out`
/// holds the matrices emitted meanwhile, in order, rows past the capacity
/// filled with `T::default()`.
pub open spec fn batch_outcome<T: Default, P: Fn(&Vec<T>) -> [T; 13]>(
    process: P,
    frames: Seq<Seq<T>>,
    before: Seq<[T; 13]>,
    capacity: nat,
    after: Seq<[T; 13]>,
    out: Seq<[[T; 13]; 98]>,
    inputs: Seq<Vec<T>>,
    mfccs: Seq<[T; 13]>,
) -> bool {
    let matrices = emitted(before, mfccs, capacity);
    &&& processed(process, frames, inputs, mfccs)
    &&& after == accumulate_all(before, mfccs, capacity)
    &&& out.len() == matrices.len()
    &&& forall|j: int, i: int|
        0 <= j < out.len() && 0 <= i < capacity ==> #[trigger] out[j]@[i] == matrices[j][i]
    &&& forall|j: int, i: int, c: int|
        0 <= j < out.len() && capacity <= i < 98 && 0 <= c < 13 ==> call_ensures(
            T::default,
            (),
            #[trigger] out[j]@[i]@[c],
        )
}

proof fn lemma_frame_count_le_len(len: nat, frame: nat, hop: nat)
    requires
        frame > 0,
        hop > 0,
    ensures
        frame_count(len, frame, hop) <= len,
{
    lemma_frame_count_bounds(len, frame, hop);
    let k = frame_count(len, frame, hop);
    if k >= 1 {
        assert((k - 1) * hop >= k - 1) by (nonlinear_arith)
            requires
                k >= 1,
                hop >= 1,
        ;
    }
}

/// Processes a batch of samples: pushes them into `framer`, runs `process`
/// on each frame cut, in order, and pushes the results into `acc`,
/// returning a matrix after each push that leaves `acc` full (the one
/// `get_matrix` gives then), in order.
pub fn process_batch<T: Copy + Default, P: Fn(&Vec<T>) -> [T; 13]>(
    framer: &mut Framer<T>,
    acc: &mut MfccAccumulator<T>,
    samples: &[T],
    process: P,
) -> (out: Vec<[[T; 13]; 98]>)
    requires
        old(framer).frame_len() > 0,
        old(framer).hop_len() > 0,
        old(framer).pending().len() + samples@.len() <= usize::MAX,
        !overruns(
            old(framer).pending().len() + samples@.len(),
            old(framer).frame_len(),
            old(framer).hop_len(),
        ),
        old(acc).capacity() <= MATRIX_ROWS,
        old(acc).frames().len() + old(framer).pending().len() + samples@.len() < usize::MAX,
        forall|v: &Vec<T>| call_requires(process, (v,)),
    ensures
        final(framer).frame_len() == old(framer).frame_len(),
        final(framer).hop_len() == old(framer).hop_len(),
        final(framer).pending() == rest_of(
            old(framer).pending() + samples@,
            old(framer).frame_len(),
            old(framer).hop_len(),
        ),
        final(acc).capacity() == old(acc).capacity(),
        exists|inputs: Seq<Vec<T>>, mfccs: Seq<[T; 13]>|
            #[trigger] batch_outcome(
                process,
                frames_of(
                    old(framer).pending() + samples@,
                    old(framer).frame_len(),
                    old(framer).hop_len(),
                ),
                old(acc).frames(),
                old(acc).capacity(),
                final(acc).frames(),
                out@,
                inputs,
                mfccs,
            ),
{
    let ghost all = old(framer).pending() + samples@;
    let ghost f = old(framer).frame_len();
    let ghost h = old(framer).hop_len();
    let frames = framer.push_samples(samples);
    let ghost cut = frames_of(all, f, h);
    proof {
        lemma_frame_count_le_len(all.len(), f, h);
    }
    let mut mfccs: Vec<[T; 13]> = Vec::new();
    let ghost mut inputs: Seq<Vec<T>> = Seq::empty();
    let mut i: usize = 0;
    while i < frames.len()
        invariant
            frames@.len() == cut.len(),
            forall|k: int| 0 <= k < cut.len() ==> #[trigger] frames@[k]@ == cut[k],
            forall|v: &Vec<T>| call_requires(process, (v,)),
            i <= frames@.len(),
            processed(process, cut.take(i as int), inputs, mfccs@),
        decreases frames@.len() - i,
    {
        let m = process(&frames[i]);
        proof {
            let old_inputs = inputs;
            inputs = inputs.push(frames@[i as int]);
            assert forall|k: int| 0 <= k < i + 1 implies (#[trigger] inputs[k])@ == cut.take(i + 1)[k] by {
                if k < i {
                    assert(inputs[k] == old_inputs[k]);
                }
            }
        }
        let ghost old_m = mfccs@;
        mfccs.push(m);
        proof {
            assert forall|k: int| 0 <= k < i + 1 implies call_ensures(process, (&inputs[k],), #[trigger] mfccs@[k]) by {
                if k < i {
                    assert(mfccs@[k] == old_m[k]);
                }
            }
        }
        i = i + 1;
    }
    assert(cut.take(cut.len() as int) =~= cut);
    let ghost ms = mfccs@;
    let out = accumulate_batch(acc, mfccs);
    assert(batch_outcome(process, cut, old(acc).frames(), old(acc).capacity(), acc.frames(), out@, inputs, ms));
    out
}

} // verus!
