//! Size selection for the DCT-II used to turn log-Mel energies into MFCCs.
use vstd::prelude::*;
use vstd::arithmetic::power2::{pow2, lemma_pow2_strictly_increases, lemma_pow2_adds, lemma2_to64};

verus! {

/// The odd factors of the transform sizes that the DCT setup accepts.
pub open spec fn dct_factor(f: nat) -> bool {
    f == 1 || f == 3 || f == 5 || f == 15
}

/// A size the DCT setup accepts: `f * 2^k` with `f` in {1, 3, 5, 15} and
/// `k >= 4`.
pub open spec fn valid_dct_size(m: nat) -> bool {
    exists|f: nat, k: nat| dct_factor(f) && k >= 4 && m == f * pow2(k)
}

proof fn lemma_mul_lt(f: nat, a: nat, b: nat)
    requires
        f > 0,
        a < b,
    ensures
        f * a < f * b,
{
    assert(f * a < f * b) by (nonlinear_arith)
        requires
            f > 0,
            a < b,
    ;
}

/// Least `f * 2^k` with `k >= 4` that is at least `n`, for one factor.
fn least_scaled(f: usize, n: usize) -> (size: usize)
    requires
        dct_factor(f as nat),
        n <= usize::MAX / 2 + 1,
    ensures
        size >= n,
        exists|k: nat| k >= 4 && size == f * pow2(k),
        forall|k: nat| k >= 4 && #[trigger] (f * pow2(k)) >= n ==> size <= f * pow2(k),
{
    proof {
        lemma2_to64();
    }
    let mut size = f * 16;
    let ghost mut k: nat = 4;
    while size < n
        invariant
            dct_factor(f as nat),
            n <= usize::MAX / 2 + 1,
            k >= 4,
            size == f * pow2(k),
            size >= 16,
            forall|j: nat| 4 <= j < k ==> #[trigger] (f * pow2(j)) < n,
        decreases usize::MAX - size,
    {
        proof {
            lemma_pow2_adds(k, 1);
            lemma2_to64();
            assert(f * pow2(k + 1) == 2 * (f * pow2(k))) by (nonlinear_arith)
                requires
                    pow2(k + 1) == pow2(k) * 2,
            ;
        }
        size = size * 2;
        proof {
            k = k + 1;
        }
    }
    proof {
        assert forall|j: nat| j >= 4 && #[trigger] (f * pow2(j)) >= n implies size <= f * pow2(j) by {
            if j < k {
                assert(f * pow2(j) < n);
            } else if j > k {
                lemma_pow2_strictly_increases(k, j);
                lemma_mul_lt(f as nat, pow2(k), pow2(j));
            }
        }
    }
    size
}

/// The smallest size that the DCT setup accepts and that is at least `n`.
pub fn next_valid_dct_size(n: usize) -> (size: usize)
    requires
        n <= usize::MAX / 2 + 1,
    ensures
        size >= n,
        valid_dct_size(size as nat),
        forall|m: nat| valid_dct_size(m) && m >= n ==> size <= m,
{
    let s1 = least_scaled(1, n);
    let s3 = least_scaled(3, n);
    let s5 = least_scaled(5, n);
    let s15 = least_scaled(15, n);
    let mut best = s1;
    if s3 < best {
        best = s3;
    }
    if s5 < best {
        best = s5;
    }
    if s15 < best {
        best = s15;
    }
    proof {
        assert forall|m: nat| valid_dct_size(m) && m >= n implies best <= m by {
            let (f, k) = choose|f: nat, k: nat| dct_factor(f) && k >= 4 && m == f * pow2(k);
            assert(f * pow2(k) >= n);
        }
        let (f, k) = if best == s1 {
            (1nat, choose|k: nat| k >= 4 && s1 == 1 * pow2(k))
        } else if best == s3 {
            (3nat, choose|k: nat| k >= 4 && s3 == 3 * pow2(k))
        } else if best == s5 {
            (5nat, choose|k: nat| k >= 4 && s5 == 5 * pow2(k))
        } else {
            (15nat, choose|k: nat| k >= 4 && s15 == 15 * pow2(k))
        };
        assert(dct_factor(f) && k >= 4 && best == f * pow2(k));
    }
    best
}

} // verus!
