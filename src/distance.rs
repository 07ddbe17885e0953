use vstd::prelude::*;

verus! {

/// The square of `x`.
pub open spec fn sq(x: int) -> int {
    x * x
}

/// The squared Euclidean distance over the first `k` coordinates.
pub open spec fn sq_dist_upto(a: Seq<i64>, b: Seq<i64>, k: int) -> int
    decreases k,
{
    if k <= 0 {
        0
    } else {
        sq_dist_upto(a, b, k - 1) + sq(a[k - 1] - b[k - 1])
    }
}

/// The squared Euclidean distance between two positions.
pub open spec fn sq_dist(a: Seq<i64>, b: Seq<i64>) -> int {
    sq_dist_upto(a, b, a.len() as int)
}

/// The squared distance, saturated at the largest `u128`.
pub open spec fn sq_dist_capped(a: Seq<i64>, b: Seq<i64>) -> int {
    if sq_dist(a, b) < u128::MAX {
        sq_dist(a, b)
    } else {
        u128::MAX as int
    }
}

/// Partial squared distances are non-negative and grow with `k`.
pub proof fn lemma_sq_dist_monotone(a: Seq<i64>, b: Seq<i64>, j: int, k: int)
    requires
        0 <= j <= k,
    ensures
        0 <= sq_dist_upto(a, b, j) <= sq_dist_upto(a, b, k),
    decreases k,
{
    if j < k {
        lemma_sq_dist_monotone(a, b, j, k - 1);
        assert(sq(a[k - 1] - b[k - 1]) >= 0) by (nonlinear_arith);
    } else if k > 0 {
        lemma_sq_dist_monotone(a, b, j - 1, k - 1);
        assert(sq(a[k - 1] - b[k - 1]) >= 0) by (nonlinear_arith);
    }
}

/// A position is at distance zero from itself.
pub proof fn lemma_sq_dist_self(a: Seq<i64>, k: int)
    requires
        0 <= k,
    ensures
        sq_dist_upto(a, a, k) == 0,
    decreases k,
{
    if k > 0 {
        lemma_sq_dist_self(a, k - 1);
    }
}

/// The squared Euclidean distance between `a` and `b`, saturated at the
/// largest `u128`.
///
/// Coordinates are compared exactly; saturation only affects positions that
/// are far outside any support radius.
pub fn squared_distance<const N: usize>(a: &[i64; N], b: &[i64; N]) -> (r: u128)
    ensures
        r == sq_dist_capped(a@, b@),
{
    let mut acc: u128 = 0;
    let mut i: usize = 0;
    while i < N
        invariant
            0 <= i <= N,
            a@.len() == N,
            b@.len() == N,
            acc == (if sq_dist_upto(a@, b@, i as int) < u128::MAX {
                sq_dist_upto(a@, b@, i as int)
            } else {
                u128::MAX as int
            }),
        decreases N - i,
    {
        let d: i128 = (a[i] as i128) - (b[i] as i128);
        let m: u128 = if d < 0 {
            (-d) as u128
        } else {
            d as u128
        };
        assert(m * m < 0x1_0000_0000_0000_0000_0000_0000_0000_0000) by (nonlinear_arith)
            requires
                m < 0x1_0000_0000_0000_0000,
        ;
        let s: u128 = m * m;
        assert(s == sq(a@[i as int] - b@[i as int])) by (nonlinear_arith)
            requires
                s == m * m,
                m == d || m == -d,
                d == a@[i as int] - b@[i as int],
        ;
        proof {
            lemma_sq_dist_monotone(a@, b@, i as int, i as int);
        }
        if acc > u128::MAX - s {
            acc = u128::MAX;
        } else {
            acc = acc + s;
        }
        i = i + 1;
    }
    acc
}

} // verus!
