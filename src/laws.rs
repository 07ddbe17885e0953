use vstd::prelude::*;
use crate::distance::{sq_dist, sq_dist_upto, lemma_sq_dist_self};
use crate::field::{
    density_of, density_upto, influence_at, interp_of, interp_upto, share,
    UniformField, UniformQuantityField,
};
use crate::kernel::{lemma_cube_monotone, FieldKernel, Kernel, Poly6};

verus! {

/// The Poly6 kernel's influence is zero from the support radius on, and never
/// grows with distance inside it.
pub proof fn lemma_poly6_compact_and_monotone<const N: usize>(
    kernel: FieldKernel<N, Poly6>,
    r2_near: int,
    r2_far: int,
)
    requires
        kernel.wf(),
        0 <= r2_near <= r2_far,
    ensures
        r2_far >= kernel.support() * kernel.support() ==> kernel.influence_spec(r2_far) == 0,
        kernel.influence_spec(r2_far) <= kernel.influence_spec(r2_near),
{
    let hh = kernel.support() * kernel.support();
    kernel.lemma_influence_bounds(r2_near);
    kernel.lemma_influence_bounds(r2_far);
    if r2_far < hh {
        lemma_cube_monotone(hh - r2_far, hh - r2_near);
    }
}

/// The squared distance is symmetric.
pub proof fn lemma_sq_dist_symmetric(a: Seq<i64>, b: Seq<i64>, k: int)
    requires
        0 <= k,
    ensures
        sq_dist_upto(a, b, k) == sq_dist_upto(b, a, k),
    decreases k,
{
    if k > 0 {
        lemma_sq_dist_symmetric(a, b, k - 1);
        assert((a[k - 1] - b[k - 1]) * (a[k - 1] - b[k - 1]) == (b[k - 1] - a[k - 1]) * (b[k
            - 1] - a[k - 1])) by (nonlinear_arith);
    }
}

/// A query position at or beyond the support radius of every contributor
/// has raw density zero, so no quantity or gradient is defined there.
pub proof fn lemma_beyond_support<const N: usize, K: Kernel + Copy>(
    kernel: FieldKernel<N, K>,
    positions: Seq<Seq<i64>>,
    at: Seq<i64>,
)
    requires
        kernel.wf(),
        forall|j: int|
            0 <= j < positions.len() ==> #[trigger] sq_dist(positions[j], at) >= kernel.support()
                * kernel.support(),
    ensures
        density_of(kernel, positions, at) == 0,
{
    lemma_beyond_support_upto(kernel, positions, at, positions.len() as int);
}

proof fn lemma_beyond_support_upto<const N: usize, K: Kernel + Copy>(
    kernel: FieldKernel<N, K>,
    positions: Seq<Seq<i64>>,
    at: Seq<i64>,
    n: int,
)
    requires
        kernel.wf(),
        0 <= n <= positions.len(),
        forall|j: int|
            0 <= j < positions.len() ==> #[trigger] sq_dist(positions[j], at) >= kernel.support()
                * kernel.support(),
    ensures
        density_upto(kernel, positions, at, n) == 0,
    decreases n,
{
    if n > 0 {
        lemma_beyond_support_upto(kernel, positions, at, n - 1);
        kernel.lemma_influence_bounds(sq_dist(positions[n - 1], at));
    }
}

/// A lone contributor: the raw density at its position is the kernel's
/// influence at distance zero, and the quantity field sampled from it gives
/// back exactly the contributor's quantity at that position.
pub proof fn lemma_single_contributor<const N: usize, K: Kernel + Copy, T>(
    field: UniformField<N, K, T>,
    sampled: UniformQuantityField<N, K>,
)
    requires
        field.wf(),
        field.contributors().len() == 1,
        sampled.kernel_spec() == field.kernel_spec(),
        sampled.samples().len() == 1,
        sampled.samples()[0].position == field.contributors()[0].0,
        sampled.samples()[0].density == density_of(
            field.kernel_spec(),
            field.positions(),
            field.contributors()[0].0@,
        ),
    ensures
        density_of(field.kernel_spec(), field.positions(), field.contributors()[0].0@)
            == field.kernel_spec().influence_spec(0),
        density_of(sampled.kernel_spec(), sampled.positions(), field.contributors()[0].0@) != 0,
        interp_of(sampled.kernel_spec(), sampled.samples(), field.contributors()[0].0@)
            == sampled.samples()[0].quantity,
{
    let kernel = field.kernel_spec();
    let p = field.contributors()[0].0@;
    let s = sampled.samples()[0];
    lemma_sq_dist_self(p, p.len() as int);
    assert(field.positions()[0] == p);
    assert(density_upto(kernel, field.positions(), p, 0) == 0);
    assert(influence_at(kernel, p, p) == kernel.peak());
    assert(density_of(kernel, field.positions(), p) == kernel.peak());
    kernel.lemma_influence_bounds(0);
    assert(sampled.positions()[0] == p);
    assert(density_upto(kernel, sampled.positions(), p, 0) == 0);
    let w = kernel.peak();
    let q = s.quantity as int;
    assert(share(w, q, w) == q) by (nonlinear_arith)
        requires
            w > 0,
            share(w, q, w) == (if w * q >= 0 {
                (w * q) / w
            } else {
                -((-(w * q)) / w)
            }),
    {
        if w * q >= 0 {
            assert((w * q) / w == q);
        } else {
            assert((-(w * q)) == w * (-q));
            assert((w * (-q)) / w == -q);
        }
    }
    assert(interp_upto(kernel, sampled.samples(), p, 0) == 0);
}

/// A symmetric pair: for two contributors at equal distance from a query
/// position `m`, sampled with equal quantities, both samples hold the same raw
/// density (the peak plus the influence of the other contributor) and
/// contribute equal shares at `m`, so the quantity interpolated there is
/// twice one share.
pub proof fn lemma_symmetric_pair<const N: usize, K: Kernel + Copy, T>(
    field: UniformField<N, K, T>,
    sampled: UniformQuantityField<N, K>,
    m: Seq<i64>,
)
    requires
        field.wf(),
        field.contributors().len() == 2,
        sq_dist(field.contributors()[0].0@, m) == sq_dist(field.contributors()[1].0@, m),
        sampled.kernel_spec() == field.kernel_spec(),
        sampled.samples().len() == 2,
        forall|j: int|
            0 <= j < 2 ==> {
                &&& (#[trigger] sampled.samples()[j]).position == field.contributors()[j].0
                &&& sampled.samples()[j].density == density_of(
                    field.kernel_spec(),
                    field.positions(),
                    field.contributors()[j].0@,
                )
            },
        sampled.samples()[0].quantity == sampled.samples()[1].quantity,
    ensures
        sampled.samples()[0].density == sampled.samples()[1].density,
        sampled.samples()[0].density == field.kernel_spec().peak() + influence_at(
            field.kernel_spec(),
            field.contributors()[0].0@,
            field.contributors()[1].0@,
        ),
        interp_of(sampled.kernel_spec(), sampled.samples(), m) == 2 * share(
            influence_at(field.kernel_spec(), field.contributors()[0].0@, m),
            sampled.samples()[0].quantity as int,
            sampled.samples()[0].density as int,
        ),
{
    let kernel = field.kernel_spec();
    let a = field.contributors()[0].0@;
    let b = field.contributors()[1].0@;
    let ps = field.positions();
    assert(ps[0] == a);
    assert(ps[1] == b);
    let s0 = sampled.samples()[0];
    let s1 = sampled.samples()[1];
    lemma_sq_dist_self(a, a.len() as int);
    lemma_sq_dist_self(b, b.len() as int);
    lemma_sq_dist_symmetric(a, b, a.len() as int);
    assert(a.len() == N && b.len() == N);
    assert(density_upto(kernel, ps, a, 0) == 0);
    assert(density_upto(kernel, ps, b, 0) == 0);
    assert(influence_at(kernel, a, b) == influence_at(kernel, b, a));
    assert(influence_at(kernel, a, a) == kernel.peak());
    assert(influence_at(kernel, b, b) == kernel.peak());
    assert(ps.len() == 2);
    assert(density_upto(kernel, ps, a, 1) == kernel.peak());
    assert(density_upto(kernel, ps, b, 1) == influence_at(kernel, a, b));
    assert(density_of(kernel, ps, a) == kernel.peak() + influence_at(kernel, a, b));
    assert(density_of(kernel, ps, b) == kernel.peak() + influence_at(kernel, a, b));
    assert(s0.position == field.contributors()[0].0);
    assert(s1.position == field.contributors()[1].0);
    assert(interp_upto(kernel, sampled.samples(), m, 0) == 0);
    assert(influence_at(kernel, s0.position@, m) == influence_at(kernel, s1.position@, m));
    let sh = share(influence_at(kernel, a, m), s0.quantity as int, s0.density as int);
    assert(interp_upto(kernel, sampled.samples(), m, 1) == sh);
    assert(interp_upto(kernel, sampled.samples(), m, 2) == sh + sh);
}

} // verus!
