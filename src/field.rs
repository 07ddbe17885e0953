use vstd::prelude::*;
use crate::distance::{sq_dist, squared_distance, lemma_sq_dist_monotone, lemma_sq_dist_self};
use crate::kernel::{FieldKernel, Kernel, MAX_WEIGHT};

verus! {

/// Largest number of contributors that a field holds.
pub const MAX_CONTRIBUTORS: usize = 0xFFFF_FFFF;

/// The influence of a contributor at `pos` on the query position `at`.
pub open spec fn influence_at<const N: usize, K: Kernel + Copy>(
    kernel: FieldKernel<N, K>,
    pos: Seq<i64>,
    at: Seq<i64>,
) -> int {
    kernel.influence_spec(sq_dist(pos, at))
}

/// The raw density at `at` due to the contributors at the first `n` of the
/// positions `ps`.
pub open spec fn density_upto<const N: usize, K: Kernel + Copy>(
    kernel: FieldKernel<N, K>,
    ps: Seq<Seq<i64>>,
    at: Seq<i64>,
    n: int,
) -> int
    decreases n,
{
    if n <= 0 {
        0
    } else {
        density_upto(kernel, ps, at, n - 1) + influence_at(kernel, ps[n - 1], at)
    }
}

/// The raw density at `at`: the sum of the influences of contributors at all
/// of the positions `ps`.
pub open spec fn density_of<const N: usize, K: Kernel + Copy>(
    kernel: FieldKernel<N, K>,
    ps: Seq<Seq<i64>>,
    at: Seq<i64>,
) -> int {
    density_upto(kernel, ps, at, ps.len() as int)
}

/// The influence at `at` of a contributor at `pos`, from its saturated
/// squared distance, as the field's loops compute it.
pub fn influence_between<const N: usize, K: Kernel + Copy>(
    kernel: &FieldKernel<N, K>,
    pos: &[i64; N],
    at: &[i64; N],
) -> (w: u128)
    requires
        kernel.wf(),
    ensures
        w == influence_at(*kernel, pos@, at@),
        w <= kernel.peak(),
{
    let r2 = squared_distance(pos, at);
    let h = kernel.support_radius();
    proof {
        lemma_sq_dist_monotone(pos@, at@, 0, pos@.len() as int);
        kernel.lemma_influence_bounds(sq_dist(pos@, at@));
        assert(h * h <= 0x10_0000) by (nonlinear_arith)
            requires
                1 <= h <= 1024,
        ;
    }
    if r2 <= (h as u128) * (h as u128) {
        kernel.influence(r2)
    } else {
        0
    }
}

/// Partial densities are non-negative, grow with `n`, and each term is at
/// most the kernel's peak.
pub proof fn lemma_density_bounds<const N: usize, K: Kernel + Copy>(
    kernel: FieldKernel<N, K>,
    ps: Seq<Seq<i64>>,
    at: Seq<i64>,
    n: int,
)
    requires
        kernel.wf(),
        0 <= n <= ps.len(),
    ensures
        0 <= density_upto(kernel, ps, at, n) <= n * kernel.peak(),
        forall|j: int| 0 <= j < n ==> influence_at(kernel, ps[j], at)
            <= density_upto(kernel, ps, at, n),
    decreases n,
{
    if n > 0 {
        lemma_density_bounds(kernel, ps, at, n - 1);
        lemma_sq_dist_monotone(ps[n - 1], at, 0, ps[n - 1].len() as int);
        kernel.lemma_influence_bounds(sq_dist(ps[n - 1], at));
        assert((n - 1) * kernel.peak() + kernel.peak() == n * kernel.peak()) by (nonlinear_arith);
        assert forall|j: int| 0 <= j < n - 1 implies influence_at(kernel, ps[j], at)
            <= density_upto(kernel, ps, at, n) by {
            lemma_sq_dist_monotone(ps[j], at, 0, ps[j].len() as int);
            kernel.lemma_influence_bounds(sq_dist(ps[j], at));
        }
    } else {
        assert(0 * kernel.peak() == 0) by (nonlinear_arith);
    }
}

/// `a / d` rounded toward zero, as integer division does.
pub open spec fn div_toward_zero(a: int, d: int) -> int {
    if a >= 0 {
        a / d
    } else {
        -((-a) / d)
    }
}

/// `w * q / d` rounded toward zero.
pub open spec fn share(w: int, q: int, d: int) -> int {
    div_toward_zero(w * q, d)
}

/// The size of `x`.
pub open spec fn abs(x: int) -> int {
    if x >= 0 {
        x
    } else {
        -x
    }
}

/// Division toward zero by a positive divisor never grows the size.
pub proof fn lemma_div_toward_zero_bound(a: int, d: int)
    requires
        0 < d,
    ensures
        abs(div_toward_zero(a, d)) <= abs(a),
{
    assert(0 <= abs(a) / d <= abs(a)) by (nonlinear_arith)
        requires
            0 <= abs(a),
            0 < d,
    ;
}

/// `a / d` rounded toward zero.
pub fn divide_toward_zero(a: i128, d: u128) -> (r: i128)
    requires
        0 < d,
        a > i128::MIN,
    ensures
        r == div_toward_zero(a as int, d as int),
        abs(r as int) <= abs(a as int),
{
    proof {
        lemma_div_toward_zero_bound(a as int, d as int);
    }
    if a < 0 {
        let m: u128 = (-a) as u128;
        -((m / d) as i128)
    } else {
        let m: u128 = a as u128;
        (m / d) as i128
    }
}

/// A share is no larger in size than the quantity it weighs, when the weight
/// is at most the divisor.
pub proof fn lemma_share_bound(w: int, q: int, d: int)
    requires
        0 <= w <= d,
        0 < d,
    ensures
        -(if q >= 0 { q } else { -q }) <= share(w, q, d) <= (if q >= 0 { q } else { -q }),
{
    let a = if q >= 0 { q } else { -q };
    assert(0 <= w * a <= d * a) by (nonlinear_arith)
        requires
            0 <= w <= d,
            0 <= a,
    ;
    assert((w * a) / d <= a) by (nonlinear_arith)
        requires
            0 <= w * a <= d * a,
            0 < d,
    ;
    assert(w * q == w * a || w * q == -(w * a)) by (nonlinear_arith)
        requires
            a == q || a == -q,
    ;
    assert(0 <= (w * a) / d) by (nonlinear_arith)
        requires
            0 <= w * a,
            0 < d,
    ;
    if w * q < 0 {
        assert(w * a > 0);
        assert(-(w * q) == w * a);
    } else if w * q > 0 {
        assert(w * q == w * a);
    } else {
        assert(w * q == 0);
        assert(0int / d == 0);
    }
}

/// `w * q / d` rounded toward zero.
pub fn weighted_share(w: u128, q: i32, d: u128) -> (r: i128)
    requires
        w <= d,
        0 < d,
        w <= MAX_WEIGHT,
    ensures
        r == share(w as int, q as int, d as int),
        -0x8000_0000 <= r <= 0x8000_0000,
{
    assert(-MAX_WEIGHT * 0x8000_0000 <= w * q <= MAX_WEIGHT * 0x8000_0000) by (nonlinear_arith)
        requires
            w <= MAX_WEIGHT,
            -0x8000_0000 <= q <= 0x8000_0000,
    ;
    let wq: i128 = (w as i128) * (q as i128);
    proof {
        lemma_share_bound(w as int, q as int, d as int);
    }
    divide_toward_zero(wq, d)
}

/// One interpolation sample: a position, the raw density there, and the
/// quantity carried.
#[derive(Clone, Copy)]
pub struct QuantitySample<const N: usize> {
    pub position: [i64; N],
    pub density: u128,
    pub quantity: i32,
}

/// The positions of a list of samples.
pub open spec fn sample_positions<const N: usize>(s: Seq<QuantitySample<N>>) -> Seq<Seq<i64>> {
    s.map_values(|e: QuantitySample<N>| e.position@)
}

/// The interpolated quantity at `at` from the first `n` samples of `s`.
pub open spec fn interp_upto<const N: usize, K: Kernel + Copy>(
    kernel: FieldKernel<N, K>,
    s: Seq<QuantitySample<N>>,
    at: Seq<i64>,
    n: int,
) -> int
    decreases n,
{
    if n <= 0 {
        0
    } else {
        interp_upto(kernel, s, at, n - 1) + share(
            influence_at(kernel, s[n - 1].position@, at),
            s[n - 1].quantity as int,
            s[n - 1].density as int,
        )
    }
}

/// The interpolated quantity at `at`: the sum over all samples of influence
/// times quantity over density, each term rounded toward zero.
pub open spec fn interp_of<const N: usize, K: Kernel + Copy>(
    kernel: FieldKernel<N, K>,
    s: Seq<QuantitySample<N>>,
    at: Seq<i64>,
) -> int {
    interp_upto(kernel, s, at, s.len() as int)
}

/// Why a derived field could not be built.
#[derive(Debug, Clone, Copy, PartialEq, Eq, Structural)]
pub enum FieldError {
    /// The finite-difference step is zero.
    ZeroStep,
    /// A stepped position does not fit the coordinate type.
    CoordinateOverflow,
    /// The quantity is undefined (zero density) at a stepped position.
    UndefinedQuantity,
}

/// Largest size of a gradient component that a gradient field holds.
pub const MAX_GRADIENT: i128 = 0x8000_0000_0000_0000;

/// `p` moved by `delta` along `axis`.
pub open spec fn stepped(p: Seq<i64>, axis: int, delta: int) -> Seq<i64> {
    p.update(axis, (p[axis] + delta) as i64)
}

/// Moving `p` by `delta` along `axis` stays within the coordinate type.
pub open spec fn step_fits(p: Seq<i64>, axis: int, delta: int) -> bool {
    p[axis] + delta <= i64::MAX
}

/// The forward-difference estimate of the partial derivative along `axis`
/// of the quantity field at sample `s`: the interpolated quantity one step
/// along the axis, less the sample's own quantity, over the step, rounded
/// toward zero.
pub open spec fn forward_difference<const N: usize, K: Kernel + Copy>(
    kernel: FieldKernel<N, K>,
    samples: Seq<QuantitySample<N>>,
    s: QuantitySample<N>,
    axis: int,
    delta: int,
) -> int {
    div_toward_zero(
        interp_of(kernel, samples, stepped(s.position@, axis, delta)) - s.quantity,
        delta,
    )
}

/// One gradient sample: a position, the raw density there, and the gradient
/// of the quantity.
#[derive(Clone, Copy)]
pub struct GradientSample<const N: usize> {
    pub position: [i64; N],
    pub density: u128,
    pub gradient: [i128; N],
}

/// The positions of a list of gradient samples.
pub open spec fn gradient_positions<const N: usize>(s: Seq<GradientSample<N>>) -> Seq<Seq<i64>> {
    s.map_values(|e: GradientSample<N>| e.position@)
}

/// Component `axis` of the interpolated gradient at `at` from the first `n`
/// samples of `s`.
pub open spec fn gradient_upto<const N: usize, K: Kernel + Copy>(
    kernel: FieldKernel<N, K>,
    s: Seq<GradientSample<N>>,
    at: Seq<i64>,
    axis: int,
    n: int,
) -> int
    decreases n,
{
    if n <= 0 {
        0
    } else {
        gradient_upto(kernel, s, at, axis, n - 1) + share(
            influence_at(kernel, s[n - 1].position@, at),
            s[n - 1].gradient@[axis] as int,
            s[n - 1].density as int,
        )
    }
}

/// Component `axis` of the interpolated gradient at `at`.
pub open spec fn gradient_of<const N: usize, K: Kernel + Copy>(
    kernel: FieldKernel<N, K>,
    s: Seq<GradientSample<N>>,
    at: Seq<i64>,
    axis: int,
) -> int {
    gradient_upto(kernel, s, at, axis, s.len() as int)
}

/// A field of equal-mass contributors in `N`-dimensional space, each carrying
/// a payload of type `T`.
pub struct UniformField<const N: usize, K: Kernel + Copy, T> {
    kernel: FieldKernel<N, K>,
    particles: Vec<([i64; N], T)>,
}

impl<const N: usize, K: Kernel + Copy, T> UniformField<N, K, T> {
    /// The field's kernel.
    pub closed spec fn kernel_spec(&self) -> FieldKernel<N, K> {
        self.kernel
    }

    /// The contributors, in the order in which they were added.
    pub closed spec fn contributors(&self) -> Seq<([i64; N], T)> {
        self.particles@
    }

    /// The positions of the contributors.
    pub open spec fn positions(&self) -> Seq<Seq<i64>> {
        self.contributors().map_values(|c: ([i64; N], T)| c.0@)
    }

    /// The kernel is well formed and the field is not over capacity.
    pub open spec fn wf(&self) -> bool {
        &&& self.kernel_spec().wf()
        &&& self.contributors().len() <= MAX_CONTRIBUTORS
    }

    /// Creates an empty field over `kernel`.
    pub fn new(kernel: FieldKernel<N, K>) -> (r: Self)
        ensures
            r.kernel_spec() == kernel,
            r.contributors() == Seq::<([i64; N], T)>::empty(),
    {
        UniformField { kernel, particles: Vec::new() }
    }

    /// The number of contributors.
    pub fn len(&self) -> (n: usize)
        ensures
            n == self.contributors().len(),
    {
        self.particles.len()
    }

    /// Adds a contributor at `position` carrying `particle`.
    pub fn contribute(&mut self, position: [i64; N], particle: T)
        requires
            old(self).contributors().len() < MAX_CONTRIBUTORS,
        ensures
            final(self).kernel_spec() == old(self).kernel_spec(),
            final(self).contributors() == old(self).contributors().push((position, particle)),
    {
        self.particles.push((position, particle));
    }

    /// The raw density at `position`: the sum, over every contributor within
    /// the support radius, of its influence.
    pub fn density(&self, position: &[i64; N]) -> (d: u128)
        requires
            self.wf(),
        ensures
            d == density_of(self.kernel_spec(), self.positions(), position@),
            d <= self.contributors().len() * self.kernel_spec().peak(),
    {
        let mut acc: u128 = 0;
        let mut i: usize = 0;
        let n = self.particles.len();
        while i < n
            invariant
                self.wf(),
                n == self.particles@.len(),
                0 <= i <= n,
                acc == density_upto(self.kernel, self.positions(), position@, i as int),
            decreases n - i,
        {
            proof {
                lemma_density_bounds(self.kernel, self.positions(), position@, i as int + 1);
                self.kernel.lemma_influence_bounds(0);
                assert((i as int + 1) * self.kernel.peak() <= MAX_CONTRIBUTORS * MAX_WEIGHT)
                    by (nonlinear_arith)
                    requires
                        i + 1 <= MAX_CONTRIBUTORS,
                        0 <= self.kernel.peak() <= MAX_WEIGHT,
                ;
            }
            let w = influence_between(&self.kernel, &self.particles[i].0, position);
            acc = acc + w;
            i = i + 1;
        }
        proof {
            lemma_density_bounds(self.kernel, self.positions(), position@, n as int);
        }
        acc
    }

    /// Samples a quantity from every contributor, together with the raw
    /// density at the contributor's own position (its own influence
    /// included).
    pub fn sample<F: Fn(&T) -> i32>(&self, to_quantity: F) -> (r: UniformQuantityField<N, K>)
        requires
            self.wf(),
            forall|t: &T| to_quantity.requires((t,)),
        ensures
            r.wf(),
            r.kernel_spec() == self.kernel_spec(),
            r.samples().len() == self.contributors().len(),
            forall|j: int|
                0 <= j < self.contributors().len() ==> {
                    &&& (#[trigger] r.samples()[j]).position == self.contributors()[j].0
                    &&& r.samples()[j].density == density_of(
                        self.kernel_spec(),
                        self.positions(),
                        self.contributors()[j].0@,
                    )
                    &&& to_quantity.ensures((&self.contributors()[j].1,), r.samples()[j].quantity)
                },
    {
        let n = self.particles.len();
        let mut quantities: Vec<QuantitySample<N>> = Vec::new();
        let mut i: usize = 0;
        while i < n
            invariant
                self.wf(),
                forall|t: &T| to_quantity.requires((t,)),
                n == self.particles@.len(),
                0 <= i <= n,
                quantities@.len() == i,
                forall|j: int|
                    0 <= j < i ==> {
                        &&& (#[trigger] quantities@[j]).position == self.particles@[j].0
                        &&& quantities@[j].density == density_of(
                            self.kernel,
                            self.positions(),
                            self.particles@[j].0@,
                        )
                        &&& to_quantity.ensures((&self.particles@[j].1,), quantities@[j].quantity)
                        &&& self.kernel.peak() <= quantities@[j].density
                        &&& quantities@[j].density <= MAX_CONTRIBUTORS * MAX_WEIGHT
                    },
            decreases n - i,
        {
            let position = self.particles[i].0;
            let quantity = to_quantity(&self.particles[i].1);
            let density = self.density(&position);
            proof {
                let ps = self.positions();
                lemma_density_bounds(self.kernel, ps, position@, n as int);
                assert(ps[i as int] == position@);
                lemma_sq_dist_self(position@, position@.len() as int);
                assert(influence_at(self.kernel, ps[i as int], position@) == self.kernel.peak());
                self.kernel.lemma_influence_bounds(0);
                assert(n * self.kernel.peak() <= MAX_CONTRIBUTORS * MAX_WEIGHT)
                    by (nonlinear_arith)
                    requires
                        n <= MAX_CONTRIBUTORS,
                        0 <= self.kernel.peak() <= MAX_WEIGHT,
                ;
            }
            quantities.push(QuantitySample { position, density, quantity });
            i = i + 1;
        }
        UniformQuantityField { kernel: self.kernel, quantities }
    }
}

/// A field of interpolated quantities, sampled from a `UniformField`.
pub struct UniformQuantityField<const N: usize, K: Kernel + Copy> {
    kernel: FieldKernel<N, K>,
    quantities: Vec<QuantitySample<N>>,
}

impl<const N: usize, K: Kernel + Copy> UniformQuantityField<N, K> {
    /// The field's kernel.
    pub closed spec fn kernel_spec(&self) -> FieldKernel<N, K> {
        self.kernel
    }

    /// The samples, one for each contributor of the field sampled.
    pub closed spec fn samples(&self) -> Seq<QuantitySample<N>> {
        self.quantities@
    }

    /// The positions of the samples.
    pub open spec fn positions(&self) -> Seq<Seq<i64>> {
        sample_positions(self.samples())
    }

    /// The kernel is well formed, the field is not over capacity, and every
    /// stored density is at least the kernel's peak (each sample counts its
    /// own influence) and fits the field's capacity.
    pub open spec fn wf(&self) -> bool {
        &&& self.kernel_spec().wf()
        &&& self.samples().len() <= MAX_CONTRIBUTORS
        &&& forall|j: int|
            0 <= j < self.samples().len() ==> {
                &&& self.kernel_spec().peak() <= (#[trigger] self.samples()[j]).density
                &&& self.samples()[j].density <= MAX_CONTRIBUTORS * MAX_WEIGHT
            }
    }

    /// The number of samples.
    pub fn len(&self) -> (n: usize)
        ensures
            n == self.samples().len(),
    {
        self.quantities.len()
    }

    /// Interpolates the quantity at `position`.
    ///
    /// Returns `None` where the raw density of the samples at `position` is
    /// zero, where the quantity is undefined.
    pub fn at(&self, position: &[i64; N]) -> (r: Option<i128>)
        requires
            self.wf(),
        ensures
            r is None <==> density_of(self.kernel_spec(), self.positions(), position@) == 0,
            r matches Some(v) ==> v == interp_of(self.kernel_spec(), self.samples(), position@),
            r matches Some(v) ==> -self.samples().len() * 0x8000_0000 <= v
                <= self.samples().len() * 0x8000_0000,
    {
        let n = self.quantities.len();
        let mut weight: u128 = 0;
        let mut acc: i128 = 0;
        let mut i: usize = 0;
        while i < n
            invariant
                self.wf(),
                n == self.quantities@.len(),
                0 <= i <= n,
                weight == density_upto(self.kernel, self.positions(), position@, i as int),
                acc == interp_upto(self.kernel, self.quantities@, position@, i as int),
                -i * 0x8000_0000 <= acc <= i * 0x8000_0000,
            decreases n - i,
        {
            proof {
                lemma_density_bounds(self.kernel, self.positions(), position@, i as int + 1);
                self.kernel.lemma_influence_bounds(0);
                assert((i as int + 1) * self.kernel.peak() <= MAX_CONTRIBUTORS * MAX_WEIGHT)
                    by (nonlinear_arith)
                    requires
                        i + 1 <= MAX_CONTRIBUTORS,
                        0 <= self.kernel.peak() <= MAX_WEIGHT,
                ;
            }
            let sample = self.quantities[i];
            let w = influence_between(&self.kernel, &sample.position, position);
            let t = weighted_share(w, sample.quantity, sample.density);
            weight = weight + w;
            acc = acc + t;
            i = i + 1;
        }
        if weight == 0 {
            None
        } else {
            Some(acc)
        }
    }
}


impl<const N: usize, K: Kernel + Copy> UniformQuantityField<N, K> {
    /// Every sample can be moved by `delta` along every axis.
    pub open spec fn steps_fit(&self, delta: int) -> bool {
        forall|j: int, axis: int|
            0 <= j < self.samples().len() && 0 <= axis < N ==> #[trigger] step_fits(
                self.samples()[j].position@,
                axis,
                delta,
            )
    }

    /// The quantity is defined one step of `delta` along every axis from
    /// every sample.
    pub open spec fn steps_defined(&self, delta: int) -> bool {
        forall|j: int, axis: int|
            0 <= j < self.samples().len() && 0 <= axis < N ==> density_of(
                self.kernel_spec(),
                self.positions(),
                #[trigger] stepped(self.samples()[j].position@, axis, delta),
            ) != 0
    }

    /// Whether every sample can be moved by `delta` along every axis.
    fn check_steps(&self, delta: u32) -> (ok: bool)
        ensures
            ok == self.steps_fit(delta as int),
    {
        let n = self.quantities.len();
        let mut j: usize = 0;
        while j < n
            invariant
                n == self.quantities@.len(),
                0 <= j <= n,
                forall|jj: int, axis: int|
                    0 <= jj < j && 0 <= axis < N ==> #[trigger] step_fits(
                        self.quantities@[jj].position@,
                        axis,
                        delta as int,
                    ),
            decreases n - j,
        {
            let p = self.quantities[j].position;
            let mut axis: usize = 0;
            while axis < N
                invariant
                    n == self.quantities@.len(),
                    0 <= j < n,
                    p == self.quantities@[j as int].position,
                    0 <= axis <= N,
                    forall|jj: int, a: int|
                        0 <= jj < j && 0 <= a < N ==> #[trigger] step_fits(
                            self.quantities@[jj].position@,
                            a,
                            delta as int,
                        ),
                    forall|a: int| 0 <= a < axis ==> step_fits(p@, a, delta as int),
                decreases N - axis,
            {
                if p[axis] > i64::MAX - (delta as i64) {
                    assert(!step_fits(self.samples()[j as int].position@, axis as int, delta as int));
                    assert(!self.steps_fit(delta as int));
                    return false;
                }
                axis = axis + 1;
            }
            j = j + 1;
        }
        true
    }

    /// Estimates the gradient of the quantity at every sample by forward
    /// differences of step `delta` along each axis, reusing the sample's
    /// recorded quantity.
    pub fn gradient(&self, delta: u32) -> (r: Result<UniformGradientField<N, K>, FieldError>)
        requires
            self.wf(),
        ensures
            (r == Err::<UniformGradientField<N, K>, FieldError>(FieldError::ZeroStep)) <==> delta
                == 0,
            (r == Err::<UniformGradientField<N, K>, FieldError>(FieldError::CoordinateOverflow))
                <==> (delta > 0 && !self.steps_fit(delta as int)),
            (r == Err::<UniformGradientField<N, K>, FieldError>(FieldError::UndefinedQuantity))
                <==> (delta > 0 && self.steps_fit(delta as int) && !self.steps_defined(
                delta as int,
            )),
            r matches Ok(g) ==> {
                &&& g.wf()
                &&& g.kernel_spec() == self.kernel_spec()
                &&& g.samples().len() == self.samples().len()
                &&& forall|j: int|
                    0 <= j < self.samples().len() ==> {
                        &&& (#[trigger] g.samples()[j]).position == self.samples()[j].position
                        &&& g.samples()[j].density == self.samples()[j].density
                        &&& forall|axis: int|
                            0 <= axis < N ==> g.samples()[j].gradient@[axis]
                                == forward_difference(
                                self.kernel_spec(),
                                self.samples(),
                                self.samples()[j],
                                axis,
                                delta as int,
                            )
                    }
            },
    {
        if delta == 0 {
            return Err(FieldError::ZeroStep);
        }
        if !self.check_steps(delta) {
            return Err(FieldError::CoordinateOverflow);
        }
        let n = self.quantities.len();
        let mut gradients: Vec<GradientSample<N>> = Vec::new();
        let mut j: usize = 0;
        while j < n
            invariant
                self.wf(),
                delta > 0,
                self.steps_fit(delta as int),
                n == self.quantities@.len(),
                0 <= j <= n,
                gradients@.len() == j,
                forall|jj: int, axis: int|
                    0 <= jj < j && 0 <= axis < N ==> density_of(
                        self.kernel,
                        self.positions(),
                        #[trigger] stepped(self.quantities@[jj].position@, axis, delta as int),
                    ) != 0,
                forall|jj: int|
                    0 <= jj < j ==> {
                        &&& (#[trigger] gradients@[jj]).position == self.quantities@[jj].position
                        &&& gradients@[jj].density == self.quantities@[jj].density
                        &&& forall|axis: int|
                            0 <= axis < N ==> gradients@[jj].gradient@[axis]
                                == forward_difference(
                                self.kernel,
                                self.quantities@,
                                self.quantities@[jj],
                                axis,
                                delta as int,
                            )
                        &&& forall|axis: int|
                            0 <= axis < N ==> -MAX_GRADIENT <= #[trigger] gradients@[jj].gradient@[axis]
                                <= MAX_GRADIENT
                    },
            decreases n - j,
        {
            let sample = self.quantities[j];
            let mut gradient: [i128; N] = [0i128; N];
            let mut axis: usize = 0;
            while axis < N
                invariant
                    self.wf(),
                    delta > 0,
                    self.steps_fit(delta as int),
                    n == self.quantities@.len(),
                    0 <= j < n,
                    sample == self.quantities@[j as int],
                    0 <= axis <= N,
                    gradient@.len() == N,
                    forall|a: int|
                        0 <= a < axis ==> density_of(
                            self.kernel,
                            self.positions(),
                            stepped(sample.position@, a, delta as int),
                        ) != 0,
                    forall|a: int|
                        0 <= a < axis ==> gradient@[a] == forward_difference(
                            self.kernel,
                            self.quantities@,
                            sample,
                            a,
                            delta as int,
                        ),
                    forall|a: int|
                        0 <= a < axis ==> -MAX_GRADIENT <= #[trigger] gradient@[a] <= MAX_GRADIENT,
                decreases N - axis,
            {
                assert(step_fits(self.quantities@[j as int].position@, axis as int, delta as int));
                let mut moved = sample.position;
                moved[axis] = sample.position[axis] + (delta as i64);
                assert(moved@ == stepped(sample.position@, axis as int, delta as int));
                match self.at(&moved) {
                    None => {
                        return Err(FieldError::UndefinedQuantity);
                    },
                    Some(v) => {
                        proof {
                            assert(n * 0x8000_0000 <= 0x7FFF_FFFF_8000_0000) by (nonlinear_arith)
                                requires
                                    n <= MAX_CONTRIBUTORS,
                            ;
                        }
                        let partial = divide_toward_zero(v - (sample.quantity as i128), delta as u128);
                        gradient[axis] = partial;
                    },
                }
                axis = axis + 1;
            }
            gradients.push(GradientSample { position: sample.position, density: sample.density, gradient });
            j = j + 1;
        }
        Ok(UniformGradientField { kernel: self.kernel, gradients })
    }
}

/// A field of interpolated gradients, estimated from a `UniformQuantityField`.
pub struct UniformGradientField<const N: usize, K: Kernel + Copy> {
    kernel: FieldKernel<N, K>,
    gradients: Vec<GradientSample<N>>,
}

impl<const N: usize, K: Kernel + Copy> UniformGradientField<N, K> {
    /// The field's kernel.
    pub closed spec fn kernel_spec(&self) -> FieldKernel<N, K> {
        self.kernel
    }

    /// The samples, one for each sample of the quantity field.
    pub closed spec fn samples(&self) -> Seq<GradientSample<N>> {
        self.gradients@
    }

    /// The positions of the samples.
    pub open spec fn positions(&self) -> Seq<Seq<i64>> {
        gradient_positions(self.samples())
    }

    /// The kernel is well formed, the field is not over capacity, every stored
    /// density is at least the kernel's peak and fits the field's capacity,
    /// and every gradient component is at most `MAX_GRADIENT` in size.
    pub open spec fn wf(&self) -> bool {
        &&& self.kernel_spec().wf()
        &&& self.samples().len() <= MAX_CONTRIBUTORS
        &&& forall|j: int|
            0 <= j < self.samples().len() ==> {
                &&& self.kernel_spec().peak() <= (#[trigger] self.samples()[j]).density
                &&& self.samples()[j].density <= MAX_CONTRIBUTORS * MAX_WEIGHT
                &&& forall|axis: int|
                    0 <= axis < N ==> -MAX_GRADIENT <= #[trigger] self.samples()[j].gradient@[axis]
                        <= MAX_GRADIENT
            }
    }

    /// The number of samples.
    pub fn len(&self) -> (n: usize)
        ensures
            n == self.samples().len(),
    {
        self.gradients.len()
    }

    /// Interpolates the gradient at `position`, component by component.
    ///
    /// Returns `None` where the raw density of the samples at `position` is
    /// zero, where the gradient is undefined.
    pub fn at(&self, position: &[i64; N]) -> (r: Option<[i128; N]>)
        requires
            self.wf(),
        ensures
            r is None <==> density_of(self.kernel_spec(), self.positions(), position@) == 0,
            r matches Some(g) ==> forall|axis: int|
                0 <= axis < N ==> #[trigger] g@[axis] == gradient_of(
                    self.kernel_spec(),
                    self.samples(),
                    position@,
                    axis,
                ),
    {
        let n = self.gradients.len();
        let mut weight: u128 = 0;
        let mut acc: [i128; N] = [0i128; N];
        let mut i: usize = 0;
        while i < n
            invariant
                self.wf(),
                n == self.gradients@.len(),
                0 <= i <= n,
                acc@.len() == N,
                weight == density_upto(self.kernel, self.positions(), position@, i as int),
                forall|axis: int|
                    0 <= axis < N ==> #[trigger] acc@[axis] == gradient_upto(
                        self.kernel,
                        self.gradients@,
                        position@,
                        axis,
                        i as int,
                    ),
                forall|axis: int|
                    0 <= axis < N ==> -i * MAX_GRADIENT <= #[trigger] acc@[axis] <= i
                        * MAX_GRADIENT,
            decreases n - i,
        {
            proof {
                lemma_density_bounds(self.kernel, self.positions(), position@, i as int + 1);
                self.kernel.lemma_influence_bounds(0);
                assert((i as int + 1) * self.kernel.peak() <= MAX_CONTRIBUTORS * MAX_WEIGHT)
                    by (nonlinear_arith)
                    requires
                        i + 1 <= MAX_CONTRIBUTORS,
                        0 <= self.kernel.peak() <= MAX_WEIGHT,
                ;
                assert((i as int + 1) * MAX_GRADIENT <= MAX_CONTRIBUTORS * MAX_GRADIENT)
                    by (nonlinear_arith)
                    requires
                        i + 1 <= MAX_CONTRIBUTORS,
                ;
            }
            let sample = self.gradients[i];
            let w = influence_between(&self.kernel, &sample.position, position);
            let ghost before = acc;
            assert(self.kernel.peak() <= self.samples()[i as int].density);
            let mut axis: usize = 0;
            while axis < N
                invariant
                    self.wf(),
                    n == self.gradients@.len(),
                    0 <= i < n,
                    sample == self.gradients@[i as int],
                    w == influence_at(self.kernel, sample.position@, position@),
                    w <= self.kernel.peak(),
                    0 < self.kernel.peak() <= sample.density,
                    self.kernel.peak() <= MAX_WEIGHT,
                    forall|a: int|
                        0 <= a < N ==> -MAX_GRADIENT <= #[trigger] sample.gradient@[a]
                            <= MAX_GRADIENT,
                    0 <= axis <= N,
                    acc@.len() == N,
                    before@.len() == N,
                    (i as int + 1) * MAX_GRADIENT <= MAX_CONTRIBUTORS * MAX_GRADIENT,
                    forall|a: int|
                        0 <= a < N ==> #[trigger] before@[a] == gradient_upto(
                            self.kernel,
                            self.gradients@,
                            position@,
                            a,
                            i as int,
                        ),
                    forall|a: int|
                        0 <= a < N ==> -i * MAX_GRADIENT <= #[trigger] before@[a] <= i
                            * MAX_GRADIENT,
                    forall|a: int| axis <= a < N ==> #[trigger] acc@[a] == before@[a],
                    forall|a: int|
                        0 <= a < axis ==> #[trigger] acc@[a] == gradient_upto(
                            self.kernel,
                            self.gradients@,
                            position@,
                            a,
                            i as int + 1,
                        ),
                    forall|a: int|
                        0 <= a < axis ==> -(i + 1) * MAX_GRADIENT <= #[trigger] acc@[a] <= (i
                            + 1) * MAX_GRADIENT,
                decreases N - axis,
            {
                let t = weighted_gradient_share(w, sample.gradient[axis], sample.density);
                acc[axis] = acc[axis] + t;
                axis = axis + 1;
            }
            weight = weight + w;
            i = i + 1;
        }
        if weight == 0 {
            None
        } else {
            Some(acc)
        }
    }
}

/// `w * g / d` rounded toward zero, for a gradient component `g`.
pub fn weighted_gradient_share(w: u128, g: i128, d: u128) -> (r: i128)
    requires
        w <= d,
        0 < d,
        w <= MAX_WEIGHT,
        -MAX_GRADIENT <= g <= MAX_GRADIENT,
    ensures
        r == share(w as int, g as int, d as int),
        -MAX_GRADIENT <= r <= MAX_GRADIENT,
{
    assert(-MAX_WEIGHT * MAX_GRADIENT <= w * g <= MAX_WEIGHT * MAX_GRADIENT) by (nonlinear_arith)
        requires
            w <= MAX_WEIGHT,
            -MAX_GRADIENT <= g <= MAX_GRADIENT,
    ;
    let wg: i128 = (w as i128) * g;
    proof {
        lemma_share_bound(w as int, g as int, d as int);
    }
    divide_toward_zero(wg, d)
}

} // verus!
