use vstd::prelude::*;

verus! {

/// Largest support radius, in lattice units, that a field kernel accepts.
///
/// It keeps the peak weight of a polynomial kernel of degree six below 2^60.
pub const MAX_SUPPORT: u64 = 1024;

/// Upper bound on every weight that a kernel returns.
pub const MAX_WEIGHT: u128 = 0x1000_0000_0000_0000;

/// A radially symmetric smoothing kernel with compact support.
///
/// A kernel is evaluated on the squared distance `r2` between two points and
/// the support radius `h`. It vanishes outside the support, is largest at the
/// centre and never exceeds `MAX_WEIGHT`.
pub trait Kernel {
    /// The weight of the kernel at squared distance `r2` for support radius `h`.
    spec fn weight(&self, h: int, r2: int) -> int;

    /// The shape of the kernel: bounded, compact, and peaked at the centre.
    proof fn lemma_weight_bounds(&self, h: int, r2: int)
        requires
            1 <= h <= MAX_SUPPORT,
            0 <= r2,
        ensures
            0 <= self.weight(h, r2) <= self.weight(h, 0) <= MAX_WEIGHT,
            0 < self.weight(h, 0),
            r2 >= h * h ==> self.weight(h, r2) == 0,
    ;

    /// Evaluates the kernel at squared distance `r2` for support radius `h`.
    fn kernel(&self, h: u64, r2: u128) -> (w: u128)
        requires
            1 <= h <= MAX_SUPPORT,
        ensures
            w == self.weight(h as int, r2 as int),
    ;
}

/// The polynomial kernel `(h^2 - r^2)^3` of degree six.
#[derive(Clone, Copy, Debug, PartialEq, Eq)]
pub struct Poly6;

pub open spec fn cube(x: int) -> int {
    x * x * x
}

impl Kernel for Poly6 {
    open spec fn weight(&self, h: int, r2: int) -> int {
        if r2 < h * h {
            cube(h * h - r2)
        } else {
            0
        }
    }

    proof fn lemma_weight_bounds(&self, h: int, r2: int) {
        let d = h * h;
        assert(1 <= d <= 0x10_0000) by (nonlinear_arith)
            requires
                1 <= h <= 1024,
                d == h * h,
        ;
        if r2 < d {
            lemma_cube_monotone(d - r2, d);
        }
        lemma_cube_monotone(d, 0x10_0000);
        lemma_cube_monotone(1, d);
    }

    fn kernel(&self, h: u64, r2: u128) -> (w: u128) {
        assert(h * h <= 0x10_0000) by (nonlinear_arith)
            requires
                1 <= h <= 1024,
        ;
        let hh: u128 = (h as u128) * (h as u128);
        if r2 < hh {
            let d: u128 = hh - r2;
            proof {
                lemma_cube_monotone(d as int, 0x10_0000);
            }
            assert(d * d <= 0x100_0000_0000) by (nonlinear_arith)
                requires
                    d <= 0x10_0000,
            ;
            d * d * d
        } else {
            0
        }
    }
}

/// Why a field kernel could not be built.
#[derive(Debug, Clone, Copy, PartialEq, Eq, Structural)]
pub enum KernelError {
    /// The support radius is zero or larger than `MAX_SUPPORT`.
    InvalidSupportRadius,
}

/// A smoothing kernel bound to a support radius in an `N`-dimensional space.
///
/// The influence of a contributor at squared distance `r2` is the kernel's
/// weight inside the support (`r2 <= h^2`) and zero beyond it.
#[derive(Clone, Copy)]
pub struct FieldKernel<const N: usize, K: Kernel + Copy> {
    kernel_support_radius: u64,
    kernel: K,
}

impl<const N: usize, K: Kernel + Copy> FieldKernel<N, K> {
    /// The support radius `h`.
    pub closed spec fn support(&self) -> int {
        self.kernel_support_radius as int
    }

    /// The kernel shape.
    pub closed spec fn shape(&self) -> K {
        self.kernel
    }

    /// The support radius lies in `1 ..= MAX_SUPPORT`.
    pub open spec fn wf(&self) -> bool {
        1 <= self.support() <= MAX_SUPPORT
    }

    /// The influence of a contributor at squared distance `r2`.
    pub open spec fn influence_spec(&self, r2: int) -> int {
        if r2 > self.support() * self.support() {
            0
        } else {
            self.shape().weight(self.support(), r2)
        }
    }

    /// The influence at the centre, the largest the kernel takes.
    pub open spec fn peak(&self) -> int {
        self.influence_spec(0)
    }

    /// Binds `kernel` to the support radius `support`.
    pub fn new(kernel: K, support: u64) -> (r: Result<Self, KernelError>)
        ensures
            (1 <= support <= MAX_SUPPORT) <==> r is Ok,
            r is Err ==> r == Err::<Self, KernelError>(KernelError::InvalidSupportRadius),
            r matches Ok(k) ==> k.wf() && k.support() == support && k.shape() == kernel,
    {
        if support == 0 || support > MAX_SUPPORT {
            return Err(KernelError::InvalidSupportRadius);
        }
        Ok(FieldKernel { kernel_support_radius: support, kernel })
    }

    /// The influence of a contributor at squared distance `r2`.
    pub fn influence(&self, r2: u128) -> (w: u128)
        requires
            self.wf(),
        ensures
            w == self.influence_spec(r2 as int),
            w <= self.peak(),
    {
        proof {
            self.lemma_influence_bounds(r2 as int);
        }
        let h = self.kernel_support_radius;
        assert(h * h <= 0x10_0000) by (nonlinear_arith)
            requires
                1 <= h <= 1024,
        ;
        if r2 > (h as u128) * (h as u128) {
            return 0;
        }
        self.kernel.kernel(h, r2)
    }

    /// Returns the support radius.
    pub fn support_radius(&self) -> (h: u64)
        ensures
            h == self.support(),
    {
        self.kernel_support_radius
    }

    /// The influence is at most the peak, which is positive and at most
    /// `MAX_WEIGHT`, and vanishes from the edge of the support on.
    pub proof fn lemma_influence_bounds(&self, r2: int)
        requires
            self.wf(),
            0 <= r2,
        ensures
            0 <= self.influence_spec(r2) <= self.peak() <= MAX_WEIGHT,
            0 < self.peak(),
            r2 >= self.support() * self.support() ==> self.influence_spec(r2) == 0,
    {
        self.shape().lemma_weight_bounds(self.support(), r2);
        self.shape().lemma_weight_bounds(self.support(), 0);
        assert(self.support() * self.support() >= 0) by (nonlinear_arith);
    }
}

/// Cubing is monotone on the naturals.
pub proof fn lemma_cube_monotone(a: int, b: int)
    requires
        0 <= a <= b,
    ensures
        0 <= cube(a) <= cube(b),
{
    assert(0 <= a * a * a <= b * b * b) by (nonlinear_arith)
        requires
            0 <= a <= b,
    ;
}

} // verus!
