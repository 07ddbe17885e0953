use vstd::prelude::*;

verus! {

/// `a / b` rounded toward zero, as integer division does, for `b != 0`.
pub open spec fn quotient(a: int, b: int) -> int {
    let m = (if a >= 0 { a } else { -a }) / (if b >= 0 { b } else { -b });
    if (a >= 0) == (b >= 0) {
        m
    } else {
        -m
    }
}

/// `a / b` rounded toward zero.
pub fn divide(a: i64, b: i64) -> (r: i64)
    requires
        b != 0,
        !(a == i64::MIN && b == -1),
    ensures
        r == quotient(a as int, b as int),
{
    let ma: u64 = if a < 0 {
        (-(a as i128)) as u64
    } else {
        a as u64
    };
    let mb: u64 = if b < 0 {
        (-(b as i128)) as u64
    } else {
        b as u64
    };
    let m: u64 = ma / mb;
    assert(m <= ma) by (nonlinear_arith)
        requires
            m == ma / mb,
            mb >= 1,
    ;
    if (a >= 0) == (b >= 0) {
        proof {
            if m == ma {
                assert(mb == 1 || ma == 0) by (nonlinear_arith)
                    requires
                        m == ma / mb,
                        m == ma,
                        mb >= 1,
                ;
            }
        }
        m as i64
    } else {
        -(m as i128) as i64
    }
}

/// An interval of values with a lower and an upper bound, between which
/// values can be mapped to and from the unit scale.
pub trait Interval<T> {
    /// The lower bound.
    spec fn lower_spec(&self) -> T;

    /// The upper bound.
    spec fn upper_spec(&self) -> T;

    /// The width of the interval, where it is defined.
    spec fn range_spec(&self) -> T;

    /// Whether the width of the interval can be computed.
    spec fn range_defined(&self) -> bool;

    /// `value` mapped onto the unit scale of the interval, where defined.
    spec fn normalise_spec(&self, value: T) -> T;

    /// Whether `value` can be mapped onto the unit scale.
    spec fn normalise_defined(&self, value: T) -> bool;

    /// `norm` mapped from the unit scale back into the interval, where defined.
    spec fn denormalise_spec(&self, norm: T) -> T;

    /// Whether `norm` can be mapped back into the interval.
    spec fn denormalise_defined(&self, norm: T) -> bool;

    /// Returns the lower bound.
    fn lower_bound(&self) -> (r: T)
        ensures
            r == self.lower_spec(),
    ;

    /// Returns the upper bound.
    fn upper_bound(&self) -> (r: T)
        ensures
            r == self.upper_spec(),
    ;

    /// Returns the upper bound less the lower bound.
    fn range(&self) -> (r: T)
        requires
            self.range_defined(),
        ensures
            r == self.range_spec(),
    ;

    /// Returns the offset of `value` from the lower bound, over the range.
    fn normalise(&self, value: T) -> (r: T)
        requires
            self.normalise_defined(value),
        ensures
            r == self.normalise_spec(value),
    ;

    /// Returns the lower bound plus `norm` times the range.
    fn denormalise(&self, norm: T) -> (r: T)
        requires
            self.denormalise_defined(norm),
        ensures
            r == self.denormalise_spec(norm),
    ;
}

/// The closed interval `[lower_bound, upper_bound]`.
#[derive(Clone, Copy, Debug, PartialEq, Eq, Structural)]
pub struct ClosedInterval<T> {
    lower_bound: T,
    upper_bound: T,
}

impl<T> ClosedInterval<T> {
    /// The lower bound.
    pub closed spec fn lower(&self) -> T {
        self.lower_bound
    }

    /// The upper bound.
    pub closed spec fn upper(&self) -> T {
        self.upper_bound
    }

    /// Creates the closed interval from `lower_bound` to `upper_bound`.
    pub fn new(lower_bound: T, upper_bound: T) -> (r: Self)
        ensures
            r.lower() == lower_bound,
            r.upper() == upper_bound,
    {
        ClosedInterval { lower_bound, upper_bound }
    }
}

impl Interval<i64> for ClosedInterval<i64> {
    open spec fn lower_spec(&self) -> i64 {
        self.lower()
    }

    open spec fn upper_spec(&self) -> i64 {
        self.upper()
    }

    open spec fn range_spec(&self) -> i64 {
        (self.upper() - self.lower()) as i64
    }

    open spec fn range_defined(&self) -> bool {
        i64::MIN <= self.upper() - self.lower() <= i64::MAX
    }

    open spec fn normalise_spec(&self, value: i64) -> i64 {
        quotient(value - self.lower(), self.upper() - self.lower()) as i64
    }

    open spec fn normalise_defined(&self, value: i64) -> bool {
        &&& self.range_defined()
        &&& self.upper() != self.lower()
        &&& i64::MIN <= value - self.lower() <= i64::MAX
        &&& !(value - self.lower() == i64::MIN && self.upper() - self.lower() == -1)
    }

    open spec fn denormalise_spec(&self, norm: i64) -> i64 {
        (self.lower() + norm * (self.upper() - self.lower())) as i64
    }

    open spec fn denormalise_defined(&self, norm: i64) -> bool {
        &&& self.range_defined()
        &&& i64::MIN <= norm * (self.upper() - self.lower()) <= i64::MAX
        &&& i64::MIN <= self.lower() + norm * (self.upper() - self.lower()) <= i64::MAX
    }

    fn lower_bound(&self) -> (r: i64) {
        self.lower_bound
    }

    fn upper_bound(&self) -> (r: i64) {
        self.upper_bound
    }

    fn range(&self) -> (r: i64) {
        self.upper_bound - self.lower_bound
    }

    fn normalise(&self, value: i64) -> (r: i64) {
        divide(value - self.lower_bound, self.upper_bound - self.lower_bound)
    }

    fn denormalise(&self, norm: i64) -> (r: i64) {
        self.lower_bound + norm * (self.upper_bound - self.lower_bound)
    }
}

} // verus!
