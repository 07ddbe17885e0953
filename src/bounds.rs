use vstd::prelude::*;
use crate::interval::{divide, quotient};

verus! {

/// One end of a range of values.
#[derive(Clone, Copy, Debug, PartialEq, Eq, Structural)]
pub enum Bound {
    /// The end includes this value.
    Included(i64),
    /// The end stops just short of this value.
    Excluded(i64),
    /// The range is open on this end.
    Unbounded,
}

/// The value at an end, if the end is bounded.
pub open spec fn bound_value(b: Bound) -> Option<i64> {
    match b {
        Bound::Included(x) => Some(x),
        Bound::Excluded(x) => Some(x),
        Bound::Unbounded => None,
    }
}

/// `v` lies on the inner side of the lower end `b`.
pub open spec fn above(b: Bound, v: int) -> bool {
    match b {
        Bound::Included(x) => v >= x,
        Bound::Excluded(x) => v > x,
        Bound::Unbounded => true,
    }
}

/// `v` lies on the inner side of the upper end `b`.
pub open spec fn below(b: Bound, v: int) -> bool {
    match b {
        Bound::Included(x) => v <= x,
        Bound::Excluded(x) => v < x,
        Bound::Unbounded => true,
    }
}

/// `v` moved to the value of the end that it lies beyond, if any; the lower
/// end is tested first.
pub open spec fn clamp_spec(lower: Bound, upper: Bound, v: i64) -> i64 {
    if !above(lower, v as int) {
        bound_value(lower).unwrap()
    } else if !below(upper, v as int) {
        bound_value(upper).unwrap()
    } else {
        v
    }
}

/// The upper value less the lower value, where both ends are bounded.
pub open spec fn width(lower: Bound, upper: Bound) -> Option<int> {
    match (bound_value(lower), bound_value(upper)) {
        (Some(l), Some(u)) => Some(u - l),
        _ => None,
    }
}

/// The width, where defined, fits an `i64`.
pub open spec fn width_fits(lower: Bound, upper: Bound) -> bool {
    width(lower, upper) matches Some(w) ==> i64::MIN <= w <= i64::MAX
}

/// A range of `i64` values given by a lower and an upper end.
pub trait Bounds {
    /// The lower end.
    spec fn lower_end(&self) -> Bound;

    /// The upper end.
    spec fn upper_end(&self) -> Bound;

    /// Returns the lower end.
    fn lower_bound(&self) -> (r: Bound)
        ensures
            r == self.lower_end(),
    ;

    /// Returns the upper end.
    fn upper_bound(&self) -> (r: Bound)
        ensures
            r == self.upper_end(),
    ;

    /// Returns the value at the lower end, if it is bounded.
    fn lower_value(&self) -> (r: Option<i64>)
        ensures
            r == bound_value(self.lower_end()),
    {
        match self.lower_bound() {
            Bound::Included(bound) => Some(bound),
            Bound::Excluded(bound) => Some(bound),
            Bound::Unbounded => None,
        }
    }

    /// Returns the value at the upper end, if it is bounded.
    fn upper_value(&self) -> (r: Option<i64>)
        ensures
            r == bound_value(self.upper_end()),
    {
        match self.upper_bound() {
            Bound::Included(bound) => Some(bound),
            Bound::Excluded(bound) => Some(bound),
            Bound::Unbounded => None,
        }
    }

    /// Whether `value` lies within both ends.
    fn in_range(&self, value: i64) -> (r: bool)
        ensures
            r == (above(self.lower_end(), value as int) && below(self.upper_end(), value as int)),
    {
        match self.lower_bound() {
            Bound::Included(bound) => if value < bound {
                return false;
            },
            Bound::Excluded(bound) => if value <= bound {
                return false;
            },
            Bound::Unbounded => {},
        }
        match self.upper_bound() {
            Bound::Included(bound) => if value > bound {
                return false;
            },
            Bound::Excluded(bound) => if value >= bound {
                return false;
            },
            Bound::Unbounded => {},
        }
        true
    }

    /// Returns `value` if it lies within both ends.
    fn some_in_range(&self, value: i64) -> (r: Option<i64>)
        ensures
            r == (if above(self.lower_end(), value as int) && below(
                self.upper_end(),
                value as int,
            ) {
                Some(value)
            } else {
                None
            }),
    {
        if self.in_range(value) {
            Some(value)
        } else {
            None
        }
    }

    /// Returns `value` moved to the value of the end that it lies beyond, the
    /// lower end tested first, or `value` itself if it lies within both.
    fn clamp(&self, value: i64) -> (r: i64)
        ensures
            r == clamp_spec(self.lower_end(), self.upper_end(), value),
    {
        match self.lower_bound() {
            Bound::Included(bound) => if value < bound {
                return bound;
            },
            Bound::Excluded(bound) => if value <= bound {
                return bound;
            },
            Bound::Unbounded => {},
        }
        match self.upper_bound() {
            Bound::Included(bound) => if value > bound {
                return bound;
            },
            Bound::Excluded(bound) => if value >= bound {
                return bound;
            },
            Bound::Unbounded => {},
        }
        value
    }

    /// Returns the upper value less the lower value, if both ends are
    /// bounded.
    fn range(&self) -> (r: Option<i64>)
        requires
            width_fits(self.lower_end(), self.upper_end()),
        ensures
            r matches Some(w) ==> width(self.lower_end(), self.upper_end()) == Some(w as int),
            r is None <==> width(self.lower_end(), self.upper_end()) is None,
    {
        let lower = match self.lower_value() {
            Some(v) => v,
            None => return None,
        };
        let upper = match self.upper_value() {
            Some(v) => v,
            None => return None,
        };
        Some(upper - lower)
    }

    /// Returns the offset of `value` from the lower value over the width, if
    /// both ends are bounded.
    fn normalise(&self, value: i64) -> (r: Option<i64>)
        requires
            width_fits(self.lower_end(), self.upper_end()),
            width(self.lower_end(), self.upper_end()) matches Some(w) ==> {
                &&& w != 0
                &&& i64::MIN <= value - bound_value(self.lower_end()).unwrap() <= i64::MAX
                &&& !(value - bound_value(self.lower_end()).unwrap() == i64::MIN && w == -1)
            },
        ensures
            r is None <==> width(self.lower_end(), self.upper_end()) is None,
            r matches Some(v) ==> v == quotient(
                value - bound_value(self.lower_end()).unwrap(),
                width(self.lower_end(), self.upper_end()).unwrap(),
            ),
    {
        let range = match self.range() {
            Some(w) => w,
            None => return None,
        };
        let lower = match self.lower_value() {
            Some(v) => v,
            None => return None,
        };
        Some(divide(value - lower, range))
    }

    /// Returns the lower value plus `value` times the width, if both ends are
    /// bounded.
    fn denormalise(&self, value: i64) -> (r: Option<i64>)
        requires
            width_fits(self.lower_end(), self.upper_end()),
            width(self.lower_end(), self.upper_end()) matches Some(w) ==> i64::MIN <= value * w
                <= i64::MAX && i64::MIN <= value * w + bound_value(self.lower_end()).unwrap()
                <= i64::MAX,
        ensures
            r is None <==> width(self.lower_end(), self.upper_end()) is None,
            r matches Some(v) ==> v == value * width(self.lower_end(), self.upper_end()).unwrap()
                + bound_value(self.lower_end()).unwrap(),
    {
        let range = match self.range() {
            Some(w) => w,
            None => return None,
        };
        let lower = match self.lower_value() {
            Some(v) => v,
            None => return None,
        };
        Some(value * range + lower)
    }
}

impl Bounds for (Bound, Bound) {
    open spec fn lower_end(&self) -> Bound {
        self.0
    }

    open spec fn upper_end(&self) -> Bound {
        self.1
    }

    fn lower_bound(&self) -> (r: Bound) {
        self.0
    }

    fn upper_bound(&self) -> (r: Bound) {
        self.1
    }
}

} // verus!
