use hydrodynamics::bounds::{Bound, Bounds};
use hydrodynamics::interval::{divide, ClosedInterval, Interval};

#[test]
fn closed_interval_bounds_and_range() {
    let interval = ClosedInterval::new(10i64, 20i64);
    assert_eq!(interval.lower_bound(), 10);
    assert_eq!(interval.upper_bound(), 20);
    assert_eq!(interval.range(), 10);
}

#[test]
fn closed_interval_normalise_and_denormalise() {
    let interval = ClosedInterval::new(10i64, 20i64);
    assert_eq!(interval.normalise(15), 0);
    assert_eq!(interval.normalise(30), 2);
    assert_eq!(interval.normalise(-15), -2);
    assert_eq!(interval.denormalise(3), 40);
    assert_eq!(interval.denormalise(-1), 0);
    let reversed = ClosedInterval::new(0i64, -4i64);
    assert_eq!(reversed.range(), -4);
    assert_eq!(reversed.normalise(-9), 2);
    assert_eq!(reversed.normalise(9), -2);
}

#[test]
fn division_rounds_toward_zero() {
    assert_eq!(divide(7, 2), 3);
    assert_eq!(divide(-7, 2), -3);
    assert_eq!(divide(7, -2), -3);
    assert_eq!(divide(-7, -2), 3);
    assert_eq!(divide(i64::MIN, 1), i64::MIN);
    assert_eq!(divide(i64::MIN, 2), i64::MIN / 2);
}

#[test]
fn bounds_in_range() {
    let range = (Bound::Included(0), Bound::Excluded(10));
    assert!(range.in_range(0));
    assert!(range.in_range(9));
    assert!(!range.in_range(10));
    assert!(!range.in_range(-1));
    assert_eq!(range.some_in_range(5), Some(5));
    assert_eq!(range.some_in_range(10), None);
    let open = (Bound::Excluded(0), Bound::Unbounded);
    assert!(!open.in_range(0));
    assert!(open.in_range(i64::MAX));
}

#[test]
fn bounds_values_and_clamp() {
    let range = (Bound::Excluded(-3), Bound::Included(7));
    assert_eq!(range.lower_value(), Some(-3));
    assert_eq!(range.upper_value(), Some(7));
    assert_eq!(range.clamp(-3), -3);
    assert_eq!(range.clamp(-10), -3);
    assert_eq!(range.clamp(8), 7);
    assert_eq!(range.clamp(7), 7);
    assert_eq!(range.clamp(2), 2);
    let unbounded = (Bound::Unbounded, Bound::Unbounded);
    assert_eq!(unbounded.lower_value(), None);
    assert_eq!(unbounded.clamp(i64::MIN), i64::MIN);
}

#[test]
fn bounds_range_normalise_denormalise() {
    let range = (Bound::Included(10), Bound::Excluded(20));
    assert_eq!(range.range(), Some(10));
    assert_eq!(range.normalise(35), Some(2));
    assert_eq!(range.denormalise(3), Some(40));
    let half = (Bound::Included(10), Bound::Unbounded);
    assert_eq!(half.range(), None);
    assert_eq!(half.normalise(35), None);
    assert_eq!(half.denormalise(3), None);
}
