use hydrodynamics::distance::squared_distance;
use hydrodynamics::kernel::{FieldKernel, Kernel, KernelError, Poly6, MAX_SUPPORT};

#[test]
fn poly6_weights() {
    assert_eq!(Poly6.kernel(4, 0), 4096);
    assert_eq!(Poly6.kernel(4, 1), 3375);
    assert_eq!(Poly6.kernel(4, 4), 1728);
    assert_eq!(Poly6.kernel(4, 16), 0);
    assert_eq!(Poly6.kernel(4, 17), 0);
    assert_eq!(Poly6.kernel(1024, 0), 1u128 << 60);
}

#[test]
fn support_radius_is_validated() {
    let zero: Result<FieldKernel<2, Poly6>, KernelError> = FieldKernel::new(Poly6, 0);
    assert_eq!(zero.err(), Some(KernelError::InvalidSupportRadius));
    let large: Result<FieldKernel<2, Poly6>, KernelError> = FieldKernel::new(Poly6, MAX_SUPPORT + 1);
    assert_eq!(large.err(), Some(KernelError::InvalidSupportRadius));
    let largest: FieldKernel<2, Poly6> = FieldKernel::new(Poly6, MAX_SUPPORT).unwrap();
    assert_eq!(largest.support_radius(), MAX_SUPPORT);
    assert_eq!(largest.influence(0), 1u128 << 60);
}

#[test]
fn influence_vanishes_from_the_support_radius_on() {
    let kernel: FieldKernel<3, Poly6> = FieldKernel::new(Poly6, 5).unwrap();
    assert_eq!(kernel.support_radius(), 5);
    assert_eq!(kernel.influence(25), 0);
    assert_eq!(kernel.influence(26), 0);
    assert_eq!(kernel.influence(u128::MAX), 0);
    assert!(kernel.influence(24) > 0);
}

#[test]
fn influence_never_grows_with_distance() {
    let kernel: FieldKernel<2, Poly6> = FieldKernel::new(Poly6, 6).unwrap();
    let mut previous = kernel.influence(0);
    assert_eq!(previous, 46656);
    for r2 in 1..40u128 {
        let current = kernel.influence(r2);
        assert!(current <= previous);
        previous = current;
    }
    assert_eq!(previous, 0);
}

#[test]
fn squared_distance_is_exact() {
    assert_eq!(squared_distance(&[0, 0], &[3, 4]), 25);
    assert_eq!(squared_distance(&[-1, 2, 7], &[-1, 2, 7]), 0);
    assert_eq!(squared_distance(&[5, -5, 1], &[-5, 5, 0]), 201);
    assert_eq!(squared_distance::<0>(&[], &[]), 0);
}

#[test]
fn squared_distance_saturates() {
    let single = squared_distance(&[i64::MIN], &[i64::MAX]);
    assert_eq!(single, (u64::MAX as u128) * (u64::MAX as u128));
    assert_eq!(squared_distance(&[i64::MIN, i64::MIN], &[i64::MAX, i64::MAX]), u128::MAX);
}
