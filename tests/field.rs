use hydrodynamics::field::{FieldError, UniformField, UniformQuantityField};
use hydrodynamics::kernel::{FieldKernel, Poly6};

fn kernel_2d(h: u64) -> FieldKernel<2, Poly6> {
    FieldKernel::new(Poly6, h).unwrap()
}

fn field_2d(h: u64, contributors: &[([i64; 2], i32)]) -> UniformField<2, Poly6, i32> {
    let mut field = UniformField::new(kernel_2d(h));
    for (position, payload) in contributors {
        field.contribute(*position, *payload);
    }
    field
}

fn line_1d() -> UniformQuantityField<1, Poly6> {
    let kernel: FieldKernel<1, Poly6> = FieldKernel::new(Poly6, 8).unwrap();
    let mut field = UniformField::new(kernel);
    for x in -40..=40i64 {
        field.contribute([x], 1000 * x as i32);
    }
    field.sample(|q: &i32| *q)
}

#[test]
fn empty_field_has_no_density() {
    let field = field_2d(4, &[]);
    assert_eq!(field.len(), 0);
    assert_eq!(field.density(&[0, 0]), 0);
    let sampled = field.sample(|q: &i32| *q);
    assert_eq!(sampled.len(), 0);
    assert_eq!(sampled.at(&[0, 0]), None);
}

#[test]
fn density_sums_influences_within_support() {
    let field = field_2d(4, &[([0, 0], 1), ([0, 2], 1), ([9, 9], 1)]);
    assert_eq!(field.len(), 3);
    assert_eq!(field.density(&[0, 0]), 4096 + 1728);
    assert_eq!(field.density(&[0, 1]), 3375 + 3375);
    assert_eq!(field.density(&[0, 4]), 1728);
    assert_eq!(field.density(&[0, 6]), 0);
}

#[test]
fn single_contributor() {
    let kernel = kernel_2d(4);
    let field = field_2d(4, &[([3, -2], 7)]);
    assert_eq!(field.density(&[3, -2]), kernel.influence(0));
    let sampled = field.sample(|q: &i32| *q * 100);
    assert_eq!(sampled.at(&[3, -2]), Some(700));
    let negative = field.sample(|q: &i32| -*q);
    assert_eq!(negative.at(&[3, -2]), Some(-7));
}

#[test]
fn symmetric_pair_contributes_equal_shares() {
    let field = field_2d(4, &[([0, 0], 5000), ([0, 2], 5000)]);
    let sampled = field.sample(|q: &i32| *q);
    let share = 3375 * 5000 / (4096 + 1728);
    assert_eq!(sampled.at(&[0, 1]), Some(2 * share));
    assert_eq!(sampled.at(&[0, 1]), Some(5794));
}

#[test]
fn two_contributors_at_a_quarter() {
    // Support radius 1.0 at four lattice units per unit, quantities in
    // thousandths: (0, 0) carries 10 and (0, 0.5) carries 20.
    let field = field_2d(4, &[([0, 0], 10_000), ([0, 2], 20_000)]);
    let sampled = field.sample(|q: &i32| *q);
    let value = sampled.at(&[0, 1]).unwrap();
    assert!(10_000 < value && value < 20_000);
    assert_eq!(value, 17_383);
}

#[test]
fn beyond_support_is_undefined() {
    let field = field_2d(4, &[([0, 0], 10), ([1, 1], 20)]);
    assert_eq!(field.density(&[10, 0]), 0);
    assert_eq!(field.density(&[5, 5]), 0);
    let sampled = field.sample(|q: &i32| *q);
    assert_eq!(sampled.at(&[10, 0]), None);
    let gradients = sampled.gradient(1).unwrap();
    assert_eq!(gradients.len(), 2);
    assert_eq!(gradients.at(&[10, 0]), None);
}

#[test]
fn interpolates_a_linear_quantity() {
    let sampled = line_1d();
    assert_eq!(sampled.len(), 81);
    assert_eq!(sampled.at(&[0]), Some(0));
    assert_eq!(sampled.at(&[3]), Some(2997));
    assert_eq!(sampled.at(&[5]), Some(4995));
}

#[test]
fn gradient_of_a_linear_quantity() {
    let gradients = line_1d().gradient(1).unwrap();
    assert_eq!(gradients.len(), 81);
    let at_origin = gradients.at(&[0]).unwrap();
    assert_eq!(at_origin, [991]);
    assert!((at_origin[0] - 1000).abs() <= 10);
    assert_eq!(gradients.at(&[5]), Some([986]));
    assert_eq!(gradients.at(&[100]), None);
}

#[test]
fn gradient_rejects_a_zero_step() {
    let sampled = field_2d(4, &[([0, 0], 10)]).sample(|q: &i32| *q);
    assert_eq!(sampled.gradient(0).err(), Some(FieldError::ZeroStep));
}

#[test]
fn gradient_rejects_a_step_out_of_range() {
    let sampled = field_2d(4, &[([0, 0], 10), ([i64::MAX, 0], 10)]).sample(|q: &i32| *q);
    assert_eq!(sampled.gradient(1).err(), Some(FieldError::CoordinateOverflow));
}

#[test]
fn gradient_rejects_a_step_beyond_support() {
    let sampled = field_2d(4, &[([0, 0], 10)]).sample(|q: &i32| *q);
    assert_eq!(sampled.gradient(5).err(), Some(FieldError::UndefinedQuantity));
    assert!(sampled.gradient(3).is_ok());
}

#[test]
fn gradient_of_a_pair() {
    let sampled = field_2d(4, &[([0, 0], 0), ([2, 0], 2000)]).sample(|q: &i32| *q);
    assert_eq!(sampled.at(&[1, 0]), Some(1158));
    let gradients = sampled.gradient(1).unwrap();
    assert_eq!(gradients.at(&[1, 0]), Some([184, -223]));
}
