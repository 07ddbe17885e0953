use hydrodynamics::field::UniformField;
use hydrodynamics::kernel::{FieldKernel, Poly6};
use peroxide::fuga::{gamma, integrate, GaussLegendre};

/// Rate of growth of the volume of a 2-ball of radius `r`.
fn volume_growth_2d(r: f64) -> f64 {
    let n = 2.0;
    n * std::f64::consts::PI.powf(n / 2.0) * r.powf(n - 1.0) / gamma(1.0 + n / 2.0)
}

#[test]
fn unit_lattice_density_is_close_to_one() {
    // Eight lattice units per unit length; support radius four units.
    let scale: i64 = 8;
    let support: u64 = 32;
    let h = support as f64;
    let shape = |r: f64| (h * h - r * r).powi(3);
    let integral: f64 = integrate(|r: f64| shape(r) * volume_growth_2d(r), (0.0, h), GaussLegendre(16));
    let coefficient = 1.0 / integral;

    let kernel: FieldKernel<2, Poly6> = FieldKernel::new(Poly6, support).unwrap();
    let mut field = UniformField::new(kernel);
    for i in -6..=6i64 {
        for j in -6..=6i64 {
            field.contribute([scale * i, scale * j], ());
        }
    }
    let per_unit_area = (scale * scale) as f64;
    for query in [[0i64, 0], [4, 4], [3, 1]] {
        let density = field.density(&query) as f64 * coefficient * per_unit_area;
        assert!((density - 1.0).abs() < 1e-3);
    }
}
