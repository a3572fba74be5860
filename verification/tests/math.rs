use cait_sith::math::Polynomial;
use cait_sith::scalars::scalar_from_u64;

fn poly(vals: &[u64]) -> Polynomial {
    let mut coeffs = Vec::new();
    for v in vals {
        coeffs.push(scalar_from_u64(*v));
    }
    Polynomial::from_coefficients(coeffs)
}

#[test]
fn test_addition() {
    let f = poly(&[1, 2]);
    let g = poly(&[1, 2, 3]);
    let h = poly(&[2, 4, 3]);
    assert_eq!(f.add(&g), h);
    let f = f.add(&g);
    assert_eq!(f, h);
}

#[test]
fn test_scaling() {
    let s = scalar_from_u64(2);
    let f = poly(&[1, 2]);
    let h = poly(&[2, 4]);
    assert_eq!(f.scale(&s), h);
    let f = f.scale(&s);
    assert_eq!(f, h);
}

#[test]
fn test_evaluation() {
    let f = poly(&[1, 2]);
    assert_eq!(f.evaluate(&scalar_from_u64(1)), scalar_from_u64(3));
    assert_eq!(f.evaluate(&scalar_from_u64(2)), scalar_from_u64(5));
}
