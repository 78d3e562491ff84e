use busemann::error::FlowError;
use busemann::scalar::Scalar;
use busemann::utils::isentropic::calc_mach_angle_from_mach;
use busemann::utils::isentropic::calc_mach_from_temperature_ratio;
use busemann::utils::isentropic::calc_pressure_ratio_from_mach;

fn sc(x: f64) -> Scalar {
    Scalar::from_raw((x * 1e12).round() as i64)
}

fn fl(s: Scalar) -> f64 {
    s.raw() as f64 / 1e12
}

#[test]
fn test_scalar_arithmetic() {
    let a = sc(1.25);
    let b = sc(-0.5);
    assert_eq!(fl(a.add(b).unwrap()), 0.75);
    assert_eq!(fl(a.sub(b).unwrap()), 1.75);
    assert_eq!(fl(a.mul(b).unwrap()), -0.625);
    assert_eq!(fl(a.div(b).unwrap()), -2.5);
    assert_eq!(fl(b.abs()), 0.5);
    assert_eq!(fl(b.neg()), 0.5);
}

#[test]
fn test_scalar_sqrt() {
    let r = sc(2.0).sqrt().unwrap();
    assert!((fl(r) - std::f64::consts::SQRT_2).abs() < 1e-11);
    assert_eq!(sc(-1.0).sqrt(), Err(FlowError::MathDomainError));
}

#[test]
fn test_scalar_trigonometry() {
    let x = 0.7;
    assert!((fl(sc(x).sin().unwrap()) - x.sin()).abs() < 1e-9);
    assert!((fl(sc(x).cos().unwrap()) - x.cos()).abs() < 1e-9);
    assert!((fl(sc(x).tan().unwrap()) - x.tan()).abs() < 1e-9);
    assert!((fl(sc(x).atan().unwrap()) - x.atan()).abs() < 1e-9);
    assert!((fl(sc(x).asin().unwrap()) - x.asin()).abs() < 1e-9);
    assert!((fl(sc(-x).sin().unwrap()) + x.sin()).abs() < 1e-9);
    assert!((fl(sc(10.5).sin().unwrap()) - 10.5f64.sin()).abs() < 1e-9);
}

#[test]
fn test_scalar_exp_ln() {
    let x = 2.3;
    assert!((fl(sc(x).exp().unwrap()) - x.exp()).abs() < 1e-8);
    assert!((fl(sc(x).ln().unwrap()) - x.ln()).abs() < 1e-9);
    assert!((fl(sc(0.001).ln().unwrap()) - 0.001f64.ln()).abs() < 1e-9);
    assert!((fl(sc(-4.0).exp().unwrap()) - (-4.0f64).exp()).abs() < 1e-9);
    assert_eq!(sc(0.0).ln(), Err(FlowError::MathDomainError));
    let p = sc(1.8).powf(sc(-3.5)).unwrap();
    assert!((fl(p) - 1.8f64.powf(-3.5)).abs() < 1e-9);
}

#[test]
fn test_out_of_range_is_reported() {
    // a mach number of two million overflows the fixed-point square
    let result = calc_pressure_ratio_from_mach(sc(2_000_000.0), sc(1.4));
    assert_eq!(result, Err(FlowError::OutOfRange));
}

#[test]
fn test_domain_errors_are_reported() {
    // a subsonic mach number sends the arcsine argument out of its domain
    assert_eq!(calc_mach_angle_from_mach(sc(0.5)), Err(FlowError::MathDomainError));
    // a ratio above one is rejected as such
    assert_eq!(
        calc_mach_from_temperature_ratio(sc(1.5), sc(1.4)),
        Err(FlowError::InvalidRatio)
    );
}
