use busemann::scalar::Scalar;
use busemann::utils::isentropic::calc_density_ratio_from_mach;
use busemann::utils::isentropic::calc_mach_angle_from_mach;
use busemann::utils::isentropic::calc_mach_from_density_ratio;
use busemann::utils::isentropic::calc_mach_from_mach_angle;
use busemann::utils::isentropic::calc_mach_from_prandtl_meyer_angle;
use busemann::utils::isentropic::calc_mach_from_pressure_ratio;
use busemann::utils::isentropic::calc_mach_from_temperature_ratio;
use busemann::utils::isentropic::calc_pressure_ratio_from_mach;
use busemann::utils::isentropic::calc_temperature_ratio_from_mach;
use busemann::utils::isentropic::prandtl_meyer_function;

fn sc(x: f64) -> Scalar {
    Scalar::from_raw((x * 1e12).round() as i64)
}

fn fl(s: Scalar) -> f64 {
    s.raw() as f64 / 1e12
}

#[test]
fn test_round_trip_pressure_ratio() {
    // mach_from_pressure_ratio(pressure_ratio_from_mach(M)) recovers M
    let m = sc(2.0);
    let g = sc(1.4);
    let ratio = calc_pressure_ratio_from_mach(m, g).expect("forward should succeed");
    let back = calc_mach_from_pressure_ratio(ratio, g).expect("inverse should succeed");
    assert!((fl(back) - 2.0).abs() < 1e-5);
}

#[test]
fn test_round_trip_temperature_ratio() {
    let m = sc(2.0);
    let g = sc(1.4);
    let ratio = calc_temperature_ratio_from_mach(m, g).expect("forward should succeed");
    let back = calc_mach_from_temperature_ratio(ratio, g).expect("inverse should succeed");
    assert!((fl(back) - 2.0).abs() < 1e-5);
}

#[test]
fn test_round_trip_density_ratio() {
    let m = sc(2.0);
    let g = sc(1.4);
    let ratio = calc_density_ratio_from_mach(m, g).expect("forward should succeed");
    let back = calc_mach_from_density_ratio(ratio, g).expect("inverse should succeed");
    assert!((fl(back) - 2.0).abs() < 1e-5);
}

#[test]
fn test_round_trip_mach_angle() {
    let m = sc(2.0);
    let angle = calc_mach_angle_from_mach(m).expect("forward should succeed");
    let back = calc_mach_from_mach_angle(angle).expect("inverse should succeed");
    assert!((fl(back) - 2.0).abs() < 1e-5);
}

#[test]
fn test_round_trip_prandtl_meyer() {
    let m = sc(2.0);
    let g = sc(1.4);
    let angle = prandtl_meyer_function(m, g).expect("forward should succeed");
    let back = calc_mach_from_prandtl_meyer_angle(angle, g).expect("inverse should succeed");
    assert!((fl(back) - 2.0).abs() < 1e-5);
}

#[test]
fn test_pressure_and_temperature_literals() {
    // the documented literal values at M = 2.0, gamma = 1.4
    let p = calc_pressure_ratio_from_mach(sc(2.0), sc(1.4)).expect("pressure ratio");
    assert!((fl(p) - 0.1278).abs() < 1e-3);
    let t = calc_temperature_ratio_from_mach(sc(2.0), sc(1.4)).expect("temperature ratio");
    assert!((fl(t) - 1.0 / 1.8).abs() < 1e-6);
}
