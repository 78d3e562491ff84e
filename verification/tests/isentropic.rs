use busemann::scalar::Scalar;
use busemann::utils::isentropic::calc_density_ratio_from_mach;
use busemann::utils::isentropic::calc_mach_angle_from_mach;
use busemann::utils::isentropic::calc_mach_from_density_ratio;
use busemann::utils::isentropic::calc_mach_from_mach_angle;
use busemann::utils::isentropic::calc_mach_from_prandtl_meyer_angle;
use busemann::utils::isentropic::calc_mach_from_pressure_ratio;
use busemann::utils::isentropic::calc_mach_from_speed_of_sound;
use busemann::utils::isentropic::calc_mach_from_temperature_ratio;
use busemann::utils::isentropic::calc_pressure_ratio_from_mach;
use busemann::utils::isentropic::calc_temperature_ratio_from_mach;
use busemann::utils::isentropic::prandtl_meyer_function;
use busemann::utils::isentropic::valid_specific_heat_ratio;

const PI: f64 = std::f64::consts::PI;

fn sc(x: f64) -> Scalar {
    Scalar::from_raw((x * 1e12).round() as i64)
}

fn fl(s: Scalar) -> f64 {
    s.raw() as f64 / 1e12
}

#[test]
fn test_valid_specific_heat_ratio() {
    // check that valid specific heat ratio returns true for > 1
    assert!(valid_specific_heat_ratio(sc(1.4)));
    assert!(!valid_specific_heat_ratio(sc(1.0)));
}

#[test]
fn test_calc_mach_angle_from_mach() {
    // test mach angle calculation for a valid mach number
    let mach_number = 2.0;
    let result = calc_mach_angle_from_mach(sc(mach_number)).expect("valid mach number");
    let expected = (1.0 / mach_number).asin();
    assert!((fl(result) - expected).abs() < 1e-6);
}

#[test]
fn test_calc_pressure_ratio_from_mach() {
    // test pressure ratio calculation
    let mach_number = 2.0;
    let specific_heat_ratio = 1.4;
    let result = calc_pressure_ratio_from_mach(sc(mach_number), sc(specific_heat_ratio))
        .expect("valid pressure ratio");
    // expected = (1 + 0.2 * mach_number^2)^(-specific_heat_ratio/(specific_heat_ratio-1))
    let base = 1.0 + (specific_heat_ratio - 1.0) / 2.0 * mach_number.powi(2);
    let expected = base.powf(-specific_heat_ratio / (specific_heat_ratio - 1.0));
    assert!((fl(result) - expected).abs() < 1e-6);
}

#[test]
fn test_calc_temperature_ratio_from_mach() {
    // test temperature ratio calculation
    let mach_number = 2.0;
    let specific_heat_ratio = 1.4;
    let result = calc_temperature_ratio_from_mach(sc(mach_number), sc(specific_heat_ratio))
        .expect("valid temperature ratio");
    let base = 1.0 + (specific_heat_ratio - 1.0) / 2.0 * mach_number.powi(2);
    let expected = base.powi(-1);
    assert!((fl(result) - expected).abs() < 1e-6);
}

#[test]
fn test_calc_density_ratio_from_mach() {
    // test density ratio calculation
    let mach_number = 2.0;
    let specific_heat_ratio = 1.4;
    let result = calc_density_ratio_from_mach(sc(mach_number), sc(specific_heat_ratio))
        .expect("valid density ratio");
    let base = 1.0 + (specific_heat_ratio - 1.0) / 2.0 * mach_number.powi(2);
    let expected = base.powf(-1.0 / (specific_heat_ratio - 1.0));
    assert!((fl(result) - expected).abs() < 1e-6);
}

#[test]
fn test_calc_mach_from_speed_of_sound() {
    // test mach calculation from speed of sound
    let velocity = 680.0;
    let speed_of_sound = 340.0;
    let result = calc_mach_from_speed_of_sound(sc(velocity), sc(speed_of_sound))
        .expect("calculation should succeed");
    let expected = velocity / speed_of_sound;
    assert!((fl(result) - expected).abs() < 1e-6);
}

#[test]
fn test_prandtl_meyer_function() {
    // test prandtl meyer function for valid mach number > 1
    let mach_number: f64 = 2.0;
    let specific_heat_ratio: f64 = 1.4;
    let result = prandtl_meyer_function(sc(mach_number), sc(specific_heat_ratio))
        .expect("valid prandtl meyer calculation");
    // expected value calculated externally (approximate)
    // note: due to iterative nature, a small tolerance is allowed
    let expected = {
        let gamma_ratio = (specific_heat_ratio - 1.0) / (specific_heat_ratio + 1.0);
        let sqrt_gamma_ratio = gamma_ratio.sqrt();
        let term1 = 1.0 / sqrt_gamma_ratio * ((sqrt_gamma_ratio * (mach_number.powi(2) - 1.0).sqrt()).atan());
        let term2 = (mach_number.powi(2) - 1.0).sqrt().atan();
        term1 - term2
    };
    assert!((fl(result) - expected).abs() < 1e-6);
}

#[test]
fn test_calc_mach_from_mach_angle() {
    // test mach number calculation from a valid mach angle
    let mach_angle = (1.0f64 / 2.0f64).asin();
    let result = calc_mach_from_mach_angle(sc(mach_angle)).expect("valid mach angle");
    let expected = 2.0;
    assert!((fl(result) - expected).abs() < 1e-6);
}

#[test]
fn test_calc_mach_from_temperature_ratio() {
    // test mach calculation from temperature ratio
    let specific_heat_ratio = 1.4;
    // for mach=2.0, temperature_ratio = (1 + (0.4/2 * 4))^-1 = 1/1.8
    let temperature_ratio = 1.0 / 1.8;
    let result = calc_mach_from_temperature_ratio(sc(temperature_ratio), sc(specific_heat_ratio))
        .expect("valid temperature ratio");
    let expected = 2.0;
    assert!((fl(result) - expected).abs() < 1e-6);
}

#[test]
fn test_calc_mach_from_pressure_ratio() {
    // test mach calculation from pressure ratio
    let specific_heat_ratio: f64 = 1.4;
    // for mach=2.0, pressure_ratio = 1.8^(-3.5)
    let base = 1.0 + (specific_heat_ratio - 1.0) / 2.0 * 2.0f64.powi(2);
    let pressure_ratio = base.powf(-specific_heat_ratio / (specific_heat_ratio - 1.0));
    let result = calc_mach_from_pressure_ratio(sc(pressure_ratio), sc(specific_heat_ratio))
        .expect("valid pressure ratio");
    let expected = 2.0;
    assert!((fl(result) - expected).abs() < 1e-5);
}

#[test]
fn test_calc_mach_from_density_ratio() {
    // test mach calculation from density ratio
    let specific_heat_ratio: f64 = 1.4;
    // for mach=2.0, density_ratio = 1.8^(-2.5)
    let base = 1.0 + (specific_heat_ratio - 1.0) / 2.0 * 2.0f64.powi(2);
    let density_ratio = base.powf(-1.0 / (specific_heat_ratio - 1.0));
    let result = calc_mach_from_density_ratio(sc(density_ratio), sc(specific_heat_ratio))
        .expect("valid density ratio");
    let expected = 2.0;
    assert!((fl(result) - expected).abs() < 1e-5);
}

#[test]
fn test_calc_mach_from_prandtl_meyer_angle() {
    // test mach calculation from prandtl meyer angle
    let specific_heat_ratio = 1.4;
    // calculate prandtl meyer angle for mach=2.0 as input
    let prandtl_angle = prandtl_meyer_function(sc(2.0), sc(specific_heat_ratio))
        .expect("valid prandtl meyer function");
    let result = calc_mach_from_prandtl_meyer_angle(prandtl_angle, sc(specific_heat_ratio))
        .expect("valid mach from prandtl meyer angle calculation");
    let expected = 2.0;
    assert!((fl(result) - expected).abs() < 1e-5);
}

#[test]
fn isentropic_test_invalid_values() {
    // test error conditions for invalid inputs
    // invalid mach number for calc_mach_angle_from_mach (negative)
    assert!(calc_mach_angle_from_mach(sc(-1.0)).is_err());
    // invalid specific heat ratio for calc_pressure_ratio_from_mach
    assert!(calc_pressure_ratio_from_mach(sc(2.0), sc(1.0)).is_err());
    // invalid mach number for prandtl_meyer_function (<=1)
    assert!(prandtl_meyer_function(sc(1.0), sc(1.4)).is_err());
    // invalid mach angle for calc_mach_from_mach_angle (out of range)
    assert!(calc_mach_from_mach_angle(sc(PI)).is_err());
}
