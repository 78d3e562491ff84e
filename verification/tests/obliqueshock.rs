use busemann::scalar::Scalar;
use busemann::utils::obliqueshock::calc_deflection_angle;
use busemann::utils::obliqueshock::calc_density_ratio;
use busemann::utils::obliqueshock::calc_downstream_mach_from_deflection_angle;
use busemann::utils::obliqueshock::calc_downstream_mach_from_shock_angle;
use busemann::utils::obliqueshock::calc_max_shock_angle;
use busemann::utils::obliqueshock::calc_normal_downstream_mach;
use busemann::utils::obliqueshock::calc_normal_upstream_mach;
use busemann::utils::obliqueshock::calc_pressure_ratio;
use busemann::utils::obliqueshock::calc_shock_angle;
use busemann::utils::obliqueshock::calc_stagnation_pressure_ratio;
use busemann::utils::obliqueshock::calc_temperature_ratio;

const PI: f64 = std::f64::consts::PI;

fn sc(x: f64) -> Scalar {
    Scalar::from_raw((x * 1e12).round() as i64)
}

fn fl(s: Scalar) -> f64 {
    s.raw() as f64 / 1e12
}

#[test]
fn test_calc_deflection_angle() {
    // test calc_deflection_angle with upstream mach 2.0, shock angle pi/4 and specific heat ratio 1.4
    let upstream_mach = 2.0;
    let shock_angle = PI / 4.0;
    let specific_heat_ratio = 1.4;
    let result = calc_deflection_angle(sc(upstream_mach), sc(shock_angle), sc(specific_heat_ratio))
        .expect("calculation should succeed");
    // expected value approx 0.257 rad (computed from formula)
    let expected = 0.257;
    assert!((fl(result) - expected).abs() < 1e-2);
}

#[test]
fn test_calc_pressure_ratio() {
    // test calc_pressure_ratio with upstream mach 2.0, shock angle pi/4 and specific heat ratio 1.4
    let upstream_mach = 2.0;
    let shock_angle = PI / 4.0;
    let specific_heat_ratio = 1.4;
    let result = calc_pressure_ratio(sc(upstream_mach), sc(shock_angle), sc(specific_heat_ratio))
        .expect("calculation should succeed");
    // expected value approx 2.16667
    let expected = 2.16667;
    assert!((fl(result) - expected).abs() < 1e-2);
}

#[test]
fn test_calc_density_ratio() {
    // test calc_density_ratio with upstream mach 2.0, shock angle pi/4 and specific heat ratio 1.4
    let upstream_mach = 2.0;
    let shock_angle = PI / 4.0;
    let specific_heat_ratio = 1.4;
    let result = calc_density_ratio(sc(upstream_mach), sc(shock_angle), sc(specific_heat_ratio))
        .expect("calculation should succeed");
    // expected value approx 1.7143
    let expected = 1.7143;
    assert!((fl(result) - expected).abs() < 1e-2);
}

#[test]
fn test_calc_temperature_ratio() {
    // test calc_temperature_ratio with upstream mach 2.0, shock angle pi/4 and specific heat ratio 1.4
    let upstream_mach = 2.0;
    let shock_angle = PI / 4.0;
    let specific_heat_ratio = 1.4;
    let result = calc_temperature_ratio(sc(upstream_mach), sc(shock_angle), sc(specific_heat_ratio))
        .expect("calculation should succeed");
    // expected value approx pressure_ratio/density_ratio = 2.16667/1.7143 ≈ 1.264
    let expected = 1.264;
    assert!((fl(result) - expected).abs() < 1e-2);
}

#[test]
fn test_calc_stagnation_pressure_ratio() {
    // test calc_stagnation_pressure_ratio with upstream mach 2.0, shock angle pi/4 and specific heat ratio 1.4
    let upstream_mach = 2.0;
    let shock_angle = PI / 4.0;
    let specific_heat_ratio = 1.4;
    let result = calc_stagnation_pressure_ratio(
        sc(upstream_mach),
        sc(shock_angle),
        sc(specific_heat_ratio),
    )
    .expect("calculation should succeed");
    // expected value computed approx as 0.955
    let expected = 0.955;
    assert!((fl(result) - expected).abs() < 1e-2);
}

#[test]
fn test_calc_shock_angle() {
    // test calc_shock_angle with upstream mach 2.0, using a deflection angle computed from a known shock angle
    let upstream_mach = 2.0;
    let specific_heat_ratio = 1.4;
    // using known shock angle pi/4 to compute deflection angle
    let known_shock_angle = PI / 4.0;
    let deflection_angle = calc_deflection_angle(
        sc(upstream_mach),
        sc(known_shock_angle),
        sc(specific_heat_ratio),
    )
    .expect("deflection angle calculation should succeed");
    let result = calc_shock_angle(sc(upstream_mach), deflection_angle, sc(specific_heat_ratio))
        .expect("calculation should succeed");
    // expected shock angle should be close to the known shock angle (pi/4)
    assert!((fl(result) - known_shock_angle).abs() < 1e-2);
}

#[test]
fn test_calc_max_shock_angle() {
    // test calc_max_shock_angle with upstream mach 3.0 and specific heat ratio 1.4
    let upstream_mach = 3.0;
    let specific_heat_ratio = 1.4;
    let result = calc_max_shock_angle(sc(upstream_mach), sc(specific_heat_ratio))
        .expect("calculation should succeed");
    // expected value approx asin(0.903) which is about 1.12 rad
    let expected = 1.12;
    assert!((fl(result) - expected).abs() < 1e-2);
}

#[test]
fn test_calc_normal_upstream_mach() {
    // test calc_normal_upstream_mach with upstream mach 2.0 and shock angle pi/4
    let upstream_mach = 2.0;
    let shock_angle = PI / 4.0;
    let result = calc_normal_upstream_mach(sc(upstream_mach), sc(shock_angle))
        .expect("calculation should succeed");
    // expected value is 2.0 * sin(pi/4) ≈ 1.4142
    let expected = 2.0 * (PI / 4.0).sin();
    assert!((fl(result) - expected).abs() < 1e-6);
}

#[test]
fn test_calc_normal_downstream_mach() {
    // test calc_normal_downstream_mach with downstream mach 1.5, shock angle pi/4 and deflection angle 0.257
    let downstream_mach = 1.5;
    let shock_angle = PI / 4.0;
    let deflection_angle = 0.257;
    let result = calc_normal_downstream_mach(
        sc(downstream_mach),
        sc(shock_angle),
        sc(deflection_angle),
    )
    .expect("calculation should succeed");
    // expected value is 1.5 * sin(pi/4 - 0.257)
    let expected = downstream_mach * (shock_angle - deflection_angle).sin();
    assert!((fl(result) - expected).abs() < 1e-6);
}

#[test]
fn test_calc_downstream_mach_from_shock_angle() {
    // test calc_downstream_mach_from_shock_angle; ensure that the function returns an ok result
    let upstream_mach = 2.0;
    let shock_angle = PI / 4.0;
    let specific_heat_ratio = 1.4;
    let result = calc_downstream_mach_from_shock_angle(
        sc(upstream_mach),
        sc(shock_angle),
        sc(specific_heat_ratio),
    );
    assert!(result.is_ok());
}

#[test]
fn test_calc_downstream_mach_from_deflection_angle() {
    // test calc_downstream_mach_from_deflection_angle; ensure that the function returns an ok result
    let upstream_mach = 2.0;
    let specific_heat_ratio = 1.4;
    // use a deflection angle computed from a known shock angle
    let known_shock_angle = PI / 4.0;
    let deflection_angle = calc_deflection_angle(
        sc(upstream_mach),
        sc(known_shock_angle),
        sc(specific_heat_ratio),
    )
    .expect("deflection angle calculation should succeed");
    let result = calc_downstream_mach_from_deflection_angle(
        sc(upstream_mach),
        deflection_angle,
        sc(specific_heat_ratio),
    );
    assert!(result.is_ok());
}

#[test]
fn obliqueshock_test_invalid_values() {
    // test error conditions for invalid inputs
    // invalid upstream mach for calc_normal_upstream_mach
    assert!(calc_normal_upstream_mach(sc(1.0), sc(PI / 4.0)).is_err());
    // invalid upstream mach for calc_shock_angle
    assert!(calc_shock_angle(sc(1.0), sc(0.2), sc(1.4)).is_err());
    // invalid downstream mach for calc_normal_downstream_mach
    assert!(calc_normal_downstream_mach(sc(1.0), sc(PI / 4.0), sc(0.2)).is_err());
    // invalid specific heat ratio for calc_stagnation_pressure_ratio
    assert!(calc_stagnation_pressure_ratio(sc(2.0), sc(PI / 4.0), sc(1.0)).is_err());
}
