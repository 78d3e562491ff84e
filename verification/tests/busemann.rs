use busemann::error::FlowError;
use busemann::scalar::Scalar;
use busemann::busemann::calc_contour_from_machs;
use busemann::busemann::calc_static_temperature_ratio;
use busemann::busemann::calc_total_pressure_ratio;

fn sc(x: f64) -> Scalar {
    Scalar::from_raw((x * 1e12).round() as i64)
}

fn fl(s: Scalar) -> f64 {
    s.raw() as f64 / 1e12
}

#[test]
fn test_static_temperature_ratio() {
    // T_free / T_exit = (1 + 0.2 * M_exit^2) / (1 + 0.2 * M_free^2)
    let result = calc_static_temperature_ratio(sc(3.0), sc(1.5), sc(1.4))
        .expect("calculation should succeed");
    let expected = (1.0 + 0.2 * 1.5f64.powi(2)) / (1.0 + 0.2 * 3.0f64.powi(2));
    assert!((fl(result) - expected).abs() < 1e-6);
}

#[test]
fn test_static_temperature_ratio_invalid_gamma() {
    assert_eq!(
        calc_static_temperature_ratio(sc(3.0), sc(1.5), sc(1.0)),
        Err(FlowError::InvalidSpecificHeatRatio)
    );
}

#[test]
fn test_total_pressure_ratio() {
    // compressing from mach 3.0 to mach 1.5 through a conical shock loses
    // some stagnation pressure: the recovery lies strictly between 0 and 1
    let result = calc_total_pressure_ratio(sc(3.0), sc(1.5), sc(1.4))
        .expect("calculation should succeed");
    assert!(fl(result) > 0.0);
    assert!(fl(result) < 1.0);
}

#[test]
fn test_contour_from_machs() {
    // a full design: the contour is non-empty, the shock angle lies between
    // the freestream mach angle and a normal shock, and the metrics are in
    // their physical ranges
    let design = calc_contour_from_machs(sc(3.0), sc(1.5)).expect("design should succeed");
    assert!(!design.x_coordinates.is_empty());
    assert_eq!(design.x_coordinates.len(), design.y_coordinates.len());
    let beta = fl(design.shock_angle);
    assert!(beta > (1.0f64 / 3.0).asin());
    assert!(beta < std::f64::consts::PI / 2.0);
    assert!(fl(design.total_pressure_ratio) > 0.0);
    assert!(fl(design.total_pressure_ratio) < 1.0);
    assert!(fl(design.static_temperature_ratio) > 0.0);
    assert!(fl(design.static_temperature_ratio) < 1.0);
}

#[test]
fn test_contour_requires_supersonic_freestream() {
    match calc_contour_from_machs(sc(0.8), sc(0.5)) {
        Err(e) => assert_eq!(e, FlowError::InvalidMachNumber),
        Ok(_) => panic!("a subsonic freestream must be rejected"),
    }
}
