use busemann::error::FlowError;
use busemann::scalar::Scalar;
use busemann::utils::numerics::Objective;
use busemann::utils::numerics::bisection;
use busemann::utils::numerics::newton_raphson;

fn sc(x: f64) -> Scalar {
    Scalar::from_raw((x * 1e12).round() as i64)
}

fn fl(s: Scalar) -> f64 {
    s.raw() as f64 / 1e12
}

fn square_minus_two() -> Objective {
    // f(x) = x^2 - 2
    Objective::Quadratic { a: sc(1.0), b: sc(0.0), c: sc(-2.0) }
}

#[test]
fn test_bisection_converges() {
    // bisection on f(x) = x^2 - 2 over [0, 2] converges to sqrt(2)
    let f = square_minus_two();
    let root = bisection(&f, sc(0.0), sc(2.0), None, None).expect("bisection should converge");
    assert!((fl(root) - 1.41421356).abs() < 1e-8);
}

#[test]
fn test_bisection_reversed_bracket() {
    // the bracket may be given in either order
    let f = square_minus_two();
    let root = bisection(&f, sc(2.0), sc(0.0), None, None).expect("bisection should converge");
    assert!((fl(root) - 1.41421356).abs() < 1e-8);
}

#[test]
fn test_newton_raphson_converges() {
    // newton-raphson on f(x) = x^2 - 2, df(x) = 2x, from x0 = 1.5
    let f = square_minus_two();
    let df = Objective::Quadratic { a: sc(0.0), b: sc(2.0), c: sc(0.0) };
    let root = newton_raphson(&f, &df, sc(1.5), None, None).expect("newton should converge");
    assert!((fl(root) - 1.41421356).abs() < 1e-8);
}

#[test]
fn test_bisection_convergence_failure() {
    // a single iteration cannot meet the default tolerance on a wide bracket
    let f = square_minus_two();
    let result = bisection(&f, sc(0.0), sc(2.0), None, Some(1));
    assert_eq!(result, Err(FlowError::ConvergenceFailure));
}

#[test]
fn test_newton_singular_derivative() {
    // a vanishing derivative is rejected rather than divided by
    let f = Objective::Quadratic { a: sc(0.0), b: sc(0.0), c: sc(5.0) };
    let df = Objective::Quadratic { a: sc(0.0), b: sc(0.0), c: sc(0.0) };
    let result = newton_raphson(&f, &df, sc(1.0), None, None);
    assert_eq!(result, Err(FlowError::SingularDerivative));
}
