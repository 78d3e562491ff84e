use vstd::prelude::*;
use crate::error::FlowError;
use crate::scalar::Scalar;
use crate::scalar::SCALE;
use crate::scalar::c_add;
use crate::scalar::c_div;
use crate::scalar::c_mul;
use crate::scalar::c_sub;
use crate::scalar::mag;
use crate::scalar::r_add;
use crate::scalar::r_matches;
use crate::scalar::r_mul;
use crate::scalar::r_sub;
use crate::scalar::tdiv;
use crate::scalar::elementary::atan_spec;
use crate::utils::obliqueshock::deflection_angle_spec;
use crate::utils::obliqueshock::downstream_mach_from_shock_angle_spec;

verus! {

/// Default root-finder tolerance, in mantissa units (`10^-9`).
pub const DEFAULT_TOLERANCE_M: i64 = 1000;

/// Default root-finder iteration budget.
pub const DEFAULT_MAX_ITERS: u16 = 200;

/// A scalar function handed to a root finder, carrying its captured context
/// explicitly.
#[derive(Clone, Copy, Debug)]
pub enum Objective {
    /// The polynomial `a x^2 + b x + c`.
    Quadratic { a: Scalar, b: Scalar, c: Scalar },
    /// The Prandtl-Meyer inversion residual
    /// `alpha * atan(x / alpha) - atan(x) - target` over `x = sqrt(M^2 - 1)`.
    PrandtlMeyerResidual { alpha: Scalar, target: Scalar },
    /// The derivative of the Prandtl-Meyer inversion residual,
    /// `1 / ((x / alpha)^2 + 1) - 1 / (x^2 + 1)`.
    PrandtlMeyerSlope { alpha: Scalar },
    /// The oblique-shock residual
    /// `deflection_angle(M1, x, gamma) - target` over the shock angle `x`.
    DeflectionResidual { upstream_mach: Scalar, specific_heat_ratio: Scalar, target: Scalar },
    /// The oblique-shock residual
    /// `downstream_mach_from_shock_angle(M1, x, gamma) - target` over the
    /// shock angle `x`.
    DownstreamMachResidual { upstream_mach: Scalar, specific_heat_ratio: Scalar, target: Scalar },
}

/// The mathematical content of an [`Objective`]: the same variants over
/// mantissa values, for use in specifications.
pub enum ObjectiveView {
    /// The polynomial `a x^2 + b x + c`.
    Quadratic { a: int, b: int, c: int },
    /// The Prandtl-Meyer inversion residual.
    PrandtlMeyerResidual { alpha: int, target: int },
    /// The derivative of the Prandtl-Meyer inversion residual.
    PrandtlMeyerSlope { alpha: int },
    /// The oblique-shock deflection-angle residual.
    DeflectionResidual { upstream_mach: int, specific_heat_ratio: int, target: int },
    /// The oblique-shock downstream-Mach residual.
    DownstreamMachResidual { upstream_mach: int, specific_heat_ratio: int, target: int },
}

impl View for Objective {
    type V = ObjectiveView;

    open spec fn view(&self) -> ObjectiveView {
        match *self {
            Objective::Quadratic { a, b, c } => ObjectiveView::Quadratic { a: a@, b: b@, c: c@ },
            Objective::PrandtlMeyerResidual { alpha, target } => ObjectiveView::PrandtlMeyerResidual {
                alpha: alpha@,
                target: target@,
            },
            Objective::PrandtlMeyerSlope { alpha } => ObjectiveView::PrandtlMeyerSlope {
                alpha: alpha@,
            },
            Objective::DeflectionResidual {
                upstream_mach,
                specific_heat_ratio,
                target,
            } => ObjectiveView::DeflectionResidual {
                upstream_mach: upstream_mach@,
                specific_heat_ratio: specific_heat_ratio@,
                target: target@,
            },
            Objective::DownstreamMachResidual {
                upstream_mach,
                specific_heat_ratio,
                target,
            } => ObjectiveView::DownstreamMachResidual {
                upstream_mach: upstream_mach@,
                specific_heat_ratio: specific_heat_ratio@,
                target: target@,
            },
        }
    }
}

/// Mirror of the Prandtl-Meyer inversion residual.
pub open spec fn pm_residual_spec(alpha: int, target: int, x: int) -> Result<int, FlowError> {
    match c_div(x, alpha) {
        Err(e) => Err(e),
        Ok(q) => match atan_spec(q) {
            Err(e) => Err(e),
            Ok(t1) => match c_mul(alpha, t1) {
                Err(e) => Err(e),
                Ok(u1) => match atan_spec(x) {
                    Err(e) => Err(e),
                    Ok(t2) => match c_sub(u1, t2) {
                        Err(e) => Err(e),
                        Ok(d) => c_sub(d, target),
                    },
                },
            },
        },
    }
}

/// Mirror of the Prandtl-Meyer inversion residual slope.
pub open spec fn pm_slope_spec(alpha: int, x: int) -> Result<int, FlowError> {
    match c_div(x, alpha) {
        Err(e) => Err(e),
        Ok(q) => match c_mul(q, q) {
            Err(e) => Err(e),
            Ok(q2) => match c_add(q2, SCALE as int) {
                Err(e) => Err(e),
                Ok(d1) => match c_div(SCALE as int, d1) {
                    Err(e) => Err(e),
                    Ok(r1) => match c_mul(x, x) {
                        Err(e) => Err(e),
                        Ok(x2) => match c_add(x2, SCALE as int) {
                            Err(e) => Err(e),
                            Ok(d2) => match c_div(SCALE as int, d2) {
                                Err(e) => Err(e),
                                Ok(r2) => c_sub(r1, r2),
                            },
                        },
                    },
                },
            },
        },
    }
}

/// Mirror of evaluating an [`Objective`] at `x`.
pub open spec fn eval_spec(f: ObjectiveView, x: int) -> Result<int, FlowError> {
    match f {
        ObjectiveView::Quadratic { a, b, c } => r_add(
            r_add(r_mul(r_mul(Ok(a), Ok(x)), Ok(x)), r_mul(Ok(b), Ok(x))),
            Ok(c),
        ),
        ObjectiveView::PrandtlMeyerResidual { alpha, target } => pm_residual_spec(alpha, target, x),
        ObjectiveView::PrandtlMeyerSlope { alpha } => pm_slope_spec(alpha, x),
        ObjectiveView::DeflectionResidual { upstream_mach, specific_heat_ratio, target } => r_sub(
            deflection_angle_spec(upstream_mach, x, specific_heat_ratio),
            Ok(target),
        ),
        ObjectiveView::DownstreamMachResidual { upstream_mach, specific_heat_ratio, target } => r_sub(
            downstream_mach_from_shock_angle_spec(upstream_mach, x, specific_heat_ratio),
            Ok(target),
        ),
    }
}

impl Objective {
    /// Evaluates the function at `x`; exact mirror in [`eval_spec`].
    pub fn eval(&self, x: Scalar) -> (r: Result<Scalar, FlowError>)
        ensures
            r_matches(r, eval_spec(self@, x@)),
    {
        match self {
            Objective::Quadratic { a, b, c } => {
                let t1: Scalar = a.mul(x)?;
                let t2: Scalar = t1.mul(x)?;
                let t3: Scalar = b.mul(x)?;
                let t4: Scalar = t2.add(t3)?;
                t4.add(*c)
            },
            Objective::PrandtlMeyerResidual { alpha, target } => {
                let q: Scalar = x.div(*alpha)?;
                let t1: Scalar = q.atan()?;
                let u1: Scalar = alpha.mul(t1)?;
                let t2: Scalar = x.atan()?;
                let d: Scalar = u1.sub(t2)?;
                d.sub(*target)
            },
            Objective::PrandtlMeyerSlope { alpha } => {
                let one: Scalar = Scalar::one();
                let q: Scalar = x.div(*alpha)?;
                let q2: Scalar = q.mul(q)?;
                let d1: Scalar = q2.add(one)?;
                let r1: Scalar = one.div(d1)?;
                let x2: Scalar = x.mul(x)?;
                let d2: Scalar = x2.add(one)?;
                let r2: Scalar = one.div(d2)?;
                r1.sub(r2)
            },
            Objective::DeflectionResidual { upstream_mach, specific_heat_ratio, target } => {
                let d: Scalar = crate::utils::obliqueshock::calc_deflection_angle(
                    *upstream_mach,
                    x,
                    *specific_heat_ratio,
                )?;
                d.sub(*target)
            },
            Objective::DownstreamMachResidual { upstream_mach, specific_heat_ratio, target } => {
                let d: Scalar = crate::utils::obliqueshock::calc_downstream_mach_from_shock_angle(
                    *upstream_mach,
                    x,
                    *specific_heat_ratio,
                )?;
                d.sub(*target)
            },
        }
    }
}

/// The tolerance actually used by a solver: the given one, or the default.
pub open spec fn tolerance_or_default(tolerance: Option<Scalar>) -> int {
    match tolerance {
        Some(t) => t@,
        None => DEFAULT_TOLERANCE_M as int,
    }
}

/// The iteration budget actually used by a solver: the given one, or the
/// default.
pub open spec fn iters_or_default(max_iters: Option<u16>) -> nat {
    match max_iters {
        Some(n) => n as nat,
        None => DEFAULT_MAX_ITERS as nat,
    }
}

/// The remaining bisection iterations on the bracket `[lo, hi]`.
pub open spec fn bisect_from(f: ObjectiveView, lo: int, hi: int, tol: int, fuel: nat) -> Result<
    int,
    FlowError,
>
    decreases fuel,
{
    if fuel == 0 {
        Err(FlowError::ConvergenceFailure)
    } else {
        let mid = tdiv(lo + hi, 2);
        match eval_spec(f, mid) {
            Err(e) => Err(e),
            Ok(fm) => if mag(fm) < tol || tdiv(hi - lo, 2) < tol {
                Ok(mid)
            } else {
                match eval_spec(f, lo) {
                    Err(e) => Err(e),
                    Ok(fl) => if fm * fl > 0 {
                        bisect_from(f, mid, hi, tol, (fuel - 1) as nat)
                    } else {
                        bisect_from(f, lo, mid, tol, (fuel - 1) as nat)
                    },
                }
            },
        }
    }
}

/// Mirror of [`bisection`]: sorts the bracket and iterates.
pub open spec fn bisection_spec(
    f: ObjectiveView,
    x1: int,
    x2: int,
    tolerance: Option<Scalar>,
    max_iters: Option<u16>,
) -> Result<int, FlowError> {
    let lo = if x1 < x2 {
        x1
    } else {
        x2
    };
    let hi = if x1 < x2 {
        x2
    } else {
        x1
    };
    bisect_from(f, lo, hi, tolerance_or_default(tolerance), iters_or_default(max_iters))
}

/// Finds a root of `f` by bisection on the bracket `[x1, x2]`.
///
/// The caller is responsible for supplying a bracket containing a sign
/// change; the algorithm does not verify this.  Each iteration bisects the
/// bracket, succeeds when the function magnitude at the midpoint or half the
/// bracket width falls below the tolerance, and otherwise keeps the half
/// whose lower end preserves the sign condition.  Fails with
/// [`FlowError::ConvergenceFailure`] once the iteration budget is exhausted.
/// The result, and the error on every failing input, are pinned exactly by
/// [`bisection_spec`].
pub fn bisection(
    f: &Objective,
    x1: Scalar,
    x2: Scalar,
    tolerance: Option<Scalar>,
    max_iters: Option<u16>,
) -> (r: Result<Scalar, FlowError>)
    ensures
        r_matches(r, bisection_spec(f@, x1@, x2@, tolerance, max_iters)),
        r matches Ok(root) ==> eval_spec(f@, root@) matches Ok(_),
{
    let tol: Scalar = match tolerance {
        Some(t) => t,
        None => Scalar::from_raw(DEFAULT_TOLERANCE_M),
    };
    let iters: u16 = match max_iters {
        Some(n) => n,
        None => DEFAULT_MAX_ITERS,
    };
    let mut lo: Scalar = if x1.lt(x2) {
        x1
    } else {
        x2
    };
    let mut hi: Scalar = if x1.lt(x2) {
        x2
    } else {
        x1
    };
    let mut it: u16 = 0;
    while it < iters
        invariant
            it <= iters,
            tol@ == tolerance_or_default(tolerance),
            iters as nat == iters_or_default(max_iters),
            bisection_spec(f@, x1@, x2@, tolerance, max_iters) == bisect_from(
                f@,
                lo@,
                hi@,
                tol@,
                (iters - it) as nat,
            ),
        decreases iters - it,
    {
        let mid: Scalar = lo.midpoint(hi);
        let fm: Scalar = match f.eval(mid) {
            Ok(v) => v,
            Err(e) => {
                return Err(e);
            },
        };
        if fm.abs().lt(tol) || hi.half_diff(lo).lt(tol) {
            return Ok(mid);
        }
        let fl: Scalar = match f.eval(lo) {
            Ok(v) => v,
            Err(e) => {
                return Err(e);
            },
        };
        if fm.same_sign_strict(fl) {
            lo = mid;
        } else {
            hi = mid;
        }
        it = it + 1;
    }
    Err(FlowError::ConvergenceFailure)
}

/// The remaining Newton-Raphson iterations from the estimate `x`, where `fx`
/// and `dfx` are the function and derivative already evaluated at `x`.
pub open spec fn newton_from(
    f: ObjectiveView,
    df: ObjectiveView,
    x: int,
    fx: int,
    dfx: int,
    tol: int,
    fuel: nat,
) -> Result<int, FlowError>
    decreases fuel,
{
    if fuel == 0 {
        Err(FlowError::ConvergenceFailure)
    } else if mag(dfx) < 1 {
        Err(FlowError::SingularDerivative)
    } else {
        match c_div(fx, dfx) {
            Err(e) => Err(e),
            Ok(step) => match c_sub(x, step) {
                Err(e) => Err(e),
                Ok(xn) => match eval_spec(f, xn) {
                    Err(e) => Err(e),
                    Ok(fxn) => match eval_spec(df, xn) {
                        Err(e) => Err(e),
                        Ok(dfxn) => match c_sub(xn, x) {
                            Err(e) => Err(e),
                            Ok(d) => if mag(d) <= tol {
                                Ok(xn)
                            } else {
                                newton_from(f, df, xn, fxn, dfxn, tol, (fuel - 1) as nat)
                            },
                        },
                    },
                },
            },
        }
    }
}

/// Mirror of [`newton_raphson`]: evaluates at the initial guess, then
/// iterates.
pub open spec fn newton_spec(
    f: ObjectiveView,
    df: ObjectiveView,
    x_init: int,
    tolerance: Option<Scalar>,
    max_iters: Option<u16>,
) -> Result<int, FlowError> {
    match eval_spec(f, x_init) {
        Err(e) => Err(e),
        Ok(f0) => match eval_spec(df, x_init) {
            Err(e) => Err(e),
            Ok(d0) => newton_from(
                f,
                df,
                x_init,
                f0,
                d0,
                tolerance_or_default(tolerance),
                iters_or_default(max_iters),
            ),
        },
    }
}

/// Finds a root of `f` by Newton-Raphson iteration from the initial guess
/// `x_init`, with `df` as the derivative of `f`.
///
/// Each iteration steps to `x - f(x) / df(x)` and succeeds when the step
/// magnitude falls within the tolerance.  Fails with
/// [`FlowError::SingularDerivative`] when the derivative magnitude drops
/// below one mantissa unit (`10^-12`), and with
/// [`FlowError::ConvergenceFailure`] once the iteration budget is exhausted.
/// The result, and the error on every failing input, are pinned exactly by
/// [`newton_spec`].
pub fn newton_raphson(
    f: &Objective,
    df: &Objective,
    x_init: Scalar,
    tolerance: Option<Scalar>,
    max_iters: Option<u16>,
) -> (r: Result<Scalar, FlowError>)
    ensures
        r_matches(r, newton_spec(f@, df@, x_init@, tolerance, max_iters)),
{
    let tol: Scalar = match tolerance {
        Some(t) => t,
        None => Scalar::from_raw(DEFAULT_TOLERANCE_M),
    };
    let iters: u16 = match max_iters {
        Some(n) => n,
        None => DEFAULT_MAX_ITERS,
    };
    let mut x: Scalar = x_init;
    let mut fx: Scalar = f.eval(x)?;
    let mut dfx: Scalar = df.eval(x)?;
    let mut it: u16 = 0;
    while it < iters
        invariant
            it <= iters,
            tol@ == tolerance_or_default(tolerance),
            iters as nat == iters_or_default(max_iters),
            newton_spec(f@, df@, x_init@, tolerance, max_iters) == newton_from(
                f@,
                df@,
                x@,
                fx@,
                dfx@,
                tol@,
                (iters - it) as nat,
            ),
        decreases iters - it,
    {
        if dfx.abs().lt(Scalar::from_raw(1)) {
            return Err(FlowError::SingularDerivative);
        }
        let step: Scalar = match fx.div(dfx) {
            Ok(v) => v,
            Err(e) => {
                return Err(e);
            },
        };
        let x_next: Scalar = match x.sub(step) {
            Ok(v) => v,
            Err(e) => {
                return Err(e);
            },
        };
        let f_next: Scalar = match f.eval(x_next) {
            Ok(v) => v,
            Err(e) => {
                return Err(e);
            },
        };
        let df_next: Scalar = match df.eval(x_next) {
            Ok(v) => v,
            Err(e) => {
                return Err(e);
            },
        };
        let d: Scalar = match x_next.sub(x) {
            Ok(v) => v,
            Err(e) => {
                return Err(e);
            },
        };
        if d.abs().le(tol) {
            return Ok(x_next);
        }
        x = x_next;
        fx = f_next;
        dfx = df_next;
        it = it + 1;
    }
    Err(FlowError::ConvergenceFailure)
}

} // verus!
