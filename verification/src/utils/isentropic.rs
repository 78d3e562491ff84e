use vstd::prelude::*;
use crate::error::FlowError;
use crate::scalar::Scalar;
use crate::scalar::SCALE;
use crate::scalar::HALF_PI_M;
use crate::scalar::c_add;
use crate::scalar::c_div;
use crate::scalar::c_mul;
use crate::scalar::c_muli;
use crate::scalar::c_sqrt;
use crate::scalar::c_sub;
use crate::scalar::r_matches;
use crate::scalar::elementary::asin_spec;
use crate::scalar::elementary::atan_spec;
use crate::scalar::elementary::powf_spec;
use crate::scalar::elementary::sin_spec;
use crate::utils::numerics::Objective;
use crate::utils::numerics::ObjectiveView;
use crate::utils::numerics::newton_raphson;
use crate::utils::numerics::newton_spec;

verus! {

/// Whether `specific_heat_ratio` is a physically valid specific heat ratio,
/// that is, strictly greater than one.
pub fn valid_specific_heat_ratio(specific_heat_ratio: Scalar) -> (b: bool)
    ensures
        b == (specific_heat_ratio@ > SCALE as int),
{
    specific_heat_ratio.gt(Scalar::one())
}

/// Mirror of [`calc_mach_angle_from_mach`].
pub open spec fn mach_angle_from_mach_spec(m: int) -> Result<int, FlowError> {
    if m < 0 {
        Err(FlowError::InvalidMachNumber)
    } else {
        match c_div(SCALE as int, m) {
            Err(e) => Err(e),
            Ok(inv) => asin_spec(inv),
        }
    }
}

/// The Mach angle `asin(1 / M)`.  Fails with
/// [`FlowError::InvalidMachNumber`] if and only if the Mach number is
/// negative, and with [`FlowError::MathDomainError`] for a subsonic Mach
/// number, whose reciprocal leaves the arcsine domain; the result is pinned
/// exactly by [`mach_angle_from_mach_spec`].
pub fn calc_mach_angle_from_mach(mach_number: Scalar) -> (r: Result<Scalar, FlowError>)
    ensures
        r_matches(r, mach_angle_from_mach_spec(mach_number@)),
{
    if mach_number.lt(Scalar::zero()) {
        return Err(FlowError::InvalidMachNumber);
    }
    let inv: Scalar = Scalar::one().div(mach_number)?;
    inv.asin()
}

/// Mirror of the isentropic base term `1 + (gamma - 1) / 2 * M^2`.
pub open spec fn isentropic_base_spec(m: int, g: int) -> Result<int, FlowError> {
    match c_sub(g, SCALE as int) {
        Err(e) => Err(e),
        Ok(gm1) => match c_div(gm1, 2 * SCALE as int) {
            Err(e) => Err(e),
            Ok(h) => match c_mul(m, m) {
                Err(e) => Err(e),
                Ok(m2) => match c_mul(h, m2) {
                    Err(e) => Err(e),
                    Ok(t) => c_add(SCALE as int, t),
                },
            },
        },
    }
}

/// The isentropic base term `1 + (gamma - 1) / 2 * M^2`, shared by the
/// ratio relations; exact mirror in [`isentropic_base_spec`].
fn isentropic_base(mach_number: Scalar, specific_heat_ratio: Scalar) -> (r: Result<
    Scalar,
    FlowError,
>)
    ensures
        r_matches(r, isentropic_base_spec(mach_number@, specific_heat_ratio@)),
        specific_heat_ratio@ > SCALE as int ==> (r matches Ok(b) ==> b@ >= SCALE as int),
{
    let one: Scalar = Scalar::one();
    let two: Scalar = Scalar::two();
    let gm1: Scalar = specific_heat_ratio.sub(one)?;
    let h: Scalar = gm1.div(two)?;
    let m2: Scalar = mach_number.mul(mach_number)?;
    let t: Scalar = h.mul(m2)?;
    proof {
        if specific_heat_ratio@ > SCALE as int {
            crate::scalar::lemma_tdiv_nonneg(gm1@ * SCALE as int, 2 * SCALE as int);
            assert(mach_number@ * mach_number@ >= 0) by (nonlinear_arith);
            crate::scalar::lemma_tdiv_nonneg(mach_number@ * mach_number@, SCALE as int);
            assert(h@ * m2@ >= 0) by (nonlinear_arith)
                requires
                    h@ >= 0,
                    m2@ >= 0,
            ;
            crate::scalar::lemma_tdiv_nonneg(h@ * m2@, SCALE as int);
        }
    }
    one.add(t)
}

/// Mirror of [`calc_pressure_ratio_from_mach`].
pub open spec fn pressure_ratio_from_mach_spec(m: int, g: int) -> Result<int, FlowError> {
    if !(g > SCALE as int) {
        Err(FlowError::InvalidSpecificHeatRatio)
    } else {
        match isentropic_base_spec(m, g) {
            Err(e) => Err(e),
            Ok(base) => match c_sub(g, SCALE as int) {
                Err(e) => Err(e),
                Ok(gm1) => match c_div(g, gm1) {
                    Err(e) => Err(e),
                    Ok(ex) => powf_spec(base, -ex),
                },
            },
        }
    }
}

/// The isentropic pressure ratio
/// `p / p0 = (1 + (gamma - 1) / 2 * M^2)^(-gamma / (gamma - 1))`.  Fails
/// with [`FlowError::InvalidSpecificHeatRatio`] if and only if
/// `gamma <= 1`; the result is pinned exactly by
/// [`pressure_ratio_from_mach_spec`].
pub fn calc_pressure_ratio_from_mach(mach_number: Scalar, specific_heat_ratio: Scalar) -> (r:
    Result<Scalar, FlowError>)
    ensures
        r_matches(r, pressure_ratio_from_mach_spec(mach_number@, specific_heat_ratio@)),
        r matches Ok(p) ==> p@ >= 0,
{
    if !valid_specific_heat_ratio(specific_heat_ratio) {
        return Err(FlowError::InvalidSpecificHeatRatio);
    }
    let one: Scalar = Scalar::one();
    let base: Scalar = isentropic_base(mach_number, specific_heat_ratio)?;
    let gm1: Scalar = specific_heat_ratio.sub(one)?;
    let ex: Scalar = specific_heat_ratio.div(gm1)?;
    base.powf(ex.neg())
}

/// Mirror of [`calc_temperature_ratio_from_mach`].
pub open spec fn temperature_ratio_from_mach_spec(m: int, g: int) -> Result<int, FlowError> {
    if !(g > SCALE as int) {
        Err(FlowError::InvalidSpecificHeatRatio)
    } else {
        match isentropic_base_spec(m, g) {
            Err(e) => Err(e),
            Ok(base) => c_div(SCALE as int, base),
        }
    }
}

/// The isentropic temperature ratio
/// `T / T0 = (1 + (gamma - 1) / 2 * M^2)^(-1)`.  Fails with
/// [`FlowError::InvalidSpecificHeatRatio`] if and only if `gamma <= 1`; the
/// result is pinned exactly by [`temperature_ratio_from_mach_spec`].
pub fn calc_temperature_ratio_from_mach(mach_number: Scalar, specific_heat_ratio: Scalar) -> (r:
    Result<Scalar, FlowError>)
    ensures
        r_matches(r, temperature_ratio_from_mach_spec(mach_number@, specific_heat_ratio@)),
        r matches Ok(p) ==> p@ >= 0,
{
    if !valid_specific_heat_ratio(specific_heat_ratio) {
        return Err(FlowError::InvalidSpecificHeatRatio);
    }
    let base: Scalar = isentropic_base(mach_number, specific_heat_ratio)?;
    proof {
        crate::scalar::lemma_tdiv_nonneg(SCALE as int * SCALE as int, base@);
    }
    Scalar::one().div(base)
}

/// Mirror of [`calc_density_ratio_from_mach`].
pub open spec fn density_ratio_from_mach_spec(m: int, g: int) -> Result<int, FlowError> {
    if !(g > SCALE as int) {
        Err(FlowError::InvalidSpecificHeatRatio)
    } else {
        match isentropic_base_spec(m, g) {
            Err(e) => Err(e),
            Ok(base) => match c_sub(g, SCALE as int) {
                Err(e) => Err(e),
                Ok(gm1) => match c_div(SCALE as int, gm1) {
                    Err(e) => Err(e),
                    Ok(ex) => powf_spec(base, -ex),
                },
            },
        }
    }
}

/// The isentropic density ratio
/// `rho / rho0 = (1 + (gamma - 1) / 2 * M^2)^(-1 / (gamma - 1))`.  Fails
/// with [`FlowError::InvalidSpecificHeatRatio`] if and only if
/// `gamma <= 1`; the result is pinned exactly by
/// [`density_ratio_from_mach_spec`].
pub fn calc_density_ratio_from_mach(mach_number: Scalar, specific_heat_ratio: Scalar) -> (r: Result<
    Scalar,
    FlowError,
>)
    ensures
        r_matches(r, density_ratio_from_mach_spec(mach_number@, specific_heat_ratio@)),
        r matches Ok(p) ==> p@ >= 0,
{
    if !valid_specific_heat_ratio(specific_heat_ratio) {
        return Err(FlowError::InvalidSpecificHeatRatio);
    }
    let one: Scalar = Scalar::one();
    let base: Scalar = isentropic_base(mach_number, specific_heat_ratio)?;
    let gm1: Scalar = specific_heat_ratio.sub(one)?;
    let ex: Scalar = one.div(gm1)?;
    base.powf(ex.neg())
}

/// Mirror of [`calc_mach_from_speed_of_sound`].
pub open spec fn mach_from_speed_of_sound_spec(v: int, a: int) -> Result<int, FlowError> {
    c_div(v, a)
}

/// The Mach number as the quotient of flow speed and speed of sound.  Fails
/// with [`FlowError::MathDomainError`] if and only if the speed of sound is
/// zero; the result is pinned exactly by [`mach_from_speed_of_sound_spec`].
pub fn calc_mach_from_speed_of_sound(velocity: Scalar, speed_of_sound: Scalar) -> (r: Result<
    Scalar,
    FlowError,
>)
    ensures
        r_matches(r, mach_from_speed_of_sound_spec(velocity@, speed_of_sound@)),
{
    velocity.div(speed_of_sound)
}

/// Mirror of [`prandtl_meyer_function`].
pub open spec fn prandtl_meyer_spec(m: int, g: int) -> Result<int, FlowError> {
    if !(g > SCALE as int) {
        Err(FlowError::InvalidSpecificHeatRatio)
    } else if m <= SCALE as int {
        Err(FlowError::InvalidMachNumber)
    } else {
        match c_sub(g, SCALE as int) {
            Err(e) => Err(e),
            Ok(gm1) => match c_add(g, SCALE as int) {
                Err(e) => Err(e),
                Ok(gp1) => match c_div(gm1, gp1) {
                    Err(e) => Err(e),
                    Ok(gr) => match c_sqrt(gr) {
                        Err(e) => Err(e),
                        Ok(sgr) => match c_mul(m, m) {
                            Err(e) => Err(e),
                            Ok(m2) => match c_sub(m2, SCALE as int) {
                                Err(e) => Err(e),
                                Ok(m2m1) => match c_sqrt(m2m1) {
                                    Err(e) => Err(e),
                                    Ok(sm) => match c_mul(sgr, sm) {
                                        Err(e) => Err(e),
                                        Ok(inner) => match c_div(SCALE as int, sgr) {
                                            Err(e) => Err(e),
                                            Ok(isgr) => match atan_spec(inner) {
                                                Err(e) => Err(e),
                                                Ok(ai) => match c_mul(isgr, ai) {
                                                    Err(e) => Err(e),
                                                    Ok(t1) => match atan_spec(sm) {
                                                        Err(e) => Err(e),
                                                        Ok(t2) => c_sub(t1, t2),
                                                    },
                                                },
                                            },
                                        },
                                    },
                                },
                            },
                        },
                    },
                },
            },
        }
    }
}

/// The Prandtl-Meyer function
/// `nu(M) = sqrt((gamma+1)/(gamma-1)) * atan(sqrt((gamma-1)/(gamma+1)) * sqrt(M^2-1)) - atan(sqrt(M^2-1))`.
/// Fails with [`FlowError::InvalidSpecificHeatRatio`] if and only if
/// `gamma <= 1`, and otherwise with [`FlowError::InvalidMachNumber`] if and
/// only if `M <= 1`; the result is pinned exactly by
/// [`prandtl_meyer_spec`].
pub fn prandtl_meyer_function(mach_number: Scalar, specific_heat_ratio: Scalar) -> (r: Result<
    Scalar,
    FlowError,
>)
    ensures
        r_matches(r, prandtl_meyer_spec(mach_number@, specific_heat_ratio@)),
{
    if !valid_specific_heat_ratio(specific_heat_ratio) {
        return Err(FlowError::InvalidSpecificHeatRatio);
    }
    let one: Scalar = Scalar::one();
    if mach_number.le(one) {
        return Err(FlowError::InvalidMachNumber);
    }
    let gm1: Scalar = specific_heat_ratio.sub(one)?;
    let gp1: Scalar = specific_heat_ratio.add(one)?;
    let gr: Scalar = gm1.div(gp1)?;
    let sgr: Scalar = gr.sqrt()?;
    let m2: Scalar = mach_number.mul(mach_number)?;
    let m2m1: Scalar = m2.sub(one)?;
    let sm: Scalar = m2m1.sqrt()?;
    let inner: Scalar = sgr.mul(sm)?;
    let isgr: Scalar = one.div(sgr)?;
    let ai: Scalar = inner.atan()?;
    let t1: Scalar = isgr.mul(ai)?;
    let t2: Scalar = sm.atan()?;
    t1.sub(t2)
}

/// Mirror of [`calc_mach_from_mach_angle`].
pub open spec fn mach_from_mach_angle_spec(mu: int) -> Result<int, FlowError> {
    if mu < 0 || mu > HALF_PI_M as int {
        Err(FlowError::InvalidAngle)
    } else {
        match sin_spec(mu) {
            Err(e) => Err(e),
            Ok(s) => c_div(SCALE as int, s),
        }
    }
}

/// The Mach number for a given Mach angle, `1 / sin(mu)`.  Fails with
/// [`FlowError::InvalidAngle`] if and only if the angle lies outside
/// `[0, pi/2]`, and with [`FlowError::MathDomainError`] when the sine is
/// zero; the result is pinned exactly by [`mach_from_mach_angle_spec`].
pub fn calc_mach_from_mach_angle(mach_angle: Scalar) -> (r: Result<Scalar, FlowError>)
    ensures
        r_matches(r, mach_from_mach_angle_spec(mach_angle@)),
{
    if mach_angle.lt(Scalar::zero()) || mach_angle.gt(Scalar::half_pi()) {
        return Err(FlowError::InvalidAngle);
    }
    let s: Scalar = mach_angle.sin()?;
    Scalar::one().div(s)
}

/// Whether a ratio argument lies in the valid interval `(0, 1]`.
pub open spec fn valid_ratio(r: int) -> bool {
    0 < r <= SCALE as int
}

/// Mirror of [`calc_mach_from_temperature_ratio`].
pub open spec fn mach_from_temperature_ratio_spec(t: int, g: int) -> Result<int, FlowError> {
    if !(g > SCALE as int) {
        Err(FlowError::InvalidSpecificHeatRatio)
    } else if !valid_ratio(t) {
        Err(FlowError::InvalidRatio)
    } else {
        match c_div(SCALE as int, t) {
            Err(e) => Err(e),
            Ok(inv) => match c_sub(inv, SCALE as int) {
                Err(e) => Err(e),
                Ok(d) => match c_muli(d, 2) {
                    Err(e) => Err(e),
                    Ok(num) => match c_sub(g, SCALE as int) {
                        Err(e) => Err(e),
                        Ok(gm1) => match c_div(num, gm1) {
                            Err(e) => Err(e),
                            Ok(q) => c_sqrt(q),
                        },
                    },
                },
            },
        }
    }
}

/// The Mach number that yields a given isentropic temperature ratio,
/// `sqrt(2 ((1/T) - 1) / (gamma - 1))`.  Fails with
/// [`FlowError::InvalidSpecificHeatRatio`] if and only if `gamma <= 1`, and
/// otherwise with [`FlowError::InvalidRatio`] if and only if the ratio lies
/// outside `(0, 1]`; the result is pinned exactly by
/// [`mach_from_temperature_ratio_spec`].
pub fn calc_mach_from_temperature_ratio(
    temperature_ratio: Scalar,
    specific_heat_ratio: Scalar,
) -> (r: Result<Scalar, FlowError>)
    ensures
        r_matches(r, mach_from_temperature_ratio_spec(temperature_ratio@, specific_heat_ratio@)),
        r matches Ok(m) ==> m@ >= 0,
{
    if !valid_specific_heat_ratio(specific_heat_ratio) {
        return Err(FlowError::InvalidSpecificHeatRatio);
    }
    let one: Scalar = Scalar::one();
    if temperature_ratio.le(Scalar::zero()) || temperature_ratio.gt(one) {
        return Err(FlowError::InvalidRatio);
    }
    let inv: Scalar = one.div(temperature_ratio)?;
    let d: Scalar = inv.sub(one)?;
    let num: Scalar = d.mul_int(2)?;
    let gm1: Scalar = specific_heat_ratio.sub(one)?;
    let q: Scalar = num.div(gm1)?;
    q.sqrt()
}

/// Mirror of [`calc_mach_from_pressure_ratio`].
pub open spec fn mach_from_pressure_ratio_spec(p: int, g: int) -> Result<int, FlowError> {
    if !(g > SCALE as int) {
        Err(FlowError::InvalidSpecificHeatRatio)
    } else if !valid_ratio(p) {
        Err(FlowError::InvalidRatio)
    } else {
        match c_sub(g, SCALE as int) {
            Err(e) => Err(e),
            Ok(gm1) => match c_div(gm1, g) {
                Err(e) => Err(e),
                Ok(ex) => match powf_spec(p, ex) {
                    Err(e) => Err(e),
                    Ok(pw) => match c_div(SCALE as int, pw) {
                        Err(e) => Err(e),
                        Ok(inv) => match c_sub(inv, SCALE as int) {
                            Err(e) => Err(e),
                            Ok(d) => match c_muli(d, 2) {
                                Err(e) => Err(e),
                                Ok(num) => match c_div(num, gm1) {
                                    Err(e) => Err(e),
                                    Ok(q) => c_sqrt(q),
                                },
                            },
                        },
                    },
                },
            },
        }
    }
}

/// The Mach number that yields a given isentropic pressure ratio,
/// `sqrt(2 ((1 / P^((gamma-1)/gamma)) - 1) / (gamma - 1))`.  Fails with
/// [`FlowError::InvalidSpecificHeatRatio`] if and only if `gamma <= 1`, and
/// otherwise with [`FlowError::InvalidRatio`] if and only if the ratio lies
/// outside `(0, 1]`; the result is pinned exactly by
/// [`mach_from_pressure_ratio_spec`].
pub fn calc_mach_from_pressure_ratio(pressure_ratio: Scalar, specific_heat_ratio: Scalar) -> (r:
    Result<Scalar, FlowError>)
    ensures
        r_matches(r, mach_from_pressure_ratio_spec(pressure_ratio@, specific_heat_ratio@)),
        r matches Ok(m) ==> m@ >= 0,
{
    if !valid_specific_heat_ratio(specific_heat_ratio) {
        return Err(FlowError::InvalidSpecificHeatRatio);
    }
    let one: Scalar = Scalar::one();
    if pressure_ratio.le(Scalar::zero()) || pressure_ratio.gt(one) {
        return Err(FlowError::InvalidRatio);
    }
    let gm1: Scalar = specific_heat_ratio.sub(one)?;
    let ex: Scalar = gm1.div(specific_heat_ratio)?;
    let pw: Scalar = pressure_ratio.powf(ex)?;
    let inv: Scalar = one.div(pw)?;
    let d: Scalar = inv.sub(one)?;
    let num: Scalar = d.mul_int(2)?;
    let q: Scalar = num.div(gm1)?;
    q.sqrt()
}

/// Mirror of [`calc_mach_from_density_ratio`].
pub open spec fn mach_from_density_ratio_spec(dr: int, g: int) -> Result<int, FlowError> {
    if !(g > SCALE as int) {
        Err(FlowError::InvalidSpecificHeatRatio)
    } else if !valid_ratio(dr) {
        Err(FlowError::InvalidRatio)
    } else {
        match c_sub(g, SCALE as int) {
            Err(e) => Err(e),
            Ok(gm1) => match powf_spec(dr, gm1) {
                Err(e) => Err(e),
                Ok(pw) => match c_div(SCALE as int, pw) {
                    Err(e) => Err(e),
                    Ok(inv) => match c_sub(inv, SCALE as int) {
                        Err(e) => Err(e),
                        Ok(d) => match c_muli(d, 2) {
                            Err(e) => Err(e),
                            Ok(num) => match c_div(num, gm1) {
                                Err(e) => Err(e),
                                Ok(q) => c_sqrt(q),
                            },
                        },
                    },
                },
            },
        }
    }
}

/// The Mach number that yields a given isentropic density ratio,
/// `sqrt(2 ((1 / rho^(gamma-1)) - 1) / (gamma - 1))`.  Fails with
/// [`FlowError::InvalidSpecificHeatRatio`] if and only if `gamma <= 1`, and
/// otherwise with [`FlowError::InvalidRatio`] if and only if the ratio lies
/// outside `(0, 1]`; the result is pinned exactly by
/// [`mach_from_density_ratio_spec`].
pub fn calc_mach_from_density_ratio(density_ratio: Scalar, specific_heat_ratio: Scalar) -> (r:
    Result<Scalar, FlowError>)
    ensures
        r_matches(r, mach_from_density_ratio_spec(density_ratio@, specific_heat_ratio@)),
        r matches Ok(m) ==> m@ >= 0,
{
    if !valid_specific_heat_ratio(specific_heat_ratio) {
        return Err(FlowError::InvalidSpecificHeatRatio);
    }
    let one: Scalar = Scalar::one();
    if density_ratio.le(Scalar::zero()) || density_ratio.gt(one) {
        return Err(FlowError::InvalidRatio);
    }
    let gm1: Scalar = specific_heat_ratio.sub(one)?;
    let pw: Scalar = density_ratio.powf(gm1)?;
    let inv: Scalar = one.div(pw)?;
    let d: Scalar = inv.sub(one)?;
    let num: Scalar = d.mul_int(2)?;
    let q: Scalar = num.div(gm1)?;
    q.sqrt()
}

/// Initial guess for the Prandtl-Meyer inversion, `eta = 1.5`.
pub const PM_INITIAL_GUESS_M: i64 = 1_500_000_000_000;

/// Mirror of [`calc_mach_from_prandtl_meyer_angle`].
pub open spec fn mach_from_prandtl_meyer_angle_spec(nu: int, g: int) -> Result<int, FlowError> {
    if !(g > SCALE as int) {
        Err(FlowError::InvalidSpecificHeatRatio)
    } else {
        match c_add(g, SCALE as int) {
            Err(e) => Err(e),
            Ok(gp1) => match c_sub(g, SCALE as int) {
                Err(e) => Err(e),
                Ok(gm1) => match c_div(gp1, gm1) {
                    Err(e) => Err(e),
                    Ok(ar) => match c_sqrt(ar) {
                        Err(e) => Err(e),
                        Ok(alpha) => match newton_spec(
                            ObjectiveView::PrandtlMeyerResidual { alpha, target: nu },
                            ObjectiveView::PrandtlMeyerSlope { alpha },
                            PM_INITIAL_GUESS_M as int,
                            None,
                            None,
                        ) {
                            Err(e) => Err(e),
                            Ok(eta) => match c_mul(eta, eta) {
                                Err(e) => Err(e),
                                Ok(e2) => match c_add(e2, SCALE as int) {
                                    Err(e) => Err(e),
                                    Ok(s) => c_sqrt(s),
                                },
                            },
                        },
                    },
                },
            },
        }
    }
}

/// The Mach number that yields a given Prandtl-Meyer angle, found by
/// Newton-Raphson iteration over the auxiliary variable
/// `eta = sqrt(M^2 - 1)` from the initial guess `eta = 1.5`.  Fails with
/// [`FlowError::InvalidSpecificHeatRatio`] if and only if `gamma <= 1`; the
/// result, and the error on every failing input, are pinned exactly by
/// [`mach_from_prandtl_meyer_angle_spec`].
pub fn calc_mach_from_prandtl_meyer_angle(
    prandtl_meyer_angle: Scalar,
    specific_heat_ratio: Scalar,
) -> (r: Result<Scalar, FlowError>)
    ensures
        r_matches(
            r,
            mach_from_prandtl_meyer_angle_spec(prandtl_meyer_angle@, specific_heat_ratio@),
        ),
        r matches Ok(m) ==> m@ >= 0,
{
    if !valid_specific_heat_ratio(specific_heat_ratio) {
        return Err(FlowError::InvalidSpecificHeatRatio);
    }
    let one: Scalar = Scalar::one();
    let gp1: Scalar = specific_heat_ratio.add(one)?;
    let gm1: Scalar = specific_heat_ratio.sub(one)?;
    let ar: Scalar = gp1.div(gm1)?;
    let alpha: Scalar = ar.sqrt()?;
    let f: Objective = Objective::PrandtlMeyerResidual { alpha, target: prandtl_meyer_angle };
    let df: Objective = Objective::PrandtlMeyerSlope { alpha };
    let eta: Scalar = newton_raphson(&f, &df, Scalar::from_raw(PM_INITIAL_GUESS_M), None, None)?;
    let e2: Scalar = eta.mul(eta)?;
    let s: Scalar = e2.add(one)?;
    s.sqrt()
}

} // verus!
