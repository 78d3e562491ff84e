use vstd::prelude::*;
use crate::error::FlowError;
use crate::scalar::Scalar;
use crate::scalar::HALF_PI_M;
use crate::scalar::SCALE;
use crate::scalar::c_add;
use crate::scalar::c_div;
use crate::scalar::c_divi;
use crate::scalar::c_mul;
use crate::scalar::c_muli;
use crate::scalar::c_sqrt;
use crate::scalar::c_sub;
use crate::scalar::r_matches;
use crate::scalar::elementary::asin_spec;
use crate::scalar::elementary::atan_spec;
use crate::scalar::elementary::cos_spec;
use crate::scalar::elementary::sin_spec;
use crate::scalar::elementary::tan_spec;
use crate::utils::isentropic::valid_specific_heat_ratio;
use crate::utils::numerics::Objective;
use crate::utils::numerics::ObjectiveView;
use crate::utils::numerics::bisection;
use crate::utils::numerics::bisection_spec;

verus! {

/// Mirror of [`calc_deflection_angle`].
pub open spec fn deflection_angle_spec(m1: int, beta: int, g: int) -> Result<int, FlowError> {
    match tan_spec(beta) {
        Err(e) => Err(e),
        Ok(tb) => match c_div(2 * SCALE as int, tb) {
            Err(e) => Err(e),
            Ok(a) => match sin_spec(beta) {
                Err(e) => Err(e),
                Ok(sb) => match c_mul(sb, sb) {
                    Err(e) => Err(e),
                    Ok(s2) => match c_mul(m1, m1) {
                        Err(e) => Err(e),
                        Ok(m2) => match c_mul(m2, s2) {
                            Err(e) => Err(e),
                            Ok(ms) => match c_sub(ms, SCALE as int) {
                                Err(e) => Err(e),
                                Ok(num) => match c_mul(a, num) {
                                    Err(e) => Err(e),
                                    Ok(an) => match c_muli(beta, 2) {
                                        Err(e) => Err(e),
                                        Ok(b2) => match cos_spec(b2) {
                                            Err(e) => Err(e),
                                            Ok(cb) => match c_add(g, cb) {
                                                Err(e) => Err(e),
                                                Ok(gc) => match c_mul(m2, gc) {
                                                    Err(e) => Err(e),
                                                    Ok(mg) => match c_add(mg, 2 * SCALE as int) {
                                                        Err(e) => Err(e),
                                                        Ok(den) => match c_div(an, den) {
                                                            Err(e) => Err(e),
                                                            Ok(t) => atan_spec(t),
                                                        },
                                                    },
                                                },
                                            },
                                        },
                                    },
                                },
                            },
                        },
                    },
                },
            },
        },
    }
}

/// The flow deflection angle produced by an oblique shock of angle `beta`
/// at upstream Mach `m1`:
/// `atan(2 cot(beta) (M1^2 sin^2(beta) - 1) / (M1^2 (gamma + cos 2 beta) + 2))`.
/// The result, and the error on every failing input, are pinned exactly by
/// [`deflection_angle_spec`].
pub fn calc_deflection_angle(
    upstream_mach: Scalar,
    shock_angle: Scalar,
    specific_heat_ratio: Scalar,
) -> (r: Result<Scalar, FlowError>)
    ensures
        r_matches(r, deflection_angle_spec(upstream_mach@, shock_angle@, specific_heat_ratio@)),
{
    let two: Scalar = Scalar::two();
    let one: Scalar = Scalar::one();
    let tb: Scalar = shock_angle.tan()?;
    let a: Scalar = two.div(tb)?;
    let sb: Scalar = shock_angle.sin()?;
    let s2: Scalar = sb.mul(sb)?;
    let m2: Scalar = upstream_mach.mul(upstream_mach)?;
    let ms: Scalar = m2.mul(s2)?;
    let num: Scalar = ms.sub(one)?;
    let an: Scalar = a.mul(num)?;
    let b2: Scalar = shock_angle.mul_int(2)?;
    let cb: Scalar = b2.cos()?;
    let gc: Scalar = specific_heat_ratio.add(cb)?;
    let mg: Scalar = m2.mul(gc)?;
    let den: Scalar = mg.add(two)?;
    let t: Scalar = an.div(den)?;
    t.atan()
}

/// Mirror of [`calc_pressure_ratio`].
pub open spec fn pressure_ratio_spec(m1: int, beta: int, g: int) -> Result<int, FlowError> {
    match sin_spec(beta) {
        Err(e) => Err(e),
        Ok(sb) => match c_mul(sb, sb) {
            Err(e) => Err(e),
            Ok(s2) => match c_mul(m1, m1) {
                Err(e) => Err(e),
                Ok(m2) => match c_mul(2 * SCALE as int, g) {
                    Err(e) => Err(e),
                    Ok(tg) => match c_mul(tg, m2) {
                        Err(e) => Err(e),
                        Ok(tgm) => match c_mul(tgm, s2) {
                            Err(e) => Err(e),
                            Ok(lead) => match c_sub(g, SCALE as int) {
                                Err(e) => Err(e),
                                Ok(gm1) => match c_sub(lead, gm1) {
                                    Err(e) => Err(e),
                                    Ok(num) => match c_add(g, SCALE as int) {
                                        Err(e) => Err(e),
                                        Ok(den) => c_div(num, den),
                                    },
                                },
                            },
                        },
                    },
                },
            },
        },
    }
}

/// The static pressure ratio across an oblique shock:
/// `(2 gamma M1^2 sin^2(beta) - (gamma - 1)) / (gamma + 1)`.
/// The result, and the error on every failing input, are pinned exactly by
/// [`pressure_ratio_spec`].
pub fn calc_pressure_ratio(
    upstream_mach: Scalar,
    shock_angle: Scalar,
    specific_heat_ratio: Scalar,
) -> (r: Result<Scalar, FlowError>)
    ensures
        r_matches(r, pressure_ratio_spec(upstream_mach@, shock_angle@, specific_heat_ratio@)),
{
    let one: Scalar = Scalar::one();
    let two: Scalar = Scalar::two();
    let sb: Scalar = shock_angle.sin()?;
    let s2: Scalar = sb.mul(sb)?;
    let m2: Scalar = upstream_mach.mul(upstream_mach)?;
    let tg: Scalar = two.mul(specific_heat_ratio)?;
    let tgm: Scalar = tg.mul(m2)?;
    let lead: Scalar = tgm.mul(s2)?;
    let gm1: Scalar = specific_heat_ratio.sub(one)?;
    let num: Scalar = lead.sub(gm1)?;
    let den: Scalar = specific_heat_ratio.add(one)?;
    num.div(den)
}

/// Mirror of [`calc_density_ratio`].
pub open spec fn density_ratio_spec(m1: int, beta: int, g: int) -> Result<int, FlowError> {
    match sin_spec(beta) {
        Err(e) => Err(e),
        Ok(sb) => match c_mul(sb, sb) {
            Err(e) => Err(e),
            Ok(s2) => match c_mul(m1, m1) {
                Err(e) => Err(e),
                Ok(m2) => match c_add(g, SCALE as int) {
                    Err(e) => Err(e),
                    Ok(gp1) => match c_mul(gp1, m2) {
                        Err(e) => Err(e),
                        Ok(gm) => match c_mul(gm, s2) {
                            Err(e) => Err(e),
                            Ok(num) => match c_sub(g, SCALE as int) {
                                Err(e) => Err(e),
                                Ok(gm1) => match c_mul(gm1, m2) {
                                    Err(e) => Err(e),
                                    Ok(lm) => match c_mul(lm, s2) {
                                        Err(e) => Err(e),
                                        Ok(ls) => match c_add(ls, 2 * SCALE as int) {
                                            Err(e) => Err(e),
                                            Ok(den) => c_div(num, den),
                                        },
                                    },
                                },
                            },
                        },
                    },
                },
            },
        },
    }
}

/// The density ratio across an oblique shock:
/// `(gamma + 1) M1^2 sin^2(beta) / ((gamma - 1) M1^2 sin^2(beta) + 2)`.
/// The result, and the error on every failing input, are pinned exactly by
/// [`density_ratio_spec`].
pub fn calc_density_ratio(
    upstream_mach: Scalar,
    shock_angle: Scalar,
    specific_heat_ratio: Scalar,
) -> (r: Result<Scalar, FlowError>)
    ensures
        r_matches(r, density_ratio_spec(upstream_mach@, shock_angle@, specific_heat_ratio@)),
{
    let one: Scalar = Scalar::one();
    let two: Scalar = Scalar::two();
    let sb: Scalar = shock_angle.sin()?;
    let s2: Scalar = sb.mul(sb)?;
    let m2: Scalar = upstream_mach.mul(upstream_mach)?;
    let gp1: Scalar = specific_heat_ratio.add(one)?;
    let gm: Scalar = gp1.mul(m2)?;
    let num: Scalar = gm.mul(s2)?;
    let gm1: Scalar = specific_heat_ratio.sub(one)?;
    let lm: Scalar = gm1.mul(m2)?;
    let ls: Scalar = lm.mul(s2)?;
    let den: Scalar = ls.add(two)?;
    num.div(den)
}

/// Mirror of [`calc_temperature_ratio`].
pub open spec fn temperature_ratio_spec(m1: int, beta: int, g: int) -> Result<int, FlowError> {
    match pressure_ratio_spec(m1, beta, g) {
        Err(e) => Err(e),
        Ok(pr) => match density_ratio_spec(m1, beta, g) {
            Err(e) => Err(e),
            Ok(dr) => match c_div(SCALE as int, dr) {
                Err(e) => Err(e),
                Ok(inv) => c_mul(pr, inv),
            },
        },
    }
}

/// The static temperature ratio across an oblique shock, the quotient of the
/// pressure and density ratios.  The result, and the error on every failing
/// input, are pinned exactly by [`temperature_ratio_spec`].
pub fn calc_temperature_ratio(
    upstream_mach: Scalar,
    shock_angle: Scalar,
    specific_heat_ratio: Scalar,
) -> (r: Result<Scalar, FlowError>)
    ensures
        r_matches(r, temperature_ratio_spec(upstream_mach@, shock_angle@, specific_heat_ratio@)),
{
    let pr: Scalar = calc_pressure_ratio(upstream_mach, shock_angle, specific_heat_ratio)?;
    let dr: Scalar = calc_density_ratio(upstream_mach, shock_angle, specific_heat_ratio)?;
    let inv: Scalar = Scalar::one().div(dr)?;
    pr.mul(inv)
}

/// Mirror of [`calc_stagnation_pressure_ratio`].
pub open spec fn stagnation_pressure_ratio_spec(m1: int, beta: int, g: int) -> Result<
    int,
    FlowError,
> {
    if !(g > SCALE as int) {
        Err(FlowError::InvalidSpecificHeatRatio)
    } else {
        match c_sub(g, SCALE as int) {
            Err(e) => Err(e),
            Ok(gm1) => match c_div(g, gm1) {
                Err(e) => Err(e),
                Ok(e1) => match density_ratio_spec(m1, beta, g) {
                    Err(e) => Err(e),
                    Ok(dr) => match crate::scalar::elementary::powf_spec(dr, e1) {
                        Err(e) => Err(e),
                        Ok(a) => match pressure_ratio_spec(m1, beta, g) {
                            Err(e) => Err(e),
                            Ok(pr) => match c_div(SCALE as int, pr) {
                                Err(e) => Err(e),
                                Ok(inv) => match c_div(SCALE as int, gm1) {
                                    Err(e) => Err(e),
                                    Ok(e2) => match crate::scalar::elementary::powf_spec(inv, e2) {
                                        Err(e) => Err(e),
                                        Ok(b) => c_mul(a, b),
                                    },
                                },
                            },
                        },
                    },
                },
            },
        }
    }
}

/// The stagnation (total) pressure ratio across an oblique shock, the
/// composite power law
/// `density_ratio^(gamma/(gamma-1)) * (1/pressure_ratio)^(1/(gamma-1))`.
/// Fails with [`FlowError::InvalidSpecificHeatRatio`] if and only if
/// `gamma <= 1`; the result, and the error on every failing input, are
/// pinned exactly by [`stagnation_pressure_ratio_spec`].
pub fn calc_stagnation_pressure_ratio(
    upstream_mach: Scalar,
    shock_angle: Scalar,
    specific_heat_ratio: Scalar,
) -> (r: Result<Scalar, FlowError>)
    ensures
        r_matches(
            r,
            stagnation_pressure_ratio_spec(upstream_mach@, shock_angle@, specific_heat_ratio@),
        ),
        r matches Ok(p) ==> p@ >= 0,
{
    if !valid_specific_heat_ratio(specific_heat_ratio) {
        return Err(FlowError::InvalidSpecificHeatRatio);
    }
    let one: Scalar = Scalar::one();
    let gm1: Scalar = specific_heat_ratio.sub(one)?;
    let e1: Scalar = specific_heat_ratio.div(gm1)?;
    let dr: Scalar = calc_density_ratio(upstream_mach, shock_angle, specific_heat_ratio)?;
    let a: Scalar = dr.powf(e1)?;
    let pr: Scalar = calc_pressure_ratio(upstream_mach, shock_angle, specific_heat_ratio)?;
    let inv: Scalar = one.div(pr)?;
    let e2: Scalar = one.div(gm1)?;
    let b: Scalar = inv.powf(e2)?;
    proof {
        assert(a@ * b@ >= 0) by (nonlinear_arith)
            requires
                a@ >= 0,
                b@ >= 0,
        ;
        crate::scalar::lemma_tdiv_nonneg(a@ * b@, SCALE as int);
    }
    a.mul(b)
}

/// Mirror of [`calc_shock_angle`].
pub open spec fn shock_angle_spec(m1: int, theta: int, g: int) -> Result<int, FlowError> {
    if !(m1 > SCALE as int) {
        Err(FlowError::InvalidMachNumber)
    } else {
        bisection_spec(
            ObjectiveView::DeflectionResidual {
                upstream_mach: m1,
                specific_heat_ratio: g,
                target: theta,
            },
            theta,
            HALF_PI_M as int,
            None,
            None,
        )
    }
}

/// The weak-branch shock angle that produces the given deflection angle, by
/// bisection of the deflection-angle residual on the bracket
/// `[deflection_angle, pi/2]`; the lower bound being the deflection angle
/// itself selects the weak-shock branch.  Fails with
/// [`FlowError::InvalidMachNumber`] if and only if the upstream Mach number
/// is not greater than one; the result, and the error on every failing
/// input, are pinned exactly by [`shock_angle_spec`].
pub fn calc_shock_angle(
    upstream_mach: Scalar,
    deflection_angle: Scalar,
    specific_heat_ratio: Scalar,
) -> (r: Result<Scalar, FlowError>)
    ensures
        r_matches(r, shock_angle_spec(upstream_mach@, deflection_angle@, specific_heat_ratio@)),
{
    if !upstream_mach.gt(Scalar::one()) {
        return Err(FlowError::InvalidMachNumber);
    }
    let f: Objective = Objective::DeflectionResidual {
        upstream_mach,
        specific_heat_ratio,
        target: deflection_angle,
    };
    bisection(&f, deflection_angle, Scalar::half_pi(), None, None)
}

/// Mirror of [`calc_max_shock_angle`].
pub open spec fn max_shock_angle_spec(m1: int, g: int) -> Result<int, FlowError> {
    if !(g > SCALE as int) {
        Err(FlowError::InvalidSpecificHeatRatio)
    } else if !(m1 > SCALE as int) {
        Err(FlowError::InvalidMachNumber)
    } else {
        match c_mul(m1, m1) {
            Err(e) => Err(e),
            Ok(m2) => match c_mul(m2, m2) {
                Err(e) => Err(e),
                Ok(m4) => match c_add(g, SCALE as int) {
                    Err(e) => Err(e),
                    Ok(gp1) => match c_mul(gp1, m4) {
                        Err(e) => Err(e),
                        Ok(gm4) => match c_divi(gm4, 16) {
                            Err(e) => Err(e),
                            Ok(t1) => match c_sub(g, SCALE as int) {
                                Err(e) => Err(e),
                                Ok(gm1) => match c_mul(gm1, m2) {
                                    Err(e) => Err(e),
                                    Ok(lm) => match c_divi(lm, 2) {
                                        Err(e) => Err(e),
                                        Ok(t2) => match c_add(t1, t2) {
                                            Err(e) => Err(e),
                                            Ok(t12) => match c_add(t12, SCALE as int) {
                                                Err(e) => Err(e),
                                                Ok(inner) => match c_sqrt(inner) {
                                                    Err(e) => Err(e),
                                                    Ok(si) => match c_mul(gp1, si) {
                                                        Err(e) => Err(e),
                                                        Ok(t3) => match c_add(SCALE as int, t3) {
                                                            Err(e) => Err(e),
                                                            Ok(t4) => match c_mul(g, m2) {
                                                                Err(e) => Err(e),
                                                                Ok(gm2) => match c_div(
                                                                    SCALE as int,
                                                                    gm2,
                                                                ) {
                                                                    Err(e) => Err(e),
                                                                    Ok(pre) => match c_mul(
                                                                        pre,
                                                                        t4,
                                                                    ) {
                                                                        Err(e) => Err(e),
                                                                        Ok(v) => match c_sqrt(v) {
                                                                            Err(e) => Err(e),
                                                                            Ok(sm) => if sm > SCALE
                                                                                as int || sm < 0 {
                                                                                Err(
                                                                                    FlowError::MathDomainError,
                                                                                )
                                                                            } else {
                                                                                asin_spec(sm)
                                                                            },
                                                                        },
                                                                    },
                                                                },
                                                            },
                                                        },
                                                    },
                                                },
                                            },
                                        },
                                    },
                                },
                            },
                        },
                    },
                },
            },
        }
    }
}

/// The maximum (detachment) shock angle for the given upstream Mach number,
/// from the closed-form discriminant; the sine is validated to lie in
/// `[0, 1]` before inversion.  Fails with
/// [`FlowError::InvalidSpecificHeatRatio`] if and only if `gamma <= 1`, and
/// otherwise with [`FlowError::InvalidMachNumber`] if and only if the
/// upstream Mach number is not greater than one; the result, and the error
/// on every failing input, are pinned exactly by [`max_shock_angle_spec`].
pub fn calc_max_shock_angle(upstream_mach: Scalar, specific_heat_ratio: Scalar) -> (r: Result<
    Scalar,
    FlowError,
>)
    ensures
        r_matches(r, max_shock_angle_spec(upstream_mach@, specific_heat_ratio@)),
{
    if !valid_specific_heat_ratio(specific_heat_ratio) {
        return Err(FlowError::InvalidSpecificHeatRatio);
    }
    let one: Scalar = Scalar::one();
    if !upstream_mach.gt(one) {
        return Err(FlowError::InvalidMachNumber);
    }
    let m2: Scalar = upstream_mach.mul(upstream_mach)?;
    let m4: Scalar = m2.mul(m2)?;
    let gp1: Scalar = specific_heat_ratio.add(one)?;
    let gm4: Scalar = gp1.mul(m4)?;
    let t1: Scalar = gm4.div_int(16)?;
    let gm1: Scalar = specific_heat_ratio.sub(one)?;
    let lm: Scalar = gm1.mul(m2)?;
    let t2: Scalar = lm.div_int(2)?;
    let t12: Scalar = t1.add(t2)?;
    let inner: Scalar = t12.add(one)?;
    let si: Scalar = inner.sqrt()?;
    let t3: Scalar = gp1.mul(si)?;
    let t4: Scalar = one.add(t3)?;
    let gm2: Scalar = specific_heat_ratio.mul(m2)?;
    let pre: Scalar = one.div(gm2)?;
    let v: Scalar = pre.mul(t4)?;
    let sm: Scalar = v.sqrt()?;
    if sm.gt(one) || sm.lt(Scalar::zero()) {
        return Err(FlowError::MathDomainError);
    }
    sm.asin()
}

/// Mirror of [`calc_normal_upstream_mach`].
pub open spec fn normal_upstream_mach_spec(m1: int, beta: int) -> Result<int, FlowError> {
    if !(m1 > SCALE as int) {
        Err(FlowError::InvalidMachNumber)
    } else {
        match sin_spec(beta) {
            Err(e) => Err(e),
            Ok(sb) => c_mul(m1, sb),
        }
    }
}

/// The component of the upstream Mach number normal to the shock front,
/// `M1 sin(beta)`.  Fails with [`FlowError::InvalidMachNumber`] if and only
/// if the upstream Mach number is not greater than one; the result is
/// pinned exactly by [`normal_upstream_mach_spec`].
pub fn calc_normal_upstream_mach(upstream_mach: Scalar, shock_angle: Scalar) -> (r: Result<
    Scalar,
    FlowError,
>)
    ensures
        r_matches(r, normal_upstream_mach_spec(upstream_mach@, shock_angle@)),
{
    if !upstream_mach.gt(Scalar::one()) {
        return Err(FlowError::InvalidMachNumber);
    }
    let sb: Scalar = shock_angle.sin()?;
    upstream_mach.mul(sb)
}

/// Mirror of [`calc_normal_downstream_mach`].
pub open spec fn normal_downstream_mach_spec(m2: int, beta: int, theta: int) -> Result<
    int,
    FlowError,
> {
    if !(m2 > SCALE as int) {
        Err(FlowError::InvalidMachNumber)
    } else {
        match c_sub(beta, theta) {
            Err(e) => Err(e),
            Ok(d) => match sin_spec(d) {
                Err(e) => Err(e),
                Ok(sd) => c_mul(m2, sd),
            },
        }
    }
}

/// The component of the downstream Mach number normal to the shock front,
/// `M2 sin(beta - theta)`.  Fails with [`FlowError::InvalidMachNumber`] if
/// and only if the downstream Mach number is not greater than one; the
/// result is pinned exactly by [`normal_downstream_mach_spec`].
pub fn calc_normal_downstream_mach(
    downstream_mach: Scalar,
    shock_angle: Scalar,
    deflection_angle: Scalar,
) -> (r: Result<Scalar, FlowError>)
    ensures
        r_matches(
            r,
            normal_downstream_mach_spec(downstream_mach@, shock_angle@, deflection_angle@),
        ),
{
    if !downstream_mach.gt(Scalar::one()) {
        return Err(FlowError::InvalidMachNumber);
    }
    let d: Scalar = shock_angle.sub(deflection_angle)?;
    let sd: Scalar = d.sin()?;
    downstream_mach.mul(sd)
}

/// Mirror of the shared downstream-Mach computation.
pub open spec fn downstream_mach_spec(m1: int, beta: int, theta: int, g: int) -> Result<
    int,
    FlowError,
> {
    match normal_upstream_mach_spec(m1, beta) {
        Err(e) => Err(e),
        Ok(mn) => match c_mul(mn, mn) {
            Err(e) => Err(e),
            Ok(mn2) => match c_sub(g, SCALE as int) {
                Err(e) => Err(e),
                Ok(gm1) => match c_mul(gm1, mn2) {
                    Err(e) => Err(e),
                    Ok(gn) => match c_divi(gn, 2) {
                        Err(e) => Err(e),
                        Ok(half) => match c_add(SCALE as int, half) {
                            Err(e) => Err(e),
                            Ok(num) => match c_mul(g, mn2) {
                                Err(e) => Err(e),
                                Ok(gm2) => match c_divi(gm1, 2) {
                                    Err(e) => Err(e),
                                    Ok(gh) => match c_sub(gm2, gh) {
                                        Err(e) => Err(e),
                                        Ok(den) => match c_div(num, den) {
                                            Err(e) => Err(e),
                                            Ok(q) => match c_sqrt(q) {
                                                Err(e) => Err(e),
                                                Ok(md) => match c_sub(beta, theta) {
                                                    Err(e) => Err(e),
                                                    Ok(d) => match sin_spec(d) {
                                                        Err(e) => Err(e),
                                                        Ok(sd) => c_div(md, sd),
                                                    },
                                                },
                                            },
                                        },
                                    },
                                },
                            },
                        },
                    },
                },
            },
        },
    }
}

/// The downstream Mach number behind an oblique shock, from the standard
/// normal-shock relation applied to the normal component and projected back
/// through `sin(beta - theta)`.
fn calc_downstream_mach(
    upstream_mach: Scalar,
    shock_angle: Scalar,
    deflection_angle: Scalar,
    specific_heat_ratio: Scalar,
) -> (r: Result<Scalar, FlowError>)
    ensures
        r_matches(
            r,
            downstream_mach_spec(upstream_mach@, shock_angle@, deflection_angle@, specific_heat_ratio@),
        ),
{
    let one: Scalar = Scalar::one();
    let mn: Scalar = calc_normal_upstream_mach(upstream_mach, shock_angle)?;
    let mn2: Scalar = mn.mul(mn)?;
    let gm1: Scalar = specific_heat_ratio.sub(one)?;
    let gn: Scalar = gm1.mul(mn2)?;
    let half: Scalar = gn.div_int(2)?;
    let num: Scalar = one.add(half)?;
    let gm2: Scalar = specific_heat_ratio.mul(mn2)?;
    let gh: Scalar = gm1.div_int(2)?;
    let den: Scalar = gm2.sub(gh)?;
    let q: Scalar = num.div(den)?;
    let md: Scalar = q.sqrt()?;
    let d: Scalar = shock_angle.sub(deflection_angle)?;
    let sd: Scalar = d.sin()?;
    md.div(sd)
}

/// Mirror of [`calc_downstream_mach_from_shock_angle`].
pub open spec fn downstream_mach_from_shock_angle_spec(m1: int, beta: int, g: int) -> Result<
    int,
    FlowError,
> {
    match deflection_angle_spec(m1, beta, g) {
        Err(e) => Err(e),
        Ok(theta) => downstream_mach_spec(m1, beta, theta, g),
    }
}

/// The downstream Mach number for a known shock angle: first recovers the
/// deflection angle, then applies the normal-shock relation.  The result,
/// and the error on every failing input, are pinned exactly by
/// [`downstream_mach_from_shock_angle_spec`].
pub fn calc_downstream_mach_from_shock_angle(
    upstream_mach: Scalar,
    shock_angle: Scalar,
    specific_heat_ratio: Scalar,
) -> (r: Result<Scalar, FlowError>)
    ensures
        r_matches(
            r,
            downstream_mach_from_shock_angle_spec(
                upstream_mach@,
                shock_angle@,
                specific_heat_ratio@,
            ),
        ),
{
    let deflection_angle: Scalar = calc_deflection_angle(
        upstream_mach,
        shock_angle,
        specific_heat_ratio,
    )?;
    calc_downstream_mach(upstream_mach, shock_angle, deflection_angle, specific_heat_ratio)
}

/// Mirror of [`calc_downstream_mach_from_deflection_angle`].
pub open spec fn downstream_mach_from_deflection_angle_spec(m1: int, theta: int, g: int) -> Result<
    int,
    FlowError,
> {
    match shock_angle_spec(m1, theta, g) {
        Err(e) => Err(e),
        Ok(beta) => downstream_mach_spec(m1, beta, theta, g),
    }
}

/// The downstream Mach number for a known deflection angle: first recovers
/// the shock angle by bisection, then applies the normal-shock relation.
/// The result, and the error on every failing input, are pinned exactly by
/// [`downstream_mach_from_deflection_angle_spec`].
pub fn calc_downstream_mach_from_deflection_angle(
    upstream_mach: Scalar,
    deflection_angle: Scalar,
    specific_heat_ratio: Scalar,
) -> (r: Result<Scalar, FlowError>)
    ensures
        r_matches(
            r,
            downstream_mach_from_deflection_angle_spec(
                upstream_mach@,
                deflection_angle@,
                specific_heat_ratio@,
            ),
        ),
{
    let shock_angle: Scalar = calc_shock_angle(
        upstream_mach,
        deflection_angle,
        specific_heat_ratio,
    )?;
    calc_downstream_mach(upstream_mach, shock_angle, deflection_angle, specific_heat_ratio)
}

} // verus!
