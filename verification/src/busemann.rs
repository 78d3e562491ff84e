use vstd::prelude::*;
use crate::error::FlowError;
use crate::scalar::Scalar;
use crate::scalar::HALF_PI_M;
use crate::scalar::SCALE;
use crate::scalar::c_add;
use crate::scalar::c_div;
use crate::scalar::c_mul;
use crate::scalar::r_matches;
use crate::scalar::elementary::cos_spec;
use crate::scalar::elementary::sin_spec;
use crate::taylormaccoll::TaylorMaccollResult;
use crate::taylormaccoll::VelocityVector;
use crate::taylormaccoll::solve_taylor_maccoll;
use crate::taylormaccoll::solve_taylor_maccoll_spec;
use crate::taylormaccoll::state_views;
use crate::utils::isentropic::calc_mach_angle_from_mach;
use crate::utils::isentropic::calc_temperature_ratio_from_mach;
use crate::utils::isentropic::mach_angle_from_mach_spec;
use crate::utils::isentropic::temperature_ratio_from_mach_spec;
use crate::utils::isentropic::valid_specific_heat_ratio;
use crate::utils::numerics::Objective;
use crate::utils::numerics::ObjectiveView;
use crate::utils::numerics::bisection;
use crate::utils::numerics::bisection_spec;
use crate::utils::obliqueshock::calc_deflection_angle;
use crate::utils::obliqueshock::calc_downstream_mach_from_shock_angle;
use crate::utils::obliqueshock::calc_stagnation_pressure_ratio;
use crate::utils::obliqueshock::deflection_angle_spec;
use crate::utils::obliqueshock::downstream_mach_from_shock_angle_spec;
use crate::utils::obliqueshock::stagnation_pressure_ratio_spec;

verus! {

/// Mantissa of the specific heat ratio of air, 1.4, used by the contour
/// orchestration.
pub const GAMMA_AIR_M: i64 = 1_400_000_000_000;

/// Mantissa of the polar angle at which the conical-flow integration is cut
/// off when the termination rule has not fired earlier, just short of a
/// right angle.
pub const CONTOUR_THETA_END_M: i64 = 1_570_000_000_000;

/// Step budget of the conical-flow integration behind the contour.
pub const CONTOUR_STEPS: usize = 1000;

/// Mirror of the shared shock-angle determination: the shock angle at which
/// the flow behind the conical shock reaches the exit Mach number, found by
/// bisection of the downstream-Mach residual on the bracket between the
/// freestream Mach angle (a vanishing shock) and a normal shock.
pub open spec fn shock_angle_from_machs_spec(free: int, exit: int, g: int) -> Result<
    int,
    FlowError,
> {
    match mach_angle_from_mach_spec(free) {
        Err(e) => Err(e),
        Ok(mu) => bisection_spec(
            ObjectiveView::DownstreamMachResidual {
                upstream_mach: free,
                specific_heat_ratio: g,
                target: exit,
            },
            mu,
            HALF_PI_M as int,
            None,
            None,
        ),
    }
}

/// The shock angle bracketing the two design Mach numbers; exact mirror in
/// [`shock_angle_from_machs_spec`].
fn shock_angle_from_machs(
    freestream_mach: Scalar,
    exit_mach: Scalar,
    specific_heat_ratio: Scalar,
) -> (r: Result<Scalar, FlowError>)
    ensures
        r_matches(
            r,
            shock_angle_from_machs_spec(freestream_mach@, exit_mach@, specific_heat_ratio@),
        ),
{
    let mu: Scalar = calc_mach_angle_from_mach(freestream_mach)?;
    let f: Objective = Objective::DownstreamMachResidual {
        upstream_mach: freestream_mach,
        specific_heat_ratio,
        target: exit_mach,
    };
    bisection(&f, mu, Scalar::half_pi(), None, None)
}

/// Mirror of [`calc_total_pressure_ratio`].
pub open spec fn total_pressure_ratio_spec(free: int, exit: int, g: int) -> Result<
    int,
    FlowError,
> {
    if !(g > SCALE as int) {
        Err(FlowError::InvalidSpecificHeatRatio)
    } else {
        match shock_angle_from_machs_spec(free, exit, g) {
            Err(e) => Err(e),
            Ok(beta) => stagnation_pressure_ratio_spec(free, beta, g),
        }
    }
}

/// The total-pressure recovery of the compression from the freestream to the
/// exit Mach number: the isentropic stages preserve stagnation pressure, so
/// the recovery is the stagnation-pressure ratio across the conical shock
/// that brackets the two flow conditions.  Fails with
/// [`FlowError::InvalidSpecificHeatRatio`] if and only if `gamma <= 1`; the
/// result, and the error on every failing input, are pinned exactly by
/// [`total_pressure_ratio_spec`].
pub fn calc_total_pressure_ratio(
    freestream_mach: Scalar,
    exit_mach: Scalar,
    specific_heat_ratio: Scalar,
) -> (r: Result<Scalar, FlowError>)
    ensures
        r_matches(
            r,
            total_pressure_ratio_spec(freestream_mach@, exit_mach@, specific_heat_ratio@),
        ),
{
    if !valid_specific_heat_ratio(specific_heat_ratio) {
        return Err(FlowError::InvalidSpecificHeatRatio);
    }
    let beta: Scalar = shock_angle_from_machs(freestream_mach, exit_mach, specific_heat_ratio)?;
    calc_stagnation_pressure_ratio(freestream_mach, beta, specific_heat_ratio)
}

/// Mirror of [`calc_static_temperature_ratio`].
pub open spec fn static_temperature_ratio_spec(free: int, exit: int, g: int) -> Result<
    int,
    FlowError,
> {
    match temperature_ratio_from_mach_spec(free, g) {
        Err(e) => Err(e),
        Ok(a) => match temperature_ratio_from_mach_spec(exit, g) {
            Err(e) => Err(e),
            Ok(b) => match c_div(SCALE as int, b) {
                Err(e) => Err(e),
                Ok(inv) => c_mul(a, inv),
            },
        },
    }
}

/// The static temperature ratio of the compression, the quotient of the
/// isentropic temperature ratios at the freestream and exit Mach numbers.
/// The result, and the error on every failing input, are pinned exactly by
/// [`static_temperature_ratio_spec`].
pub fn calc_static_temperature_ratio(
    freestream_mach: Scalar,
    exit_mach: Scalar,
    specific_heat_ratio: Scalar,
) -> (r: Result<Scalar, FlowError>)
    ensures
        r_matches(
            r,
            static_temperature_ratio_spec(freestream_mach@, exit_mach@, specific_heat_ratio@),
        ),
{
    let a: Scalar = calc_temperature_ratio_from_mach(freestream_mach, specific_heat_ratio)?;
    let b: Scalar = calc_temperature_ratio_from_mach(exit_mach, specific_heat_ratio)?;
    let inv: Scalar = Scalar::one().div(b)?;
    a.mul(inv)
}

/// A computed inlet design: the contour coordinates of the conical-flow
/// streamline and the aggregate performance metrics.
///
/// The mapping from the `(r, theta)` history to Cartesian coordinates takes
/// `x = r cos(theta)` along the cone axis (streamwise) and
/// `y = r sin(theta)` as the radial offset from the axis; the axis
/// convention is a design decision of this crate, as the coordinates only
/// feed the external contour and export collaborators.
#[derive(Clone, Debug)]
pub struct InletDesign {
    /// Streamwise coordinates of the contour, one per integration state.
    pub x_coordinates: Vec<Scalar>,
    /// Radial coordinates of the contour, one per integration state.
    pub y_coordinates: Vec<Scalar>,
    /// The conical shock angle of the design.
    pub shock_angle: Scalar,
    /// The total-pressure recovery across the compression.
    pub total_pressure_ratio: Scalar,
    /// The static temperature ratio across the compression.
    pub static_temperature_ratio: Scalar,
}

impl View for InletDesign {
    type V = (Seq<int>, Seq<int>, int, int, int);

    open spec fn view(&self) -> (Seq<int>, Seq<int>, int, int, int) {
        (
            scalar_views(self.x_coordinates@),
            scalar_views(self.y_coordinates@),
            self.shock_angle@,
            self.total_pressure_ratio@,
            self.static_temperature_ratio@,
        )
    }
}

/// The views of a sequence of scalars.
pub open spec fn scalar_views(s: Seq<Scalar>) -> Seq<int> {
    s.map_values(|x: Scalar| x@)
}

/// The remaining coordinate conversions: each state `(vv, r, theta)` becomes
/// `(r cos(theta), r sin(theta))`.
pub open spec fn coords_from(
    states: Seq<((int, int), int, int)>,
    i: int,
    xs: Seq<int>,
    ys: Seq<int>,
) -> Result<(Seq<int>, Seq<int>), FlowError>
    decreases states.len() - i,
{
    if i < 0 || i >= states.len() {
        Ok((xs, ys))
    } else {
        let st = states[i];
        match cos_spec(st.2) {
            Err(e) => Err(e),
            Ok(c) => match c_mul(st.1, c) {
                Err(e) => Err(e),
                Ok(x) => match sin_spec(st.2) {
                    Err(e) => Err(e),
                    Ok(s) => match c_mul(st.1, s) {
                        Err(e) => Err(e),
                        Ok(y) => coords_from(states, i + 1, xs.push(x), ys.push(y)),
                    },
                },
            },
        }
    }
}

/// The steps of the design after the coordinate conversion: the performance
/// metrics, and the assembled design value.
pub open spec fn design_rest(
    coords: Result<(Seq<int>, Seq<int>), FlowError>,
    free: int,
    exit: int,
    beta: int,
) -> Result<(Seq<int>, Seq<int>, int, int, int), FlowError> {
    match coords {
        Err(e) => Err(e),
        Ok(cs) => match stagnation_pressure_ratio_spec(free, beta, GAMMA_AIR_M as int) {
            Err(e) => Err(e),
            Ok(pr) => match static_temperature_ratio_spec(free, exit, GAMMA_AIR_M as int) {
                Err(e) => Err(e),
                Ok(tr) => Ok((cs.0, cs.1, beta, pr, tr)),
            },
        },
    }
}

/// Mirror of [`calc_contour_from_machs`].
pub open spec fn contour_from_machs_spec(free: int, exit: int) -> Result<
    (Seq<int>, Seq<int>, int, int, int),
    FlowError,
> {
    let g = GAMMA_AIR_M as int;
    if !(free > SCALE as int) {
        Err(FlowError::InvalidMachNumber)
    } else {
        match shock_angle_from_machs_spec(free, exit, g) {
            Err(e) => Err(e),
            Ok(beta) => match deflection_angle_spec(free, beta, g) {
                Err(e) => Err(e),
                Ok(theta_d) => match downstream_mach_from_shock_angle_spec(free, beta, g) {
                    Err(e) => Err(e),
                    Ok(m2) => match c_add(beta, theta_d) {
                        Err(e) => Err(e),
                        Ok(ang) => match cos_spec(ang) {
                            Err(e) => Err(e),
                            Ok(ca) => match c_mul(m2, ca) {
                                Err(e) => Err(e),
                                Ok(u) => match sin_spec(ang) {
                                    Err(e) => Err(e),
                                    Ok(sa) => match c_mul(m2, sa) {
                                        Err(e) => Err(e),
                                        Ok(vmag) => match solve_taylor_maccoll_spec(
                                            (u, -vmag),
                                            beta,
                                            CONTOUR_THETA_END_M as int,
                                            SCALE as int,
                                            g,
                                            CONTOUR_STEPS as nat,
                                        ) {
                                            Err(e) => Err(e),
                                            Ok(states) => design_rest(
                                                coords_from(states, 0, Seq::empty(), Seq::empty()),
                                                free,
                                                exit,
                                                beta,
                                            ),
                                        },
                                    },
                                },
                            },
                        },
                    },
                },
            },
        }
    }
}

/// Relates a design result to its spec-level mirror.
pub open spec fn design_matches(
    r: Result<InletDesign, FlowError>,
    v: Result<(Seq<int>, Seq<int>, int, int, int), FlowError>,
) -> bool {
    match (r, v) {
        (Ok(d), Ok(p)) => d@ == p,
        (Err(e1), Err(e2)) => e1 == e2,
        _ => false,
    }
}

/// Computes a conical-flow inlet design for a pair of design Mach numbers,
/// with the specific heat ratio of air.
///
/// The pipeline determines the conical shock angle bracketing the two flow
/// conditions by bisection of the downstream-Mach residual, derives the
/// initial velocity vector at that shock from the oblique-shock downstream
/// Mach number and the local flow angle -- inclined toward the axis, as the
/// compression field of an internal inlet converges -- integrates the
/// Taylor-Maccoll equations from the shock angle toward the axial-flow
/// limit until the flow turns axial or the step budget ends, converts the
/// `(r, theta)` history into Cartesian contour coordinates, and reports the
/// total-pressure recovery and static temperature ratio of the
/// compression.  Fails with
/// [`FlowError::InvalidMachNumber`] if and only if the freestream Mach
/// number is not greater than one, before any other failure; the whole
/// outcome is pinned exactly by [`contour_from_machs_spec`].
pub fn calc_contour_from_machs(freestream_mach: Scalar, exit_mach: Scalar) -> (res: Result<
    InletDesign,
    FlowError,
>)
    ensures
        design_matches(res, contour_from_machs_spec(freestream_mach@, exit_mach@)),
{
    let gamma: Scalar = Scalar::from_raw(GAMMA_AIR_M);
    if !freestream_mach.gt(Scalar::one()) {
        return Err(FlowError::InvalidMachNumber);
    }
    let beta: Scalar = shock_angle_from_machs(freestream_mach, exit_mach, gamma)?;
    let theta_d: Scalar = calc_deflection_angle(freestream_mach, beta, gamma)?;
    let m2: Scalar = calc_downstream_mach_from_shock_angle(freestream_mach, beta, gamma)?;
    let ang: Scalar = beta.add(theta_d)?;
    let ca: Scalar = ang.cos()?;
    let u: Scalar = m2.mul(ca)?;
    let sa: Scalar = ang.sin()?;
    let vmag: Scalar = m2.mul(sa)?;
    let vv: VelocityVector = VelocityVector {
        radial_component: u,
        tangential_component: vmag.neg(),
    };
    let states: Vec<TaylorMaccollResult> = solve_taylor_maccoll(
        vv,
        beta,
        Scalar::from_raw(CONTOUR_THETA_END_M),
        Scalar::one(),
        gamma,
        CONTOUR_STEPS,
    )?;
    let mut xs: Vec<Scalar> = Vec::new();
    let mut ys: Vec<Scalar> = Vec::new();
    let mut j: usize = 0;
    proof {
        assert(scalar_views(xs@) =~= Seq::<int>::empty());
        assert(scalar_views(ys@) =~= Seq::<int>::empty());
    }
    while j < states.len()
        invariant
            j <= states@.len(),
            contour_from_machs_spec(freestream_mach@, exit_mach@) == design_rest(
                coords_from(state_views(states@), j as int, scalar_views(xs@), scalar_views(ys@)),
                freestream_mach@,
                exit_mach@,
                beta@,
            ),
        decreases states@.len() - j,
    {
        let st: TaylorMaccollResult = states[j];
        let c: Scalar = match st.theta.cos() {
            Ok(val) => val,
            Err(e) => {
                return Err(e);
            },
        };
        let x: Scalar = match st.radial_distance.mul(c) {
            Ok(val) => val,
            Err(e) => {
                return Err(e);
            },
        };
        let s: Scalar = match st.theta.sin() {
            Ok(val) => val,
            Err(e) => {
                return Err(e);
            },
        };
        let y: Scalar = match st.radial_distance.mul(s) {
            Ok(val) => val,
            Err(e) => {
                return Err(e);
            },
        };
        proof {
            assert(state_views(states@)[j as int] == states@[j as int]@);
            assert(scalar_views(xs@.push(x)) =~= scalar_views(xs@).push(x@));
            assert(scalar_views(ys@.push(y)) =~= scalar_views(ys@).push(y@));
        }
        xs.push(x);
        ys.push(y);
        j = j + 1;
    }
    let pr: Scalar = calc_stagnation_pressure_ratio(freestream_mach, beta, gamma)?;
    let tr: Scalar = calc_static_temperature_ratio(freestream_mach, exit_mach, gamma)?;
    Ok(
        InletDesign {
            x_coordinates: xs,
            y_coordinates: ys,
            shock_angle: beta,
            total_pressure_ratio: pr,
            static_temperature_ratio: tr,
        },
    )
}

} // verus!
