use vstd::prelude::*;
use crate::error::FlowError;
use crate::scalar::Scalar;
use crate::scalar::SCALE;
use crate::scalar::c_add;
use crate::scalar::c_div;
use crate::scalar::c_divi;
use crate::scalar::c_mul;
use crate::scalar::c_muli;
use crate::scalar::c_sqrt;
use crate::scalar::c_sub;
use crate::scalar::r_add;
use crate::scalar::r_matches;
use crate::scalar::elementary::cos_spec;
use crate::scalar::elementary::sin_spec;
use crate::scalar::elementary::tan_spec;

verus! {

/// A point of the conical-flow solution: the velocity components at a polar
/// angle, non-dimensionalised by the local speed of sound.
#[derive(Clone, Copy, Debug)]
pub struct VelocityVector {
    /// The radial component `u`.
    pub radial_component: Scalar,
    /// The tangential component `v`.
    pub tangential_component: Scalar,
}

impl View for VelocityVector {
    type V = (int, int);

    open spec fn view(&self) -> (int, int) {
        (self.radial_component@, self.tangential_component@)
    }
}

/// Mirror of [`VelocityVector::get_mach_number`].
pub open spec fn mach_number_spec(vv: (int, int)) -> Result<int, FlowError> {
    match c_mul(vv.0, vv.0) {
        Err(e) => Err(e),
        Ok(a) => match c_mul(vv.1, vv.1) {
            Err(e) => Err(e),
            Ok(b) => match c_add(a, b) {
                Err(e) => Err(e),
                Ok(s) => c_sqrt(s),
            },
        },
    }
}

impl VelocityVector {
    /// Whether the local Mach number is at least one, so the conical-flow
    /// equations remain valid.  Decided exactly: true if and only if
    /// `u^2 + v^2 >= 1`.
    pub fn valid_mach_number(&self) -> (b: bool)
        ensures
            b == (self@.0 * self@.0 + self@.1 * self@.1 >= (SCALE as int) * (SCALE as int)),
    {
        let u: i64 = self.radial_component.raw();
        let v: i64 = self.tangential_component.raw();
        proof {
            assert((u as int) * (u as int) + (v as int) * (v as int) <= 2 * (4_000_000_000_000_000_000int
                * 4_000_000_000_000_000_000int) && (u as int) * (u as int) >= 0 && (v as int) * (v
                as int) >= 0) by (nonlinear_arith)
                requires
                    -4_000_000_000_000_000_000 <= u <= 4_000_000_000_000_000_000,
                    -4_000_000_000_000_000_000 <= v <= 4_000_000_000_000_000_000,
            ;
        }
        let uu: i128 = (u as i128) * (u as i128);
        let vv: i128 = (v as i128) * (v as i128);
        uu + vv >= (SCALE as i128) * (SCALE as i128)
    }

    /// The local Mach number `sqrt(u^2 + v^2)`; exact mirror in
    /// [`mach_number_spec`].
    pub fn get_mach_number(&self) -> (r: Result<Scalar, FlowError>)
        ensures
            r_matches(r, mach_number_spec(self@)),
    {
        let a: Scalar = self.radial_component.mul(self.radial_component)?;
        let b: Scalar = self.tangential_component.mul(self.tangential_component)?;
        let s: Scalar = a.add(b)?;
        s.sqrt()
    }
}

/// The Taylor-Maccoll derivatives `(du/dtheta, dv/dtheta)` at one polar
/// angle.  Ephemeral: produced and consumed within one integration step.
#[derive(Clone, Copy, Debug)]
pub struct VelocityVectorDerivative {
    radial_derivative: Scalar,
    tangential_derivative: Scalar,
}

impl View for VelocityVectorDerivative {
    type V = (int, int);

    closed spec fn view(&self) -> (int, int) {
        (self.radial_derivative@, self.tangential_derivative@)
    }
}

/// One accepted step of the conical-flow integration: the velocity vector,
/// the streamline radius and the polar angle.
#[derive(Clone, Copy, Debug)]
pub struct TaylorMaccollResult {
    /// The velocity components at this step.
    pub velocity_vector: VelocityVector,
    /// The streamline radius at this step.
    pub radial_distance: Scalar,
    /// The polar angle of this step.
    pub theta: Scalar,
}

impl View for TaylorMaccollResult {
    type V = ((int, int), int, int);

    open spec fn view(&self) -> ((int, int), int, int) {
        (self.velocity_vector@, self.radial_distance@, self.theta@)
    }
}

/// Mirror of [`streamline`].
pub open spec fn streamline_spec(u: int, v: int, r: int) -> Result<int, FlowError> {
    if v == 0 {
        Err(FlowError::SingularFlowField)
    } else {
        match c_mul(r, u) {
            Err(e) => Err(e),
            Ok(p) => c_div(p, v),
        }
    }
}

/// The streamline radius derivative `dr/dtheta = r u / v`.  Fails with
/// [`FlowError::SingularFlowField`] if and only if the tangential component
/// is zero; the result is pinned exactly by [`streamline_spec`].
pub fn streamline(velocity_vector: &VelocityVector, r: Scalar) -> (res: Result<Scalar, FlowError>)
    ensures
        r_matches(res, streamline_spec(velocity_vector@.0, velocity_vector@.1, r@)),
{
    if velocity_vector.tangential_component.raw() == 0 {
        return Err(FlowError::SingularFlowField);
    }
    let p: Scalar = r.mul(velocity_vector.radial_component)?;
    p.div(velocity_vector.tangential_component)
}

/// Mirror of [`taylor_maccoll`].
pub open spec fn taylor_maccoll_spec(u: int, v: int, th: int, g: int) -> Result<
    (int, int),
    FlowError,
> {
    match c_mul(v, v) {
        Err(e) => Err(e),
        Ok(v2) => match c_sub(v2, SCALE as int) {
            Err(e) => Err(e),
            Ok(denom) => if denom == 0 {
                Err(FlowError::SingularFlowField)
            } else {
                match tan_spec(th) {
                    Err(e) => Err(e),
                    Ok(tb) => match c_div(SCALE as int, tb) {
                        Err(e) => Err(e),
                        Ok(cot) => match c_mul(v, cot) {
                            Err(e) => Err(e),
                            Ok(vc) => match c_add(u, vc) {
                                Err(e) => Err(e),
                                Ok(s) => match c_sub(g, SCALE as int) {
                                    Err(e) => Err(e),
                                    Ok(gm1) => match c_div(gm1, 2 * SCALE as int) {
                                        Err(e) => Err(e),
                                        Ok(gh) => match c_mul(gh, u) {
                                            Err(e) => Err(e),
                                            Ok(a1) => match c_mul(a1, v) {
                                                Err(e) => Err(e),
                                                Ok(a) => match c_mul(a, s) {
                                                    Err(e) => Err(e),
                                                    Ok(am) => match c_div(am, denom) {
                                                        Err(e) => Err(e),
                                                        Ok(fu) => match c_add(v, fu) {
                                                            Err(e) => Err(e),
                                                            Ok(ud) => match c_mul(gh, v2) {
                                                                Err(e) => Err(e),
                                                                Ok(bv) => match c_add(
                                                                    SCALE as int,
                                                                    bv,
                                                                ) {
                                                                    Err(e) => Err(e),
                                                                    Ok(b) => match c_mul(b, s) {
                                                                        Err(e) => Err(e),
                                                                        Ok(bs) => match c_div(
                                                                            bs,
                                                                            denom,
                                                                        ) {
                                                                            Err(e) => Err(e),
                                                                            Ok(fv) => match c_add(
                                                                                -u,
                                                                                fv,
                                                                            ) {
                                                                                Err(e) => Err(e),
                                                                                Ok(vd) => Ok(
                                                                                    (ud, vd),
                                                                                ),
                                                                            },
                                                                        },
                                                                    },
                                                                },
                                                            },
                                                        },
                                                    },
                                                },
                                            },
                                        },
                                    },
                                },
                            },
                        },
                    },
                }
            },
        },
    }
}

/// Relates a derivative result to its spec-level mirror.
pub open spec fn vvd_matches(
    r: Result<VelocityVectorDerivative, FlowError>,
    v: Result<(int, int), FlowError>,
) -> bool {
    match (r, v) {
        (Ok(d), Ok(p)) => d@ == p,
        (Err(e1), Err(e2)) => e1 == e2,
        _ => false,
    }
}

/// The Taylor-Maccoll derivatives of the conical-flow velocity components:
/// `du/dtheta = v + ((gamma-1)/2 u v)(u + v cot(theta)) / (v^2 - 1)` and
/// `dv/dtheta = -u + (1 + (gamma-1)/2 v^2)(u + v cot(theta)) / (v^2 - 1)`.
/// Fails with [`FlowError::SingularFlowField`] when `v^2 - 1` vanishes; the
/// result is pinned exactly by [`taylor_maccoll_spec`].
pub fn taylor_maccoll(velocity_vector: &VelocityVector, theta: Scalar, gamma: Scalar) -> (res:
    Result<VelocityVectorDerivative, FlowError>)
    ensures
        vvd_matches(
            res,
            taylor_maccoll_spec(velocity_vector@.0, velocity_vector@.1, theta@, gamma@),
        ),
{
    let one: Scalar = Scalar::one();
    let two: Scalar = Scalar::two();
    let u: Scalar = velocity_vector.radial_component;
    let v: Scalar = velocity_vector.tangential_component;
    let v2: Scalar = v.mul(v)?;
    let denom: Scalar = v2.sub(one)?;
    if denom.raw() == 0 {
        return Err(FlowError::SingularFlowField);
    }
    let tb: Scalar = theta.tan()?;
    let cot: Scalar = one.div(tb)?;
    let vc: Scalar = v.mul(cot)?;
    let s: Scalar = u.add(vc)?;
    let gm1: Scalar = gamma.sub(one)?;
    let gh: Scalar = gm1.div(two)?;
    let a1: Scalar = gh.mul(u)?;
    let a: Scalar = a1.mul(v)?;
    let am: Scalar = a.mul(s)?;
    let fu: Scalar = am.div(denom)?;
    let ud: Scalar = v.add(fu)?;
    let bv: Scalar = gh.mul(v2)?;
    let b: Scalar = one.add(bv)?;
    let bs: Scalar = b.mul(s)?;
    let fv: Scalar = bs.div(denom)?;
    let vd: Scalar = u.neg().add(fv)?;
    Ok(VelocityVectorDerivative { radial_derivative: ud, tangential_derivative: vd })
}

/// Mirror of one Runge-Kutta stage: the Taylor-Maccoll and streamline
/// derivatives at a point, each scaled by the step size.
pub open spec fn rk_stage_spec(u: int, v: int, r: int, th: int, h: int, g: int) -> Result<
    (int, int, int),
    FlowError,
> {
    match taylor_maccoll_spec(u, v, th, g) {
        Err(e) => Err(e),
        Ok(d) => match c_mul(h, d.0) {
            Err(e) => Err(e),
            Ok(kr) => match c_mul(h, d.1) {
                Err(e) => Err(e),
                Ok(kt) => match streamline_spec(u, v, r) {
                    Err(e) => Err(e),
                    Ok(sr) => match c_mul(h, sr) {
                        Err(e) => Err(e),
                        Ok(kc) => Ok((kr, kt, kc)),
                    },
                },
            },
        },
    }
}

/// Relates a stage result to its spec-level mirror.
pub open spec fn trip_matches(
    r: Result<(Scalar, Scalar, Scalar), FlowError>,
    v: Result<(int, int, int), FlowError>,
) -> bool {
    match (r, v) {
        (Ok(t), Ok(p)) => t.0@ == p.0 && t.1@ == p.1 && t.2@ == p.2,
        (Err(e1), Err(e2)) => e1 == e2,
        _ => false,
    }
}

/// One Runge-Kutta stage; exact mirror in [`rk_stage_spec`].
fn rk_stage(u: Scalar, v: Scalar, r: Scalar, th: Scalar, h: Scalar, g: Scalar) -> (res: Result<
    (Scalar, Scalar, Scalar),
    FlowError,
>)
    ensures
        trip_matches(res, rk_stage_spec(u@, v@, r@, th@, h@, g@)),
{
    let vv: VelocityVector = VelocityVector { radial_component: u, tangential_component: v };
    let d: VelocityVectorDerivative = taylor_maccoll(&vv, th, g)?;
    let kr: Scalar = h.mul(d.radial_derivative)?;
    let kt: Scalar = h.mul(d.tangential_derivative)?;
    let sr: Scalar = streamline(&vv, r)?;
    let kc: Scalar = h.mul(sr)?;
    Ok((kr, kt, kc))
}

/// Result-level division of a mirror value by a plain integer.
pub open spec fn r_divi(a: Result<int, FlowError>, d: int) -> Result<int, FlowError> {
    match a {
        Err(e) => Err(e),
        Ok(x) => c_divi(x, d),
    }
}

/// Gathers four mirror values, keeping the first error.
pub open spec fn gather4(
    a: Result<int, FlowError>,
    b: Result<int, FlowError>,
    c: Result<int, FlowError>,
    d: Result<int, FlowError>,
) -> Result<(int, int, int, int), FlowError> {
    match (a, b, c, d) {
        (Ok(x), Ok(y), Ok(z), Ok(w)) => Ok((x, y, z, w)),
        (Err(e), _, _, _) => Err(e),
        (_, Err(e), _, _) => Err(e),
        (_, _, Err(e), _) => Err(e),
        (_, _, _, Err(e)) => Err(e),
    }
}

/// The standard weighted Runge-Kutta combination
/// `base + (k1 + 2 k2 + 2 k3 + k4) / 6`.
pub open spec fn rk_comb(base: int, k1: int, k2: int, k3: int, k4: int) -> Result<int, FlowError> {
    r_add(
        Ok(base),
        r_divi(r_add(r_add(r_add(Ok(k1), c_muli(k2, 2)), c_muli(k3, 2)), Ok(k4)), 6),
    )
}

/// Mirror of one full fourth-order Runge-Kutta step of the coupled velocity
/// and radius system, returning the candidate `(u, v, r, theta)`.
pub open spec fn rk4_step_spec(u: int, v: int, r: int, th: int, h: int, g: int) -> Result<
    (int, int, int, int),
    FlowError,
> {
    match rk_stage_spec(u, v, r, th, h, g) {
        Err(e) => Err(e),
        Ok(k1) => match gather4(
            r_add(Ok(u), c_divi(k1.0, 2)),
            r_add(Ok(v), c_divi(k1.1, 2)),
            r_add(Ok(r), c_divi(k1.2, 2)),
            r_add(Ok(th), c_divi(h, 2)),
        ) {
            Err(e) => Err(e),
            Ok(p2) => match rk_stage_spec(p2.0, p2.1, p2.2, p2.3, h, g) {
                Err(e) => Err(e),
                Ok(k2) => match gather4(
                    r_add(Ok(u), c_divi(k2.0, 2)),
                    r_add(Ok(v), c_divi(k2.1, 2)),
                    r_add(Ok(r), c_divi(k2.2, 2)),
                    r_add(Ok(th), c_divi(h, 2)),
                ) {
                    Err(e) => Err(e),
                    Ok(p3) => match rk_stage_spec(p3.0, p3.1, p3.2, p3.3, h, g) {
                        Err(e) => Err(e),
                        Ok(k3) => match gather4(
                            c_add(u, k3.0),
                            c_add(v, k3.1),
                            c_add(r, k3.2),
                            c_add(th, h),
                        ) {
                            Err(e) => Err(e),
                            Ok(p4) => match rk_stage_spec(p4.0, p4.1, p4.2, p4.3, h, g) {
                                Err(e) => Err(e),
                                Ok(k4) => gather4(
                                    rk_comb(u, k1.0, k2.0, k3.0, k4.0),
                                    rk_comb(v, k1.1, k2.1, k3.1, k4.1),
                                    rk_comb(r, k1.2, k2.2, k3.2, k4.2),
                                    c_add(th, h),
                                ),
                            },
                        },
                    },
                },
            },
        },
    }
}

/// Relates a step result to its spec-level mirror.
pub open spec fn quad_matches(
    r: Result<(Scalar, Scalar, Scalar, Scalar), FlowError>,
    v: Result<(int, int, int, int), FlowError>,
) -> bool {
    match (r, v) {
        (Ok(t), Ok(p)) => t.0@ == p.0 && t.1@ == p.1 && t.2@ == p.2 && t.3@ == p.3,
        (Err(e1), Err(e2)) => e1 == e2,
        _ => false,
    }
}

/// One full fourth-order Runge-Kutta step; exact mirror in
/// [`rk4_step_spec`].
fn rk4_step(u: Scalar, v: Scalar, r: Scalar, th: Scalar, h: Scalar, g: Scalar) -> (res: Result<
    (Scalar, Scalar, Scalar, Scalar),
    FlowError,
>)
    ensures
        quad_matches(res, rk4_step_spec(u@, v@, r@, th@, h@, g@)),
{
    let k1: (Scalar, Scalar, Scalar) = rk_stage(u, v, r, th, h, g)?;
    let u2: Scalar = u.add(k1.0.div_int(2)?)?;
    let v2: Scalar = v.add(k1.1.div_int(2)?)?;
    let r2: Scalar = r.add(k1.2.div_int(2)?)?;
    let th2: Scalar = th.add(h.div_int(2)?)?;
    let k2: (Scalar, Scalar, Scalar) = rk_stage(u2, v2, r2, th2, h, g)?;
    let u3: Scalar = u.add(k2.0.div_int(2)?)?;
    let v3: Scalar = v.add(k2.1.div_int(2)?)?;
    let r3: Scalar = r.add(k2.2.div_int(2)?)?;
    let th3: Scalar = th.add(h.div_int(2)?)?;
    let k3: (Scalar, Scalar, Scalar) = rk_stage(u3, v3, r3, th3, h, g)?;
    let u4: Scalar = u.add(k3.0)?;
    let v4: Scalar = v.add(k3.1)?;
    let r4: Scalar = r.add(k3.2)?;
    let th4: Scalar = th.add(h)?;
    let k4: (Scalar, Scalar, Scalar) = rk_stage(u4, v4, r4, th4, h, g)?;
    let nu: Scalar = rk_combine(u, k1.0, k2.0, k3.0, k4.0)?;
    let nv: Scalar = rk_combine(v, k1.1, k2.1, k3.1, k4.1)?;
    let nr: Scalar = rk_combine(r, k1.2, k2.2, k3.2, k4.2)?;
    let nth: Scalar = th.add(h)?;
    Ok((nu, nv, nr, nth))
}

/// The weighted Runge-Kutta combination; exact mirror in [`rk_comb`].
fn rk_combine(base: Scalar, k1: Scalar, k2: Scalar, k3: Scalar, k4: Scalar) -> (res: Result<
    Scalar,
    FlowError,
>)
    ensures
        r_matches(res, rk_comb(base@, k1@, k2@, k3@, k4@)),
{
    let s1: Scalar = k1.add(k2.mul_int(2)?)?;
    let s2: Scalar = s1.add(k3.mul_int(2)?)?;
    let s3: Scalar = s2.add(k4)?;
    let inc: Scalar = s3.div_int(6)?;
    base.add(inc)
}

/// Mirror of the termination quantity
/// `cross_stream = u sin(theta) + v cos(theta)`.
pub open spec fn cross_stream_spec(u: int, v: int, th: int) -> Result<int, FlowError> {
    match sin_spec(th) {
        Err(e) => Err(e),
        Ok(s) => match cos_spec(th) {
            Err(e) => Err(e),
            Ok(c) => r_add(c_mul(u, s), c_mul(v, c)),
        },
    }
}

/// The cross-stream Mach component at a candidate state; exact mirror in
/// [`cross_stream_spec`].
fn cross_stream(u: Scalar, v: Scalar, th: Scalar) -> (res: Result<Scalar, FlowError>)
    ensures
        r_matches(res, cross_stream_spec(u@, v@, th@)),
{
    let s: Scalar = th.sin()?;
    let c: Scalar = th.cos()?;
    let a: Scalar = u.mul(s)?;
    let b: Scalar = v.mul(c)?;
    a.add(b)
}

/// The views of a sequence of integration states.
pub open spec fn state_views(s: Seq<TaylorMaccollResult>) -> Seq<((int, int), int, int)> {
    s.map_values(|t: TaylorMaccollResult| t@)
}

/// The remaining integration steps from the current state, with `acc` the
/// accepted states so far.  A candidate whose cross-stream component is
/// nonnegative is discarded and ends the integration.
pub open spec fn integrate_from(
    u: int,
    v: int,
    r: int,
    th: int,
    h: int,
    g: int,
    remaining: nat,
    acc: Seq<((int, int), int, int)>,
) -> Result<Seq<((int, int), int, int)>, FlowError>
    decreases remaining,
{
    if remaining == 0 {
        Ok(acc)
    } else {
        match rk4_step_spec(u, v, r, th, h, g) {
            Err(e) => Err(e),
            Ok(nx) => match cross_stream_spec(nx.0, nx.1, nx.3) {
                Err(e) => Err(e),
                Ok(cr) => if cr >= 0 {
                    Ok(acc)
                } else {
                    integrate_from(
                        nx.0,
                        nx.1,
                        nx.2,
                        nx.3,
                        h,
                        g,
                        (remaining - 1) as nat,
                        acc.push(((nx.0, nx.1), nx.2, nx.3)),
                    )
                },
            },
        }
    }
}

/// The fixed step size of an integration: the signed angle span divided by
/// the step count.
pub open spec fn step_size_spec(initial_theta: int, final_theta: int, steps: nat) -> Result<
    int,
    FlowError,
> {
    match c_sub(final_theta, initial_theta) {
        Err(e) => Err(e),
        Ok(d) => c_divi(d, steps as int),
    }
}

/// Mirror of [`solve_taylor_maccoll`].
pub open spec fn solve_taylor_maccoll_spec(
    vv: (int, int),
    initial_theta: int,
    final_theta: int,
    initial_r: int,
    g: int,
    steps: nat,
) -> Result<Seq<((int, int), int, int)>, FlowError> {
    let first = ((vv.0, vv.1), initial_r, initial_theta);
    if steps == 0 {
        Ok(seq![first])
    } else {
        match step_size_spec(initial_theta, final_theta, steps) {
            Err(e) => Err(e),
            Ok(h) => integrate_from(vv.0, vv.1, initial_r, initial_theta, h, g, steps, seq![first]),
        }
    }
}

/// Whether a returned state was accepted by the termination rule: its
/// cross-stream component is defined and strictly negative.
pub open spec fn accepted_state(st: ((int, int), int, int)) -> bool {
    cross_stream_spec(st.0.0, st.0.1, st.2) matches Ok(c) && c < 0
}

/// Each state that an `Ok` run of [`integrate_from`] appends to its
/// accumulator was accepted by the termination rule.
proof fn lemma_integrate_from_accepted(
    u: int,
    v: int,
    r: int,
    th: int,
    h: int,
    g: int,
    remaining: nat,
    acc: Seq<((int, int), int, int)>,
)
    requires
        forall|i: int| 1 <= i < acc.len() ==> accepted_state(#[trigger] acc[i]),
    ensures
        integrate_from(u, v, r, th, h, g, remaining, acc) matches Ok(s) ==> forall|i: int|
            1 <= i < s.len() ==> accepted_state(#[trigger] s[i]),
    decreases remaining,
{
    if remaining == 0 {
    } else {
        match rk4_step_spec(u, v, r, th, h, g) {
            Err(_) => {},
            Ok(nx) => match cross_stream_spec(nx.0, nx.1, nx.3) {
                Err(_) => {},
                Ok(cr) => {
                    if cr >= 0 {
                    } else {
                        let st = ((nx.0, nx.1), nx.2, nx.3);
                        let acc2 = acc.push(st);
                        assert(accepted_state(st));
                        assert forall|i: int| 1 <= i < acc2.len() implies accepted_state(
                            #[trigger] acc2[i],
                        ) by {
                            if i < acc.len() {
                                assert(acc2[i] == acc[i]);
                            } else {
                                assert(acc2[i] == st);
                            }
                        }
                        lemma_integrate_from_accepted(
                            nx.0,
                            nx.1,
                            nx.2,
                            nx.3,
                            h,
                            g,
                            (remaining - 1) as nat,
                            acc2,
                        );
                    }
                },
            },
        }
    }
}

/// When an `Ok` run of [`integrate_from`] stops with budget to spare, the
/// candidate step taken from its last state has a nonnegative cross-stream
/// component.
proof fn lemma_integrate_from_halt(
    u: int,
    v: int,
    r: int,
    th: int,
    h: int,
    g: int,
    remaining: nat,
    acc: Seq<((int, int), int, int)>,
)
    requires
        acc.len() > 0,
        acc.last() == ((u, v), r, th),
    ensures
        integrate_from(u, v, r, th, h, g, remaining, acc) matches Ok(s) ==> (s.len() < acc.len()
            + remaining ==> (rk4_step_spec(s.last().0.0, s.last().0.1, s.last().1, s.last().2, h, g)
            matches Ok(nx) && (cross_stream_spec(nx.0, nx.1, nx.3) matches Ok(c) && c >= 0))),
    decreases remaining,
{
    if remaining == 0 {
    } else {
        match rk4_step_spec(u, v, r, th, h, g) {
            Err(_) => {},
            Ok(nx) => match cross_stream_spec(nx.0, nx.1, nx.3) {
                Err(_) => {},
                Ok(cr) => {
                    if cr >= 0 {
                    } else {
                        let st = ((nx.0, nx.1), nx.2, nx.3);
                        let acc2 = acc.push(st);
                        assert(acc2.last() == st);
                        lemma_integrate_from_halt(
                            nx.0,
                            nx.1,
                            nx.2,
                            nx.3,
                            h,
                            g,
                            (remaining - 1) as nat,
                            acc2,
                        );
                    }
                },
            },
        }
    }
}

/// Law: the conical-flow integration stops no later than the first step
/// whose candidate state has a nonnegative cross-stream component.  Every
/// state a successful run returns beyond the initial one was accepted with
/// a strictly negative cross-stream component, and whenever the run ends
/// with budget to spare, the very next candidate step from the last
/// returned state reaches or passes the terminal (axisymmetric) direction.
pub proof fn lemma_integration_termination(
    vv: (int, int),
    initial_theta: int,
    final_theta: int,
    initial_r: int,
    g: int,
    steps: nat,
)
    ensures
        solve_taylor_maccoll_spec(vv, initial_theta, final_theta, initial_r, g, steps) matches Ok(s)
            ==> forall|i: int| 1 <= i < s.len() ==> accepted_state(#[trigger] s[i]),
        solve_taylor_maccoll_spec(vv, initial_theta, final_theta, initial_r, g, steps) matches Ok(
            s,
        ) ==> (0 < steps && s.len() < steps + 1 ==> (step_size_spec(initial_theta, final_theta, steps)
            matches Ok(h) && (rk4_step_spec(s.last().0.0, s.last().0.1, s.last().1, s.last().2, h, g)
            matches Ok(nx) && (cross_stream_spec(nx.0, nx.1, nx.3) matches Ok(c) && c >= 0)))),
{
    let first = ((vv.0, vv.1), initial_r, initial_theta);
    if steps == 0 {
    } else {
        match step_size_spec(initial_theta, final_theta, steps) {
            Err(_) => {},
            Ok(h) => {
                assert(seq![first].last() == first);
                lemma_integrate_from_accepted(
                    vv.0,
                    vv.1,
                    initial_r,
                    initial_theta,
                    h,
                    g,
                    steps,
                    seq![first],
                );
                lemma_integrate_from_halt(
                    vv.0,
                    vv.1,
                    initial_r,
                    initial_theta,
                    h,
                    g,
                    steps,
                    seq![first],
                );
            },
        }
    }
}

/// Relates an integration result to its spec-level mirror.
pub open spec fn states_match(
    r: Result<Vec<TaylorMaccollResult>, FlowError>,
    v: Result<Seq<((int, int), int, int)>, FlowError>,
) -> bool {
    match (r, v) {
        (Ok(vec), Ok(s)) => state_views(vec@) == s,
        (Err(e1), Err(e2)) => e1 == e2,
        _ => false,
    }
}

/// Integrates the Taylor-Maccoll equations and the streamline radius by
/// fourth-order Runge-Kutta over `[initial_theta, final_theta]` with a fixed
/// step count.
///
/// After each step the candidate state is tested: once the cross-stream
/// component `u sin(theta) + v cos(theta)` is nonnegative, the terminal
/// (axisymmetric) direction has been reached, the candidate is discarded and
/// the states accumulated so far are returned.  On success the sequence is
/// nonempty, begins with the supplied initial condition, and holds at most
/// `steps + 1` states; the whole outcome, error cases included, is pinned
/// exactly by [`solve_taylor_maccoll_spec`].
pub fn solve_taylor_maccoll(
    initial_velocity_vector: VelocityVector,
    initial_theta: Scalar,
    final_theta: Scalar,
    initial_r: Scalar,
    gamma: Scalar,
    steps: usize,
) -> (res: Result<Vec<TaylorMaccollResult>, FlowError>)
    requires
        steps <= 0x7fff_ffff_ffff_ffff,
    ensures
        states_match(
            res,
            solve_taylor_maccoll_spec(
                initial_velocity_vector@,
                initial_theta@,
                final_theta@,
                initial_r@,
                gamma@,
                steps as nat,
            ),
        ),
        res matches Ok(states) ==> 1 <= states@.len() <= steps + 1,
        res matches Ok(states) ==> states@[0].velocity_vector@ == initial_velocity_vector@
            && states@[0].radial_distance@ == initial_r@ && states@[0].theta@ == initial_theta@,
{
    let first: TaylorMaccollResult = TaylorMaccollResult {
        velocity_vector: initial_velocity_vector,
        radial_distance: initial_r,
        theta: initial_theta,
    };
    let mut results: Vec<TaylorMaccollResult> = Vec::new();
    results.push(first);
    proof {
        assert(state_views(results@) =~= seq![first@]);
    }
    if steps == 0 {
        return Ok(results);
    }
    let d: Scalar = final_theta.sub(initial_theta)?;
    let h: Scalar = d.div_int(steps as i64)?;
    let mut u: Scalar = initial_velocity_vector.radial_component;
    let mut v: Scalar = initial_velocity_vector.tangential_component;
    let mut r: Scalar = initial_r;
    let mut th: Scalar = initial_theta;
    let mut i: usize = 0;
    while i < steps
        invariant
            i <= steps,
            steps >= 1,
            results@.len() >= 1,
            results@.len() <= 1 + i,
            results@[0] == first,
            first@ == ((initial_velocity_vector@.0, initial_velocity_vector@.1), initial_r@, initial_theta@),
            solve_taylor_maccoll_spec(
                initial_velocity_vector@,
                initial_theta@,
                final_theta@,
                initial_r@,
                gamma@,
                steps as nat,
            ) == integrate_from(
                u@,
                v@,
                r@,
                th@,
                h@,
                gamma@,
                (steps - i) as nat,
                state_views(results@),
            ),
        decreases steps - i,
    {
        let nx: (Scalar, Scalar, Scalar, Scalar) = match rk4_step(u, v, r, th, h, gamma) {
            Ok(val) => val,
            Err(e) => {
                return Err(e);
            },
        };
        let cr: Scalar = match cross_stream(nx.0, nx.1, nx.3) {
            Ok(val) => val,
            Err(e) => {
                return Err(e);
            },
        };
        if cr.ge(Scalar::zero()) {
            return Ok(results);
        }
        let state: TaylorMaccollResult = TaylorMaccollResult {
            velocity_vector: VelocityVector {
                radial_component: nx.0,
                tangential_component: nx.1,
            },
            radial_distance: nx.2,
            theta: nx.3,
        };
        proof {
            assert(state_views(results@.push(state)) =~= state_views(results@).push(state@));
        }
        results.push(state);
        u = nx.0;
        v = nx.1;
        r = nx.2;
        th = nx.3;
        i = i + 1;
    }
    Ok(results)
}

} // verus!
