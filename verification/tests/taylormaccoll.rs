use busemann::error::FlowError;
use busemann::scalar::Scalar;
use busemann::taylormaccoll::VelocityVector;
use busemann::taylormaccoll::solve_taylor_maccoll;
use busemann::taylormaccoll::streamline;
use busemann::taylormaccoll::taylor_maccoll;

fn sc(x: f64) -> Scalar {
    Scalar::from_raw((x * 1e12).round() as i64)
}

fn fl(s: Scalar) -> f64 {
    s.raw() as f64 / 1e12
}

// the shock angle of the conical shock that takes a freestream mach number
// of 3.0 down to an exit mach number of 1.5 at gamma = 1.4, with its
// deflection angle
const BETA: f64 = 0.8647;
const DELTA: f64 = 0.4990;

fn post_shock_state() -> VelocityVector {
    // the state at the conical shock of a design from mach 3.0 to mach 1.5
    // at gamma = 1.4: mach 1.5 inclined toward the axis by the deflection
    // angle, as in the converging compression field of an internal inlet
    let m2: f64 = 1.5;
    let ang: f64 = BETA + DELTA;
    VelocityVector {
        radial_component: sc(m2 * ang.cos()),
        tangential_component: sc(-m2 * ang.sin()),
    }
}

#[test]
fn test_velocity_vector_mach_number() {
    let vv = VelocityVector { radial_component: sc(0.6), tangential_component: sc(-0.8) };
    let m = vv.get_mach_number().expect("mach number should compute");
    assert!((fl(m) - 1.0).abs() < 1e-9);
    assert!(vv.valid_mach_number());
    let slow = VelocityVector { radial_component: sc(0.3), tangential_component: sc(-0.4) };
    assert!(!slow.valid_mach_number());
}

#[test]
fn test_streamline_derivative() {
    // dr/dtheta = r u / v
    let vv = VelocityVector { radial_component: sc(1.2), tangential_component: sc(-0.6) };
    let d = streamline(&vv, sc(2.0)).expect("streamline should compute");
    assert!((fl(d) - (2.0 * 1.2 / -0.6)).abs() < 1e-9);
}

#[test]
fn test_streamline_singular() {
    // a vanishing tangential component is a singular flow field
    let vv = VelocityVector { radial_component: sc(1.2), tangential_component: sc(0.0) };
    assert_eq!(streamline(&vv, sc(1.0)), Err(FlowError::SingularFlowField));
}

#[test]
fn test_taylor_maccoll_singular() {
    // a tangential component of exactly one makes v^2 - 1 vanish
    let vv = VelocityVector { radial_component: sc(1.2), tangential_component: sc(1.0) };
    match taylor_maccoll(&vv, sc(0.5), sc(1.4)) {
        Err(e) => assert_eq!(e, FlowError::SingularFlowField),
        Ok(_) => panic!("a sonic tangential component must be singular"),
    }
}

#[test]
fn test_integrator_shape() {
    // integrating from a supersonic post-shock state yields a non-empty
    // sequence that begins with the initial condition and holds at most
    // steps + 1 states
    let init = post_shock_state();
    let steps: usize = 200;
    let states = solve_taylor_maccoll(init, sc(BETA), sc(1.57), sc(1.0), sc(1.4), steps)
        .expect("integration should succeed");
    assert!(!states.is_empty());
    assert!(states.len() <= steps + 1);
    assert_eq!(states[0].velocity_vector.radial_component, init.radial_component);
    assert_eq!(states[0].velocity_vector.tangential_component, init.tangential_component);
    assert_eq!(states[0].radial_distance, sc(1.0));
    assert_eq!(states[0].theta, sc(BETA));
}

#[test]
fn test_integrator_progress() {
    // the integration makes progress: the cross-stream component of every
    // accepted state is negative, and theta increases monotonically from
    // the shock angle toward the axial-flow limit
    let init = post_shock_state();
    let states = solve_taylor_maccoll(init, sc(BETA), sc(1.57), sc(1.0), sc(1.4), 2000)
        .expect("integration should succeed");
    assert!(states.len() > 1);
    assert!(states.len() <= 2001);
    for w in states.windows(2) {
        assert!(fl(w[1].theta) > fl(w[0].theta));
    }
    for st in states.iter() {
        let u = fl(st.velocity_vector.radial_component);
        let v = fl(st.velocity_vector.tangential_component);
        let th = fl(st.theta);
        assert!(u * th.sin() + v * th.cos() < 1e-9);
    }
}

#[test]
fn test_integrator_zero_steps() {
    // a zero step budget returns just the initial state
    let init = post_shock_state();
    let states = solve_taylor_maccoll(init, sc(BETA), sc(1.57), sc(1.0), sc(1.4), 0)
        .expect("integration should succeed");
    assert_eq!(states.len(), 1);
}
