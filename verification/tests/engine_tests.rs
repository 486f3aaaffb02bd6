use three_body::engine::{
    default_parameters, initial_system, run, step, force_on, time_of_step, Body, Parameters,
    SimError, System, BODY0_X_BITS, BODY0_Y_BITS, BODY1_X_BITS, BODY2_X_BITS,
    GRAVITATIONAL_CONSTANT_BITS, MASS_ONE_BITS, STEP_COUNT, TIME_STEP_BITS,
};

#[derive(Clone, Copy)]
struct Hw {
    m: f64,
    x: f64,
    y: f64,
    vx: f64,
    vy: f64,
}

fn hw_of_body(b: &Body) -> Hw {
    Hw {
        m: f64::from_bits(b.mass),
        x: f64::from_bits(b.x),
        y: f64::from_bits(b.y),
        vx: f64::from_bits(b.vx),
        vy: f64::from_bits(b.vy),
    }
}

fn hw_of_system(s: &System) -> [Hw; 3] {
    [hw_of_body(&s.b0), hw_of_body(&s.b1), hw_of_body(&s.b2)]
}

/// The per-step update in hardware double precision, mirroring the
/// engine's order of operations exactly.
fn hw_step(bs: [Hw; 3], g: f64, dt: f64) -> [Hw; 3] {
    let mut out = bs;
    for i in 0..3 {
        let mut vx = bs[i].vx;
        let mut vy = bs[i].vy;
        for j in 0..3 {
            if i != j {
                let dx = bs[j].x - bs[i].x;
                let dy = bs[j].y - bs[i].y;
                let r = (dx * dx + dy * dy).sqrt();
                let force = g * bs[j].m * bs[i].m / r / r;
                let fx = force * (dx / r);
                let fy = force * (dy / r);
                vx += fx / bs[i].m * dt;
                vy += fy / bs[i].m * dt;
            }
        }
        out[i].vx = vx;
        out[i].vy = vy;
    }
    for k in 0..3 {
        out[k].x += out[k].vx * dt;
        out[k].y += out[k].vy * dt;
    }
    out
}

fn assert_body_matches(b: &Body, h: &Hw) {
    assert_eq!(b.mass, h.m.to_bits());
    assert_eq!(b.x, h.x.to_bits());
    assert_eq!(b.y, h.y.to_bits());
    assert_eq!(b.vx, h.vx.to_bits());
    assert_eq!(b.vy, h.vy.to_bits());
}

#[test]
fn reference_configuration_bits() {
    let s = initial_system();
    assert_eq!(s.b0.x, 0.3089693008f64.to_bits());
    assert_eq!(s.b0.y, 0.4236727692f64.to_bits());
    assert_eq!(s.b1.x, (-0.5f64).to_bits());
    assert_eq!(s.b1.y, 0.0f64.to_bits());
    assert_eq!(s.b2.x, 0.5f64.to_bits());
    assert_eq!(s.b2.y, 0.0f64.to_bits());
    for b in [s.b0, s.b1, s.b2] {
        assert_eq!(b.mass, 1.0f64.to_bits());
        assert_eq!(b.vx, 0.0f64.to_bits());
        assert_eq!(b.vy, 0.0f64.to_bits());
    }
    let p = default_parameters();
    assert_eq!(p.time_step, 0.01f64.to_bits());
    assert_eq!(p.gravitational_constant, 6.67430e-11f64.to_bits());
    assert_eq!(p.step_count, 100000);
    assert_eq!(MASS_ONE_BITS, 1.0f64.to_bits());
    assert_eq!(TIME_STEP_BITS, 0.01f64.to_bits());
    assert_eq!(GRAVITATIONAL_CONSTANT_BITS, 6.67430e-11f64.to_bits());
    assert_eq!(BODY0_X_BITS, 0.3089693008f64.to_bits());
    assert_eq!(BODY0_Y_BITS, 0.4236727692f64.to_bits());
    assert_eq!(BODY1_X_BITS, (-0.5f64).to_bits());
    assert_eq!(BODY2_X_BITS, 0.5f64.to_bits());
    assert_eq!(STEP_COUNT, 100000);
}

#[test]
fn step0_reference_motion() {
    let s = initial_system();
    let p = default_parameters();
    let next = step(&s, &p).expect("reference step 0 must succeed");
    let expected = hw_step(hw_of_system(&s), 6.67430e-11, 0.01);
    assert_body_matches(&next.b0, &expected[0]);
    assert_body_matches(&next.b1, &expected[1]);
    assert_body_matches(&next.b2, &expected[2]);

    // Every velocity is non-zero, in the direction of mutual attraction:
    // body 1 (leftmost) is pulled right, body 2 (rightmost) left, and
    // body 0 (above and between them) down.
    let v0 = (f64::from_bits(next.b0.vx), f64::from_bits(next.b0.vy));
    let v1 = (f64::from_bits(next.b1.vx), f64::from_bits(next.b1.vy));
    let v2 = (f64::from_bits(next.b2.vx), f64::from_bits(next.b2.vy));
    assert!(v0.1 < 0.0);
    assert!(v1.0 > 0.0 && v1.1 > 0.0);
    assert!(v2.0 < 0.0 && v2.1 > 0.0);

    // The position moved by exactly velocity-after-step times dt.
    let x0 = f64::from_bits(s.b0.x);
    assert_eq!(f64::from_bits(next.b0.x), x0 + v0.0 * 0.01);
}

#[test]
fn multi_step_matches_hardware() {
    let s = initial_system();
    let p = Parameters { step_count: 100, ..default_parameters() };
    let snaps = run(&s, &p).expect("reference run must succeed");
    let mut hw = hw_of_system(&s);
    for k in 0..100 {
        hw = hw_step(hw, 6.67430e-11, 0.01);
        let st = &snaps[k].state;
        assert_body_matches(&st.b0, &hw[0]);
        assert_body_matches(&st.b1, &hw[1]);
        assert_body_matches(&st.b2, &hw[2]);
    }
}

#[test]
fn determinism_bit_identical() {
    let s = initial_system();
    let p = Parameters { step_count: 2000, ..default_parameters() };
    let r1 = run(&s, &p).expect("run must succeed");
    let r2 = run(&s, &p).expect("run must succeed");
    assert_eq!(r1, r2);
}

#[test]
fn snapshot_count_indices_times() {
    let s = initial_system();
    let p = Parameters { step_count: 1000, ..default_parameters() };
    let snaps = run(&s, &p).expect("run must succeed");
    assert_eq!(snaps.len(), 1000);
    for (k, sn) in snaps.iter().enumerate() {
        assert_eq!(sn.step as usize, k);
        assert_eq!(sn.time, (k as f64 * 0.01).to_bits());
        if k > 0 {
            assert!(sn.step > snaps[k - 1].step);
        }
    }
}

#[test]
fn time_of_step_exact_conversion() {
    for n in [0u32, 1, 2, 27, 999, 100000, u32::MAX] {
        let t = time_of_step(n, TIME_STEP_BITS);
        assert_eq!(t, (n as f64 * 0.01).to_bits());
    }
}

#[test]
fn degenerate_identical_positions() {
    // Bodies 1 and 2 at the same position: the run must signal a
    // degenerate configuration, not produce infinities or NaNs.
    let s = System {
        b0: Body::new(BODY0_X_BITS, BODY0_Y_BITS),
        b1: Body::new(BODY2_X_BITS, 0),
        b2: Body::new(BODY2_X_BITS, 0),
    };
    let p = default_parameters();
    assert_eq!(step(&s, &p), Err(SimError::DegenerateConfiguration));
    assert_eq!(run(&s, &p), Err(SimError::DegenerateConfiguration));
}

#[test]
fn non_finite_velocity_detected() {
    let mut s = initial_system();
    s.b1.vx = f64::NAN.to_bits();
    let p = default_parameters();
    assert_eq!(step(&s, &p), Err(SimError::NonFiniteState));
    assert_eq!(run(&s, &p), Err(SimError::NonFiniteState));
}

#[test]
fn non_finite_from_force_overflow() {
    // Two bodies separated by 1e-160: the squared distance is a subnormal,
    // so the configuration is not degenerate, but the force magnitude
    // overflows to infinity and must be reported, not propagated.
    let s = System {
        b0: Body::new(0.0f64.to_bits(), 0.0f64.to_bits()),
        b1: Body::new(1.0e-160f64.to_bits(), 0.0f64.to_bits()),
        b2: Body::new(1.0f64.to_bits(), 1.0f64.to_bits()),
    };
    let p = default_parameters();
    assert_eq!(step(&s, &p), Err(SimError::NonFiniteState));
}

#[test]
fn mass_scaling_doubles_force() {
    // Doubling the acting body's mass doubles both force components it
    // exerts on every other body, exactly, and keeps the direction.
    let s = initial_system();
    let mut s2 = s;
    s2.b0.mass = 2.0f64.to_bits();
    let g = GRAVITATIONAL_CONSTANT_BITS;
    for i in [1usize, 2] {
        let (fx1, fy1) = force_on(&s, i, 0, g).expect("force must be defined");
        let (fx2, fy2) = force_on(&s2, i, 0, g).expect("force must be defined");
        let (fx1, fy1) = (f64::from_bits(fx1), f64::from_bits(fy1));
        let (fx2, fy2) = (f64::from_bits(fx2), f64::from_bits(fy2));
        assert!(fx1 != 0.0 || fy1 != 0.0);
        assert_eq!(fx2, 2.0 * fx1);
        assert_eq!(fy2, 2.0 * fy1);
        // Same direction: each component keeps its sign.
        assert_eq!(fx2.signum(), fx1.signum());
        assert_eq!(fy2.signum(), fy1.signum());
    }
}

#[test]
fn own_mass_does_not_change_own_update() {
    // Each body's velocity update is computed independently from the
    // shared pre-step positions: doubling body 0's mass changes the
    // force felt by bodies 1 and 2, but body 0's own step-0 velocity
    // update (force over its own mass) is bit-identical.
    let s = initial_system();
    let mut s2 = s;
    s2.b0.mass = 2.0f64.to_bits();
    let p = default_parameters();
    let n1 = step(&s, &p).expect("step must succeed");
    let n2 = step(&s2, &p).expect("step must succeed");
    assert_eq!(n1.b0.vx, n2.b0.vx);
    assert_eq!(n1.b0.vy, n2.b0.vy);
    assert_eq!(n1.b0.x, n2.b0.x);
    assert_eq!(n1.b0.y, n2.b0.y);
    assert_ne!((n1.b1.vx, n1.b1.vy), (n2.b1.vx, n2.b1.vy));
    assert_ne!((n1.b2.vx, n1.b2.vy), (n2.b2.vx, n2.b2.vy));
}

#[test]
fn run_matches_repeated_step() {
    let s = initial_system();
    let p = Parameters { step_count: 50, ..default_parameters() };
    let snaps = run(&s, &p).expect("run must succeed");
    let mut cur = s;
    for k in 0..50 {
        cur = step(&cur, &p).expect("step must succeed");
        assert_eq!(snaps[k].state, cur);
    }
}

#[test]
fn run_restartable_from_same_state() {
    // The engine holds no state between runs: a shorter run is a prefix
    // of a longer one.
    let s = initial_system();
    let long = run(&s, &Parameters { step_count: 300, ..default_parameters() })
        .expect("run must succeed");
    let short = run(&s, &Parameters { step_count: 120, ..default_parameters() })
        .expect("run must succeed");
    assert_eq!(&long[..120], &short[..]);
}
