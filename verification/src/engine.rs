//! The integration engine: pairwise Newtonian gravitation advanced by
//! semi-implicit (Euler-Cromer) steps.
//!
//! A step first accumulates, for every ordered pair of distinct bodies
//! `(i, j)` taken in index order, the velocity change that body `j`
//! induces on body `i`, each pair computed independently from the shared
//! pre-step positions; only after every velocity is final does it move
//! each body by its new velocity. The contracts pin each operation of
//! that computation, in evaluation order, over the bit-pattern model of
//! [`crate::fp`], so the whole trajectory is a function of the initial
//! conditions and parameters alone.

use vstd::prelude::*;
use crate::fp::{add_bits, sub_bits, mul_bits, div_bits, sqrt_bits, is_finite_bits};
use crate::fp::{fadd, fsub, fmul, fdiv, fsqrt, is_finite};

verus! {

/// Bit pattern of 1.0, the uniform mass of the reference configuration.
pub const MASS_ONE_BITS: u64 = 0x3ff0000000000000;

/// Bit pattern of the default time step, 0.01 seconds.
pub const TIME_STEP_BITS: u64 = 0x3f847ae147ae147b;

/// Bit pattern of the gravitational constant, 6.67430e-11.
pub const GRAVITATIONAL_CONSTANT_BITS: u64 = 0x3dd2589effed8acc;

/// Default number of integration steps.
pub const STEP_COUNT: u32 = 100000;

/// Bit pattern of 2^52; adding a small integer to this pattern places the
/// integer in the low mantissa bits, which converts integers exactly.
pub const TWO_POW_52_BITS: u64 = 0x4330000000000000;

/// Reference initial x coordinate of body 0 (0.3089693008).
pub const BODY0_X_BITS: u64 = 0x3fd3c6272c99daeb;

/// Reference initial y coordinate of body 0 (0.4236727692).
pub const BODY0_Y_BITS: u64 = 0x3fdb1d7463fadd49;

/// Reference initial x coordinate of body 1 (-0.5).
pub const BODY1_X_BITS: u64 = 0xbfe0000000000000;

/// Reference initial x coordinate of body 2 (0.5).
pub const BODY2_X_BITS: u64 = 0x3fe0000000000000;

/// A point mass: mass, position and velocity, all binary64 bit patterns.
#[derive(Clone, Copy, Debug, PartialEq, Eq, Structural)]
pub struct Body {
    pub mass: u64,
    pub x: u64,
    pub y: u64,
    pub vx: u64,
    pub vy: u64,
}

/// The live state: exactly three bodies, identified by index 0, 1, 2.
#[derive(Clone, Copy, Debug, PartialEq, Eq, Structural)]
pub struct System {
    pub b0: Body,
    pub b1: Body,
    pub b2: Body,
}

/// Fixed parameters of a run, set once and immutable for its duration.
#[derive(Clone, Copy, Debug, PartialEq, Eq, Structural)]
pub struct Parameters {
    /// Bit pattern of the integration time step.
    pub time_step: u64,
    /// Number of steps to integrate.
    pub step_count: u32,
    /// Bit pattern of the gravitational constant.
    pub gravitational_constant: u64,
}

/// Why a run was aborted: both conditions are fatal, since every later
/// state would be meaningless.
#[derive(Clone, Copy, Debug, PartialEq, Eq, Structural)]
pub enum SimError {
    /// Two bodies at zero computed separation during force computation.
    DegenerateConfiguration,
    /// A position or velocity component became infinite or NaN.
    NonFiniteState,
}

/// An immutable record of the state committed by one step.
#[derive(Clone, Copy, Debug, PartialEq, Eq, Structural)]
pub struct Snapshot {
    /// The step index, counted from 0.
    pub step: u32,
    /// Bit pattern of the simulated time, step index times time step.
    pub time: u64,
    /// The state at the end of this step.
    pub state: System,
}

impl Body {
    /// A body at the given position with mass 1.0 and zero velocity.
    pub fn new(x: u64, y: u64) -> (b: Body)
        ensures
            b == (Body { mass: MASS_ONE_BITS, x, y, vx: 0, vy: 0 }),
    {
        Body { mass: MASS_ONE_BITS, x, y, vx: 0, vy: 0 }
    }
}

/// The body with index `i` (0, 1 or 2).
pub open spec fn body_of(s: System, i: int) -> Body {
    if i == 0 {
        s.b0
    } else if i == 1 {
        s.b1
    } else {
        s.b2
    }
}

/// x displacement from body `i` toward body `j`.
pub open spec fn dx_bits(s: System, i: int, j: int) -> u64 {
    sub_bits(body_of(s, j).x, body_of(s, i).x)
}

/// y displacement from body `i` toward body `j`.
pub open spec fn dy_bits(s: System, i: int, j: int) -> u64 {
    sub_bits(body_of(s, j).y, body_of(s, i).y)
}

/// Squared separation of bodies `i` and `j`, as computed: dx*dx + dy*dy.
pub open spec fn dist2_bits(s: System, i: int, j: int) -> u64 {
    add_bits(mul_bits(dx_bits(s, i, j), dx_bits(s, i, j)), mul_bits(dy_bits(s, i, j), dy_bits(s, i, j)))
}

/// Euclidean separation of bodies `i` and `j`.
pub open spec fn dist_bits(s: System, i: int, j: int) -> u64 {
    sqrt_bits(dist2_bits(s, i, j))
}

/// Scalar gravitational force magnitude on body `i` from body `j`,
/// computed as ((g * mass(j)) * mass(i)) / r / r.
pub open spec fn force_mag_bits(s: System, i: int, j: int, g: u64) -> u64 {
    div_bits(
        div_bits(mul_bits(mul_bits(g, body_of(s, j).mass), body_of(s, i).mass), dist_bits(s, i, j)),
        dist_bits(s, i, j),
    )
}

/// Cosine of the direction angle from body `i` toward body `j`: dx / r.
pub open spec fn ux_bits(s: System, i: int, j: int) -> u64 {
    div_bits(dx_bits(s, i, j), dist_bits(s, i, j))
}

/// Sine of the direction angle from body `i` toward body `j`: dy / r.
pub open spec fn uy_bits(s: System, i: int, j: int) -> u64 {
    div_bits(dy_bits(s, i, j), dist_bits(s, i, j))
}

/// x component of the force on body `i` from body `j`.
pub open spec fn fx_bits(s: System, i: int, j: int, g: u64) -> u64 {
    mul_bits(force_mag_bits(s, i, j, g), ux_bits(s, i, j))
}

/// y component of the force on body `i` from body `j`.
pub open spec fn fy_bits(s: System, i: int, j: int, g: u64) -> u64 {
    mul_bits(force_mag_bits(s, i, j, g), uy_bits(s, i, j))
}

/// x velocity change of body `i` from body `j` in one step: fx / m * dt.
pub open spec fn dvx_bits(s: System, i: int, j: int, g: u64, dt: u64) -> u64 {
    mul_bits(div_bits(fx_bits(s, i, j, g), body_of(s, i).mass), dt)
}

/// y velocity change of body `i` from body `j` in one step: fy / m * dt.
pub open spec fn dvy_bits(s: System, i: int, j: int, g: u64, dt: u64) -> u64 {
    mul_bits(div_bits(fy_bits(s, i, j, g), body_of(s, i).mass), dt)
}

/// The smaller index of the two bodies other than `i`.
pub open spec fn first_other(i: int) -> int {
    if i == 0 {
        1
    } else {
        0
    }
}

/// The larger index of the two bodies other than `i`.
pub open spec fn second_other(i: int) -> int {
    if i == 2 {
        1
    } else {
        2
    }
}

/// x velocity of body `i` after the step: both pairwise contributions
/// accumulated in index order onto the pre-step velocity.
pub open spec fn vx_after(s: System, i: int, g: u64, dt: u64) -> u64 {
    add_bits(
        add_bits(body_of(s, i).vx, dvx_bits(s, i, first_other(i), g, dt)),
        dvx_bits(s, i, second_other(i), g, dt),
    )
}

/// y velocity of body `i` after the step.
pub open spec fn vy_after(s: System, i: int, g: u64, dt: u64) -> u64 {
    add_bits(
        add_bits(body_of(s, i).vy, dvy_bits(s, i, first_other(i), g, dt)),
        dvy_bits(s, i, second_other(i), g, dt),
    )
}

/// Body `i` after the step: velocity updated from the shared pre-step
/// positions, then position moved by the updated velocity.
pub open spec fn body_after(s: System, i: int, g: u64, dt: u64) -> Body {
    Body {
        mass: body_of(s, i).mass,
        x: add_bits(body_of(s, i).x, mul_bits(vx_after(s, i, g, dt), dt)),
        y: add_bits(body_of(s, i).y, mul_bits(vy_after(s, i, g, dt), dt)),
        vx: vx_after(s, i, g, dt),
        vy: vy_after(s, i, g, dt),
    }
}

/// The whole system after one step.
pub open spec fn system_after(s: System, g: u64, dt: u64) -> System {
    System {
        b0: body_after(s, 0, g, dt),
        b1: body_after(s, 1, g, dt),
        b2: body_after(s, 2, g, dt),
    }
}

/// The computed squared separation of the ordered pair `(i, j)` is zero,
/// so the force magnitude would divide by zero.
pub open spec fn pair_degenerate(s: System, i: int, j: int) -> bool {
    dist2_bits(s, i, j) == 0
}

/// Some ordered pair of distinct bodies has zero computed separation.
pub open spec fn degenerate(s: System) -> bool {
    exists|i: int, j: int| 0 <= i < 3 && 0 <= j < 3 && i != j && #[trigger] pair_degenerate(s, i, j)
}

/// Bodies `i` and `j` sit at bit-identical finite positions.
pub open spec fn coincident_pair(s: System, i: int, j: int) -> bool {
    &&& body_of(s, i).x == body_of(s, j).x
    &&& body_of(s, i).y == body_of(s, j).y
    &&& is_finite_bits(body_of(s, i).x)
    &&& is_finite_bits(body_of(s, i).y)
}

/// Two distinct bodies sit at bit-identical finite positions.
pub open spec fn coincident(s: System) -> bool {
    exists|i: int, j: int| 0 <= i < 3 && 0 <= j < 3 && i != j && #[trigger] coincident_pair(s, i, j)
}

/// Every position and velocity component of the body is finite.
pub open spec fn body_finite(b: Body) -> bool {
    is_finite_bits(b.x) && is_finite_bits(b.y) && is_finite_bits(b.vx) && is_finite_bits(b.vy)
}

/// Every position and velocity component of the system is finite.
pub open spec fn system_finite(s: System) -> bool {
    body_finite(s.b0) && body_finite(s.b1) && body_finite(s.b2)
}

/// What one step returns: the advanced system, or the error that aborts
/// the run, decided in this order: a degenerate configuration is detected
/// during force computation, a non-finite component after integration.
pub open spec fn step_result(s: System, g: u64, dt: u64) -> Result<System, SimError> {
    if degenerate(s) {
        Err(SimError::DegenerateConfiguration)
    } else if !system_finite(system_after(s, g, dt)) {
        Err(SimError::NonFiniteState)
    } else {
        Ok(system_after(s, g, dt))
    }
}

/// The force that body `j` exerts on body `i`, as `(fx, fy)` bit
/// patterns, or the degeneracy error when the computed separation is
/// zero. Each ordered pair is computed independently; nothing is reused
/// from the mirrored pair.
pub fn force_on(s: &System, i: usize, j: usize, g: u64) -> (r: Result<(u64, u64), SimError>)
    requires
        i < 3,
        j < 3,
        i != j,
    ensures
        r == (if pair_degenerate(*s, i as int, j as int) {
            Err::<(u64, u64), SimError>(SimError::DegenerateConfiguration)
        } else {
            Ok::<(u64, u64), SimError>((fx_bits(*s, i as int, j as int, g), fy_bits(
                *s,
                i as int,
                j as int,
                g,
            )))
        }),
        coincident_pair(*s, i as int, j as int) ==> pair_degenerate(*s, i as int, j as int),
{
    let bi = body_at(s, i);
    let bj = body_at(s, j);
    let dx = fsub(bj.x, bi.x);
    let dy = fsub(bj.y, bi.y);
    let d2 = fadd(fmul(dx, dx), fmul(dy, dy));
    if d2 == 0 {
        return Err(SimError::DegenerateConfiguration);
    }
    let dist = fsqrt(d2);
    let force = fdiv(fdiv(fmul(fmul(g, bj.mass), bi.mass), dist), dist);
    let fx = fmul(force, fdiv(dx, dist));
    let fy = fmul(force, fdiv(dy, dist));
    Ok((fx, fy))
}

/// The body with index `i`.
pub fn body_at(s: &System, i: usize) -> (b: Body)
    requires
        i < 3,
    ensures
        b == body_of(*s, i as int),
{
    if i == 0 {
        s.b0
    } else if i == 1 {
        s.b1
    } else {
        s.b2
    }
}

/// The velocity change `(dvx, dvy)` of body `i` due to body `j` over one
/// step, or the degeneracy error.
fn pair_velocity_delta(s: &System, i: usize, j: usize, g: u64, dt: u64) -> (r: Result<
    (u64, u64),
    SimError,
>)
    requires
        i < 3,
        j < 3,
        i != j,
    ensures
        r == (if pair_degenerate(*s, i as int, j as int) {
            Err::<(u64, u64), SimError>(SimError::DegenerateConfiguration)
        } else {
            Ok::<(u64, u64), SimError>((dvx_bits(*s, i as int, j as int, g, dt), dvy_bits(
                *s,
                i as int,
                j as int,
                g,
                dt,
            )))
        }),
        coincident_pair(*s, i as int, j as int) ==> pair_degenerate(*s, i as int, j as int),
{
    let bi = body_at(s, i);
    match force_on(s, i, j, g) {
        Err(e) => Err(e),
        Ok((fx, fy)) => Ok((fmul(fdiv(fx, bi.mass), dt), fmul(fdiv(fy, bi.mass), dt))),
    }
}

/// One integration step from `s`.
///
/// The result is a function of the pre-step state and the parameters
/// alone (`step_result`): first all six ordered pairwise velocity
/// contributions are computed from the shared pre-step positions and
/// accumulated in index order, then every position moves by its body's
/// updated velocity. Bodies at bit-identical finite positions are always
/// reported as a degenerate configuration rather than integrated.
pub fn step(s: &System, params: &Parameters) -> (r: Result<System, SimError>)
    ensures
        r == step_result(*s, params.gravitational_constant, params.time_step),
        coincident(*s) ==> degenerate(*s),
{
    let g = params.gravitational_constant;
    let dt = params.time_step;
    let (dvx01, dvy01) = match pair_velocity_delta(s, 0, 1, g, dt) {
        Ok(d) => d,
        Err(e) => {
            proof {
                assert(degenerate(*s));
            }
            return Err(e);
        },
    };
    let (dvx02, dvy02) = match pair_velocity_delta(s, 0, 2, g, dt) {
        Ok(d) => d,
        Err(e) => {
            proof {
                assert(degenerate(*s));
            }
            return Err(e);
        },
    };
    let (dvx10, dvy10) = match pair_velocity_delta(s, 1, 0, g, dt) {
        Ok(d) => d,
        Err(e) => {
            proof {
                assert(degenerate(*s));
            }
            return Err(e);
        },
    };
    let (dvx12, dvy12) = match pair_velocity_delta(s, 1, 2, g, dt) {
        Ok(d) => d,
        Err(e) => {
            proof {
                assert(degenerate(*s));
            }
            return Err(e);
        },
    };
    let (dvx20, dvy20) = match pair_velocity_delta(s, 2, 0, g, dt) {
        Ok(d) => d,
        Err(e) => {
            proof {
                assert(degenerate(*s));
            }
            return Err(e);
        },
    };
    let (dvx21, dvy21) = match pair_velocity_delta(s, 2, 1, g, dt) {
        Ok(d) => d,
        Err(e) => {
            proof {
                assert(degenerate(*s));
            }
            return Err(e);
        },
    };
    proof {
        assert(!degenerate(*s));
        assert(!coincident(*s));
    }
    let vx0 = fadd(fadd(s.b0.vx, dvx01), dvx02);
    let vy0 = fadd(fadd(s.b0.vy, dvy01), dvy02);
    let vx1 = fadd(fadd(s.b1.vx, dvx10), dvx12);
    let vy1 = fadd(fadd(s.b1.vy, dvy10), dvy12);
    let vx2 = fadd(fadd(s.b2.vx, dvx20), dvx21);
    let vy2 = fadd(fadd(s.b2.vy, dvy20), dvy21);
    let nb0 = Body {
        mass: s.b0.mass,
        x: fadd(s.b0.x, fmul(vx0, dt)),
        y: fadd(s.b0.y, fmul(vy0, dt)),
        vx: vx0,
        vy: vy0,
    };
    let nb1 = Body {
        mass: s.b1.mass,
        x: fadd(s.b1.x, fmul(vx1, dt)),
        y: fadd(s.b1.y, fmul(vy1, dt)),
        vx: vx1,
        vy: vy1,
    };
    let nb2 = Body {
        mass: s.b2.mass,
        x: fadd(s.b2.x, fmul(vx2, dt)),
        y: fadd(s.b2.y, fmul(vy2, dt)),
        vx: vx2,
        vy: vy2,
    };
    let next = System { b0: nb0, b1: nb1, b2: nb2 };
    if !(is_finite(nb0.x) && is_finite(nb0.y) && is_finite(nb0.vx) && is_finite(nb0.vy)
        && is_finite(nb1.x) && is_finite(nb1.y) && is_finite(nb1.vx) && is_finite(nb1.vy)
        && is_finite(nb2.x) && is_finite(nb2.y) && is_finite(nb2.vx) && is_finite(nb2.vy)) {
        return Err(SimError::NonFiniteState);
    }
    Ok(next)
}

/// Bit pattern of the binary64 value of the integer `n`, an exact
/// conversion: placing `n` in the low mantissa bits of the pattern of
/// 2^52 encodes `2^52 + n` exactly, and subtracting 2^52 again is exact.
pub open spec fn u32_to_bits(n: u32) -> u64 {
    sub_bits((TWO_POW_52_BITS + n as u64) as u64, TWO_POW_52_BITS)
}

/// Bit pattern of the simulated time of step `n`: `n * dt`.
pub open spec fn time_bits(n: u32, dt: u64) -> u64 {
    mul_bits(u32_to_bits(n), dt)
}

/// The simulated time of step `n` with time step `dt`.
pub fn time_of_step(n: u32, dt: u64) -> (t: u64)
    ensures
        t == time_bits(n, dt),
{
    let raised: u64 = TWO_POW_52_BITS + (n as u64);
    fmul(fsub(raised, TWO_POW_52_BITS), dt)
}

/// The state after `k` committed steps from `init` (step `k - 1`'s
/// snapshot state); `k == 0` is the caller-supplied initial state.
pub open spec fn state_at(init: System, g: u64, dt: u64, k: nat) -> System
    decreases k,
{
    if k == 0 {
        init
    } else {
        system_after(state_at(init, g, dt, (k - 1) as nat), g, dt)
    }
}

/// The snapshot emitted by step `k`: the state committed at its end,
/// under the step's index and simulated time.
pub open spec fn snapshot_at(init: System, params: Parameters, k: int) -> Snapshot {
    Snapshot {
        step: k as u32,
        time: time_bits(k as u32, params.time_step),
        state: state_at(init, params.gravitational_constant, params.time_step, (k + 1) as nat),
    }
}

/// Every step before step `n` succeeds.
pub open spec fn steps_ok_before(init: System, g: u64, dt: u64, n: nat) -> bool {
    forall|k: nat| k < n ==> (#[trigger] step_result(state_at(init, g, dt, k), g, dt)) is Ok
}

/// What `run` returns for `init` and `params`: on success, one snapshot
/// per step in strictly increasing step order, each pinned by
/// `snapshot_at`; on failure, the error of the first failing step, with
/// every earlier step succeeding. Either way the outcome is determined
/// by the arguments alone ([`lemma_run_deterministic`]).
pub open spec fn run_post(
    init: System,
    params: Parameters,
    r: Result<Vec<Snapshot>, SimError>,
) -> bool {
    let g = params.gravitational_constant;
    let dt = params.time_step;
    match r {
        Ok(v) => {
            &&& steps_ok_before(init, g, dt, params.step_count as nat)
            &&& v@.len() == params.step_count
            &&& forall|k: int|
                0 <= k < params.step_count ==> (#[trigger] v@[k]) == snapshot_at(init, params, k)
        },
        Err(e) => exists|k: nat|
            {
                &&& k < params.step_count
                &&& steps_ok_before(init, g, dt, k)
                &&& (#[trigger] step_result(state_at(init, g, dt, k), g, dt)) == Err::<
                    System,
                    SimError,
                >(e)
            },
    }
}

/// Run `params.step_count` integration steps from `*init`, emitting one
/// snapshot per step, or abort at the first failing step. The engine
/// holds no state between runs: the result is a function of the
/// arguments alone.
pub fn run(init: &System, params: &Parameters) -> (r: Result<Vec<Snapshot>, SimError>)
    ensures
        run_post(*init, *params, r),
        params.step_count > 0 && coincident(*init) ==> r == Err::<Vec<Snapshot>, SimError>(
            SimError::DegenerateConfiguration,
        ),
{
    let mut cur: System = *init;
    let mut out: Vec<Snapshot> = Vec::new();
    let mut n: u32 = 0;
    while n < params.step_count
        invariant
            n <= params.step_count,
            out@.len() == n as int,
            cur == state_at(*init, params.gravitational_constant, params.time_step, n as nat),
            forall|k: int| 0 <= k < n ==> (#[trigger] out@[k]) == snapshot_at(*init, *params, k),
            steps_ok_before(*init, params.gravitational_constant, params.time_step, n as nat),
            n > 0 ==> !coincident(*init),
        decreases params.step_count - n,
    {
        match step(&cur, params) {
            Ok(next) => {
                let t = time_of_step(n, params.time_step);
                out.push(Snapshot { step: n, time: t, state: next });
                cur = next;
                n = n + 1;
            },
            Err(e) => {
                proof {
                    let g = params.gravitational_constant;
                    let dt = params.time_step;
                    assert((n as nat) < (params.step_count as nat) && steps_ok_before(
                        *init,
                        g,
                        dt,
                        n as nat,
                    ) && step_result(state_at(*init, g, dt, n as nat), g, dt) == Err::<
                        System,
                        SimError,
                    >(e));
                }
                return Err(e);
            },
        }
    }
    Ok(out)
}

/// Determinism: any two results that `run`'s contract admits for the
/// same initial conditions and parameters are the same outcome, with
/// identical snapshot sequences or identical errors.
pub proof fn lemma_run_deterministic(
    init: System,
    params: Parameters,
    r1: Result<Vec<Snapshot>, SimError>,
    r2: Result<Vec<Snapshot>, SimError>,
)
    requires
        run_post(init, params, r1),
        run_post(init, params, r2),
    ensures
        r1 is Ok <==> r2 is Ok,
        r1 is Ok && r2 is Ok ==> r1->Ok_0@ == r2->Ok_0@,
        r1 is Err && r2 is Err ==> r1->Err_0 == r2->Err_0,
{
    let g = params.gravitational_constant;
    let dt = params.time_step;
    match (r1, r2) {
        (Ok(v1), Ok(v2)) => {
            assert(v1@ =~= v2@);
        },
        (Ok(v1), Err(e2)) => {
            let k = choose|k: nat|
                {
                    &&& k < params.step_count
                    &&& steps_ok_before(init, g, dt, k)
                    &&& (#[trigger] step_result(state_at(init, g, dt, k), g, dt)) == Err::<
                        System,
                        SimError,
                    >(e2)
                };
            assert(step_result(state_at(init, g, dt, k), g, dt) is Ok);
        },
        (Err(e1), Ok(v2)) => {
            let k = choose|k: nat|
                {
                    &&& k < params.step_count
                    &&& steps_ok_before(init, g, dt, k)
                    &&& (#[trigger] step_result(state_at(init, g, dt, k), g, dt)) == Err::<
                        System,
                        SimError,
                    >(e1)
                };
            assert(step_result(state_at(init, g, dt, k), g, dt) is Ok);
        },
        (Err(e1), Err(e2)) => {
            let k1 = choose|k: nat|
                {
                    &&& k < params.step_count
                    &&& steps_ok_before(init, g, dt, k)
                    &&& (#[trigger] step_result(state_at(init, g, dt, k), g, dt)) == Err::<
                        System,
                        SimError,
                    >(e1)
                };
            let k2 = choose|k: nat|
                {
                    &&& k < params.step_count
                    &&& steps_ok_before(init, g, dt, k)
                    &&& (#[trigger] step_result(state_at(init, g, dt, k), g, dt)) == Err::<
                        System,
                        SimError,
                    >(e2)
                };
            if k1 < k2 {
                assert(step_result(state_at(init, g, dt, k1), g, dt) is Ok);
            } else if k2 < k1 {
                assert(step_result(state_at(init, g, dt, k2), g, dt) is Ok);
            }
            assert(k1 == k2);
        },
    }
}

/// The pairwise velocity updates are computed independently for each
/// body from the shared pre-step positions and masses: two states that
/// agree on every position and mass produce bit-identical velocity
/// changes for every ordered pair, whatever velocities either state
/// carries or accumulates during the step.
pub proof fn lemma_velocity_update_independent(s: System, t: System, g: u64, dt: u64)
    requires
        forall|i: int|
            0 <= i < 3 ==> {
                &&& (#[trigger] body_of(s, i)).mass == body_of(t, i).mass
                &&& body_of(s, i).x == body_of(t, i).x
                &&& body_of(s, i).y == body_of(t, i).y
            },
    ensures
        forall|i: int, j: int|
            0 <= i < 3 && 0 <= j < 3 && i != j ==> {
                &&& (#[trigger] dvx_bits(s, i, j, g, dt)) == dvx_bits(t, i, j, g, dt)
                &&& (#[trigger] dvy_bits(s, i, j, g, dt)) == dvy_bits(t, i, j, g, dt)
            },
{
    assert forall|i: int, j: int| 0 <= i < 3 && 0 <= j < 3 && i != j implies {
        &&& (#[trigger] dvx_bits(s, i, j, g, dt)) == dvx_bits(t, i, j, g, dt)
        &&& (#[trigger] dvy_bits(s, i, j, g, dt)) == dvy_bits(t, i, j, g, dt)
    } by {
        assert(body_of(s, i).mass == body_of(t, i).mass);
        assert(body_of(s, j).mass == body_of(t, j).mass);
        assert(body_of(s, i).x == body_of(t, i).x);
        assert(body_of(s, j).x == body_of(t, j).x);
        assert(body_of(s, i).y == body_of(t, i).y);
        assert(body_of(s, j).y == body_of(t, j).y);
    }
}

/// The reference initial conditions: body 0 at (0.3089693008,
/// 0.4236727692), body 1 at (-0.5, 0), body 2 at (0.5, 0), uniform mass
/// 1.0, zero initial velocity.
pub open spec fn reference_initial_system() -> System {
    System {
        b0: Body { mass: MASS_ONE_BITS, x: BODY0_X_BITS, y: BODY0_Y_BITS, vx: 0, vy: 0 },
        b1: Body { mass: MASS_ONE_BITS, x: BODY1_X_BITS, y: 0, vx: 0, vy: 0 },
        b2: Body { mass: MASS_ONE_BITS, x: BODY2_X_BITS, y: 0, vx: 0, vy: 0 },
    }
}

/// The reference initial conditions as a live state.
pub fn initial_system() -> (s: System)
    ensures
        s == reference_initial_system(),
{
    System {
        b0: Body::new(BODY0_X_BITS, BODY0_Y_BITS),
        b1: Body::new(BODY1_X_BITS, 0),
        b2: Body::new(BODY2_X_BITS, 0),
    }
}

/// The default run parameters: dt = 0.01, 100000 steps, G = 6.67430e-11.
pub open spec fn default_parameters_spec() -> Parameters {
    Parameters {
        time_step: TIME_STEP_BITS,
        step_count: STEP_COUNT,
        gravitational_constant: GRAVITATIONAL_CONSTANT_BITS,
    }
}

/// The default run parameters as a value.
pub fn default_parameters() -> (p: Parameters)
    ensures
        p == default_parameters_spec(),
{
    Parameters {
        time_step: TIME_STEP_BITS,
        step_count: STEP_COUNT,
        gravitational_constant: GRAVITATIONAL_CONSTANT_BITS,
    }
}

} // verus!
