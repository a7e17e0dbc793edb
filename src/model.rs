//! The mathematical model of a flight: the state after each explicit Euler
//! step, with and without air drag, and the laws that relate them.
use vstd::prelude::*;

use crate::arith::trunc_div;
use crate::vector::{ivec, length, norm_sq, over_duration, vsum, IVec3};

verus! {

/// Scale between the units of `twice_drag_constant` and the acceleration's: the
/// drag acceleration is `-k * |v| * v / (2 * mass * 10^18)` with `k` from
/// `twice_drag_constant`, mass in milligrams and velocities in micrometres per
/// second.
pub const DRAG_SCALE: u128 = 1_000_000_000_000_000_000;

/// Kinematic state of a projectile after some number of steps.
pub struct FlightState {
    pub position: IVec3,
    pub velocity: IVec3,
    /// elapsed time, microseconds
    pub time: int,
    /// accumulated path length, micrometres
    pub distance: int,
}

pub open spec fn drag_divisor(mass: int) -> int {
    2 * mass * DRAG_SCALE as int
}

/// One component of the quadratic drag acceleration, opposing `v`.
pub open spec fn drag_component(k: int, speed: int, mass: int, v: int) -> int {
    -trunc_div(k * speed * v, drag_divisor(mass))
}

/// Quadratic drag acceleration `-k |v| v / (2 m)` in the model's units.
pub open spec fn drag_acceleration(k: int, mass: int, v: IVec3) -> IVec3 {
    let s = length(v);
    ivec(
        drag_component(k, s, mass, v.x),
        drag_component(k, s, mass, v.y),
        drag_component(k, s, mass, v.z),
    )
}

pub open spec fn launch(start: IVec3, velocity: IVec3) -> FlightState {
    FlightState { position: start, velocity, time: 0, distance: 0 }
}

/// The segment travelled in one step: the pre-step velocity over `dt`.
pub open spec fn step_segment(st: FlightState, dt: int) -> IVec3 {
    over_duration(st.velocity, dt)
}

/// One explicit Euler step under `accel`: the position moves with the
/// velocity held before the step.
pub open spec fn advance(st: FlightState, accel: IVec3, dt: int) -> FlightState {
    let seg = step_segment(st, dt);
    FlightState {
        position: vsum(st.position, seg),
        velocity: vsum(st.velocity, over_duration(accel, dt)),
        time: st.time + dt,
        distance: st.distance + length(seg),
    }
}

/// One step under gravity and quadratic drag.
pub open spec fn drag_advance(k: int, mass: int, gravity: IVec3, dt: int, st: FlightState) -> FlightState {
    advance(st, vsum(gravity, drag_acceleration(k, mass, st.velocity)), dt)
}

/// One step under gravity alone.
pub open spec fn free_fall_advance(gravity: IVec3, dt: int, st: FlightState) -> FlightState {
    advance(st, gravity, dt)
}

/// The state after `n` steps of the drag model.
pub open spec fn drag_flight(
    start: IVec3,
    v0: IVec3,
    k: int,
    mass: int,
    gravity: IVec3,
    dt: int,
    n: nat,
) -> FlightState
    decreases n,
{
    if n == 0 {
        launch(start, v0)
    } else {
        drag_advance(k, mass, gravity, dt, drag_flight(start, v0, k, mass, gravity, dt, (n - 1) as nat))
    }
}

/// The state after `n` steps under gravity alone.
pub open spec fn free_flight(start: IVec3, v0: IVec3, gravity: IVec3, dt: int, n: nat) -> FlightState
    decreases n,
{
    if n == 0 {
        launch(start, v0)
    } else {
        free_fall_advance(gravity, dt, free_flight(start, v0, gravity, dt, (n - 1) as nat))
    }
}

/// With `k` (twice the drag constant) zero the drag model takes exactly the steps of the
/// gravity-only model: the two simulators agree on every state when run
/// with the same step.
pub proof fn lemma_zero_drag_is_free_fall(
    start: IVec3,
    v0: IVec3,
    mass: int,
    gravity: IVec3,
    dt: int,
    n: nat,
)
    requires
        mass >= 1,
    ensures
        drag_flight(start, v0, 0, mass, gravity, dt, n) == free_flight(start, v0, gravity, dt, n),
    decreases n,
{
    if n > 0 {
        lemma_zero_drag_is_free_fall(start, v0, mass, gravity, dt, (n - 1) as nat);
        let st = drag_flight(start, v0, 0, mass, gravity, dt, (n - 1) as nat);
        let s = length(st.velocity);
        assert(0 * s * st.velocity.x == 0 && 0 * s * st.velocity.y == 0 && 0 * s * st.velocity.z
            == 0) by (nonlinear_arith);
        assert(vsum(gravity, drag_acceleration(0, mass, st.velocity)) == gravity);
    }
}

proof fn lemma_length_nonneg(v: IVec3)
    ensures
        length(v) >= 0,
{
    assert(norm_sq(v) >= 0) by (nonlinear_arith);
    crate::arith::lemma_sqrt_floor_exists(norm_sq(v));
}

/// Elapsed time grows by exactly one step per step and the accumulated
/// distance never decreases, in the drag model.
pub proof fn lemma_drag_flight_monotonic(
    start: IVec3,
    v0: IVec3,
    k: int,
    mass: int,
    gravity: IVec3,
    dt: int,
    i: nat,
    j: nat,
)
    requires
        i <= j,
    ensures
        drag_flight(start, v0, k, mass, gravity, dt, j).time == j * dt,
        drag_flight(start, v0, k, mass, gravity, dt, i).distance <= drag_flight(
            start,
            v0,
            k,
            mass,
            gravity,
            dt,
            j,
        ).distance,
    decreases j,
{
    if j > 0 {
        if i < j {
            lemma_drag_flight_monotonic(start, v0, k, mass, gravity, dt, i, (j - 1) as nat);
        } else {
            lemma_drag_flight_monotonic(start, v0, k, mass, gravity, dt, (j - 1) as nat, (j - 1) as nat);
        }
        let prev = drag_flight(start, v0, k, mass, gravity, dt, (j - 1) as nat);
        lemma_length_nonneg(step_segment(prev, dt));
        assert((j - 1) * dt + dt == j * dt) by (nonlinear_arith);
        assert(drag_flight(start, v0, k, mass, gravity, dt, j).time == prev.time + dt);
    } else {
        assert(0 * dt == 0) by (nonlinear_arith);
    }
}

/// Elapsed time grows by exactly one step per step and the accumulated
/// distance never decreases, in the gravity-only model.
pub proof fn lemma_free_flight_monotonic(
    start: IVec3,
    v0: IVec3,
    gravity: IVec3,
    dt: int,
    i: nat,
    j: nat,
)
    requires
        i <= j,
    ensures
        free_flight(start, v0, gravity, dt, j).time == j * dt,
        free_flight(start, v0, gravity, dt, i).distance <= free_flight(
            start,
            v0,
            gravity,
            dt,
            j,
        ).distance,
    decreases j,
{
    if j > 0 {
        if i < j {
            lemma_free_flight_monotonic(start, v0, gravity, dt, i, (j - 1) as nat);
        } else {
            lemma_free_flight_monotonic(start, v0, gravity, dt, (j - 1) as nat, (j - 1) as nat);
        }
        let prev = free_flight(start, v0, gravity, dt, (j - 1) as nat);
        lemma_length_nonneg(step_segment(prev, dt));
        assert((j - 1) * dt + dt == j * dt) by (nonlinear_arith);
        assert(free_flight(start, v0, gravity, dt, j).time == prev.time + dt);
    } else {
        assert(0 * dt == 0) by (nonlinear_arith);
    }
}

} // verus!

verus! {

/// Spacing of the points kept by a thinned path, in microseconds.
pub const RECORD_INTERVAL: i64 = 100_000;

/// The positions a run records after `n` steps of the drag model: every
/// position, or, when `thin`, a new one only once the path's length times
/// [`RECORD_INTERVAL`] has been reached by the elapsed time.
pub open spec fn drag_trail(
    start: IVec3,
    v0: IVec3,
    k: int,
    mass: int,
    gravity: IVec3,
    dt: int,
    thin: bool,
    n: nat,
) -> Seq<IVec3>
    decreases n,
{
    if n == 0 {
        seq![start]
    } else {
        let t = drag_trail(start, v0, k, mass, gravity, dt, thin, (n - 1) as nat);
        let st = drag_flight(start, v0, k, mass, gravity, dt, n);
        if !thin || t.len() * RECORD_INTERVAL <= st.time {
            t.push(st.position)
        } else {
            t
        }
    }
}

/// The positions the gravity-only model records after `n` steps, thinned to
/// about one per [`RECORD_INTERVAL`].
pub open spec fn free_trail(start: IVec3, v0: IVec3, gravity: IVec3, dt: int, n: nat) -> Seq<IVec3>
    decreases n,
{
    if n == 0 {
        seq![start]
    } else {
        let t = free_trail(start, v0, gravity, dt, (n - 1) as nat);
        let st = free_flight(start, v0, gravity, dt, n);
        if t.len() * RECORD_INTERVAL <= st.time {
            t.push(st.position)
        } else {
            t
        }
    }
}

/// An unthinned path holds every position, in order.
pub proof fn lemma_full_trail(
    start: IVec3,
    v0: IVec3,
    k: int,
    mass: int,
    gravity: IVec3,
    dt: int,
    n: nat,
)
    ensures
        drag_trail(start, v0, k, mass, gravity, dt, false, n).len() == n + 1,
        forall|j: int|
            0 <= j <= n ==> #[trigger] drag_trail(start, v0, k, mass, gravity, dt, false, n)[j]
                == drag_flight(start, v0, k, mass, gravity, dt, j as nat).position,
    decreases n,
{
    if n > 0 {
        lemma_full_trail(start, v0, k, mass, gravity, dt, (n - 1) as nat);
    }
}

/// With `k` (twice the drag constant) zero the thinned path of the drag model is the
/// path of the gravity-only model.
pub proof fn lemma_zero_drag_trail(start: IVec3, v0: IVec3, mass: int, gravity: IVec3, dt: int, n: nat)
    requires
        mass >= 1,
    ensures
        drag_trail(start, v0, 0, mass, gravity, dt, true, n) == free_trail(start, v0, gravity, dt, n),
    decreases n,
{
    if n > 0 {
        lemma_zero_drag_trail(start, v0, mass, gravity, dt, (n - 1) as nat);
        lemma_zero_drag_is_free_fall(start, v0, mass, gravity, dt, n);
    }
}

/// Every path starts at the start position and is never empty.
pub proof fn lemma_trail_starts(
    start: IVec3,
    v0: IVec3,
    k: int,
    mass: int,
    gravity: IVec3,
    dt: int,
    thin: bool,
    n: nat,
)
    ensures
        drag_trail(start, v0, k, mass, gravity, dt, thin, n).len() >= 1,
        drag_trail(start, v0, k, mass, gravity, dt, thin, n)[0] == start,
    decreases n,
{
    if n > 0 {
        lemma_trail_starts(start, v0, k, mass, gravity, dt, thin, (n - 1) as nat);
    }
}

} // verus!

verus! {

/// A path of `n` steps holds at most `n + 1` positions.
pub proof fn lemma_trail_len(
    start: IVec3,
    v0: IVec3,
    k: int,
    mass: int,
    gravity: IVec3,
    dt: int,
    thin: bool,
    n: nat,
)
    ensures
        drag_trail(start, v0, k, mass, gravity, dt, thin, n).len() <= n + 1,
    decreases n,
{
    if n > 0 {
        lemma_trail_len(start, v0, k, mass, gravity, dt, thin, (n - 1) as nat);
    }
}

} // verus!
