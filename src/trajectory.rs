//! The trajectory simulators: explicit Euler integration with a collision
//! query along every step.
use vstd::prelude::*;

use crate::arith::{abs, is_sqrt_floor, trunc_div};
use crate::bounds::{
    lemma_drag_velocity_bound, lemma_length_le_l1, lemma_over_duration_bound, lemma_segment_vs_speed,
};
use crate::config::{
    twice_drag_constant, BulletPhysicsConfig, TWICE_DRAG_CONSTANT_LIMIT, MAX_DISTANCE_LIMIT, MAX_TIME_LIMIT,
    STANDARD_GRAVITY_Y,
};
use crate::model::{
    drag_divisor, drag_flight, drag_trail, free_flight, free_trail, lemma_full_trail,
    lemma_trail_len, lemma_trail_starts, lemma_zero_drag_is_free_fall, lemma_zero_drag_trail,
    step_segment, FlightState, RECORD_INTERVAL,
};
use crate::step::{
    drag_acceleration_of, point_along, point_along_segment, prorated_time, MASS_LIMIT,
};
use crate::vector::{l1, length, norm_sq, over_duration, IVec3, Vec3, UNIT};

verus! {

/// What a collision query reports: the object hit and the distance to it
/// along the ray, in micrometres.
#[derive(Clone, Debug)]
pub struct RayHit<E> {
    pub entity: E,
    pub distance: i64,
}

/// A scene that can be searched along a ray. The filter is handed through
/// unchanged; the simulators never look inside it.
///
/// A query reads the scene without changing it, so its answer is a
/// function of the query and the ray: [`CollisionQuery::ray_answer`].
pub trait CollisionQuery<F, E> {
    /// The answer the scene gives for a ray.
    spec fn ray_answer(
        &self,
        origin: Vec3,
        direction: Vec3,
        max_distance: i64,
        solid: bool,
        filter: &F,
    ) -> Option<RayHit<E>>;

    /// The nearest obstruction on the ray from `origin` along `direction`
    /// (a vector of length `max_distance`, not normalised) within
    /// `max_distance`, or `None`.
    fn cast_ray(
        &self,
        origin: Vec3,
        direction: Vec3,
        max_distance: i64,
        solid: bool,
        filter: &F,
    ) -> (r: Option<RayHit<E>>)
        ensures
            r == self.ray_answer(origin, direction, max_distance, solid, filter),
    ;
}

/// Outcome of one simulation run.
#[derive(Clone, Debug)]
pub struct BulletTrajectoryResult<E> {
    /// The object hit, if any.
    pub hit_entity: Option<E>,
    /// Where the projectile hit, or its final position.
    pub hit_point: Vec3,
    /// Path length travelled, micrometres.
    pub distance: i64,
    /// Elapsed time, microseconds.
    pub time_of_flight: i64,
    /// Sampled positions, starting with the start position.
    pub trajectory_points: Vec<Vec3>,
    /// Velocity at the moment the run ended.
    pub impact_velocity: Vec3,
}

/// Largest absolute start coordinate, micrometres.
pub const COORD_LIMIT: i64 = 1_000_000_000_000;

/// Largest speed budget, see [`speed_budget`].
pub const SPEED_BUDGET_LIMIT: u128 = 10_000_000_000_000_000;

/// A bound, in millionths of a micrometre per second, on the sum of the
/// absolute velocity components during a run of at most `max_time + dt`:
/// the initial velocity plus what gravity can add.
pub open spec fn speed_budget(v0: IVec3, gravity: IVec3, max_time: int, dt: int) -> int {
    UNIT * l1(v0) + l1(gravity) * (max_time + dt)
}

/// The start position and the speed budget fit the fixed-point model.
pub open spec fn launch_in_range(start: Vec3, v0: Vec3, gravity: Vec3, max_time: int, dt: int) -> bool {
    &&& start.bounded_by(COORD_LIMIT as int)
    &&& speed_budget(v0@, gravity@, max_time, dt) <= SPEED_BUDGET_LIMIT
}

/// The step is short enough that drag never removes more than the whole
/// velocity in one step, at any speed the budget allows (the explicit
/// Euler scheme's stability condition).
pub open spec fn drag_is_stable(k: int, mass: int, budget: int, dt: int) -> bool {
    k * budget * dt <= UNIT * UNIT * drag_divisor(mass)
}

/// A run still has time and distance left.
pub open spec fn within_budget(st: FlightState, max_time: int, max_distance: int) -> bool {
    st.time < max_time && st.distance < max_distance
}

/// The inputs of a drag-model run: a valid configuration, a positive mass,
/// a launch within range and a stable step.
pub open spec fn drag_run_valid(start: Vec3, v0: Vec3, mass: int, cfg: BulletPhysicsConfig) -> bool {
    &&& cfg.is_valid()
    &&& 1 <= mass <= MASS_LIMIT
    &&& launch_in_range(start, v0, cfg.gravity, cfg.max_time as int, cfg.time_step as int)
    &&& drag_is_stable(
        twice_drag_constant(cfg),
        mass,
        speed_budget(v0@, cfg.gravity@, cfg.max_time as int, cfg.time_step as int),
        cfg.time_step as int,
    )
}

/// Velocity and position stay within what the initial velocity, gravity and
/// the elapsed time allow.
pub open spec fn state_bounded(st: FlightState, start: IVec3, v0: IVec3, g: IVec3) -> bool {
    &&& UNIT * abs(st.velocity.x) <= UNIT * abs(v0.x) + abs(g.x) * st.time
    &&& UNIT * abs(st.velocity.y) <= UNIT * abs(v0.y) + abs(g.y) * st.time
    &&& UNIT * abs(st.velocity.z) <= UNIT * abs(v0.z) + abs(g.z) * st.time
    &&& abs(st.position.x) <= abs(start.x) + 10_000 * st.time
    &&& abs(st.position.y) <= abs(start.y) + 10_000 * st.time
    &&& abs(st.position.z) <= abs(start.z) + 10_000 * st.time
    &&& st.time >= 0
    &&& st.distance >= 0
}

/// Where a hit `d` micrometres along the step from `st` lands.
pub open spec fn hit_point_at(st: FlightState, dt: int, d: int) -> IVec3 {
    point_along(st.position, step_segment(st, dt), length(step_segment(st, dt)), d)
}

/// Elapsed time at a hit `d` micrometres along the step from `st`: the
/// step's start time plus `d / speed` times the step.
pub open spec fn hit_time_at(st: FlightState, dt: int, d: int) -> int {
    st.time + trunc_div(d * dt, length(st.velocity))
}

/// The fixed-point vector holding a model vector that fits `i64`.
pub open spec fn to_vec3(a: IVec3) -> Vec3 {
    Vec3 { x: a.x as i64, y: a.y as i64, z: a.z as i64 }
}

/// The query's answer for the step from `st`: a solid ray from the
/// position along the step's segment, as long as the segment, with the
/// caller's filter.
pub open spec fn step_answer<F, E, Q: CollisionQuery<F, E>>(
    query: &Q,
    filter: &F,
    st: FlightState,
    dt: int,
) -> Option<RayHit<E>> {
    let seg = step_segment(st, dt);
    query.ray_answer(to_vec3(st.position), to_vec3(seg), length(seg) as i64, true, filter)
}

/// The step from `st` is not empty and the query reports a hit within it.
pub open spec fn step_hits<F, E, Q: CollisionQuery<F, E>>(
    query: &Q,
    filter: &F,
    st: FlightState,
    dt: int,
) -> bool {
    length(step_segment(st, dt)) > 0 && ends_run(step_answer(query, filter, st, dt), length(step_segment(st, dt)))
}

/// What a run of `n` completed steps of the drag model returns: no earlier
/// step was hit, and the run ends on the first hit or once the budget is
/// spent.
pub open spec fn run_outcome<F, E, Q: CollisionQuery<F, E>>(
    r: BulletTrajectoryResult<E>,
    query: &Q,
    filter: &F,
    n: nat,
    start: IVec3,
    v0: IVec3,
    k: int,
    mass: int,
    g: IVec3,
    dt: int,
    thin: bool,
    max_time: int,
    max_distance: int,
) -> bool {
    let st = drag_flight(start, v0, k, mass, g, dt, n);
    let trail = drag_trail(start, v0, k, mass, g, dt, thin, n);
    let pts = r.trajectory_points@;
    &&& forall|j: nat|
        j < n ==> within_budget(#[trigger] drag_flight(start, v0, k, mass, g, dt, j), max_time, max_distance)
            && !step_hits(query, filter, drag_flight(start, v0, k, mass, g, dt, j), dt)
    &&& match r.hit_entity {
        None => {
            &&& !within_budget(st, max_time, max_distance)
            &&& pts.len() == trail.len()
            &&& forall|j: int| 0 <= j < pts.len() ==> (#[trigger] pts[j])@ == trail[j]
            &&& r.hit_point@ == st.position
            &&& r.impact_velocity@ == st.velocity
            &&& r.distance == st.distance
            &&& r.time_of_flight == st.time
        },
        Some(_) => {
            let d = r.distance - st.distance;
            let a = step_answer(query, filter, st, dt);
            &&& within_budget(st, max_time, max_distance)
            &&& step_hits(query, filter, st, dt)
            &&& r.hit_entity == Some(a->0.entity)
            &&& d == a->0.distance
            &&& pts.len() == trail.len() + 1
            &&& forall|j: int| 0 <= j < trail.len() ==> (#[trigger] pts[j])@ == trail[j]
            &&& pts[pts.len() - 1] == r.hit_point
            &&& length(step_segment(st, dt)) > 0
            &&& 0 <= d <= length(step_segment(st, dt))
            &&& r.hit_point@ == hit_point_at(st, dt, d)
            &&& r.time_of_flight == hit_time_at(st, dt, d)
            &&& r.impact_velocity@ == st.velocity
        },
    }
}

} // verus!

verus! {

/// One bound used at every step: the speed budget covers the velocity
/// after `time < max_time` microseconds, and it covers gravity over one
/// step.
proof fn lemma_budget_covers(st: FlightState, start: IVec3, v0: IVec3, g: IVec3, max_time: int, dt: int)
    requires
        state_bounded(st, start, v0, g),
        0 <= st.time < max_time,
        dt >= 1,
    ensures
        UNIT * l1(st.velocity) <= speed_budget(v0, g, max_time, dt),
        abs(g.x) * dt <= speed_budget(v0, g, max_time, dt),
        abs(g.y) * dt <= speed_budget(v0, g, max_time, dt),
        abs(g.z) * dt <= speed_budget(v0, g, max_time, dt),
{
    let t = st.time;
    let m = max_time + dt;
    assert(abs(g.x) * t + abs(g.y) * t + abs(g.z) * t <= l1(g) * m) by (nonlinear_arith)
        requires
            0 <= t <= m,
            abs(g.x) >= 0,
            abs(g.y) >= 0,
            abs(g.z) >= 0,
            l1(g) == abs(g.x) + abs(g.y) + abs(g.z),
    ;
    assert(abs(g.x) * dt <= l1(g) * m && abs(g.y) * dt <= l1(g) * m && abs(g.z) * dt <= l1(g) * m)
        by (nonlinear_arith)
        requires
            1 <= dt <= m,
            abs(g.x) >= 0,
            abs(g.y) >= 0,
            abs(g.z) >= 0,
            l1(g) == abs(g.x) + abs(g.y) + abs(g.z),
    ;
    assert(UNIT * l1(v0) >= 0);
}

/// The stability condition at the budget gives it at any speed within the
/// budget.
proof fn lemma_stable_at(k: int, mass: int, budget: int, dt: int, speed: int)
    requires
        drag_is_stable(k, mass, budget, dt),
        k >= 0,
        mass >= 1,
        dt >= 1,
        0 <= speed,
        UNIT * speed <= budget,
    ensures
        k * speed * dt <= UNIT * drag_divisor(mass),
        k * speed <= UNIT * drag_divisor(mass),
{
    let dv = drag_divisor(mass);
    assert(k * speed * dt <= UNIT * dv && k * speed <= k * speed * dt) by (nonlinear_arith)
        requires
            k * budget * dt <= UNIT * UNIT * dv,
            UNIT * speed <= budget,
            k >= 0,
            dt >= 1,
            speed >= 0,
    {
        assert(UNIT * (k * speed * dt) == k * (UNIT * speed) * dt);
        assert(k * (UNIT * speed) * dt <= k * budget * dt);
    }
}

/// The query's answer counts as a hit when it lies within the step's
/// segment.
pub open spec fn ends_run<E>(answer: Option<RayHit<E>>, seg_len: int) -> bool {
    answer is Some && 0 <= answer->0.distance <= seg_len
}

/// Decides what the query's answer for one step means. A hit `h` within
/// the segment (`0 <= h.distance <= seg_len`) ends the run: the result has
/// `h`'s entity, the point `h.distance` along the segment, the distance so
/// far plus `h.distance`, the time so far plus `(h.distance * dt) / speed`,
/// the points so far with the hit point pushed, and the velocity held
/// before the step. Any other answer lets the run go on and leaves the
/// points as they were.
pub fn end_on_hit<E>(
    answer: Option<RayHit<E>>,
    position: &Vec3,
    velocity: &Vec3,
    seg: &Vec3,
    seg_len: i64,
    speed: i64,
    time: i64,
    distance: i64,
    dt: i64,
    points: &mut Vec<Vec3>,
) -> (r: Option<BulletTrajectoryResult<E>>)
    requires
        1 <= dt <= MAX_TIME_LIMIT,
        0 <= time <= MAX_TIME_LIMIT,
        0 <= distance <= MAX_DISTANCE_LIMIT,
        seg@ == over_duration(velocity@, dt as int),
        is_sqrt_floor(norm_sq(velocity@), speed as int),
        is_sqrt_floor(norm_sq(seg@), seg_len as int),
        seg_len > 0,
        seg.bounded_by(100_000_000_000_000),
        position.bounded_by(100_000_000_000_000),
    ensures
        ends_run(answer, seg_len as int) <==> r is Some,
        ends_run(answer, seg_len as int) ==> {
            let h = answer->0;
            let res = r->0;
            &&& res.hit_entity == Some(h.entity)
            &&& res.hit_point@ == point_along(position@, seg@, seg_len as int, h.distance as int)
            &&& res.distance == distance + h.distance
            &&& res.time_of_flight == time + trunc_div(h.distance * dt, speed as int)
            &&& res.trajectory_points@ == old(points)@.push(res.hit_point)
            &&& res.impact_velocity == *velocity
        },
        !ends_run(answer, seg_len as int) ==> final(points)@ == old(points)@,
{
    match answer {
        Some(hit) => {
            if 0 <= hit.distance && hit.distance <= seg_len {
                let d = hit.distance;
                let hit_point = point_along_segment(position, seg, seg_len, d);
                proof {
                    lemma_segment_vs_speed(velocity@, dt as int, speed as int, seg_len as int);
                    lemma_length_le_l1(seg@, seg_len as int);
                }
                let tof = time + prorated_time(d, dt, speed);
                let mut taken: Vec<Vec3> = Vec::new();
                std::mem::swap(points, &mut taken);
                taken.push(hit_point);
                Some(
                    BulletTrajectoryResult {
                        hit_entity: Some(hit.entity),
                        hit_point,
                        distance: distance + d,
                        time_of_flight: tof,
                        trajectory_points: taken,
                        impact_velocity: *velocity,
                    },
                )
            } else {
                None
            }
        },
        None => None,
    }
}

/// A hit point `d` along a step's segment, `0 <= d <= len`, lies within
/// `|v| * dt` of the step's start, coordinate by coordinate.
proof fn lemma_hit_within_step<E>(r: BulletTrajectoryResult<E>, p: IVec3, v: IVec3, seg: IVec3, dt: int)
    requires
        dt >= 1,
        seg == over_duration(v, dt),
        r.impact_velocity@ == v,
        exists|len: int, d: int|
            0 <= d <= len && len > 0 && r.hit_point@ == #[trigger] point_along(p, seg, len, d),
    ensures
        hit_within_step(r, p, dt),
{
    let (len, d) = choose|len: int, d: int|
        0 <= d <= len && len > 0 && r.hit_point@ == #[trigger] point_along(p, seg, len, d);
    lemma_over_duration_bound(v.x, dt);
    lemma_over_duration_bound(v.y, dt);
    lemma_over_duration_bound(v.z, dt);
    crate::bounds::lemma_hit_offset(seg.x, d, len);
    crate::bounds::lemma_hit_offset(seg.y, d, len);
    crate::bounds::lemma_hit_offset(seg.z, d, len);
}

/// Runs the drag model with `k` (twice the drag constant) and step `dt` until the
/// query reports a hit within a step or the time or distance budget is
/// spent. The ghost result is the number of completed steps.
fn fly<F, E, Q: CollisionQuery<F, E>>(
    query: &Q,
    start: Vec3,
    v0: Vec3,
    k: u128,
    mass: u64,
    g: Vec3,
    dt: i64,
    max_time: i64,
    max_distance: i64,
    thin: bool,
    filter: &F,
) -> (res: (BulletTrajectoryResult<E>, Ghost<nat>))
    requires
        k <= TWICE_DRAG_CONSTANT_LIMIT,
        1 <= mass <= MASS_LIMIT,
        1 <= dt <= max_time <= MAX_TIME_LIMIT,
        1 <= max_distance <= MAX_DISTANCE_LIMIT,
        launch_in_range(start, v0, g, max_time as int, dt as int),
        drag_is_stable(k as int, mass as int, speed_budget(v0@, g@, max_time as int, dt as int), dt as int),
    ensures
        run_outcome(
            res.0,
            query,
            filter,
            res.1@,
            start@,
            v0@,
            k as int,
            mass as int,
            g@,
            dt as int,
            thin,
            max_time as int,
            max_distance as int,
        ),
        res.0.hit_entity is Some ==> hit_within_step(
            res.0,
            drag_flight(start@, v0@, k as int, mass as int, g@, dt as int, res.1@).position,
            dt as int,
        ),
{
    let ghost sk = k as int;
    let ghost sm = mass as int;
    let ghost sdt = dt as int;
    let ghost budget = speed_budget(v0@, g@, max_time as int, dt as int);
    let mut position = start;
    let mut velocity = v0;
    let mut time: i64 = 0;
    let mut distance: i64 = 0;
    let mut points: Vec<Vec3> = Vec::new();
    points.push(start);
    let ghost mut n: nat = 0;
    assert(UNIT * abs(v0@.x) <= UNIT * abs(v0@.x) + abs(g@.x) * 0) by (nonlinear_arith);
    assert(UNIT * abs(v0@.y) <= UNIT * abs(v0@.y) + abs(g@.y) * 0) by (nonlinear_arith);
    assert(UNIT * abs(v0@.z) <= UNIT * abs(v0@.z) + abs(g@.z) * 0) by (nonlinear_arith);
    assert(points@[0]@ == drag_trail(start@, v0@, sk, sm, g@, sdt, thin, 0)[0]);
    while time < max_time && distance < max_distance
        invariant
            k <= TWICE_DRAG_CONSTANT_LIMIT,
            1 <= mass <= MASS_LIMIT,
            1 <= dt <= max_time <= MAX_TIME_LIMIT,
            1 <= max_distance <= MAX_DISTANCE_LIMIT,
            launch_in_range(start, v0, g, max_time as int, dt as int),
            drag_is_stable(sk, sm, budget, sdt),
            sk == k as int,
            sm == mass as int,
            sdt == dt as int,
            budget == speed_budget(v0@, g@, max_time as int, dt as int),
            position@ == drag_flight(start@, v0@, sk, sm, g@, sdt, n).position,
            velocity@ == drag_flight(start@, v0@, sk, sm, g@, sdt, n).velocity,
            time == drag_flight(start@, v0@, sk, sm, g@, sdt, n).time,
            distance == drag_flight(start@, v0@, sk, sm, g@, sdt, n).distance,
            state_bounded(drag_flight(start@, v0@, sk, sm, g@, sdt, n), start@, v0@, g@),
            time < max_time + dt,
            time == n * dt,
            distance <= MAX_DISTANCE_LIMIT + 100_000_000_000_000,
            points@.len() == drag_trail(start@, v0@, sk, sm, g@, sdt, thin, n).len(),
            points@.len() <= n + 1,
            forall|j: int|
                0 <= j < points@.len() ==> (#[trigger] points@[j])@ == drag_trail(
                    start@,
                    v0@,
                    sk,
                    sm,
                    g@,
                    sdt,
                    thin,
                    n,
                )[j],
            forall|j: nat|
                j < n ==> within_budget(
                    #[trigger] drag_flight(start@, v0@, sk, sm, g@, sdt, j),
                    max_time as int,
                    max_distance as int,
                ) && !step_hits(query, filter, drag_flight(start@, v0@, sk, sm, g@, sdt, j), sdt),
        decreases max_time + dt - time,
    {
        let ghost st = drag_flight(start@, v0@, sk, sm, g@, sdt, n);
        proof {
            lemma_budget_covers(st, start@, v0@, g@, max_time as int, sdt);
        }
        let speed = velocity.length();
        proof {
            lemma_length_le_l1(velocity@, speed as int);
            lemma_stable_at(sk, sm, budget, sdt, speed as int);
        }
        let drag = drag_acceleration_of(k, speed, mass, &velocity);
        proof {
            lemma_drag_velocity_bound(sk, speed as int, sm, velocity.x as int, g.x as int, sdt);
            lemma_drag_velocity_bound(sk, speed as int, sm, velocity.y as int, g.y as int, sdt);
            lemma_drag_velocity_bound(sk, speed as int, sm, velocity.z as int, g.z as int, sdt);
            assert(abs(g.x as int) <= budget && abs(g.y as int) <= budget && abs(g.z as int) <= budget)
                by (nonlinear_arith)
                requires
                    abs(g.x as int) * sdt <= budget,
                    abs(g.y as int) * sdt <= budget,
                    abs(g.z as int) * sdt <= budget,
                    sdt >= 1,
            ;
        }
        let accel = Vec3 { x: g.x + drag.x, y: g.y + drag.y, z: g.z + drag.z };
        assert(accel.over_duration_fits(sdt)) by (nonlinear_arith)
            requires
                abs(g.x as int) * sdt <= budget,
                abs(g.y as int) * sdt <= budget,
                abs(g.z as int) * sdt <= budget,
                abs(drag.x as int) * sdt <= UNIT * abs(velocity.x as int),
                abs(drag.y as int) * sdt <= UNIT * abs(velocity.y as int),
                abs(drag.z as int) * sdt <= UNIT * abs(velocity.z as int),
                UNIT * l1(velocity@) <= budget,
                budget <= SPEED_BUDGET_LIMIT,
                accel.x == g.x + drag.x,
                accel.y == g.y + drag.y,
                accel.z == g.z + drag.z,
                sdt >= 1,
        ;
        let dv = accel.over_duration(dt);
        let new_velocity = velocity.plus(&dv);
        assert(velocity.over_duration_fits(sdt)) by (nonlinear_arith)
            requires
                UNIT * l1(velocity@) <= budget,
                budget <= SPEED_BUDGET_LIMIT,
                1 <= sdt <= MAX_TIME_LIMIT,
        ;
        let seg = velocity.over_duration(dt);
        proof {
            lemma_over_duration_bound(velocity.x as int, sdt);
            lemma_over_duration_bound(velocity.y as int, sdt);
            lemma_over_duration_bound(velocity.z as int, sdt);
        }
        assert(seg.bounded_by(10_000 * sdt)) by (nonlinear_arith)
            requires
                UNIT * abs(seg.x as int) <= abs(velocity.x as int) * sdt,
                UNIT * abs(seg.y as int) <= abs(velocity.y as int) * sdt,
                UNIT * abs(seg.z as int) <= abs(velocity.z as int) * sdt,
                UNIT * l1(velocity@) <= budget,
                budget <= SPEED_BUDGET_LIMIT,
                sdt >= 1,
        ;
        let seg_len = seg.length();
        proof {
            lemma_length_le_l1(seg@, seg_len as int);
        }
        assert(to_vec3(st.position) == position);
        assert(to_vec3(step_segment(st, sdt)) == seg);
        if seg_len > 0 {
            let answer = query.cast_ray(position, seg, seg_len, true, filter);
            assert(answer == step_answer(query, filter, st, sdt));
            proof {
                lemma_length_le_l1(velocity@, speed as int);
            }
            let outcome = end_on_hit(answer, &position, &velocity, &seg, seg_len, speed, time, distance, dt, &mut points);
            if let Some(result) = outcome {
                proof {
                    lemma_hit_within_step(result, position@, velocity@, seg@, dt as int);
                }
                return (result, Ghost(n));
            }
        }
        assert(!step_hits(query, filter, st, sdt));
        proof {
            assert(abs(g.x as int) * time + abs(g.x as int) * sdt == abs(g.x as int) * (time + sdt)
                && abs(g.y as int) * time + abs(g.y as int) * sdt == abs(g.y as int) * (time + sdt)
                && abs(g.z as int) * time + abs(g.z as int) * sdt == abs(g.z as int) * (time
                + sdt)) by (nonlinear_arith);
            assert((n + 1) * sdt == n * sdt + sdt) by (nonlinear_arith);
            lemma_trail_len(start@, v0@, sk, sm, g@, sdt, thin, n);
        }
        position = position.plus(&seg);
        velocity = new_velocity;
        time = time + dt;
        distance = distance + seg_len;
        proof {
            n = n + 1;
        }
        assert(n <= time) by (nonlinear_arith)
            requires
                time == n * sdt,
                sdt >= 1,
        ;
        if !thin || points.len() as i64 * RECORD_INTERVAL <= time {
            points.push(position);
        }
    }
    (
        BulletTrajectoryResult {
            hit_entity: None,
            hit_point: position,
            distance,
            time_of_flight: time,
            trajectory_points: points,
            impact_velocity: velocity,
        },
        Ghost(n),
    )
}

} // verus!

verus! {

/// The state after `j` steps of a drag-model run with configuration `cfg`.
pub open spec fn cfg_flight(start: IVec3, v0: IVec3, mass: int, cfg: BulletPhysicsConfig, j: nat) -> FlightState {
    drag_flight(start, v0, twice_drag_constant(cfg), mass, cfg.gravity@, cfg.time_step as int, j)
}

/// What [`simulate_bullet_trajectory`] returns: every step's position is
/// recorded; the run stops at the first step whose segment the query
/// reports a hit on (`Some`), or once the state is out of time or distance
/// budget (`None`).
pub open spec fn drag_trajectory_matches<F, E, Q: CollisionQuery<F, E>>(
    r: BulletTrajectoryResult<E>,
    query: &Q,
    filter: &F,
    start: Vec3,
    v0: Vec3,
    mass: int,
    cfg: BulletPhysicsConfig,
) -> bool {
    let pts = r.trajectory_points@;
    let dt = cfg.time_step as int;
    let mt = cfg.max_time as int;
    let md = cfg.max_distance as int;
    &&& pts.len() >= 1
    &&& pts[0] == start
    &&& match r.hit_entity {
        None => {
            let n = (pts.len() - 1) as nat;
            let st = cfg_flight(start@, v0@, mass, cfg, n);
            let last = cfg_flight(start@, v0@, mass, cfg, (n - 1) as nat);
            &&& pts.len() >= 2
            &&& r.time_of_flight < mt + dt
            &&& r.distance < md + length(step_segment(last, dt))
            &&& forall|j: nat|
                j < n ==> within_budget(#[trigger] cfg_flight(start@, v0@, mass, cfg, j), mt, md)
                    && !step_hits(query, filter, cfg_flight(start@, v0@, mass, cfg, j), dt)
            &&& !within_budget(st, mt, md)
            &&& forall|j: int| 0 <= j < pts.len() ==> (#[trigger] pts[j])@ == cfg_flight(start@, v0@, mass, cfg, j as nat).position
            &&& r.hit_point@ == st.position
            &&& r.impact_velocity@ == st.velocity
            &&& r.distance == st.distance
            &&& r.time_of_flight == st.time
        },
        Some(_) => {
            let n = (pts.len() - 2) as nat;
            let st = cfg_flight(start@, v0@, mass, cfg, n);
            let d = r.distance - st.distance;
            &&& pts.len() >= 2
            &&& forall|j: nat|
                j <= n ==> within_budget(#[trigger] cfg_flight(start@, v0@, mass, cfg, j), mt, md)
            &&& forall|j: nat|
                j < n ==> !step_hits(query, filter, #[trigger] cfg_flight(start@, v0@, mass, cfg, j), dt)
            &&& step_hits(query, filter, st, dt)
            &&& r.hit_entity == Some(step_answer(query, filter, st, dt)->0.entity)
            &&& d == step_answer(query, filter, st, dt)->0.distance
            &&& forall|j: int| 0 <= j <= n ==> (#[trigger] pts[j])@ == cfg_flight(start@, v0@, mass, cfg, j as nat).position
            &&& pts[pts.len() - 1] == r.hit_point
            &&& length(step_segment(st, dt)) > 0
            &&& 0 <= d <= length(step_segment(st, dt))
            &&& r.hit_point@ == hit_point_at(st, dt, d)
            &&& r.time_of_flight == hit_time_at(st, dt, d)
            &&& r.impact_velocity@ == st.velocity
        },
    }
}

/// A hit lies within one step's travel of the last recorded position
/// before it, coordinate by coordinate: `|hit - p| <= |v| * dt`.
pub open spec fn hit_within_step<E>(r: BulletTrajectoryResult<E>, before: IVec3, dt: int) -> bool {
    let h = r.hit_point;
    let v = r.impact_velocity;
    &&& UNIT * abs(h.x - before.x) <= abs(v.x as int) * dt
    &&& UNIT * abs(h.y - before.y) <= abs(v.y as int) * dt
    &&& UNIT * abs(h.z - before.z) <= abs(v.z as int) * dt
}

/// Simulates a bullet under gravity and quadratic air drag, with the
/// configuration given or the standard one, until the query reports a hit
/// within a step or the time or distance budget is spent.
///
/// Each step: drag `-k |v| v / (2 m)`, velocity `v + (g + drag) * dt`,
/// position `p + v * dt` with the velocity from before the step; then a
/// ray from `p` along the step. On a hit `d` along the step the run returns
/// the hit point, the distance so far plus `d`, the time so far plus
/// `(d / |v|) * dt` and the velocity before the step.
pub fn simulate_bullet_trajectory<F, E, Q: CollisionQuery<F, E>>(
    query: &Q,
    start_position: Vec3,
    initial_velocity: Vec3,
    mass: u64,
    config: Option<BulletPhysicsConfig>,
    filter: &F,
) -> (r: BulletTrajectoryResult<E>)
    requires
        drag_run_valid(start_position, initial_velocity, mass as int, BulletPhysicsConfig::or_standard(config)),
    ensures
        drag_trajectory_matches(r, query, filter, start_position, initial_velocity, mass as int, BulletPhysicsConfig::or_standard(config)),
        r.hit_entity is Some ==> hit_within_step(
            r,
            r.trajectory_points@[r.trajectory_points@.len() - 2]@,
            BulletPhysicsConfig::or_standard(config).time_step as int,
        ),
{
    let config = match config {
        Some(c) => c,
        None => BulletPhysicsConfig::default(),
    };
    let k = config.twice_drag_constant();
    let (r, Ghost(n)) = fly(
        query,
        start_position,
        initial_velocity,
        k,
        mass,
        config.gravity,
        config.time_step,
        config.max_time,
        config.max_distance,
        false,
        filter,
    );
    proof {
        let g = config.gravity@;
        let dt = config.time_step as int;
        lemma_full_trail(start_position@, initial_velocity@, k as int, mass as int, g, dt, n);
        lemma_trail_starts(start_position@, initial_velocity@, k as int, mass as int, g, dt, false, n);
        if r.hit_entity is None {
            if n == 0 {
                assert(!within_budget(cfg_flight(start_position@, initial_velocity@, mass as int, config, 0), config.max_time as int, config.max_distance as int));
            }
            let last = cfg_flight(start_position@, initial_velocity@, mass as int, config, (n - 1) as nat);
            assert(within_budget(last, config.max_time as int, config.max_distance as int));
        }
    }
    r
}

} // verus!

verus! {

/// Step of the simplified model, microseconds.
pub const SIMPLE_TIME_STEP: i64 = 10_000;

/// Time budget of the simplified model, microseconds.
pub const SIMPLE_MAX_TIME: i64 = 30_000_000;

/// Distance budget of the simplified model, micrometres.
pub const SIMPLE_MAX_DISTANCE: i64 = 10_000_000_000;

/// The gravity a simplified run uses when given `gravity`.
pub open spec fn gravity_or_standard(gravity: Option<Vec3>) -> Vec3 {
    match gravity {
        Some(g) => g,
        None => Vec3 { x: 0, y: STANDARD_GRAVITY_Y, z: 0 },
    }
}

/// What [`simulate_simple_trajectory`] returns after `n` completed steps:
/// the thinned path, ended by a hit point (`Some`) or by a state out of
/// time or distance budget (`None`).
pub open spec fn simple_trajectory_at<F, E, Q: CollisionQuery<F, E>>(
    r: BulletTrajectoryResult<E>,
    query: &Q,
    filter: &F,
    n: nat,
    start: IVec3,
    v0: IVec3,
    g: IVec3,
) -> bool {
    let dt = SIMPLE_TIME_STEP as int;
    let mt = SIMPLE_MAX_TIME as int;
    let md = SIMPLE_MAX_DISTANCE as int;
    let st = free_flight(start, v0, g, dt, n);
    let trail = free_trail(start, v0, g, dt, n);
    let pts = r.trajectory_points@;
    &&& forall|j: nat|
        j < n ==> within_budget(#[trigger] free_flight(start, v0, g, dt, j), mt, md)
            && !step_hits(query, filter, free_flight(start, v0, g, dt, j), dt)
    &&& match r.hit_entity {
        None => {
            let last = free_flight(start, v0, g, dt, (n - 1) as nat);
            &&& n >= 1
            &&& !within_budget(st, mt, md)
            &&& r.time_of_flight < mt + dt
            &&& r.distance < md + length(step_segment(last, dt))
            &&& pts.len() == trail.len()
            &&& forall|j: int| 0 <= j < pts.len() ==> (#[trigger] pts[j])@ == trail[j]
            &&& r.hit_point@ == st.position
            &&& r.impact_velocity@ == st.velocity
            &&& r.distance == st.distance
            &&& r.time_of_flight == st.time
        },
        Some(_) => {
            let d = r.distance - st.distance;
            let a = step_answer(query, filter, st, dt);
            &&& within_budget(st, mt, md)
            &&& step_hits(query, filter, st, dt)
            &&& r.hit_entity == Some(a->0.entity)
            &&& d == a->0.distance
            &&& pts.len() == trail.len() + 1
            &&& forall|j: int| 0 <= j < trail.len() ==> (#[trigger] pts[j])@ == trail[j]
            &&& pts[pts.len() - 1] == r.hit_point
            &&& length(step_segment(st, dt)) > 0
            &&& 0 <= d <= length(step_segment(st, dt))
            &&& r.hit_point@ == hit_point_at(st, dt, d)
            &&& r.time_of_flight == hit_time_at(st, dt, d)
            &&& r.impact_velocity@ == st.velocity
            &&& hit_within_step(r, st.position, dt)
        },
    }
}

/// Simulates a projectile under gravity alone (the given gravity or the
/// standard one), with 10 ms steps, a 30 s and 10 km budget, and a path
/// thinned to about one point per 0.1 s of flight. A hit ends the run as
/// in [`simulate_bullet_trajectory`].
pub fn simulate_simple_trajectory<F, E, Q: CollisionQuery<F, E>>(
    query: &Q,
    start_position: Vec3,
    initial_velocity: Vec3,
    gravity: Option<Vec3>,
    filter: &F,
) -> (r: BulletTrajectoryResult<E>)
    requires
        launch_in_range(
            start_position,
            initial_velocity,
            gravity_or_standard(gravity),
            SIMPLE_MAX_TIME as int,
            SIMPLE_TIME_STEP as int,
        ),
    ensures
        r.trajectory_points@.len() >= 1,
        r.trajectory_points@[0] == start_position,
        exists|n: nat| simple_trajectory_at(r, query, filter, n, start_position@, initial_velocity@, gravity_or_standard(gravity)@),
{
    let g = match gravity {
        Some(g) => g,
        None => Vec3 { x: 0, y: STANDARD_GRAVITY_Y, z: 0 },
    };
    let ghost budget = speed_budget(initial_velocity@, g@, SIMPLE_MAX_TIME as int, SIMPLE_TIME_STEP as int);
    assert(drag_is_stable(0, 1, budget, SIMPLE_TIME_STEP as int)) by (nonlinear_arith);
    let (r, Ghost(n)) = fly(
        query,
        start_position,
        initial_velocity,
        0,
        1,
        g,
        SIMPLE_TIME_STEP,
        SIMPLE_MAX_TIME,
        SIMPLE_MAX_DISTANCE,
        true,
        filter,
    );
    proof {
        let s = start_position@;
        let v = initial_velocity@;
        let dt = SIMPLE_TIME_STEP as int;
        lemma_zero_drag_trail(s, v, 1, g@, dt, n);
        lemma_zero_drag_is_free_fall(s, v, 1, g@, dt, n);
        lemma_trail_starts(s, v, 0, 1, g@, dt, true, n);
        assert forall|j: nat| j < n implies within_budget(
            #[trigger] free_flight(s, v, g@, dt, j),
            SIMPLE_MAX_TIME as int,
            SIMPLE_MAX_DISTANCE as int,
        ) && !step_hits(query, filter, free_flight(s, v, g@, dt, j), dt) by {
            lemma_zero_drag_is_free_fall(s, v, 1, g@, dt, j);
            assert(within_budget(drag_flight(s, v, 0, 1, g@, dt, j), SIMPLE_MAX_TIME as int, SIMPLE_MAX_DISTANCE as int));
            assert(!step_hits(query, filter, drag_flight(s, v, 0, 1, g@, dt, j), dt));
        }
        if r.hit_entity is None {
            if n == 0 {
                assert(!within_budget(drag_flight(s, v, 0, 1, g@, dt, 0), SIMPLE_MAX_TIME as int, SIMPLE_MAX_DISTANCE as int));
            }
            lemma_zero_drag_is_free_fall(s, v, 1, g@, dt, (n - 1) as nat);
            assert(within_budget(free_flight(s, v, g@, dt, (n - 1) as nat), SIMPLE_MAX_TIME as int, SIMPLE_MAX_DISTANCE as int));
        }
        assert(simple_trajectory_at(r, query, filter, n, s, v, g@));
    }
    r
}

} // verus!

verus! {

fn abs_of(x: i64) -> (r: u128)
    ensures
        r as int == abs(x as int),
        r <= 9_223_372_036_854_775_808u128,
{
    if x >= 0 {
        x as u128
    } else {
        (-(x as i128)) as u128
    }
}

fn l1_of(v: &Vec3) -> (r: u128)
    ensures
        r as int == l1(v@),
        r <= 30_000_000_000_000_000_000u128,
{
    abs_of(v.x) + abs_of(v.y) + abs_of(v.z)
}

fn coord_in_range(x: i64) -> (r: bool)
    ensures
        r == (abs(x as int) <= COORD_LIMIT),
{
    -COORD_LIMIT <= x && x <= COORD_LIMIT
}

/// Whether the start position and speed budget fit the model, as
/// [`launch_in_range`] states; the step must lie in `1..=max_time` and
/// `max_time` within its limit.
pub fn launch_is_in_range(start: &Vec3, v0: &Vec3, gravity: &Vec3, max_time: i64, dt: i64) -> (r: bool)
    requires
        1 <= dt <= max_time <= MAX_TIME_LIMIT,
    ensures
        r == launch_in_range(*start, *v0, *gravity, max_time as int, dt as int),
{
    if !(coord_in_range(start.x) && coord_in_range(start.y) && coord_in_range(start.z)) {
        return false;
    }
    speed_budget_of(v0, gravity, max_time, dt) <= SPEED_BUDGET_LIMIT
}

fn speed_budget_of(v0: &Vec3, gravity: &Vec3, max_time: i64, dt: i64) -> (r: u128)
    requires
        1 <= dt <= max_time <= MAX_TIME_LIMIT,
    ensures
        r as int == speed_budget(v0@, gravity@, max_time as int, dt as int),
{
    let lv = l1_of(v0);
    let lg = l1_of(gravity);
    let span = (max_time + dt) as u128;
    assert(lg * span <= 60_000_000_000_000_000_000_000_000_000u128) by (nonlinear_arith)
        requires
            lg <= 30_000_000_000_000_000_000u128,
            span <= 2_000_000_000u128,
    ;
    assert(lv * 1_000_000u128 <= 30_000_000_000_000_000_000_000_000u128) by (nonlinear_arith)
        requires
            lv <= 30_000_000_000_000_000_000u128,
    ;
    lv * (UNIT as u128) + lg * span
}

/// Whether a drag-model run accepts these inputs: exactly
/// [`drag_run_valid`] for the configuration given or the standard one.
pub fn drag_run_is_valid(start: &Vec3, v0: &Vec3, mass: u64, config: &Option<BulletPhysicsConfig>) -> (r: bool)
    ensures
        r == drag_run_valid(*start, *v0, mass as int, BulletPhysicsConfig::or_standard(*config)),
{
    let cfg = match config {
        Some(c) => *c,
        None => BulletPhysicsConfig::default(),
    };
    let cfg_ok = 1 <= cfg.time_step && cfg.time_step <= cfg.max_time && cfg.max_time <= MAX_TIME_LIMIT
        && 1 <= cfg.max_distance && cfg.max_distance <= MAX_DISTANCE_LIMIT
        && cfg.air_density <= crate::config::AIR_DENSITY_LIMIT
        && cfg.drag_coefficient <= crate::config::DRAG_COEFFICIENT_LIMIT
        && cfg.cross_section_area <= crate::config::CROSS_SECTION_LIMIT;
    if !cfg_ok || mass < 1 || mass > MASS_LIMIT {
        return false;
    }
    if !launch_is_in_range(start, v0, &cfg.gravity, cfg.max_time, cfg.time_step) {
        return false;
    }
    let budget = speed_budget_of(v0, &cfg.gravity, cfg.max_time, cfg.time_step);
    let k = cfg.twice_drag_constant();
    let divisor = crate::step::drag_divisor_of(mass);
    assert(divisor * 1_000_000_000_000u128 <= 300_000_000_000_000_000_000_000_000_000_000_000_000u128)
        by (nonlinear_arith)
        requires
            divisor as int == drag_divisor(mass as int),
            mass <= MASS_LIMIT,
    ;
    let limit = divisor * 1_000_000_000_000u128;
    let dt = cfg.time_step as u128;
    assert(k * budget <= k * budget * dt) by (nonlinear_arith)
        requires
            dt >= 1,
    ;
    assert(UNIT * UNIT * drag_divisor(mass as int) == limit as int) by (nonlinear_arith)
        requires
            limit == divisor * 1_000_000_000_000u128,
            divisor as int == drag_divisor(mass as int),
            UNIT == 1_000_000,
    ;
    match k.checked_mul(budget) {
        None => {
            assert(k * budget * dt > limit);
            false
        },
        Some(kb) => match kb.checked_mul(dt) {
            None => {
                assert(kb * dt > limit);
                false
            },
            Some(kbt) => kbt <= limit,
        },
    }
}

/// Whether a simplified run accepts these inputs: exactly
/// [`launch_in_range`] for the gravity given or the standard one.
pub fn simple_run_is_valid(start: &Vec3, v0: &Vec3, gravity: &Option<Vec3>) -> (r: bool)
    ensures
        r == launch_in_range(*start, *v0, gravity_or_standard(*gravity), SIMPLE_MAX_TIME as int, SIMPLE_TIME_STEP as int),
{
    let g = match gravity {
        Some(g) => *g,
        None => Vec3 { x: 0, y: STANDARD_GRAVITY_Y, z: 0 },
    };
    launch_is_in_range(start, v0, &g, SIMPLE_MAX_TIME, SIMPLE_TIME_STEP)
}

} // verus!

verus! {

/// Trajectory simulation as methods of any collision query.
pub trait BulletTrajectory<F, E>: CollisionQuery<F, E> + Sized {
    /// See [`simulate_bullet_trajectory`].
    fn simulate_bullet_trajectory(
        &self,
        start_position: Vec3,
        initial_velocity: Vec3,
        mass: u64,
        config: Option<BulletPhysicsConfig>,
        filter: &F,
    ) -> (r: BulletTrajectoryResult<E>)
        requires
            drag_run_valid(start_position, initial_velocity, mass as int, BulletPhysicsConfig::or_standard(config)),
        ensures
            drag_trajectory_matches(r, self, filter, start_position, initial_velocity, mass as int, BulletPhysicsConfig::or_standard(config)),
            r.hit_entity is Some ==> hit_within_step(
                r,
                r.trajectory_points@[r.trajectory_points@.len() - 2]@,
                BulletPhysicsConfig::or_standard(config).time_step as int,
            ),
    ;

    /// See [`simulate_simple_trajectory`].
    fn simulate_simple_trajectory(
        &self,
        start_position: Vec3,
        initial_velocity: Vec3,
        gravity: Option<Vec3>,
        filter: &F,
    ) -> (r: BulletTrajectoryResult<E>)
        requires
            launch_in_range(
                start_position,
                initial_velocity,
                gravity_or_standard(gravity),
                SIMPLE_MAX_TIME as int,
                SIMPLE_TIME_STEP as int,
            ),
        ensures
            r.trajectory_points@.len() >= 1,
            r.trajectory_points@[0] == start_position,
            exists|n: nat| simple_trajectory_at(r, self, filter, n, start_position@, initial_velocity@, gravity_or_standard(gravity)@),
    ;
}

impl<F, E, Q: CollisionQuery<F, E>> BulletTrajectory<F, E> for Q {
    fn simulate_bullet_trajectory(
        &self,
        start_position: Vec3,
        initial_velocity: Vec3,
        mass: u64,
        config: Option<BulletPhysicsConfig>,
        filter: &F,
    ) -> (r: BulletTrajectoryResult<E>) {
        simulate_bullet_trajectory(self, start_position, initial_velocity, mass, config, filter)
    }

    fn simulate_simple_trajectory(
        &self,
        start_position: Vec3,
        initial_velocity: Vec3,
        gravity: Option<Vec3>,
        filter: &F,
    ) -> (r: BulletTrajectoryResult<E>) {
        simulate_simple_trajectory(self, start_position, initial_velocity, gravity, filter)
    }
}

} // verus!

verus! {

/// A configuration without cross-section area has no drag: a drag-model
/// run then passes through exactly the states of the gravity-only model
/// with the same gravity and step, and records the same positions.
pub proof fn lemma_zero_area_is_free_fall(start: Vec3, v0: Vec3, mass: int, cfg: BulletPhysicsConfig, j: nat)
    requires
        cfg.cross_section_area == 0,
        mass >= 1,
    ensures
        cfg_flight(start@, v0@, mass, cfg, j) == free_flight(start@, v0@, cfg.gravity@, cfg.time_step as int, j),
        drag_trail(start@, v0@, twice_drag_constant(cfg), mass, cfg.gravity@, cfg.time_step as int, true, j)
            == free_trail(start@, v0@, cfg.gravity@, cfg.time_step as int, j),
{
    assert(twice_drag_constant(cfg) == 0) by (nonlinear_arith)
        requires
            cfg.cross_section_area == 0,
            twice_drag_constant(cfg) == cfg.air_density as int * cfg.drag_coefficient as int
                * cfg.cross_section_area as int,
    ;
    lemma_zero_drag_is_free_fall(start@, v0@, mass, cfg.gravity@, cfg.time_step as int, j);
    lemma_zero_drag_trail(start@, v0@, mass, cfg.gravity@, cfg.time_step as int, j);
}

} // verus!

verus! {

/// In a scene that never reports a hit, a drag-model run ends without a
/// hit once its budget is spent: its time is at most one step past
/// `max_time`, and unless the distance budget ran out first, it has
/// reached `max_time`.
pub proof fn lemma_quiet_scene_spends_budget<F, E, Q: CollisionQuery<F, E>>(
    r: BulletTrajectoryResult<E>,
    query: &Q,
    filter: &F,
    start: Vec3,
    v0: Vec3,
    mass: int,
    cfg: BulletPhysicsConfig,
)
    requires
        drag_trajectory_matches(r, query, filter, start, v0, mass, cfg),
        forall|o: Vec3, d: Vec3, m: i64, s: bool| #[trigger] query.ray_answer(o, d, m, s, filter) is None,
    ensures
        r.hit_entity is None,
        r.time_of_flight < cfg.max_time + cfg.time_step,
        r.distance < cfg.max_distance ==> r.time_of_flight >= cfg.max_time,
{
    if r.hit_entity is Some {
        let n = (r.trajectory_points@.len() - 2) as nat;
        let st = cfg_flight(start@, v0@, mass, cfg, n);
        assert(step_hits(query, filter, st, cfg.time_step as int));
        assert(step_answer(query, filter, st, cfg.time_step as int) is None);
    }
}

} // verus!
