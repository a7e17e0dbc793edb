//! Firing a weapon: where the shot starts, and what is drawn and removed
//! once its trajectory is known.
use vstd::prelude::*;

use crate::arith::{abs, trunc_div};
use crate::config::{twice_drag_constant, BulletPhysicsConfig};
use crate::trajectory::{
    drag_run_valid, drag_trajectory_matches, gravity_or_standard, hit_within_step,
    simple_trajectory_at, simulate_bullet_trajectory, simulate_simple_trajectory,
    BulletTrajectoryResult, CollisionQuery, COORD_LIMIT,
};
use crate::vector::l1;
use crate::weapon::{ballistics_of, muzzle_speed_of, WeaponType};
use crate::vector::{div_toward_zero, ivec, vsum, Vec3, UNIT};

verus! {

/// Mass of a fired bullet, milligrams (7.5 g).
pub const BULLET_MASS: u64 = 7_500;

/// Muzzle speed of a simplified shot, micrometres per second (900 m/s).
pub const SIMPLE_SHOT_SPEED: i64 = 900_000_000;

/// Largest absolute component of a camera position accepted by
/// [`launch_from`], micrometres.
pub const ORIGIN_LIMIT: i64 = 999_000_000_000;

/// A colour as linear red, green and blue in thousandths.
#[derive(Clone, Copy, Debug, PartialEq, Eq, Structural)]
pub struct Rgb {
    pub r: u16,
    pub g: u16,
    pub b: u16,
}

pub open spec fn rgb(r: u16, g: u16, b: u16) -> Rgb {
    Rgb { r, g, b }
}

#[derive(Clone, Copy, Debug, PartialEq, Eq, Structural)]
pub enum Shape {
    Line { from: Vec3, to: Vec3 },
    Sphere { center: Vec3, radius: i64 },
}

/// A shape to draw and its colour.
#[derive(Clone, Copy, Debug, PartialEq, Eq, Structural)]
pub struct DrawCommand {
    pub shape: Shape,
    pub color: Rgb,
}

/// Which simulation a shot ran.
#[derive(Clone, Copy, Debug, PartialEq, Eq, Structural)]
pub enum ShotKind {
    /// Full drag model with the weapon's ballistics.
    Drag,
    /// Gravity only.
    Simple,
}

/// What to do once a shot's trajectory is known.
#[derive(Clone, Debug)]
pub struct ShotFeedback {
    pub drawing: Vec<DrawCommand>,
    /// Whether the object hit is to be removed.
    pub despawn_hit: bool,
}

/// Where a shot starts and how fast it goes.
#[derive(Clone, Copy, Debug, PartialEq, Eq, Structural)]
pub struct Launch {
    pub start: Vec3,
    pub velocity: Vec3,
}

/// Where a shot from `origin` along `forward` at `speed` starts and how it
/// moves, as computed by [`launch_from`].
pub open spec fn launch_of(origin: Vec3, forward: Vec3, speed: i64) -> Launch {
    Launch {
        start: Vec3 {
            x: (origin.x + 2 * forward.x) as i64,
            y: (origin.y + 2 * forward.y) as i64,
            z: (origin.z + 2 * forward.z) as i64,
        },
        velocity: Vec3 {
            x: trunc_div(forward.x * speed, UNIT as int) as i64,
            y: trunc_div(forward.y * speed, UNIT as int) as i64,
            z: trunc_div(forward.z * speed, UNIT as int) as i64,
        },
    }
}

/// A shot from `origin` along `forward` (a unit vector in millionths)
/// starts two metres ahead and moves at `speed` along `forward`.
pub fn launch_from(origin: &Vec3, forward: &Vec3, speed: i64) -> (r: Launch)
    requires
        origin.bounded_by(ORIGIN_LIMIT as int),
        forward.bounded_by(UNIT as int),
        0 <= speed <= 10_000_000_000,
    ensures
        r.start@ == vsum(origin@, ivec(2 * forward.x, 2 * forward.y, 2 * forward.z)),
        r.velocity@ == ivec(
            trunc_div(forward.x * speed, UNIT as int),
            trunc_div(forward.y * speed, UNIT as int),
            trunc_div(forward.z * speed, UNIT as int),
        ),
        r.start.bounded_by(COORD_LIMIT as int),
        r.velocity.bounded_by(speed as int),
        r == launch_of(*origin, *forward, speed),
{
    let start = Vec3 {
        x: origin.x + 2 * forward.x,
        y: origin.y + 2 * forward.y,
        z: origin.z + 2 * forward.z,
    };
    let velocity = Vec3 {
        x: along(forward.x, speed),
        y: along(forward.y, speed),
        z: along(forward.z, speed),
    };
    Launch { start, velocity }
}

fn along(f: i64, speed: i64) -> (r: i64)
    requires
        abs(f as int) <= UNIT,
        0 <= speed <= 10_000_000_000,
    ensures
        r as int == trunc_div(f * speed, UNIT as int),
        abs(r as int) <= speed,
{
    assert(abs(f * speed) <= UNIT * speed) by (nonlinear_arith)
        requires
            abs(f as int) <= UNIT,
            0 <= speed <= 10_000_000_000,
    ;
    let p = f as i128 * speed as i128;
    proof {
        crate::arith::lemma_trunc_div_bounds(p as int, UNIT as int);
        let t = trunc_div(p as int, UNIT as int);
        assert(abs(t) <= speed) by (nonlinear_arith)
            requires
                UNIT * abs(t) <= abs(p as int),
                abs(p as int) <= UNIT * speed,
        {
        }
    }
    div_toward_zero(p, UNIT as i128) as i64
}

pub open spec fn white() -> Rgb {
    rgb(1000, 1000, 1000)
}

/// Lines joining consecutive points, in `color`.
pub open spec fn path_lines(points: Seq<Vec3>, color: Rgb) -> Seq<DrawCommand> {
    Seq::new(
        (if points.len() == 0 { 0 } else { points.len() - 1 }) as nat,
        |i: int| DrawCommand { shape: Shape::Line { from: points[i], to: points[i + 1] }, color },
    )
}

pub open spec fn sphere(center: Vec3, radius: i64, color: Rgb) -> DrawCommand {
    DrawCommand { shape: Shape::Sphere { center, radius }, color }
}

/// The drawing for a shot and whether the object hit goes.
///
/// Drag shots: a hit target is drawn green with a yellow 0.2 m sphere and
/// removed; another hit is drawn red with an orange 0.15 m sphere; a miss
/// is drawn white. Simplified shots: cyan, with a magenta 0.2 m sphere on a
/// hit; a hit target is removed.
pub open spec fn feedback_spec(
    points: Seq<Vec3>,
    hit: bool,
    hit_point: Vec3,
    kind: ShotKind,
    hit_is_target: bool,
) -> (Seq<DrawCommand>, bool) {
    match kind {
        ShotKind::Drag => if !hit {
            (path_lines(points, white()), false)
        } else if hit_is_target {
            (
                path_lines(points, rgb(0, 1000, 0)).push(sphere(hit_point, 200_000, rgb(1000, 1000, 0))),
                true,
            )
        } else {
            (
                path_lines(points, rgb(1000, 0, 0)).push(sphere(hit_point, 150_000, rgb(1000, 500, 0))),
                false,
            )
        },
        ShotKind::Simple => if !hit {
            (path_lines(points, rgb(0, 1000, 1000)), false)
        } else {
            (
                path_lines(points, rgb(0, 1000, 1000)).push(sphere(hit_point, 200_000, rgb(1000, 0, 1000))),
                hit_is_target,
            )
        },
    }
}

fn lines_along(points: &Vec<Vec3>, color: Rgb) -> (r: Vec<DrawCommand>)
    ensures
        r@ == path_lines(points@, color),
{
    let mut r: Vec<DrawCommand> = Vec::new();
    if points.len() == 0 {
        assert(r@ =~= path_lines(points@, color));
        return r;
    }
    let mut i: usize = 0;
    while i + 1 < points.len()
        invariant
            points.len() >= 1,
            0 <= i < points.len(),
            r@ =~= path_lines(points@, color).take(i as int),
        decreases points.len() - i,
    {
        r.push(DrawCommand { shape: Shape::Line { from: points[i], to: points[i + 1] }, color });
        i = i + 1;
        assert(r@ =~= path_lines(points@, color).take(i as int));
    }
    assert(r@ =~= path_lines(points@, color));
    r
}

/// What to draw for a finished shot, and whether to remove what it hit;
/// `hit_is_target` says whether the object hit is a target.
pub fn shot_feedback<E>(result: &BulletTrajectoryResult<E>, kind: ShotKind, hit_is_target: bool) -> (r: ShotFeedback)
    ensures
        (r.drawing@, r.despawn_hit) == feedback_spec(
            result.trajectory_points@,
            result.hit_entity is Some,
            result.hit_point,
            kind,
            hit_is_target,
        ),
{
    let hit = result.hit_entity.is_some();
    let points = &result.trajectory_points;
    match kind {
        ShotKind::Drag => {
            if !hit {
                ShotFeedback { drawing: lines_along(points, Rgb { r: 1000, g: 1000, b: 1000 }), despawn_hit: false }
            } else if hit_is_target {
                let mut drawing = lines_along(points, Rgb { r: 0, g: 1000, b: 0 });
                drawing.push(DrawCommand {
                    shape: Shape::Sphere { center: result.hit_point, radius: 200_000 },
                    color: Rgb { r: 1000, g: 1000, b: 0 },
                });
                ShotFeedback { drawing, despawn_hit: true }
            } else {
                let mut drawing = lines_along(points, Rgb { r: 1000, g: 0, b: 0 });
                drawing.push(DrawCommand {
                    shape: Shape::Sphere { center: result.hit_point, radius: 150_000 },
                    color: Rgb { r: 1000, g: 500, b: 0 },
                });
                ShotFeedback { drawing, despawn_hit: false }
            }
        },
        ShotKind::Simple => {
            let mut drawing = lines_along(points, Rgb { r: 0, g: 1000, b: 1000 });
            if hit {
                drawing.push(DrawCommand {
                    shape: Shape::Sphere { center: result.hit_point, radius: 200_000 },
                    color: Rgb { r: 1000, g: 0, b: 1000 },
                });
            }
            ShotFeedback { drawing, despawn_hit: hit && hit_is_target }
        },
    }
}

/// Fires `weapon` from `origin` along `forward` (a unit vector in
/// millionths): a bullet of [`BULLET_MASS`] leaves two metres ahead at the
/// weapon's muzzle speed and flies under the weapon's ballistics.
pub fn fire_weapon<F, E, Q: CollisionQuery<F, E>>(
    query: &Q,
    weapon: WeaponType,
    origin: &Vec3,
    forward: &Vec3,
    filter: &F,
) -> (r: BulletTrajectoryResult<E>)
    requires
        origin.bounded_by(ORIGIN_LIMIT as int),
        forward.bounded_by(UNIT as int),
    ensures
        ({
            let l = launch_of(*origin, *forward, muzzle_speed_of(weapon));
            &&& drag_trajectory_matches(r, query, filter, l.start, l.velocity, BULLET_MASS as int, ballistics_of(weapon))
            &&& r.hit_entity is Some ==> hit_within_step(
                r,
                r.trajectory_points@[r.trajectory_points@.len() - 2]@,
                ballistics_of(weapon).time_step as int,
            )
        }),
{
    let config = weapon.ballistics();
    let speed = weapon.muzzle_velocity();
    let launch = launch_from(origin, forward, speed);
    proof {
        let v = launch.velocity@;
        let b = UNIT * l1(v) + l1(config.gravity@) * (config.max_time + config.time_step);
        assert(l1(config.gravity@) == 9_810_000);
        assert(UNIT * l1(v) <= 2_700_000_000_000_000);
        assert(b <= 3_000_000_000_000_000);
        let k = twice_drag_constant(config);
        assert(k <= 23_000_000_000_000) by (nonlinear_arith)
            requires
                k == config.air_density as int * config.drag_coefficient as int
                    * config.cross_section_area as int,
                config.air_density == 1225,
                config.drag_coefficient <= 295,
                config.cross_section_area <= 63_600_000,
        ;
        assert(k * b * 1000 <= UNIT * UNIT * crate::model::drag_divisor(BULLET_MASS as int))
            by (nonlinear_arith)
            requires
                0 <= k <= 23_000_000_000_000,
                0 <= b <= 3_000_000_000_000_000,
                crate::model::drag_divisor(BULLET_MASS as int) == 15_000_000_000_000_000_000_000,
                UNIT == 1_000_000,
        ;
        assert(drag_run_valid(launch.start, launch.velocity, BULLET_MASS as int, BulletPhysicsConfig::or_standard(Some(config))));
    }
    simulate_bullet_trajectory(query, launch.start, launch.velocity, BULLET_MASS, Some(config), filter)
}

/// Fires a simplified shot from `origin` along `forward` (a unit vector in
/// millionths): two metres ahead, at [`SIMPLE_SHOT_SPEED`], under standard
/// gravity alone.
pub fn fire_simple<F, E, Q: CollisionQuery<F, E>>(
    query: &Q,
    origin: &Vec3,
    forward: &Vec3,
    filter: &F,
) -> (r: BulletTrajectoryResult<E>)
    requires
        origin.bounded_by(ORIGIN_LIMIT as int),
        forward.bounded_by(UNIT as int),
    ensures
        ({
            let l = launch_of(*origin, *forward, SIMPLE_SHOT_SPEED);
            &&& r.trajectory_points@.len() >= 1
            &&& r.trajectory_points@[0] == l.start
            &&& exists|n: nat| simple_trajectory_at(r, query, filter, n, l.start@, l.velocity@, gravity_or_standard(None)@)
        }),
{
    let launch = launch_from(origin, forward, SIMPLE_SHOT_SPEED);
    assert(UNIT * l1(launch.velocity@) <= 2_700_000_000_000_000);
    simulate_simple_trajectory(query, launch.start, launch.velocity, None, filter)
}

} // verus!
