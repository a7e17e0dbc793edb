use bullet_trajectory::config::BulletPhysicsConfig;
use bullet_trajectory::debug::{DebugLines, Timer, DEBUG_LINE_LIFETIME};
use bullet_trajectory::fire::{fire_simple, fire_weapon, launch_from, shot_feedback, DrawCommand, Rgb, Shape, ShotKind, BULLET_MASS};
use bullet_trajectory::trajectory::{
    simulate_bullet_trajectory, simulate_simple_trajectory, BulletTrajectoryResult, CollisionQuery, RayHit,
};
use bullet_trajectory::vector::Vec3;
use bullet_trajectory::weapon::WeaponType;

const M: i64 = 1_000_000;

fn result(hit: Option<u32>) -> BulletTrajectoryResult<u32> {
    BulletTrajectoryResult {
        hit_entity: hit,
        hit_point: Vec3::new(3, 4, 5),
        distance: 10,
        time_of_flight: 20,
        trajectory_points: vec![Vec3::new(0, 0, 0), Vec3::new(1, 0, 0), Vec3::new(2, 0, 0)],
        impact_velocity: Vec3::new(1, 1, 1),
    }
}

fn line(a: i64, b: i64, color: Rgb) -> DrawCommand {
    DrawCommand { shape: Shape::Line { from: Vec3::new(a, 0, 0), to: Vec3::new(b, 0, 0) }, color }
}

#[test]
fn weapon_names_models_and_speeds() {
    assert_eq!(WeaponType::default(), WeaponType::Glock);
    assert_eq!(WeaponType::Glock.name(), "Glock");
    assert_eq!(WeaponType::FNF2000.name(), "FN F2000");
    assert_eq!(WeaponType::Glock.model(), "models/glock.glb#Scene0");
    assert_eq!(WeaponType::FNF2000.model(), "models/fnf2000.glb#Scene0");
    assert_eq!(WeaponType::Glock.muzzle_velocity(), 375 * M);
    assert_eq!(WeaponType::FNF2000.muzzle_velocity(), 900 * M);
    assert_eq!(WeaponType::Glock.ballistics(), BulletPhysicsConfig::caliber_9mm());
    assert_eq!(WeaponType::FNF2000.ballistics(), BulletPhysicsConfig::caliber_556());
    assert_eq!(BULLET_MASS, 7_500);
}

#[test]
fn launch_starts_two_metres_ahead() {
    let origin = Vec3::new(M, 2 * M, 3 * M);
    let forward = Vec3::new(0, 0, -M);
    let l = launch_from(&origin, &forward, 375 * M);
    assert_eq!(l.start, Vec3::new(M, 2 * M, M));
    assert_eq!(l.velocity, Vec3::new(0, 0, -375 * M));
    // a diagonal direction in millionths
    let l = launch_from(&Vec3::zero(), &Vec3::new(707_107, 0, 707_107), 900 * M);
    assert_eq!(l.start, Vec3::new(1_414_214, 0, 1_414_214));
    assert_eq!(l.velocity, Vec3::new(636_396_300, 0, 636_396_300));
}

#[test]
fn drag_hit_on_target_is_green_and_removed() {
    let f = shot_feedback(&result(Some(1)), ShotKind::Drag, true);
    let green = Rgb { r: 0, g: 1000, b: 0 };
    assert!(f.despawn_hit);
    assert_eq!(
        f.drawing,
        vec![
            line(0, 1, green),
            line(1, 2, green),
            DrawCommand {
                shape: Shape::Sphere { center: Vec3::new(3, 4, 5), radius: 200_000 },
                color: Rgb { r: 1000, g: 1000, b: 0 },
            },
        ]
    );
}

#[test]
fn drag_hit_elsewhere_is_red_and_kept() {
    let f = shot_feedback(&result(Some(1)), ShotKind::Drag, false);
    let red = Rgb { r: 1000, g: 0, b: 0 };
    assert!(!f.despawn_hit);
    assert_eq!(f.drawing.len(), 3);
    assert_eq!(f.drawing[0], line(0, 1, red));
    assert_eq!(
        f.drawing[2],
        DrawCommand {
            shape: Shape::Sphere { center: Vec3::new(3, 4, 5), radius: 150_000 },
            color: Rgb { r: 1000, g: 500, b: 0 },
        }
    );
}

#[test]
fn misses_draw_the_path_only() {
    let white = Rgb { r: 1000, g: 1000, b: 1000 };
    let f = shot_feedback(&result(None), ShotKind::Drag, true);
    assert!(!f.despawn_hit);
    assert_eq!(f.drawing, vec![line(0, 1, white), line(1, 2, white)]);
    let cyan = Rgb { r: 0, g: 1000, b: 1000 };
    let f = shot_feedback(&result(None), ShotKind::Simple, true);
    assert!(!f.despawn_hit);
    assert_eq!(f.drawing, vec![line(0, 1, cyan), line(1, 2, cyan)]);
}

#[test]
fn simple_hits_are_cyan_with_a_magenta_sphere() {
    let f = shot_feedback(&result(Some(4)), ShotKind::Simple, false);
    assert!(!f.despawn_hit);
    assert_eq!(f.drawing.len(), 3);
    assert_eq!(f.drawing[2].color, Rgb { r: 1000, g: 0, b: 1000 });
    let f = shot_feedback(&result(Some(4)), ShotKind::Simple, true);
    assert!(f.despawn_hit);
}

#[test]
fn timer_finishes_once() {
    let mut t = Timer::once(5);
    t.tick(3);
    assert!(!t.finished && !t.finished_this_tick);
    assert_eq!(t.elapsed, 3);
    t.tick(3);
    assert!(t.finished && t.finished_this_tick);
    assert_eq!(t.elapsed, 5);
    t.tick(3);
    assert!(t.finished && !t.finished_this_tick);
    let mut z = Timer::once(0);
    z.tick(0);
    assert!(z.finished_this_tick);
    let mut big = Timer::once(10);
    big.tick(u64::MAX);
    assert!(big.finished && big.elapsed == 10);
}

#[test]
fn debug_lines_expire_after_their_lifetime() {
    let mut lines = DebugLines::new();
    let d = vec![line(0, 1, Rgb { r: 1, g: 2, b: 3 })];
    lines.push(d.clone());
    assert!(!lines.run_all(DEBUG_LINE_LIFETIME - 1));
    lines.push(d.clone());
    assert!(lines.run_all(1));
    lines.clean();
    assert_eq!(lines.entries.len(), 1);
    assert_eq!(lines.entries[0].timer.elapsed, 1);
    assert_eq!(lines.entries[0].drawing, d);
    assert!(!lines.run_all(DEBUG_LINE_LIFETIME - 2));
    assert!(lines.run_all(1));
    lines.clean();
    assert_eq!(lines.entries.len(), 0);
}

/// A wall across the z axis at `z = -depth`, entity 9.
struct Wall {
    depth: i64,
}

impl CollisionQuery<(), u32> for Wall {
    fn ray_answer(&self, origin: Vec3, direction: Vec3, max_distance: i64, _: bool, _: &()) -> Option<RayHit<u32>> {
        let end_z = origin.z + direction.z;
        if origin.z >= -self.depth && end_z <= -self.depth && direction.z < 0 {
            let ahead = (origin.z + self.depth) as i128;
            Some(RayHit { entity: 9, distance: (max_distance as i128 * ahead / (-direction.z) as i128) as i64 })
        } else {
            None
        }
    }

    fn cast_ray(&self, origin: Vec3, direction: Vec3, max_distance: i64, solid: bool, filter: &()) -> Option<RayHit<u32>> {
        self.ray_answer(origin, direction, max_distance, solid, filter)
    }
}

#[test]
fn firing_a_weapon_runs_its_ballistics_from_two_metres_ahead() {
    let wall = Wall { depth: 100 * M };
    let origin = Vec3::new(0, 2 * M, 0);
    let forward = Vec3::new(0, 0, -M);
    for weapon in [WeaponType::Glock, WeaponType::FNF2000] {
        let r = fire_weapon(&wall, weapon, &origin, &forward, &());
        let expected = simulate_bullet_trajectory(
            &wall,
            Vec3::new(0, 2 * M, -2 * M),
            Vec3::new(0, 0, -weapon.muzzle_velocity()),
            BULLET_MASS,
            Some(weapon.ballistics()),
            &(),
        );
        assert_eq!(r.hit_entity, Some(9));
        assert_eq!(r.trajectory_points[0], Vec3::new(0, 2 * M, -2 * M));
        assert_eq!(r.trajectory_points, expected.trajectory_points);
        assert_eq!((r.hit_point, r.time_of_flight), (expected.hit_point, expected.time_of_flight));
        assert!((r.hit_point.z + 100 * M).abs() <= 1);
    }
    // the slower Glock round takes longer to reach the wall
    let glock = fire_weapon(&wall, WeaponType::Glock, &origin, &forward, &());
    let rifle = fire_weapon(&wall, WeaponType::FNF2000, &origin, &forward, &());
    assert!(glock.time_of_flight > rifle.time_of_flight);
}

#[test]
fn a_simple_shot_flies_at_900_m_per_s_under_standard_gravity() {
    let wall = Wall { depth: 100 * M };
    let r = fire_simple(&wall, &Vec3::zero(), &Vec3::new(0, 0, -M), &());
    let expected = simulate_simple_trajectory(&wall, Vec3::new(0, 0, -2 * M), Vec3::new(0, 0, -900 * M), None, &());
    assert_eq!(r.hit_entity, Some(9));
    assert_eq!(r.trajectory_points, expected.trajectory_points);
    assert_eq!(r.time_of_flight, expected.time_of_flight);
    // ten whole 10 ms steps of gravity before the step that hits
    assert_eq!(r.impact_velocity, Vec3::new(0, -10 * 98_100, -900 * M));
}

#[test]
fn update_ticks_and_drops_finished_drawings() {
    let mut lines = DebugLines::new();
    let d = vec![line(0, 1, Rgb { r: 1, g: 2, b: 3 })];
    lines.push(d.clone());
    assert!(!lines.update(DEBUG_LINE_LIFETIME - 1));
    assert_eq!(lines.entries.len(), 1);
    lines.push(d.clone());
    assert!(lines.update(1));
    assert_eq!(lines.entries.len(), 1);
    assert_eq!(lines.entries[0].timer.elapsed, 1);
    assert!(!lines.update(0));
    assert_eq!(lines.entries.len(), 1);
}
