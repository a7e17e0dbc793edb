use bullet_trajectory::config::BulletPhysicsConfig;
use bullet_trajectory::trajectory::{
    drag_run_is_valid, end_on_hit, simple_run_is_valid, simulate_bullet_trajectory, simulate_simple_trajectory,
    BulletTrajectory, BulletTrajectoryResult, CollisionQuery, RayHit,
};
use bullet_trajectory::vector::Vec3;

/// A scene with nothing in it.
struct OpenSky;

impl CollisionQuery<(), u32> for OpenSky {
    fn ray_answer(&self, _: Vec3, _: Vec3, _: i64, _: bool, _: &()) -> Option<RayHit<u32>> {
        None
    }

    fn cast_ray(&self, origin: Vec3, direction: Vec3, max_distance: i64, solid: bool, filter: &()) -> Option<RayHit<u32>> {
        self.ray_answer(origin, direction, max_distance, solid, filter)
    }
}

/// A horizontal plane at height `level` (micrometres), entity 7.
struct Ground {
    level: i64,
}

impl CollisionQuery<(), u32> for Ground {
    fn ray_answer(&self, origin: Vec3, direction: Vec3, max_distance: i64, _: bool, _: &()) -> Option<RayHit<u32>> {
        let end_y = origin.y + direction.y;
        if origin.y >= self.level && end_y <= self.level && direction.y < 0 {
            let above = (origin.y - self.level) as i128;
            let distance = (max_distance as i128 * above / (-direction.y) as i128) as i64;
            Some(RayHit { entity: 7, distance })
        } else {
            None
        }
    }

    fn cast_ray(&self, origin: Vec3, direction: Vec3, max_distance: i64, solid: bool, filter: &()) -> Option<RayHit<u32>> {
        self.ray_answer(origin, direction, max_distance, solid, filter)
    }
}

/// Reports a hit at a fixed distance on every ray, entity 3.
struct WallAt {
    distance: i64,
}

impl CollisionQuery<(), u32> for WallAt {
    fn ray_answer(&self, _: Vec3, _: Vec3, _: i64, _: bool, _: &()) -> Option<RayHit<u32>> {
        Some(RayHit { entity: 3, distance: self.distance })
    }

    fn cast_ray(&self, origin: Vec3, direction: Vec3, max_distance: i64, solid: bool, filter: &()) -> Option<RayHit<u32>> {
        self.ray_answer(origin, direction, max_distance, solid, filter)
    }
}

const M: i64 = 1_000_000;

fn speed_of(v: &Vec3) -> f64 {
    ((v.x as f64).powi(2) + (v.y as f64).powi(2) + (v.z as f64).powi(2)).sqrt()
}

fn assert_within_one_step(r: &BulletTrajectoryResult<u32>, before: &Vec3, dt: i64) {
    let v = r.impact_velocity;
    let h = r.hit_point;
    assert!(M as i128 * (h.x - before.x).abs() as i128 <= v.x.abs() as i128 * dt as i128);
    assert!(M as i128 * (h.y - before.y).abs() as i128 <= v.y.abs() as i128 * dt as i128);
    assert!(M as i128 * (h.z - before.z).abs() as i128 <= v.z.abs() as i128 * dt as i128);
}

#[test]
fn nine_mm_in_open_sky_runs_out_of_time() {
    let start = Vec3::new(0, 0, 0);
    let v0 = Vec3::new(0, 0, -900 * M);
    let config = Some(BulletPhysicsConfig::caliber_9mm());
    assert!(drag_run_is_valid(&start, &v0, 7_500, &config));
    let r = simulate_bullet_trajectory(&OpenSky, start, v0, 7_500, config, &());
    assert!(r.hit_entity.is_none());
    let cfg = BulletPhysicsConfig::caliber_9mm();
    let time_spent = r.time_of_flight >= cfg.max_time && r.time_of_flight < cfg.max_time + cfg.time_step;
    let distance_spent = r.distance >= cfg.max_distance;
    assert!(time_spent || distance_spent);
    assert_eq!(r.time_of_flight, 30 * M);
    assert!(speed_of(&r.impact_velocity) < 900.0 * M as f64);
    assert_eq!(r.trajectory_points.len(), 30_001);
    assert_eq!(r.trajectory_points[0], start);
    assert_eq!(*r.trajectory_points.last().unwrap(), r.hit_point);
    // the bullet flies along -z and drops under gravity
    assert!(r.hit_point.z < -1_000 * M);
    assert!(r.hit_point.y < 0);
    assert_eq!(r.hit_point.x, 0);
}

#[test]
fn simple_fall_from_ten_metres_lands_after_about_1_43_s() {
    let start = Vec3::new(0, 10 * M, 0);
    let v0 = Vec3::zero();
    assert!(simple_run_is_valid(&start, &v0, &None));
    let r = simulate_simple_trajectory(&Ground { level: 0 }, start, v0, Some(Vec3::new(0, -9_810_000, 0)), &());
    assert_eq!(r.hit_entity, Some(7));
    assert_eq!(r.hit_point.x, 0);
    assert_eq!(r.hit_point.z, 0);
    assert!(r.hit_point.y.abs() <= 1_000, "hit at y = {}", r.hit_point.y);
    assert!((r.time_of_flight - 1_428_000).abs() <= 20_000, "time {}", r.time_of_flight);
    assert!((r.distance - 10 * M).abs() <= 1_000);
    assert_eq!(r.trajectory_points[0], start);
    assert_eq!(*r.trajectory_points.last().unwrap(), r.hit_point);
    // thinned: the start, about ten points a second, and the hit
    assert!(r.trajectory_points.len() >= 14 && r.trajectory_points.len() <= 17);
}

#[test]
fn hit_on_first_step_records_start_and_hit() {
    let start = Vec3::new(0, 2 * M, 0);
    let v0 = Vec3::new(900 * M, 0, 0);
    let r = simulate_simple_trajectory(&WallAt { distance: 5 * M }, start, v0, None, &());
    assert_eq!(r.hit_entity, Some(3));
    assert_eq!(r.trajectory_points.len(), 2);
    assert_eq!(r.trajectory_points[0], start);
    assert_eq!(r.trajectory_points[1], r.hit_point);
    assert_eq!(r.distance, 5 * M);
    assert_eq!(r.hit_point, Vec3::new(5 * M, 2 * M, 0));
    // 5 m at 900 m/s, prorated over the 10 ms step: (5 / 900) * 10 ms
    assert_eq!(r.time_of_flight, 55);
    assert_eq!(r.impact_velocity, v0);
}

#[test]
fn drag_hit_on_first_step_records_start_and_hit() {
    let mut cfg = BulletPhysicsConfig::caliber_556();
    cfg.time_step = 10_000;
    let start = Vec3::new(0, 0, 0);
    let v0 = Vec3::new(0, 0, -900 * M);
    assert!(drag_run_is_valid(&start, &v0, 4_000, &Some(cfg)));
    let r = simulate_bullet_trajectory(&WallAt { distance: 5 * M }, start, v0, 4_000, Some(cfg), &());
    assert_eq!(r.hit_entity, Some(3));
    assert_eq!(r.trajectory_points, vec![start, Vec3::new(0, 0, -5 * M)]);
    assert_eq!(r.distance, 5 * M);
    assert_eq!(r.impact_velocity, v0);
    assert_within_one_step(&r, &start, cfg.time_step);
}

#[test]
fn hit_beyond_the_step_is_not_a_hit() {
    // a 1 m step cannot hit something 5 m away
    let start = Vec3::new(0, 0, 0);
    let v0 = Vec3::new(100 * M, 0, 0);
    let r = simulate_simple_trajectory(&WallAt { distance: 5 * M }, start, v0, None, &());
    assert_eq!(r.hit_entity, None);
    assert_eq!(r.time_of_flight, 30 * M);
}

#[test]
fn default_drag_run_in_open_sky_spends_its_budget() {
    let start = Vec3::new(0, 1_000 * M, 0);
    let v0 = Vec3::new(900 * M, 0, 0);
    let r = simulate_bullet_trajectory(&OpenSky, start, v0, 7_500, None, &());
    let cfg = BulletPhysicsConfig::default();
    assert_eq!(r.hit_entity, None);
    assert!(r.time_of_flight >= cfg.max_time);
    assert!(r.time_of_flight < cfg.max_time + cfg.time_step);
    let n = r.trajectory_points.len();
    let last = r.trajectory_points[n - 1];
    let before = r.trajectory_points[n - 2];
    let last_step = speed_of(&Vec3::new(last.x - before.x, last.y - before.y, last.z - before.z));
    assert!((r.distance as f64) <= cfg.max_distance as f64 + last_step + 1.0);
    assert_eq!(r.time_of_flight as usize, (n - 1) * cfg.time_step as usize);
}

#[test]
fn elapsed_time_and_distance_never_decrease_along_the_path() {
    let start = Vec3::new(0, 0, 0);
    let v0 = Vec3::new(300 * M, 300 * M, 0);
    let mut cfg = BulletPhysicsConfig::caliber_762();
    cfg.max_time = 2 * M;
    let r = simulate_bullet_trajectory(&OpenSky, start, v0, 9_500, Some(cfg), &());
    let mut total = 0.0f64;
    for w in r.trajectory_points.windows(2) {
        let step = speed_of(&Vec3::new(w[1].x - w[0].x, w[1].y - w[0].y, w[1].z - w[0].z));
        assert!(step >= 0.0);
        total += step;
    }
    assert!((total - r.distance as f64).abs() <= r.trajectory_points.len() as f64 * 2.0);
    assert_eq!(r.time_of_flight, 2 * M);
}

#[test]
fn zero_drag_matches_simple_model_with_the_same_step() {
    let start = Vec3::new(0, 10 * M, 0);
    let v0 = Vec3::new(100 * M, 0, 0);
    let mut cfg = BulletPhysicsConfig::default();
    cfg.cross_section_area = 0;
    cfg.time_step = 10_000;
    let ground = Ground { level: 0 };
    let drag = simulate_bullet_trajectory(&ground, start, v0, 7_500, Some(cfg), &());
    let simple = simulate_simple_trajectory(&ground, start, v0, None, &());
    assert_eq!(drag.hit_entity, Some(7));
    assert_eq!(simple.hit_entity, Some(7));
    assert_eq!(drag.hit_point, simple.hit_point);
    assert_eq!(drag.time_of_flight, simple.time_of_flight);
    assert_eq!(drag.distance, simple.distance);
    assert_eq!(drag.impact_velocity, simple.impact_velocity);
    assert!(drag.trajectory_points.len() > simple.trajectory_points.len());
}

#[test]
fn zero_drag_agrees_with_simple_model_within_a_coarse_step() {
    let start = Vec3::new(0, 10 * M, 0);
    let v0 = Vec3::new(100 * M, 0, 0);
    let mut cfg = BulletPhysicsConfig::default();
    cfg.cross_section_area = 0;
    let ground = Ground { level: 0 };
    let drag = simulate_bullet_trajectory(&ground, start, v0, 7_500, Some(cfg), &());
    let simple = simulate_simple_trajectory(&ground, start, v0, None, &());
    assert_eq!(drag.hit_entity, Some(7));
    assert_eq!(simple.hit_entity, Some(7));
    // one coarse step is 10 ms: 1 m of horizontal travel at 100 m/s
    assert!((drag.time_of_flight - simple.time_of_flight).abs() <= 10_000);
    assert!((drag.hit_point.x - simple.hit_point.x).abs() <= 1_000_000);
    assert!(drag.hit_point.y.abs() <= 1_000 && simple.hit_point.y.abs() <= 1_000);
}

#[test]
fn zero_velocity_falls_straight_down_under_drag() {
    let start = Vec3::new(5 * M, 10 * M, -3 * M);
    let r = simulate_bullet_trajectory(&Ground { level: 0 }, start, Vec3::zero(), 7_500, None, &());
    assert_eq!(r.hit_entity, Some(7));
    assert_eq!(r.hit_point.x, 5 * M);
    assert_eq!(r.hit_point.z, -3 * M);
    assert!(r.hit_point.y.abs() <= 1_000);
    assert!(r.impact_velocity.y < 0);
    assert_eq!(r.impact_velocity.x, 0);
    let n = r.trajectory_points.len();
    assert_within_one_step(&r, &r.trajectory_points[n - 2], 1_000);
}

#[test]
fn drag_slows_a_level_shot_more_than_gravity_alone() {
    let start = Vec3::new(0, 0, 0);
    let v0 = Vec3::new(900 * M, 0, 0);
    let mut cfg = BulletPhysicsConfig::caliber_9mm();
    cfg.max_time = M;
    let mut no_drag = cfg;
    no_drag.cross_section_area = 0;
    let with = simulate_bullet_trajectory(&OpenSky, start, v0, 7_500, Some(cfg), &());
    let without = simulate_bullet_trajectory(&OpenSky, start, v0, 7_500, Some(no_drag), &());
    assert!(with.impact_velocity.x < without.impact_velocity.x);
    assert_eq!(without.impact_velocity.x, 900 * M);
    assert!(with.distance < without.distance);
}

#[test]
fn invalid_drag_inputs_are_reported() {
    let start = Vec3::new(0, 0, 0);
    let v0 = Vec3::new(900 * M, 0, 0);
    assert!(drag_run_is_valid(&start, &v0, 7_500, &None));
    assert!(!drag_run_is_valid(&start, &v0, 0, &None));
    let mut cfg = BulletPhysicsConfig::default();
    cfg.time_step = 0;
    assert!(!drag_run_is_valid(&start, &v0, 7_500, &Some(cfg)));
    // faster than the model's speed budget
    assert!(!drag_run_is_valid(&start, &Vec3::new(20_000 * M, 0, 0), 7_500, &None));
    // start too far out
    assert!(!drag_run_is_valid(&Vec3::new(2_000_000 * M, 0, 0), &v0, 7_500, &None));
    // a one-milligram pellet with a large area is unstable at 1 ms steps
    let mut big = BulletPhysicsConfig::default();
    big.cross_section_area = 1_000_000_000_000;
    assert!(!drag_run_is_valid(&start, &v0, 1, &Some(big)));
    assert!(!simple_run_is_valid(&start, &Vec3::new(i64::MAX, 0, 0), &None));
}

#[test]
fn trait_methods_run_the_same_simulation() {
    let ground = Ground { level: 0 };
    let start = Vec3::new(0, 5 * M, 0);
    let v0 = Vec3::new(50 * M, 5 * M, 0);
    let a = ground.simulate_bullet_trajectory(start, v0, 7_500, None, &());
    let b = simulate_bullet_trajectory(&ground, start, v0, 7_500, None, &());
    assert_eq!(a.hit_entity, Some(7));
    assert_eq!((a.hit_point, a.distance, a.time_of_flight), (b.hit_point, b.distance, b.time_of_flight));
    assert_eq!(a.trajectory_points, b.trajectory_points);
    let c = ground.simulate_simple_trajectory(start, v0, None, &());
    let d = simulate_simple_trajectory(&ground, start, v0, None, &());
    assert_eq!((c.hit_point, c.time_of_flight), (d.hit_point, d.time_of_flight));
    assert_eq!(c.trajectory_points, d.trajectory_points);
}

#[test]
fn an_answer_within_the_step_ends_the_run() {
    // 900 m/s along x over a 10 ms step: a 9 m segment
    let p = Vec3::new(M, 0, 0);
    let v = Vec3::new(900 * M, 0, 0);
    let seg = v.over_duration(10_000);
    assert_eq!(seg, Vec3::new(9 * M, 0, 0));
    let mut points = vec![Vec3::zero(), p];
    let hit = Some(RayHit { entity: 11u32, distance: 5 * M });
    let r = end_on_hit(hit, &p, &v, &seg, 9 * M, 900 * M, 20_000, 3 * M, 10_000, &mut points).unwrap();
    assert_eq!(r.hit_entity, Some(11));
    assert_eq!(r.hit_point, Vec3::new(6 * M, 0, 0));
    assert_eq!(r.distance, 8 * M);
    assert_eq!(r.time_of_flight, 20_055);
    assert_eq!(r.trajectory_points, vec![Vec3::zero(), p, Vec3::new(6 * M, 0, 0)]);
    assert_eq!(r.impact_velocity, v);
}

#[test]
fn an_answer_beyond_the_step_or_none_lets_the_run_go_on() {
    let p = Vec3::new(M, 0, 0);
    let v = Vec3::new(900 * M, 0, 0);
    let seg = Vec3::new(9 * M, 0, 0);
    let mut points = vec![Vec3::zero(), p];
    let far = Some(RayHit { entity: 11u32, distance: 9 * M + 1 });
    assert!(end_on_hit(far, &p, &v, &seg, 9 * M, 900 * M, 0, 0, 10_000, &mut points).is_none());
    let behind = Some(RayHit { entity: 11u32, distance: -1 });
    assert!(end_on_hit(behind, &p, &v, &seg, 9 * M, 900 * M, 0, 0, 10_000, &mut points).is_none());
    assert!(end_on_hit::<u32>(None, &p, &v, &seg, 9 * M, 900 * M, 0, 0, 10_000, &mut points).is_none());
    assert_eq!(points, vec![Vec3::zero(), p]);
    // the end of the segment still counts
    let edge = Some(RayHit { entity: 12u32, distance: 9 * M });
    let r = end_on_hit(edge, &p, &v, &seg, 9 * M, 900 * M, 0, 0, 10_000, &mut points).unwrap();
    assert_eq!(r.hit_point, Vec3::new(10 * M, 0, 0));
    assert_eq!(r.hit_entity, Some(12));
}
