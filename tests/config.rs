use bullet_trajectory::arith::isqrt;
use bullet_trajectory::config::BulletPhysicsConfig;
use bullet_trajectory::vector::Vec3;

#[test]
fn default_config_is_the_standard_one() {
    let c = BulletPhysicsConfig::default();
    assert_eq!(c.gravity, Vec3::new(0, -9_810_000, 0));
    assert_eq!(c.drag_coefficient, 470);
    assert_eq!(c.cross_section_area, 20_000_000);
    assert_eq!(c.air_density, 1225);
    assert_eq!(c.max_time, 30_000_000);
    assert_eq!(c.time_step, 1_000);
    assert_eq!(c.max_distance, 10_000_000_000);
}

#[test]
fn caliber_presets_change_only_drag() {
    let d = BulletPhysicsConfig::default();
    let cases = [
        (BulletPhysicsConfig::caliber_9mm(), 295, 63_600_000),
        (BulletPhysicsConfig::caliber_556(), 275, 24_300_000),
        (BulletPhysicsConfig::caliber_762(), 290, 45_600_000),
        (BulletPhysicsConfig::caliber_50bmg(), 320, 126_700_000),
    ];
    for (c, cd, area) in cases {
        assert_eq!(c.drag_coefficient, cd);
        assert_eq!(c.cross_section_area, area);
        assert_eq!(BulletPhysicsConfig { drag_coefficient: d.drag_coefficient, cross_section_area: d.cross_section_area, ..c }, d);
    }
}

#[test]
fn twice_drag_constant_is_the_product_of_density_coefficient_and_area() {
    assert_eq!(BulletPhysicsConfig::default().twice_drag_constant(), 1225 * 470 * 20_000_000);
    assert_eq!(BulletPhysicsConfig::caliber_9mm().twice_drag_constant(), 1225 * 295 * 63_600_000);
}

#[test]
fn integer_square_root_rounds_down() {
    assert_eq!(isqrt(0), 0);
    assert_eq!(isqrt(1), 1);
    assert_eq!(isqrt(15), 3);
    assert_eq!(isqrt(16), 4);
    assert_eq!(isqrt(1_000_000_000_000), 1_000_000);
    assert_eq!(isqrt(999_999_999_999), 999_999);
}

#[test]
fn vector_length_and_steps() {
    assert_eq!(Vec3::new(3, 4, 0).length(), 5);
    assert_eq!(Vec3::new(-3, 0, -4).length(), 5);
    assert_eq!(Vec3::new(1, 1, 1).length(), 1);
    // 900 m/s over 1 ms is 0.9 m; -1 um/s over 1 ms rounds toward zero
    assert_eq!(Vec3::new(900_000_000, -1, -1_500).over_duration(1_000), Vec3::new(900_000, 0, -1));
    assert_eq!(Vec3::new(1, 2, 3).plus(&Vec3::new(-1, 1, 0)), Vec3::new(0, 3, 3));
}
