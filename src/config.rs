//! Physical parameters of a simulation run and the presets per caliber.
use vstd::prelude::*;

use crate::vector::Vec3;

verus! {

/// Standard gravity, in micrometres per second squared, pointing down.
pub const STANDARD_GRAVITY_Y: i64 = -9_810_000;

/// Largest `max_time` a configuration may have, in microseconds.
pub const MAX_TIME_LIMIT: i64 = 1_000_000_000;

/// Largest `max_distance` a configuration may have, in micrometres.
pub const MAX_DISTANCE_LIMIT: i64 = 1_000_000_000_000_000;

/// Largest air density, in grams per cubic metre.
pub const AIR_DENSITY_LIMIT: u64 = 10_000_000;

/// Largest drag coefficient, in thousandths.
pub const DRAG_COEFFICIENT_LIMIT: u64 = 10_000_000;

/// Largest cross-section area, in square micrometres.
pub const CROSS_SECTION_LIMIT: u64 = 1_000_000_000_000;

/// Largest value of [`twice_drag_constant`] for a valid configuration.
pub const TWICE_DRAG_CONSTANT_LIMIT: u128 = 100_000_000_000_000_000_000_000_000;

/// Parameters of the drag model.
///
/// Units: gravity in micrometres per second squared; drag coefficient in
/// thousandths; cross-section area in square micrometres; air density in
/// grams per cubic metre; times in microseconds; distances in micrometres.
#[derive(Clone, Copy, Debug, PartialEq, Eq, Structural)]
pub struct BulletPhysicsConfig {
    pub gravity: Vec3,
    pub drag_coefficient: u64,
    pub cross_section_area: u64,
    pub air_density: u64,
    pub max_time: i64,
    pub time_step: i64,
    pub max_distance: i64,
}

/// `air_density * drag_coefficient * cross_section_area`: twice the drag
/// constant `0.5 * rho * Cd * A`, in units of 1e-18 kg/m.
pub open spec fn twice_drag_constant(c: BulletPhysicsConfig) -> int {
    c.air_density as int * c.drag_coefficient as int * c.cross_section_area as int
}

impl BulletPhysicsConfig {
    /// The configuration holds values the fixed-point model can carry: a
    /// positive step no longer than the time budget, a positive distance
    /// budget, and material constants within their limits.
    pub open spec fn is_valid(&self) -> bool {
        &&& 1 <= self.time_step <= self.max_time <= MAX_TIME_LIMIT
        &&& 1 <= self.max_distance <= MAX_DISTANCE_LIMIT
        &&& self.air_density <= AIR_DENSITY_LIMIT
        &&& self.drag_coefficient <= DRAG_COEFFICIENT_LIMIT
        &&& self.cross_section_area <= CROSS_SECTION_LIMIT
    }

    /// The standard configuration: see `default`.
    pub open spec fn standard() -> Self {
        Self::standard_with(470, 20_000_000)
    }

    /// The configuration a run uses when given `config`.
    pub open spec fn or_standard(config: Option<Self>) -> Self {
        match config {
            Some(c) => c,
            None => Self::standard(),
        }
    }

    /// The standard configuration with another drag coefficient and area.
    pub open spec fn standard_with(drag_coefficient: u64, cross_section_area: u64) -> Self {
        BulletPhysicsConfig {
            gravity: Vec3 { x: 0, y: STANDARD_GRAVITY_Y, z: 0 },
            drag_coefficient,
            cross_section_area,
            air_density: 1225,
            max_time: 30_000_000,
            time_step: 1_000,
            max_distance: 10_000_000_000,
        }
    }

    fn with_drag(drag_coefficient: u64, cross_section_area: u64) -> (r: Self)
        ensures
            r == Self::standard_with(drag_coefficient, cross_section_area),
    {
        BulletPhysicsConfig {
            cross_section_area,
            drag_coefficient,
            ..Self::default()
        }
    }

    /// 9mm Parabellum: drag coefficient 0.295, 9 mm diameter.
    pub fn caliber_9mm() -> (r: Self)
        ensures
            r == Self::standard_with(295, 63_600_000),
            r.is_valid(),
    {
        Self::with_drag(295, 63_600_000)
    }

    /// 5.56x45mm NATO: drag coefficient 0.275, 5.56 mm diameter.
    pub fn caliber_556() -> (r: Self)
        ensures
            r == Self::standard_with(275, 24_300_000),
            r.is_valid(),
    {
        Self::with_drag(275, 24_300_000)
    }

    /// 7.62x51mm NATO: drag coefficient 0.290, 7.62 mm diameter.
    pub fn caliber_762() -> (r: Self)
        ensures
            r == Self::standard_with(290, 45_600_000),
            r.is_valid(),
    {
        Self::with_drag(290, 45_600_000)
    }

    /// .50 BMG: drag coefficient 0.320, 12.7 mm diameter.
    pub fn caliber_50bmg() -> (r: Self)
        ensures
            r == Self::standard_with(320, 126_700_000),
            r.is_valid(),
    {
        Self::with_drag(320, 126_700_000)
    }

    /// `air_density * drag_coefficient * cross_section_area`.
    pub fn twice_drag_constant(&self) -> (r: u128)
        requires
            self.is_valid(),
        ensures
            r as int == twice_drag_constant(*self),
            r <= TWICE_DRAG_CONSTANT_LIMIT,
    {
        let ad = self.air_density as u128;
        let cd = self.drag_coefficient as u128;
        let ar = self.cross_section_area as u128;
        assert(ad * cd <= 100_000_000_000_000u128) by (nonlinear_arith)
            requires
                ad <= 10_000_000,
                cd <= 10_000_000,
        ;
        assert(ad * cd * ar <= 100_000_000_000_000_000_000_000_000u128) by (nonlinear_arith)
            requires
                ad * cd <= 100_000_000_000_000,
                ar <= 1_000_000_000_000,
        ;
        ad * cd * ar
    }
}

impl Default for BulletPhysicsConfig {
    /// Gravity 9.81 m/s² downward, drag coefficient 0.47, area 20 mm², air
    /// density 1.225 kg/m³, 30 s, 1 ms steps, 10 km.
    fn default() -> (r: Self)
        ensures
            r == Self::standard(),
            r.is_valid(),
    {
        BulletPhysicsConfig {
            gravity: Vec3 { x: 0, y: STANDARD_GRAVITY_Y, z: 0 },
            drag_coefficient: 470,
            cross_section_area: 20_000_000,
            air_density: 1225,
            max_time: 30_000_000,
            time_step: 1_000,
            max_distance: 10_000_000_000,
        }
    }
}

} // verus!
