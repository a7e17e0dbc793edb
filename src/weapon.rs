//! The weapons a player can carry and the ballistics each one fires.
use vstd::prelude::*;

use crate::config::BulletPhysicsConfig;

verus! {

#[derive(Clone, Copy, Debug, PartialEq, Eq, Structural)]
pub enum WeaponType {
    Glock,
    FNF2000,
}

impl Default for WeaponType {
    fn default() -> (r: Self)
        ensures
            r == WeaponType::Glock,
    {
        WeaponType::Glock
    }
}

/// The physics of a weapon's round.
pub open spec fn ballistics_of(w: WeaponType) -> BulletPhysicsConfig {
    match w {
        WeaponType::Glock => BulletPhysicsConfig::standard_with(295, 63_600_000),
        WeaponType::FNF2000 => BulletPhysicsConfig::standard_with(275, 24_300_000),
    }
}

/// A weapon's muzzle speed, micrometres per second.
pub open spec fn muzzle_speed_of(w: WeaponType) -> i64 {
    match w {
        WeaponType::Glock => 375_000_000,
        WeaponType::FNF2000 => 900_000_000,
    }
}

impl WeaponType {
    /// Display name.
    pub fn name(&self) -> (r: &'static str)
        ensures
            *self == WeaponType::Glock ==> r@ == "Glock"@,
            *self == WeaponType::FNF2000 ==> r@ == "FN F2000"@,
    {
        match self {
            WeaponType::Glock => "Glock",
            WeaponType::FNF2000 => "FN F2000",
        }
    }

    /// Path of the weapon's model asset.
    pub fn model(&self) -> (r: &'static str)
        ensures
            *self == WeaponType::Glock ==> r@ == "models/glock.glb#Scene0"@,
            *self == WeaponType::FNF2000 ==> r@ == "models/fnf2000.glb#Scene0"@,
    {
        match self {
            WeaponType::Glock => "models/glock.glb#Scene0",
            WeaponType::FNF2000 => "models/fnf2000.glb#Scene0",
        }
    }

    /// The physics of the weapon's round: 9mm for the Glock, 5.56 NATO for
    /// the F2000.
    pub fn ballistics(&self) -> (r: BulletPhysicsConfig)
        ensures
            *self == WeaponType::Glock ==> r == BulletPhysicsConfig::standard_with(295, 63_600_000),
            *self == WeaponType::FNF2000 ==> r == BulletPhysicsConfig::standard_with(275, 24_300_000),
            r.is_valid(),
            r == ballistics_of(*self),
    {
        match self {
            WeaponType::Glock => BulletPhysicsConfig::caliber_9mm(),
            WeaponType::FNF2000 => BulletPhysicsConfig::caliber_556(),
        }
    }

    /// Muzzle speed, micrometres per second: 375 m/s and 900 m/s.
    pub fn muzzle_velocity(&self) -> (r: i64)
        ensures
            *self == WeaponType::Glock ==> r == 375_000_000,
            *self == WeaponType::FNF2000 ==> r == 900_000_000,
            r == muzzle_speed_of(*self),
    {
        match self {
            WeaponType::Glock => 375_000_000,
            WeaponType::FNF2000 => 900_000_000,
        }
    }
}

} // verus!
