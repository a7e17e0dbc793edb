//! Three-component fixed-point vectors and their mathematical model.
use vstd::prelude::*;

use crate::arith::{abs, is_sqrt_floor, isqrt, sqrt_floor, trunc_div};

verus! {

/// Number of fixed-point units in one whole unit (one metre is a million
/// micrometres, one second a million microseconds).
pub const UNIT: i64 = 1_000_000;

/// A vector of three integers. Positions are in micrometres, velocities in
/// micrometres per second, accelerations in micrometres per second squared.
#[derive(Clone, Copy, Debug, PartialEq, Eq, Structural)]
pub struct Vec3 {
    pub x: i64,
    pub y: i64,
    pub z: i64,
}

/// The mathematical value of a [`Vec3`]: three unbounded integers.
pub struct IVec3 {
    pub x: int,
    pub y: int,
    pub z: int,
}

impl View for Vec3 {
    type V = IVec3;

    open spec fn view(&self) -> IVec3 {
        IVec3 { x: self.x as int, y: self.y as int, z: self.z as int }
    }
}

pub open spec fn ivec(x: int, y: int, z: int) -> IVec3 {
    IVec3 { x, y, z }
}

pub open spec fn vsum(a: IVec3, b: IVec3) -> IVec3 {
    ivec(a.x + b.x, a.y + b.y, a.z + b.z)
}

/// Sum of the absolute values of the components.
pub open spec fn l1(a: IVec3) -> int {
    abs(a.x) + abs(a.y) + abs(a.z)
}

/// Squared Euclidean length.
pub open spec fn norm_sq(a: IVec3) -> int {
    a.x * a.x + a.y * a.y + a.z * a.z
}

/// Euclidean length, rounded down.
pub open spec fn length(a: IVec3) -> int {
    sqrt_floor(norm_sq(a))
}

/// Each component multiplied by a duration in microseconds and brought back
/// to whole seconds, rounded toward zero: a rate turned into its change over
/// the duration.
pub open spec fn over_duration(a: IVec3, dt: int) -> IVec3 {
    ivec(
        trunc_div(a.x * dt, UNIT as int),
        trunc_div(a.y * dt, UNIT as int),
        trunc_div(a.z * dt, UNIT as int),
    )
}

/// Largest absolute component for which [`Vec3::length`] is defined.
pub const LENGTH_COMPONENT_LIMIT: i64 = 100_000_000_000_000;

impl Vec3 {
    pub open spec fn bounded_by(&self, m: int) -> bool {
        abs(self.x as int) <= m && abs(self.y as int) <= m && abs(self.z as int) <= m
    }

    pub fn new(x: i64, y: i64, z: i64) -> (r: Vec3)
        ensures
            r@ == ivec(x as int, y as int, z as int),
    {
        Vec3 { x, y, z }
    }

    pub fn zero() -> (r: Vec3)
        ensures
            r@ == ivec(0, 0, 0),
    {
        Vec3 { x: 0, y: 0, z: 0 }
    }

    /// Euclidean length, rounded down.
    pub fn length(&self) -> (r: i64)
        requires
            self.bounded_by(LENGTH_COMPONENT_LIMIT as int),
        ensures
            r as int == length(self@),
            is_sqrt_floor(norm_sq(self@), r as int),
    {
        let x = self.x as i128;
        let y = self.y as i128;
        let z = self.z as i128;
        assert(x * x <= 10_000_000_000_000_000_000_000_000_000i128) by (nonlinear_arith)
            requires
                -100_000_000_000_000i128 <= x <= 100_000_000_000_000i128,
        ;
        assert(y * y <= 10_000_000_000_000_000_000_000_000_000i128) by (nonlinear_arith)
            requires
                -100_000_000_000_000i128 <= y <= 100_000_000_000_000i128,
        ;
        assert(z * z <= 10_000_000_000_000_000_000_000_000_000i128) by (nonlinear_arith)
            requires
                -100_000_000_000_000i128 <= z <= 100_000_000_000_000i128,
        ;
        assert(0 <= x * x && 0 <= y * y && 0 <= z * z) by (nonlinear_arith);
        let n = (x * x + y * y + z * z) as u128;
        let r = isqrt(n);
        assert(r * r <= n) by (nonlinear_arith)
            requires
                is_sqrt_floor(n as int, r as int),
        ;
        assert(r <= 0x7fff_ffff_ffff_ffffu64) by (nonlinear_arith)
            requires
                r * r <= n,
                n <= 30_000_000_000_000_000_000_000_000_000u128,
        ;
        r as i64
    }
}

} // verus!

verus! {

/// Largest absolute product of a component and a duration that
/// [`Vec3::over_duration`] accepts.
pub const RATE_TIMES_DURATION_LIMIT: u128 = 100_000_000_000_000_000_000;

impl Vec3 {
    pub open spec fn sum_fits(&self, other: &Vec3) -> bool {
        &&& i64::MIN <= self.x + other.x <= i64::MAX
        &&& i64::MIN <= self.y + other.y <= i64::MAX
        &&& i64::MIN <= self.z + other.z <= i64::MAX
    }

    /// Component-wise sum.
    pub fn plus(&self, other: &Vec3) -> (r: Vec3)
        requires
            self.sum_fits(other),
        ensures
            r@ == vsum(self@, other@),
    {
        Vec3 { x: self.x + other.x, y: self.y + other.y, z: self.z + other.z }
    }

    pub open spec fn over_duration_fits(&self, dt: int) -> bool {
        &&& abs(self.x as int) * dt <= RATE_TIMES_DURATION_LIMIT
        &&& abs(self.y as int) * dt <= RATE_TIMES_DURATION_LIMIT
        &&& abs(self.z as int) * dt <= RATE_TIMES_DURATION_LIMIT
    }

    /// The change over `dt` microseconds of quantities changing at this
    /// rate per second, rounded toward zero.
    pub fn over_duration(&self, dt: i64) -> (r: Vec3)
        requires
            1 <= dt,
            self.over_duration_fits(dt as int),
        ensures
            r@ == over_duration(self@, dt as int),
    {
        Vec3 {
            x: scale_component(self.x, dt),
            y: scale_component(self.y, dt),
            z: scale_component(self.z, dt),
        }
    }
}

/// `a / d` rounded toward zero.
pub fn div_toward_zero(a: i128, d: i128) -> (r: i128)
    requires
        d > 0,
        a > i128::MIN,
    ensures
        r as int == trunc_div(a as int, d as int),
{
    if a >= 0 {
        a / d
    } else {
        proof {
            crate::arith::lemma_div_bounds(-a as int, d as int);
        }
        -((-a) / d)
    }
}

fn scale_component(v: i64, dt: i64) -> (r: i64)
    requires
        1 <= dt,
        abs(v as int) * dt <= RATE_TIMES_DURATION_LIMIT,
    ensures
        r as int == trunc_div(v as int * dt as int, UNIT as int),
{
    assert(abs(v as int * dt as int) <= RATE_TIMES_DURATION_LIMIT) by (nonlinear_arith)
        requires
            abs(v as int) * dt <= RATE_TIMES_DURATION_LIMIT,
            dt >= 1,
    ;
    let p = v as i128 * dt as i128;
    assert(abs(p as int) == abs(v as int) * dt) by (nonlinear_arith)
        requires
            p == v as int * dt as int,
            dt >= 1,
    ;
    let r = div_toward_zero(p, UNIT as i128);
    proof {
        crate::arith::lemma_trunc_div_bounds(p as int, UNIT as int);
    }
    r as i64
}

} // verus!
