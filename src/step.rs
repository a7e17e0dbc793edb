//! Executable pieces of one integration step.
use vstd::prelude::*;

use crate::arith::{abs, trunc_div};
use crate::model::{drag_component, drag_divisor, DRAG_SCALE};
use crate::vector::{div_toward_zero, ivec, vsum, IVec3, Vec3, UNIT};

verus! {

/// Largest mass accepted by the drag model, in milligrams.
pub const MASS_LIMIT: u64 = 100_000_000;

/// Largest absolute velocity component the kernels accept, micrometres per
/// second.
pub const SPEED_LIMIT: i64 = 10_000_000_000;

/// Largest `k * speed` the kernels accept (`k` twice the drag constant).
pub const DRAG_PRODUCT_LIMIT: u128 = 1_000_000_000_000_000_000_000_000_000_000_000_000;

/// `2 * mass * DRAG_SCALE`.
pub fn drag_divisor_of(mass: u64) -> (r: u128)
    requires
        1 <= mass <= MASS_LIMIT,
    ensures
        r as int == drag_divisor(mass as int),
        r > 0,
{
    2 * mass as u128 * DRAG_SCALE
}

/// One component of the drag acceleration for a velocity component `v`,
/// where `k_speed` is twice the drag constant times the speed.
///
/// `(k_speed * |v|) / divisor` is computed without forming the product: with
/// `k_speed = q * divisor + rem` it equals `q * |v| + (rem * |v|) / divisor`.
fn drag_component_of(k: Ghost<int>, speed: Ghost<int>, k_speed: u128, divisor: u128, mass: Ghost<int>, v: i64) -> (r: i64)
    requires
        k_speed as int == k@ * speed@,
        divisor as int == drag_divisor(mass@),
        1 <= mass@ <= MASS_LIMIT,
        k_speed <= DRAG_PRODUCT_LIMIT,
        k_speed <= UNIT as int * divisor,
        abs(v as int) <= SPEED_LIMIT,
    ensures
        r as int == drag_component(k@, speed@, mass@, v as int),
        abs(r as int) <= UNIT * abs(v as int),
{
    let w: u128 = if v >= 0 { v as u128 } else { (-(v as i128)) as u128 };
    let q = k_speed / divisor;
    let rem = k_speed % divisor;
    proof {
        vstd::arithmetic::div_mod::lemma_fundamental_div_mod(k_speed as int, divisor as int);
        crate::arith::lemma_div_bounds(k_speed as int, divisor as int);
    }
    assert(q <= 1_000_000_000_000_000_000u128) by (nonlinear_arith)
        requires
            divisor * q <= k_speed,
            k_speed <= DRAG_PRODUCT_LIMIT,
            divisor >= 2_000_000_000_000_000_000u128,
    ;
    assert(q * w <= 10_000_000_000_000_000_000_000_000_000u128) by (nonlinear_arith)
        requires
            q <= 1_000_000_000_000_000_000u128,
            w <= 10_000_000_000u128,
    ;
    assert(rem * w <= 2_000_000_000_000_000_000_000_000_000_000_000_000u128) by (nonlinear_arith)
        requires
            rem < divisor,
            divisor <= 200_000_000_000_000_000_000_000_000u128,
            w <= 10_000_000_000u128,
    ;
    let low = (rem * w) / divisor;
    let mag = q * w + low;
    proof {
        let x = k_speed as int * w as int;
        let lo = (rem * w) as int;
        vstd::arithmetic::div_mod::lemma_fundamental_div_mod(lo, divisor as int);
        vstd::arithmetic::div_mod::lemma_mod_bound(lo, divisor as int);
        assert(x == (q * w + lo / divisor as int) * divisor + lo % divisor as int) by (nonlinear_arith)
            requires
                x == k_speed as int * w as int,
                k_speed as int == divisor * q + rem,
                lo == rem * w,
                lo == divisor * (lo / divisor as int) + lo % divisor as int,
        ;
        vstd::arithmetic::div_mod::lemma_fundamental_div_mod_converse_div(
            x,
            divisor as int,
            q * w + lo / divisor as int,
            lo % divisor as int,
        );
        assert(mag as int == x / divisor as int);
        crate::arith::lemma_div_bounds(x, divisor as int);
        assert(mag <= UNIT as int * w) by (nonlinear_arith)
            requires
                divisor * mag <= x,
                x == k_speed as int * w as int,
                k_speed <= UNIT as int * divisor,
                divisor > 0,
        ;
        if v >= 0 {
            assert(k@ * speed@ * v as int == x);
        } else {
            assert(k@ * speed@ * v as int == -x) by (nonlinear_arith)
                requires
                    k@ * speed@ == k_speed as int,
                    w as int == -(v as int),
                    x == k_speed as int * w as int,
            ;
        }
    }
    if v >= 0 {
        -(mag as i64)
    } else {
        mag as i64
    }
}

/// Quadratic drag acceleration opposing `v`.
pub fn drag_acceleration_of(k: u128, speed: i64, mass: u64, v: &Vec3) -> (r: Vec3)
    requires
        speed as int == crate::vector::length(v@),
        0 <= speed <= SPEED_LIMIT,
        k <= crate::config::TWICE_DRAG_CONSTANT_LIMIT,
        1 <= mass <= MASS_LIMIT,
        k as int * speed as int <= UNIT as int * drag_divisor(mass as int),
        v.bounded_by(SPEED_LIMIT as int),
    ensures
        r@ == crate::model::drag_acceleration(k as int, mass as int, v@),
        abs(r.x as int) <= UNIT * abs(v.x as int),
        abs(r.y as int) <= UNIT * abs(v.y as int),
        abs(r.z as int) <= UNIT * abs(v.z as int),
{
    let divisor = drag_divisor_of(mass);
    assert(k * speed as u128 <= DRAG_PRODUCT_LIMIT) by (nonlinear_arith)
        requires
            k <= crate::config::TWICE_DRAG_CONSTANT_LIMIT,
            speed <= SPEED_LIMIT,
            speed >= 0,
    ;
    let k_speed = k * speed as u128;
    let gk = Ghost(k as int);
    let gs = Ghost(speed as int);
    let gm = Ghost(mass as int);
    Vec3 {
        x: drag_component_of(gk, gs, k_speed, divisor, gm, v.x),
        y: drag_component_of(gk, gs, k_speed, divisor, gm, v.y),
        z: drag_component_of(gk, gs, k_speed, divisor, gm, v.z),
    }
}

/// The point at distance `d` along a segment of length `len` from
/// `origin`, coordinate by coordinate rounded toward the origin.
pub open spec fn point_along(origin: IVec3, seg: IVec3, len: int, d: int) -> IVec3 {
    vsum(origin, ivec(trunc_div(seg.x * d, len), trunc_div(seg.y * d, len), trunc_div(seg.z * d, len)))
}

fn offset_along(s: i64, len: i64, d: i64) -> (r: i64)
    requires
        0 <= d <= len,
        len > 0,
        abs(s as int) <= 100_000_000_000_000,
    ensures
        r as int == trunc_div(s as int * d as int, len as int),
        abs(r as int) <= abs(s as int),
        s >= 0 ==> r >= 0,
        s <= 0 ==> r <= 0,
{
    assert(abs(s as int * d as int) <= 100_000_000_000_000 * i64::MAX) by (nonlinear_arith)
        requires
            abs(s as int) <= 100_000_000_000_000,
            0 <= d <= i64::MAX,
    ;
    let p = s as i128 * d as i128;
    proof {
        crate::bounds::lemma_hit_offset(s as int, d as int, len as int);
    }
    div_toward_zero(p, len as i128) as i64
}

} // verus!

verus! {

/// The point `d` micrometres along `seg` (of length `len`) from `origin`.
pub fn point_along_segment(origin: &Vec3, seg: &Vec3, len: i64, d: i64) -> (r: Vec3)
    requires
        0 <= d <= len,
        len > 0,
        seg.bounded_by(100_000_000_000_000),
        origin.bounded_by(1_000_000_000_000_000),
    ensures
        r@ == point_along(origin@, seg@, len as int, d as int),
        abs(r.x - origin.x) <= abs(seg.x as int),
        abs(r.y - origin.y) <= abs(seg.y as int),
        abs(r.z - origin.z) <= abs(seg.z as int),
{
    Vec3 {
        x: origin.x + offset_along(seg.x, len, d),
        y: origin.y + offset_along(seg.y, len, d),
        z: origin.z + offset_along(seg.z, len, d),
    }
}

/// `(d * dt) / speed`: the share of a step spent before a hit `d`
/// micrometres along it.
pub fn prorated_time(d: i64, dt: i64, speed: i64) -> (r: i64)
    requires
        0 <= d,
        1 <= dt <= 1_000_000_000,
        speed >= 1,
        UNIT * d < (speed + 1) * dt,
    ensures
        r as int == trunc_div(d * dt, speed as int),
        0 <= r <= 2_000_000_000_000,
{
    assert(d * dt <= 2_000_000_000_000 * speed) by (nonlinear_arith)
        requires
            UNIT * d < (speed + 1) * dt,
            1 <= dt <= 1_000_000_000,
            speed >= 1,
            d >= 0,
    {
        assert(UNIT * (d * dt) <= (speed + 1) * dt * dt);
        assert((speed + 1) * dt * dt <= 2 * speed * dt * dt);
        assert(dt * dt <= 1_000_000_000 * dt);
        assert(2 * speed * dt * dt <= 2 * speed * 1_000_000_000_000_000_000);
    }
    assert(0 <= d * dt) by (nonlinear_arith)
        requires
            d >= 0,
            dt >= 1,
    ;
    let p = d as i128 * dt as i128;
    let q = p / speed as i128;
    proof {
        crate::arith::lemma_div_bounds(p as int, speed as int);
        assert(q <= 2_000_000_000_000) by (nonlinear_arith)
            requires
                speed * q <= p,
                p <= 2_000_000_000_000 * speed,
                speed >= 1,
        ;
    }
    q as i64
}

} // verus!
