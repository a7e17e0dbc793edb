//! Size bounds on one step of the model, which keep the executable
//! fixed-point arithmetic within its integer types.
use vstd::prelude::*;

use crate::arith::{abs, is_sqrt_floor, lemma_trunc_div_bounds, trunc_div};
use crate::model::{drag_component, drag_divisor};
use crate::vector::{l1, norm_sq, over_duration, IVec3, UNIT};

verus! {

/// A rate over `dt` microseconds keeps its sign and is at most `|v| * dt`
/// millionths.
pub proof fn lemma_over_duration_bound(v: int, dt: int)
    requires
        dt >= 1,
    ensures
        UNIT * abs(trunc_div(v * dt, UNIT as int)) <= abs(v) * dt,
        v >= 0 ==> trunc_div(v * dt, UNIT as int) >= 0,
        v <= 0 ==> trunc_div(v * dt, UNIT as int) <= 0,
{
    lemma_trunc_div_bounds(v * dt, UNIT as int);
    if v >= 0 {
        assert(v * dt >= 0) by (nonlinear_arith)
            requires
                v >= 0,
                dt >= 1,
        ;
    } else {
        assert(v * dt <= 0 && abs(v * dt) == abs(v) * dt) by (nonlinear_arith)
            requires
                v < 0,
                dt >= 1,
        ;
    }
    if v >= 0 {
        assert(abs(v * dt) == abs(v) * dt);
    }
}

/// Under the stability condition `k * speed * dt <= UNIT * divisor`, drag
/// opposes the velocity and removes at most all of it in one step, so one
/// step grows the velocity component by at most gravity's share.
pub proof fn lemma_drag_velocity_bound(k: int, speed: int, mass: int, v: int, g: int, dt: int)
    requires
        k >= 0,
        speed >= 0,
        mass >= 1,
        dt >= 1,
        k * speed * dt <= UNIT * drag_divisor(mass),
    ensures
        abs(drag_component(k, speed, mass, v)) * dt <= UNIT * abs(v),
        v >= 0 ==> drag_component(k, speed, mass, v) <= 0,
        v <= 0 ==> drag_component(k, speed, mass, v) >= 0,
        UNIT * abs(v + trunc_div((g + drag_component(k, speed, mass, v)) * dt, UNIT as int))
            <= UNIT * abs(v) + abs(g) * dt,
{
    let dv = drag_divisor(mass);
    let p = k * speed * v;
    let d = drag_component(k, speed, mass, v);
    let u = UNIT as int;
    assert(dv > 0);
    lemma_trunc_div_bounds(p, dv);
    let q = abs(d);
    if v >= 0 {
        assert(p >= 0) by (nonlinear_arith)
            requires
                p == k * speed * v,
                k >= 0,
                speed >= 0,
                v >= 0,
        ;
        assert(dv * q <= p);
    } else {
        assert(p <= 0 && -p == k * speed * (-v)) by (nonlinear_arith)
            requires
                p == k * speed * v,
                k >= 0,
                speed >= 0,
                v < 0,
        ;
        assert(dv * q <= -p);
    }
    let w = abs(v);
    assert(dv * q <= k * speed * w);
    assert(q * dt <= u * w) by (nonlinear_arith)
        requires
            dv > 0,
            q >= 0,
            w >= 0,
            dt >= 1,
            dv * q <= k * speed * w,
            k * speed * dt <= u * dv,
            k >= 0,
            speed >= 0,
    {
        assert(dv * q * dt <= k * speed * w * dt);
        assert(k * speed * w * dt == (k * speed * dt) * w);
        assert((k * speed * dt) * w <= (u * dv) * w);
        assert(dv * (q * dt) <= dv * (u * w));
    }
    let a = (g + d) * dt;
    assert(a == g * dt + d * dt) by (nonlinear_arith)
        requires
            a == (g + d) * dt,
    ;
    lemma_trunc_div_bounds(a, u);
    let t = trunc_div(a, u);
    assert(abs(d) * dt == abs(d * dt)) by (nonlinear_arith)
        requires
            dt >= 1,
    ;
    assert(abs(g) * dt == abs(g * dt)) by (nonlinear_arith)
        requires
            dt >= 1,
    ;
    if v >= 0 {
        assert(d <= 0);
        assert(d * dt <= 0) by (nonlinear_arith)
            requires
                d <= 0,
                dt >= 1,
        ;
    } else {
        assert(d >= 0);
        assert(d * dt >= 0) by (nonlinear_arith)
            requires
                d >= 0,
                dt >= 1,
        ;
    }
}

/// The rounded-down length of a vector is at most the sum of its absolute
/// components.
pub proof fn lemma_length_le_l1(v: IVec3, s: int)
    requires
        is_sqrt_floor(norm_sq(v), s),
    ensures
        s <= l1(v),
{
    let a = abs(v.x);
    let b = abs(v.y);
    let c = abs(v.z);
    assert(v.x * v.x == a * a && v.y * v.y == b * b && v.z * v.z == c * c) by (nonlinear_arith)
        requires
            a == abs(v.x),
            b == abs(v.y),
            c == abs(v.z),
    ;
    let l = a + b + c;
    assert(a * a + b * b + c * c <= l * l) by (nonlinear_arith)
        requires
            a >= 0,
            b >= 0,
            c >= 0,
            l == a + b + c,
    ;
    assert(s <= l) by (nonlinear_arith)
        requires
            s >= 0,
            l >= 0,
            s * s <= l * l,
    ;
}

proof fn lemma_square_scaled(sc: int, v: int, dt: int)
    requires
        UNIT * abs(sc) <= abs(v) * dt,
        dt >= 1,
    ensures
        (UNIT * sc) * (UNIT * sc) <= (v * dt) * (v * dt),
{
    let x = UNIT * abs(sc);
    let y = abs(v) * dt;
    assert(x * x <= y * y) by (nonlinear_arith)
        requires
            0 <= x <= y,
    ;
    assert((UNIT * sc) * (UNIT * sc) == x * x) by (nonlinear_arith)
        requires
            x == UNIT * abs(sc),
    ;
    assert((v * dt) * (v * dt) == y * y) by (nonlinear_arith)
        requires
            y == abs(v) * dt,
            dt >= 1,
    ;
}

/// A step's segment is no longer than the speed allows: a positive
/// segment length `len` comes from a speed of at least one, and
/// `UNIT * len < (speed + 1) * dt`.
pub proof fn lemma_segment_vs_speed(v: IVec3, dt: int, speed: int, len: int)
    requires
        dt >= 1,
        is_sqrt_floor(norm_sq(v), speed),
        is_sqrt_floor(norm_sq(over_duration(v, dt)), len),
        len > 0,
    ensures
        speed >= 1,
        UNIT * len < (speed + 1) * dt,
{
    let seg = over_duration(v, dt);
    let u = UNIT as int;
    lemma_over_duration_bound(v.x, dt);
    lemma_over_duration_bound(v.y, dt);
    lemma_over_duration_bound(v.z, dt);
    lemma_square_scaled(seg.x, v.x, dt);
    lemma_square_scaled(seg.y, v.y, dt);
    lemma_square_scaled(seg.z, v.z, dt);
    let ns = norm_sq(seg);
    let nv = norm_sq(v);
    assert(u * u * ns == (u * seg.x) * (u * seg.x) + (u * seg.y) * (u * seg.y) + (u * seg.z) * (
    u * seg.z)) by (nonlinear_arith)
        requires
            ns == seg.x * seg.x + seg.y * seg.y + seg.z * seg.z,
    ;
    assert(dt * dt * nv == (v.x * dt) * (v.x * dt) + (v.y * dt) * (v.y * dt) + (v.z * dt) * (v.z
        * dt)) by (nonlinear_arith)
        requires
            nv == v.x * v.x + v.y * v.y + v.z * v.z,
    ;
    assert(u * u * ns <= dt * dt * nv);
    assert(u * len < (speed + 1) * dt) by (nonlinear_arith)
        requires
            u * u * ns <= dt * dt * nv,
            len * len <= ns,
            nv < (speed + 1) * (speed + 1),
            len > 0,
            speed >= 0,
            dt >= 1,
            u > 0,
    {
        let x = u * len;
        let y = (speed + 1) * dt;
        assert(x * x == u * u * (len * len));
        assert(u * u * (len * len) <= u * u * ns);
        assert(dt * dt * nv < dt * dt * ((speed + 1) * (speed + 1)));
        assert(y * y == dt * dt * ((speed + 1) * (speed + 1)));
        assert(x * x < y * y);
        if x >= y {
            assert(x * x >= y * y);
        }
    }
    if speed == 0 {
        assert((speed + 1) * (speed + 1) == 1) by (nonlinear_arith)
            requires
                speed == 0,
        ;
        assert(u * len >= u);
        assert(u * len < dt);
        assert(nv < 1);
        assert(ns >= 1) by (nonlinear_arith)
            requires
                len * len <= ns,
                len >= 1,
        ;
        assert(u * u * ns <= dt * dt * nv);
        assert(false) by (nonlinear_arith)
            requires
                u * u * ns <= dt * dt * nv,
                ns >= 1,
                nv < 1,
                nv >= 0,
                u > 0,
        ;
    }
}

/// The point `d` along a segment of length `len` stays within the segment,
/// coordinate by coordinate.
pub proof fn lemma_hit_offset(seg: int, d: int, len: int)
    requires
        0 <= d <= len,
        len > 0,
    ensures
        abs(trunc_div(seg * d, len)) <= abs(seg),
        seg >= 0 ==> trunc_div(seg * d, len) >= 0,
        seg <= 0 ==> trunc_div(seg * d, len) <= 0,
{
    lemma_trunc_div_bounds(seg * d, len);
    let h = trunc_div(seg * d, len);
    assert(abs(seg * d) <= abs(seg) * len && (seg >= 0 ==> seg * d >= 0) && (seg <= 0 ==> seg * d
        <= 0)) by (nonlinear_arith)
        requires
            0 <= d <= len,
    ;
    assert(abs(h) <= abs(seg)) by (nonlinear_arith)
        requires
            len * abs(h) <= abs(seg) * len,
            len > 0,
    ;
}

} // verus!
