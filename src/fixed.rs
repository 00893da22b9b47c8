//! Fixed-point arithmetic shared by the presets and the simulation kernels.

use vstd::prelude::*;

verus! {

/// One whole unit: a stored value `v` stands for the real number `v / UNIT`.
pub const UNIT: i64 = 1_000_000;

/// Linear interpolation from `a` toward `b` by the fraction `t / UNIT`.
/// The distance covered, `|b - a| * t / UNIT`, is rounded down, so the result never
/// passes `b` and lies on `a`'s side of any rounding.
pub open spec fn lerp_value(a: int, b: int, t: int) -> int {
    if a <= b {
        a + (b - a) * t / (UNIT as int)
    } else {
        a - (a - b) * t / (UNIT as int)
    }
}

/// Interpolation of an ordinal: the real value `a + (b - a) * t / UNIT`, rounded to the
/// nearest integer with halves rounded up (both ordinals are non-negative).
pub open spec fn lerp_ordinal(a: int, b: int, t: int) -> int {
    (a * UNIT + (b - a) * t + UNIT / 2) / (UNIT as int)
}

/// `n / d` rounded toward zero, for `d > 0`.
pub open spec fn div_toward_zero(n: int, d: int) -> int {
    if n >= 0 {
        n / d
    } else {
        -((-n) / d)
    }
}

/// `v * g / UNIT` rounded toward zero: `v` scaled by the fixed-point factor `g`.
pub open spec fn scale_value(v: int, g: int) -> int {
    div_toward_zero(v * g, UNIT as int)
}

/// Executable form of [`scale_value`]; with `0 <= g <= 2 * UNIT` the magnitude at most
/// doubles.
pub fn scale_fixed(v: i64, g: i64) -> (r: i64)
    requires
        -0x4_0000_0000_0000 <= v <= 0x4_0000_0000_0000,
        0 <= g <= 2 * UNIT,
    ensures
        r == scale_value(v as int, g as int),
        v >= 0 ==> 0 <= r <= 2 * v,
        v < 0 ==> 2 * v <= r <= 0,
        v >= 0 && g <= UNIT ==> r <= v,
{
    assert(-0x4_0000_0000_0000 * (2 * UNIT) <= v * g <= 0x4_0000_0000_0000 * (2 * UNIT))
        by (nonlinear_arith)
        requires
            -0x4_0000_0000_0000 <= v <= 0x4_0000_0000_0000,
            0 <= g <= 2 * UNIT,
    ;
    let p: i128 = v as i128 * g as i128;
    if v >= 0 {
        assert(0 <= p <= (2 * v) * UNIT) by (nonlinear_arith)
            requires
                p == v * g,
                0 <= v,
                0 <= g <= 2 * UNIT,
        ;
        proof {
            if g <= UNIT {
                assert(p <= v * UNIT) by (nonlinear_arith)
                    requires
                        p == v * g,
                        0 <= v,
                        g <= UNIT,
                ;
                vstd::arithmetic::div_mod::lemma_div_is_ordered(p as int, v * UNIT, UNIT as int);
                vstd::arithmetic::div_mod::lemma_div_by_multiple(v as int, UNIT as int);
            }
        }
        proof {
            vstd::arithmetic::div_mod::lemma_div_is_ordered(p as int, (2 * v) * UNIT, UNIT as int);
            vstd::arithmetic::div_mod::lemma_div_by_multiple(2 * v, UNIT as int);
            vstd::arithmetic::div_mod::lemma_div_is_ordered(0, p as int, UNIT as int);
        }
        (p / (UNIT as i128)) as i64
    } else {
        assert(0 <= -p <= (-2 * v) * UNIT) by (nonlinear_arith)
            requires
                p == v * g,
                v < 0,
                0 <= g <= 2 * UNIT,
        ;
        proof {
            vstd::arithmetic::div_mod::lemma_div_is_ordered(-p, (-2 * v) * UNIT, UNIT as int);
            vstd::arithmetic::div_mod::lemma_div_by_multiple(-2 * v, UNIT as int);
            vstd::arithmetic::div_mod::lemma_div_is_ordered(0, -p, UNIT as int);
        }
        (-((-p) / (UNIT as i128))) as i64
    }
}

/// `x` limited to the closed range `[lo, hi]`.
pub open spec fn clamp_value(x: int, lo: int, hi: int) -> int {
    if x < lo {
        lo
    } else if x > hi {
        hi
    } else {
        x
    }
}

/// The part `d * t / UNIT` of a distance `d` stays within `[0, d]`, and is all of it at
/// `t == UNIT`.
pub proof fn lemma_scaled_part(d: int, t: int)
    requires
        0 <= d,
        0 <= t <= UNIT,
    ensures
        0 <= d * t / (UNIT as int) <= d,
        t == 0 ==> d * t / (UNIT as int) == 0,
        t == UNIT ==> d * t / (UNIT as int) == d,
{
    assert(0 <= d * t <= d * UNIT) by (nonlinear_arith)
        requires
            0 <= d,
            0 <= t <= UNIT,
    ;
    assert(d * UNIT / (UNIT as int) == d) by (nonlinear_arith);
    vstd::arithmetic::div_mod::lemma_div_is_ordered(d * t, d * UNIT, UNIT as int);
    vstd::arithmetic::div_mod::lemma_div_is_ordered(0, d * t, UNIT as int);
}

/// The interpolated value lies between the two end points and meets them at `t == 0`
/// and `t == UNIT`.
pub proof fn lemma_lerp_value_bounds(a: int, b: int, t: int)
    requires
        0 <= t <= UNIT,
    ensures
        a <= b ==> a <= lerp_value(a, b, t) <= b,
        b <= a ==> b <= lerp_value(a, b, t) <= a,
        t == 0 ==> lerp_value(a, b, t) == a,
        t == UNIT ==> lerp_value(a, b, t) == b,
{
    if a <= b {
        lemma_scaled_part(b - a, t);
    } else {
        lemma_scaled_part(a - b, t);
    }
}

/// The rounded ordinal lies between the two end points and meets them at `t == 0` and
/// `t == UNIT`.
pub proof fn lemma_lerp_ordinal_bounds(a: int, b: int, t: int)
    requires
        0 <= a,
        0 <= b,
        0 <= t <= UNIT,
    ensures
        a <= b ==> a <= lerp_ordinal(a, b, t) <= b,
        b <= a ==> b <= lerp_ordinal(a, b, t) <= a,
        t == 0 ==> lerp_ordinal(a, b, t) == a,
        t == UNIT ==> lerp_ordinal(a, b, t) == b,
{
    let u = UNIT as int;
    let v = a * u + (b - a) * t + u / 2;
    if a <= b {
        lemma_scaled_part(b - a, t);
        assert(a * u <= a * u + (b - a) * t <= b * u) by (nonlinear_arith)
            requires
                a <= b,
                0 <= t <= u,
        ;
    } else {
        assert(b * u <= a * u + (b - a) * t <= a * u) by (nonlinear_arith)
            requires
                b <= a,
                0 <= t <= u,
        ;
    }
    let lo = if a <= b { a } else { b };
    let hi = if a <= b { b } else { a };
    assert(lo * u <= v < hi * u + u);
    assert(lo <= v / u < hi + 1) by (nonlinear_arith)
        requires
            lo * u <= v < hi * u + u,
            u == UNIT,
    ;
    if t == 0 {
        assert(v == a * u + u / 2) by (nonlinear_arith)
            requires
                v == a * u + (b - a) * t + u / 2,
                t == 0,
        ;
        assert((a * u + u / 2) / u == a) by (nonlinear_arith)
            requires
                u == UNIT,
        ;
    }
    if t == UNIT {
        assert(v == b * u + u / 2) by (nonlinear_arith)
            requires
                v == a * u + (b - a) * t + u / 2,
                t == u,
        ;
        assert((b * u + u / 2) / u == b) by (nonlinear_arith)
            requires
                u == UNIT,
        ;
    }
}

/// Executable form of [`lerp_value`] on stored values.
pub fn lerp_fixed(a: i64, b: i64, t: i64) -> (r: i64)
    requires
        0 <= t <= UNIT,
    ensures
        r == lerp_value(a as int, b as int, t as int),
{
    proof {
        lemma_lerp_value_bounds(a as int, b as int, t as int);
    }
    if a <= b {
        let d: i128 = b as i128 - a as i128;
        assert(0 <= d * t <= d * UNIT) by (nonlinear_arith)
            requires
                0 <= d,
                0 <= t <= UNIT,
        ;
        assert(d * UNIT <= 0x1_0000_0000_0000_0000 * UNIT) by (nonlinear_arith)
            requires
                d <= 0x1_0000_0000_0000_0000,
        ;
        let part: i128 = d * (t as i128) / (UNIT as i128);
        (a as i128 + part) as i64
    } else {
        let d: i128 = a as i128 - b as i128;
        assert(0 <= d * t <= d * UNIT) by (nonlinear_arith)
            requires
                0 <= d,
                0 <= t <= UNIT,
        ;
        assert(d * UNIT <= 0x1_0000_0000_0000_0000 * UNIT) by (nonlinear_arith)
            requires
                d <= 0x1_0000_0000_0000_0000,
        ;
        let part: i128 = d * (t as i128) / (UNIT as i128);
        (a as i128 - part) as i64
    }
}

/// Executable form of [`lerp_ordinal`] for ordinals below 16.
pub fn lerp_ordinal_fixed(a: u32, b: u32, t: i64) -> (r: u32)
    requires
        a < 16,
        b < 16,
        0 <= t <= UNIT,
    ensures
        r == lerp_ordinal(a as int, b as int, t as int),
{
    proof {
        lemma_lerp_ordinal_bounds(a as int, b as int, t as int);
    }
    let ai = a as i64;
    let bi = b as i64;
    let d: i64 = bi - ai;
    assert(-16 * UNIT <= d * t <= 16 * UNIT) by (nonlinear_arith)
        requires
            -16 <= d <= 16,
            0 <= t <= UNIT,
    ;
    let v: i64 = ai * UNIT + d * t + UNIT / 2;
    assert(v >= 0) by {
        if a <= b {
            assert(d * t >= 0) by (nonlinear_arith)
                requires
                    d >= 0,
                    t >= 0,
            ;
        } else {
            assert(ai * UNIT + d * t >= bi * UNIT) by (nonlinear_arith)
                requires
                    d == bi - ai,
                    d < 0,
                    0 <= t <= UNIT,
            ;
        }
    }
    (v / UNIT) as u32
}

/// Executable form of [`clamp_value`].
pub fn clamp_fixed(x: i128, lo: i64, hi: i64) -> (r: i64)
    requires
        lo <= hi,
    ensures
        r == clamp_value(x as int, lo as int, hi as int),
{
    if x < lo as i128 {
        lo
    } else if x > hi as i128 {
        hi
    } else {
        x as i64
    }
}

/// A quotient by `UNIT`, rounded toward zero, of a value within `k * UNIT` is within `k`.
pub proof fn lemma_div_unit_bound(n: int, k: int)
    requires
        0 <= k,
        -k * UNIT <= n <= k * UNIT,
    ensures
        -k <= div_toward_zero(n, UNIT as int) <= k,
{
    vstd::arithmetic::div_mod::lemma_div_by_multiple(k, UNIT as int);
    if n >= 0 {
        vstd::arithmetic::div_mod::lemma_div_is_ordered(n, k * UNIT, UNIT as int);
        vstd::arithmetic::div_mod::lemma_div_is_ordered(0, n, UNIT as int);
    } else {
        vstd::arithmetic::div_mod::lemma_div_is_ordered(-n, k * UNIT, UNIT as int);
        vstd::arithmetic::div_mod::lemma_div_is_ordered(0, -n, UNIT as int);
    }
}

/// Executable form of [`div_toward_zero`].
pub fn div_toward_zero_fixed(n: i128, d: i128) -> (r: i128)
    requires
        d > 0,
        n > i128::MIN,
    ensures
        r == div_toward_zero(n as int, d as int),
{
    if n >= 0 {
        n / d
    } else {
        -((-n) / d)
    }
}

} // verus!
