//! The accumulate pass: the trail field that agents sense and that is displayed, blurred,
//! faded and composited with the agents' fresh emission once per frame.
//!
//! A [`TrailField`] is one channel plane; an RGBA trail is four planes, which the pass
//! treats alike.

use crate::fixed::{div_toward_zero, div_toward_zero_fixed, lemma_div_unit_bound, UNIT};
use vstd::prelude::*;

verus! {

/// What the pass subtracts from every texel each frame (0.0001), so that a trail with
/// no new input decays to black even without fading.
pub const DECAY: i64 = 100;

/// Largest magnitude of a texel value that the pass accepts.
pub const TEXEL_LIMIT: i64 = 0x100_0000_0000;

/// One channel of the trail field, row by row.
pub struct TrailField {
    pub width: usize,
    pub height: usize,
    pub values: Vec<i64>,
}

/// A texel after the pass: the previous value mixed with its blur by `blurring`, faded
/// by `fade_speed`, added to the fresh emission, less [`DECAY`].
pub open spec fn accumulated(
    fresh: int,
    previous: int,
    blurred: int,
    fade_speed: int,
    blurring: int,
) -> int {
    let mixed = div_toward_zero(previous * (UNIT - blurring) + blurred * blurring, UNIT as int);
    fresh + div_toward_zero(mixed * (UNIT - fade_speed), UNIT as int) - DECAY
}

impl TrailField {
    /// At least one texel, `width * height` values, each within [`TEXEL_LIMIT`].
    pub open spec fn well_formed(&self) -> bool {
        &&& self.width >= 1
        &&& self.height >= 1
        &&& self.values@.len() == self.width * self.height
        &&& forall|i: int|
            0 <= i < self.values@.len() ==> -TEXEL_LIMIT <= #[trigger] self.values@[i]
                <= TEXEL_LIMIT
    }

    /// The value at `row`, `col`.
    pub open spec fn at(&self, row: int, col: int) -> int {
        self.values@[row * self.width + col] as int
    }

    /// The sum of the value at `row`, `col` and its eight neighbours, the field wrapping
    /// around at its edges.
    pub open spec fn neighbourhood(&self, row: int, col: int) -> int {
        let (w, h) = (self.width as int, self.height as int);
        let up = if row == 0 {
            h - 1
        } else {
            row - 1
        };
        let down = if row + 1 == h {
            0
        } else {
            row + 1
        };
        let left = if col == 0 {
            w - 1
        } else {
            col - 1
        };
        let right = if col + 1 == w {
            0
        } else {
            col + 1
        };
        self.at(up, left) + self.at(up, col) + self.at(up, right) + self.at(row, left) + self.at(
            row,
            col,
        ) + self.at(row, right) + self.at(down, left) + self.at(down, col) + self.at(down, right)
    }

    /// The blur of texel `i`: the mean of it and its eight neighbours, rounded toward zero.
    pub open spec fn blurred_at(&self, i: int) -> int {
        div_toward_zero(self.neighbourhood(i / (self.width as int), i % (self.width as int)), 9)
    }

    /// A black field of the given size.
    pub fn blank(width: usize, height: usize) -> (r: TrailField)
        requires
            width >= 1,
            height >= 1,
            width * height <= usize::MAX,
        ensures
            r.width == width,
            r.height == height,
            r.values@ == Seq::new((width * height) as nat, |i: int| 0i64),
            r.well_formed(),
    {
        let n = width * height;
        let mut values: Vec<i64> = Vec::new();
        let mut i: usize = 0;
        while i < n
            invariant
                i <= n,
                values@ == Seq::new(i as nat, |k: int| 0i64),
            decreases n - i,
        {
            values.push(0);
            i = i + 1;
            assert(values@ =~= Seq::new(i as nat, |k: int| 0i64));
        }
        TrailField { width, height, values }
    }
}

/// `row * w + col` lies below `h * w` for `row < h` and `col < w`.
proof fn lemma_index_in_range(row: int, col: int, w: int, h: int)
    requires
        0 <= row < h,
        0 <= col < w,
    ensures
        0 <= row * w + col < w * h,
{
    assert(0 <= row * w + col < w * h) by (nonlinear_arith)
        requires
            0 <= row < h,
            0 <= col < w,
    ;
}

/// One texel of the pass.
pub fn accumulate_texel(
    fresh: i64,
    previous: i64,
    blurred: i64,
    fade_speed: i64,
    blurring: i64,
) -> (r: i64)
    requires
        -TEXEL_LIMIT <= fresh <= TEXEL_LIMIT,
        -TEXEL_LIMIT <= previous <= TEXEL_LIMIT,
        -TEXEL_LIMIT <= blurred <= TEXEL_LIMIT,
        0 <= fade_speed <= UNIT,
        0 <= blurring <= UNIT,
    ensures
        r == accumulated(
            fresh as int,
            previous as int,
            blurred as int,
            fade_speed as int,
            blurring as int,
        ),
{
    let u = UNIT as i128;
    let keep = u - blurring as i128;
    let p = previous as i128;
    let b = blurred as i128;
    let bl = blurring as i128;
    assert(-TEXEL_LIMIT * UNIT <= p * keep <= TEXEL_LIMIT * UNIT) by (nonlinear_arith)
        requires
            -TEXEL_LIMIT <= p <= TEXEL_LIMIT,
            0 <= keep <= UNIT,
    ;
    assert(-TEXEL_LIMIT * UNIT <= b * bl <= TEXEL_LIMIT * UNIT) by (nonlinear_arith)
        requires
            -TEXEL_LIMIT <= b <= TEXEL_LIMIT,
            0 <= bl <= UNIT,
    ;
    let n = p * keep + b * bl;
    assert(-TEXEL_LIMIT * UNIT <= n <= TEXEL_LIMIT * UNIT) by (nonlinear_arith)
        requires
            n == p * keep + b * bl,
            -TEXEL_LIMIT <= p <= TEXEL_LIMIT,
            -TEXEL_LIMIT <= b <= TEXEL_LIMIT,
            0 <= bl <= UNIT,
            keep == UNIT - bl,
    ;
    let mixed = div_toward_zero_fixed(n, u);
    proof {
        lemma_div_unit_bound(n as int, TEXEL_LIMIT as int);
    }
    let stay = u - fade_speed as i128;
    assert(-TEXEL_LIMIT * UNIT <= mixed * stay <= TEXEL_LIMIT * UNIT) by (nonlinear_arith)
        requires
            -TEXEL_LIMIT <= mixed <= TEXEL_LIMIT,
            0 <= stay <= UNIT,
    ;
    let faded = div_toward_zero_fixed(mixed * stay, u);
    proof {
        lemma_div_unit_bound(mixed * stay, TEXEL_LIMIT as int);
    }
    (fresh as i128 + faded - DECAY as i128) as i64
}

/// The value of `f` at `row`, `col`.
fn value_at(f: &TrailField, row: usize, col: usize) -> (r: i64)
    requires
        f.well_formed(),
        row < f.height,
        col < f.width,
    ensures
        r == f.at(row as int, col as int),
        -TEXEL_LIMIT <= r <= TEXEL_LIMIT,
{
    let len = f.values.len();
    proof {
        lemma_index_in_range(row as int, col as int, f.width as int, f.height as int);
    }
    assert(row * f.width + col < len);
    f.values[row * f.width + col]
}

/// The neighbourhood sum of `f` at `row`, `col`.
fn neighbourhood_sum(f: &TrailField, row: usize, col: usize) -> (r: i128)
    requires
        f.well_formed(),
        row < f.height,
        col < f.width,
    ensures
        r == f.neighbourhood(row as int, col as int),
        -9 * TEXEL_LIMIT <= r <= 9 * TEXEL_LIMIT,
{
    let (w, h) = (f.width, f.height);
    let up = if row == 0 {
        h - 1
    } else {
        row - 1
    };
    let down = if row + 1 == h {
        0
    } else {
        row + 1
    };
    let left = if col == 0 {
        w - 1
    } else {
        col - 1
    };
    let right = if col + 1 == w {
        0
    } else {
        col + 1
    };
    let top: i128 = value_at(f, up, left) as i128 + value_at(f, up, col) as i128 + value_at(
        f,
        up,
        right,
    ) as i128;
    let middle: i128 = value_at(f, row, left) as i128 + value_at(f, row, col) as i128
        + value_at(f, row, right) as i128;
    let bottom: i128 = value_at(f, down, left) as i128 + value_at(f, down, col) as i128
        + value_at(f, down, right) as i128;
    top + middle + bottom
}

/// The blur of texel `i` of `f`.
fn blur_at(f: &TrailField, i: usize) -> (r: i64)
    requires
        f.well_formed(),
        i < f.values@.len(),
    ensures
        r == f.blurred_at(i as int),
        -TEXEL_LIMIT <= r <= TEXEL_LIMIT,
{
    let w = f.width;
    let row = i / w;
    let col = i % w;
    assert(row < f.height) by (nonlinear_arith)
        requires
            row == i / w,
            i < w * f.height,
            w >= 1,
    ;
    let sum = neighbourhood_sum(f, row, col);
    let r = div_toward_zero_fixed(sum, 9);
    proof {
        vstd::arithmetic::div_mod::lemma_div_by_multiple(TEXEL_LIMIT as int, 9);
        if sum >= 0 {
            vstd::arithmetic::div_mod::lemma_div_is_ordered(sum as int, TEXEL_LIMIT * 9, 9);
            vstd::arithmetic::div_mod::lemma_div_is_ordered(0, sum as int, 9);
        } else {
            vstd::arithmetic::div_mod::lemma_div_is_ordered(-sum, TEXEL_LIMIT * 9, 9);
            vstd::arithmetic::div_mod::lemma_div_is_ordered(0, -sum, 9);
        }
    }
    r as i64
}

/// The accumulate pass over one channel: `texture0` is this frame's fresh emission,
/// `texture1` the previous frame's trail.
pub fn accumulate(
    texture0: &TrailField,
    texture1: &TrailField,
    fade_speed: i64,
    blurring: i64,
) -> (r: TrailField)
    requires
        texture0.well_formed(),
        texture1.well_formed(),
        texture0.width == texture1.width,
        texture0.height == texture1.height,
        0 <= fade_speed <= UNIT,
        0 <= blurring <= UNIT,
    ensures
        r.width == texture1.width,
        r.height == texture1.height,
        r.values@.len() == texture1.values@.len(),
        forall|i: int|
            0 <= i < r.values@.len() ==> #[trigger] r.values@[i] == accumulated(
                texture0.values@[i] as int,
                texture1.values@[i] as int,
                texture1.blurred_at(i),
                fade_speed as int,
                blurring as int,
            ),
{
    let n = texture1.values.len();
    let mut values: Vec<i64> = Vec::new();
    let mut i: usize = 0;
    while i < n
        invariant
            texture0.well_formed(),
            texture1.well_formed(),
            texture0.width == texture1.width,
            texture0.height == texture1.height,
            0 <= fade_speed <= UNIT,
            0 <= blurring <= UNIT,
            n == texture1.values@.len(),
            i <= n,
            values@.len() == i,
            forall|k: int|
                0 <= k < i ==> #[trigger] values@[k] == accumulated(
                    texture0.values@[k] as int,
                    texture1.values@[k] as int,
                    texture1.blurred_at(k),
                    fade_speed as int,
                    blurring as int,
                ),
        decreases n - i,
    {
        let blurred = blur_at(texture1, i);
        let fresh = texture0.values[i];
        let previous = texture1.values[i];
        values.push(accumulate_texel(fresh, previous, blurred, fade_speed, blurring));
        i = i + 1;
    }
    TrailField { width: texture1.width, height: texture1.height, values }
}

/// The sum of all values of a plane.
pub open spec fn total(s: Seq<i64>) -> int
    decreases s.len(),
{
    if s.len() == 0 {
        0
    } else {
        total(s.drop_last()) + s.last()
    }
}

/// Two planes that differ by `DECAY` at every texel differ by `DECAY` per texel in total.
proof fn lemma_total_less_decay(a: Seq<i64>, b: Seq<i64>)
    requires
        a.len() == b.len(),
        forall|i: int| 0 <= i < a.len() ==> #[trigger] b[i] == a[i] - DECAY,
    ensures
        total(b) == total(a) - a.len() * DECAY,
    decreases a.len(),
{
    if a.len() > 0 {
        let (a2, b2) = (a.drop_last(), b.drop_last());
        assert forall|i: int| 0 <= i < a2.len() implies #[trigger] b2[i] == a2[i] - DECAY by {
            assert(b2[i] == b[i] && a2[i] == a[i]);
        }
        lemma_total_less_decay(a2, b2);
    }
}

/// With no fresh emission, no fading and no blurring, the pass lowers every texel by
/// exactly `DECAY`, so the total of a non-empty plane strictly decreases with each frame.
pub proof fn lemma_trail_decays(texture0: TrailField, texture1: TrailField, out: TrailField)
    requires
        texture1.well_formed(),
        texture0.values@.len() == texture1.values@.len(),
        forall|i: int| 0 <= i < texture0.values@.len() ==> #[trigger] texture0.values@[i] == 0,
        out.values@.len() == texture1.values@.len(),
        forall|i: int|
            0 <= i < out.values@.len() ==> #[trigger] out.values@[i] == accumulated(
                texture0.values@[i] as int,
                texture1.values@[i] as int,
                texture1.blurred_at(i),
                0,
                0,
            ),
    ensures
        forall|i: int|
            0 <= i < out.values@.len() ==> #[trigger] out.values@[i] == texture1.values@[i]
                - DECAY,
        total(out.values@) == total(texture1.values@) - texture1.values@.len() * DECAY,
        total(out.values@) < total(texture1.values@),
{
    assert forall|i: int| 0 <= i < out.values@.len() implies #[trigger] out.values@[i]
        == texture1.values@[i] - DECAY by {
        let p = texture1.values@[i] as int;
        let bl = texture1.blurred_at(i);
        assert(p * (UNIT - 0) + bl * 0 == p * UNIT);
        assert(div_toward_zero(p * UNIT, UNIT as int) == p) by {
            if p >= 0 {
                vstd::arithmetic::div_mod::lemma_div_by_multiple(p, UNIT as int);
            } else {
                vstd::arithmetic::div_mod::lemma_div_by_multiple(-p, UNIT as int);
                assert(-(p * UNIT) == (-p) * UNIT) by (nonlinear_arith);
            }
        }
    }
    lemma_total_less_decay(texture1.values@, out.values@);
    let (w, h) = (texture1.width as int, texture1.height as int);
    assert(w * h >= 1) by (nonlinear_arith)
        requires
            w >= 1,
            h >= 1,
    ;
}

} // verus!
