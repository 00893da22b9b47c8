//! The per-agent rules of the update pass: the steering decision, the wall policies and
//! the integration of the position.
//!
//! An agent's heading is held as a vector `(hx, hy)` whose length is its encoded speed
//! and whose direction is its direction of travel, so that reflections are exact. The
//! sensing of the trail field and the trigonometry that produce the samples and turns
//! stay with the caller.

use crate::fixed::{div_toward_zero, lemma_div_unit_bound, scale_fixed, scale_value, UNIT};
use crate::preset::WallStrategy;
use vstd::prelude::*;

verus! {

/// A wrapping agent that passes this coordinate (0.99) reappears at the opposite edge.
pub const WRAP_EDGE: i64 = 990_000;

/// A bouncing agent is reflected when its projected position passes this coordinate (0.90).
pub const BOUNCE_EDGE: i64 = 900_000;

/// A slowing agent is slowed and turned when its projected position passes this
/// coordinate (0.75).
pub const SLOW_EDGE: i64 = 750_000;

/// The factor by which a slowing agent's speed is multiplied at the wall (0.75).
pub const SLOWDOWN: i64 = 750_000;

/// Largest magnitude of a coordinate or heading component that the rules accept.
pub const AGENT_LIMIT: i64 = 0x100_0000_0000;

/// What an agent does with its direction after sensing the trail ahead of it.
#[derive(Clone, Copy, Debug, PartialEq, Eq, Structural)]
pub enum Steer {
    /// Keep the direction: the trail is strongest straight ahead.
    Straight,
    /// Perturb the direction at random: the trail is weakest straight ahead.
    Randomize,
    /// Turn right by the steering amount.
    TurnRight,
    /// Turn left by the steering amount.
    TurnLeft,
    /// Keep the direction: left and right sense the same.
    Keep,
}

/// The steering rule, in its order of precedence.
pub open spec fn steer_choice(left: int, forward: int, right: int) -> Steer {
    if forward > left && forward > right {
        Steer::Straight
    } else if forward < left && forward < right {
        Steer::Randomize
    } else if right > left {
        Steer::TurnRight
    } else if right < left {
        Steer::TurnLeft
    } else {
        Steer::Keep
    }
}

/// Chooses how to steer from the trail intensities sensed to the left, straight ahead
/// and to the right.
pub fn steer(left: i64, forward: i64, right: i64) -> (r: Steer)
    ensures
        r == steer_choice(left as int, forward as int, right as int),
{
    if forward > left && forward > right {
        Steer::Straight
    } else if forward < left && forward < right {
        Steer::Randomize
    } else if right > left {
        Steer::TurnRight
    } else if right < left {
        Steer::TurnLeft
    } else {
        Steer::Keep
    }
}

/// A rotation by a small angle, as its cosine and sine in fixed point.
#[derive(Clone, Copy, Debug, PartialEq, Eq, Structural)]
pub struct Turn {
    pub cos: i64,
    pub sin: i64,
}

impl Turn {
    /// Both components lie in `[-UNIT, UNIT]`.
    pub open spec fn valid(self) -> bool {
        -UNIT <= self.cos <= UNIT && -UNIT <= self.sin <= UNIT
    }

    /// The rotation by zero.
    pub fn identity() -> (r: Turn)
        ensures
            r == (Turn { cos: UNIT, sin: 0 }),
            r.valid(),
    {
        Turn { cos: UNIT, sin: 0 }
    }
}

/// One agent: position and heading vector.
#[derive(Clone, Copy, Debug, PartialEq, Eq, Structural)]
pub struct Agent {
    pub x: i64,
    pub y: i64,
    pub hx: i64,
    pub hy: i64,
}

/// `|v| <= AGENT_LIMIT`.
pub open spec fn within_limit(v: int) -> bool {
    -AGENT_LIMIT <= v <= AGENT_LIMIT
}

impl Agent {
    /// Every coordinate and heading component is within [`AGENT_LIMIT`].
    pub open spec fn bounded(self) -> bool {
        within_limit(self.x as int) && within_limit(self.y as int) && within_limit(
            self.hx as int,
        ) && within_limit(self.hy as int)
    }
}

/// The heading `(hx, hy)` rotated by the turn `(c, s)`, each component rounded toward zero.
pub open spec fn turned(hx: int, hy: int, c: int, s: int) -> (int, int) {
    (
        div_toward_zero(hx * c - hy * s, UNIT as int),
        div_toward_zero(hx * s + hy * c, UNIT as int),
    )
}

/// The coordinate after wrapping: past `WRAP_EDGE` on either side it moves to the
/// opposite edge.
pub open spec fn wrapped(p: int) -> int {
    if p > WRAP_EDGE {
        -WRAP_EDGE
    } else if p < -WRAP_EDGE {
        WRAP_EDGE as int
    } else {
        p
    }
}

/// The heading after steering `s`: straight on or kept as it is; turned by `random_turn`
/// when randomised; turned right (by the inverse of `steer_turn`) or left (by
/// `steer_turn`).
pub open spec fn steered(h: (int, int), s: Steer, steer_turn: Turn, random_turn: Turn) -> (
    int,
    int,
) {
    match s {
        Steer::Randomize => turned(h.0, h.1, random_turn.cos as int, random_turn.sin as int),
        Steer::TurnRight => turned(h.0, h.1, steer_turn.cos as int, -steer_turn.sin),
        Steer::TurnLeft => turned(h.0, h.1, steer_turn.cos as int, steer_turn.sin as int),
        _ => h,
    }
}

/// The top-wall test of the bounce policy: a projected vertical position above
/// `BOUNCE_EDGE` mirrors the vertical component and turns by `-j`.
pub open spec fn bounce_top(a: Agent, m: int, j: Turn, h: (int, int)) -> (int, int) {
    if a.y + scale_value(h.1, m) > BOUNCE_EDGE {
        turned(h.0, -h.1, j.cos as int, -j.sin)
    } else {
        h
    }
}

/// The bottom-wall test of the bounce policy.
pub open spec fn bounce_bottom(a: Agent, m: int, j: Turn, h: (int, int)) -> (int, int) {
    if a.y + scale_value(h.1, m) < -BOUNCE_EDGE {
        turned(h.0, -h.1, j.cos as int, -j.sin)
    } else {
        h
    }
}

/// The right-wall test of the bounce policy: a projected horizontal position beyond
/// `BOUNCE_EDGE` mirrors the horizontal component and turns by `j`.
pub open spec fn bounce_right(a: Agent, m: int, j: Turn, h: (int, int)) -> (int, int) {
    if a.x + scale_value(h.0, m) > BOUNCE_EDGE {
        turned(-h.0, h.1, j.cos as int, j.sin as int)
    } else {
        h
    }
}

/// The left-wall test of the bounce policy.
pub open spec fn bounce_left(a: Agent, m: int, j: Turn, h: (int, int)) -> (int, int) {
    if a.x + scale_value(h.0, m) < -BOUNCE_EDGE {
        turned(-h.0, h.1, j.cos as int, j.sin as int)
    } else {
        h
    }
}

/// The heading after the bounce policy, with speed factor `m` and jitter `j`: the top,
/// bottom, right and left tests in turn, each projecting the position by the heading as
/// the previous tests left it.
pub open spec fn bounced(a: Agent, m: int, j: Turn) -> (int, int) {
    let h0 = (a.hx as int, a.hy as int);
    bounce_left(a, m, j, bounce_right(a, m, j, bounce_bottom(a, m, j, bounce_top(a, m, j, h0))))
}

/// The heading and speed factor after the slow-and-reverse policy, starting from speed
/// factor `m`: a projected vertical position beyond `SLOW_EDGE` slows the agent and
/// mirrors its horizontal component; then a projected horizontal position beyond it
/// slows the agent again and mirrors its vertical component.
pub open spec fn slowed(a: Agent, m: int) -> (int, int, int) {
    let (hx0, hy0, g0) = (a.hx as int, a.hy as int, m);
    let py = a.y + scale_value(hy0, g0);
    let (hx1, hy1, g1) = if py > SLOW_EDGE || py < -SLOW_EDGE {
        (-hx0, hy0, scale_value(g0, SLOWDOWN as int))
    } else {
        (hx0, hy0, g0)
    };
    let px = a.x + scale_value(hx1, g1);
    if px > SLOW_EDGE || px < -SLOW_EDGE {
        (hx1, -hy1, scale_value(g1, SLOWDOWN as int))
    } else {
        (hx1, hy1, g1)
    }
}

/// The agent after one step with speed multiplier `m`: the wall policy sets the heading
/// and this frame's speed factor (`m`, times `SLOWDOWN` for each slow-and-reverse hit),
/// the position moves by the heading scaled once by that factor, and a wrapping agent is
/// then wrapped. The heading's length is kept
/// from frame to frame; the slowdown applies to this frame's motion only.
pub open spec fn advanced(a: Agent, wall: WallStrategy, m: int, j: Turn) -> Agent {
    let (hx, hy, g) = match wall {
        WallStrategy::Bounce => {
            let (hx, hy) = bounced(a, m, Turn { cos: UNIT, sin: 0 });
            (hx, hy, m)
        },
        WallStrategy::BounceRandom => {
            let (hx, hy) = bounced(a, m, j);
            (hx, hy, m)
        },
        WallStrategy::SlowAndReverse => slowed(a, m),
        _ => (a.hx as int, a.hy as int, m),
    };
    let x = a.x + scale_value(hx, g);
    let y = a.y + scale_value(hy, g);
    if wall == WallStrategy::Wrap {
        Agent { x: wrapped(x) as i64, y: wrapped(y) as i64, hx: hx as i64, hy: hy as i64 }
    } else {
        Agent { x: x as i64, y: y as i64, hx: hx as i64, hy: hy as i64 }
    }
}

/// A wrapped coordinate.
pub fn wrap_coordinate(p: i64) -> (r: i64)
    ensures
        r == wrapped(p as int),
        -WRAP_EDGE <= r <= WRAP_EDGE,
{
    if p > WRAP_EDGE {
        -WRAP_EDGE
    } else if p < -WRAP_EDGE {
        WRAP_EDGE
    } else {
        p
    }
}

/// `|v|`.
pub open spec fn magnitude(v: int) -> int {
    if v >= 0 {
        v
    } else {
        -v
    }
}

/// A whole multiple of `UNIT` divides exactly.
proof fn lemma_div_unit_exact(k: int)
    ensures
        div_toward_zero(k * UNIT, UNIT as int) == k,
{
    if k >= 0 {
        vstd::arithmetic::div_mod::lemma_div_by_multiple(k, UNIT as int);
    } else {
        vstd::arithmetic::div_mod::lemma_div_by_multiple(-k, UNIT as int);
        assert(-(k * UNIT) == (-k) * UNIT) by (nonlinear_arith);
    }
}

/// `|a * c| <= |a| * UNIT` when `|c| <= UNIT`.
proof fn lemma_product_bound(a: int, c: int)
    requires
        -UNIT <= c <= UNIT,
    ensures
        -magnitude(a) * UNIT <= a * c <= magnitude(a) * UNIT,
{
    if a >= 0 {
        assert(-a * UNIT <= a * c <= a * UNIT) by (nonlinear_arith)
            requires
                a >= 0,
                -UNIT <= c <= UNIT,
        ;
    } else {
        assert(a * UNIT <= a * c <= -a * UNIT) by (nonlinear_arith)
            requires
                a < 0,
                -UNIT <= c <= UNIT,
        ;
    }
}

/// The heading `(hx, hy)` rotated by `t`.
fn turn_heading(hx: i64, hy: i64, t: Turn) -> (r: (i64, i64))
    requires
        t.valid(),
        -0x4_0000_0000_0000 <= hx <= 0x4_0000_0000_0000,
        -0x4_0000_0000_0000 <= hy <= 0x4_0000_0000_0000,
    ensures
        (r.0 as int, r.1 as int) == turned(hx as int, hy as int, t.cos as int, t.sin as int),
        magnitude(r.0 as int) <= magnitude(hx as int) + magnitude(hy as int),
        magnitude(r.1 as int) <= magnitude(hx as int) + magnitude(hy as int),
{
    proof {
        lemma_product_bound(hx as int, t.cos as int);
        lemma_product_bound(hy as int, t.sin as int);
        lemma_product_bound(hx as int, t.sin as int);
        lemma_product_bound(hy as int, t.cos as int);
    }
    let ghost k = magnitude(hx as int) + magnitude(hy as int);
    let nx: i128 = hx as i128 * t.cos as i128 - hy as i128 * t.sin as i128;
    let ny: i128 = hx as i128 * t.sin as i128 + hy as i128 * t.cos as i128;
    assert(-k * UNIT <= nx <= k * UNIT) by (nonlinear_arith)
        requires
            nx == hx * t.cos - hy * t.sin,
            k == magnitude(hx as int) + magnitude(hy as int),
            -magnitude(hx as int) * UNIT <= hx * t.cos <= magnitude(hx as int) * UNIT,
            -magnitude(hy as int) * UNIT <= hy * t.sin <= magnitude(hy as int) * UNIT,
    ;
    assert(-k * UNIT <= ny <= k * UNIT) by (nonlinear_arith)
        requires
            ny == hx * t.sin + hy * t.cos,
            k == magnitude(hx as int) + magnitude(hy as int),
            -magnitude(hx as int) * UNIT <= hx * t.sin <= magnitude(hx as int) * UNIT,
            -magnitude(hy as int) * UNIT <= hy * t.cos <= magnitude(hy as int) * UNIT,
    ;
    proof {
        lemma_div_unit_bound(nx as int, k);
        lemma_div_unit_bound(ny as int, k);
    }
    let u = UNIT as i128;
    let rx: i128 = if nx >= 0 {
        nx / u
    } else {
        -((-nx) / u)
    };
    let ry: i128 = if ny >= 0 {
        ny / u
    } else {
        -((-ny) / u)
    };
    (rx as i64, ry as i64)
}

/// `|v| <= k * AGENT_LIMIT`.
pub open spec fn within(v: int, k: int) -> bool {
    -k * AGENT_LIMIT <= v <= k * AGENT_LIMIT
}

/// One wall test of the bounce policy: `vertical` picks the top/bottom tests, `upper`
/// the top or right one.
fn bounce_test(
    a: Agent,
    m: i64,
    j: Turn,
    h: (i64, i64),
    vertical: bool,
    upper: bool,
) -> (r: (i64, i64))
    requires
        a.bounded(),
        0 <= m <= 2 * UNIT,
        j.valid(),
        within(h.0 as int, 8),
        within(h.1 as int, 8),
    ensures
        vertical && upper ==> (r.0 as int, r.1 as int) == bounce_top(
            a,
            m as int,
            j,
            (h.0 as int, h.1 as int),
        ),
        vertical && !upper ==> (r.0 as int, r.1 as int) == bounce_bottom(
            a,
            m as int,
            j,
            (h.0 as int, h.1 as int),
        ),
        !vertical && upper ==> (r.0 as int, r.1 as int) == bounce_right(
            a,
            m as int,
            j,
            (h.0 as int, h.1 as int),
        ),
        !vertical && !upper ==> (r.0 as int, r.1 as int) == bounce_left(
            a,
            m as int,
            j,
            (h.0 as int, h.1 as int),
        ),
        magnitude(r.0 as int) <= magnitude(h.0 as int) + magnitude(h.1 as int),
        magnitude(r.1 as int) <= magnitude(h.0 as int) + magnitude(h.1 as int),
{
    if vertical {
        let py = a.y + scale_fixed(h.1, m);
        if (upper && py > BOUNCE_EDGE) || (!upper && py < -BOUNCE_EDGE) {
            turn_heading(h.0, -h.1, Turn { cos: j.cos, sin: -j.sin })
        } else {
            h
        }
    } else {
        let px = a.x + scale_fixed(h.0, m);
        if (upper && px > BOUNCE_EDGE) || (!upper && px < -BOUNCE_EDGE) {
            turn_heading(-h.0, h.1, j)
        } else {
            h
        }
    }
}

/// The heading after the bounce policy.
fn bounce(a: Agent, m: i64, j: Turn) -> (r: (i64, i64))
    requires
        a.bounded(),
        0 <= m <= 2 * UNIT,
        j.valid(),
    ensures
        (r.0 as int, r.1 as int) == bounced(a, m as int, j),
        within(r.0 as int, 16),
        within(r.1 as int, 16),
{
    let h1 = bounce_test(a, m, j, (a.hx, a.hy), true, true);
    assert(within(h1.0 as int, 2) && within(h1.1 as int, 2));
    let h2 = bounce_test(a, m, j, h1, true, false);
    assert(within(h2.0 as int, 4) && within(h2.1 as int, 4));
    let h3 = bounce_test(a, m, j, h2, false, true);
    assert(within(h3.0 as int, 8) && within(h3.1 as int, 8));
    bounce_test(a, m, j, h3, false, false)
}

/// The heading and this frame's speed factor after the slow-and-reverse policy.
fn slow_and_reverse(a: Agent, m: i64) -> (r: (i64, i64, i64))
    requires
        a.bounded(),
        0 <= m <= 2 * UNIT,
    ensures
        (r.0 as int, r.1 as int, r.2 as int) == slowed(a, m as int),
        within_limit(r.0 as int),
        within_limit(r.1 as int),
        0 <= r.2 <= m,
{
    let mut hx = a.hx;
    let mut hy = a.hy;
    let mut g = m;
    let py = a.y + scale_fixed(hy, g);
    if py > SLOW_EDGE || py < -SLOW_EDGE {
        hx = -hx;
        g = scale_fixed(g, SLOWDOWN);
    }
    let px = a.x + scale_fixed(hx, g);
    if px > SLOW_EDGE || px < -SLOW_EDGE {
        hy = -hy;
        g = scale_fixed(g, SLOWDOWN);
    }
    (hx, hy, g)
}

/// Turns an agent's heading as steering decision `s` says; its position stays.
pub fn steer_heading(a: Agent, s: Steer, steer_turn: Turn, random_turn: Turn) -> (r: Agent)
    requires
        a.bounded(),
        steer_turn.valid(),
        random_turn.valid(),
    ensures
        (r.hx as int, r.hy as int) == steered(
            (a.hx as int, a.hy as int),
            s,
            steer_turn,
            random_turn,
        ),
        r.x == a.x,
        r.y == a.y,
{
    let (hx, hy) = match s {
        Steer::Randomize => turn_heading(a.hx, a.hy, random_turn),
        Steer::TurnRight => turn_heading(
            a.hx,
            a.hy,
            Turn { cos: steer_turn.cos, sin: -steer_turn.sin },
        ),
        Steer::TurnLeft => turn_heading(a.hx, a.hy, steer_turn),
        _ => (a.hx, a.hy),
    };
    Agent { x: a.x, y: a.y, hx, hy }
}

/// Advances one agent by one step with speed multiplier `m`, under the given wall
/// policy; `j` is the jitter turn that the random bounce adds at a wall.
pub fn advance(a: Agent, wall: WallStrategy, m: i64, j: Turn) -> (r: Agent)
    requires
        a.bounded(),
        0 <= m <= 2 * UNIT,
        j.valid(),
    ensures
        r == advanced(a, wall, m as int, j),
{
    let (hx, hy, g) = match wall {
        WallStrategy::Bounce => {
            let t = bounce(a, m, Turn::identity());
            (t.0, t.1, m)
        },
        WallStrategy::BounceRandom => {
            let t = bounce(a, m, j);
            (t.0, t.1, m)
        },
        WallStrategy::SlowAndReverse => slow_and_reverse(a, m),
        _ => (a.hx, a.hy, m),
    };
    let x = a.x + scale_fixed(hx, g);
    let y = a.y + scale_fixed(hy, g);
    match wall {
        WallStrategy::Wrap => Agent {
            x: wrap_coordinate(x),
            y: wrap_coordinate(y),
            hx,
            hy,
        },
        _ => Agent { x, y, hx, hy },
    }
}

/// Advances every agent of a buffer by one step under one policy, multiplier and jitter.
/// Under the wrap policy every agent then lies within `[-WRAP_EDGE, WRAP_EDGE]` on both
/// axes and keeps its heading, so the buffer can be advanced again frame after frame.
pub fn advance_all(agents: &mut Vec<Agent>, wall: WallStrategy, m: i64, j: Turn)
    requires
        forall|i: int| 0 <= i < old(agents)@.len() ==> (#[trigger] old(agents)@[i]).bounded(),
        0 <= m <= 2 * UNIT,
        j.valid(),
    ensures
        final(agents)@.len() == old(agents)@.len(),
        forall|i: int|
            0 <= i < final(agents)@.len() ==> #[trigger] final(agents)@[i] == advanced(
                old(agents)@[i],
                wall,
                m as int,
                j,
            ),
        wall == WallStrategy::Wrap ==> forall|i: int|
            0 <= i < final(agents)@.len() ==> {
                &&& -WRAP_EDGE <= (#[trigger] final(agents)@[i]).x <= WRAP_EDGE
                &&& -WRAP_EDGE <= final(agents)@[i].y <= WRAP_EDGE
                &&& final(agents)@[i].hx == old(agents)@[i].hx
                &&& final(agents)@[i].hy == old(agents)@[i].hy
                &&& final(agents)@[i].bounded()
            },
{
    let ghost start = agents@;
    let n = agents.len();
    let mut i: usize = 0;
    while i < n
        invariant
            n == start.len(),
            agents@.len() == n,
            i <= n,
            0 <= m <= 2 * UNIT,
            j.valid(),
            forall|k: int| 0 <= k < n ==> (#[trigger] start[k]).bounded(),
            forall|k: int| i <= k < n ==> #[trigger] agents@[k] == start[k],
            forall|k: int|
                0 <= k < i ==> #[trigger] agents@[k] == advanced(start[k], wall, m as int, j),
        decreases n - i,
    {
        let next = advance(agents[i], wall, m, j);
        agents.set(i, next);
        i = i + 1;
    }
    proof {
        if wall == WallStrategy::Wrap {
            assert forall|k: int| 0 <= k < n implies {
                &&& -WRAP_EDGE <= (#[trigger] agents@[k]).x <= WRAP_EDGE
                &&& -WRAP_EDGE <= agents@[k].y <= WRAP_EDGE
                &&& agents@[k].hx == start[k].hx
                &&& agents@[k].hy == start[k].hy
                &&& agents@[k].bounded()
            } by {
                lemma_wrap_keeps_agents_inside(start[k], m as int, j, 1);
                assert(advanced_steps(start[k], WallStrategy::Wrap, m as int, j, 0) == start[k]);
            }
        }
    }
}

/// The agent after `n` steps under one policy, multiplier and jitter.
pub open spec fn advanced_steps(a: Agent, wall: WallStrategy, m: int, j: Turn, n: nat) -> Agent
    decreases n,
{
    if n == 0 {
        a
    } else {
        advanced(advanced_steps(a, wall, m, j, (n - 1) as nat), wall, m, j)
    }
}

/// Under the wrap policy an agent keeps its heading, and after any number of steps its
/// position lies within `[-WRAP_EDGE, WRAP_EDGE]` on both axes.
pub proof fn lemma_wrap_keeps_agents_inside(a: Agent, m: int, j: Turn, n: nat)
    requires
        n >= 1,
    ensures
        -WRAP_EDGE <= advanced_steps(a, WallStrategy::Wrap, m, j, n).x <= WRAP_EDGE,
        -WRAP_EDGE <= advanced_steps(a, WallStrategy::Wrap, m, j, n).y <= WRAP_EDGE,
        advanced_steps(a, WallStrategy::Wrap, m, j, n).hx == a.hx,
        advanced_steps(a, WallStrategy::Wrap, m, j, n).hy == a.hy,
    decreases n,
{
    let prev = advanced_steps(a, WallStrategy::Wrap, m, j, (n - 1) as nat);
    if n > 1 {
        lemma_wrap_keeps_agents_inside(a, m, j, (n - 1) as nat);
    } else {
        assert(prev == a);
    }
    assert(advanced_steps(a, WallStrategy::Wrap, m, j, n) == advanced(prev, WallStrategy::Wrap, m, j));
}

/// Under the bounce policy, an agent whose projected vertical position passes the top
/// wall, whose mirrored projection stays above the bottom wall, and whose horizontal
/// projection stays between the side walls, leaves with the vertical component of its
/// heading negated and the horizontal one unchanged.
pub proof fn lemma_bounce_mirrors_vertical(a: Agent, m: int, j: Turn)
    requires
        a.bounded(),
        a.y + scale_value(a.hy as int, m) > BOUNCE_EDGE,
        a.y + scale_value(-a.hy, m) >= -BOUNCE_EDGE,
        -BOUNCE_EDGE <= a.x + scale_value(a.hx as int, m) <= BOUNCE_EDGE,
    ensures
        advanced(a, WallStrategy::Bounce, m, j).hx == a.hx,
        advanced(a, WallStrategy::Bounce, m, j).hy == -a.hy,
{
    let hx = a.hx as int;
    let hy = a.hy as int;
    assert(hx * UNIT - (-hy) * 0 == hx * UNIT);
    assert(hx * 0 + (-hy) * UNIT == (-hy) * UNIT);
    lemma_div_unit_exact(hx);
    lemma_div_unit_exact(-hy);
    assert(turned(hx, -hy, UNIT as int, 0) == (hx, -hy));
}

} // verus!
