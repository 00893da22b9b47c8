//! Presets: the visual parameters of the simulation, their interpolation law, the named
//! factory table, uniform sampling and the bounded random walk.

use crate::fixed::{
    clamp_fixed, clamp_value, div_toward_zero, lemma_lerp_ordinal_bounds, lemma_lerp_value_bounds, lerp_fixed,
    lerp_ordinal, lerp_ordinal_fixed, lerp_value, UNIT,
};
use vstd::arithmetic::power2::{lemma2_to64, pow2};
use vstd::prelude::*;
use StartingArrangement::{Origin, Random, Ring};

verus! {

/// Largest `speed_multiplier`.
pub const SPEED_MULTIPLIER_MAX: i64 = 2_000_000;

/// Largest `point_size`.
pub const POINT_SIZE_MAX: i64 = 5_000_000;

/// Largest `random_steer_factor`.
pub const RANDOM_STEER_MAX: i64 = 100_000;

/// Largest `constant_steer_factor`.
pub const CONSTANT_STEER_MAX: i64 = 5_000_000;

/// Largest `trail_strength`.
pub const TRAIL_STRENGTH_MAX: i64 = 1_000_000;

/// Largest `search_radius`.
pub const SEARCH_RADIUS_MAX: i64 = 100_000;

/// Largest `fade_speed`.
pub const FADE_SPEED_MAX: i64 = 100_000;

/// Largest `blurring`.
pub const BLURRING_MAX: i64 = 1_000_000;

/// Largest `average_starting_speed`.
pub const AVERAGE_SPEED_MAX: i64 = 2_000_000;

/// Largest `starting_speed_spread`.
pub const SPEED_SPREAD_MAX: i64 = 1_000_000;

/// Smallest exponent `k` of an agent count `2^k`.
pub const POINTS_LOG2_MIN: u32 = 10;

/// Largest exponent `k` of an agent count `2^k`.
pub const POINTS_LOG2_MAX: u32 = 20;

/// Smallest exponent drawn when a preset is sampled at random.
pub const SAMPLED_POINTS_LOG2_MIN: u32 = 14;

/// Relies on `rand::Rng::gen_range` over an inclusive range, with `rand::thread_rng()` as
/// the source: the value lies in the range, and the call panics only on an empty range.
#[verifier::external_body]
fn random_between(lo: i64, hi: i64) -> (r: i64)
    requires
        lo <= hi,
    ensures
        lo <= r <= hi,
{
    rand::Rng::gen_range(&mut rand::thread_rng(), lo..=hi)
}

/// `2^k`, computed by doubling.
pub fn power_of_two(k: u32) -> (n: u32)
    requires
        k < 32,
    ensures
        n == pow2(k as nat),
{
    proof {
        lemma2_to64();
    }
    let mut n: u32 = 1;
    let mut i: u32 = 0;
    while i < k
        invariant
            i <= k < 32,
            n == pow2(i as nat),
        decreases k - i,
    {
        proof {
            lemma2_to64();
            vstd::arithmetic::power2::lemma_pow2_strictly_increases(i as nat, 31);
            vstd::arithmetic::power2::lemma_pow2_unfold((i + 1) as nat);
        }
        n = n * 2;
        i = i + 1;
    }
    n
}

/// How agents are placed when they are (re)seeded.
#[derive(Clone, Copy, Debug, PartialEq, Eq, Structural)]
pub enum StartingArrangement {
    Origin,
    Random,
    Ring,
}

impl StartingArrangement {
    /// The ordinal of the arrangement.
    pub open spec fn index(self) -> int {
        match self {
            StartingArrangement::Origin => 0,
            StartingArrangement::Random => 1,
            StartingArrangement::Ring => 2,
        }
    }

    /// The arrangement with ordinal `n`, for `n` in `0..3`.
    pub open spec fn from_index(n: int) -> Self {
        if n == 0 {
            StartingArrangement::Origin
        } else if n == 1 {
            StartingArrangement::Random
        } else {
            StartingArrangement::Ring
        }
    }

    pub fn ordinal(&self) -> (r: u32)
        ensures
            r == self.index(),
    {
        match self {
            StartingArrangement::Origin => 0,
            StartingArrangement::Random => 1,
            StartingArrangement::Ring => 2,
        }
    }

    pub fn from_ordinal(n: u32) -> (r: Self)
        requires
            n < 3,
        ensures
            r == Self::from_index(n as int),
            r.index() == n,
    {
        match n {
            0 => StartingArrangement::Origin,
            1 => StartingArrangement::Random,
            _ => StartingArrangement::Ring,
        }
    }

    /// Interpolates the ordinals and rounds to the nearest arrangement.
    pub fn lerp(self, other: Self, t: i64) -> (r: Self)
        requires
            0 <= t <= UNIT,
        ensures
            r == Self::from_index(lerp_ordinal(self.index(), other.index(), t as int)),
            r.index() == lerp_ordinal(self.index(), other.index(), t as int),
    {
        proof {
            lemma_lerp_ordinal_bounds(self.index(), other.index(), t as int);
        }
        Self::from_ordinal(lerp_ordinal_fixed(self.ordinal(), other.ordinal(), t))
    }

    /// An arrangement drawn uniformly.
    pub fn random() -> (r: Self) {
        Self::from_ordinal(random_between(0, 2) as u32)
    }
}

/// What an agent does at the edge of the simulation square.
#[derive(Clone, Copy, Debug, PartialEq, Eq, Structural)]
pub enum WallStrategy {
    NoWall,
    Wrap,
    Bounce,
    BounceRandom,
    SlowAndReverse,
}

impl WallStrategy {
    /// The ordinal of the strategy.
    pub open spec fn index(self) -> int {
        match self {
            WallStrategy::NoWall => 0,
            WallStrategy::Wrap => 1,
            WallStrategy::Bounce => 2,
            WallStrategy::BounceRandom => 3,
            WallStrategy::SlowAndReverse => 4,
        }
    }

    /// The strategy with ordinal `n`, for `n` in `0..5`.
    pub open spec fn from_index(n: int) -> Self {
        if n == 0 {
            WallStrategy::NoWall
        } else if n == 1 {
            WallStrategy::Wrap
        } else if n == 2 {
            WallStrategy::Bounce
        } else if n == 3 {
            WallStrategy::BounceRandom
        } else {
            WallStrategy::SlowAndReverse
        }
    }

    pub fn ordinal(&self) -> (r: u32)
        ensures
            r == self.index(),
    {
        match self {
            WallStrategy::NoWall => 0,
            WallStrategy::Wrap => 1,
            WallStrategy::Bounce => 2,
            WallStrategy::BounceRandom => 3,
            WallStrategy::SlowAndReverse => 4,
        }
    }

    pub fn from_ordinal(n: u32) -> (r: Self)
        requires
            n < 5,
        ensures
            r == Self::from_index(n as int),
            r.index() == n,
    {
        match n {
            0 => WallStrategy::NoWall,
            1 => WallStrategy::Wrap,
            2 => WallStrategy::Bounce,
            3 => WallStrategy::BounceRandom,
            _ => WallStrategy::SlowAndReverse,
        }
    }

    /// Interpolates the ordinals and rounds to the nearest strategy.
    pub fn lerp(self, other: Self, t: i64) -> (r: Self)
        requires
            0 <= t <= UNIT,
        ensures
            r == Self::from_index(lerp_ordinal(self.index(), other.index(), t as int)),
            r.index() == lerp_ordinal(self.index(), other.index(), t as int),
    {
        proof {
            lemma_lerp_ordinal_bounds(self.index(), other.index(), t as int);
        }
        Self::from_ordinal(lerp_ordinal_fixed(self.ordinal(), other.ordinal(), t))
    }

    /// A strategy drawn uniformly from those with a wall (`NoWall` is never drawn).
    pub fn random() -> (r: Self)
        ensures
            r != WallStrategy::NoWall,
    {
        Self::from_ordinal(random_between(1, 4) as u32)
    }
}

/// How an agent's emitted colour is chosen.
#[derive(Clone, Copy, Debug, PartialEq, Eq, Structural)]
pub enum ColorStrategy {
    Direction,
    Speed,
    Position,
    Grey,
    Hue,
    Distance,
    Time,
}

impl ColorStrategy {
    /// The ordinal of the strategy.
    pub open spec fn index(self) -> int {
        match self {
            ColorStrategy::Direction => 0,
            ColorStrategy::Speed => 1,
            ColorStrategy::Position => 2,
            ColorStrategy::Grey => 3,
            ColorStrategy::Hue => 4,
            ColorStrategy::Distance => 5,
            ColorStrategy::Time => 6,
        }
    }

    /// The strategy with ordinal `n`, for `n` in `0..7`.
    pub open spec fn from_index(n: int) -> Self {
        if n == 0 {
            ColorStrategy::Direction
        } else if n == 1 {
            ColorStrategy::Speed
        } else if n == 2 {
            ColorStrategy::Position
        } else if n == 3 {
            ColorStrategy::Grey
        } else if n == 4 {
            ColorStrategy::Hue
        } else if n == 5 {
            ColorStrategy::Distance
        } else {
            ColorStrategy::Time
        }
    }

    pub fn ordinal(&self) -> (r: u32)
        ensures
            r == self.index(),
    {
        match self {
            ColorStrategy::Direction => 0,
            ColorStrategy::Speed => 1,
            ColorStrategy::Position => 2,
            ColorStrategy::Grey => 3,
            ColorStrategy::Hue => 4,
            ColorStrategy::Distance => 5,
            ColorStrategy::Time => 6,
        }
    }

    pub fn from_ordinal(n: u32) -> (r: Self)
        requires
            n < 7,
        ensures
            r == Self::from_index(n as int),
            r.index() == n,
    {
        match n {
            0 => ColorStrategy::Direction,
            1 => ColorStrategy::Speed,
            2 => ColorStrategy::Position,
            3 => ColorStrategy::Grey,
            4 => ColorStrategy::Hue,
            5 => ColorStrategy::Distance,
            _ => ColorStrategy::Time,
        }
    }

    /// Interpolates the ordinals and rounds to the nearest strategy.
    pub fn lerp(self, other: Self, t: i64) -> (r: Self)
        requires
            0 <= t <= UNIT,
        ensures
            r == Self::from_index(lerp_ordinal(self.index(), other.index(), t as int)),
            r.index() == lerp_ordinal(self.index(), other.index(), t as int),
    {
        proof {
            lemma_lerp_ordinal_bounds(self.index(), other.index(), t as int);
        }
        Self::from_ordinal(lerp_ordinal_fixed(self.ordinal(), other.ordinal(), t))
    }

    /// A strategy drawn uniformly.
    pub fn random() -> (r: Self) {
        Self::from_ordinal(random_between(0, 6) as u32)
    }
}

/// The named configurations of the factory table.
#[derive(Clone, Copy, Debug, PartialEq, Eq, Structural)]
pub enum PresetName {
    GreenSlime,
    CollapsingBubble,
    SlimeRing,
    ShiftingWeb,
    Waves,
    Flower,
    ChristmasChaos,
    Explode,
    Tartan,
    Globe,
}

impl PresetName {
    /// The name selected by a number key or pad: `1` to `9` pick the first nine names in
    /// order, any other value picks `Globe`.
    pub open spec fn for_number(value: u32) -> Self {
        if value == 1 {
            PresetName::GreenSlime
        } else if value == 2 {
            PresetName::CollapsingBubble
        } else if value == 3 {
            PresetName::SlimeRing
        } else if value == 4 {
            PresetName::ShiftingWeb
        } else if value == 5 {
            PresetName::Waves
        } else if value == 6 {
            PresetName::Flower
        } else if value == 7 {
            PresetName::ChristmasChaos
        } else if value == 8 {
            PresetName::Explode
        } else if value == 9 {
            PresetName::Tartan
        } else {
            PresetName::Globe
        }
    }

    pub fn from_u32(value: u32) -> (r: PresetName)
        ensures
            r == Self::for_number(value),
    {
        match value {
            1 => PresetName::GreenSlime,
            2 => PresetName::CollapsingBubble,
            3 => PresetName::SlimeRing,
            4 => PresetName::ShiftingWeb,
            5 => PresetName::Waves,
            6 => PresetName::Flower,
            7 => PresetName::ChristmasChaos,
            8 => PresetName::Explode,
            9 => PresetName::Tartan,
            _ => PresetName::Globe,
        }
    }
}

/// An agent count `n` of the form `2^k` with `POINTS_LOG2_MIN <= k <= POINTS_LOG2_MAX`.
pub open spec fn valid_point_count(n: u32) -> bool {
    exists|k: nat| POINTS_LOG2_MIN <= k <= POINTS_LOG2_MAX && n == pow2(k)
}

/// The parameters that apply only when the agents are (re)seeded.
#[derive(Clone, Copy, Debug, PartialEq, Eq, Structural)]
pub struct InitialParameters {
    /// Number of agents; never interpolated.
    pub number_of_points: u32,
    pub starting_arrangement: StartingArrangement,
    pub average_starting_speed: i64,
    pub starting_speed_spread: i64,
}

impl InitialParameters {
    /// Every field lies in its documented range.
    pub open spec fn valid(self) -> bool {
        &&& valid_point_count(self.number_of_points)
        &&& 0 <= self.average_starting_speed <= AVERAGE_SPEED_MAX
        &&& 0 <= self.starting_speed_spread <= SPEED_SPREAD_MAX
    }

    /// Field-wise interpolation toward `other`; the agent count stays `self`'s.
    pub open spec fn interpolated(self, other: Self, t: int) -> Self {
        InitialParameters {
            number_of_points: self.number_of_points,
            starting_arrangement: StartingArrangement::from_index(
                lerp_ordinal(self.starting_arrangement.index(), other.starting_arrangement.index(), t),
            ),
            average_starting_speed: lerp_value(
                self.average_starting_speed as int,
                other.average_starting_speed as int,
                t,
            ) as i64,
            starting_speed_spread: lerp_value(
                self.starting_speed_spread as int,
                other.starting_speed_spread as int,
                t,
            ) as i64,
        }
    }

    pub fn lerp(self, other: Self, t: i64) -> (r: Self)
        requires
            0 <= t <= UNIT,
        ensures
            r == self.interpolated(other, t as int),
    {
        InitialParameters {
            number_of_points: self.number_of_points,
            starting_arrangement: self.starting_arrangement.lerp(other.starting_arrangement, t),
            average_starting_speed: lerp_fixed(
                self.average_starting_speed,
                other.average_starting_speed,
                t,
            ),
            starting_speed_spread: lerp_fixed(
                self.starting_speed_spread,
                other.starting_speed_spread,
                t,
            ),
        }
    }

    /// Parameters drawn uniformly: `2^k` agents with `k` in
    /// `SAMPLED_POINTS_LOG2_MIN..=POINTS_LOG2_MAX`, and each other field in its range.
    pub fn random() -> (r: Self)
        ensures
            r.valid(),
            exists|k: nat|
                SAMPLED_POINTS_LOG2_MIN <= k <= POINTS_LOG2_MAX && r.number_of_points == pow2(k),
    {
        let k = random_between(SAMPLED_POINTS_LOG2_MIN as i64, POINTS_LOG2_MAX as i64) as u32;
        let n = power_of_two(k);
        assert(SAMPLED_POINTS_LOG2_MIN <= k as nat <= POINTS_LOG2_MAX && n == pow2(k as nat));
        InitialParameters {
            number_of_points: n,
            starting_arrangement: StartingArrangement::random(),
            average_starting_speed: random_between(0, AVERAGE_SPEED_MAX),
            starting_speed_spread: random_between(0, SPEED_SPREAD_MAX),
        }
    }
}

/// A snapshot of every visual parameter of the simulation.
#[derive(Clone, Copy, Debug, PartialEq, Eq, Structural)]
pub struct Preset {
    pub initial_parameters: InitialParameters,
    pub speed_multiplier: i64,
    pub point_size: i64,
    pub random_steer_factor: i64,
    pub constant_steer_factor: i64,
    pub trail_strength: i64,
    pub search_radius: i64,
    pub wall_strategy: WallStrategy,
    pub color_strategy: ColorStrategy,
    pub fade_speed: i64,
    pub blurring: i64,
    /// The simulation time at which the snapshot was taken.
    pub u_time: i64,
}

impl Preset {
    /// Every field lies in its documented range.
    pub open spec fn valid(self) -> bool {
        &&& self.initial_parameters.valid()
        &&& 0 <= self.speed_multiplier <= SPEED_MULTIPLIER_MAX
        &&& 0 <= self.point_size <= POINT_SIZE_MAX
        &&& 0 <= self.random_steer_factor <= RANDOM_STEER_MAX
        &&& 0 <= self.constant_steer_factor <= CONSTANT_STEER_MAX
        &&& 0 <= self.trail_strength <= TRAIL_STRENGTH_MAX
        &&& 0 <= self.search_radius <= SEARCH_RADIUS_MAX
        &&& 0 <= self.fade_speed <= FADE_SPEED_MAX
        &&& 0 <= self.blurring <= BLURRING_MAX
    }

    /// The interpolation law: continuous fields (the time stamp included) move linearly,
    /// categorical fields interpolate their ordinals and round, and the agent count stays
    /// `self`'s.
    pub open spec fn interpolated(self, other: Self, t: int) -> Self {
        Preset {
            initial_parameters: self.initial_parameters.interpolated(other.initial_parameters, t),
            speed_multiplier: lerp_value(
                self.speed_multiplier as int,
                other.speed_multiplier as int,
                t,
            ) as i64,
            point_size: lerp_value(self.point_size as int, other.point_size as int, t) as i64,
            random_steer_factor: lerp_value(
                self.random_steer_factor as int,
                other.random_steer_factor as int,
                t,
            ) as i64,
            constant_steer_factor: lerp_value(
                self.constant_steer_factor as int,
                other.constant_steer_factor as int,
                t,
            ) as i64,
            trail_strength: lerp_value(
                self.trail_strength as int,
                other.trail_strength as int,
                t,
            ) as i64,
            search_radius: lerp_value(
                self.search_radius as int,
                other.search_radius as int,
                t,
            ) as i64,
            wall_strategy: WallStrategy::from_index(
                lerp_ordinal(self.wall_strategy.index(), other.wall_strategy.index(), t),
            ),
            color_strategy: ColorStrategy::from_index(
                lerp_ordinal(self.color_strategy.index(), other.color_strategy.index(), t),
            ),
            fade_speed: lerp_value(self.fade_speed as int, other.fade_speed as int, t) as i64,
            blurring: lerp_value(self.blurring as int, other.blurring as int, t) as i64,
            u_time: lerp_value(self.u_time as int, other.u_time as int, t) as i64,
        }
    }

    /// Interpolates toward `other` by the fraction `t / UNIT`.
    pub fn lerp(self, other: Self, t: i64) -> (r: Self)
        requires
            0 <= t <= UNIT,
        ensures
            r == self.interpolated(other, t as int),
    {
        Preset {
            initial_parameters: self.initial_parameters.lerp(other.initial_parameters, t),
            speed_multiplier: lerp_fixed(self.speed_multiplier, other.speed_multiplier, t),
            point_size: lerp_fixed(self.point_size, other.point_size, t),
            random_steer_factor: lerp_fixed(self.random_steer_factor, other.random_steer_factor, t),
            constant_steer_factor: lerp_fixed(
                self.constant_steer_factor,
                other.constant_steer_factor,
                t,
            ),
            trail_strength: lerp_fixed(self.trail_strength, other.trail_strength, t),
            search_radius: lerp_fixed(self.search_radius, other.search_radius, t),
            wall_strategy: self.wall_strategy.lerp(other.wall_strategy, t),
            color_strategy: self.color_strategy.lerp(other.color_strategy, t),
            fade_speed: lerp_fixed(self.fade_speed, other.fade_speed, t),
            blurring: lerp_fixed(self.blurring, other.blurring, t),
            u_time: lerp_fixed(self.u_time, other.u_time, t),
        }
    }
}

/// `x` lies in the closed range spanned by `a` and `b`, in either order.
pub open spec fn between(x: int, a: int, b: int) -> bool {
    (a <= x <= b) || (b <= x <= a)
}

impl Preset {
    /// Every continuous field and every categorical ordinal of `self` lies between the
    /// corresponding values of `a` and `b`.
    pub open spec fn lies_between(self, a: Preset, b: Preset) -> bool {
        let (s, ai, bi) = (self.initial_parameters, a.initial_parameters, b.initial_parameters);
        &&& between(
            s.starting_arrangement.index(),
            ai.starting_arrangement.index(),
            bi.starting_arrangement.index(),
        )
        &&& between(
            s.average_starting_speed as int,
            ai.average_starting_speed as int,
            bi.average_starting_speed as int,
        )
        &&& between(
            s.starting_speed_spread as int,
            ai.starting_speed_spread as int,
            bi.starting_speed_spread as int,
        )
        &&& between(
            self.speed_multiplier as int,
            a.speed_multiplier as int,
            b.speed_multiplier as int,
        )
        &&& between(self.point_size as int, a.point_size as int, b.point_size as int)
        &&& between(
            self.random_steer_factor as int,
            a.random_steer_factor as int,
            b.random_steer_factor as int,
        )
        &&& between(
            self.constant_steer_factor as int,
            a.constant_steer_factor as int,
            b.constant_steer_factor as int,
        )
        &&& between(self.trail_strength as int, a.trail_strength as int, b.trail_strength as int)
        &&& between(self.search_radius as int, a.search_radius as int, b.search_radius as int)
        &&& between(self.wall_strategy.index(), a.wall_strategy.index(), b.wall_strategy.index())
        &&& between(
            self.color_strategy.index(),
            a.color_strategy.index(),
            b.color_strategy.index(),
        )
        &&& between(self.fade_speed as int, a.fade_speed as int, b.fade_speed as int)
        &&& between(self.blurring as int, a.blurring as int, b.blurring as int)
        &&& between(self.u_time as int, a.u_time as int, b.u_time as int)
    }

    /// `self` with its agent count replaced by `n`.
    pub open spec fn with_point_count(self, n: u32) -> Preset {
        Preset {
            initial_parameters: InitialParameters { number_of_points: n, ..self.initial_parameters },
            ..self
        }
    }
}

/// Interpolating between two valid presets by a fraction in `[0, 1]` yields a valid
/// preset whose every continuous field and categorical ordinal lies between those of the
/// two end points.
pub proof fn lemma_lerp_stays_between(a: Preset, b: Preset, t: int)
    requires
        a.valid(),
        b.valid(),
        0 <= t <= UNIT,
    ensures
        a.interpolated(b, t).lies_between(a, b),
        a.interpolated(b, t).valid(),
{
    let (ai, bi) = (a.initial_parameters, b.initial_parameters);
    lemma_lerp_ordinal_bounds(
        ai.starting_arrangement.index(),
        bi.starting_arrangement.index(),
        t,
    );
    lemma_lerp_ordinal_bounds(a.wall_strategy.index(), b.wall_strategy.index(), t);
    lemma_lerp_ordinal_bounds(a.color_strategy.index(), b.color_strategy.index(), t);
    lemma_lerp_value_bounds(ai.average_starting_speed as int, bi.average_starting_speed as int, t);
    lemma_lerp_value_bounds(ai.starting_speed_spread as int, bi.starting_speed_spread as int, t);
    lemma_lerp_value_bounds(a.speed_multiplier as int, b.speed_multiplier as int, t);
    lemma_lerp_value_bounds(a.point_size as int, b.point_size as int, t);
    lemma_lerp_value_bounds(a.random_steer_factor as int, b.random_steer_factor as int, t);
    lemma_lerp_value_bounds(a.constant_steer_factor as int, b.constant_steer_factor as int, t);
    lemma_lerp_value_bounds(a.trail_strength as int, b.trail_strength as int, t);
    lemma_lerp_value_bounds(a.search_radius as int, b.search_radius as int, t);
    lemma_lerp_value_bounds(a.fade_speed as int, b.fade_speed as int, t);
    lemma_lerp_value_bounds(a.blurring as int, b.blurring as int, t);
    lemma_lerp_value_bounds(a.u_time as int, b.u_time as int, t);
}

/// Interpolating by `0` gives the first preset back, and by `1` gives the second one
/// with the first one's agent count.
pub proof fn lemma_lerp_end_points(a: Preset, b: Preset)
    ensures
        a.interpolated(b, 0) == a,
        a.interpolated(b, UNIT as int) == b.with_point_count(a.initial_parameters.number_of_points),
{
    let (ai, bi) = (a.initial_parameters, b.initial_parameters);
    lemma_lerp_ordinal_bounds(ai.starting_arrangement.index(), bi.starting_arrangement.index(), 0);
    lemma_lerp_ordinal_bounds(a.wall_strategy.index(), b.wall_strategy.index(), 0);
    lemma_lerp_ordinal_bounds(a.color_strategy.index(), b.color_strategy.index(), 0);
    lemma_lerp_ordinal_bounds(
        ai.starting_arrangement.index(),
        bi.starting_arrangement.index(),
        UNIT as int,
    );
    lemma_lerp_ordinal_bounds(a.wall_strategy.index(), b.wall_strategy.index(), UNIT as int);
    lemma_lerp_ordinal_bounds(a.color_strategy.index(), b.color_strategy.index(), UNIT as int);
    lemma_lerp_value_bounds(ai.average_starting_speed as int, bi.average_starting_speed as int, 0);
    lemma_lerp_value_bounds(ai.starting_speed_spread as int, bi.starting_speed_spread as int, 0);
    lemma_lerp_value_bounds(a.speed_multiplier as int, b.speed_multiplier as int, 0);
    lemma_lerp_value_bounds(a.point_size as int, b.point_size as int, 0);
    lemma_lerp_value_bounds(a.random_steer_factor as int, b.random_steer_factor as int, 0);
    lemma_lerp_value_bounds(a.constant_steer_factor as int, b.constant_steer_factor as int, 0);
    lemma_lerp_value_bounds(a.trail_strength as int, b.trail_strength as int, 0);
    lemma_lerp_value_bounds(a.search_radius as int, b.search_radius as int, 0);
    lemma_lerp_value_bounds(a.fade_speed as int, b.fade_speed as int, 0);
    lemma_lerp_value_bounds(a.blurring as int, b.blurring as int, 0);
    lemma_lerp_value_bounds(a.u_time as int, b.u_time as int, 0);
    let u = UNIT as int;
    lemma_lerp_value_bounds(ai.average_starting_speed as int, bi.average_starting_speed as int, u);
    lemma_lerp_value_bounds(ai.starting_speed_spread as int, bi.starting_speed_spread as int, u);
    lemma_lerp_value_bounds(a.speed_multiplier as int, b.speed_multiplier as int, u);
    lemma_lerp_value_bounds(a.point_size as int, b.point_size as int, u);
    lemma_lerp_value_bounds(a.random_steer_factor as int, b.random_steer_factor as int, u);
    lemma_lerp_value_bounds(a.constant_steer_factor as int, b.constant_steer_factor as int, u);
    lemma_lerp_value_bounds(a.trail_strength as int, b.trail_strength as int, u);
    lemma_lerp_value_bounds(a.search_radius as int, b.search_radius as int, u);
    lemma_lerp_value_bounds(a.fade_speed as int, b.fade_speed as int, u);
    lemma_lerp_value_bounds(a.blurring as int, b.blurring as int, u);
    lemma_lerp_value_bounds(a.u_time as int, b.u_time as int, u);
}

/// A factory preset taken at time `0`, with `2^points_log2` agents.
pub open spec fn factory_preset(
    points_log2: nat,
    arrangement: StartingArrangement,
    average_starting_speed: i64,
    starting_speed_spread: i64,
    speed_multiplier: i64,
    point_size: i64,
    random_steer_factor: i64,
    constant_steer_factor: i64,
    trail_strength: i64,
    search_radius: i64,
    wall_strategy: WallStrategy,
    color_strategy: ColorStrategy,
    fade_speed: i64,
    blurring: i64,
) -> Preset {
    Preset {
        initial_parameters: InitialParameters {
            number_of_points: pow2(points_log2) as u32,
            starting_arrangement: arrangement,
            average_starting_speed,
            starting_speed_spread,
        },
        speed_multiplier,
        point_size,
        random_steer_factor,
        constant_steer_factor,
        trail_strength,
        search_radius,
        wall_strategy,
        color_strategy,
        fade_speed,
        blurring,
        u_time: 0,
    }
}

fn factory(
    points_log2: u32,
    arrangement: StartingArrangement,
    average_starting_speed: i64,
    starting_speed_spread: i64,
    speed_multiplier: i64,
    point_size: i64,
    random_steer_factor: i64,
    constant_steer_factor: i64,
    trail_strength: i64,
    search_radius: i64,
    wall_strategy: WallStrategy,
    color_strategy: ColorStrategy,
    fade_speed: i64,
    blurring: i64,
) -> (r: Preset)
    requires
        POINTS_LOG2_MIN <= points_log2 <= POINTS_LOG2_MAX,
        0 <= average_starting_speed <= AVERAGE_SPEED_MAX,
        0 <= starting_speed_spread <= SPEED_SPREAD_MAX,
        0 <= speed_multiplier <= SPEED_MULTIPLIER_MAX,
        0 <= point_size <= POINT_SIZE_MAX,
        0 <= random_steer_factor <= RANDOM_STEER_MAX,
        0 <= constant_steer_factor <= CONSTANT_STEER_MAX,
        0 <= trail_strength <= TRAIL_STRENGTH_MAX,
        0 <= search_radius <= SEARCH_RADIUS_MAX,
        0 <= fade_speed <= FADE_SPEED_MAX,
        0 <= blurring <= BLURRING_MAX,
    ensures
        r == factory_preset(
            points_log2 as nat,
            arrangement,
            average_starting_speed,
            starting_speed_spread,
            speed_multiplier,
            point_size,
            random_steer_factor,
            constant_steer_factor,
            trail_strength,
            search_radius,
            wall_strategy,
            color_strategy,
            fade_speed,
            blurring,
        ),
        r.valid(),
{
    let n = power_of_two(points_log2);
    assert(valid_point_count(n)) by {
        assert(POINTS_LOG2_MIN <= points_log2 as nat <= POINTS_LOG2_MAX && n == pow2(
            points_log2 as nat,
        ));
    }
    Preset {
        initial_parameters: InitialParameters {
            number_of_points: n,
            starting_arrangement: arrangement,
            average_starting_speed,
            starting_speed_spread,
        },
        speed_multiplier,
        point_size,
        random_steer_factor,
        constant_steer_factor,
        trail_strength,
        search_radius,
        wall_strategy,
        color_strategy,
        fade_speed,
        blurring,
        u_time: 0,
    }
}

impl Preset {
    /// The factory table.
    pub open spec fn named(name: PresetName) -> Preset {
        match name {
            PresetName::GreenSlime => factory_preset(20, Origin, 0, 300_000, 1_000_000,
                1_000_000, 100_000, 100_000, 10_000, 10_000, WallStrategy::Bounce,
                ColorStrategy::Hue, 10_000, 1_000_000),
            PresetName::CollapsingBubble => factory_preset(13, Ring, 500_000, 100_000,
                1_000_000, 1_500_000, 100_000, 500_000, 200_000, 100_000, WallStrategy::Wrap,
                ColorStrategy::Direction, 5_000, 1_000_000),
            PresetName::SlimeRing => factory_preset(20, Ring, 100_000, 100_000, 1_000_000,
                1_000_000, 100_000, 400_000, 200_000, 10_000, WallStrategy::Wrap,
                ColorStrategy::Grey, 50_000, 1_000_000),
            PresetName::ShiftingWeb => factory_preset(18, Ring, 1_000_000, 100_000, 1_000_000,
                1_000_000, 100_000, 450_000, 200_000, 50_000, WallStrategy::Wrap,
                ColorStrategy::Position, 70_000, 1_000_000),
            PresetName::Waves => factory_preset(18, Origin, 1_000_000, 0, 1_000_000, 1_000_000,
                40_000, 70_000, 100_000, 10_000, WallStrategy::Bounce, ColorStrategy::Direction,
                40_000, 1_000_000),
            PresetName::Flower => factory_preset(14, Origin, 0, 800_000, 1_000_000, 1_000_000,
                20_000, 40_000, 500_000, 100_000, WallStrategy::Bounce, ColorStrategy::Direction,
                20_000, 1_000_000),
            PresetName::ChristmasChaos => factory_preset(12, Random, 900_000, 0, 1_000_000,
                3_000_000, 100_000, 4_000_000, 200_000, 100_000, WallStrategy::Wrap,
                ColorStrategy::Direction, 20_000, 1_000_000),
            PresetName::Explode => factory_preset(18, Origin, 400_000, 300_000, 1_000_000,
                2_000_000, 50_000, 100_000, 200_000, 100_000, WallStrategy::NoWall,
                ColorStrategy::Grey, 0, 0),
            PresetName::Tartan => factory_preset(18, Origin, 800_000, 100_000, 1_000_000,
                1_000_000, 50_000, 10_000, 10_000, 100_000, WallStrategy::Wrap,
                ColorStrategy::Direction, 10_000, 1_000_000),
            PresetName::Globe => factory_preset(16, Ring, 0, 300_000, 1_000_000, 1_000_000,
                5_000, 0, 200_000, 10_000, WallStrategy::Bounce, ColorStrategy::Grey, 5_000,
                1_000_000),
        }
    }

    /// The factory preset of the given name.
    pub fn new(preset_name: PresetName) -> (r: Preset)
        ensures
            r == Preset::named(preset_name),
            r.valid(),
    {
        match preset_name {
            PresetName::GreenSlime => factory(20, Origin, 0, 300_000, 1_000_000, 1_000_000,
                100_000, 100_000, 10_000, 10_000, WallStrategy::Bounce, ColorStrategy::Hue,
                10_000, 1_000_000),
            PresetName::CollapsingBubble => factory(13, Ring, 500_000, 100_000, 1_000_000,
                1_500_000, 100_000, 500_000, 200_000, 100_000, WallStrategy::Wrap,
                ColorStrategy::Direction, 5_000, 1_000_000),
            PresetName::SlimeRing => factory(20, Ring, 100_000, 100_000, 1_000_000, 1_000_000,
                100_000, 400_000, 200_000, 10_000, WallStrategy::Wrap, ColorStrategy::Grey,
                50_000, 1_000_000),
            PresetName::ShiftingWeb => factory(18, Ring, 1_000_000, 100_000, 1_000_000,
                1_000_000, 100_000, 450_000, 200_000, 50_000, WallStrategy::Wrap,
                ColorStrategy::Position, 70_000, 1_000_000),
            PresetName::Waves => factory(18, Origin, 1_000_000, 0, 1_000_000, 1_000_000, 40_000,
                70_000, 100_000, 10_000, WallStrategy::Bounce, ColorStrategy::Direction, 40_000,
                1_000_000),
            PresetName::Flower => factory(14, Origin, 0, 800_000, 1_000_000, 1_000_000, 20_000,
                40_000, 500_000, 100_000, WallStrategy::Bounce, ColorStrategy::Direction, 20_000,
                1_000_000),
            PresetName::ChristmasChaos => factory(12, Random, 900_000, 0, 1_000_000, 3_000_000,
                100_000, 4_000_000, 200_000, 100_000, WallStrategy::Wrap,
                ColorStrategy::Direction, 20_000, 1_000_000),
            PresetName::Explode => factory(18, Origin, 400_000, 300_000, 1_000_000, 2_000_000,
                50_000, 100_000, 200_000, 100_000, WallStrategy::NoWall, ColorStrategy::Grey, 0,
                0),
            PresetName::Tartan => factory(18, Origin, 800_000, 100_000, 1_000_000, 1_000_000,
                50_000, 10_000, 10_000, 100_000, WallStrategy::Wrap, ColorStrategy::Direction,
                10_000, 1_000_000),
            PresetName::Globe => factory(16, Ring, 0, 300_000, 1_000_000, 1_000_000, 5_000, 0,
                200_000, 10_000, WallStrategy::Bounce, ColorStrategy::Grey, 5_000, 1_000_000),
        }
    }

    /// A preset drawn uniformly: each continuous field from its range, each categorical
    /// field from its ordinals (the wall strategy never `NoWall`), taken at time `0`.
    pub fn random() -> (r: Preset)
        ensures
            r.valid(),
            exists|k: nat|
                SAMPLED_POINTS_LOG2_MIN <= k <= POINTS_LOG2_MAX
                    && r.initial_parameters.number_of_points == pow2(k),
            r.u_time == 0,
            r.wall_strategy != WallStrategy::NoWall,
    {
        Preset {
            initial_parameters: InitialParameters::random(),
            speed_multiplier: random_between(0, SPEED_MULTIPLIER_MAX),
            point_size: random_between(0, POINT_SIZE_MAX),
            random_steer_factor: random_between(0, RANDOM_STEER_MAX),
            constant_steer_factor: random_between(0, CONSTANT_STEER_MAX),
            trail_strength: random_between(0, TRAIL_STRENGTH_MAX),
            search_radius: random_between(0, SEARCH_RADIUS_MAX),
            wall_strategy: WallStrategy::random(),
            color_strategy: ColorStrategy::random(),
            fade_speed: random_between(0, FADE_SPEED_MAX),
            blurring: random_between(0, BLURRING_MAX),
            u_time: 0,
        }
    }
}

/// One step of the random walk of a field with range `[lo, hi]`: after `dt` time units
/// the value moves by `draw * dt * (hi / 2)` (all read as fractions of `UNIT`), rounded
/// toward zero, and is clamped back into the range.
pub open spec fn walk_value(x: int, dt: int, lo: int, hi: int, draw: int) -> int {
    clamp_value(x + div_toward_zero(draw * dt * hi, 2 * UNIT * UNIT), lo, hi)
}

/// The number of continuous fields that the random walk moves.
pub const WALK_FIELDS: usize = 8;

/// Draws for the random walk: one per continuous field, each in `[-UNIT, UNIT]`.
pub open spec fn walk_draws_ok(draws: Seq<i64>) -> bool {
    &&& draws.len() == WALK_FIELDS
    &&& forall|i: int| 0 <= i < WALK_FIELDS ==> -UNIT <= #[trigger] draws[i] <= UNIT
}

/// A bound on the magnitude of a difference of two time stamps.
pub open spec fn time_span() -> int {
    0x1_0000_0000_0000_0000
}

/// The magnitude of a walk step's numerator, divided by `2 * UNIT * UNIT`, stays within
/// three time spans.
proof fn lemma_step_bound(n: int)
    requires
        0 <= n <= UNIT * time_span() * (5 * UNIT),
    ensures
        n / (2 * UNIT * UNIT) <= 3 * time_span(),
{
    let den = 2 * UNIT * UNIT;
    let span = time_span();
    assert(UNIT * span * (5 * UNIT) <= (3 * span) * den) by (nonlinear_arith)
        requires
            span >= 0,
            den == 2 * UNIT * UNIT,
    ;
    vstd::arithmetic::div_mod::lemma_div_is_ordered(n, (3 * time_span()) * den, den);
    vstd::arithmetic::div_mod::lemma_div_by_multiple(3 * time_span(), den);
}

/// One field's random-walk step; the draw is supplied by the caller.
fn rand_clamp(input: i64, time_change: i128, min: i64, max: i64, draw: i64) -> (r: i64)
    requires
        -UNIT <= draw <= UNIT,
        -time_span() <= time_change <= time_span(),
        0 <= min <= max <= 5 * UNIT,
    ensures
        r == walk_value(input as int, time_change as int, min as int, max as int, draw as int),
{
    let d = draw as i128;
    let m = max as i128;
    assert(-UNIT * time_span() <= d * time_change <= UNIT * time_span()) by (nonlinear_arith)
        requires
            -UNIT <= d <= UNIT,
            -time_span() <= time_change <= time_span(),
    ;
    let dt = d * time_change;
    assert(-UNIT * time_span() * (5 * UNIT) <= dt * m <= UNIT * time_span() * (5 * UNIT))
        by (nonlinear_arith)
        requires
            -UNIT * time_span() <= dt <= UNIT * time_span(),
            0 <= m <= 5 * UNIT,
    ;
    let n = dt * m;
    let den: i128 = 2 * (UNIT as i128) * (UNIT as i128);
    let step: i128 = if n >= 0 {
        proof {
            lemma_step_bound(n as int);
        }
        n / den
    } else {
        proof {
            lemma_step_bound(-n);
        }
        -((-n) / den)
    };
    clamp_fixed(input as i128 + step, min, max)
}

impl Preset {
    /// The preset after one step of the random walk to time `u_time`, with `draws` for the
    /// continuous fields in declaration order.
    pub open spec fn walked(self, u_time: i64, draws: Seq<i64>) -> Preset {
        let dt = u_time - self.u_time;
        Preset {
            speed_multiplier: walk_value(
                self.speed_multiplier as int,
                dt,
                0,
                SPEED_MULTIPLIER_MAX as int,
                draws[0] as int,
            ) as i64,
            point_size: walk_value(
                self.point_size as int,
                dt,
                0,
                POINT_SIZE_MAX as int,
                draws[1] as int,
            ) as i64,
            random_steer_factor: walk_value(
                self.random_steer_factor as int,
                dt,
                0,
                RANDOM_STEER_MAX as int,
                draws[2] as int,
            ) as i64,
            constant_steer_factor: walk_value(
                self.constant_steer_factor as int,
                dt,
                0,
                CONSTANT_STEER_MAX as int,
                draws[3] as int,
            ) as i64,
            trail_strength: walk_value(
                self.trail_strength as int,
                dt,
                0,
                TRAIL_STRENGTH_MAX as int,
                draws[4] as int,
            ) as i64,
            search_radius: walk_value(
                self.search_radius as int,
                dt,
                0,
                SEARCH_RADIUS_MAX as int,
                draws[5] as int,
            ) as i64,
            fade_speed: walk_value(
                self.fade_speed as int,
                dt,
                0,
                FADE_SPEED_MAX as int,
                draws[6] as int,
            ) as i64,
            blurring: walk_value(
                self.blurring as int,
                dt,
                0,
                BLURRING_MAX as int,
                draws[7] as int,
            ) as i64,
            u_time,
            ..self
        }
    }

    /// One step of the random walk to time `u_time`, with the given draws.
    pub fn update_with(&mut self, u_time: i64, draws: &Vec<i64>)
        requires
            walk_draws_ok(draws@),
        ensures
            *final(self) == old(self).walked(u_time, draws@),
    {
        let dt: i128 = u_time as i128 - self.u_time as i128;
        self.speed_multiplier = rand_clamp(
            self.speed_multiplier,
            dt,
            0,
            SPEED_MULTIPLIER_MAX,
            draws[0],
        );
        self.point_size = rand_clamp(self.point_size, dt, 0, POINT_SIZE_MAX, draws[1]);
        self.random_steer_factor = rand_clamp(
            self.random_steer_factor,
            dt,
            0,
            RANDOM_STEER_MAX,
            draws[2],
        );
        self.constant_steer_factor = rand_clamp(
            self.constant_steer_factor,
            dt,
            0,
            CONSTANT_STEER_MAX,
            draws[3],
        );
        self.trail_strength = rand_clamp(self.trail_strength, dt, 0, TRAIL_STRENGTH_MAX, draws[4]);
        self.search_radius = rand_clamp(self.search_radius, dt, 0, SEARCH_RADIUS_MAX, draws[5]);
        self.fade_speed = rand_clamp(self.fade_speed, dt, 0, FADE_SPEED_MAX, draws[6]);
        self.blurring = rand_clamp(self.blurring, dt, 0, BLURRING_MAX, draws[7]);
        self.u_time = u_time;
    }

    /// One step of the random walk to time `u_time`, with draws taken uniformly from
    /// `[-UNIT, UNIT]`.
    pub fn update(&mut self, u_time: i64)
        ensures
            exists|draws: Seq<i64>|
                walk_draws_ok(draws) && *final(self) == old(self).walked(u_time, draws),
    {
        let mut draws: Vec<i64> = Vec::new();
        let mut i: usize = 0;
        while i < WALK_FIELDS
            invariant
                i <= WALK_FIELDS,
                draws@.len() == i,
                forall|j: int| 0 <= j < i ==> -UNIT <= #[trigger] draws@[j] <= UNIT,
            decreases WALK_FIELDS - i,
        {
            draws.push(random_between(-UNIT, UNIT));
            i = i + 1;
        }
        self.update_with(u_time, &draws);
        assert(walk_draws_ok(draws@));
    }
}

/// A walk step that takes no time leaves a valid preset unchanged.
pub proof fn lemma_walk_without_elapsed_time(p: Preset, draws: Seq<i64>)
    requires
        p.valid(),
        walk_draws_ok(draws),
    ensures
        p.walked(p.u_time, draws) == p,
{
}

/// After a walk step, whatever time passed and whatever was drawn, every continuous field
/// lies in its range, so a preset with valid initial parameters comes out valid.
pub proof fn lemma_walk_stays_in_range(p: Preset, u_time: i64, draws: Seq<i64>)
    requires
        p.initial_parameters.valid(),
    ensures
        p.walked(u_time, draws).valid(),
{
}

} // verus!
