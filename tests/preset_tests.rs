use slime_mould::fixed::{lerp_fixed, UNIT};
use slime_mould::preset::{
    power_of_two, ColorStrategy, InitialParameters, Preset, PresetName, StartingArrangement,
    WallStrategy,
};

fn between(x: i64, a: i64, b: i64) -> bool {
    (a <= x && x <= b) || (b <= x && x <= a)
}

fn continuous(p: &Preset) -> Vec<i64> {
    vec![
        p.initial_parameters.average_starting_speed,
        p.initial_parameters.starting_speed_spread,
        p.speed_multiplier,
        p.point_size,
        p.random_steer_factor,
        p.constant_steer_factor,
        p.trail_strength,
        p.search_radius,
        p.fade_speed,
        p.blurring,
        p.u_time,
    ]
}

fn all_names() -> Vec<PresetName> {
    (1..=10).map(PresetName::from_u32).collect()
}

#[test]
fn lerp_stays_between_end_points() {
    for a in all_names() {
        for b in all_names() {
            let pa = Preset::new(a);
            let pb = Preset::new(b);
            for t in [0, 1, 250_000, 499_999, 500_000, 777_777, UNIT] {
                let r = pa.lerp(pb, t);
                for ((x, va), vb) in continuous(&r)
                    .into_iter()
                    .zip(continuous(&pa))
                    .zip(continuous(&pb))
                {
                    assert!(between(x, va, vb), "{x} not between {va} and {vb}");
                }
                assert!(between(
                    r.wall_strategy.ordinal() as i64,
                    pa.wall_strategy.ordinal() as i64,
                    pb.wall_strategy.ordinal() as i64
                ));
                assert!(between(
                    r.color_strategy.ordinal() as i64,
                    pa.color_strategy.ordinal() as i64,
                    pb.color_strategy.ordinal() as i64
                ));
                assert_eq!(
                    r.initial_parameters.number_of_points,
                    pa.initial_parameters.number_of_points
                );
            }
        }
    }
}

#[test]
fn lerp_end_points_give_the_presets_back() {
    let a = Preset::new(PresetName::GreenSlime);
    let b = Preset::new(PresetName::Explode);
    assert_eq!(a.lerp(b, 0), a);
    let mut expected = b;
    expected.initial_parameters.number_of_points = a.initial_parameters.number_of_points;
    assert_eq!(a.lerp(b, UNIT), expected);
    assert_ne!(
        a.initial_parameters.number_of_points,
        b.initial_parameters.number_of_points
    );
}

#[test]
fn lerp_interpolates_time_stamp() {
    let mut a = Preset::new(PresetName::Waves);
    let mut b = Preset::new(PresetName::Waves);
    a.u_time = 1_000_000;
    b.u_time = 3_000_000;
    assert_eq!(a.lerp(b, 500_000).u_time, 2_000_000);
}

#[test]
fn categorical_lerp_rounds_to_nearest() {
    let a = WallStrategy::NoWall;
    let b = WallStrategy::SlowAndReverse;
    assert_eq!(a.lerp(b, 0), WallStrategy::NoWall);
    assert_eq!(a.lerp(b, 374_999), WallStrategy::Wrap);
    assert_eq!(a.lerp(b, 375_000), WallStrategy::Bounce);
    assert_eq!(a.lerp(b, 500_000), WallStrategy::Bounce);
    assert_eq!(a.lerp(b, 625_000), WallStrategy::BounceRandom);
    assert_eq!(a.lerp(b, UNIT), WallStrategy::SlowAndReverse);
    assert_eq!(b.lerp(a, 500_000), WallStrategy::Bounce);
    assert_eq!(b.lerp(a, 875_000), WallStrategy::Wrap);
    assert_eq!(
        ColorStrategy::Direction.lerp(ColorStrategy::Time, 500_000),
        ColorStrategy::Grey
    );
    assert_eq!(
        StartingArrangement::Origin.lerp(StartingArrangement::Ring, 250_000),
        StartingArrangement::Random
    );
    assert_eq!(
        StartingArrangement::Ring.lerp(StartingArrangement::Origin, 249_999),
        StartingArrangement::Ring
    );
}

#[test]
fn ordinals_round_trip() {
    for n in 0..5 {
        assert_eq!(WallStrategy::from_ordinal(n).ordinal(), n);
    }
    for n in 0..7 {
        assert_eq!(ColorStrategy::from_ordinal(n).ordinal(), n);
    }
    for n in 0..3 {
        assert_eq!(StartingArrangement::from_ordinal(n).ordinal(), n);
    }
    assert_eq!(ColorStrategy::from_ordinal(4), ColorStrategy::Hue);
}

#[test]
fn lerp_of_values_is_exact() {
    assert_eq!(lerp_fixed(0, 1_000_000, 250_000), 250_000);
    assert_eq!(lerp_fixed(1_000_000, 0, 333_333), 666_667);
    assert_eq!(lerp_fixed(10, 13, 500_000), 11);
    assert_eq!(lerp_fixed(13, 10, 500_000), 12);
    assert_eq!(lerp_fixed(-5, 5, UNIT), 5);
    assert_eq!(lerp_fixed(i64::MIN, i64::MAX, UNIT), i64::MAX);
    assert_eq!(lerp_fixed(i64::MAX, i64::MIN, 0), i64::MAX);
}

#[test]
fn preset_name_from_number() {
    assert_eq!(PresetName::from_u32(1), PresetName::GreenSlime);
    assert_eq!(PresetName::from_u32(2), PresetName::CollapsingBubble);
    assert_eq!(PresetName::from_u32(7), PresetName::ChristmasChaos);
    assert_eq!(PresetName::from_u32(9), PresetName::Tartan);
    assert_eq!(PresetName::from_u32(0), PresetName::Globe);
    assert_eq!(PresetName::from_u32(10), PresetName::Globe);
    assert_eq!(PresetName::from_u32(u32::MAX), PresetName::Globe);
}

#[test]
fn factory_table_values() {
    let p = Preset::new(PresetName::GreenSlime);
    assert_eq!(p.initial_parameters.number_of_points, 1 << 20);
    assert_eq!(
        p.initial_parameters.starting_arrangement,
        StartingArrangement::Origin
    );
    assert_eq!(p.initial_parameters.starting_speed_spread, 300_000);
    assert_eq!(p.wall_strategy, WallStrategy::Bounce);
    assert_eq!(p.color_strategy, ColorStrategy::Hue);
    assert_eq!(p.trail_strength, 10_000);
    assert_eq!(p.fade_speed, 10_000);
    assert_eq!(p.blurring, UNIT);
    assert_eq!(p.u_time, 0);

    let q = Preset::new(PresetName::ChristmasChaos);
    assert_eq!(q.initial_parameters.number_of_points, 1 << 12);
    assert_eq!(q.point_size, 3_000_000);
    assert_eq!(q.constant_steer_factor, 4_000_000);
    let e = Preset::new(PresetName::Explode);
    assert_eq!(e.wall_strategy, WallStrategy::NoWall);
    assert_eq!(e.fade_speed, 0);
    assert_eq!(e.blurring, 0);
    let g = Preset::new(PresetName::Globe);
    assert_eq!(g.initial_parameters.number_of_points, 1 << 16);
    assert_eq!(g.random_steer_factor, 5_000);
}

fn in_range(p: &Preset) -> bool {
    let ip = p.initial_parameters;
    let n = ip.number_of_points;
    n.is_power_of_two()
        && (1 << 10) <= n
        && n <= (1 << 20)
        && (0..=2_000_000).contains(&ip.average_starting_speed)
        && (0..=1_000_000).contains(&ip.starting_speed_spread)
        && (0..=2_000_000).contains(&p.speed_multiplier)
        && (0..=5_000_000).contains(&p.point_size)
        && (0..=100_000).contains(&p.random_steer_factor)
        && (0..=5_000_000).contains(&p.constant_steer_factor)
        && (0..=1_000_000).contains(&p.trail_strength)
        && (0..=100_000).contains(&p.search_radius)
        && (0..=100_000).contains(&p.fade_speed)
        && (0..=1_000_000).contains(&p.blurring)
}

#[test]
fn factory_presets_are_in_range() {
    for name in all_names() {
        assert!(in_range(&Preset::new(name)), "{name:?}");
    }
}

#[test]
fn random_presets_are_in_range() {
    for _ in 0..200 {
        let p = Preset::random();
        assert!(in_range(&p));
        assert!(p.initial_parameters.number_of_points >= 1 << 14);
        assert_ne!(p.wall_strategy, WallStrategy::NoWall);
        assert_eq!(p.u_time, 0);
        let ip = InitialParameters::random();
        assert!(ip.number_of_points.is_power_of_two());
    }
}

#[test]
fn random_presets_vary() {
    let first = Preset::random();
    assert!((0..50).any(|_| Preset::random() != first));
}

#[test]
fn powers_of_two() {
    assert_eq!(power_of_two(0), 1);
    assert_eq!(power_of_two(10), 1024);
    assert_eq!(power_of_two(20), 1 << 20);
    assert_eq!(power_of_two(31), 1 << 31);
}

#[test]
fn walk_without_elapsed_time_changes_nothing() {
    for name in all_names() {
        let p = Preset::new(name);
        for draw in [-UNIT, -3, 0, 77, UNIT] {
            let mut q = p;
            q.update_with(p.u_time, &vec![draw; 8]);
            assert_eq!(q, p);
        }
    }
}

#[test]
fn walk_moves_by_draw_time_and_half_range() {
    let mut p = Preset::new(PresetName::Waves);
    p.update_with(100_000, &vec![500_000, 0, 0, 0, 0, 0, 0, -1_000_000]);
    // speed_multiplier: 1.0 + 0.5 * 0.1 * (2.0 / 2)
    assert_eq!(p.speed_multiplier, 1_050_000);
    // blurring: 1.0 - 1.0 * 0.1 * (1.0 / 2)
    assert_eq!(p.blurring, 950_000);
    assert_eq!(p.point_size, 1_000_000);
    assert_eq!(p.u_time, 100_000);
}

#[test]
fn walk_clamps_into_range() {
    let base = Preset::new(PresetName::Flower);
    let mut up = base;
    up.update_with(1_000_000_000, &vec![UNIT; 8]);
    assert_eq!(up.speed_multiplier, 2_000_000);
    assert_eq!(up.point_size, 5_000_000);
    assert_eq!(up.random_steer_factor, 100_000);
    assert_eq!(up.constant_steer_factor, 5_000_000);
    assert_eq!(up.trail_strength, 1_000_000);
    assert_eq!(up.search_radius, 100_000);
    assert_eq!(up.fade_speed, 100_000);
    assert_eq!(up.blurring, 1_000_000);
    let mut down = base;
    down.update_with(i64::MIN, &vec![UNIT; 8]);
    assert!(continuous(&down)[2..10].iter().all(|v| *v == 0));
    assert_eq!(down.u_time, i64::MIN);
    assert_eq!(down.initial_parameters, base.initial_parameters);
    assert_eq!(down.wall_strategy, base.wall_strategy);
}

#[test]
fn random_walk_stays_in_range() {
    let mut p = Preset::new(PresetName::Tartan);
    for k in 1..200 {
        p.update(k * 300_000);
        assert!(in_range(&p));
        assert_eq!(p.u_time, k * 300_000);
    }
}
