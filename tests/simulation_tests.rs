use slime_mould::agent::{
    advance, advance_all, steer, steer_heading, wrap_coordinate, Agent, Steer, Turn, WRAP_EDGE,
};
use slime_mould::buffers::BufferPair;
use slime_mould::fixed::UNIT;
use slime_mould::preset::{
    ColorStrategy, InitialParameters, Preset, PresetName, StartingArrangement, WallStrategy,
};
use slime_mould::slime_mould::SlimeMould;
use slime_mould::trail::{accumulate, accumulate_texel, TrailField, DECAY};

#[test]
fn steering_follows_precedence() {
    assert_eq!(steer(1, 2, 1), Steer::Straight);
    assert_eq!(steer(2, 1, 2), Steer::Randomize);
    assert_eq!(steer(1, 1, 2), Steer::TurnRight);
    assert_eq!(steer(1, 2, 2), Steer::TurnRight);
    assert_eq!(steer(2, 1, 1), Steer::TurnLeft);
    assert_eq!(steer(2, 2, 1), Steer::TurnLeft);
    assert_eq!(steer(1, 1, 1), Steer::Keep);
    assert_eq!(steer(3, 5, 3), Steer::Straight);
    assert_eq!(steer(3, 1, 3), Steer::Randomize);
}

#[test]
fn steering_turns_heading() {
    let a = Agent { x: 5, y: 6, hx: 10_000, hy: 0 };
    let quarter = Turn { cos: 0, sin: UNIT };
    let half = Turn { cos: -UNIT, sin: 0 };
    let left = steer_heading(a, Steer::TurnLeft, quarter, half);
    assert_eq!((left.x, left.y, left.hx, left.hy), (5, 6, 0, 10_000));
    let right = steer_heading(a, Steer::TurnRight, quarter, half);
    assert_eq!((right.hx, right.hy), (0, -10_000));
    let random = steer_heading(a, Steer::Randomize, quarter, half);
    assert_eq!((random.hx, random.hy), (-10_000, 0));
    assert_eq!(steer_heading(a, Steer::Straight, quarter, half), a);
    assert_eq!(steer_heading(a, Steer::Keep, quarter, half), a);
}

#[test]
fn wrap_moves_agent_to_opposite_edge() {
    let a = Agent { x: 995_000, y: 0, hx: 10_000, hy: 0 };
    let r = advance(a, WallStrategy::Wrap, UNIT, Turn::identity());
    assert_eq!(r.x, -990_000);
    assert_eq!(r.y, 0);
    assert_eq!((r.hx, r.hy), (10_000, 0));
    let b = Agent { x: -989_000, y: -985_000, hx: -2_000, hy: -3_000 };
    let r = advance(b, WallStrategy::Wrap, UNIT, Turn::identity());
    assert_eq!((r.x, r.y), (990_000, -988_000));
    assert_eq!(wrap_coordinate(990_000), 990_000);
    assert_eq!(wrap_coordinate(990_001), -990_000);
    assert_eq!(wrap_coordinate(-990_001), 990_000);
}

#[test]
fn bounce_flips_vertical_component_only() {
    let a = Agent { x: 0, y: 895_000, hx: 3_000, hy: 10_000 };
    let r = advance(a, WallStrategy::Bounce, UNIT, Turn::identity());
    assert_eq!((r.hx, r.hy), (3_000, -10_000));
    assert_eq!((r.x, r.y), (3_000, 885_000));
    let below = Agent { x: 0, y: -895_000, hx: 3_000, hy: -10_000 };
    let r = advance(below, WallStrategy::Bounce, UNIT, Turn::identity());
    assert_eq!((r.hx, r.hy), (3_000, 10_000));
}

#[test]
fn bounce_flips_horizontal_component_at_side_walls() {
    let a = Agent { x: 899_000, y: 0, hx: 2_000, hy: 5_000 };
    let r = advance(a, WallStrategy::Bounce, UNIT, Turn::identity());
    assert_eq!((r.hx, r.hy), (-2_000, 5_000));
    assert_eq!((r.x, r.y), (897_000, 5_000));
    let inside = Agent { x: 0, y: 0, hx: 2_000, hy: 5_000 };
    let r = advance(inside, WallStrategy::Bounce, UNIT, Turn::identity());
    assert_eq!(r, Agent { x: 2_000, y: 5_000, hx: 2_000, hy: 5_000 });
}

#[test]
fn random_bounce_adds_jitter_turn() {
    // A quarter turn as the jitter: mirrored (3000, -10000), then turned by -90 degrees.
    let a = Agent { x: 0, y: 895_000, hx: 3_000, hy: 10_000 };
    let r = advance(a, WallStrategy::BounceRandom, UNIT, Turn { cos: 0, sin: UNIT });
    assert_eq!((r.hx, r.hy), (-10_000, -3_000));
    let same = advance(a, WallStrategy::BounceRandom, UNIT, Turn::identity());
    assert_eq!(same, advance(a, WallStrategy::Bounce, UNIT, Turn::identity()));
}

#[test]
fn slow_and_reverse_slows_this_frame_only() {
    let a = Agent { x: 0, y: 745_000, hx: 4_000, hy: 10_000 };
    let r = advance(a, WallStrategy::SlowAndReverse, UNIT, Turn::identity());
    assert_eq!((r.hx, r.hy), (-4_000, 10_000));
    assert_eq!((r.x, r.y), (-3_000, 752_500));
}

#[test]
fn no_wall_moves_by_heading_times_multiplier() {
    let a = Agent { x: 990_000, y: 0, hx: 10_000, hy: -1_000 };
    let r = advance(a, WallStrategy::NoWall, 2 * UNIT, Turn::identity());
    assert_eq!(r, Agent { x: 1_010_000, y: -2_000, hx: 10_000, hy: -1_000 });
    let half = advance(a, WallStrategy::NoWall, UNIT / 2, Turn::identity());
    assert_eq!((half.x, half.y), (995_000, -500));
    let slow = Agent { x: 0, y: 0, hx: 1_000, hy: 0 };
    let r = advance(slow, WallStrategy::NoWall, 2 * UNIT, Turn::identity());
    assert_eq!((r.x, r.y), (2_000, 0));
}

#[test]
fn wrap_keeps_every_agent_inside_for_a_hundred_steps() {
    let preset = Preset {
        initial_parameters: InitialParameters {
            number_of_points: 1024,
            starting_arrangement: StartingArrangement::Origin,
            average_starting_speed: 2_000_000,
            starting_speed_spread: 1_000_000,
        },
        wall_strategy: WallStrategy::Wrap,
        color_strategy: ColorStrategy::Grey,
        speed_multiplier: 2_000_000,
        ..Preset::new(PresetName::Explode)
    };
    let n = preset.initial_parameters.number_of_points as usize;
    let mut agents: Vec<Agent> = (0..n)
        .map(|i| {
            let angle = i as f64 * std::f64::consts::TAU / n as f64 + std::f64::consts::FRAC_PI_2;
            let spread = (i % 7) as f64 / 7.0;
            // A speed of several frames' worth of the square, far above the factory ones.
            let speed = (spread * 0.05 + 0.05) * UNIT as f64;
            Agent {
                x: 0,
                y: 0,
                hx: (angle.cos() * speed) as i64,
                hy: (angle.sin() * speed) as i64,
            }
        })
        .collect();
    for _ in 0..100 {
        let before = agents.clone();
        advance_all(
            &mut agents,
            preset.wall_strategy,
            preset.speed_multiplier,
            Turn::identity(),
        );
        for (a, b) in agents.iter().zip(before.iter()) {
            assert!(-WRAP_EDGE <= a.x && a.x <= WRAP_EDGE);
            assert!(-WRAP_EDGE <= a.y && a.y <= WRAP_EDGE);
            assert_eq!((a.hx, a.hy), (b.hx, b.hy));
        }
    }
    assert!(agents.iter().any(|a| a.x != 0 || a.y != 0));
}

#[test]
fn accumulate_texel_formula() {
    // mixed = 1.0 * 0.5 + 0.5 * 0.5 = 0.75; faded = 0.75 * 0.9 = 0.675
    assert_eq!(accumulate_texel(0, UNIT, 500_000, 100_000, 500_000), 674_900);
    assert_eq!(accumulate_texel(200_000, 0, 0, 0, 0), 200_000 - DECAY);
    assert_eq!(accumulate_texel(0, -1_000, 0, 0, 0), -1_100);
}

fn field(width: usize, height: usize, values: Vec<i64>) -> TrailField {
    TrailField { width, height, values }
}

#[test]
fn white_trail_decays_every_frame() {
    let (w, h) = (4, 3);
    let fresh = TrailField::blank(w, h);
    assert!(fresh.values.iter().all(|v| *v == 0));
    let mut trail = field(w, h, vec![UNIT; w * h]);
    let mut total: i64 = trail.values.iter().sum();
    for frame in 1..=5 {
        trail = accumulate(&fresh, &trail, 0, 0);
        let now: i64 = trail.values.iter().sum();
        assert!(now < total);
        assert_eq!(now, total - (w * h) as i64 * DECAY);
        assert!(trail.values.iter().all(|v| *v == UNIT - frame * DECAY));
        total = now;
    }
}

#[test]
fn blur_wraps_around_edges() {
    let (w, h) = (4, 4);
    let mut values = vec![0; w * h];
    values[0] = 900;
    let previous = field(w, h, values);
    let fresh = TrailField::blank(w, h);
    let out = accumulate(&fresh, &previous, 0, UNIT);
    // (3, 3) and (1, 1) are neighbours of (0, 0) across the edges; (2, 2) is not.
    assert_eq!(out.values[3 * w + 3], 0);
    assert_eq!(out.values[w + 1], 0);
    assert_eq!(out.values[0], 0);
    assert_eq!(out.values[2 * w + 2], -DECAY);
    let unblurred = accumulate(&fresh, &previous, 0, 0);
    assert_eq!(unblurred.values[0], 900 - DECAY);
    assert_eq!(unblurred.values[w + 1], -DECAY);
}

#[test]
fn accumulate_adds_fresh_emission_and_fades() {
    let fresh = field(2, 1, vec![300_000, 0]);
    let previous = field(2, 1, vec![500_000, 500_000]);
    let out = accumulate(&fresh, &previous, 100_000, 0);
    assert_eq!(out.values, vec![300_000 + 450_000 - DECAY, 450_000 - DECAY]);
    assert_eq!((out.width, out.height), (2, 1));
}

#[test]
fn transition_samples_interpolation_then_target() {
    let first = Preset::new(PresetName::GreenSlime);
    let second = Preset::new(PresetName::Explode);
    let mut s = SlimeMould::new(first);
    s.transition_preset(second, 0, UNIT);
    assert_eq!(s.draw(500_000, 0).preset, first.lerp(second, 500_000));
    assert_eq!(s.draw(250_000, 700_000).preset, first.lerp(second, 250_000));
    assert_eq!(s.draw(-250_000, 0).preset, first.lerp(second, 250_000));
    assert_eq!(s.draw(1_500_000, 0).preset, second);
    assert_eq!(s.draw(UNIT, 0).preset, second);
    assert_eq!(s.get_preset(), second);
}

#[test]
fn zero_duration_switches_at_once() {
    let first = Preset::new(PresetName::Waves);
    let second = Preset::new(PresetName::Flower);
    let mut s = SlimeMould::new(first);
    s.transition_preset(second, 5_000_000, 0);
    assert_eq!(s.draw(5_000_000, 0).preset, second);
    s.set_preset(first);
    assert_eq!(s.draw(5_000_001, 0).preset, first);
}

#[test]
fn blend_fades_toward_secondary() {
    let first = Preset::new(PresetName::Waves);
    let second = Preset::new(PresetName::Globe);
    let mut s = SlimeMould::new(first);
    s.set_secondary_preset(second);
    assert_eq!(s.draw(0, 0).preset, first);
    assert_eq!(s.draw(0, 400_000).preset, first.lerp(second, 400_000));
    let full = s.draw(0, UNIT).preset;
    assert_eq!(full.wall_strategy, second.wall_strategy);
    assert_eq!(full.fade_speed, second.fade_speed);
    assert_eq!(
        full.initial_parameters.number_of_points,
        first.initial_parameters.number_of_points
    );
}

#[test]
fn deferred_effects_apply_once() {
    let first = Preset::new(PresetName::Tartan);
    let second = Preset::new(PresetName::SlimeRing);
    let mut s = SlimeMould::new(first);
    let plan = s.draw(0, 0);
    assert!(!plan.clear_textures);
    assert_eq!(plan.reset_points, None);
    s.clear();
    s.transition_preset(second, 0, UNIT);
    s.reset_points();
    let plan = s.draw(100_000, 0);
    assert!(plan.clear_textures);
    assert_eq!(plan.reset_points, Some(second.initial_parameters));
    assert_eq!(plan.preset, first.lerp(second, 100_000));
    let plan = s.draw(200_000, 0);
    assert!(!plan.clear_textures);
    assert_eq!(plan.reset_points, None);
}

#[test]
fn automation_walks_current_preset() {
    let first = Preset::new(PresetName::Tartan);
    let mut s = SlimeMould::new(first);
    s.update(2_000_000);
    assert_eq!(s.preset.u_time, 2_000_000);
    assert_eq!(s.preset.initial_parameters, first.initial_parameters);
    assert_eq!(s.secondary_preset, first);
}

#[test]
fn buffer_pair_swaps_roles() {
    let mut pair = BufferPair::new("a", "b");
    assert_eq!((*pair.current(), *pair.scratch()), ("a", "b"));
    pair.swap();
    assert_eq!((*pair.current(), *pair.scratch()), ("b", "a"));
    pair.swap();
    assert_eq!((*pair.current(), *pair.scratch()), ("a", "b"));
    pair.swap();
    pair.replace("c", "d");
    assert_eq!((*pair.current(), *pair.scratch()), ("c", "d"));
}
