//! The simulation orchestrator: which preset each frame is drawn with, timed transitions
//! between presets, the manual cross-fade, and the effects that wait for the next frame.
//!
//! The rendering back end owns the GPU passes and buffers; each frame it asks
//! [`SlimeMould::draw`] for a [`FramePlan`] and carries it out.

use crate::fixed::UNIT;
use crate::preset::{lemma_lerp_end_points, InitialParameters, Preset};
use vstd::prelude::*;

verus! {

/// `|now - start|`, the time elapsed since a transition began.
pub open spec fn elapsed(now: i64, start: i64) -> int {
    if now >= start {
        now - start
    } else {
        start - now
    }
}

/// What the back end does for one frame, in order: clear the trail textures if asked,
/// reseed the agents from the given parameters if any, then run both passes with `preset`.
#[derive(Clone, Copy, Debug, PartialEq, Eq, Structural)]
pub struct FramePlan {
    pub preset: Preset,
    pub clear_textures: bool,
    pub reset_points: Option<InitialParameters>,
}

/// The presets of a running simulation, the transition timer and the deferred effects.
pub struct SlimeMould {
    /// The preset that a transition starts from.
    pub old_preset: Preset,
    /// The current preset: the target of a transition, and what is drawn once it is over.
    pub preset: Preset,
    /// The preset that the manual blend fades toward.
    pub secondary_preset: Preset,
    /// When the last transition began.
    pub lerp_time: i64,
    /// How long the last transition lasts; `0` or less means none.
    pub lerp_length: i64,
    /// Both trail textures are to be cleared before the next frame.
    pub clear_textures_before_draw: bool,
    /// The agents are to be reseeded from `initial_parameters` before the next frame.
    pub reset_points_before_draw: bool,
    /// The parameters of the next reseeding.
    pub initial_parameters: InitialParameters,
}

impl SlimeMould {
    /// The preset drawn at `u_time` with the manual blend at `blend`: while a transition
    /// is running, the interpolation from the old preset toward the current one by the
    /// elapsed fraction; otherwise the current preset faded toward the secondary one.
    pub open spec fn effective_preset(self, u_time: i64, blend: i64) -> Preset {
        let e = elapsed(u_time, self.lerp_time);
        if e < self.lerp_length {
            self.old_preset.interpolated(self.preset, e * UNIT / (self.lerp_length as int))
        } else {
            self.preset.interpolated(self.secondary_preset, blend as int)
        }
    }

    /// The state after a transition toward `target` is started at `start` for `duration`.
    pub open spec fn transitioned(self, target: Preset, start: i64, duration: i64) -> Self {
        SlimeMould {
            old_preset: self.preset,
            preset: target,
            lerp_time: start,
            lerp_length: duration,
            ..self
        }
    }

    /// The state with both trail textures to be cleared before the next frame.
    pub open spec fn with_clear(self) -> Self {
        SlimeMould { clear_textures_before_draw: true, ..self }
    }

    /// The state with the agents to be reseeded from the current preset before the next
    /// frame.
    pub open spec fn with_reset(self) -> Self {
        SlimeMould {
            reset_points_before_draw: true,
            initial_parameters: self.preset.initial_parameters,
            ..self
        }
    }

    /// A simulation showing `preset`, with no transition and nothing pending.
    pub open spec fn new_spec(preset: Preset) -> Self {
        SlimeMould {
            old_preset: preset,
            preset,
            secondary_preset: preset,
            lerp_time: 0,
            lerp_length: 0,
            clear_textures_before_draw: false,
            reset_points_before_draw: false,
            initial_parameters: preset.initial_parameters,
        }
    }

    /// A simulation showing `preset`, with no transition and nothing pending.
    pub fn new(preset: Preset) -> (r: Self)
        ensures
            r == Self::new_spec(preset),
    {
        SlimeMould {
            old_preset: preset,
            preset,
            secondary_preset: preset,
            lerp_time: 0,
            lerp_length: 0,
            clear_textures_before_draw: false,
            reset_points_before_draw: false,
            initial_parameters: preset.initial_parameters,
        }
    }

    /// The plan for the frame at `u_time`; the pending effects are handed over and
    /// dropped from the state.
    pub fn draw(&mut self, u_time: i64, blend: i64) -> (plan: FramePlan)
        requires
            0 <= blend <= UNIT,
        ensures
            plan.preset == old(self).effective_preset(u_time, blend),
            plan.clear_textures == old(self).clear_textures_before_draw,
            plan.reset_points == (if old(self).reset_points_before_draw {
                Some(old(self).initial_parameters)
            } else {
                None
            }),
            *final(self) == (SlimeMould {
                clear_textures_before_draw: false,
                reset_points_before_draw: false,
                ..*old(self)
            }),
    {
        let clear_textures = self.clear_textures_before_draw;
        let reset_points = if self.reset_points_before_draw {
            Some(self.initial_parameters)
        } else {
            None
        };
        self.clear_textures_before_draw = false;
        self.reset_points_before_draw = false;

        let diff: i128 = u_time as i128 - self.lerp_time as i128;
        let lerp_now: i128 = if diff >= 0 {
            diff
        } else {
            -diff
        };
        let preset = if lerp_now < self.lerp_length as i128 {
            let length = self.lerp_length as i128;
            assert(0 <= lerp_now * UNIT <= length * UNIT) by (nonlinear_arith)
                requires
                    0 <= lerp_now < length,
            ;
            assert(length * UNIT <= 0x8000_0000_0000_0000 * UNIT) by (nonlinear_arith)
                requires
                    length <= 0x8000_0000_0000_0000,
            ;
            let t: i128 = lerp_now * (UNIT as i128) / length;
            proof {
                vstd::arithmetic::div_mod::lemma_div_is_ordered(lerp_now * UNIT, length * UNIT, length as int);
                vstd::arithmetic::div_mod::lemma_div_by_multiple(UNIT as int, length as int);
                vstd::arithmetic::div_mod::lemma_div_is_ordered(0, lerp_now * UNIT, length as int);
                vstd::arithmetic::mul::lemma_mul_is_commutative(length as int, UNIT as int);
            }
            self.old_preset.lerp(self.preset, t as i64)
        } else {
            self.preset.lerp(self.secondary_preset, blend)
        };
        FramePlan { preset, clear_textures, reset_points }
    }

    /// Starts a transition from the current preset toward `preset_to`, beginning at
    /// `u_time` and lasting `transition_length`.
    pub fn transition_preset(&mut self, preset_to: Preset, u_time: i64, transition_length: i64)
        ensures
            *final(self) == old(self).transitioned(preset_to, u_time, transition_length),
    {
        self.old_preset = self.preset;
        self.preset = preset_to;
        self.lerp_time = u_time;
        self.lerp_length = transition_length;
    }

    /// Switches to `preset` at once, ending any transition.
    pub fn set_preset(&mut self, preset: Preset)
        ensures
            *final(self) == (SlimeMould { preset, lerp_length: 0, ..*old(self) }),
    {
        self.preset = preset;
        self.lerp_length = 0;
    }

    /// Sets the preset that the manual blend fades toward.
    pub fn set_secondary_preset(&mut self, preset: Preset)
        ensures
            *final(self) == (SlimeMould { secondary_preset: preset, ..*old(self) }),
    {
        self.secondary_preset = preset;
    }

    /// The current preset.
    pub fn get_preset(&self) -> (r: Preset)
        ensures
            r == self.preset,
    {
        self.preset
    }

    /// Asks for both trail textures to be cleared before the next frame.
    pub fn clear(&mut self)
        ensures
            *final(self) == old(self).with_clear(),
    {
        self.clear_textures_before_draw = true;
    }

    /// Asks for the agents to be reseeded from the current preset's initial parameters
    /// before the next frame.
    pub fn reset_points(&mut self)
        ensures
            *final(self) == old(self).with_reset(),
    {
        self.reset_points_before_draw = true;
        self.initial_parameters = self.preset.initial_parameters;
    }

    /// Moves the current preset one random-walk step to time `u_time`.
    pub fn update(&mut self, u_time: i64)
        ensures
            exists|draws: Seq<i64>|
                crate::preset::walk_draws_ok(draws) && final(self).preset == old(
                    self,
                ).preset.walked(u_time, draws),
            *final(self) == (SlimeMould { preset: final(self).preset, ..*old(self) }),
    {
        self.preset.update(u_time);
    }
}

/// After a transition toward `target` starts at `start` and lasts `duration > 0`, the
/// preset drawn at a time less than `duration` away from `start` is the interpolation
/// from the previous current preset toward `target` by the elapsed fraction, whatever the
/// blend; from `duration` on, with the blend at `0`, it is `target` itself.
pub proof fn lemma_transition(
    s: SlimeMould,
    target: Preset,
    start: i64,
    duration: i64,
    now: i64,
    blend: i64,
)
    requires
        duration > 0,
    ensures
        elapsed(now, start) < duration ==> s.transitioned(target, start, duration).effective_preset(
            now,
            blend,
        ) == s.preset.interpolated(target, elapsed(now, start) * UNIT / (duration as int)),
        elapsed(now, start) >= duration ==> s.transitioned(
            target,
            start,
            duration,
        ).effective_preset(now, 0) == target,
{
    lemma_lerp_end_points(target, s.secondary_preset);
}

} // verus!
