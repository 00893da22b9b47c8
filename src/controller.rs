//! The decisions of the frame loop: what each command does to the simulation, when the
//! beat preset is swapped in and out, and the preset automation. The window shell runs
//! the loop, performs the rendering and the window commands, and reports beats.

use crate::fixed::UNIT;
use crate::input::{InputEvent, PresetSlot};
use crate::preset::{walk_draws_ok, Preset};
use crate::slime_mould::{FramePlan, SlimeMould};
use vstd::prelude::*;

verus! {

/// Whether the frame loop goes on.
#[derive(Clone, Copy, Debug, PartialEq, Eq, Structural)]
pub enum Action {
    Stop,
    Continue,
}

/// The time between two frames (0.02).
pub const FRAME_TIME: i64 = 20_000;

/// How long a transition to a loaded or randomised primary preset lasts (1.0).
pub const PRESET_TRANSITION_TIME: i64 = 1_000_000;

/// How long a beat transition lasts until a knob changes it (0.2).
pub const DEFAULT_BEAT_TRANSITION_TIME: i64 = 200_000;

/// The state of the frame loop.
pub struct Controller {
    pub slime_mould: SlimeMould,
    /// The preset swapped in on a beat.
    pub beat_preset: Preset,
    /// The preset to return to after a beat.
    pub non_beat_preset: Preset,
    /// The simulation clock.
    pub u_time: i64,
    /// When the last beat came; `-1` once its preset has been swapped out again.
    pub beat_start_time: i64,
    /// The manual blend toward the secondary preset.
    pub blend_value: i64,
    pub beat_transition_time: i64,
    pub automate_presets: bool,
}

impl Controller {
    /// The blend lies in `[0, UNIT]` and the beat transition time is not negative.
    pub open spec fn well_formed(&self) -> bool {
        0 <= self.blend_value <= UNIT && self.beat_transition_time >= 0
    }

    /// The state after `preset` is put into `slot`; a primary preset is reached by a
    /// transition starting now, after which the agents are reseeded if `reseed` holds.
    pub open spec fn loaded(self, slot: PresetSlot, preset: Preset, reseed: bool) -> Self {
        match slot {
            PresetSlot::Primary => {
                let s = self.slime_mould.transitioned(preset, self.u_time, PRESET_TRANSITION_TIME);
                Controller {
                    slime_mould: if reseed {
                        s.with_reset()
                    } else {
                        s
                    },
                    ..self
                }
            },
            PresetSlot::Secondary => Controller {
                slime_mould: SlimeMould { secondary_preset: preset, ..self.slime_mould },
                ..self
            },
            PresetSlot::Beat => Controller { beat_preset: preset, ..self },
        }
    }

    /// The state after command `e`, where `drawn` is the preset that a randomising
    /// command draws. Window commands leave the state as it is.
    pub open spec fn handled(self, e: InputEvent, drawn: Preset) -> Self {
        match e {
            InputEvent::ToggleAutomation => Controller {
                automate_presets: !self.automate_presets,
                ..self
            },
            InputEvent::UpdateBlendValue(v) => Controller {
                blend_value: if v < 0 {
                    0
                } else if v > UNIT {
                    UNIT
                } else {
                    v
                },
                ..self
            },
            InputEvent::UpdateBeatTransitionTime(v) => Controller {
                beat_transition_time: if v < 0 {
                    0
                } else {
                    v
                },
                ..self
            },
            InputEvent::RandomizePreset(slot) => self.loaded(slot, drawn, false),
            InputEvent::LoadPreset(slot, name) => self.loaded(slot, Preset::named(name), true),
            InputEvent::ResetPoints => Controller {
                slime_mould: self.slime_mould.with_reset(),
                ..self
            },
            InputEvent::ClearTextures => Controller {
                slime_mould: self.slime_mould.with_clear(),
                ..self
            },
            _ => self,
        }
    }

    /// The state after the beat check of a frame: a beat swaps the beat preset in and
    /// remembers the current one; once the beat transition time has passed since the
    /// last beat, the remembered preset comes back over half that time.
    pub open spec fn after_beat(self, got_beat: bool) -> Self {
        if got_beat {
            Controller {
                beat_start_time: self.u_time,
                non_beat_preset: self.slime_mould.preset,
                slime_mould: self.slime_mould.transitioned(
                    self.beat_preset,
                    self.u_time,
                    self.beat_transition_time,
                ),
                ..self
            }
        } else if self.beat_start_time > 0 && self.u_time - self.beat_start_time
            > self.beat_transition_time {
            Controller {
                beat_start_time: -1i64,
                slime_mould: self.slime_mould.transitioned(
                    self.non_beat_preset,
                    self.u_time,
                    (self.beat_transition_time / 2) as i64,
                ),
                ..self
            }
        } else {
            self
        }
    }

    /// A loop showing `preset`, which is also the beat preset until one is chosen.
    pub fn new(preset: Preset, beat_preset: Preset) -> (r: Self)
        ensures
            r.well_formed(),
            r.slime_mould == SlimeMould::new_spec(preset),
            r.beat_preset == beat_preset,
            r.non_beat_preset == preset,
            r.u_time == 0,
            r.beat_start_time == 0,
            r.blend_value == 0,
            r.beat_transition_time == DEFAULT_BEAT_TRANSITION_TIME,
            !r.automate_presets,
    {
        Controller {
            slime_mould: SlimeMould::new(preset),
            beat_preset,
            non_beat_preset: preset,
            u_time: 0,
            beat_start_time: 0,
            blend_value: 0,
            beat_transition_time: DEFAULT_BEAT_TRANSITION_TIME,
            automate_presets: false,
        }
    }

    /// The plan of this frame; the clock then moves on by one frame (it stops at the
    /// largest time it can hold).
    pub fn begin_frame(&mut self) -> (plan: FramePlan)
        requires
            old(self).well_formed(),
        ensures
            final(self).well_formed(),
            plan.preset == old(self).slime_mould.effective_preset(
                old(self).u_time,
                old(self).blend_value,
            ),
            plan.clear_textures == old(self).slime_mould.clear_textures_before_draw,
            plan.reset_points == (if old(self).slime_mould.reset_points_before_draw {
                Some(old(self).slime_mould.initial_parameters)
            } else {
                None
            }),
            final(self).u_time == (if old(self).u_time <= i64::MAX - FRAME_TIME {
                old(self).u_time + FRAME_TIME
            } else {
                old(self).u_time as int
            }),
            final(self).slime_mould == (SlimeMould {
                clear_textures_before_draw: false,
                reset_points_before_draw: false,
                ..old(self).slime_mould
            }),
            *final(self) == (Controller {
                u_time: final(self).u_time,
                slime_mould: final(self).slime_mould,
                ..*old(self)
            }),
    {
        let plan = self.slime_mould.draw(self.u_time, self.blend_value);
        if self.u_time <= i64::MAX - FRAME_TIME {
            self.u_time = self.u_time + FRAME_TIME;
        }
        plan
    }

    /// Carries out command `e`, with `drawn` as the preset that a randomising command
    /// uses.
    pub fn handle_event_with(&mut self, e: InputEvent, drawn: Preset)
        requires
            old(self).well_formed(),
        ensures
            *final(self) == old(self).handled(e, drawn),
            final(self).well_formed(),
    {
        match e {
            InputEvent::ToggleAutomation => {
                self.automate_presets = !self.automate_presets;
            },
            InputEvent::UpdateBlendValue(v) => {
                self.blend_value = if v < 0 {
                    0
                } else if v > UNIT {
                    UNIT
                } else {
                    v
                };
            },
            InputEvent::UpdateBeatTransitionTime(v) => {
                self.beat_transition_time = if v < 0 {
                    0
                } else {
                    v
                };
            },
            InputEvent::RandomizePreset(slot) => self.load(slot, drawn, false),
            InputEvent::LoadPreset(slot, name) => self.load(slot, Preset::new(name), true),
            InputEvent::ResetPoints => self.slime_mould.reset_points(),
            InputEvent::ClearTextures => self.slime_mould.clear(),
            _ => {},
        }
    }

    fn load(&mut self, slot: PresetSlot, preset: Preset, reseed: bool)
        requires
            old(self).well_formed(),
        ensures
            *final(self) == old(self).loaded(slot, preset, reseed),
    {
        match slot {
            PresetSlot::Primary => {
                self.slime_mould.transition_preset(preset, self.u_time, PRESET_TRANSITION_TIME);
                if reseed {
                    self.slime_mould.reset_points();
                }
            },
            PresetSlot::Secondary => self.slime_mould.set_secondary_preset(preset),
            PresetSlot::Beat => {
                self.beat_preset = preset;
            },
        }
    }

    /// Carries out command `e`; a randomising command draws a preset uniformly.
    pub fn handle_event(&mut self, e: InputEvent)
        requires
            old(self).well_formed(),
        ensures
            exists|drawn: Preset| drawn.valid() && *final(self) == old(self).handled(e, drawn),
            final(self).well_formed(),
    {
        let drawn = Preset::random();
        self.handle_event_with(e, drawn);
    }

    /// Swaps the beat preset in or out as the beat check of a frame decides.
    pub fn react_to_beat(&mut self, got_beat: bool)
        requires
            old(self).well_formed(),
        ensures
            final(self).well_formed(),
            *final(self) == old(self).after_beat(got_beat),
    {
        if got_beat {
            self.beat_start_time = self.u_time;
            self.non_beat_preset = self.slime_mould.get_preset();
            self.slime_mould.transition_preset(
                self.beat_preset,
                self.u_time,
                self.beat_transition_time,
            );
        } else if self.beat_start_time > 0 && (self.u_time as i128 - self.beat_start_time as i128)
            > self.beat_transition_time as i128 {
            let half = self.beat_transition_time / 2;
            self.slime_mould.transition_preset(self.non_beat_preset, self.u_time, half);
            self.beat_start_time = -1;
        }
    }

    /// With automation on, moves the beat preset and the current preset one random-walk
    /// step to the current time; with it off, does nothing.
    pub fn automate(&mut self)
        ensures
            old(self).well_formed() ==> final(self).well_formed(),
            !old(self).automate_presets ==> *final(self) == *old(self),
            old(self).automate_presets ==> exists|d1: Seq<i64>, d2: Seq<i64>|
                walk_draws_ok(d1) && walk_draws_ok(d2) && *final(self) == (Controller {
                    beat_preset: old(self).beat_preset.walked(old(self).u_time, d1),
                    slime_mould: SlimeMould {
                        preset: old(self).slime_mould.preset.walked(old(self).u_time, d2),
                        ..old(self).slime_mould
                    },
                    ..*old(self)
                }),
    {
        if self.automate_presets {
            self.beat_preset.update(self.u_time);
            self.slime_mould.update(self.u_time);
        }
    }
}

} // verus!
