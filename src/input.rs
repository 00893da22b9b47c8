//! The commands that keyboard and controller input produce.

use crate::fixed::UNIT;
use crate::midi::Mpd218Message;
use crate::preset::PresetName;
use vstd::prelude::*;

verus! {

/// Which preset a command acts on.
#[derive(Clone, Copy, Debug, PartialEq, Eq, Structural)]
pub enum PresetSlot {
    /// The live preset, reached through a timed transition.
    Primary,
    /// The preset that the manual blend fades toward.
    Secondary,
    /// The preset swapped in on each detected beat.
    Beat,
}

/// A command for the simulation or its window. Fractions are in fixed point.
#[derive(Clone, Copy, Debug, PartialEq, Eq, Structural)]
pub enum InputEvent {
    ToggleFullscreen,
    ToggleAutomation,
    RandomizePreset(PresetSlot),
    LoadPreset(PresetSlot, PresetName),
    /// The manual blend, in `[0, UNIT]`.
    UpdateBlendValue(i64),
    /// How long a beat transition lasts, in time units.
    UpdateBeatTransitionTime(i64),
    StopEventLoop,
    DumpState,
    ClearTextures,
    ResetPoints,
    TakeScreenshot,
}

/// The keys that give commands.
#[derive(Clone, Copy, Debug, PartialEq, Eq, Structural)]
pub enum Key {
    Escape,
    Return,
    R,
    P,
    C,
    S,
    A,
    Back,
    Other,
}

/// The command that a pressed key gives, if any.
pub open spec fn key_command(key: Key) -> Option<InputEvent> {
    match key {
        Key::Escape => Some(InputEvent::StopEventLoop),
        Key::Return => Some(InputEvent::ToggleFullscreen),
        Key::R => Some(InputEvent::RandomizePreset(PresetSlot::Primary)),
        Key::P => Some(InputEvent::ResetPoints),
        Key::C => Some(InputEvent::ClearTextures),
        Key::S => Some(InputEvent::DumpState),
        Key::A => Some(InputEvent::ToggleAutomation),
        Key::Back => Some(InputEvent::TakeScreenshot),
        Key::Other => None,
    }
}

/// The command that a number key gives: scan codes `2` to `11` (the keys `1` to `0`)
/// load a factory preset into the primary slot.
pub open spec fn number_command(scancode: u32) -> Option<InputEvent> {
    if 2 <= scancode <= 11 {
        Some(
            InputEvent::LoadPreset(
                PresetSlot::Primary,
                PresetName::for_number(((scancode - 1) % 10) as u32),
            ),
        )
    } else {
        None
    }
}

/// The commands of one pressed key, in order: that of the key, then that of its number.
pub open spec fn key_commands(key: Key, scancode: u32) -> Seq<InputEvent> {
    let first = match key_command(key) {
        Some(e) => seq![e],
        None => Seq::empty(),
    };
    match number_command(scancode) {
        Some(e) => first.push(e),
        None => first,
    }
}

/// The commands of one pressed key.
pub fn key_events(key: Key, scancode: u32) -> (r: Vec<InputEvent>)
    ensures
        r@ == key_commands(key, scancode),
{
    let mut events: Vec<InputEvent> = Vec::new();
    match key {
        Key::Escape => events.push(InputEvent::StopEventLoop),
        Key::Return => events.push(InputEvent::ToggleFullscreen),
        Key::R => events.push(InputEvent::RandomizePreset(PresetSlot::Primary)),
        Key::P => events.push(InputEvent::ResetPoints),
        Key::C => events.push(InputEvent::ClearTextures),
        Key::S => events.push(InputEvent::DumpState),
        Key::A => events.push(InputEvent::ToggleAutomation),
        Key::Back => events.push(InputEvent::TakeScreenshot),
        Key::Other => {},
    }
    if scancode >= 2 && scancode <= 11 {
        events.push(
            InputEvent::LoadPreset(PresetSlot::Primary, PresetName::from_u32((scancode - 1) % 10)),
        );
    }
    proof {
        assert(events@ =~= key_commands(key, scancode));
    }
    events
}

/// The command of a pressed pad: pads `0` to `9`, `16` to `25` and `32` to `41` load the
/// factory presets into the primary, secondary and beat slots; pads `10` to `15` clear,
/// reset, randomise the three slots and toggle automation.
pub open spec fn pad_command(pad: u8) -> Option<InputEvent> {
    if pad <= 9 {
        Some(InputEvent::LoadPreset(PresetSlot::Primary, PresetName::for_number(pad as u32)))
    } else if 16 <= pad <= 25 {
        Some(
            InputEvent::LoadPreset(
                PresetSlot::Secondary,
                PresetName::for_number((pad - 16) as u32),
            ),
        )
    } else if 32 <= pad <= 41 {
        Some(InputEvent::LoadPreset(PresetSlot::Beat, PresetName::for_number((pad - 32) as u32)))
    } else if pad == 10 {
        Some(InputEvent::ClearTextures)
    } else if pad == 11 {
        Some(InputEvent::ResetPoints)
    } else if pad == 12 {
        Some(InputEvent::RandomizePreset(PresetSlot::Primary))
    } else if pad == 13 {
        Some(InputEvent::RandomizePreset(PresetSlot::Secondary))
    } else if pad == 14 {
        Some(InputEvent::RandomizePreset(PresetSlot::Beat))
    } else if pad == 15 {
        Some(InputEvent::ToggleAutomation)
    } else {
        None
    }
}

/// The command of a turned knob: knob `0` sets the blend to `value / 127`, knob `1` the
/// beat transition time to `value / 254`, both rounded down.
pub open spec fn knob_command(knob: u8, value: u8) -> Option<InputEvent> {
    if knob == 0 {
        Some(InputEvent::UpdateBlendValue((value * UNIT / 127) as i64))
    } else if knob == 1 {
        Some(InputEvent::UpdateBeatTransitionTime((value * UNIT / 254) as i64))
    } else {
        None
    }
}

/// The command of a controller message, if any.
pub open spec fn message_command(m: Mpd218Message) -> Option<InputEvent> {
    match m {
        Mpd218Message::PadPressed(pad, _, _) => pad_command(pad),
        Mpd218Message::KnobChanged(knob, value, _) => knob_command(knob, value),
        _ => None,
    }
}

/// The commands of a run of controller messages, in order.
pub open spec fn message_commands(ms: Seq<Mpd218Message>) -> Seq<InputEvent>
    decreases ms.len(),
{
    if ms.len() == 0 {
        Seq::empty()
    } else {
        let before = message_commands(ms.drop_last());
        match message_command(ms.last()) {
            Some(e) => before.push(e),
            None => before,
        }
    }
}

/// The command of one controller message, if any.
pub fn midi_event(m: &Mpd218Message) -> (r: Option<InputEvent>)
    ensures
        r == message_command(*m),
{
    match m {
        Mpd218Message::PadPressed(pad, _, _) => {
            let pad = *pad;
            if pad <= 9 {
                Some(InputEvent::LoadPreset(PresetSlot::Primary, PresetName::from_u32(pad as u32)))
            } else if 16 <= pad && pad <= 25 {
                Some(
                    InputEvent::LoadPreset(
                        PresetSlot::Secondary,
                        PresetName::from_u32((pad - 16) as u32),
                    ),
                )
            } else if 32 <= pad && pad <= 41 {
                Some(
                    InputEvent::LoadPreset(PresetSlot::Beat, PresetName::from_u32((pad - 32) as u32)),
                )
            } else {
                match pad {
                    10 => Some(InputEvent::ClearTextures),
                    11 => Some(InputEvent::ResetPoints),
                    12 => Some(InputEvent::RandomizePreset(PresetSlot::Primary)),
                    13 => Some(InputEvent::RandomizePreset(PresetSlot::Secondary)),
                    14 => Some(InputEvent::RandomizePreset(PresetSlot::Beat)),
                    15 => Some(InputEvent::ToggleAutomation),
                    _ => None,
                }
            }
        },
        Mpd218Message::KnobChanged(knob, value, _) => {
            let value = *value as i64;
            if *knob == 0 {
                Some(InputEvent::UpdateBlendValue(value * UNIT / 127))
            } else if *knob == 1 {
                Some(InputEvent::UpdateBeatTransitionTime(value * UNIT / 254))
            } else {
                None
            }
        },
        _ => None,
    }
}

/// The commands of a run of controller messages, in order.
pub fn midi_events(messages: &Vec<Mpd218Message>) -> (r: Vec<InputEvent>)
    ensures
        r@ == message_commands(messages@),
{
    let mut events: Vec<InputEvent> = Vec::new();
    let mut i: usize = 0;
    while i < messages.len()
        invariant
            i <= messages@.len(),
            events@ == message_commands(messages@.subrange(0, i as int)),
        decreases messages@.len() - i,
    {
        let e = midi_event(&messages[i]);
        proof {
            let next = messages@.subrange(0, i + 1);
            assert(next.drop_last() =~= messages@.subrange(0, i as int));
            assert(next.last() == messages@[i as int]);
        }
        match e {
            Some(e) => events.push(e),
            None => {},
        }
        i = i + 1;
    }
    proof {
        assert(messages@.subrange(0, messages@.len() as int) =~= messages@);
    }
    events
}

} // verus!
