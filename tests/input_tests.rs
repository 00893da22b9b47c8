use slime_mould::controller::{Action, Controller, DEFAULT_BEAT_TRANSITION_TIME, FRAME_TIME};
use slime_mould::fixed::UNIT;
use slime_mould::input::{key_events, midi_event, midi_events, InputEvent, Key, PresetSlot};
use slime_mould::midi::{MidiChannel, Mpd218Message, MIDI_QUEUE};
use slime_mould::preset::{Preset, PresetName};
use slime_mould::screenshot::{AsyncScreenshotTaker, RGBAImageData};

#[test]
fn decodes_pad_and_knob_messages() {
    assert!(matches!(
        Mpd218Message::decode(7, [153, 40, 100]),
        Mpd218Message::PadPressed(4, 100, 7)
    ));
    assert!(matches!(
        Mpd218Message::decode(8, [137, 36, 0]),
        Mpd218Message::PadReleased(0, 0, 8)
    ));
    assert!(matches!(
        Mpd218Message::decode(9, [217, 64, 0]),
        Mpd218Message::PadHeld(64, 9)
    ));
    assert!(matches!(
        Mpd218Message::decode(1, [176, 3, 127]),
        Mpd218Message::KnobChanged(0, 127, 1)
    ));
    assert!(matches!(
        Mpd218Message::decode(1, [176, 9, 5]),
        Mpd218Message::KnobChanged(1, 5, 1)
    ));
    assert!(matches!(
        Mpd218Message::decode(1, [176, 12, 5]),
        Mpd218Message::KnobChanged(2, 5, 1)
    ));
    assert!(matches!(
        Mpd218Message::decode(1, [176, 27, 5]),
        Mpd218Message::KnobChanged(17, 5, 1)
    ));
    assert!(matches!(
        Mpd218Message::decode(2, [1, 2, 3]),
        Mpd218Message::Unknown([1, 2, 3], 2)
    ));
    // Notes below the first pad wrap around in eight bits.
    assert!(matches!(
        Mpd218Message::decode(3, [153, 10, 1]),
        Mpd218Message::PadPressed(230, 1, 3)
    ));
    assert!(matches!(
        Mpd218Message::from((5u64, [217u8, 64u8, 0u8])),
        Mpd218Message::PadHeld(64, 5)
    ));
}

#[test]
fn pads_and_knobs_give_commands() {
    let pad = |p: u8| midi_event(&Mpd218Message::PadPressed(p, 100, 0));
    assert_eq!(
        pad(3),
        Some(InputEvent::LoadPreset(PresetSlot::Primary, PresetName::SlimeRing))
    );
    assert_eq!(
        pad(0),
        Some(InputEvent::LoadPreset(PresetSlot::Primary, PresetName::Globe))
    );
    assert_eq!(
        pad(17),
        Some(InputEvent::LoadPreset(PresetSlot::Secondary, PresetName::GreenSlime))
    );
    assert_eq!(
        pad(41),
        Some(InputEvent::LoadPreset(PresetSlot::Beat, PresetName::Tartan))
    );
    assert_eq!(pad(10), Some(InputEvent::ClearTextures));
    assert_eq!(pad(11), Some(InputEvent::ResetPoints));
    assert_eq!(pad(12), Some(InputEvent::RandomizePreset(PresetSlot::Primary)));
    assert_eq!(pad(13), Some(InputEvent::RandomizePreset(PresetSlot::Secondary)));
    assert_eq!(pad(14), Some(InputEvent::RandomizePreset(PresetSlot::Beat)));
    assert_eq!(pad(15), Some(InputEvent::ToggleAutomation));
    assert_eq!(pad(26), None);
    assert_eq!(pad(50), None);
    let knob = |k: u8, v: u8| midi_event(&Mpd218Message::KnobChanged(k, v, 0));
    assert_eq!(knob(0, 127), Some(InputEvent::UpdateBlendValue(UNIT)));
    assert_eq!(knob(0, 0), Some(InputEvent::UpdateBlendValue(0)));
    assert_eq!(knob(0, 1), Some(InputEvent::UpdateBlendValue(7_874)));
    assert_eq!(knob(1, 127), Some(InputEvent::UpdateBeatTransitionTime(500_000)));
    assert_eq!(knob(2, 127), None);
    assert_eq!(midi_event(&Mpd218Message::PadHeld(3, 0)), None);
    assert_eq!(midi_event(&Mpd218Message::PadReleased(3, 3, 0)), None);
}

#[test]
fn message_runs_keep_order_and_skip_silent_ones() {
    let messages = vec![
        Mpd218Message::PadPressed(10, 1, 0),
        Mpd218Message::PadHeld(3, 1),
        Mpd218Message::KnobChanged(0, 127, 2),
        Mpd218Message::Unknown([0, 0, 0], 3),
        Mpd218Message::PadPressed(15, 1, 4),
    ];
    assert_eq!(
        midi_events(&messages),
        vec![
            InputEvent::ClearTextures,
            InputEvent::UpdateBlendValue(UNIT),
            InputEvent::ToggleAutomation
        ]
    );
    assert!(midi_events(&vec![]).is_empty());
}

#[test]
fn keys_give_commands() {
    assert_eq!(key_events(Key::Escape, 1), vec![InputEvent::StopEventLoop]);
    assert_eq!(key_events(Key::Other, 0), vec![]);
    assert_eq!(
        key_events(Key::R, 2),
        vec![
            InputEvent::RandomizePreset(PresetSlot::Primary),
            InputEvent::LoadPreset(PresetSlot::Primary, PresetName::GreenSlime)
        ]
    );
    assert_eq!(
        key_events(Key::Other, 11),
        vec![InputEvent::LoadPreset(PresetSlot::Primary, PresetName::Globe)]
    );
    assert_eq!(key_events(Key::Back, 12), vec![InputEvent::TakeScreenshot]);
    assert_eq!(key_events(Key::C, 46), vec![InputEvent::ClearTextures]);
}

#[test]
fn midi_channel_hands_over_waiting_messages() {
    let (sender, receiver) = std::sync::mpsc::sync_channel(2 * MIDI_QUEUE);
    let channel = MidiChannel::new(receiver);
    assert!(channel.try_iter().is_empty());
    for k in 0..3u64 {
        sender.send(Mpd218Message::from((k, [153, 36 + k as u8, 9]))).unwrap();
    }
    let got = channel.try_iter();
    assert_eq!(got.len(), 3);
    assert!(matches!(got[2], Mpd218Message::PadPressed(2, 9, 2)));
    for k in 0..(MIDI_QUEUE as u64 + 5) {
        sender.send(Mpd218Message::PadHeld(0, k)).unwrap();
    }
    assert_eq!(channel.try_iter().len(), MIDI_QUEUE);
    assert_eq!(channel.try_iter().len(), 5);
}

#[test]
fn screenshots_come_due_after_the_delay() {
    let mut taker: AsyncScreenshotTaker<&str> = AsyncScreenshotTaker::new(2);
    taker.take_screenshot("first");
    taker.next_frame();
    taker.take_screenshot("second");
    assert!(taker.pickup_screenshots().is_empty());
    taker.next_frame();
    assert_eq!(taker.pickup_screenshots(), vec!["first"]);
    assert!(taker.pickup_screenshots().is_empty());
    taker.next_frame();
    assert_eq!(taker.pickup_screenshots(), vec!["second"]);
    assert_eq!(taker.frame, 3);
}

#[test]
fn screenshots_due_together_come_together() {
    let mut taker: AsyncScreenshotTaker<u32> = AsyncScreenshotTaker::new(0);
    taker.take_screenshot(1);
    taker.take_screenshot(2);
    assert_eq!(taker.pickup_screenshots(), vec![1, 2]);
    taker.frame = u64::MAX;
    taker.next_frame();
    assert_eq!(taker.frame, u64::MAX);
}

#[test]
fn pixels_flatten_to_rgba_bytes() {
    let image = RGBAImageData {
        data: vec![(1, 2, 3, 4), (5, 6, 7, 8)],
        width: 2,
        height: 1,
    };
    assert_eq!(image.flatten(), vec![1, 2, 3, 4, 5, 6, 7, 8]);
}

#[test]
fn controller_loads_presets_into_slots() {
    let start = Preset::new(PresetName::Waves);
    let mut c = Controller::new(start, start);
    c.handle_event(InputEvent::LoadPreset(PresetSlot::Primary, PresetName::Globe));
    let globe = Preset::new(PresetName::Globe);
    assert_eq!(c.slime_mould.preset, globe);
    assert_eq!(c.slime_mould.old_preset, start);
    let plan = c.begin_frame();
    assert_eq!(plan.preset, start);
    assert_eq!(plan.reset_points, Some(globe.initial_parameters));
    assert_eq!(c.u_time, FRAME_TIME);
    c.handle_event(InputEvent::LoadPreset(PresetSlot::Beat, PresetName::Flower));
    assert_eq!(c.beat_preset, Preset::new(PresetName::Flower));
    c.handle_event(InputEvent::LoadPreset(PresetSlot::Secondary, PresetName::Explode));
    assert_eq!(c.slime_mould.secondary_preset, Preset::new(PresetName::Explode));
    c.handle_event(InputEvent::RandomizePreset(PresetSlot::Beat));
    assert_eq!(c.beat_preset.u_time, 0);
}

#[test]
fn controller_clamps_knob_values() {
    let start = Preset::new(PresetName::Waves);
    let mut c = Controller::new(start, start);
    assert_eq!(c.beat_transition_time, DEFAULT_BEAT_TRANSITION_TIME);
    c.handle_event(InputEvent::UpdateBlendValue(2 * UNIT));
    assert_eq!(c.blend_value, UNIT);
    c.handle_event(InputEvent::UpdateBlendValue(-1));
    assert_eq!(c.blend_value, 0);
    c.handle_event(InputEvent::UpdateBeatTransitionTime(-5));
    assert_eq!(c.beat_transition_time, 0);
    c.handle_event(InputEvent::ToggleAutomation);
    assert!(c.automate_presets);
    let before = (c.slime_mould.preset, c.blend_value);
    c.handle_event(InputEvent::TakeScreenshot);
    assert_eq!((c.slime_mould.preset, c.blend_value), before);
}

#[test]
fn controller_swaps_beat_preset_in_and_out() {
    let start = Preset::new(PresetName::Waves);
    let beat = Preset::new(PresetName::Explode);
    let mut c = Controller::new(start, beat);
    for _ in 0..5 {
        c.begin_frame();
    }
    c.react_to_beat(true);
    assert_eq!(c.beat_start_time, 5 * FRAME_TIME);
    assert_eq!(c.slime_mould.preset, beat);
    assert_eq!(c.non_beat_preset, start);
    assert_eq!(c.slime_mould.lerp_length, DEFAULT_BEAT_TRANSITION_TIME);
    for _ in 0..10 {
        c.begin_frame();
        c.react_to_beat(false);
    }
    assert_eq!(c.slime_mould.preset, beat);
    c.begin_frame();
    c.react_to_beat(false);
    assert_eq!(c.slime_mould.preset, start);
    assert_eq!(c.slime_mould.lerp_length, DEFAULT_BEAT_TRANSITION_TIME / 2);
    assert_eq!(c.beat_start_time, -1);
    c.automate();
    assert_eq!(c.slime_mould.preset, start);
    assert_eq!(Action::Continue, Action::Continue);
}
