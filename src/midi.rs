//! Messages of an Akai MPD218 pad controller, and the queue that carries them from the
//! MIDI callback to the frame loop.

use vstd::prelude::*;

verus! {

/// A decoded controller message. Pads are numbered from `0`; the `u64` is the time
/// stamp that the MIDI driver gave.
#[derive(Debug, Copy, Clone)]
pub enum Mpd218Message {
    /// Pad, velocity, time.
    PadPressed(u8, u8, u64),
    /// Velocity, time (the controller does not say which pad is held).
    PadHeld(u8, u64),
    /// Pad, velocity, time.
    PadReleased(u8, u8, u64),
    /// Knob, value, time.
    KnobChanged(u8, u8, u64),
    /// Any other message: its bytes and time.
    Unknown([u8; 3], u64),
}

/// Status byte of a pad press.
pub const PAD_PRESSED: u8 = 153;

/// Status byte of a held pad's pressure.
pub const PAD_HELD: u8 = 217;

/// Status byte of a pad release.
pub const PAD_RELEASED: u8 = 137;

/// Status byte of a knob turn.
pub const KNOB_CHANGED: u8 = 176;

/// The note of the first pad.
pub const FIRST_PAD_NOTE: u8 = 36;

/// The knob number of a controller number: the controller numbers `3`, `9` and `12`
/// upward map onto `0`, `1` and `2` upward (in 8-bit wrapping arithmetic, as the
/// device protocol is read).
pub open spec fn knob_of(controller: u8) -> u8 {
    let k0 = controller.wrapping_sub(3);
    let k1 = if k0 > 0 {
        k0.wrapping_sub(5)
    } else {
        k0
    };
    if k1 > 1 {
        k1.wrapping_sub(2)
    } else {
        k1
    }
}

/// The message that three MIDI bytes received at `time` stand for.
pub open spec fn decoded(time: u64, data: [u8; 3]) -> Mpd218Message {
    let d = data@;
    if d[0] == PAD_PRESSED {
        Mpd218Message::PadPressed(d[1].wrapping_sub(FIRST_PAD_NOTE), d[2], time)
    } else if d[0] == PAD_HELD {
        Mpd218Message::PadHeld(d[1], time)
    } else if d[0] == PAD_RELEASED {
        Mpd218Message::PadReleased(d[1].wrapping_sub(FIRST_PAD_NOTE), d[2], time)
    } else if d[0] == KNOB_CHANGED {
        Mpd218Message::KnobChanged(knob_of(d[1]), d[2], time)
    } else {
        Mpd218Message::Unknown(data, time)
    }
}

impl Mpd218Message {
    /// Decodes three MIDI bytes received at `time`.
    pub fn decode(time: u64, data: [u8; 3]) -> (r: Mpd218Message)
        ensures
            r == decoded(time, data),
    {
        let status = data[0];
        if status == PAD_PRESSED {
            Mpd218Message::PadPressed(data[1].wrapping_sub(FIRST_PAD_NOTE), data[2], time)
        } else if status == PAD_HELD {
            Mpd218Message::PadHeld(data[1], time)
        } else if status == PAD_RELEASED {
            Mpd218Message::PadReleased(data[1].wrapping_sub(FIRST_PAD_NOTE), data[2], time)
        } else if status == KNOB_CHANGED {
            let mut knob = data[1].wrapping_sub(3);
            if knob > 0 {
                knob = knob.wrapping_sub(5);
            }
            if knob > 1 {
                knob = knob.wrapping_sub(2);
            }
            Mpd218Message::KnobChanged(knob, data[2], time)
        } else {
            Mpd218Message::Unknown(data, time)
        }
    }
}

impl From<(u64, [u8; 3])> for Mpd218Message {
    fn from(tuple: (u64, [u8; 3])) -> Mpd218Message {
        Mpd218Message::decode(tuple.0, tuple.1)
    }
}

impl vstd::std_specs::convert::FromSpecImpl<(u64, [u8; 3])> for Mpd218Message {
    open spec fn obeys_from_spec() -> bool {
        true
    }

    open spec fn from_spec(v: (u64, [u8; 3])) -> Mpd218Message {
        decoded(v.0, v.1)
    }
}

#[verifier::external_type_specification]
#[verifier::external_body]
#[verifier::reject_recursive_types(T)]
pub struct ExReceiver<T>(std::sync::mpsc::Receiver<T>);

/// How many messages one call of [`MidiChannel::try_iter`] takes at most: the capacity
/// of the queue that the MIDI callback fills.
pub const MIDI_QUEUE: usize = 64;

/// Relies on `std::sync::mpsc::Receiver::try_recv`: a message that is already waiting,
/// or nothing, without blocking.
#[verifier::external_body]
fn try_recv<T>(receiver: &std::sync::mpsc::Receiver<T>) -> (r: Option<T>) {
    receiver.try_recv().ok()
}

/// The receiving end of the queue that the MIDI callback fills.
#[verifier::reject_recursive_types(T)]
pub struct MidiChannel<T> {
    receiver: std::sync::mpsc::Receiver<T>,
}

impl<T> MidiChannel<T> {
    /// A channel reading from `receiver`.
    pub fn new(receiver: std::sync::mpsc::Receiver<T>) -> (r: Self)
        ensures
            r.receiver() == receiver,
    {
        MidiChannel { receiver }
    }

    /// The queue's receiving end.
    pub closed spec fn receiver(&self) -> std::sync::mpsc::Receiver<T> {
        self.receiver
    }

    /// The messages waiting now, oldest first, at most [`MIDI_QUEUE`] of them.
    pub fn try_iter(&self) -> (r: Vec<T>)
        ensures
            r@.len() <= MIDI_QUEUE,
    {
        let mut messages: Vec<T> = Vec::new();
        let mut i: usize = 0;
        while i < MIDI_QUEUE
            invariant
                i <= MIDI_QUEUE,
                messages@.len() == i,
            decreases MIDI_QUEUE - i,
        {
            match try_recv(&self.receiver) {
                Some(m) => messages.push(m),
                None => {
                    return messages;
                },
            }
            i = i + 1;
        }
        messages
    }
}

} // verus!
