//! Raw MIDI channel voice messages.
//!
//! Every numeric field is range-checked at construction: channels live in the
//! 4-bit space (0..=15), notes, velocities, controllers and values in the
//! 7-bit space (0..=127). An out-of-range field is a construction error,
//! never a silent truncation.

use vstd::prelude::*;

verus! {

/// A raw MIDI channel voice message.
#[derive(Clone, Copy, Debug, PartialEq, Eq, Structural)]
pub enum MidiMessage {
    NoteOn { channel: u8, note: u8, velocity: u8 },
    NoteOff { channel: u8, note: u8, velocity: u8 },
    ControlChange { channel: u8, controller: u8, value: u8 },
}

/// Error returned when a message constructor is handed a field outside the
/// MIDI value space.
#[derive(Clone, Copy, Debug, PartialEq, Eq, Structural)]
pub struct RangeError;

impl MidiMessage {
    /// All numeric fields lie in the MIDI value space: 4-bit channel,
    /// 7-bit data bytes.
    pub open spec fn wf(self) -> bool {
        match self {
            MidiMessage::NoteOn { channel, note, velocity } => {
                channel < 16 && note < 128 && velocity < 128
            },
            MidiMessage::NoteOff { channel, note, velocity } => {
                channel < 16 && note < 128 && velocity < 128
            },
            MidiMessage::ControlChange { channel, controller, value } => {
                channel < 16 && controller < 128 && value < 128
            },
        }
    }

    /// Range-checked Note On constructor.
    pub fn note_on(channel: u8, note: u8, velocity: u8) -> (r: Result<MidiMessage, RangeError>)
        ensures
            channel < 16 && note < 128 && velocity < 128 ==> r == Ok::<MidiMessage, RangeError>(
                MidiMessage::NoteOn { channel, note, velocity },
            ),
            !(channel < 16 && note < 128 && velocity < 128) ==> r == Err::<MidiMessage, RangeError>(
                RangeError,
            ),
    {
        if channel < 16 && note < 128 && velocity < 128 {
            Ok(MidiMessage::NoteOn { channel, note, velocity })
        } else {
            Err(RangeError)
        }
    }

    /// Range-checked Note Off constructor.
    pub fn note_off(channel: u8, note: u8, velocity: u8) -> (r: Result<MidiMessage, RangeError>)
        ensures
            channel < 16 && note < 128 && velocity < 128 ==> r == Ok::<MidiMessage, RangeError>(
                MidiMessage::NoteOff { channel, note, velocity },
            ),
            !(channel < 16 && note < 128 && velocity < 128) ==> r == Err::<MidiMessage, RangeError>(
                RangeError,
            ),
    {
        if channel < 16 && note < 128 && velocity < 128 {
            Ok(MidiMessage::NoteOff { channel, note, velocity })
        } else {
            Err(RangeError)
        }
    }

    /// Range-checked Control Change constructor.
    pub fn control_change(channel: u8, controller: u8, value: u8) -> (r: Result<
        MidiMessage,
        RangeError,
    >)
        ensures
            channel < 16 && controller < 128 && value < 128 ==> r == Ok::<MidiMessage, RangeError>(
                MidiMessage::ControlChange { channel, controller, value },
            ),
            !(channel < 16 && controller < 128 && value < 128) ==> r == Err::<
                MidiMessage,
                RangeError,
            >(RangeError),
    {
        if channel < 16 && controller < 128 && value < 128 {
            Ok(MidiMessage::ControlChange { channel, controller, value })
        } else {
            Err(RangeError)
        }
    }
}

} // verus!
