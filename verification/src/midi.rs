//! Decoding raw MIDI bytes into the message values the synthesizer acts on.

use vstd::prelude::*;

verus! {

/// A decoded MIDI message.
///
/// The first field of every variant is the channel (0..=15). Notes,
/// controller numbers, velocities and controller values are data bytes in
/// 0..=127; the program of a program change is kept as the raw byte.
/// Channel messages the synthesizer has no use for (aftertouch, pitch
/// bend) decode to `Other`.
#[derive(Clone, Copy, Debug, PartialEq, Eq, Structural)]
pub enum MidiMessage {
    NoteOn(u8, u8, u8),
    NoteOff(u8, u8, u8),
    ControlChange(u8, u8, u8),
    ProgramChange(u8, u8),
    Other,
}

/// What can go wrong in the synthesizer core.
#[derive(Clone, Copy, Debug, PartialEq, Eq, Structural)]
pub enum SynthError {
    /// A program change named a program with no registered engine.
    UnsupportedProgram,
    /// A raw message could not be decoded: wrong length, a status byte
    /// outside the channel-message range, or a data byte out of range.
    MalformedMidiMessage,
}

/// The meaning of a raw MIDI message.
///
/// Exactly the three-byte channel messages decode; anything shorter or
/// longer (system exclusive among them) is malformed, and so is a first
/// byte outside the status range 0x80..=0xEF or a data byte with its top
/// bit set. A program change keeps its raw program byte; its trailing
/// byte carries no information and is ignored.
pub open spec fn spec_decode(bytes: Seq<u8>) -> Result<MidiMessage, SynthError> {
    if bytes.len() != 3 {
        Err(SynthError::MalformedMidiMessage)
    } else {
        let status = bytes[0];
        let d1 = bytes[1];
        let d2 = bytes[2];
        let channel = status % 16;
        if status / 16 == 8 {
            if d1 < 128 && d2 < 128 {
                Ok(MidiMessage::NoteOff(channel, d1, d2))
            } else {
                Err(SynthError::MalformedMidiMessage)
            }
        } else if status / 16 == 9 {
            if d1 < 128 && d2 < 128 {
                Ok(MidiMessage::NoteOn(channel, d1, d2))
            } else {
                Err(SynthError::MalformedMidiMessage)
            }
        } else if status / 16 == 11 {
            if d1 < 128 && d2 < 128 {
                Ok(MidiMessage::ControlChange(channel, d1, d2))
            } else {
                Err(SynthError::MalformedMidiMessage)
            }
        } else if status / 16 == 12 {
            Ok(MidiMessage::ProgramChange(channel, d1))
        } else if status / 16 == 10 || status / 16 == 13 || status / 16 == 14 {
            Ok(MidiMessage::Other)
        } else {
            Err(SynthError::MalformedMidiMessage)
        }
    }
}

/// Decode one raw MIDI message.
///
/// The length is checked before any byte is read, so a short or long
/// message is reported as malformed rather than faulted on.
pub fn decode_midi_message(bytes: &[u8]) -> (r: Result<MidiMessage, SynthError>)
    ensures
        r == spec_decode(bytes@),
{
    if bytes.len() != 3 {
        return Err(SynthError::MalformedMidiMessage);
    }
    let status: u8 = bytes[0];
    let d1: u8 = bytes[1];
    let d2: u8 = bytes[2];
    let channel: u8 = status % 16;
    match status / 16 {
        8 => {
            if d1 < 128 && d2 < 128 {
                Ok(MidiMessage::NoteOff(channel, d1, d2))
            } else {
                Err(SynthError::MalformedMidiMessage)
            }
        },
        9 => {
            if d1 < 128 && d2 < 128 {
                Ok(MidiMessage::NoteOn(channel, d1, d2))
            } else {
                Err(SynthError::MalformedMidiMessage)
            }
        },
        11 => {
            if d1 < 128 && d2 < 128 {
                Ok(MidiMessage::ControlChange(channel, d1, d2))
            } else {
                Err(SynthError::MalformedMidiMessage)
            }
        },
        12 => Ok(MidiMessage::ProgramChange(channel, d1)),
        10 | 13 | 14 => Ok(MidiMessage::Other),
        _ => Err(SynthError::MalformedMidiMessage),
    }
}

} // verus!
