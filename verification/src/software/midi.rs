//! The MIDI input of the sampler: the note messages the device sends.
use vstd::prelude::*;

verus! {

/// A note starting (note, velocity) or ending (note).
#[derive(Debug, Copy, Clone, PartialEq, Eq, Structural)]
pub enum MIDIEvent {
    NoteOn(u8, u8),
    NoteOff(u8),
}

/// Status byte of the MIDI clock tick.
pub const MIDI_CLOCK: u8 = 0xF8;

/// Status byte of a note-on on the first channel.
pub const NOTE_ON: u8 = 0x90;

/// Status byte of a note-off on the first channel.
pub const NOTE_OFF: u8 = 0x80;

/// The event a received message stands for: note-ons and note-offs on the
/// first channel; clock ticks and every other message stand for none.
pub open spec fn spec_event(message: Seq<u8>) -> Option<MIDIEvent> {
    if message[0] == NOTE_ON {
        Some(MIDIEvent::NoteOn(message[1], message[2]))
    } else if message[0] == NOTE_OFF {
        Some(MIDIEvent::NoteOff(message[1]))
    } else {
        None
    }
}

/// The event a received message stands for. A note-on carries its note
/// and velocity bytes, a note-off its note byte.
pub fn parse_message(message: &[u8]) -> (r: Option<MIDIEvent>)
    requires
        message@.len() >= 1,
        message@[0] == NOTE_ON ==> message@.len() >= 3,
        message@[0] == NOTE_OFF ==> message@.len() >= 2,
    ensures
        r == spec_event(message@),
{
    let status = message[0];
    if status == MIDI_CLOCK {
        return None;
    }
    if status == NOTE_ON {
        Some(MIDIEvent::NoteOn(message[1], message[2]))
    } else if status == NOTE_OFF {
        Some(MIDIEvent::NoteOff(message[1]))
    } else {
        None
    }
}

} // verus!
