//! MIDI message kinds and the four-byte USB-MIDI packets the device emits.
use vstd::prelude::*;

verus! {

/// The USB-MIDI output port. Sending is done by the firmware around the
/// library; here it only names the packets that go out.
pub struct MIDI;

/// The two channel-voice messages the device produces.
#[derive(Debug, Copy, Clone, PartialEq, Eq, Structural)]
pub enum MidiType {
    NoteOn,
    NoteOff,
}

/// USB-MIDI code index number and MIDI status byte of a message kind.
pub open spec fn midi_type_bytes(t: MidiType) -> (u8, u8) {
    match t {
        MidiType::NoteOn => (0x09u8, 0x90u8),
        MidiType::NoteOff => (0x08u8, 0x80u8),
    }
}

impl From<MidiType> for (u8, u8) {
    fn from(value: MidiType) -> (r: (u8, u8)) {
        match value {
            MidiType::NoteOn => (0x09, 0x90),
            MidiType::NoteOff => (0x08, 0x80),
        }
    }
}

impl vstd::std_specs::convert::FromSpecImpl<MidiType> for (u8, u8) {
    open spec fn obeys_from_spec() -> bool {
        true
    }

    open spec fn from_spec(v: MidiType) -> (u8, u8) {
        midi_type_bytes(v)
    }
}

/// One USB-MIDI event packet: cable/code-index byte, status byte and two
/// data bytes, in the order they go on the wire.
#[derive(Debug, Copy, Clone, PartialEq, Eq, Structural)]
pub struct MidiPacket {
    pub header: u8,
    pub status: u8,
    pub data1: u8,
    pub data2: u8,
}

impl MidiPacket {
    /// The four bytes handed to the USB stack.
    pub fn to_bytes(&self) -> (r: [u8; 4])
        ensures
            r@ == seq![self.header, self.status, self.data1, self.data2],
    {
        [self.header, self.status, self.data1, self.data2]
    }

    /// Note-on packet on cable 0, channel 1.
    pub fn note_on(note: u8, velocity: u8) -> (r: MidiPacket)
        ensures
            r == note_on_packet(note, velocity),
    {
        MidiPacket { header: 0x09, status: 0x90, data1: note, data2: velocity }
    }

    /// Note-off packet on cable 0, channel 1.
    pub fn note_off(note: u8, velocity: u8) -> (r: MidiPacket)
        ensures
            r == note_off_packet(note, velocity),
    {
        MidiPacket { header: 0x08, status: 0x80, data1: note, data2: velocity }
    }
}

pub open spec fn note_on_packet(note: u8, velocity: u8) -> MidiPacket {
    MidiPacket { header: 0x09, status: 0x90, data1: note, data2: velocity }
}

pub open spec fn note_off_packet(note: u8, velocity: u8) -> MidiPacket {
    MidiPacket { header: 0x08, status: 0x80, data1: note, data2: velocity }
}

/// The MIDI timing-clock packet sent on every quantizer tick.
pub open spec fn sync_packet() -> MidiPacket {
    MidiPacket { header: 0x0F, status: 0xF8, data1: 0, data2: 0 }
}

impl MIDI {
    /// The timing-clock packet sent on every quantizer tick.
    pub fn sync() -> (r: MidiPacket)
        ensures
            r == sync_packet(),
    {
        MidiPacket { header: 0x0F, status: 0xF8, data1: 0, data2: 0 }
    }
}

} // verus!
