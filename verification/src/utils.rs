//! MIDI limits and the packed custom event a pad release sends to the
//! screens.
use vstd::prelude::*;
use crate::text::{push_char, push_int, spec_int};

verus! {

/// Highest MIDI note number.
pub const MAX_MIDI_NOTE: u8 = 127;

/// Highest MIDI channel number (channels are 0 to 15 on the wire).
pub const MAX_MIDI_CHANNELS: u8 = 15;

/// A press held at least this long (milliseconds) is a long press.
pub const LONG_PRESS_THRESHOLD_MS: u32 = 500;

/// A pad release as the screens see it, packed in a `u32`: bits 0-2 hold
/// the pad, bit 3 is set for a long press, bit 4 when the release was a
/// shortcut (the selector was held).
#[derive(Debug, Copy, Clone, PartialEq, Eq, Structural)]
pub struct CustomGraphicsEvent {
    channel: u8,
    long_click: bool,
    shortcut: bool,
}

/// The packed form of an event's fields.
pub open spec fn pack_event(channel: u8, long_click: bool, shortcut: bool) -> u32 {
    (channel as u32 & 7u32) | (if long_click {
        8u32
    } else {
        0u32
    }) | (if shortcut {
        16u32
    } else {
        0u32
    })
}

impl CustomGraphicsEvent {
    pub closed spec fn spec_channel(&self) -> u8 {
        self.channel
    }

    pub closed spec fn spec_long_click(&self) -> bool {
        self.long_click
    }

    pub closed spec fn spec_shortcut(&self) -> bool {
        self.shortcut
    }

    /// The packed value of the event.
    pub open spec fn spec_bits(&self) -> u32 {
        pack_event(self.spec_channel(), self.spec_long_click(), self.spec_shortcut())
    }

    pub open spec fn wf(&self) -> bool {
        self.spec_channel() < 8
    }

    /// Pad 0, short press, no shortcut.
    pub fn new() -> (r: Self)
        ensures
            r.wf(),
            r.spec_channel() == 0,
            !r.spec_long_click(),
            !r.spec_shortcut(),
    {
        CustomGraphicsEvent { channel: 0, long_click: false, shortcut: false }
    }

    pub fn with_channel(self, channel: u8) -> (r: Self)
        requires
            channel < 8,
        ensures
            r.wf(),
            r.spec_channel() == channel,
            r.spec_long_click() == self.spec_long_click(),
            r.spec_shortcut() == self.spec_shortcut(),
    {
        CustomGraphicsEvent { channel, ..self }
    }

    pub fn set_long_click(&mut self, value: bool)
        ensures
            final(self).spec_long_click() == value,
            final(self).spec_channel() == old(self).spec_channel(),
            final(self).spec_shortcut() == old(self).spec_shortcut(),
    {
        self.long_click = value;
    }

    pub fn set_shortcut(&mut self, value: bool)
        ensures
            final(self).spec_shortcut() == value,
            final(self).spec_channel() == old(self).spec_channel(),
            final(self).spec_long_click() == old(self).spec_long_click(),
    {
        self.shortcut = value;
    }

    pub fn get_channel(&self) -> (r: u8)
        ensures
            r == self.spec_channel(),
    {
        self.channel
    }

    pub fn is_long_click(&self) -> (r: bool)
        ensures
            r == self.spec_long_click(),
    {
        self.long_click
    }

    pub fn is_shortcut(&self) -> (r: bool)
        ensures
            r == self.spec_shortcut(),
    {
        self.shortcut
    }

    /// The packed value of the event.
    pub fn bits(&self) -> (r: u32)
        ensures
            r == self.spec_bits(),
    {
        let c: u32 = self.channel as u32 & 7;
        let l: u32 = if self.long_click {
            8
        } else {
            0
        };
        let s: u32 = if self.shortcut {
            16
        } else {
            0
        };
        let ch = self.channel;
        let lc = self.long_click;
        let sc = self.shortcut;
        assert(c | l | s == pack_event(ch, lc, sc)) by (bit_vector)
            requires
                c == ch as u32 & 7u32,
                l == (if lc { 8u32 } else { 0u32 }),
                s == (if sc { 16u32 } else { 0u32 }),
        ;
        c | l | s
    }

    /// The event packed in `value`; bits above bit 4 are ignored.
    pub fn from_bits(value: u32) -> (r: Self)
        ensures
            r.wf(),
            r.spec_channel() == value & 7,
            r.spec_long_click() == (value & 8 != 0),
            r.spec_shortcut() == (value & 16 != 0),
    {
        assert(value & 7 < 8) by (bit_vector);
        CustomGraphicsEvent {
            channel: (value & 7) as u8,
            long_click: value & 8 != 0,
            shortcut: value & 16 != 0,
        }
    }
}

/// The event packed in a value: its low three bits, bit 3 and bit 4.
pub open spec fn unpack_event(value: u32) -> CustomGraphicsEvent {
    CustomGraphicsEvent::spec_from_parts((value & 7) as u8, value & 8 != 0, value & 16 != 0)
}

impl CustomGraphicsEvent {
    pub closed spec fn spec_from_parts(channel: u8, long_click: bool, shortcut: bool) -> Self {
        CustomGraphicsEvent { channel, long_click, shortcut }
    }

    /// An event made of its three fields holds exactly those fields.
    pub proof fn lemma_from_parts(channel: u8, long_click: bool, shortcut: bool)
        ensures
            Self::spec_from_parts(channel, long_click, shortcut).spec_channel() == channel,
            Self::spec_from_parts(channel, long_click, shortcut).spec_long_click() == long_click,
            Self::spec_from_parts(channel, long_click, shortcut).spec_shortcut() == shortcut,
    {
    }
}

impl From<u32> for CustomGraphicsEvent {
    fn from(value: u32) -> (r: Self) {
        let r = Self::from_bits(value);
        proof {
            assert(r == Self::spec_from_parts((value & 7) as u8, value & 8 != 0, value & 16 != 0));
        }
        r
    }
}

impl vstd::std_specs::convert::FromSpecImpl<u32> for CustomGraphicsEvent {
    open spec fn obeys_from_spec() -> bool {
        true
    }

    open spec fn from_spec(v: u32) -> CustomGraphicsEvent {
        unpack_event(v)
    }
}

impl From<CustomGraphicsEvent> for u32 {
    fn from(value: CustomGraphicsEvent) -> (r: u32) {
        value.bits()
    }
}

impl vstd::std_specs::convert::FromSpecImpl<CustomGraphicsEvent> for u32 {
    open spec fn obeys_from_spec() -> bool {
        true
    }

    open spec fn from_spec(v: CustomGraphicsEvent) -> u32 {
        v.spec_bits()
    }
}

/// Unpacking a packed event gives the event back, and packing an unpacked
/// value keeps exactly its low five bits.
pub proof fn lemma_event_roundtrip(channel: u8, long_click: bool, shortcut: bool, value: u32)
    requires
        channel < 8,
    ensures
        pack_event(channel, long_click, shortcut) & 7 == channel as u32,
        (pack_event(channel, long_click, shortcut) & 8 != 0) == long_click,
        (pack_event(channel, long_click, shortcut) & 16 != 0) == shortcut,
        pack_event((value & 7) as u8, value & 8 != 0, value & 16 != 0) == value & 31,
{
    let p = pack_event(channel, long_click, shortcut);
    assert(p & 7 == channel as u32 && (p & 8 != 0) == long_click && (p & 16 != 0) == shortcut)
        by (bit_vector)
        requires
            channel < 8u8,
            p == (channel as u32 & 7u32) | (if long_click { 8u32 } else { 0u32 }) | (if shortcut {
                16u32
            } else {
                0u32
            }),
    ;
    let q = pack_event((value & 7) as u8, value & 8 != 0, value & 16 != 0);
    assert(q == value & 31) by (bit_vector)
        requires
            q == (((value & 7u32) as u8) as u32 & 7u32) | (if value & 8u32 != 0 { 8u32 } else { 0u32 })
                | (if value & 16u32 != 0 { 16u32 } else { 0u32 }),
    ;
}

/// The sequencer step (within a page of eight) a pad stands for.
pub open spec fn spec_pad_to_seq(pad: u8) -> u8 {
    pad
}

/// The sequencer step, within a page of eight, that pad `pad` edits.
pub fn pad_to_seq(pad: u8) -> (r: u8)
    requires
        pad < 8,
    ensures
        r == spec_pad_to_seq(pad),
        r < 8,
{
    pad
}

/// The pad that shows sequencer step `step` of a page of eight.
pub fn seq_to_pad(step: u8) -> (r: u8)
    requires
        step < 8,
    ensures
        spec_pad_to_seq(r) == step,
        r < 8,
{
    step
}

/// The letters of pitch class `pc` (0 = C, ..., 11 = B), sharps written
/// with '#'.
pub open spec fn pitch_name(pc: int) -> Seq<char> {
    if pc == 0 {
        seq!['C']
    } else if pc == 1 {
        seq!['C', '#']
    } else if pc == 2 {
        seq!['D']
    } else if pc == 3 {
        seq!['D', '#']
    } else if pc == 4 {
        seq!['E']
    } else if pc == 5 {
        seq!['F']
    } else if pc == 6 {
        seq!['F', '#']
    } else if pc == 7 {
        seq!['G']
    } else if pc == 8 {
        seq!['G', '#']
    } else if pc == 9 {
        seq!['A']
    } else if pc == 10 {
        seq!['A', '#']
    } else {
        seq!['B']
    }
}

/// Name of MIDI note `value`: pitch class and octave, note 60 being "C4".
pub open spec fn note_name(value: int) -> Seq<char> {
    pitch_name(value % 12) + spec_int(value / 12 - 1)
}

/// The name of MIDI note `value`, e.g. "C4" for 60 and "A#-1" for 10.
pub fn int_to_note(value: i32) -> (r: String)
    ensures
        r@ == note_name(value as int),
{
    let q = value / 12;
    let m = value % 12;
    let (octave, pc): (i32, i32) = if m < 0 {
        (q - 1, m + 12)
    } else {
        (q, m)
    };
    assert(octave == value / 12 && pc == value % 12);
    let mut s = String::new();
    if pc == 0 {
        push_char(&mut s, 'C');
    } else if pc == 1 {
        push_char(&mut s, 'C');
        push_char(&mut s, '#');
    } else if pc == 2 {
        push_char(&mut s, 'D');
    } else if pc == 3 {
        push_char(&mut s, 'D');
        push_char(&mut s, '#');
    } else if pc == 4 {
        push_char(&mut s, 'E');
    } else if pc == 5 {
        push_char(&mut s, 'F');
    } else if pc == 6 {
        push_char(&mut s, 'F');
        push_char(&mut s, '#');
    } else if pc == 7 {
        push_char(&mut s, 'G');
    } else if pc == 8 {
        push_char(&mut s, 'G');
        push_char(&mut s, '#');
    } else if pc == 9 {
        push_char(&mut s, 'A');
    } else if pc == 10 {
        push_char(&mut s, 'A');
        push_char(&mut s, '#');
    } else {
        push_char(&mut s, 'B');
    }
    assert(s@ =~= pitch_name(pc as int));
    push_int(&mut s, octave as i64 - 1);
    s
}

} // verus!
