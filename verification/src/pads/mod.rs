//! Drum pads: a per-pad hit detector turning ADC samples into note-on and
//! note-off events, and the scanner that walks the eight pads.
use vstd::prelude::*;
use crate::midi::MidiType;
use crate::ads1015::{MuxConfig, mux_of_value};
use crate::settings_components::pads::PadConfig;

pub mod task;

use crate::pads::task::{TaskState, TaskStatus};

verus! {

/// Number of pads on the device.
pub const PADS: usize = 8;

/// Time, in milliseconds, a hit is watched for its peak before it sounds.
pub const ATTACK_MS: u32 = 5;

#[derive(Debug, Copy, Clone, PartialEq, Eq, Structural)]
pub struct PadInputEvent {
    pub index: u8,
    pub channel: u8,
    pub note: u8,
    pub velocity: u8,
    pub midi_type: MidiType,
}

/// A pad being pressed or released, as seen by the user interface.
#[derive(Debug, Copy, Clone, PartialEq, Eq, Structural)]
pub struct PadButtonEvent {
    pub index: u8,
    pub pressed: bool,
}

/// Phase of a hit on one pad.
#[derive(Debug, Copy, Clone, PartialEq, Eq, Structural)]
pub enum PadState {
    Idle,
    Attack,
    Sustain,
    Release,
}

#[derive(Debug, Copy, Clone, PartialEq, Eq, Structural)]
pub enum PadPressType {
    OneShot,
}

#[derive(Debug, Copy, Clone, PartialEq, Eq, Structural)]
pub struct DrumPad {
    // MIDI settings
    pub note: u8,
    pub channel: u8,
    // internal settings
    pub press_type: PadPressType,
    pub threshold: u16,
    // states
    pub state: PadState,
    pub peak: u16,
    pub timer_start: u32,
}

/// The level a sustained hit must fall under to be released: 80% of the
/// trigger threshold, rounded down.
pub open spec fn release_level(threshold: u16) -> int {
    (threshold as int * 4) / 5
}

/// Velocity of a hit with the given peak sample: the 12-bit sample scaled
/// to 7 bits, saturating at 127.
pub open spec fn peak_velocity(peak: u16) -> u8 {
    if peak > 2047 {
        127
    } else {
        (peak / 16) as u8
    }
}

impl DrumPad {
    pub open spec fn spec_state(&self) -> PadState {
        self.state
    }

    pub open spec fn spec_peak(&self) -> u16 {
        self.peak
    }

    pub open spec fn spec_timer_start(&self) -> u32 {
        self.timer_start
    }

    /// Same MIDI and detection settings; the hit state is free.
    pub open spec fn same_settings(&self, other: &DrumPad) -> bool {
        &&& self.note == other.note
        &&& self.channel == other.channel
        &&& self.press_type == other.press_type
        &&& self.threshold == other.threshold
    }

    /// An idle pad with the given settings.
    pub fn new(note: u8, channel: u8, press_type: PadPressType, threshold: u16) -> (r: Self)
        ensures
            r.note == note,
            r.channel == channel,
            r.press_type == press_type,
            r.threshold == threshold,
            r.spec_state() == PadState::Idle,
            r.spec_peak() == 0,
            r.spec_timer_start() == 0,
    {
        DrumPad { note, channel, press_type, threshold, state: PadState::Idle, peak: 0, timer_start: 0 }
    }

    pub fn state(&self) -> (r: PadState)
        ensures
            r == self.spec_state(),
    {
        self.state
    }
}

/// One step of a pad's hit detector, from `s` to `f`, with the sample
/// `value` taken at `now` and the event `r` for pad `index`: the settings
/// stay; Idle starts an attack when the sample passes the threshold; Attack
/// follows the peak and, 5 ms after it began, sounds the note with a
/// velocity taken from the peak; Sustain starts the release when a sample
/// falls under 80% of the threshold; Release ends the note.
pub open spec fn pad_step(
    s: DrumPad,
    f: DrumPad,
    index: u8,
    value: u16,
    now: u32,
    r: Option<PadInputEvent>,
) -> bool {
    &&& f.same_settings(&s)
    &&& match s.spec_state() {
        PadState::Idle => {
            &&& r is None
            &&& if value > s.threshold {
                f.spec_state() == PadState::Attack && f.spec_peak() == value
                    && f.spec_timer_start() == now
            } else {
                f == s
            }
        },
        PadState::Attack => {
            let peak = if value > s.spec_peak() {
                value
            } else {
                s.spec_peak()
            };
            &&& f.spec_peak() == peak
            &&& f.spec_timer_start() == s.spec_timer_start()
            &&& if now - s.spec_timer_start() >= ATTACK_MS {
                &&& f.spec_state() == PadState::Sustain
                &&& r == Some(
                    PadInputEvent {
                        index,
                        channel: s.channel,
                        note: s.note,
                        velocity: peak_velocity(peak),
                        midi_type: MidiType::NoteOn,
                    },
                )
            } else {
                f.spec_state() == PadState::Attack && r is None
            }
        },
        PadState::Sustain => {
            &&& r is None
            &&& if (value as int) < release_level(s.threshold) {
                f.spec_state() == PadState::Release && f.spec_timer_start() == now
                    && f.spec_peak() == s.spec_peak()
            } else {
                f == s
            }
        },
        PadState::Release => {
            &&& f.spec_state() == PadState::Idle
            &&& f.spec_peak() == s.spec_peak()
            &&& f.spec_timer_start() == s.spec_timer_start()
            &&& r == Some(
                PadInputEvent {
                    index,
                    channel: s.channel,
                    note: s.note,
                    velocity: 0,
                    midi_type: MidiType::NoteOff,
                },
            )
        },
    }
}

/// One sample `value` of pad `index` taken at time `now` (milliseconds).
///
/// Idle: a sample above the threshold starts an attack. Attack: the peak is
/// tracked; 5 ms after the attack began the hit sounds with a velocity taken
/// from the peak. Sustain: a sample under 80% of the threshold starts the
/// release. Release: the next sample ends the note.
pub fn process_pad_physics(index: u8, settings: &mut DrumPad, value: u16, now: u32) -> (r: Option<
    PadInputEvent,
>)
    requires
        old(settings).spec_state() == PadState::Attack ==> now >= old(settings).spec_timer_start(),
    ensures
        pad_step(*old(settings), *final(settings), index, value, now, r),
        r is Some ==> r->0.velocity <= 127,
{
    match settings.state {
        PadState::Idle => {
            if value > settings.threshold {
                settings.state = PadState::Attack;
                settings.peak = value;
                settings.timer_start = now;
            }
            None
        },
        PadState::Attack => {
            if value > settings.peak {
                settings.peak = value;
            }
            if now - settings.timer_start >= ATTACK_MS {
                let velocity: u16 = if settings.peak > 2047 {
                    127
                } else {
                    settings.peak >> 4
                };
                let peak = settings.peak;
                assert(peak <= 2047 ==> peak >> 4 == peak / 16 && peak / 16 <= 127) by (bit_vector);
                settings.state = PadState::Sustain;
                Some(
                    PadInputEvent {
                        index,
                        channel: settings.channel,
                        note: settings.note,
                        velocity: velocity as u8,
                        midi_type: MidiType::NoteOn,
                    },
                )
            } else {
                None
            }
        },
        PadState::Sustain => {
            let level: u32 = (settings.threshold as u32 * 4) / 5;
            if (value as u32) < level {
                settings.state = PadState::Release;
                settings.timer_start = now;
            }
            None
        },
        PadState::Release => {
            settings.state = PadState::Idle;
            Some(
                PadInputEvent {
                    index,
                    channel: settings.channel,
                    note: settings.note,
                    velocity: 0,
                    midi_type: MidiType::NoteOff,
                },
            )
        },
    }
}

/// A hit runs Idle, Attack, Sustain, Release and back to Idle: a note-on
/// comes only out of Attack and a note-off only out of Release, so between
/// two note-offs of a pad there is a note-on.
pub proof fn lemma_pad_cycle(s: PadState, f: PadState, r: Option<PadInputEvent>)
    requires
        pad_step_shape(s, f, r),
    ensures
        event_is(r, MidiType::NoteOn) ==> s == PadState::Attack && f == PadState::Sustain,
        event_is(r, MidiType::NoteOff) ==> s == PadState::Release && f == PadState::Idle,
        f == s || f == next_pad_state(s),
{
}

/// `r` holds an event of kind `t`.
pub open spec fn event_is(r: Option<PadInputEvent>, t: MidiType) -> bool {
    r matches Some(e) && e.midi_type == t
}

/// The state that follows `s` in a hit.
pub open spec fn next_pad_state(s: PadState) -> PadState {
    match s {
        PadState::Idle => PadState::Attack,
        PadState::Attack => PadState::Sustain,
        PadState::Sustain => PadState::Release,
        PadState::Release => PadState::Idle,
    }
}

/// The shape of one step of `process_pad_physics`, as its contract gives it.
pub open spec fn pad_step_shape(s: PadState, f: PadState, r: Option<PadInputEvent>) -> bool {
    match s {
        PadState::Idle => r is None && (f == PadState::Idle || f == PadState::Attack),
        PadState::Attack => (f == PadState::Attack && r is None) || (f == PadState::Sustain && event_is(r, MidiType::NoteOn)),
        PadState::Sustain => r is None && (f == PadState::Sustain || f == PadState::Release),
        PadState::Release => f == PadState::Idle && event_is(r, MidiType::NoteOff),
    }
}

/// Every step of `process_pad_physics` has the shape the cycle law speaks of.
pub proof fn lemma_process_pad_physics_shape(
    old_pad: DrumPad,
    new_pad: DrumPad,
    index: u8,
    value: u16,
    now: u32,
    r: Option<PadInputEvent>,
)
    requires
        old_pad.spec_state() == PadState::Attack ==> now >= old_pad.spec_timer_start(),
        pad_step(old_pad, new_pad, index, value, now, r),
    ensures
        pad_step_shape(old_pad.spec_state(), new_pad.spec_state(), r),
{
}

/// Whether a pad in state `s` is between hits, waiting to sound a note.
pub open spec fn awaits_note_on(s: PadState) -> bool {
    s == PadState::Idle || s == PadState::Attack
}

/// The kind of the last event among the first `j` results of a run of
/// steps, if any.
pub open spec fn last_kind(events: Seq<Option<PadInputEvent>>, j: int) -> Option<MidiType>
    decreases j,
{
    if j <= 0 {
        None
    } else if events[j - 1] is Some {
        Some(events[j - 1]->0.midi_type)
    } else {
        last_kind(events, j - 1)
    }
}

/// A run of steps of pad `index`: `pads[k]` becomes `pads[k + 1]` on the
/// sample `values[k]` taken at `times[k]`, giving `events[k]`.
pub open spec fn pad_run(
    pads: Seq<DrumPad>,
    index: u8,
    values: Seq<u16>,
    times: Seq<u32>,
    events: Seq<Option<PadInputEvent>>,
) -> bool {
    &&& pads.len() == events.len() + 1
    &&& values.len() == events.len()
    &&& times.len() == events.len()
    &&& forall|k: int|
        0 <= k < events.len() ==> #[trigger] pad_step(
            pads[k],
            pads[k + 1],
            index,
            values[k],
            times[k],
            events[k],
        )
}

proof fn lemma_pad_run_phase(
    pads: Seq<DrumPad>,
    index: u8,
    values: Seq<u16>,
    times: Seq<u32>,
    events: Seq<Option<PadInputEvent>>,
    j: int,
)
    requires
        pad_run(pads, index, values, times, events),
        pads[0].spec_state() == PadState::Idle,
        0 <= j <= events.len(),
    ensures
        awaits_note_on(pads[j].spec_state()) <==> last_kind(events, j) != Some(MidiType::NoteOn),
        last_kind(events, j) is Some ==> last_kind(events, j) == Some(MidiType::NoteOn) || last_kind(
            events,
            j,
        ) == Some(MidiType::NoteOff),
        pads[j].same_settings(&pads[0]),
    decreases j,
{
    if j > 0 {
        let k = j - 1;
        lemma_pad_run_phase(pads, index, values, times, events, k);
        assert(pad_step(pads[k], pads[k + 1], index, values[k], times[k], events[k]));
    }
}

/// A pad that starts idle sounds and ends its notes in turn: its events
/// alternate note-on, note-off, note-on, ..., starting with a note-on; two
/// steps in a row never both give an event; every event is for pad
/// `index` with the pad's note and channel, a note-on's velocity is at most
/// 127 and a note-off's is 0.
pub proof fn lemma_pad_alternation(
    pads: Seq<DrumPad>,
    index: u8,
    values: Seq<u16>,
    times: Seq<u32>,
    events: Seq<Option<PadInputEvent>>,
)
    requires
        pad_run(pads, index, values, times, events),
        pads[0].spec_state() == PadState::Idle,
    ensures
        forall|j: int|
            0 <= j < events.len() && event_is(#[trigger] events[j], MidiType::NoteOn) ==> last_kind(
                events,
                j,
            ) != Some(MidiType::NoteOn),
        forall|j: int|
            0 <= j < events.len() && event_is(#[trigger] events[j], MidiType::NoteOff) ==> last_kind(
                events,
                j,
            ) == Some(MidiType::NoteOn),
        forall|j: int|
            0 <= j < events.len() - 1 && #[trigger] events[j] is Some ==> events[j + 1] is None,
        forall|j: int|
            0 <= j < events.len() && #[trigger] events[j] is Some ==> {
                let e = events[j]->0;
                &&& e.index == index
                &&& e.note == pads[0].note
                &&& e.channel == pads[0].channel
                &&& e.velocity <= 127
                &&& e.midi_type == MidiType::NoteOff ==> e.velocity == 0
                &&& e.midi_type == MidiType::NoteOn || e.midi_type == MidiType::NoteOff
            },
{
    assert forall|j: int| 0 <= j < events.len() && #[trigger] events[j] is Some implies {
        let e = events[j]->0;
        &&& e.index == index
        &&& e.note == pads[0].note
        &&& e.channel == pads[0].channel
        &&& e.velocity <= 127
        &&& e.midi_type == MidiType::NoteOff ==> e.velocity == 0
        &&& e.midi_type == MidiType::NoteOn || e.midi_type == MidiType::NoteOff
        &&& event_is(events[j], MidiType::NoteOn) ==> last_kind(events, j) != Some(MidiType::NoteOn)
        &&& event_is(events[j], MidiType::NoteOff) ==> last_kind(events, j) == Some(MidiType::NoteOn)
        &&& j + 1 < events.len() ==> events[j + 1] is None
    } by {
        lemma_pad_run_phase(pads, index, values, times, events, j);
        assert(pad_step(pads[j], pads[j + 1], index, values[j], times[j], events[j]));
        if j + 1 < events.len() {
            let k = j + 1;
            assert(pad_step(pads[k], pads[k + 1], index, values[k], times[k], events[k]));
        }
    }
}

/// Feeds pad `index` the samples `values`, taken at the times `times`, one
/// after the other, and answers what each step gave. Every step is a step
/// of `process_pad_physics`; from an idle pad the events alternate
/// note-on, note-off, note-on, ..., starting with a note-on, two steps in
/// a row never both give an event, and every event is for this pad.
pub fn process_pad_run(index: u8, pad: &mut DrumPad, values: &Vec<u16>, times: &Vec<u32>) -> (r: Vec<
    Option<PadInputEvent>,
>)
    requires
        values@.len() == times@.len(),
        forall|i: int, j: int| 0 <= i <= j < times@.len() ==> times@[i] <= times@[j],
        old(pad).spec_state() == PadState::Attack && times@.len() > 0 ==> old(
            pad,
        ).spec_timer_start() <= times@[0],
    ensures
        r@.len() == values@.len(),
        exists|pads: Seq<DrumPad>|
            {
                &&& pads[0] == *old(pad)
                &&& pads.last() == *final(pad)
                &&& #[trigger] pad_run(pads, index, values@, times@, r@)
            },
        old(pad).spec_state() == PadState::Idle ==> {
            &&& forall|j: int|
                0 <= j < r@.len() && event_is(#[trigger] r@[j], MidiType::NoteOn) ==> last_kind(
                    r@,
                    j,
                ) != Some(MidiType::NoteOn)
            &&& forall|j: int|
                0 <= j < r@.len() && event_is(#[trigger] r@[j], MidiType::NoteOff) ==> last_kind(
                    r@,
                    j,
                ) == Some(MidiType::NoteOn)
            &&& forall|j: int| 0 <= j < r@.len() - 1 && #[trigger] r@[j] is Some ==> r@[j + 1] is None
            &&& forall|j: int|
                0 <= j < r@.len() && #[trigger] r@[j] is Some ==> {
                    let e = r@[j]->0;
                    &&& e.index == index
                    &&& e.note == old(pad).note
                    &&& e.channel == old(pad).channel
                    &&& e.velocity <= 127
                    &&& e.midi_type == MidiType::NoteOff ==> e.velocity == 0
                }
        },
{
    let mut events: Vec<Option<PadInputEvent>> = Vec::new();
    let ghost mut pads: Seq<DrumPad> = seq![*pad];
    let n = values.len();
    let mut i: usize = 0;
    while i < n
        invariant
            n == values@.len(),
            n == times@.len(),
            i <= n,
            forall|a: int, b: int| 0 <= a <= b < times@.len() ==> times@[a] <= times@[b],
            i < n && pad.spec_state() == PadState::Attack ==> pad.spec_timer_start() <= times@[i as int],
            events@.len() == i,
            pads.len() == i + 1,
            pads[0] == *old(pad),
            pads.last() == *pad,
            pad_run(pads, index, values@.take(i as int), times@.take(i as int), events@),
        decreases n - i,
    {
        let ghost before = *pad;
        let e = process_pad_physics(index, pad, values[i], times[i]);
        events.push(e);
        proof {
            let vs = values@.take(i + 1);
            let ts = times@.take(i + 1);
            let next = pads.push(*pad);
            assert forall|k: int| 0 <= k < events@.len() implies #[trigger] pad_step(
                next[k],
                next[k + 1],
                index,
                vs[k],
                ts[k],
                events@[k],
            ) by {
                if k < i {
                    assert(pad_step(
                        pads[k],
                        pads[k + 1],
                        index,
                        values@.take(i as int)[k],
                        times@.take(i as int)[k],
                        events@[k],
                    ));
                }
            }
            pads = next;
            if i + 1 < n {
                assert(times@[i as int] <= times@[i + 1]);
            }
        }
        i = i + 1;
    }
    proof {
        assert(values@.take(n as int) =~= values@);
        assert(times@.take(n as int) =~= times@);
        if old(pad).spec_state() == PadState::Idle {
            lemma_pad_alternation(pads, index, values@, times@, events@);
        }
    }
    events
}

/// The hit detectors of all eight pads and the scanner state: which
/// multiplexer input of the two converters is being sampled.
pub struct PadsManager {
    settings: Vec<DrumPad>,
    pads: Vec<DrumPad>,
    task_status: TaskState,
    channel: usize,
}

/// What one scan of a converter pair produced.
pub struct PadsScan {
    pub events: Vec<PadInputEvent>,
    /// The multiplexer input both converters must switch to next.
    pub next_mux: MuxConfig,
}

impl PadsManager {
    pub closed spec fn spec_settings(&self) -> Seq<DrumPad> {
        self.settings@
    }

    /// The detectors the scanner runs, a copy of the settings taken at the
    /// last update.
    pub closed spec fn spec_pads(&self) -> Seq<DrumPad> {
        self.pads@
    }

    pub closed spec fn spec_status(&self) -> TaskStatus {
        self.task_status.spec_status()
    }

    /// The converter input (0 to 3) sampled next.
    pub closed spec fn spec_channel(&self) -> int {
        self.channel as int
    }

    pub open spec fn wf(&self) -> bool {
        &&& self.spec_settings().len() == PADS
        &&& self.spec_pads().len() == PADS
        &&& 0 <= self.spec_channel() < 4
    }

    /// Eight idle pads on notes 60 to 67, channel 0, threshold 50; the
    /// scanner runs and starts at input 0.
    pub fn new() -> (r: Self)
        ensures
            r.wf(),
            r.spec_status() == TaskStatus::Running,
            r.spec_channel() == 0,
            forall|i: int|
                0 <= i < PADS ==> {
                    let p = #[trigger] r.spec_settings()[i];
                    &&& p.note == 60 + i
                    &&& p.channel == 0
                    &&& p.press_type == PadPressType::OneShot
                    &&& p.threshold == 50
                    &&& p.spec_state() == PadState::Idle
                },
            r.spec_pads() == r.spec_settings(),
    {
        let mut settings: Vec<DrumPad> = Vec::new();
        let mut i: u8 = 0;
        while i < 8
            invariant
                i <= 8,
                settings@.len() == i,
                forall|k: int|
                    0 <= k < i ==> {
                        let p = #[trigger] settings@[k];
                        &&& p.note == 60 + k
                        &&& p.channel == 0
                        &&& p.press_type == PadPressType::OneShot
                        &&& p.threshold == 50
                        &&& p.spec_state() == PadState::Idle
                    },
            decreases 8 - i,
        {
            settings.push(DrumPad::new(60 + i, 0, PadPressType::OneShot, 50));
            i = i + 1;
        }
        let pads = settings.clone();
        PadsManager { settings, pads, task_status: TaskState::new(TaskStatus::Running), channel: 0 }
    }

    /// The shared pad settings.
    pub fn get_pad_settings(&self) -> (r: Vec<DrumPad>)
        ensures
            r@ == self.spec_settings(),
    {
        self.settings.clone()
    }

    /// Asks the scanner to take over the shared settings on its next turn.
    pub fn commit_pad_settings(&mut self)
        requires
            old(self).wf(),
        ensures
            final(self).wf(),
            final(self).spec_status() == TaskStatus::Updating,
            final(self).spec_settings() == old(self).spec_settings(),
            final(self).spec_pads() == old(self).spec_pads(),
            final(self).spec_channel() == old(self).spec_channel(),
    {
        self.task_status.set(TaskStatus::Updating);
    }

    /// Writes the stored pad configurations into the shared settings and
    /// asks the scanner to take them over.
    pub fn request_update_settings(&mut self, configs: &Vec<PadConfig>)
        requires
            old(self).wf(),
            configs@.len() == PADS,
        ensures
            final(self).wf(),
            final(self).spec_status() == TaskStatus::Updating,
            final(self).spec_pads() == old(self).spec_pads(),
            final(self).spec_channel() == old(self).spec_channel(),
            forall|i: int|
                0 <= i < PADS ==> {
                    let p = #[trigger] final(self).spec_settings()[i];
                    let c = configs@[i];
                    &&& p.note == c.note
                    &&& p.channel == c.channel
                    &&& p.press_type == c.press_type
                    &&& p.threshold == c.threshold
                    &&& p.spec_state() == old(self).spec_settings()[i].spec_state()
                },
    {
        let mut i: usize = 0;
        while i < PADS
            invariant
                i <= PADS,
                self.settings@.len() == PADS,
                self.pads == old(self).pads,
                self.channel == old(self).channel,
                self.task_status == old(self).task_status,
                configs@.len() == PADS,
                forall|k: int|
                    0 <= k < i ==> {
                        let p = #[trigger] self.settings@[k];
                        let c = configs@[k];
                        &&& p.note == c.note
                        &&& p.channel == c.channel
                        &&& p.press_type == c.press_type
                        &&& p.threshold == c.threshold
                        &&& p.spec_state() == old(self).settings@[k].spec_state()
                    },
                forall|k: int| i <= k < PADS ==> #[trigger] self.settings@[k] == old(self).settings@[k],
            decreases PADS - i,
        {
            let mut pad = self.settings[i];
            let c = &configs[i];
            pad.note = c.note;
            pad.channel = c.channel;
            pad.press_type = c.press_type;
            pad.threshold = c.threshold;
            self.settings.set(i, pad);
            i = i + 1;
        }
        self.task_status.set(TaskStatus::Updating);
    }

    pub fn status(&self) -> (r: TaskStatus)
        ensures
            r == self.spec_status(),
    {
        self.task_status.get()
    }

    /// The scanner's update turn: it takes over the shared settings and runs.
    pub fn take_settings(&mut self)
        requires
            old(self).wf(),
        ensures
            final(self).wf(),
            final(self).spec_pads() == old(self).spec_settings(),
            final(self).spec_settings() == old(self).spec_settings(),
            final(self).spec_status() == TaskStatus::Running,
            final(self).spec_channel() == old(self).spec_channel(),
    {
        self.pads = self.settings.clone();
        self.task_status.set(TaskStatus::Running);
    }

    /// The scanner's sampling turn: `value1` and `value2` are the samples of
    /// the current input of the first and second converter, taken at `now`.
    /// Pad `c` is fed `value1` and pad `c + 4` is fed `value2`; the events are
    /// returned in that order, and the scanner moves to the next input.
    pub fn scan(&mut self, value1: u16, value2: u16, now: u32) -> (r: PadsScan)
        requires
            old(self).wf(),
            old(self).spec_pads()[old(self).spec_channel()].spec_state() == PadState::Attack ==> now
                >= old(self).spec_pads()[old(self).spec_channel()].spec_timer_start(),
            old(self).spec_pads()[old(self).spec_channel() + 4].spec_state() == PadState::Attack
                ==> now >= old(self).spec_pads()[old(self).spec_channel() + 4].spec_timer_start(),
        ensures
            final(self).wf(),
            final(self).spec_settings() == old(self).spec_settings(),
            final(self).spec_status() == old(self).spec_status(),
            ({
                let c = old(self).spec_channel();
                let p = old(self).spec_pads();
                let q = final(self).spec_pads();
                exists|e1: Option<PadInputEvent>, e2: Option<PadInputEvent>|
                    {
                        &&& pad_step(p[c], q[c], c as u8, value1, now, e1)
                        &&& pad_step(p[c + 4], q[c + 4], (c + 4) as u8, value2, now, e2)
                        &&& r.events@ == option_seq(e1) + option_seq(e2)
                    }
            }),
            forall|i: int|
                0 <= i < PADS && i != old(self).spec_channel() && i != old(self).spec_channel() + 4
                    ==> #[trigger] final(self).spec_pads()[i] == old(self).spec_pads()[i],
            final(self).spec_channel() == (old(self).spec_channel() + 1) % 4,
            r.next_mux == mux_of_value(((old(self).spec_channel() + 1) % 4) as u8),
    {
        let channel = self.channel;
        let mut events: Vec<PadInputEvent> = Vec::new();
        let mut pad1 = self.pads[channel];
        let e1 = process_pad_physics(channel as u8, &mut pad1, value1, now);
        self.pads.set(channel, pad1);
        let mut pad2 = self.pads[channel + 4];
        let e2 = process_pad_physics((channel as u8) + 4, &mut pad2, value2, now);
        self.pads.set(channel + 4, pad2);
        if let Some(item) = e1 {
            events.push(item);
        }
        if let Some(item) = e2 {
            events.push(item);
        }
        assert(events@ =~= option_seq(e1) + option_seq(e2));
        self.channel = (channel + 1) % 4;
        let next_mux = MuxConfig::mux_from(self.channel as u8);
        PadsScan { events, next_mux }
    }
}

/// The sequence holding the value of an option, if any.
pub open spec fn option_seq<T>(o: Option<T>) -> Seq<T> {
    match o {
        Some(x) => seq![x],
        None => Seq::empty(),
    }
}

/// A hit sounds with a velocity proportional to its peak: the note-on of
/// a step carries a sixteenth of the loudest 12-bit sample of the attack,
/// saturating at 127 only for peaks above 2047; the peak is the larger of
/// the peak so far and the new sample.
pub proof fn lemma_note_on_velocity(
    s: DrumPad,
    f: DrumPad,
    index: u8,
    value: u16,
    now: u32,
    r: Option<PadInputEvent>,
)
    requires
        pad_step(s, f, index, value, now, r),
        event_is(r, MidiType::NoteOn),
    ensures
        s.spec_state() == PadState::Attack,
        f.spec_peak() as int == if value > s.spec_peak() {
            value as int
        } else {
            s.spec_peak() as int
        },
        f.spec_peak() <= 2047 ==> r->0.velocity as int == f.spec_peak() as int / 16,
        f.spec_peak() > 2047 ==> r->0.velocity == 127,
        r->0.velocity <= 127,
{
}

} // verus!
