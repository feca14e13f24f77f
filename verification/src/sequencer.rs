//! Step sequencer: a project of tracks, each a list of trigger positions,
//! played sixteen steps per loop against the quantizer clock.
use vstd::prelude::*;
use crate::midi::{MidiPacket, note_on_packet, note_off_packet};

verus! {

/// How many sixteenth-steps one trigger position of a track covers.
#[derive(Debug, Copy, Clone, PartialEq, Eq, Structural)]
pub enum SequencerResolution {
    Quarter,
    HalfBeat,
    Beat,
    Loop,
}

impl SequencerResolution {
    /// Number of steps a trigger position spans.
    pub open spec fn spec_steps(self) -> u8 {
        match self {
            SequencerResolution::Quarter => 1,
            SequencerResolution::HalfBeat => 2,
            SequencerResolution::Beat => 4,
            SequencerResolution::Loop => 16,
        }
    }

    /// Position of the resolution in the menu order.
    pub open spec fn spec_index(self) -> i32 {
        match self {
            SequencerResolution::Quarter => 0,
            SequencerResolution::HalfBeat => 1,
            SequencerResolution::Beat => 2,
            SequencerResolution::Loop => 3,
        }
    }

    /// Number of steps a trigger position spans (1, 2, 4 or 16).
    pub fn steps(&self) -> (r: u8)
        ensures
            r == self.spec_steps(),
    {
        match self {
            SequencerResolution::Quarter => 1,
            SequencerResolution::HalfBeat => 2,
            SequencerResolution::Beat => 4,
            SequencerResolution::Loop => 16,
        }
    }

    pub fn as_index(&self) -> (r: i32)
        ensures
            r == self.spec_index(),
            0 <= r <= 3,
    {
        match self {
            SequencerResolution::Quarter => 0,
            SequencerResolution::HalfBeat => 1,
            SequencerResolution::Beat => 2,
            SequencerResolution::Loop => 3,
        }
    }

    /// Inverse of `as_index`; only the four menu positions exist.
    pub fn from_index(index: i32) -> (r: Self)
        requires
            0 <= index <= 3,
        ensures
            r == resolution_of_index(index),
    {
        match index {
            0 => SequencerResolution::Quarter,
            1 => SequencerResolution::HalfBeat,
            2 => SequencerResolution::Beat,
            _ => SequencerResolution::Loop,
        }
    }
}

/// The resolution at menu position `index` (0 to 3).
pub open spec fn resolution_of_index(index: i32) -> SequencerResolution {
    if index == 0 {
        SequencerResolution::Quarter
    } else if index == 1 {
        SequencerResolution::HalfBeat
    } else if index == 2 {
        SequencerResolution::Beat
    } else {
        SequencerResolution::Loop
    }
}

/// `from_index` undoes `as_index` for every resolution, and `as_index`
/// undoes `from_index` for every menu position 0 to 3.
pub proof fn lemma_resolution_index_roundtrip(r: SequencerResolution, i: i32)
    requires
        0 <= i <= 3,
    ensures
        resolution_of_index(r.spec_index()) == r,
        resolution_of_index(i).spec_index() == i,
{
}

pub struct SequencerTrack {
    pub loops: u8,
    pub resolution: SequencerResolution,
    pub note: u8,
    pub triggers: Vec<u8>,
}

impl SequencerTrack {
    /// A fresh track: one loop, half-beat resolution, middle C, no triggers.
    pub fn default() -> (r: Self)
        ensures
            r.loops == 1,
            r.resolution == SequencerResolution::HalfBeat,
            r.note == 60,
            r.triggers@ == Seq::<u8>::empty(),
    {
        SequencerTrack { loops: 1, resolution: SequencerResolution::HalfBeat, note: 60, triggers: Vec::new() }
    }

    /// A track can be played without arithmetic overflow: its loop count is
    /// between 1 and 16 and every trigger's last step fits in a byte.
    pub open spec fn playable(self) -> bool {
        &&& 1 <= self.loops <= 16
        &&& forall|j: int|
            0 <= j < self.triggers@.len() ==> (self.triggers@[j] + 1) * self.resolution.spec_steps()
                <= 255
    }

    /// A track's note-ons can be played without arithmetic overflow: its
    /// loop count is between 1 and 16 and every trigger's first step fits
    /// in a byte.
    pub open spec fn starts_playable(self) -> bool {
        &&& 1 <= self.loops <= 16
        &&& forall|j: int|
            0 <= j < self.triggers@.len() ==> self.triggers@[j] * self.resolution.spec_steps() <= 255
    }

    /// Copy of the track.
    pub fn duplicate(&self) -> (r: Self)
        ensures
            r.loops == self.loops,
            r.resolution == self.resolution,
            r.note == self.note,
            r.triggers@ == self.triggers@,
    {
        SequencerTrack {
            loops: self.loops,
            resolution: self.resolution,
            note: self.note,
            triggers: self.triggers.clone(),
        }
    }
}

pub struct SequencerProject {
    pub name: String,
    pub loops: u8,
    pub tracks: Vec<SequencerTrack>,
}

impl SequencerProject {
    /// Every track of the project is playable.
    pub open spec fn tracks_playable(self) -> bool {
        forall|i: int| 0 <= i < self.tracks@.len() ==> #[trigger] self.tracks@[i].playable()
    }

    /// Every track of the project can play its note-ons.
    pub open spec fn tracks_start_playable(self) -> bool {
        forall|i: int| 0 <= i < self.tracks@.len() ==> #[trigger] self.tracks@[i].starts_playable()
    }

    /// Copy of the project.
    pub fn duplicate(&self) -> (r: Self)
        ensures
            same_project(r, *self),
    {
        let mut tracks: Vec<SequencerTrack> = Vec::new();
        let n = self.tracks.len();
        for i in 0..n
            invariant
                n == self.tracks@.len(),
                tracks@.len() == i,
                forall|k: int| 0 <= k < i ==> same_track(#[trigger] tracks@[k], self.tracks@[k]),
        {
            tracks.push(self.tracks[i].duplicate());
        }
        SequencerProject { name: self.name.clone(), loops: self.loops, tracks }
    }
}

/// Two tracks hold the same settings and triggers.
pub open spec fn same_track(a: SequencerTrack, b: SequencerTrack) -> bool {
    &&& a.loops == b.loops
    &&& a.resolution == b.resolution
    &&& a.note == b.note
    &&& a.triggers@ == b.triggers@
}

/// Two projects hold the same name, loops and tracks.
pub open spec fn same_project(a: SequencerProject, b: SequencerProject) -> bool {
    &&& a.name@ == b.name@
    &&& a.loops == b.loops
    &&& a.tracks@.len() == b.tracks@.len()
    &&& forall|k: int| 0 <= k < a.tracks@.len() ==> same_track(#[trigger] a.tracks@[k], b.tracks@[k])
}

/// Number of triggers whose first step is `step`.
pub open spec fn count_on(triggers: Seq<u8>, steps: int, step: int) -> nat
    decreases triggers.len(),
{
    if triggers.len() == 0 {
        0
    } else {
        count_on(triggers.drop_last(), steps, step) + if triggers.last() * steps == step {
            1nat
        } else {
            0nat
        }
    }
}

/// Number of triggers whose last step is `step`.
pub open spec fn count_off(triggers: Seq<u8>, steps: int, step: int) -> nat
    decreases triggers.len(),
{
    if triggers.len() == 0 {
        0
    } else {
        count_off(triggers.drop_last(), steps, step) + if (triggers.last() + 1) * steps - 1
            == step {
            1nat
        } else {
            0nat
        }
    }
}

/// The step of a track's own pattern that global `step` falls on in loop
/// `current_loop`.
pub open spec fn track_step(track: SequencerTrack, step: int, current_loop: int) -> int {
    step + 16 * (current_loop % (track.loops as int))
}

/// Packets a track sends when `step` starts: one note-on per trigger that
/// starts there, unless the track's note is already sounding.
pub open spec fn track_on_packets(track: SequencerTrack, sounding: bool, step: int) -> Seq<MidiPacket> {
    if sounding {
        Seq::empty()
    } else {
        Seq::new(
            count_on(track.triggers@, track.resolution.spec_steps() as int, step),
            |_i: int| note_on_packet(track.note, 127),
        )
    }
}

/// Whether the track's note sounds after `step` started.
pub open spec fn track_on_state(track: SequencerTrack, sounding: bool, step: int) -> bool {
    sounding || count_on(track.triggers@, track.resolution.spec_steps() as int, step) > 0
}

/// Packets a track sends when `step` ends: one note-off per trigger that
/// ends there, if the track's note is sounding.
pub open spec fn track_off_packets(track: SequencerTrack, sounding: bool, step: int) -> Seq<MidiPacket> {
    if !sounding {
        Seq::empty()
    } else {
        Seq::new(
            count_off(track.triggers@, track.resolution.spec_steps() as int, step),
            |_i: int| note_off_packet(track.note, 0),
        )
    }
}

/// Whether the track's note still sounds after `step` ended.
pub open spec fn track_off_state(track: SequencerTrack, sounding: bool, step: int) -> bool {
    sounding && count_off(track.triggers@, track.resolution.spec_steps() as int, step) == 0
}

/// Packets of the first `n` tracks, in track order, when `step` starts.
pub open spec fn project_on_packets(
    tracks: Seq<SequencerTrack>,
    states: Seq<bool>,
    step: int,
    current_loop: int,
    n: int,
) -> Seq<MidiPacket>
    decreases n,
{
    if n <= 0 {
        Seq::empty()
    } else {
        project_on_packets(tracks, states, step, current_loop, n - 1) + track_on_packets(
            tracks[n - 1],
            states[n - 1],
            track_step(tracks[n - 1], step, current_loop),
        )
    }
}

/// Packets of the first `n` tracks, in track order, when `step` ends.
pub open spec fn project_off_packets(
    tracks: Seq<SequencerTrack>,
    states: Seq<bool>,
    step: int,
    current_loop: int,
    n: int,
) -> Seq<MidiPacket>
    decreases n,
{
    if n <= 0 {
        Seq::empty()
    } else {
        project_off_packets(tracks, states, step, current_loop, n - 1) + track_off_packets(
            tracks[n - 1],
            states[n - 1],
            track_step(tracks[n - 1], step, current_loop),
        )
    }
}

/// One edit of a track made from the track screen.
pub enum TrackEdit {
    SetNote(u8),
    SetResolution(SequencerResolution),
    SetLoops(u8),
    /// Remove the trigger at this position if present, else append it.
    ToggleTrigger(u8),
}

/// The first index of `t` in `s`, if any.
pub open spec fn first_index(s: Seq<u8>, t: u8) -> Option<int> {
    if exists|k: int| 0 <= k < s.len() && s[k] == t {
        Some(choose|k: int| 0 <= k < s.len() && s[k] == t && forall|m: int| 0 <= m < k ==> s[m] != t)
    } else {
        None
    }
}

/// The triggers after toggling position `t`: its first occurrence is removed,
/// or `t` is appended when absent.
pub open spec fn toggled(s: Seq<u8>, t: u8) -> Seq<u8> {
    match first_index(s, t) {
        Some(k) => s.remove(k),
        None => s.push(t),
    }
}

/// What an edit makes of a track.
pub open spec fn edited(old: SequencerTrack, new: SequencerTrack, edit: TrackEdit) -> bool {
    match edit {
        TrackEdit::SetNote(n) => new.note == n && new.loops == old.loops && new.resolution
            == old.resolution && new.triggers@ == old.triggers@,
        TrackEdit::SetResolution(r) => new.resolution == r && new.note == old.note && new.loops
            == old.loops && new.triggers@ == old.triggers@,
        TrackEdit::SetLoops(l) => new.loops == l && new.note == old.note && new.resolution
            == old.resolution && new.triggers@ == old.triggers@,
        TrackEdit::ToggleTrigger(t) => new.triggers@ == toggled(old.triggers@, t) && new.note
            == old.note && new.loops == old.loops && new.resolution == old.resolution,
    }
}

pub struct Sequencer {
    project: Option<SequencerProject>,
    trigger_states: Vec<bool>,
    enable: bool,
    current_loop: u8,
}

impl Sequencer {
    pub closed spec fn spec_project(&self) -> Option<SequencerProject> {
        self.project
    }

    /// Per track: whether its note is sounding.
    pub closed spec fn spec_states(&self) -> Seq<bool> {
        self.trigger_states@
    }

    pub closed spec fn spec_enabled(&self) -> bool {
        self.enable
    }

    /// Index of the loop being played, counted modulo the project's loops.
    pub closed spec fn spec_current_loop(&self) -> u8 {
        self.current_loop
    }

    /// A loaded project has exactly one trigger state per track, and the
    /// loop counter can always be incremented.
    pub open spec fn wf(&self) -> bool {
        &&& (self.spec_project() is Some ==> self.spec_states().len()
            == self.spec_project()->0.tracks@.len())
        &&& self.spec_current_loop() < 255
    }

    pub fn new() -> (r: Self)
        ensures
            r.wf(),
            r.spec_project() is None,
            r.spec_states() == Seq::<bool>::empty(),
            !r.spec_enabled(),
            r.spec_current_loop() == 0,
    {
        Sequencer { project: None, trigger_states: Vec::new(), enable: false, current_loop: 0 }
    }

    pub fn enabled(&self) -> (r: bool)
        ensures
            r == self.spec_enabled(),
    {
        self.enable
    }

    pub fn set_enable(&mut self, value: bool)
        requires
            old(self).wf(),
        ensures
            final(self).wf(),
            final(self).spec_enabled() == value,
            final(self).spec_project() == old(self).spec_project(),
            final(self).spec_states() == old(self).spec_states(),
            final(self).spec_current_loop() == old(self).spec_current_loop(),
    {
        self.enable = value;
    }

    /// Starts an empty one-loop project and forgets every sounding note.
    pub fn new_project(&mut self, name: String)
        requires
            old(self).wf(),
        ensures
            final(self).wf(),
            final(self).spec_project() is Some,
            final(self).spec_project()->0.name@ == name@,
            final(self).spec_project()->0.loops == 1,
            final(self).spec_project()->0.tracks@.len() == 0,
            final(self).spec_states() == Seq::<bool>::empty(),
            final(self).spec_enabled() == old(self).spec_enabled(),
            final(self).spec_current_loop() == old(self).spec_current_loop(),
    {
        let project = SequencerProject { name, loops: 1, tracks: Vec::new() };
        self.project = Some(project);
        self.trigger_states.clear();
    }

    /// Replaces the project. Trigger states are resized to the new track
    /// count: states of surviving indices are kept, new ones start silent.
    pub fn load_project(&mut self, project: SequencerProject)
        requires
            old(self).wf(),
        ensures
            final(self).wf(),
            final(self).spec_project() == Some(project),
            final(self).spec_states().len() == project.tracks@.len(),
            forall|i: int|
                0 <= i < project.tracks@.len() ==> #[trigger] final(self).spec_states()[i] == (if i
                    < old(self).spec_states().len() {
                    old(self).spec_states()[i]
                } else {
                    false
                }),
            final(self).spec_enabled() == old(self).spec_enabled(),
            final(self).spec_current_loop() == old(self).spec_current_loop(),
    {
        let tracks_num = project.tracks.len();
        self.project = Some(project);
        resize_states(&mut self.trigger_states, tracks_num);
    }

    /// Hands the loaded project to `lambda` and returns what it returns.
    pub fn get_project<F, T>(&self, lambda: F) -> (r: T) where F: FnOnce(&SequencerProject) -> T
        requires
            self.spec_project() is Some,
            call_requires(lambda, (&self.spec_project()->0,)),
        ensures
            call_ensures(lambda, (&self.spec_project()->0,), r),
    {
        let project = self.project.as_ref().unwrap();
        lambda(project)
    }

    /// The loaded project.
    pub fn project_ref(&self) -> (r: &SequencerProject)
        requires
            self.spec_project() is Some,
        ensures
            *r == self.spec_project()->0,
    {
        self.project.as_ref().unwrap()
    }

    pub fn get_project_name(&self) -> (r: String)
        requires
            self.spec_project() is Some,
        ensures
            r@ == self.spec_project()->0.name@,
    {
        let project = self.project.as_ref().unwrap();
        project.name.clone()
    }

    pub fn get_project_name_or_null(&self) -> (r: Option<String>)
        ensures
            r is Some <==> self.spec_project() is Some,
            r is Some ==> r->0@ == self.spec_project()->0.name@,
    {
        match &self.project {
            Some(project) => Some(project.name.clone()),
            None => None,
        }
    }

    /// Sets the project's loop count and resets every track to one loop.
    pub fn set_project_loops(&mut self, loops: u8)
        requires
            old(self).wf(),
            old(self).spec_project() is Some,
        ensures
            final(self).wf(),
            final(self).spec_project() is Some,
            final(self).spec_project()->0.loops == loops,
            final(self).spec_project()->0.name == old(self).spec_project()->0.name,
            final(self).spec_project()->0.tracks@.len() == old(self).spec_project()->0.tracks@.len(),
            forall|i: int|
                0 <= i < old(self).spec_project()->0.tracks@.len() ==> {
                    let t = #[trigger] final(self).spec_project()->0.tracks@[i];
                    let o = old(self).spec_project()->0.tracks@[i];
                    t.loops == 1 && t.note == o.note && t.resolution == o.resolution
                        && t.triggers@ == o.triggers@
                },
            final(self).spec_states() == old(self).spec_states(),
            final(self).spec_enabled() == old(self).spec_enabled(),
            final(self).spec_current_loop() == old(self).spec_current_loop(),
    {
        let mut project = self.project.take().unwrap();
        project.loops = loops;
        let n = project.tracks.len();
        let ghost old_tracks = project.tracks@;
        let mut tracks: Vec<SequencerTrack> = Vec::new();
        let mut rest = project.tracks;
        let mut i: usize = 0;
        while i < n
            invariant
                i <= n,
                n == old_tracks.len(),
                tracks@.len() == i,
                rest@ == old_tracks.subrange(i as int, n as int),
                forall|k: int|
                    0 <= k < i ==> {
                        let t = #[trigger] tracks@[k];
                        t.loops == 1 && t.note == old_tracks[k].note && t.resolution
                            == old_tracks[k].resolution && t.triggers@ == old_tracks[k].triggers@
                    },
            decreases n - i,
        {
            let mut track = rest.remove(0);
            track.loops = 1;
            tracks.push(track);
            i = i + 1;
        }
        project.tracks = tracks;
        self.project = Some(project);
    }

    /// Appends a default track with a silent trigger state; does nothing
    /// without a project.
    pub fn add_track(&mut self)
        requires
            old(self).wf(),
        ensures
            final(self).wf(),
            old(self).spec_project() is None ==> *final(self) == *old(self),
            old(self).spec_project() is Some ==> {
                let p = final(self).spec_project()->0;
                let o = old(self).spec_project()->0;
                &&& final(self).spec_project() is Some
                &&& p.name == o.name
                &&& p.loops == o.loops
                &&& p.tracks@.len() == o.tracks@.len() + 1
                &&& forall|i: int| 0 <= i < o.tracks@.len() ==> #[trigger] p.tracks@[i] == o.tracks@[i]
                &&& {
                    let t = p.tracks@[o.tracks@.len() as int];
                    t.loops == 1 && t.resolution == SequencerResolution::HalfBeat && t.note == 60
                        && t.triggers@.len() == 0
                }
                &&& final(self).spec_states() == old(self).spec_states().push(false)
            },
            final(self).spec_enabled() == old(self).spec_enabled(),
            final(self).spec_current_loop() == old(self).spec_current_loop(),
    {
        if self.project.is_none() {
            return;
        }
        let mut project = self.project.take().unwrap();
        project.tracks.push(SequencerTrack::default());
        let tracks_num = project.tracks.len();
        self.project = Some(project);
        resize_states(&mut self.trigger_states, tracks_num);
        assert(self.trigger_states@ =~= old(self).trigger_states@.push(false));
    }

    /// Removes a track and its trigger state; does nothing without a project.
    pub fn remove_track(&mut self, index: usize)
        requires
            old(self).wf(),
            old(self).spec_project() is Some ==> index < old(self).spec_project()->0.tracks@.len(),
        ensures
            final(self).wf(),
            old(self).spec_project() is None ==> *final(self) == *old(self),
            old(self).spec_project() is Some ==> {
                let p = final(self).spec_project()->0;
                let o = old(self).spec_project()->0;
                &&& final(self).spec_project() is Some
                &&& p.name == o.name
                &&& p.loops == o.loops
                &&& p.tracks@ == o.tracks@.remove(index as int)
                &&& final(self).spec_states() == old(self).spec_states().remove(index as int)
            },
            final(self).spec_enabled() == old(self).spec_enabled(),
            final(self).spec_current_loop() == old(self).spec_current_loop(),
    {
        if self.project.is_none() {
            return;
        }
        let mut project = self.project.take().unwrap();
        project.tracks.remove(index);
        self.project = Some(project);
        self.trigger_states.remove(index);
    }

    /// Applies `edit` to track `index`; `None` when there is no such track.
    pub fn edit_track(&mut self, index: usize, edit: TrackEdit) -> (r: Option<()>)
        requires
            old(self).wf(),
            old(self).spec_project() is Some,
        ensures
            final(self).wf(),
            r is Some <==> index < old(self).spec_project()->0.tracks@.len(),
            final(self).spec_project() is Some,
            final(self).spec_project()->0.name == old(self).spec_project()->0.name,
            final(self).spec_project()->0.loops == old(self).spec_project()->0.loops,
            final(self).spec_project()->0.tracks@.len() == old(self).spec_project()->0.tracks@.len(),
            forall|i: int|
                0 <= i < old(self).spec_project()->0.tracks@.len() && i != index ==> #[trigger] final(self).spec_project()->0.tracks@[i] == old(self).spec_project()->0.tracks@[i],
            index < old(self).spec_project()->0.tracks@.len() ==> edited(
                old(self).spec_project()->0.tracks@[index as int],
                final(self).spec_project()->0.tracks@[index as int],
                edit,
            ),
            final(self).spec_states() == old(self).spec_states(),
            final(self).spec_enabled() == old(self).spec_enabled(),
            final(self).spec_current_loop() == old(self).spec_current_loop(),
    {
        let mut project = self.project.take().unwrap();
        if index >= project.tracks.len() {
            self.project = Some(project);
            return None;
        }
        let ghost old_tracks = project.tracks@;
        let mut track = project.tracks.remove(index);
        apply_edit(&mut track, edit);
        project.tracks.insert(index, track);
        assert forall|i: int| 0 <= i < old_tracks.len() && i != index implies #[trigger] project.tracks@[i]
            == old_tracks[i] by {
            if i < index {
            } else {
            }
        }
        self.project = Some(project);
        Some(())
    }

    /// What the start of `step` does, from `self` to `n`, sending `packets`:
    /// every silent track whose trigger starts there begins to sound.
    pub open spec fn started_step(&self, n: &Sequencer, step: u8, packets: Seq<MidiPacket>) -> bool {
        &&& n.wf()
        &&& n.spec_project() == self.spec_project()
        &&& n.spec_enabled() == self.spec_enabled()
        &&& n.spec_current_loop() == self.spec_current_loop()
        &&& self.spec_project() is None ==> packets.len() == 0 && n.spec_states() == self.spec_states()
        &&& self.spec_project() is Some ==> {
            let tracks = self.spec_project()->0.tracks@;
            let states = self.spec_states();
            let cl = self.spec_current_loop() as int;
            &&& packets == project_on_packets(tracks, states, step as int, cl, tracks.len() as int)
            &&& n.spec_states().len() == states.len()
            &&& forall|i: int|
                0 <= i < tracks.len() ==> #[trigger] n.spec_states()[i]
                    == track_on_state(tracks[i], states[i], track_step(tracks[i], step as int, cl))
        }
    }

    /// What the end of `step` does, from `self` to `n`, sending `packets`:
    /// every sounding track whose trigger ends there falls silent, and after
    /// the last step the loop counter advances.
    pub open spec fn ended_step(&self, n: &Sequencer, step: u8, packets: Seq<MidiPacket>) -> bool {
        &&& n.wf()
        &&& n.spec_project() == self.spec_project()
        &&& n.spec_enabled() == self.spec_enabled()
        &&& self.spec_project() is None ==> packets.len() == 0 && n.spec_states() == self.spec_states()
            && n.spec_current_loop() == self.spec_current_loop()
        &&& self.spec_project() is Some ==> {
            let p = self.spec_project()->0;
            let tracks = p.tracks@;
            let states = self.spec_states();
            let cl = self.spec_current_loop() as int;
            &&& packets == project_off_packets(tracks, states, step as int, cl, tracks.len() as int)
            &&& n.spec_states().len() == states.len()
            &&& forall|i: int|
                0 <= i < tracks.len() ==> #[trigger] n.spec_states()[i]
                    == track_off_state(tracks[i], states[i], track_step(tracks[i], step as int, cl))
            &&& n.spec_current_loop() == if step == 15 {
                ((cl + 1) % (p.loops as int)) as u8
            } else {
                cl as u8
            }
        }
    }

    /// Start of `step` (0..16): every silent track whose trigger starts on
    /// this step begins to sound. Returns the note-on packets to send, in
    /// track order.
    pub fn step_trigger_on(&mut self, step: u8) -> (packets: Vec<MidiPacket>)
        requires
            old(self).wf(),
            old(self).spec_project() is Some ==> step < 16,
            old(self).spec_project() is Some ==> old(self).spec_project()->0.tracks_start_playable(),
        ensures
            old(self).started_step(final(self), step, packets@),
    {
        let mut packets: Vec<MidiPacket> = Vec::new();
        if self.project.is_none() {
            return packets;
        }
        let current_loop = self.current_loop;
        let project = self.project.as_ref().unwrap();
        let n = project.tracks.len();
        let ghost old_states = self.trigger_states@;
        let mut i: usize = 0;
        while i < n
            invariant
                self.project is Some,
                project == self.project->0,
                self.project == old(self).project,
                self.current_loop == current_loop,
                current_loop == old(self).current_loop,
                self.enable == old(self).enable,
                n == project.tracks@.len(),
                self.trigger_states@.len() == n,
                old_states == old(self).trigger_states@,
                old_states.len() == n,
                project.tracks_start_playable(),
                step < 16,
                i <= n,
                packets@ == project_on_packets(project.tracks@, old_states, step as int, current_loop as int, i as int),
                forall|k: int|
                    0 <= k < i ==> #[trigger] self.trigger_states@[k] == track_on_state(
                        project.tracks@[k],
                        old_states[k],
                        track_step(project.tracks@[k], step as int, current_loop as int),
                    ),
                forall|k: int| i <= k < n ==> #[trigger] self.trigger_states@[k] == old_states[k],
            decreases n - i,
        {
            let track = &project.tracks[i];
            assert(project.tracks@[i as int].starts_playable());
            let ts = track_step_of(track, step, current_loop);
            let mut state = self.trigger_states[i];
            let mut track_packets = Self::handle_track_on(track, ts, &mut state);
            self.trigger_states.set(i, state);
            packets.append(&mut track_packets);
            i = i + 1;
        }
        packets
    }

    /// End of `step` (0..16): every sounding track whose trigger ends on
    /// this step falls silent. After the last step the loop counter advances
    /// modulo the project's loop count. Returns the note-off packets.
    pub fn step_trigger_off(&mut self, step: u8) -> (packets: Vec<MidiPacket>)
        requires
            old(self).wf(),
            old(self).spec_project() is Some ==> step < 16,
            old(self).spec_project() is Some ==> old(self).spec_project()->0.tracks_playable(),
            old(self).spec_project() is Some && step == 15 ==> old(self).spec_project()->0.loops >= 1,
        ensures
            old(self).ended_step(final(self), step, packets@),
    {
        let mut packets: Vec<MidiPacket> = Vec::new();
        if self.project.is_none() {
            return packets;
        }
        let current_loop = self.current_loop;
        let project = self.project.as_ref().unwrap();
        let n = project.tracks.len();
        let ghost old_states = self.trigger_states@;
        let mut i: usize = 0;
        while i < n
            invariant
                self.project is Some,
                project == self.project->0,
                self.project == old(self).project,
                self.current_loop == current_loop,
                current_loop == old(self).current_loop,
                self.enable == old(self).enable,
                n == project.tracks@.len(),
                self.trigger_states@.len() == n,
                old_states == old(self).trigger_states@,
                old_states.len() == n,
                project.tracks_playable(),
                step < 16,
                i <= n,
                packets@ == project_off_packets(project.tracks@, old_states, step as int, current_loop as int, i as int),
                forall|k: int|
                    0 <= k < i ==> #[trigger] self.trigger_states@[k] == track_off_state(
                        project.tracks@[k],
                        old_states[k],
                        track_step(project.tracks@[k], step as int, current_loop as int),
                    ),
                forall|k: int| i <= k < n ==> #[trigger] self.trigger_states@[k] == old_states[k],
            decreases n - i,
        {
            let track = &project.tracks[i];
            assert(project.tracks@[i as int].playable());
            let ts = track_step_of(track, step, current_loop);
            let mut state = self.trigger_states[i];
            let mut track_packets = Self::handle_track_off(track, ts, &mut state);
            self.trigger_states.set(i, state);
            packets.append(&mut track_packets);
            i = i + 1;
        }
        if step == 15 {
            let loops = project.loops;
            self.current_loop = (current_loop + 1) % loops;
        }
        packets
    }

    fn handle_track_on(track: &SequencerTrack, step: u8, state_trigger: &mut bool) -> (packets: Vec<MidiPacket>)
        requires
            track.starts_playable(),
        ensures
            packets@ == track_on_packets(*track, *old(state_trigger), step as int),
            *final(state_trigger) == track_on_state(*track, *old(state_trigger), step as int),
    {
        let mut packets: Vec<MidiPacket> = Vec::new();
        if *state_trigger {
            return packets;
        }
        let steps = track.resolution.steps();
        let n = track.triggers.len();
        let ghost trig = track.triggers@;
        let mut i: usize = 0;
        while i < n
            invariant
                i <= n,
                n == trig.len(),
                trig == track.triggers@,
                steps == track.resolution.spec_steps(),
                track.starts_playable(),
                *old(state_trigger) == false,
                packets@ == Seq::new(count_on(trig.take(i as int), steps as int, step as int), |_i: int| note_on_packet(track.note, 127)),
                *state_trigger == (count_on(trig.take(i as int), steps as int, step as int) > 0),
            decreases n - i,
        {
            let trigger = track.triggers[i];
            assert(trig.take(i + 1).drop_last() =~= trig.take(i as int));
            assert(trigger * steps <= 255);
            let real_trigger = trigger * steps;
            if real_trigger == step {
                *state_trigger = true;
                packets.push(MidiPacket::note_on(track.note, 127));
            }
            assert(packets@ =~= Seq::new(count_on(trig.take(i + 1), steps as int, step as int), |_i: int| note_on_packet(track.note, 127)));
            i = i + 1;
        }
        assert(trig.take(n as int) =~= trig);
        packets
    }

    fn handle_track_off(track: &SequencerTrack, step: u8, state_trigger: &mut bool) -> (packets: Vec<MidiPacket>)
        requires
            track.playable(),
        ensures
            packets@ == track_off_packets(*track, *old(state_trigger), step as int),
            *final(state_trigger) == track_off_state(*track, *old(state_trigger), step as int),
    {
        let mut packets: Vec<MidiPacket> = Vec::new();
        if !*state_trigger {
            return packets;
        }
        let steps = track.resolution.steps();
        let n = track.triggers.len();
        let ghost trig = track.triggers@;
        let mut i: usize = 0;
        while i < n
            invariant
                i <= n,
                n == trig.len(),
                trig == track.triggers@,
                steps == track.resolution.spec_steps(),
                track.playable(),
                *old(state_trigger) == true,
                packets@ == Seq::new(count_off(trig.take(i as int), steps as int, step as int), |_i: int| note_off_packet(track.note, 0)),
                *state_trigger == (count_off(trig.take(i as int), steps as int, step as int) == 0),
            decreases n - i,
        {
            let trigger = track.triggers[i];
            assert(trig.take(i + 1).drop_last() =~= trig.take(i as int));
            assert((trig[i as int] + 1) * steps <= 255);
            assert((trigger + 1) * steps >= 1) by (nonlinear_arith)
                requires steps >= 1;
            let real_trigger = ((trigger + 1) * steps) - 1;
            if real_trigger == step {
                *state_trigger = false;
                packets.push(MidiPacket::note_off(track.note, 0));
            }
            assert(packets@ =~= Seq::new(count_off(trig.take(i + 1), steps as int, step as int), |_i: int| note_off_packet(track.note, 0)));
            i = i + 1;
        }
        assert(trig.take(n as int) =~= trig);
        packets
    }
}

/// The step of the track's pattern that `step` falls on in `current_loop`.
fn track_step_of(track: &SequencerTrack, step: u8, current_loop: u8) -> (r: u8)
    requires
        1 <= track.loops <= 16,
        step < 16,
    ensures
        r == track_step(*track, step as int, current_loop as int),
{
    let m = current_loop % track.loops;
    assert(16 * m <= 240) by (nonlinear_arith)
        requires m < track.loops, track.loops <= 16;
    step + 16 * m
}

/// Resizes `v` to `n` entries: a prefix is kept, new entries are `false`.
fn resize_states(v: &mut Vec<bool>, n: usize)
    ensures
        final(v)@.len() == n,
        forall|i: int|
            0 <= i < n ==> #[trigger] final(v)@[i] == (if i < old(v)@.len() {
                old(v)@[i]
            } else {
                false
            }),
{
    if v.len() > n {
        v.truncate(n);
    } else {
        while v.len() < n
            invariant
                old(v)@.len() <= v@.len() <= n,
                forall|i: int| 0 <= i < v@.len() ==> #[trigger] v@[i] == (if i < old(v)@.len() {
                    old(v)@[i]
                } else {
                    false
                }),
            decreases n - v@.len(),
        {
            v.push(false);
        }
    }
}

/// Applies one edit to a track.
fn apply_edit(track: &mut SequencerTrack, edit: TrackEdit)
    ensures
        edited(*old(track), *final(track), edit),
{
    match edit {
        TrackEdit::SetNote(n) => {
            track.note = n;
        },
        TrackEdit::SetResolution(r) => {
            track.resolution = r;
        },
        TrackEdit::SetLoops(l) => {
            track.loops = l;
        },
        TrackEdit::ToggleTrigger(t) => {
            let ghost s = track.triggers@;
            let n = track.triggers.len();
            let mut i: usize = 0;
            while i < n
                invariant
                    i <= n,
                    n == s.len(),
                    track.triggers@ == s,
                    *track == *old(track),
                    s == old(track).triggers@,
                    edit == TrackEdit::ToggleTrigger(t),
                    forall|m: int| 0 <= m < i ==> s[m] != t,
                decreases n - i,
            {
                if track.triggers[i] == t {
                    assert(first_index(s, t) == Some(i as int)) by {
                        let k = choose|k: int|
                            0 <= k < s.len() && s[k] == t && forall|m: int| 0 <= m < k ==> s[m] != t;
                        assert(0 <= k < s.len() && s[k] == t && forall|m: int| 0 <= m < k ==> s[m] != t);
                        if k < i {
                        } else if k > i {
                            assert(s[i as int] == t);
                        }
                    }
                    track.triggers.remove(i);
                    assert(track.triggers@ == toggled(s, t));
                    assert(track.note == old(track).note);
                    return;
                }
                i = i + 1;
            }
            assert(first_index(s, t) is None);
            track.triggers.push(t);
        },
    }
}

/// The first occurrence found is an occurrence, with none before it.
proof fn lemma_first_index(s: Seq<u8>, t: u8)
    ensures
        first_index(s, t) is None <==> !s.contains(t),
        first_index(s, t) matches Some(k) ==> 0 <= k < s.len() && s[k] == t && forall|m: int|
            0 <= m < k ==> s[m] != t,
{
    if exists|k: int| 0 <= k < s.len() && s[k] == t {
        let k0 = choose|k: int| 0 <= k < s.len() && s[k] == t;
        lemma_least_occurrence(s, t, k0);
    }
}

/// Below an occurrence there is a first occurrence.
proof fn lemma_least_occurrence(s: Seq<u8>, t: u8, k: int)
    requires
        0 <= k < s.len(),
        s[k] == t,
    ensures
        exists|j: int| 0 <= j < s.len() && s[j] == t && forall|m: int| 0 <= m < j ==> s[m] != t,
    decreases k,
{
    if exists|m: int| 0 <= m < k && s[m] == t {
        let m = choose|m: int| 0 <= m < k && s[m] == t;
        lemma_least_occurrence(s, t, m);
    } else {
        assert(forall|m: int| 0 <= m < k ==> s[m] != t);
    }
}

/// Switching a trigger keeps a track's triggers free of repeats, and the
/// switched position is present afterwards exactly when it was absent
/// before; the other positions stay as they were.
pub proof fn lemma_toggle_membership(s: Seq<u8>, t: u8)
    requires
        s.no_duplicates(),
    ensures
        toggled(s, t).no_duplicates(),
        toggled(s, t).contains(t) <==> !s.contains(t),
        forall|x: u8| x != t ==> (#[trigger] toggled(s, t).contains(x) <==> s.contains(x)),
{
    lemma_first_index(s, t);
    match first_index(s, t) {
        Some(k) => {
            let r = s.remove(k);
            assert forall|i: int, j: int| 0 <= i < r.len() && 0 <= j < r.len() && i != j implies r[i] != r[j] by {
                let oi = if i < k { i } else { i + 1 };
                let oj = if j < k { j } else { j + 1 };
                assert(r[i] == s[oi] && r[j] == s[oj]);
            }
            assert(!r.contains(t)) by {
                if r.contains(t) {
                    let i = choose|i: int| 0 <= i < r.len() && r[i] == t;
                    let oi = if i < k { i } else { i + 1 };
                    assert(r[i] == s[oi]);
                }
            }
            assert forall|x: u8| x != t implies (#[trigger] r.contains(x) <==> s.contains(x)) by {
                if s.contains(x) {
                    let i = choose|i: int| 0 <= i < s.len() && s[i] == x;
                    assert(i != k);
                    let ri = if i < k { i } else { i - 1 };
                    assert(r[ri] == x);
                }
                if r.contains(x) {
                    let i = choose|i: int| 0 <= i < r.len() && r[i] == x;
                    let oi = if i < k { i } else { i + 1 };
                    assert(s[oi] == x);
                }
            }
        },
        None => {
            let r = s.push(t);
            assert(r[s.len() as int] == t);
            assert forall|i: int, j: int| 0 <= i < r.len() && 0 <= j < r.len() && i != j implies r[i] != r[j] by {
                if i < s.len() && j < s.len() {
                } else if i < s.len() {
                    assert(s[i] != t);
                } else if j < s.len() {
                    assert(s[j] != t);
                }
            }
            assert forall|x: u8| x != t implies (#[trigger] r.contains(x) <==> s.contains(x)) by {
                if s.contains(x) {
                    let i = choose|i: int| 0 <= i < s.len() && s[i] == x;
                    assert(r[i] == x);
                }
                if r.contains(x) {
                    let i = choose|i: int| 0 <= i < r.len() && r[i] == x;
                    assert(i < s.len());
                    assert(s[i] == x);
                }
            }
        },
    }
}

/// `t` occurs at most once in `s`.
pub open spec fn at_most_once(s: Seq<u8>, t: u8) -> bool {
    forall|i: int, j: int| 0 <= i < s.len() && 0 <= j < s.len() && s[i] == t && s[j] == t ==> i == j
}

/// Toggling `t` where it occurs at most once: it occurs at most once
/// afterwards, is present exactly when it was absent, and the other
/// positions keep their membership.
proof fn lemma_toggle_once(s: Seq<u8>, t: u8)
    requires
        at_most_once(s, t),
    ensures
        at_most_once(toggled(s, t), t),
        toggled(s, t).contains(t) <==> !s.contains(t),
        forall|x: u8| x != t ==> (#[trigger] toggled(s, t).contains(x) <==> s.contains(x)),
{
    lemma_first_index(s, t);
    match first_index(s, t) {
        Some(k) => {
            let r = s.remove(k);
            assert(!r.contains(t)) by {
                if r.contains(t) {
                    let i = choose|i: int| 0 <= i < r.len() && r[i] == t;
                    let oi = if i < k { i } else { i + 1 };
                    assert(r[i] == s[oi]);
                }
            }
            assert forall|x: u8| x != t implies (#[trigger] r.contains(x) <==> s.contains(x)) by {
                if s.contains(x) {
                    let i = choose|i: int| 0 <= i < s.len() && s[i] == x;
                    assert(i != k);
                    let ri = if i < k { i } else { i - 1 };
                    assert(r[ri] == x);
                }
                if r.contains(x) {
                    let i = choose|i: int| 0 <= i < r.len() && r[i] == x;
                    let oi = if i < k { i } else { i + 1 };
                    assert(s[oi] == x);
                }
            }
        },
        None => {
            let r = s.push(t);
            assert(r[s.len() as int] == t);
            assert forall|i: int, j: int|
                0 <= i < r.len() && 0 <= j < r.len() && r[i] == t && r[j] == t implies i == j by {
                if i < s.len() {
                    assert(s[i] == t);
                }
                if j < s.len() {
                    assert(s[j] == t);
                }
            }
            assert forall|x: u8| x != t implies (#[trigger] r.contains(x) <==> s.contains(x)) by {
                if s.contains(x) {
                    let i = choose|i: int| 0 <= i < s.len() && s[i] == x;
                    assert(r[i] == x);
                }
                if r.contains(x) {
                    let i = choose|i: int| 0 <= i < r.len() && r[i] == x;
                    assert(i < s.len());
                    assert(s[i] == x);
                }
            }
        },
    }
}

/// Pressing a pad twice on the same step leaves the track's set of
/// triggers as it was, whenever that step occurs at most once among the
/// triggers; when the step had no trigger, the triggers are exactly as they
/// were.
pub proof fn lemma_toggle_twice(s: Seq<u8>, t: u8)
    requires
        at_most_once(s, t),
    ensures
        toggled(toggled(s, t), t).to_set() == s.to_set(),
        !s.contains(t) ==> toggled(toggled(s, t), t) == s,
{
    lemma_toggle_once(s, t);
    lemma_toggle_once(toggled(s, t), t);
    let r = toggled(toggled(s, t), t);
    assert forall|x: u8| r.to_set().contains(x) <==> s.to_set().contains(x) by {
        if x != t {
            assert(toggled(s, t).contains(x) <==> s.contains(x));
        }
    }
    assert(r.to_set() =~= s.to_set());
    if !s.contains(t) {
        lemma_first_index(s, t);
        let p = s.push(t);
        assert(toggled(s, t) == p);
        lemma_first_index(p, t);
        assert(p[s.len() as int] == t);
        let k = first_index(p, t)->0;
        assert(k == s.len()) by {
            if k < s.len() {
                assert(s[k] == t);
            }
        }
        assert(p.remove(k) =~= s);
    }
}

} // verus!
