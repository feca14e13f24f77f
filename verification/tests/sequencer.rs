use drum_sampler::midi::MidiPacket;
use drum_sampler::sequencer::{Sequencer, SequencerProject, SequencerResolution, SequencerTrack, TrackEdit};

fn triggers(s: &Sequencer, track: usize) -> Vec<u8> {
    s.project_ref().tracks[track].triggers.clone()
}

#[test]
fn new_sequencer_has_no_project() {
    let s = Sequencer::new();
    assert!(!s.enabled());
    assert_eq!(s.get_project_name_or_null(), None);
}

#[test]
fn new_project_and_tracks() {
    let mut s = Sequencer::new();
    s.set_enable(true);
    assert!(s.enabled());
    s.new_project("Beat".to_string());
    assert_eq!(s.get_project_name(), "Beat");
    assert_eq!(s.get_project_name_or_null(), Some("Beat".to_string()));
    s.add_track();
    s.add_track();
    let (loops, count) = s.get_project(|p: &SequencerProject| (p.loops, p.tracks.len()));
    assert_eq!((loops, count), (1, 2));
    let t = &s.project_ref().tracks[1];
    assert_eq!((t.loops, t.resolution, t.note, t.triggers.len()), (1, SequencerResolution::HalfBeat, 60, 0));
    assert_eq!(s.edit_track(1, TrackEdit::SetNote(64)), Some(()));
    assert_eq!(s.edit_track(2, TrackEdit::SetNote(64)), None);
    s.remove_track(0);
    assert_eq!(s.project_ref().tracks.len(), 1);
    assert_eq!(s.project_ref().tracks[0].note, 64);
}

#[test]
fn add_track_without_project_does_nothing() {
    let mut s = Sequencer::new();
    s.add_track();
    assert_eq!(s.get_project_name_or_null(), None);
}

#[test]
fn toggling_a_trigger_twice_restores_the_track() {
    let mut s = Sequencer::new();
    s.new_project("P".to_string());
    s.add_track();
    s.edit_track(0, TrackEdit::ToggleTrigger(2));
    s.edit_track(0, TrackEdit::ToggleTrigger(5));
    assert_eq!(triggers(&s, 0), vec![2, 5]);
    // An absent position comes and goes: the list is as it was.
    s.edit_track(0, TrackEdit::ToggleTrigger(7));
    assert_eq!(triggers(&s, 0), vec![2, 5, 7]);
    s.edit_track(0, TrackEdit::ToggleTrigger(7));
    assert_eq!(triggers(&s, 0), vec![2, 5]);
    // A present position goes and comes back at the end: same set.
    s.edit_track(0, TrackEdit::ToggleTrigger(2));
    assert_eq!(triggers(&s, 0), vec![5]);
    s.edit_track(0, TrackEdit::ToggleTrigger(2));
    assert_eq!(triggers(&s, 0), vec![5, 2]);
}

#[test]
fn set_project_loops_resets_track_loops() {
    let mut s = Sequencer::new();
    s.new_project("P".to_string());
    s.add_track();
    s.edit_track(0, TrackEdit::SetLoops(4));
    s.edit_track(0, TrackEdit::SetResolution(SequencerResolution::Beat));
    s.set_project_loops(8);
    let p = s.project_ref();
    assert_eq!(p.loops, 8);
    assert_eq!(p.tracks[0].loops, 1);
    assert_eq!(p.tracks[0].resolution, SequencerResolution::Beat);
}

#[test]
fn steps_sound_and_silence_triggers() {
    let mut s = Sequencer::new();
    s.new_project("P".to_string());
    s.add_track();
    s.add_track();
    s.edit_track(0, TrackEdit::ToggleTrigger(0));
    s.edit_track(0, TrackEdit::ToggleTrigger(3));
    s.edit_track(1, TrackEdit::SetNote(38));
    s.edit_track(1, TrackEdit::SetResolution(SequencerResolution::Beat));
    s.edit_track(1, TrackEdit::ToggleTrigger(1));
    // Track 0: half-beat positions 0 and 3 cover steps 0-1 and 6-7.
    // Track 1: beat position 1 covers steps 4-7.
    assert_eq!(s.step_trigger_on(0), vec![MidiPacket::note_on(60, 127)]);
    assert_eq!(s.step_trigger_on(0), vec![]);
    assert_eq!(s.step_trigger_off(0), vec![]);
    assert_eq!(s.step_trigger_off(1), vec![MidiPacket::note_off(60, 0)]);
    assert_eq!(s.step_trigger_on(4), vec![MidiPacket::note_on(38, 127)]);
    assert_eq!(s.step_trigger_on(6), vec![MidiPacket::note_on(60, 127)]);
    assert_eq!(
        s.step_trigger_off(7),
        vec![MidiPacket::note_off(60, 0), MidiPacket::note_off(38, 0)]
    );
}

#[test]
fn load_project_replaces_the_project() {
    let mut s = Sequencer::new();
    s.new_project("Old".to_string());
    let mut track = SequencerTrack::default();
    track.triggers.push(1);
    let project = SequencerProject { name: "Loaded".to_string(), loops: 2, tracks: vec![track] };
    let copy = project.duplicate();
    s.load_project(project);
    assert_eq!(s.get_project_name(), "Loaded");
    assert_eq!(s.project_ref().loops, 2);
    assert_eq!(copy.tracks[0].triggers, vec![1]);
}

#[test]
fn resolution_index_round_trip() {
    for i in 0..4 {
        assert_eq!(SequencerResolution::from_index(i).as_index(), i);
    }
    assert_eq!(SequencerResolution::Quarter.steps(), 1);
    assert_eq!(SequencerResolution::HalfBeat.steps(), 2);
    assert_eq!(SequencerResolution::Beat.steps(), 4);
    assert_eq!(SequencerResolution::Loop.steps(), 16);
}
