use drum_sampler::software::audio::advance_voice;
use drum_sampler::software::audio::{find_track, track_list, AudioTrack};
use drum_sampler::software::drumpad::{initial_pad_configs, PadConfig};
use drum_sampler::software::handlers::{note_off, note_on, set_pad_configs};
use drum_sampler::software::midi::{parse_message, MIDIEvent};

fn tracks() -> Vec<AudioTrack> {
    vec![
        AudioTrack { label: "kick".to_string(), id: 1 },
        AudioTrack { label: "snare".to_string(), id: 2 },
        AudioTrack { label: "idk".to_string(), id: 3 },
    ]
}

#[test]
fn midi_messages() {
    assert_eq!(parse_message(&[0x90, 60, 100]), Some(MIDIEvent::NoteOn(60, 100)));
    assert_eq!(parse_message(&[0x80, 61, 0]), Some(MIDIEvent::NoteOff(61)));
    assert_eq!(parse_message(&[0x80, 61]), Some(MIDIEvent::NoteOff(61)));
    assert_eq!(parse_message(&[0xF8]), None);
    assert_eq!(parse_message(&[0xB0, 1, 2]), None);
    assert_eq!(parse_message(&[0x91, 60, 100]), None);
}

#[test]
fn initial_pads() {
    let pads = initial_pad_configs();
    assert_eq!(pads.len(), 8);
    assert_eq!(pads[0], PadConfig { id: 1, note: 60, track_id: 1 });
    assert_eq!(pads[2], PadConfig { id: 3, note: 62, track_id: 3 });
    assert_eq!(pads[7], PadConfig { id: 8, note: 67, track_id: 0 });
    assert_eq!(PadConfig::default(), PadConfig { id: 0, note: 60, track_id: 0 });
}

#[test]
fn notes_light_pads_and_pick_tracks() {
    let mut pads = initial_pad_configs();
    let t = tracks();
    assert_eq!(note_on(&pads, &t, 60), vec![(1, Some(0))]);
    assert_eq!(note_on(&pads, &t, 63), vec![(4, None)]);
    assert!(note_on(&pads, &t, 20).is_empty());
    pads[5].note = 60;
    pads[5].track_id = 3;
    assert_eq!(note_on(&pads, &t, 60), vec![(1, Some(0)), (6, Some(2))]);
    assert_eq!(note_off(&pads, 60), vec![1, 6]);
    assert!(note_off(&pads, 100).is_empty());
}

#[test]
fn edited_pads_are_taken_over_in_order() {
    let mut pads = initial_pad_configs();
    let edits = vec![PadConfig { id: 9, note: 40, track_id: 2 }, PadConfig { id: 10, note: 41, track_id: 1 }];
    set_pad_configs(&mut pads, edits);
    assert_eq!(pads.len(), 8);
    assert_eq!(pads[0], PadConfig { id: 9, note: 40, track_id: 2 });
    assert_eq!(pads[1], PadConfig { id: 10, note: 41, track_id: 1 });
    assert_eq!(pads[2], PadConfig { id: 3, note: 62, track_id: 3 });
    let mut short = vec![PadConfig::default()];
    set_pad_configs(&mut short, initial_pad_configs());
    assert_eq!(short, vec![PadConfig { id: 1, note: 60, track_id: 1 }]);
}

#[test]
fn tracks_are_listed_and_found() {
    let t = tracks();
    let list = track_list(&t);
    assert_eq!(list.len(), 3);
    assert_eq!((list[1].label.as_str(), list[1].id), ("snare", 2));
    assert_eq!(find_track(&t, 3), Some(2));
    assert_eq!(find_track(&t, 7), None);
    let dup = vec![AudioTrack { label: "a".to_string(), id: 5 }, AudioTrack { label: "b".to_string(), id: 5 }];
    assert_eq!(find_track(&dup, 5), Some(0));
}

#[test]
fn voices_advance_by_their_layout_and_finish_at_the_end() {
    assert_eq!(advance_voice(3, 1, 10), (4, false));
    assert_eq!(advance_voice(4, 2, 10), (6, false));
    assert_eq!(advance_voice(4, 6, 10), (4, false));
    assert_eq!(advance_voice(10, 2, 10), (10, true));
}
