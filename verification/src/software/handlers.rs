//! What the sampler does with the pads: the user interface's edits and the
//! notes the device sends.
use vstd::prelude::*;
use crate::software::audio::{AudioTrack, find_track, first_track};
use crate::software::drumpad::PadConfig;

verus! {

/// Takes over the edited configurations, pad by pad, as far as both lists
/// go.
pub fn set_pad_configs(configs: &mut Vec<PadConfig>, pad_configs: Vec<PadConfig>)
    ensures
        final(configs)@.len() == old(configs)@.len(),
        forall|i: int|
            0 <= i < old(configs)@.len() ==> #[trigger] final(configs)@[i] == if i < pad_configs@.len() {
                pad_configs@[i]
            } else {
                old(configs)@[i]
            },
{
    let n = if configs.len() < pad_configs.len() {
        configs.len()
    } else {
        pad_configs.len()
    };
    for i in 0..n
        invariant
            n <= configs@.len(),
            n <= pad_configs@.len(),
            configs@.len() == old(configs)@.len(),
            forall|k: int|
                0 <= k < old(configs)@.len() ==> #[trigger] configs@[k] == if k < i {
                    pad_configs@[k]
                } else {
                    old(configs)@[k]
                },
    {
        configs.set(i, pad_configs[i]);
    }
}

/// The pads that play note `note`, in order.
pub open spec fn pads_on_note(configs: Seq<PadConfig>, note: u8) -> Seq<PadConfig> {
    configs.filter(|c: PadConfig| c.note == note)
}

/// `e` is pad `c` lit: its id, and the index of the first track with its
/// track id when there is one.
pub open spec fn plays(e: (u8, Option<usize>), c: PadConfig, tracks: Seq<AudioTrack>) -> bool {
    &&& e.0 == c.id
    &&& match e.1 {
        None => first_track(tracks, c.track_id) is None,
        Some(t) => first_track(tracks, c.track_id) == Some(t as int),
    }
}

/// The pads a note-on lights, each with the index of the track it plays
/// when one has its track id.
pub fn note_on(configs: &Vec<PadConfig>, tracks: &Vec<AudioTrack>, note: u8) -> (r: Vec<(u8, Option<usize>)>)
    ensures
        r@.len() == pads_on_note(configs@, note).len(),
        forall|k: int|
            0 <= k < r@.len() ==> plays(#[trigger] r@[k], pads_on_note(configs@, note)[k], tracks@),
{
    let matched = pads_for_note(configs, note);
    let mut out: Vec<(u8, Option<usize>)> = Vec::new();
    let n = matched.len();
    for i in 0..n
        invariant
            n == matched@.len(),
            matched@ == pads_on_note(configs@, note),
            out@.len() == i,
            forall|k: int|
                0 <= k < i ==> plays(#[trigger] out@[k], pads_on_note(configs@, note)[k], tracks@),
    {
        let c = matched[i];
        let t = find_track(tracks, c.track_id);
        proof {
            if t is Some {
                lemma_first_track_is(tracks@, c.track_id, t->0 as int);
            }
        }
        out.push((c.id, t));
    }
    out
}

/// The pads a note-off releases, by id, in order.
pub fn note_off(configs: &Vec<PadConfig>, note: u8) -> (r: Vec<u8>)
    ensures
        r@ == pads_on_note(configs@, note).map_values(|c: PadConfig| c.id),
{
    let matched = pads_for_note(configs, note);
    let mut out: Vec<u8> = Vec::new();
    let n = matched.len();
    for i in 0..n
        invariant
            n == matched@.len(),
            out@ == matched@.take(i as int).map_values(|c: PadConfig| c.id),
    {
        out.push(matched[i].id);
        assert(matched@.take(i + 1) =~= matched@.take(i as int).push(matched@[i as int]));
    }
    assert(matched@.take(n as int) =~= matched@);
    out
}

/// The pads on note `note`, in order.
fn pads_for_note(configs: &Vec<PadConfig>, note: u8) -> (r: Vec<PadConfig>)
    ensures
        r@ == pads_on_note(configs@, note),
{
    let mut out: Vec<PadConfig> = Vec::new();
    let n = configs.len();
    for i in 0..n
        invariant
            n == configs@.len(),
            out@ == pads_on_note(configs@.take(i as int), note),
    {
        assert(configs@.take(i + 1).drop_last() =~= configs@.take(i as int));
        if configs[i].note == note {
            out.push(configs[i]);
        }
        proof {
            reveal(Seq::filter);
        }
    }
    assert(configs@.take(n as int) =~= configs@);
    out
}

/// The first track found with an id is the one `first_track` names.
proof fn lemma_first_track_is(tracks: Seq<AudioTrack>, id: usize, k: int)
    requires
        0 <= k < tracks.len(),
        tracks[k].id == id,
        forall|j: int| 0 <= j < k ==> tracks[j].id != id,
    ensures
        first_track(tracks, id) == Some(k),
{
    let c = choose|c: int| 0 <= c < tracks.len() && tracks[c].id == id && forall|j: int| 0 <= j < c ==> tracks[j].id != id;
    assert(c == k) by {
        if c < k {
            assert(tracks[c].id != id);
        } else if c > k {
            assert(tracks[k].id != id);
        }
    }
}

} // verus!
