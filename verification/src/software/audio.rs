//! The audio tracks the sampler can play, as the pads and the user
//! interface see them.
use vstd::prelude::*;

verus! {

/// A named audio track.
pub struct AudioTrack {
    pub label: String,
    pub id: usize,
}

impl AudioTrack {
    pub fn duplicate(&self) -> (r: Self)
        ensures
            r.label@ == self.label@,
            r.id == self.id,
    {
        AudioTrack { label: self.label.clone(), id: self.id }
    }
}

/// The index of the first track with id `id` in `tracks`, if any.
pub open spec fn first_track(tracks: Seq<AudioTrack>, id: usize) -> Option<int> {
    if exists|k: int| 0 <= k < tracks.len() && tracks[k].id == id {
        Some(choose|k: int| 0 <= k < tracks.len() && tracks[k].id == id && forall|j: int| 0 <= j < k ==> tracks[j].id != id)
    } else {
        None
    }
}

/// The index of the first track with id `id`.
pub fn find_track(tracks: &Vec<AudioTrack>, id: usize) -> (r: Option<usize>)
    ensures
        r is None <==> first_track(tracks@, id) is None,
        r is Some ==> {
            &&& r->0 < tracks@.len()
            &&& tracks@[r->0 as int].id == id
            &&& forall|j: int| 0 <= j < r->0 ==> tracks@[j].id != id
        },
{
    let n = tracks.len();
    for i in 0..n
        invariant
            n == tracks@.len(),
            forall|j: int| 0 <= j < i ==> #[trigger] tracks@[j].id != id,
    {
        if tracks[i].id == id {
            assert(tracks@[i as int].id == id);
            return Some(i);
        }
    }
    None
}

/// The two tracks have the same label and id.
pub open spec fn same_track(a: AudioTrack, b: AudioTrack) -> bool {
    a.label@ == b.label@ && a.id == b.id
}

/// The tracks as the user interface lists them: label and id of each, in
/// order.
pub fn track_list(tracks: &Vec<AudioTrack>) -> (r: Vec<AudioTrack>)
    ensures
        r@.len() == tracks@.len(),
        forall|k: int| 0 <= k < r@.len() ==> same_track(#[trigger] r@[k], tracks@[k]),
{
    let mut list: Vec<AudioTrack> = Vec::new();
    let n = tracks.len();
    for i in 0..n
        invariant
            n == tracks@.len(),
            list@.len() == i,
            forall|k: int| 0 <= k < i ==> same_track(#[trigger] list@[k], tracks@[k]),
    {
        list.push(tracks[i].duplicate());
    }
    list
}

/// Where a playing sample's read position goes after one output frame, and
/// whether the sample has finished: a mono sample moves one value, a stereo
/// sample two, another layout stays put; a sample whose position is at or
/// past its end has finished and stays where it is.
pub open spec fn voice_advance(cursor: usize, channels: u32, len: usize) -> (usize, bool) {
    if cursor < len {
        (
            if channels == 1 {
                (cursor + 1) as usize
            } else if channels == 2 {
                (cursor + 2) as usize
            } else {
                cursor
            },
            false,
        )
    } else {
        (cursor, true)
    }
}

/// One output frame of a playing sample of `len` values: its new read
/// position, and whether it has finished. A stereo sample needs both values
/// of the frame.
pub fn advance_voice(cursor: usize, channels: u32, len: usize) -> (r: (usize, bool))
    requires
        cursor < len && channels == 2 ==> cursor + 1 < len,
    ensures
        r == voice_advance(cursor, channels, len),
{
    if cursor < len {
        let next = if channels == 1 {
            cursor + 1
        } else if channels == 2 {
            cursor + 2
        } else {
            cursor
        };
        (next, false)
    } else {
        (cursor, true)
    }
}

} // verus!
