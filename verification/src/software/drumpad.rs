//! A pad of the desktop sampler: the note that triggers it and the track
//! it plays.
use vstd::prelude::*;

verus! {

/// Number of pads the sampler shows.
pub const PAD_COUNT: usize = 8;

#[derive(Debug, Copy, Clone, PartialEq, Eq, Structural)]
pub struct PadConfig {
    pub id: u8,
    pub note: u8,
    pub track_id: usize,
}

impl PadConfig {
    /// Pad 0 on middle C, playing track 0.
    pub fn default() -> (r: Self)
        ensures
            r == (PadConfig { id: 0, note: 60, track_id: 0 }),
    {
        PadConfig { id: 0, note: 60, track_id: 0 }
    }
}

/// The configuration the sampler starts with for pad `i`: pad `i + 1` on
/// note `60 + i`; the first three pads play tracks 1 to 3, the others
/// track 0.
pub open spec fn initial_pad(i: int) -> PadConfig {
    PadConfig {
        id: (i + 1) as u8,
        note: (60 + i) as u8,
        track_id: if i < 3 {
            (i + 1) as usize
        } else {
            0
        },
    }
}

/// The eight pads the sampler starts with.
pub fn initial_pad_configs() -> (r: Vec<PadConfig>)
    ensures
        r@.len() == PAD_COUNT,
        forall|i: int| 0 <= i < PAD_COUNT ==> #[trigger] r@[i] == initial_pad(i),
{
    let mut configs: Vec<PadConfig> = Vec::new();
    let mut i: usize = 0;
    while i < PAD_COUNT
        invariant
            i <= PAD_COUNT,
            configs@.len() == i,
            forall|k: int|
                0 <= k < i ==> #[trigger] configs@[k] == (PadConfig {
                    id: (k + 1) as u8,
                    note: (60 + k) as u8,
                    track_id: 0,
                }),
        decreases PAD_COUNT - i,
    {
        let mut config = PadConfig::default();
        config.id = (i + 1) as u8;
        config.note = 60 + i as u8;
        configs.push(config);
        i = i + 1;
    }
    configs.set(0, PadConfig { track_id: 1, ..configs[0] });
    configs.set(1, PadConfig { track_id: 2, ..configs[1] });
    configs.set(2, PadConfig { track_id: 3, ..configs[2] });
    configs
}

} // verus!
