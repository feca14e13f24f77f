//! Storage layout of the sequencer settings.
use vstd::prelude::*;
use crate::settings::component::{DirectRead, DirectReadView, SettingsComponent};

verus! {

/// The sequencer's settings component; it owns the sequencer folder.
pub struct SequencerSettings;

impl SequencerSettings {
    /// Folder the sequencer keeps its files in.
    pub const FOLDER: &'static str = "/data/sequencer";

    pub fn new() -> (r: Self) {
        SequencerSettings
    }
}

impl SettingsComponent for SequencerSettings {
    open spec fn readable(&self) -> bool {
        true
    }

    /// The sequencer answers with an empty text.
    open spec fn spec_direct_read(&self, args: Seq<Seq<char>>) -> DirectReadView {
        DirectReadView::Text(Seq::empty())
    }

    fn direct_read(&self, args: &Vec<String>) -> (r: DirectRead) {
        DirectRead::Text(String::new())
    }
}

} // verus!
