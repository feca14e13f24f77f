//! The global configuration: the tempo.
use vstd::prelude::*;
use crate::settings::component::{DirectRead, DirectReadView, SettingsComponent};
use crate::settings_components::SettingsEvent;

verus! {

/// The contents of the configuration file.
#[derive(Debug, Copy, Clone, PartialEq, Eq, Structural)]
pub struct ConfigData {
    pub bpm: u8,
}

impl ConfigData {
    pub fn default() -> (r: Self)
        ensures
            r.bpm == 140,
    {
        ConfigData { bpm: 140 }
    }
}

/// The configuration: `data` is what is edited and stored; `bpm` is the
/// tempo in force, taken from `data` on load and on save.
pub struct ConfigComponent {
    data: ConfigData,
    bpm: u8,
}

impl ConfigComponent {
    /// Path of the configuration file.
    pub const FILENAME: &'static str = "/data/config.toml";

    pub closed spec fn spec_data(&self) -> ConfigData {
        self.data
    }

    /// The tempo in force.
    pub closed spec fn spec_bpm(&self) -> u8 {
        self.bpm
    }

    /// Default data (140 BPM); no tempo in force until loaded.
    pub fn new() -> (r: Self)
        ensures
            r.spec_data().bpm == 140,
            r.spec_bpm() == 0,
    {
        ConfigComponent { data: ConfigData::default(), bpm: 0 }
    }

    /// Puts the stored tempo in force.
    pub fn unwrap_data(&mut self)
        ensures
            final(self).spec_data() == old(self).spec_data(),
            final(self).spec_bpm() == old(self).spec_data().bpm,
    {
        self.bpm = self.data.bpm;
    }

    /// Takes over the contents read from the configuration file.
    pub fn on_load(&mut self, config: ConfigData)
        ensures
            final(self).spec_data() == config,
            final(self).spec_bpm() == config.bpm,
    {
        self.data = config;
        self.unwrap_data();
    }

    /// Puts the edited tempo in force and returns the contents to write to
    /// the configuration file.
    pub fn save(&mut self) -> (r: ConfigData)
        ensures
            r == old(self).spec_data(),
            final(self).spec_data() == old(self).spec_data(),
            final(self).spec_bpm() == old(self).spec_data().bpm,
    {
        let data = self.data;
        self.unwrap_data();
        data
    }

    /// The tempo in force.
    pub fn bpm(&self) -> (r: u8)
        ensures
            r == self.spec_bpm(),
    {
        self.bpm
    }

    /// Edits the tempo; it is put in force when the settings task saves it,
    /// which the returned event asks for.
    pub fn set_bpm(&mut self, bpm: u8) -> (r: SettingsEvent)
        ensures
            final(self).spec_data().bpm == bpm,
            final(self).spec_bpm() == old(self).spec_bpm(),
            r == SettingsEvent::ConfigBpm,
    {
        self.data.bpm = bpm;
        SettingsEvent::ConfigBpm
    }
}

impl SettingsComponent for ConfigComponent {
    open spec fn readable(&self) -> bool {
        true
    }

    /// The configuration answers with an empty text.
    open spec fn spec_direct_read(&self, args: Seq<Seq<char>>) -> DirectReadView {
        DirectReadView::Text(Seq::empty())
    }

    fn direct_read(&self, args: &Vec<String>) -> (r: DirectRead) {
        DirectRead::Text(String::new())
    }
}

} // verus!
