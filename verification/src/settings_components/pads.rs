//! Stored configuration of the eight pads.
use vstd::prelude::*;
use crate::pads::PadPressType;
use crate::settings_components::SettingsEvent;
use crate::settings::component::{DirectRead, DirectReadView, SettingsComponent};
use crate::utils::{MAX_MIDI_CHANNELS, MAX_MIDI_NOTE};

verus! {

/// Number of pad configurations stored.
pub const PAD_COUNT: usize = 8;

#[derive(Debug, Copy, Clone, PartialEq, Eq, Structural)]
pub struct PadConfig {
    pub note: u8,
    pub channel: u8,
    pub press_type: PadPressType,
    pub threshold: u16,
}

/// The factory configuration of pad `i`: note 60 + i, channel 0, one-shot,
/// threshold 50.
pub open spec fn default_pad_config(i: int) -> PadConfig {
    PadConfig { note: (60 + i) as u8, channel: 0, press_type: PadPressType::OneShot, threshold: 50 }
}

impl PadConfig {
    /// The factory configurations of the eight pads.
    pub fn new_list() -> (r: Vec<PadConfig>)
        ensures
            r@.len() == PAD_COUNT,
            forall|i: int| 0 <= i < PAD_COUNT ==> #[trigger] r@[i] == default_pad_config(i),
    {
        let mut list: Vec<PadConfig> = Vec::new();
        let mut i: u8 = 0;
        while i < 8
            invariant
                i <= 8,
                list@.len() == i,
                forall|k: int| 0 <= k < i ==> #[trigger] list@[k] == default_pad_config(k),
            decreases 8 - i,
        {
            list.push(PadConfig { note: 60 + i, channel: 0, press_type: PadPressType::OneShot, threshold: 50 });
            i = i + 1;
        }
        list
    }
}

/// The contents of the pads settings file.
pub struct PadsData {
    pub pads: Vec<PadConfig>,
}

impl PadsData {
    pub fn default() -> (r: Self)
        ensures
            r.pads@.len() == PAD_COUNT,
            forall|i: int| 0 <= i < PAD_COUNT ==> #[trigger] r.pads@[i] == default_pad_config(i),
    {
        PadsData { pads: PadConfig::new_list() }
    }
}

/// The pads settings: `data` mirrors the settings file, `pads` is the
/// working copy the screens edit.
pub struct PadsComponent {
    data: PadsData,
    pads: Vec<PadConfig>,
}

impl PadsComponent {
    /// Path of the pads settings file.
    pub const FILENAME: &'static str = "/data/pads.toml";

    pub closed spec fn spec_data(&self) -> Seq<PadConfig> {
        self.data.pads@
    }

    pub closed spec fn spec_pads(&self) -> Seq<PadConfig> {
        self.pads@
    }

    pub open spec fn wf(&self) -> bool {
        self.spec_data().len() == PAD_COUNT && self.spec_pads().len() == PAD_COUNT
    }

    /// Whether both copies hold a configuration for each pad.
    pub fn is_wf(&self) -> (r: bool)
        ensures
            r == self.wf(),
    {
        self.data.pads.len() == PAD_COUNT && self.pads.len() == PAD_COUNT
    }

    /// Factory settings in both copies.
    pub fn new() -> (r: Self)
        ensures
            r.wf(),
            forall|i: int| 0 <= i < PAD_COUNT ==> #[trigger] r.spec_data()[i] == default_pad_config(i),
            r.spec_pads() == r.spec_data(),
    {
        let data = PadsData::default();
        let pads = PadConfig::new_list();
        assert(pads@ =~= data.pads@);
        PadsComponent { data, pads }
    }

    /// Copies the file contents into the working copy.
    pub fn unwrap_data(&mut self)
        requires
            old(self).wf(),
        ensures
            final(self).wf(),
            final(self).spec_data() == old(self).spec_data(),
            final(self).spec_pads() == old(self).spec_data(),
    {
        self.pads = self.data.pads.clone();
        assert(self.pads@ =~= self.data.pads@);
    }

    /// Takes over the contents read from the settings file.
    pub fn on_load(&mut self, config: PadsData)
        requires
            old(self).wf(),
            config.pads@.len() == PAD_COUNT,
        ensures
            final(self).wf(),
            final(self).spec_data() == config.pads@,
            final(self).spec_pads() == config.pads@,
    {
        self.data = config;
        self.unwrap_data();
    }

    /// Commits the working copy to the file contents and returns the
    /// contents to write to the settings file.
    pub fn save(&mut self) -> (r: PadsData)
        requires
            old(self).wf(),
        ensures
            final(self).wf(),
            final(self).spec_data() == old(self).spec_pads(),
            final(self).spec_pads() == old(self).spec_pads(),
            r.pads@ == old(self).spec_pads(),
    {
        self.data.pads = self.pads.clone();
        assert(self.data.pads@ =~= self.pads@);
        let out = self.data.pads.clone();
        assert(out@ =~= self.data.pads@);
        self.unwrap_data();
        PadsData { pads: out }
    }

    /// The event that asks the settings task to apply the pad settings.
    pub fn commit(&self) -> (r: SettingsEvent)
        ensures
            r == SettingsEvent::PadConfig,
    {
        SettingsEvent::PadConfig
    }

    pub fn get_configs(&self) -> (r: Vec<PadConfig>)
        ensures
            r@ == self.spec_pads(),
    {
        let r = self.pads.clone();
        assert(r@ =~= self.pads@);
        r
    }

    pub fn get_data_config(&self, index: u8) -> (r: PadConfig)
        requires
            self.wf(),
            index < PAD_COUNT,
        ensures
            r == self.spec_pads()[index as int],
    {
        self.pads[index as usize]
    }

    /// Sets the note of a pad; notes above 127 are ignored.
    pub fn set_pad_note(&mut self, index: u8, note: u8)
        requires
            old(self).wf(),
            note <= MAX_MIDI_NOTE ==> index < PAD_COUNT,
        ensures
            final(self).wf(),
            final(self).spec_data() == old(self).spec_data(),
            final(self).spec_pads() == if note > MAX_MIDI_NOTE {
                old(self).spec_pads()
            } else {
                old(self).spec_pads().update(
                    index as int,
                    PadConfig { note, ..old(self).spec_pads()[index as int] },
                )
            },
    {
        if note > MAX_MIDI_NOTE {
            return;
        }
        let mut pad = self.pads[index as usize];
        pad.note = note;
        self.pads.set(index as usize, pad);
    }

    /// Sets the MIDI channel of a pad; channels above 15 are ignored.
    pub fn set_pad_channel(&mut self, index: u8, channel: u8)
        requires
            old(self).wf(),
            channel <= MAX_MIDI_CHANNELS ==> index < PAD_COUNT,
        ensures
            final(self).wf(),
            final(self).spec_data() == old(self).spec_data(),
            final(self).spec_pads() == if channel > MAX_MIDI_CHANNELS {
                old(self).spec_pads()
            } else {
                old(self).spec_pads().update(
                    index as int,
                    PadConfig { channel, ..old(self).spec_pads()[index as int] },
                )
            },
    {
        if channel > MAX_MIDI_CHANNELS {
            return;
        }
        let mut pad = self.pads[index as usize];
        pad.channel = channel;
        self.pads.set(index as usize, pad);
    }

    pub fn set_pad_threshold(&mut self, index: u8, threshold: u16)
        requires
            old(self).wf(),
            index < PAD_COUNT,
        ensures
            final(self).wf(),
            final(self).spec_data() == old(self).spec_data(),
            final(self).spec_pads() == old(self).spec_pads().update(
                index as int,
                PadConfig { threshold, ..old(self).spec_pads()[index as int] },
            ),
    {
        let mut pad = self.pads[index as usize];
        pad.threshold = threshold;
        self.pads.set(index as usize, pad);
    }
}

impl SettingsComponent for PadsComponent {
    open spec fn readable(&self) -> bool {
        true
    }

    /// The pads answer with the contents of their settings file.
    open spec fn spec_direct_read(&self, args: Seq<Seq<char>>) -> DirectReadView {
        DirectReadView::File(PadsComponent::FILENAME@)
    }

    fn direct_read(&self, args: &Vec<String>) -> (r: DirectRead) {
        DirectRead::File(String::from_str(PadsComponent::FILENAME))
    }
}

} // verus!
