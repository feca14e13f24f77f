//! The state the screens act on, shared by the device's tasks: the
//! sequencer, the settings, the LEDs, and the outgoing requests the
//! firmware carries out (navigation, settings tasks, storage, LED writes).
use vstd::prelude::*;
use crate::leds_manager::LedsManager;
use crate::graphics::event::GraphicsEvent;
use crate::navigator::{NavigatorMessage, one_more};
use crate::sequencer::{Sequencer, SequencerProject};
use crate::settings::manager::{AnyComponent, SettingsManager};
use crate::settings_components::pads::{PadConfig, PAD_COUNT};
use crate::settings_components::SettingsEvent;

verus! {

/// A file operation the firmware performs for the screens.
pub enum StorageRequest {
    /// Load the stored project of this name into the sequencer.
    LoadProject(String),
    /// Store this project.
    SaveProject(SequencerProject),
}

pub struct Context {
    pub sequencer: Sequencer,
    pub settings: SettingsManager,
    pub leds: LedsManager,
    /// Whether pad hits are kept off the MIDI output (while pads are being
    /// configured).
    pub pads_midi_paused: bool,
    /// Names of the stored projects, kept current by the firmware.
    pub project_names: Vec<String>,
    /// Messages for the main loop, in the order sent.
    pub navigator: Vec<NavigatorMessage>,
    /// Requests for the settings task, in the order sent.
    pub settings_events: Vec<SettingsEvent>,
    /// File operations, in the order requested.
    pub storage: Vec<StorageRequest>,
    /// Bytes to drive onto the LEDs, in order.
    pub led_writes: Vec<u8>,
}

/// The name the configuration component is registered under.
pub open spec fn config_id() -> Seq<char> {
    "config"@
}

/// The name the pads component is registered under.
pub open spec fn pads_id() -> Seq<char> {
    "pads"@
}

impl Context {
    pub open spec fn wf(&self) -> bool {
        self.sequencer.wf() && self.settings.wf()
    }

    /// The same context with pad hits kept off the MIDI output, or not.
    pub open spec fn with_pads_paused(self, paused: bool) -> Context {
        Context { pads_midi_paused: paused, ..self }
    }

    /// Only the requests sent so far may differ between the two states.
    pub open spec fn same_state(&self, other: &Context) -> bool {
        &&& self.sequencer == other.sequencer
        &&& self.settings == other.settings
        &&& self.leds == other.leds
        &&& self.pads_midi_paused == other.pads_midi_paused
        &&& self.project_names@ == other.project_names@
    }

    /// A context over these parts with no outgoing requests.
    pub fn new(sequencer: Sequencer, settings: SettingsManager, leds: LedsManager) -> (r: Self)
        ensures
            r.sequencer == sequencer,
            r.settings == settings,
            r.leds == leds,
            !r.pads_midi_paused,
            r.project_names@.len() == 0,
            r.navigator@.len() == 0,
            r.settings_events@.len() == 0,
            r.storage@.len() == 0,
            r.led_writes@.len() == 0,
    {
        Context {
            sequencer,
            settings,
            leds,
            pads_midi_paused: false,
            project_names: Vec::new(),
            navigator: Vec::new(),
            settings_events: Vec::new(),
            storage: Vec::new(),
            led_writes: Vec::new(),
        }
    }

    /// The tempo in force, when a configuration is registered.
    pub fn config_bpm(&self) -> (r: Option<u8>)
        requires
            self.wf(),
        ensures
            self.settings.spec_get(config_id()) matches Some(AnyComponent::Config(c)) ==> r == Some(
                c.spec_bpm(),
            ),
            !(self.settings.spec_get(config_id()) matches Some(AnyComponent::Config(_))) ==> r is None,
    {
        match self.settings.get_component("config") {
            Some(AnyComponent::Config(c)) => Some(c.bpm()),
            _ => None,
        }
    }

    /// Edits the tempo of the registered configuration and asks the
    /// settings task to store it; nothing without a configuration.
    pub fn set_bpm(&mut self, bpm: u8)
        requires
            old(self).wf(),
        ensures
            final(self).wf(),
            final(self).sequencer == old(self).sequencer,
            final(self).leds == old(self).leds,
            final(self).pads_midi_paused == old(self).pads_midi_paused,
            final(self).project_names == old(self).project_names,
            final(self).navigator == old(self).navigator,
            final(self).storage == old(self).storage,
            final(self).led_writes == old(self).led_writes,
            bpm_set(old(self), final(self), bpm),
    {
        match self.settings.take_component("config") {
            Some(AnyComponent::Config(mut c)) => {
                let e = c.set_bpm(bpm);
                self.settings_events.push(e);
                self.settings.add_component("config", AnyComponent::Config(c));
            },
            Some(other) => {
                self.settings.add_component("config", other);
            },
            None => {},
        }
    }

    /// The working configuration of pad `index`, when the pads component is
    /// registered.
    pub fn pad_config(&self, index: u8) -> (r: Option<PadConfig>)
        requires
            self.wf(),
            index < PAD_COUNT,
            self.settings.spec_get(pads_id()) matches Some(AnyComponent::Pads(p)) ==> p.wf(),
        ensures
            self.settings.spec_get(pads_id()) matches Some(AnyComponent::Pads(p)) ==> r == Some(
                p.spec_pads()[index as int],
            ),
            !(self.settings.spec_get(pads_id()) matches Some(AnyComponent::Pads(_))) ==> r is None,
    {
        match self.settings.get_component("pads") {
            Some(AnyComponent::Pads(p)) => Some(p.get_data_config(index)),
            _ => None,
        }
    }

    /// Applies `edit` to the registered pads component; nothing when there
    /// is none. Committing asks the settings task to apply the pads.
    pub fn edit_pads(&mut self, edit: PadsEdit)
        requires
            old(self).wf(),
            old(self).settings.spec_get(pads_id()) matches Some(AnyComponent::Pads(p)) ==> p.wf(),
            edit matches PadsEdit::Note(i, _) ==> i < PAD_COUNT,
            edit matches PadsEdit::Channel(i, _) ==> i < PAD_COUNT,
        ensures
            final(self).wf(),
            final(self).sequencer == old(self).sequencer,
            final(self).leds == old(self).leds,
            final(self).pads_midi_paused == old(self).pads_midi_paused,
            final(self).project_names == old(self).project_names,
            final(self).navigator == old(self).navigator,
            final(self).storage == old(self).storage,
            final(self).led_writes == old(self).led_writes,
            forall|other: Seq<char>| other != pads_id() ==> #[trigger] final(self).settings.spec_get(other)
                == old(self).settings.spec_get(other),
            final(self).settings.spec_get(pads_id()) matches Some(AnyComponent::Pads(p)) ==> p.wf(),
            old(self).settings.spec_get(pads_id()) matches Some(AnyComponent::Pads(_)) ==> pads_edited(
                old(self),
                final(self),
                edit,
            ),
            !(old(self).settings.spec_get(pads_id()) matches Some(AnyComponent::Pads(_))) ==> {
                &&& final(self).settings.spec_get(pads_id()) == old(self).settings.spec_get(pads_id())
                &&& final(self).settings_events == old(self).settings_events
            },
    {
        match self.settings.take_component("pads") {
            Some(AnyComponent::Pads(mut p)) => {
                match edit {
                    PadsEdit::Note(i, note) => p.set_pad_note(i, note),
                    PadsEdit::Channel(i, channel) => p.set_pad_channel(i, channel),
                    PadsEdit::Commit => {
                        let e = p.commit();
                        self.settings_events.push(e);
                    },
                }
                self.settings.add_component("pads", AnyComponent::Pads(p));
            },
            Some(other) => {
                self.settings.add_component("pads", other);
            },
            None => {},
        }
    }

    /// Switches the sequencer on or off and asks the screen to redraw.
    pub fn set_sequencer_enabled(&mut self, value: bool)
        requires
            old(self).wf(),
        ensures
            final(self).wf(),
            final(self).sequencer.spec_enabled() == value,
            final(self).sequencer.spec_project() == old(self).sequencer.spec_project(),
            final(self).sequencer.spec_states() == old(self).sequencer.spec_states(),
            final(self).sequencer.spec_current_loop() == old(self).sequencer.spec_current_loop(),
            one_more(old(self).navigator@, final(self).navigator@),
            final(self).navigator@.last() matches NavigatorMessage::GraphicsEvent(
                GraphicsEvent::Refresh(m),
            ) && m@.len() == 0,
            final(self).settings == old(self).settings,
            final(self).leds == old(self).leds,
            final(self).pads_midi_paused == old(self).pads_midi_paused,
            final(self).project_names == old(self).project_names,
            final(self).settings_events == old(self).settings_events,
            final(self).storage == old(self).storage,
            final(self).led_writes == old(self).led_writes,
    {
        self.sequencer.set_enable(value);
        self.navigator.push(NavigatorMessage::GraphicsEvent(GraphicsEvent::Refresh(String::new())));
    }

    /// Starts an empty project named `name` and opens the project screen.
    pub fn start_project(&mut self, name: String)
        requires
            old(self).wf(),
        ensures
            final(self).wf(),
            final(self).sequencer.spec_project() is Some,
            final(self).sequencer.spec_project()->0.name@ == name@,
            final(self).sequencer.spec_project()->0.loops == 1,
            final(self).sequencer.spec_project()->0.tracks@.len() == 0,
            final(self).sequencer.spec_enabled() == old(self).sequencer.spec_enabled(),
            one_more(old(self).navigator@, final(self).navigator@),
            final(self).navigator@.last() matches NavigatorMessage::Navigate(r) && r@
                == "sequencer_project"@,
            final(self).settings == old(self).settings,
            final(self).leds == old(self).leds,
            final(self).pads_midi_paused == old(self).pads_midi_paused,
            final(self).project_names == old(self).project_names,
            final(self).settings_events == old(self).settings_events,
            final(self).storage == old(self).storage,
            final(self).led_writes == old(self).led_writes,
    {
        self.sequencer.new_project(name);
        self.navigator.push(NavigatorMessage::navigate("sequencer_project"));
    }

    /// Drives the sequencer overlay onto the LEDs.
    pub fn set_sequencer_leds(&mut self, status: u8, enabled: bool)
        requires
            old(self).wf(),
        ensures
            final(self).wf(),
            final(self).leds.spec_leds() == old(self).leds.spec_leds(),
            final(self).leds.spec_seq_status() == status,
            final(self).leds.spec_seq_enabled() == enabled,
            final(self).led_writes@ == old(self).led_writes@.push(final(self).leds.spec_output()),
            final(self).sequencer == old(self).sequencer,
            final(self).settings == old(self).settings,
            final(self).pads_midi_paused == old(self).pads_midi_paused,
            final(self).project_names == old(self).project_names,
            final(self).navigator == old(self).navigator,
            final(self).settings_events == old(self).settings_events,
            final(self).storage == old(self).storage,
    {
        let out = self.leds.set_sequencer(status, enabled);
        self.led_writes.push(out);
    }
}

/// In `n` the registered configuration of `o` has the edited tempo `bpm`
/// (the tempo in force unchanged) and the settings task is asked to store
/// it; the other components are as they were. Without a configuration
/// nothing changes.
pub open spec fn bpm_set(o: &Context, n: &Context, bpm: u8) -> bool {
    &&& forall|other: Seq<char>| other != config_id() ==> #[trigger] n.settings.spec_get(other)
        == o.settings.spec_get(other)
    &&& if o.settings.spec_get(config_id()) matches Some(AnyComponent::Config(_)) {
        &&& n.settings.spec_get(config_id()) matches Some(AnyComponent::Config(q))
        &&& n.settings.spec_get(config_id())->0->Config_0.spec_data().bpm == bpm
        &&& n.settings.spec_get(config_id())->0->Config_0.spec_bpm() == o.settings.spec_get(
            config_id(),
        )->0->Config_0.spec_bpm()
        &&& n.settings_events@ == o.settings_events@.push(SettingsEvent::ConfigBpm)
    } else {
        &&& n.settings.spec_get(config_id()) == o.settings.spec_get(config_id())
        &&& n.settings_events == o.settings_events
    }
}

/// The pad configurations after `edit`: notes above 127 and channels
/// above 15 are ignored; committing changes none.
pub open spec fn edited_pads(pads: Seq<PadConfig>, edit: PadsEdit) -> Seq<PadConfig> {
    match edit {
        PadsEdit::Note(i, note) => if note > 127 {
            pads
        } else {
            pads.update(i as int, PadConfig { note, ..pads[i as int] })
        },
        PadsEdit::Channel(i, channel) => if channel > 15 {
            pads
        } else {
            pads.update(i as int, PadConfig { channel, ..pads[i as int] })
        },
        PadsEdit::Commit => pads,
    }
}

/// The registered pads component of `o` took `edit` in `n`; the other
/// components are as they were, and committing asked the settings task to
/// apply the pads.
pub open spec fn pads_edited(o: &Context, n: &Context, edit: PadsEdit) -> bool {
    let p = o.settings.spec_get(pads_id())->0->Pads_0;
    &&& forall|other: Seq<char>| other != pads_id() ==> #[trigger] n.settings.spec_get(other)
        == o.settings.spec_get(other)
    &&& n.settings.spec_get(pads_id()) matches Some(AnyComponent::Pads(q))
    &&& n.settings.spec_get(pads_id())->0->Pads_0.wf()
    &&& n.settings.spec_get(pads_id())->0->Pads_0.spec_data() == p.spec_data()
    &&& n.settings.spec_get(pads_id())->0->Pads_0.spec_pads() == edited_pads(p.spec_pads(), edit)
    &&& n.settings_events@ == if edit is Commit {
        o.settings_events@.push(SettingsEvent::PadConfig)
    } else {
        o.settings_events@
    }
}

/// An edit of the pads component made from the pad screen.
#[derive(Debug, Copy, Clone, PartialEq, Eq, Structural)]
pub enum PadsEdit {
    Note(u8, u8),
    Channel(u8, u8),
    Commit,
}

} // verus!
