//! The settings components the device registers with its settings manager.
use vstd::prelude::*;

pub mod pads;
pub mod shortcuts;
pub mod sequencer;
pub mod sequencer_projects;


verus! {

/// What a component asks the settings task to do after a change.
#[derive(Debug, Copy, Clone, PartialEq, Eq, Structural)]
pub enum SettingsEvent {
    /// The tempo changed: store it and restart the quantizer.
    ConfigBpm,
    /// The pad configuration changed: store it and hand it to the pads.
    PadConfig,
}

} // verus!
