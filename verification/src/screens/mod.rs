//! The screens of the device.
pub mod drumpad;
pub mod home;
pub mod pad_settings;
pub mod sequencer;
pub mod sequencer_project;
pub mod sequencer_tracks;
pub mod settings;
