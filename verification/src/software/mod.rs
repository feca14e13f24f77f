//! The desktop sampler: pads that play audio tracks when the device sends
//! their notes.
pub mod audio;
pub mod drumpad;
pub mod handlers;
pub mod midi;
