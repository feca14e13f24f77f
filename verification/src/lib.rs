pub mod ads1015;
pub mod graphics;
pub mod leds_manager;
pub mod midi;
pub mod navigator;
pub mod pads;
pub mod quantizer;
pub mod selector;
pub mod sequencer;
pub mod settings_components;
pub mod utils;
pub mod text;
pub mod settings;
pub mod context;
pub mod screens;
pub mod main_loop;
pub mod software;
pub mod vendor;
