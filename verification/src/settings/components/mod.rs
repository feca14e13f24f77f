//! Settings components that live with the settings code.
pub mod config;
