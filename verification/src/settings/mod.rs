//! Settings: components holding persistent configuration, and the manager
//! that finds them by name.
use vstd::prelude::*;

pub mod component;
pub mod components;
pub mod manager;
