//! Screens, their elements and the manager that navigates between them.
pub mod event;
pub mod ui;
pub mod screen;
pub mod manager;
pub mod drivers;
