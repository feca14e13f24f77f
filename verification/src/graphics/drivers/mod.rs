//! The displays the screens are drawn on.
pub mod lcd1602;
