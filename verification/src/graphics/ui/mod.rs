//! The elements a screen is made of.
pub mod button;
pub mod checkbox;
pub mod element;
pub mod intinput;
pub mod page_selector;
pub mod row;
pub mod text;
