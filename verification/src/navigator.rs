//! Messages the screens send to the main loop.
use vstd::prelude::*;
use crate::graphics::event::GraphicsEvent;

verus! {

pub enum NavigatorMessage {
    Navigate(String),
    Back,
    GraphicsEvent(GraphicsEvent),
    CustomEvent(u32),
}

/// `new` is `old` with one more message at the end.
pub open spec fn one_more<T>(old: Seq<T>, new: Seq<T>) -> bool {
    &&& new.len() == old.len() + 1
    &&& new.drop_last() =~= old
}

impl NavigatorMessage {
    pub fn navigate(path: &str) -> (r: Self)
        ensures
            r matches NavigatorMessage::Navigate(p) && p@ == path@,
    {
        NavigatorMessage::Navigate(String::from_str(path))
    }

    pub fn back() -> (r: Self)
        ensures
            r is Back,
    {
        NavigatorMessage::Back
    }

    pub fn graphics_event(event: GraphicsEvent) -> (r: Self)
        ensures
            r == NavigatorMessage::GraphicsEvent(event),
    {
        NavigatorMessage::GraphicsEvent(event)
    }

    pub fn custom_event(event: u32) -> (r: Self)
        ensures
            r == NavigatorMessage::CustomEvent(event),
    {
        NavigatorMessage::CustomEvent(event)
    }
}

} // verus!
