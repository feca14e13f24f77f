//! Input events delivered to screens and their elements.
use vstd::prelude::*;

verus! {

pub enum GraphicsEvent {
    Click,
    Back,
    ScrollLeft,
    ScrollRight,
    ScreenStart,
    ScreenEnd,
    /// Asks the current screen to rebuild itself; the message says why.
    Refresh(String),
}

impl GraphicsEvent {
    pub fn refresh(message: &str) -> (r: Self)
        ensures
            r matches GraphicsEvent::Refresh(m) && m@ == message@,
    {
        GraphicsEvent::Refresh(String::from_str(message))
    }
}

} // verus!
