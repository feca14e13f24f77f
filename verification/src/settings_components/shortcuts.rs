//! Pad shortcuts: a pad released while the selector is held long.
use vstd::prelude::*;
use crate::utils::CustomGraphicsEvent;
use crate::settings::component::{DirectRead, DirectReadView, SettingsComponent};

verus! {

pub struct ShortcutsComponent;

/// What a shortcut does.
pub enum Shortcut {
    NavigateScreen(String),
}

impl ShortcutsComponent {
    pub fn new() -> (r: Self) {
        ShortcutsComponent
    }

    /// The shortcut a pad event stands for: a short press of pad 0 made as a
    /// shortcut opens the settings screen; nothing else is a shortcut.
    pub fn from_cevent(&self, event: CustomGraphicsEvent) -> (r: Option<Shortcut>)
        ensures
            event.spec_shortcut() && !event.spec_long_click() && event.spec_channel() == 0 ==> (
            r matches Some(Shortcut::NavigateScreen(s)) && s@ == "settings"@),
            !(event.spec_shortcut() && !event.spec_long_click() && event.spec_channel() == 0)
                ==> r is None,
    {
        if !event.is_shortcut() {
            return None;
        }
        if !event.is_long_click() && event.get_channel() == 0 {
            return Some(Shortcut::NavigateScreen(String::from_str("settings")));
        }
        None
    }
}

impl SettingsComponent for ShortcutsComponent {
    /// The shortcuts have no direct read.
    open spec fn readable(&self) -> bool {
        false
    }

    open spec fn spec_direct_read(&self, args: Seq<Seq<char>>) -> DirectReadView {
        DirectReadView::Text(Seq::empty())
    }

    fn direct_read(&self, args: &Vec<String>) -> (r: DirectRead) {
        DirectRead::Text(String::new())
    }
}

} // verus!
