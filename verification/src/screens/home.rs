//! The home screen: a title and a row with the settings and sequencer
//! buttons.
use vstd::prelude::*;
use crate::context::Context;
use crate::graphics::manager::ScreenKind;
use crate::graphics::screen::{Screen, ScreenData};
use crate::graphics::ui::button::UIButton;
use crate::graphics::ui::element::{ButtonAction, ButtonActionView, UIItem, UIRowItem, is_row_button, is_text};
use crate::graphics::ui::row::UIRow;
use crate::navigator::{NavigatorMessage, one_more};

verus! {

/// `data` shows the home page: its title and a row with the settings and
/// sequencer buttons.
pub open spec fn shows_home(data: ScreenData) -> bool {
    &&& data.elements@.len() == 2
    &&& is_text(data.elements@[0], "Home"@)
    &&& data.elements@[1] matches UIItem::Row(row) && row.elements@.len() == 2 && row.label@
        == Seq::<char>::empty() && !row.focus && row.offset == 0 && is_row_button(
        row.elements@[0],
        "Settings"@,
        ButtonActionView::Navigate("settings"@),
    ) && is_row_button(row.elements@[1], "Sequencer"@, ButtonActionView::Navigate("sequencer"@))
}

pub struct HomeScreen {
    pub data: ScreenData,
}

impl HomeScreen {
    /// The kind of screen the manager builds for this route.
    pub fn factory() -> (r: ScreenKind)
        ensures
            r == ScreenKind::Home,
    {
        ScreenKind::Home
    }

    pub fn new() -> (r: Self)
        ensures
            shows_home(r.data),
            r.data.row_offset == 0,
            !r.data.focus,
    {
        let mut data = ScreenData::new();
        data.add_text(String::from_str("Home"));
        let mut row = UIRow::new();
        row.add_element(
            UIRowItem::Button(
                UIButton::new(
                    String::from_str("Settings"),
                    ButtonAction::Navigate(String::from_str("settings")),
                ),
            ),
        );
        row.add_element(
            UIRowItem::Button(
                UIButton::new(
                    String::from_str("Sequencer"),
                    ButtonAction::Navigate(String::from_str("sequencer")),
                ),
            ),
        );
        data.add_element(UIItem::Row(row));
        HomeScreen { data }
    }
}

impl Screen for HomeScreen {
    open spec fn spec_data(&self) -> ScreenData {
        self.data
    }

    fn get_data(&self) -> (r: &ScreenData) {
        &self.data
    }
}

/// Performs a navigation button's action: the named screen is requested.
pub fn navigate_action(action: &ButtonAction, ctx: &mut Context)
    requires
        action is Navigate,
    ensures
        final(ctx).same_state(old(ctx)),
        final(ctx).navigator@.len() == old(ctx).navigator@.len() + 1,
        forall|i: int| 0 <= i < old(ctx).navigator@.len() ==> #[trigger] final(ctx).navigator@[i] == old(ctx).navigator@[i],
        final(ctx).navigator@.last() matches NavigatorMessage::Navigate(p) && p@ == action->Navigate_0@,
        final(ctx).settings_events == old(ctx).settings_events,
        final(ctx).storage == old(ctx).storage,
        final(ctx).led_writes == old(ctx).led_writes,
        final(ctx).sequencer == old(ctx).sequencer,
        final(ctx).settings == old(ctx).settings,
        final(ctx).leds == old(ctx).leds,
        final(ctx).project_names == old(ctx).project_names,
        final(ctx).pads_midi_paused == old(ctx).pads_midi_paused,
        one_more(old(ctx).navigator@, final(ctx).navigator@),
{
    match action {
        ButtonAction::Navigate(route) => {
            ctx.navigator.push(NavigatorMessage::Navigate(route.clone()));
        },
        _ => {},
    }
}

} // verus!
