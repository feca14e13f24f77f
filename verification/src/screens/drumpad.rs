//! The drum pad screen: a title and a button to the pad settings.
use vstd::prelude::*;
use crate::graphics::manager::ScreenKind;
use crate::graphics::screen::{Screen, ScreenData};
use crate::graphics::ui::button::UIButton;
use crate::graphics::ui::element::{ButtonAction, ButtonActionView, UIItem, is_button, is_text};

verus! {

/// `data` shows the drum pad page: its title and the pads button.
pub open spec fn shows_drumpad(data: ScreenData) -> bool {
    &&& data.elements@.len() == 2
    &&& is_text(data.elements@[0], "DrumPad"@)
    &&& is_button(data.elements@[1], "pads"@, ButtonActionView::Navigate("pad_settings"@))
}

pub struct DrumPadScreen {
    pub data: ScreenData,
}

impl DrumPadScreen {
    /// The kind of screen the manager builds for this route.
    pub fn factory() -> (r: ScreenKind)
        ensures
            r == ScreenKind::DrumPad,
    {
        ScreenKind::DrumPad
    }

    pub fn new() -> (r: Self)
        ensures
            shows_drumpad(r.data),
            r.data.row_offset == 0,
            !r.data.focus,
    {
        let mut data = ScreenData::new();
        data.add_text(String::from_str("DrumPad"));
        data.add_element(
            UIItem::Button(
                UIButton::new(
                    String::from_str("pads"),
                    ButtonAction::Navigate(String::from_str("pad_settings")),
                ),
            ),
        );
        DrumPadScreen { data }
    }
}

impl Screen for DrumPadScreen {
    open spec fn spec_data(&self) -> ScreenData {
        self.data
    }

    fn get_data(&self) -> (r: &ScreenData) {
        &self.data
    }
}

} // verus!
