//! The settings screen: the tempo input and a button to the pad settings.
use vstd::prelude::*;
use crate::context::Context;
use crate::graphics::manager::ScreenKind;
use crate::graphics::screen::{Screen, ScreenData};
use crate::graphics::ui::button::UIButton;
use crate::graphics::ui::element::{
    ButtonAction,
    ButtonActionView,
    UIItem,
    ValueTarget,
    is_button,
    is_int_input,
    is_text,
};
use crate::graphics::ui::intinput::{IntInputConfig, UIIntInput, ValueFormat, ValueRule};
use crate::settings::manager::AnyComponent;

verus! {

/// Slowest tempo the input offers.
pub const MIN_BPM: i32 = 60;

/// Fastest tempo the input offers.
pub const MAX_BPM: i32 = 200;

/// Tempo shown when no configuration is registered.
pub const DEFAULT_BPM: u8 = 140;

/// The tempo the screen starts with: the one in force, or 140 without a
/// configuration.
pub open spec fn shown_bpm(ctx: &Context) -> u8 {
    match ctx.settings.spec_get(crate::context::config_id()) {
        Some(AnyComponent::Config(c)) => c.spec_bpm(),
        _ => DEFAULT_BPM,
    }
}

/// `data` shows the settings page: its title, the tempo input (60 to
/// 200, starting at the tempo in force or 140) and the pad settings
/// button.
pub open spec fn shows_settings(data: ScreenData, ctx: &Context) -> bool {
    &&& data.elements@.len() == 3
    &&& is_text(data.elements@[0], "Settings"@)
    &&& is_int_input(
        data.elements@[1],
        "BPM"@,
        ValueFormat::Plain,
        ValueRule::Clamp(MIN_BPM, MAX_BPM),
        ValueTarget::Bpm,
        shown_bpm(ctx) as i32,
    )
    &&& is_button(data.elements@[2], "Pad Settings"@, ButtonActionView::Navigate("pad_settings"@))
}

pub struct SettingsScreen {
    pub data: ScreenData,
}

impl SettingsScreen {
    /// The kind of screen the manager builds for this route.
    pub fn factory() -> (r: ScreenKind)
        ensures
            r == ScreenKind::Settings,
    {
        ScreenKind::Settings
    }

    /// Title, the tempo input (60 to 200, starting at the tempo in force or
    /// 140) and the pad settings button.
    pub fn new(ctx: &Context) -> (r: Self)
        requires
            ctx.wf(),
        ensures
            shows_settings(r.data, ctx),
            r.data.row_offset == 0,
            !r.data.focus,
    {
        let mut data = ScreenData::new();
        data.add_text(String::from_str("Settings"));
        let bpm = match ctx.config_bpm() {
            Some(b) => b,
            None => DEFAULT_BPM,
        };
        data.add_element(
            UIItem::IntInput(
                UIIntInput::new(
                    IntInputConfig::new(
                        "BPM",
                        ValueFormat::Plain,
                        ValueRule::Clamp(MIN_BPM, MAX_BPM),
                        Some(ValueTarget::Bpm),
                    ),
                    bpm as i32,
                ),
            ),
        );
        data.add_element(
            UIItem::Button(
                UIButton::new(
                    String::from_str("Pad Settings"),
                    ButtonAction::Navigate(String::from_str("pad_settings")),
                ),
            ),
        );
        SettingsScreen { data }
    }
}

impl Screen for SettingsScreen {
    open spec fn spec_data(&self) -> ScreenData {
        self.data
    }

    fn get_data(&self) -> (r: &ScreenData) {
        &self.data
    }
}

} // verus!
