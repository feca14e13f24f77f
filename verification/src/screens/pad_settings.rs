//! The pad settings screen: press a pad to pick it, then edit its note and
//! channel and save. While the screen is shown the pads make no MIDI.
use vstd::prelude::*;
use crate::context::{Context, PadsEdit, pads_edited, pads_id};
use crate::graphics::event::GraphicsEvent;
use crate::graphics::manager::ScreenKind;
use crate::graphics::screen::{Screen, ScreenData, backed};
use crate::graphics::ui::button::UIButton;
use crate::graphics::ui::element::{
    ButtonAction,
    ButtonActionView,
    UIAction,
    UIItem,
    ValueTarget,
    is_button,
    is_int_input,
    is_text,
};
use crate::graphics::ui::intinput::{IntInputConfig, UIIntInput, ValueFormat, ValueRule};
use crate::navigator::{NavigatorMessage, one_more};
use crate::screens::home::navigate_action;
use crate::settings::manager::AnyComponent;
use crate::settings_components::pads::PAD_COUNT;
use crate::text::{push_int, spec_int};
use crate::utils::{MAX_MIDI_CHANNELS, MAX_MIDI_NOTE};

verus! {

pub struct PadSettings {
    /// The pad being edited, or -1 while waiting for a pad press.
    pub page_focus: i8,
    pub data: ScreenData,
}

/// The pads component is registered and well formed.
pub open spec fn pads_ready(ctx: &Context) -> bool {
    ctx.settings.spec_get(pads_id()) matches Some(AnyComponent::Pads(p)) && p.wf()
}

/// `data` shows pad `pf`: its number, its note and channel inputs and the
/// save button.
pub open spec fn shows_pad(data: ScreenData, ctx: &Context, pf: i8) -> bool {
    let c = ctx.settings.spec_get(pads_id())->0->Pads_0.spec_pads()[pf as int];
    &&& data.row_offset == 0
    &&& data.elements@.len() == 4
    &&& is_text(data.elements@[0], "PAD: "@ + spec_int(pf + 1))
    &&& is_int_input(
        data.elements@[1],
        "Note"@,
        ValueFormat::Note,
        ValueRule::Clamp(0, MAX_MIDI_NOTE as i32),
        ValueTarget::PadNote(pf as u8),
        c.note as i32,
    )
    &&& is_int_input(
        data.elements@[2],
        "Channel"@,
        ValueFormat::PlusOne,
        ValueRule::Clamp(0, MAX_MIDI_CHANNELS as i32),
        ValueTarget::PadChannel(pf as u8),
        c.channel as i32,
    )
    &&& is_button(data.elements@[3], "Save"@, ButtonActionView::SavePads)
}

/// What carrying out `action` on the pad screen does: a confirmed note or
/// channel edits that pad (a pad beyond the eighth is ignored), saving
/// commits the pads and sends a back, a navigation button asks for its
/// screen; nothing else changes.
pub open spec fn pads_acted(o: &Context, n: &Context, action: UIAction) -> bool {
    &&& n.sequencer == o.sequencer
    &&& n.storage == o.storage
    &&& n.led_writes == o.led_writes
    &&& n.leds == o.leds
    &&& n.pads_midi_paused == o.pads_midi_paused
    &&& n.project_names == o.project_names
    &&& match action {
        UIAction::Value(ValueTarget::PadNote(i), v) => if i < PAD_COUNT {
            pads_edited(o, n, PadsEdit::Note(i, v as u8)) && n.navigator == o.navigator
        } else {
            n.settings == o.settings && n.settings_events == o.settings_events && n.navigator == o.navigator
        },
        UIAction::Value(ValueTarget::PadChannel(i), v) => if i < PAD_COUNT {
            pads_edited(o, n, PadsEdit::Channel(i, v as u8)) && n.navigator == o.navigator
        } else {
            n.settings == o.settings && n.settings_events == o.settings_events && n.navigator == o.navigator
        },
        UIAction::Button(ButtonAction::SavePads) => {
            &&& pads_edited(o, n, PadsEdit::Commit)
            &&& one_more(o.navigator@, n.navigator@)
            &&& n.navigator@.last() matches NavigatorMessage::GraphicsEvent(e) && e is Back
        },
        UIAction::Button(ButtonAction::Navigate(route)) => {
            &&& n.settings == o.settings
            &&& n.settings_events == o.settings_events
            &&& one_more(o.navigator@, n.navigator@)
            &&& n.navigator@.last() matches NavigatorMessage::Navigate(r) && r@ == route@
        },
        _ => n.settings == o.settings && n.settings_events == o.settings_events && n.navigator
            == o.navigator,
    }
}

/// Whether the pads component is registered and well formed.
pub fn pads_are_ready(ctx: &Context) -> (r: bool)
    requires
        ctx.wf(),
    ensures
        r == pads_ready(ctx),
{
    match ctx.settings.get_component("pads") {
        Some(AnyComponent::Pads(p)) => p.is_wf(),
        _ => false,
    }
}

impl PadSettings {
    /// The kind of screen the manager builds for this route.
    pub fn factory() -> (r: ScreenKind)
        ensures
            r == ScreenKind::PadSettings,
    {
        ScreenKind::PadSettings
    }

    /// No pad picked, nothing shown until the screen starts.
    pub fn new() -> (r: Self)
        ensures
            r.page_focus == -1,
            r.data.elements@.len() == 0,
            r.data.row_offset == 0,
            !r.data.focus,
    {
        PadSettings { page_focus: -1, data: ScreenData::new() }
    }

    /// Waits for a pad press.
    pub fn select_pad(&mut self)
        ensures
            final(self).page_focus == -1,
            final(self).data.row_offset == 0,
            final(self).data.focus == old(self).data.focus,
            final(self).data.elements@.len() == 1,
            is_text(final(self).data.elements@[0], "Press button"@),
    {
        self.page_focus = -1;
        self.data.row_offset = 0;
        self.data.clear();
        self.data.add_text(String::from_str("Press button"));
    }

    /// Shows the picked pad: its number, its note and channel inputs and the
    /// save button. Does nothing when no pad is picked, or when the pick is
    /// above 8.
    pub fn pad_selected(&mut self, ctx: &Context)
        requires
            ctx.wf(),
            0 <= old(self).page_focus <= 8 ==> old(self).page_focus < PAD_COUNT && pads_ready(ctx),
        ensures
            final(self).page_focus == old(self).page_focus,
            old(self).page_focus < 0 || old(self).page_focus > 8 ==> *final(self) == *old(self),
            0 <= old(self).page_focus <= 8 ==> final(self).data.focus == old(self).data.focus && shows_pad(
                final(self).data,
                ctx,
                old(self).page_focus,
            ),
    {
        let page_focus = self.page_focus;
        if page_focus < 0 || page_focus > 8 {
            return;
        }
        self.data.row_offset = 0;
        let config = ctx.pad_config(page_focus as u8).unwrap();
        self.data.clear();
        let mut title = String::from_str("PAD: ");
        push_int(&mut title, page_focus as i64 + 1);
        self.data.add_text(title);
        self.data.add_element(
            UIItem::IntInput(
                UIIntInput::new(
                    IntInputConfig::new(
                        "Note",
                        ValueFormat::Note,
                        ValueRule::Clamp(0, MAX_MIDI_NOTE as i32),
                        Some(ValueTarget::PadNote(page_focus as u8)),
                    ),
                    config.note as i32,
                ),
            ),
        );
        self.data.add_element(
            UIItem::IntInput(
                UIIntInput::new(
                    IntInputConfig::new(
                        "Channel",
                        ValueFormat::PlusOne,
                        ValueRule::Clamp(0, MAX_MIDI_CHANNELS as i32),
                        Some(ValueTarget::PadChannel(page_focus as u8)),
                    ),
                    config.channel as i32,
                ),
            ),
        );
        self.data.add_element(
            UIItem::Button(UIButton::new(String::from_str("Save"), ButtonAction::SavePads)),
        );
    }

    /// Starting the screen keeps pad hits off the MIDI output and waits for
    /// a pad press.
    pub fn on_start(&mut self, ctx: &mut Context)
        ensures
            *final(ctx) == old(ctx).with_pads_paused(true),
            final(self).page_focus == -1,
            final(self).data.row_offset == 0,
            final(self).data.focus == old(self).data.focus,
            final(self).data.elements@.len() == 1,
            is_text(final(self).data.elements@[0], "Press button"@),
    {
        self.data.on_start();
        ctx.pads_midi_paused = true;
        self.select_pad();
    }

    /// Leaving the screen lets pad hits through to the MIDI output again.
    pub fn on_end(&mut self, ctx: &mut Context)
        ensures
            *final(ctx) == old(ctx).with_pads_paused(false),
            *final(self) == *old(self),
    {
        ctx.pads_midi_paused = false;
    }

    /// Back while a pad is picked and nothing is focused returns to waiting
    /// for a pad press; otherwise a focused element is released.
    pub fn on_back(&mut self) -> (r: (bool, Option<UIAction>))
        requires
            old(self).data.focus ==> old(self).data.selected_accepts(GraphicsEvent::Back),
        ensures
            old(self).page_focus >= 0 && !old(self).data.focus ==> {
                &&& r.0
                &&& r.1 is None
                &&& final(self).page_focus == -1
                &&& final(self).data.elements@.len() == 1
                &&& final(self).data.row_offset == 0
                &&& !final(self).data.focus
                &&& is_text(final(self).data.elements@[0], "Press button"@)
            },
            !(old(self).page_focus >= 0 && !old(self).data.focus) ==> {
                &&& final(self).page_focus == old(self).page_focus
                &&& backed(old(self).data, final(self).data, r)
            },
    {
        if self.page_focus >= 0 && !self.data.focus {
            self.select_pad();
            return (true, None);
        }
        self.data.on_back()
    }

    /// A short pad press while waiting picks that pad (the low three bits
    /// of the event) and shows it; answers whether the screen changed.
    pub fn on_custom_event(&mut self, event: u32, ctx: &Context) -> (r: bool)
        requires
            ctx.wf(),
            pads_ready(ctx),
        ensures
            r == (event & 8 == 0 && old(self).page_focus < 0),
            r ==> final(self).page_focus as int == (event & 7) as int && shows_pad(
                final(self).data,
                ctx,
                final(self).page_focus,
            ),
            !r ==> *final(self) == *old(self),
    {
        let channel: u8 = (event & 0b111) as u8;
        let long_press = (event & 0b1000) > 0;
        assert(channel < 8 && channel as u32 == event & 7u32) by (bit_vector)
            requires
                channel == (event & 7u32) as u8,
        ;
        if !long_press && self.page_focus < 0 {
            self.page_focus = channel as i8;
            self.pad_selected(ctx);
            return true;
        }
        false
    }

    /// Carries out what an element of this screen asked for.
    pub fn handle_action(&mut self, action: UIAction, ctx: &mut Context)
        requires
            old(ctx).wf(),
            pads_ready(old(ctx)),
        ensures
            final(ctx).wf(),
            pads_ready(final(ctx)),
            *final(self) == *old(self),
            pads_acted(old(ctx), final(ctx), action),
    {
        match action {
            UIAction::Value(ValueTarget::PadNote(i), v) => {
                if i < 8 {
                    ctx.edit_pads(PadsEdit::Note(i, v as u8));
                }
            },
            UIAction::Value(ValueTarget::PadChannel(i), v) => {
                if i < 8 {
                    ctx.edit_pads(PadsEdit::Channel(i, v as u8));
                }
            },
            UIAction::Button(ButtonAction::SavePads) => {
                ctx.edit_pads(PadsEdit::Commit);
                ctx.navigator.push(NavigatorMessage::GraphicsEvent(GraphicsEvent::Back));
            },
            UIAction::Button(b) => {
                if let ButtonAction::Navigate(_) = b {
                    navigate_action(&b, ctx);
                }
            },
            _ => {},
        }
    }
}

impl Screen for PadSettings {
    open spec fn spec_data(&self) -> ScreenData {
        self.data
    }

    fn get_data(&self) -> (r: &ScreenData) {
        &self.data
    }
}

} // verus!
