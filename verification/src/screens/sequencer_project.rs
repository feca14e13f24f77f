//! The project screen: the project's name, its loop count, the way to its
//! tracks and the button that stores it.
use vstd::prelude::*;
use crate::context::{Context, StorageRequest};
use crate::graphics::manager::ScreenKind;
use crate::graphics::screen::{Screen, ScreenData};
use crate::graphics::ui::button::UIButton;
use crate::graphics::ui::element::{
    ButtonAction,
    ButtonActionView,
    UIAction,
    UIItem,
    ValueTarget,
    is_button,
    is_int_input,
    is_text,
};
use crate::graphics::ui::intinput::{IntInputConfig, UIIntInput, ValueFormat, ValueRule};
use crate::navigator::{NavigatorMessage, one_more};
use crate::screens::home::navigate_action;
use crate::sequencer::{SequencerProject, same_project};
use crate::text::{push_decimal, spec_decimal};

verus! {

/// Fewest loops a project can have.
pub const MIN_PROJECT_LOOPS: i32 = 1;

/// Most loops a project can have.
pub const MAX_PROJECT_LOOPS: i32 = 16;

pub struct SequencerProjectScreen {
    pub data: ScreenData,
}

/// `data` shows the loaded project: its name, the loops input, the tracks
/// button with the track count, and the save button.
pub open spec fn shows_project(data: ScreenData, ctx: &Context) -> bool {
    let p = ctx.sequencer.spec_project()->0;
    &&& data.row_offset == 0
    &&& data.elements@.len() == 4
    &&& is_text(data.elements@[0], p.name@)
    &&& is_int_input(
        data.elements@[1],
        "Loops"@,
        ValueFormat::Plain,
        ValueRule::Clamp(MIN_PROJECT_LOOPS, MAX_PROJECT_LOOPS),
        ValueTarget::ProjectLoops,
        p.loops as i32,
    )
    &&& is_button(
        data.elements@[2],
        "Tracks: "@ + spec_decimal(p.tracks@.len()),
        ButtonActionView::Navigate("sequencer_tracks"@),
    )
    &&& is_button(data.elements@[3], "Save"@, ButtonActionView::SaveProject)
}

/// The name, the loop count and the number of tracks of `p`.
fn project_summary(p: &SequencerProject) -> (r: (String, u8, usize))
    ensures
        r.0@ == p.name@,
        r.1 == p.loops,
        r.2 == p.tracks@.len(),
{
    (p.name.clone(), p.loops, p.tracks.len())
}

/// A copy of `p`.
fn project_copy(p: &SequencerProject) -> (r: SequencerProject)
    ensures
        same_project(r, *p),
{
    p.duplicate()
}

/// What carrying out `action` on the project screen does: a confirmed loop
/// count is set (every track back to one loop), saving asks for a copy of
/// the project to be stored, a navigation button asks for its screen;
/// nothing else changes.
pub open spec fn project_acted(
    os: &SequencerProjectScreen,
    ns: &SequencerProjectScreen,
    o: &Context,
    n: &Context,
    action: UIAction,
) -> bool {
    &&& n.sequencer.spec_project() is Some
    &&& n.settings == o.settings
    &&& n.leds == o.leds
    &&& n.pads_midi_paused == o.pads_midi_paused
    &&& n.project_names == o.project_names
    &&& n.settings_events == o.settings_events
    &&& n.led_writes == o.led_writes
    &&& ns == os
    &&& match action {
        UIAction::Value(ValueTarget::ProjectLoops, v) => {
            let p = n.sequencer.spec_project()->0;
            let op = o.sequencer.spec_project()->0;
            &&& p.loops == v as u8
            &&& p.name == op.name
            &&& p.tracks@.len() == op.tracks@.len()
            &&& forall|i: int|
                0 <= i < op.tracks@.len() ==> {
                    let t = #[trigger] p.tracks@[i];
                    t.loops == 1 && t.note == op.tracks@[i].note && t.resolution
                        == op.tracks@[i].resolution && t.triggers@ == op.tracks@[i].triggers@
                }
            &&& n.navigator == o.navigator
            &&& n.storage == o.storage
        },
        UIAction::Button(ButtonAction::SaveProject) => {
            &&& n.sequencer == o.sequencer
            &&& n.navigator == o.navigator
            &&& n.storage@.len() == o.storage@.len() + 1
            &&& n.storage@.drop_last() =~= o.storage@
            &&& n.storage@.last() matches StorageRequest::SaveProject(s) && same_project(
                s,
                o.sequencer.spec_project()->0,
            )
        },
        UIAction::Button(ButtonAction::Navigate(route)) => {
            &&& n.sequencer == o.sequencer
            &&& n.storage == o.storage
            &&& one_more(o.navigator@, n.navigator@)
            &&& n.navigator@.last() matches NavigatorMessage::Navigate(r) && r@
                == route@
        },
        _ => {
            &&& n.sequencer == o.sequencer
            &&& n.storage == o.storage
            &&& n.navigator == o.navigator
        }
    }
}

impl SequencerProjectScreen {
    /// The kind of screen the manager builds for this route.
    pub fn factory() -> (r: ScreenKind)
        ensures
            r == ScreenKind::SequencerProject,
    {
        ScreenKind::SequencerProject
    }

    /// Builds the screen for the loaded project.
    pub fn new(ctx: &Context) -> (r: Self)
        requires
            ctx.sequencer.spec_project() is Some,
        ensures
            shows_project(r.data, ctx),
            !r.data.focus,
    {
        let (name, loops, tracks) = ctx.sequencer.get_project(project_summary);
        let mut data = ScreenData::new();
        data.add_text(name);
        data.add_element(
            UIItem::IntInput(
                UIIntInput::new(
                    IntInputConfig::new(
                        "Loops",
                        ValueFormat::Plain,
                        ValueRule::Clamp(MIN_PROJECT_LOOPS, MAX_PROJECT_LOOPS),
                        Some(ValueTarget::ProjectLoops),
                    ),
                    loops as i32,
                ),
            ),
        );
        let mut label = String::from_str("Tracks: ");
        push_decimal(&mut label, tracks as u128);
        data.add_element(
            UIItem::Button(
                UIButton::new(label, ButtonAction::Navigate(String::from_str("sequencer_tracks"))),
            ),
        );
        data.add_element(
            UIItem::Button(UIButton::new(String::from_str("Save"), ButtonAction::SaveProject)),
        );
        SequencerProjectScreen { data }
    }

    /// Carries out what an element of this screen asked for.
    pub fn handle_action(&mut self, action: UIAction, ctx: &mut Context)
        requires
            old(ctx).wf(),
            old(ctx).sequencer.spec_project() is Some,
        ensures
            final(ctx).wf(),
            project_acted(old(self), final(self), old(ctx), final(ctx), action),
    {
        match action {
            UIAction::Value(ValueTarget::ProjectLoops, v) => {
                ctx.sequencer.set_project_loops(v as u8);
            },
            UIAction::Button(ButtonAction::SaveProject) => {
                let project = ctx.sequencer.get_project(project_copy);
                ctx.storage.push(StorageRequest::SaveProject(project));
            },
            UIAction::Button(b) => {
                if let ButtonAction::Navigate(_) = b {
                    navigate_action(&b, ctx);
                }
            },
            _ => {},
        }
    }
}

impl Screen for SequencerProjectScreen {
    open spec fn spec_data(&self) -> ScreenData {
        self.data
    }

    fn get_data(&self) -> (r: &ScreenData) {
        &self.data
    }
}

} // verus!
