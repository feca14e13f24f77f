//! The tracks screen: the list of the project's tracks, and for a picked
//! track its settings and its triggers, a page of eight steps at a time,
//! which the pads switch and the LEDs show.
use vstd::prelude::*;
use crate::context::Context;
use crate::graphics::event::GraphicsEvent;
use crate::graphics::manager::ScreenKind;
use crate::graphics::screen::{Screen, ScreenData, backed};
use crate::graphics::ui::button::UIButton;
use crate::graphics::ui::element::{
    ButtonAction,
    ButtonActionView,
    UIAction,
    UIItem,
    ValueTarget,
    is_button,
    is_int_input,
    is_text,
};
use crate::graphics::ui::intinput::{IntInputConfig, UIIntInput, ValueFormat, ValueRule};
use crate::graphics::ui::page_selector::UIPageSelector;
use crate::navigator::{NavigatorMessage, one_more};
use crate::sequencer::{
    SequencerProject,
    SequencerResolution,
    TrackEdit,
    edited,
    resolution_of_index,
};
use crate::text::{push_decimal, push_str, same_text, spec_decimal};
use crate::utils::{
    CustomGraphicsEvent,
    MAX_MIDI_NOTE,
    int_to_note,
    note_name,
    pad_to_seq,
    seq_to_pad,
    spec_pad_to_seq,
};

verus! {

pub struct SequencerTracksScreen {
    pub data: ScreenData,
    /// The picked track, or -1 while the list is shown.
    pub track: i32,
    /// The page of eight steps shown on the pads, counted from 0.
    pub page: u32,
}

/// The label of the button of track `index` with note `note`.
pub open spec fn track_label(index: nat, note: u8) -> Seq<char> {
    spec_decimal(index) + " ("@ + note_name(note as int) + ")"@
}

/// Pages of eight steps a track of this resolution and loop count spans.
pub open spec fn pages_of(resolution: SequencerResolution, loops: u8) -> int {
    (1 + resolution.spec_steps() % 2) * loops
}

/// The LED pattern of a page starting at step `base`: bit `j` is set for
/// each trigger at step `base + j`, `j` below eight.
pub open spec fn page_leds(triggers: Seq<u8>, base: int) -> u8
    decreases triggers.len(),
{
    if triggers.len() == 0 {
        0
    } else {
        let t = triggers.last();
        let rest = page_leds(triggers.drop_last(), base);
        if base <= t <= base + 7 {
            rest | (1u8 << ((t - base) as u8))
        } else {
            rest
        }
    }
}

/// Setting bit `a` of `x` sets bit `j` exactly when it was set or `a` is
/// `j`.
proof fn lemma_or_bit(x: u8, a: u8, j: u8)
    requires
        a < 8,
        j < 8,
    ensures
        ((x | (1u8 << a)) & (1u8 << j) != 0) <==> ((x & (1u8 << j) != 0) || a == j),
{
    assert(((x | (1u8 << a)) & (1u8 << j) != 0) <==> ((x & (1u8 << j) != 0) || a == j)) by (bit_vector)
        requires
            a < 8,
            j < 8,
    ;
}

/// The LEDs of a page show exactly its triggers: LED `j` is lit when a
/// trigger sits on step `base + j`.
pub proof fn lemma_page_leds(triggers: Seq<u8>, base: int, j: u8)
    requires
        j < 8,
    ensures
        (page_leds(triggers, base) & (1u8 << j) != 0) <==> exists|k: int|
            0 <= k < triggers.len() && triggers[k] as int == base + j,
    decreases triggers.len(),
{
    if triggers.len() == 0 {
        assert(0u8 & (1u8 << j) == 0) by (bit_vector);
    } else {
        let rest = triggers.drop_last();
        let t = triggers.last();
        lemma_page_leds(rest, base, j);
        if base <= t <= base + 7 {
            lemma_or_bit(page_leds(rest, base), (t - base) as u8, j);
        }
        if exists|k: int| 0 <= k < triggers.len() && triggers[k] as int == base + j {
            let k = choose|k: int| 0 <= k < triggers.len() && triggers[k] as int == base + j;
            if k < rest.len() {
                assert(rest[k] == triggers[k]);
            }
        }
        if exists|k: int| 0 <= k < rest.len() && rest[k] as int == base + j {
            let k = choose|k: int| 0 <= k < rest.len() && rest[k] as int == base + j;
            assert(triggers[k] == rest[k]);
        }
    }
}

/// The project is loaded and the picked track, if any, is one of its tracks.
pub open spec fn track_in_project(track: i32, ctx: &Context) -> bool {
    &&& ctx.sequencer.spec_project() is Some
    &&& track >= 0 ==> track < ctx.sequencer.spec_project()->0.tracks@.len()
}

/// `data` lists the tracks: title, "Add", then one button per track.
pub open spec fn shows_tracks(data: ScreenData, ctx: &Context) -> bool {
    let tracks = ctx.sequencer.spec_project()->0.tracks@;
    &&& data.row_offset == 0
    &&& data.elements@.len() == tracks.len() + 2
    &&& is_text(data.elements@[0], "Tracks"@)
    &&& is_button(data.elements@[1], "Add"@, ButtonActionView::AddTrack)
    &&& forall|k: int|
        0 <= k < tracks.len() ==> is_button(
            #[trigger] data.elements@[k + 2],
            track_label(k as nat, tracks[k].note),
            ButtonActionView::SelectTrack(k as usize),
        )
}

/// `data` shows track `index` on page `page`: its number, "Remove", the
/// page switch, and the note, resolution and loops inputs.
pub open spec fn shows_track(data: ScreenData, ctx: &Context, index: int, page: u32) -> bool {
    let p = ctx.sequencer.spec_project()->0;
    let t = p.tracks@[index];
    &&& data.row_offset == 0
    &&& data.elements@.len() == 6
    &&& is_text(data.elements@[0], "Track: "@ + spec_decimal(index as nat))
    &&& is_button(data.elements@[1], "Remove"@, ButtonActionView::RemoveTrack(index as usize))
    &&& data.elements@[2] matches UIItem::PageSelector(s) && !s.focus && s.page == page
        && s.pages == pages_of(t.resolution, t.loops)
    &&& is_int_input(
        data.elements@[3],
        "Note"@,
        ValueFormat::Note,
        ValueRule::Clamp(0, MAX_MIDI_NOTE as i32),
        ValueTarget::TrackNote(index as usize),
        t.note as i32,
    )
    &&& is_int_input(
        data.elements@[4],
        "Res"@,
        ValueFormat::Resolution,
        ValueRule::Clamp(0, 3),
        ValueTarget::TrackResolution(index as usize),
        t.resolution.spec_index(),
    )
    &&& is_int_input(
        data.elements@[5],
        "Loops"@,
        ValueFormat::Plain,
        ValueRule::LoopDivisor(p.loops),
        ValueTarget::TrackLoops(index as usize),
        t.loops as i32,
    )
}

/// The LEDs show the picked track's triggers on the page, or nothing when
/// no track is picked; the pattern was written out.
pub open spec fn leds_shown(track: i32, page: u32, old_ctx: &Context, ctx: &Context) -> bool {
    &&& ctx.leds.spec_leds() == old_ctx.leds.spec_leds()
    &&& ctx.led_writes@ == old_ctx.led_writes@.push(ctx.leds.spec_output())
    &&& if track < 0 {
        ctx.leds.spec_seq_status() == 0 && !ctx.leds.spec_seq_enabled()
    } else {
        ctx.leds.spec_seq_enabled() && ctx.leds.spec_seq_status() == page_leds(
            ctx.sequencer.spec_project()->0.tracks@[track as int].triggers@,
            8 * page,
        )
    }
}

/// A short pad press (no long press, no shortcut, bits 3 and 4 clear) on a
/// picked track switches the trigger of that pad's step on the current
/// page and shows the page on the LEDs; any other press changes nothing.
pub open spec fn pad_step_toggled(s: &SequencerTracksScreen, o: &Context, n: &Context, event: u32) -> bool {
    if event & 8 == 0 && event & 16 == 0 && s.track >= 0 {
        let i = s.track as int;
        let position = (spec_pad_to_seq((event & 7) as u8) + 8 * s.page) as u8;
        let p = n.sequencer.spec_project()->0;
        let op = o.sequencer.spec_project()->0;
        &&& p.tracks@.len() == op.tracks@.len()
        &&& edited(op.tracks@[i], p.tracks@[i], TrackEdit::ToggleTrigger(position))
        &&& forall|k: int| 0 <= k < op.tracks@.len() && k != i ==> #[trigger] p.tracks@[k] == op.tracks@[k]
        &&& p.name == op.name
        &&& p.loops == op.loops
        &&& n.sequencer.spec_states() == o.sequencer.spec_states()
        &&& n.sequencer.spec_enabled() == o.sequencer.spec_enabled()
        &&& leds_shown(s.track, s.page, o, n)
        &&& n.navigator == o.navigator
        &&& n.storage == o.storage
        &&& n.settings == o.settings
        &&& n.settings_events == o.settings_events
        &&& n.project_names == o.project_names
        &&& n.pads_midi_paused == o.pads_midi_paused
    } else {
        *n == *o
    }
}

/// The tracks screen after a redraw message: "add_track" redraws the
/// list, "selected_track" goes to the first page of the picked track (or
/// the list), "refresh_track" redraws the track, others leave the screen;
/// the LEDs are redrawn on every message.
pub open spec fn tracks_refreshed(
    os: &SequencerTracksScreen,
    ns: &SequencerTracksScreen,
    o: &Context,
    n: &Context,
    message: Seq<char>,
) -> bool {
    &&& only_leds_changed(o, n)
    &&& leds_shown(ns.track, ns.page, o, n)
    &&& ns.track == os.track
    &&& ns.data.focus == os.data.focus
    &&& message == "add_track"@ ==> ns.page == os.page && shows_tracks(ns.data, o)
    &&& message == "selected_track"@ ==> {
        &&& ns.page == 0
        &&& os.track < 0 ==> shows_tracks(ns.data, o)
        &&& os.track >= 0 ==> shows_track(ns.data, o, os.track as int, 0)
    }
    &&& message == "refresh_track"@ ==> ns.page == os.page && shows_track(
        ns.data,
        o,
        os.track as int,
        os.page,
    )
    &&& message != "add_track"@ && message != "selected_track"@ && message != "refresh_track"@
        ==> ns.data == os.data && ns.page == os.page
}

/// Everything but the LEDs and the written patterns is as before.
pub open spec fn only_leds_changed(old_ctx: &Context, ctx: &Context) -> bool {
    &&& ctx.sequencer == old_ctx.sequencer
    &&& ctx.settings == old_ctx.settings
    &&& ctx.pads_midi_paused == old_ctx.pads_midi_paused
    &&& ctx.project_names == old_ctx.project_names
    &&& ctx.navigator == old_ctx.navigator
    &&& ctx.settings_events == old_ctx.settings_events
    &&& ctx.storage == old_ctx.storage
}

/// The labels of the tracks' buttons, in order.
fn track_labels(p: &SequencerProject) -> (r: Vec<String>)
    ensures
        r@.len() == p.tracks@.len(),
        forall|k: int| 0 <= k < r@.len() ==> #[trigger] r@[k]@ == track_label(k as nat, p.tracks@[k].note),
{
    let mut labels: Vec<String> = Vec::new();
    let n = p.tracks.len();
    for i in 0..n
        invariant
            n == p.tracks@.len(),
            labels@.len() == i,
            forall|k: int|
                0 <= k < i ==> #[trigger] labels@[k]@ == track_label(k as nat, p.tracks@[k].note),
    {
        let mut s = String::new();
        push_decimal(&mut s, i as u128);
        push_str(&mut s, " (");
        let name = int_to_note(p.tracks[i].note as i32);
        push_str(&mut s, name.as_str());
        push_str(&mut s, ")");
        assert(s@ =~= track_label(i as nat, p.tracks@[i as int].note));
        labels.push(s);
    }
    labels
}

/// The settings of track `index` and the project's loop count.
fn track_settings(p: &SequencerProject, index: usize) -> (r: (SequencerResolution, u8, u8, u8))
    requires
        index < p.tracks@.len(),
    ensures
        r.0 == p.tracks@[index as int].resolution,
        r.1 == p.tracks@[index as int].loops,
        r.2 == p.loops,
        r.3 == p.tracks@[index as int].note,
{
    let t = &p.tracks[index];
    (t.resolution, t.loops, p.loops, t.note)
}

/// The LED pattern of the page starting at `base` for these triggers.
fn leds_of(triggers: &Vec<u8>, base: u64) -> (r: u8)
    ensures
        r == page_leds(triggers@, base as int),
{
    let mut status: u8 = 0;
    let n = triggers.len();
    for i in 0..n
        invariant
            n == triggers@.len(),
            status == page_leds(triggers@.take(i as int), base as int),
    {
        let t = triggers[i] as u64;
        assert(triggers@.take(i + 1).drop_last() =~= triggers@.take(i as int));
        if base <= t && t <= base + 7 {
            let pad = seq_to_pad((t - base) as u8);
            status = status | (1u8 << pad);
        }
    }
    assert(triggers@.take(n as int) =~= triggers@);
    status
}

/// The triggers of track `index`.
fn track_triggers(p: &SequencerProject, index: usize) -> (r: Vec<u8>)
    requires
        index < p.tracks@.len(),
    ensures
        r@ == p.tracks@[index as int].triggers@,
{
    p.tracks[index].triggers.clone()
}

/// What carrying out `action` on the tracks screen does: "Add" appends a
/// track, picking or removing a track changes the picked track, a page
/// switch moves the page, a confirmed note, resolution or loop count edits
/// that track; each asks for the matching redraw. Nothing else changes.
pub open spec fn tracks_acted(
    os: &SequencerTracksScreen,
    ns: &SequencerTracksScreen,
    o: &Context,
    n: &Context,
    action: UIAction,
) -> bool {
    &&& n.sequencer.spec_project() is Some
    &&& n.settings == o.settings
    &&& n.leds == o.leds
    &&& n.pads_midi_paused == o.pads_midi_paused
    &&& n.project_names == o.project_names
    &&& n.settings_events == o.settings_events
    &&& n.storage == o.storage
    &&& n.led_writes == o.led_writes
    &&& ns.data == os.data
    &&& match action {
        UIAction::Button(ButtonAction::AddTrack) => {
            let p = n.sequencer.spec_project()->0;
            let op = o.sequencer.spec_project()->0;
            &&& p.tracks@.len() == op.tracks@.len() + 1
            &&& forall|k: int| 0 <= k < op.tracks@.len() ==> #[trigger] p.tracks@[k] == op.tracks@[k]
            &&& one_more(o.navigator@, n.navigator@)
            &&& n.navigator@.last() matches NavigatorMessage::GraphicsEvent(
                GraphicsEvent::Refresh(m),
            ) && m@ == "add_track"@
            &&& ns.track == os.track
            &&& ns.page == os.page
        },
        UIAction::Button(ButtonAction::SelectTrack(i)) => {
            &&& n.sequencer == o.sequencer
            &&& ns.track == i as i32
            &&& ns.page == os.page
            &&& one_more(o.navigator@, n.navigator@)
            &&& n.navigator@.last() matches NavigatorMessage::GraphicsEvent(
                GraphicsEvent::Refresh(m),
            ) && m@ == "selected_track"@
        },
        UIAction::Button(ButtonAction::RemoveTrack(i)) => {
            let p = n.sequencer.spec_project()->0;
            let op = o.sequencer.spec_project()->0;
            &&& p.tracks@ == op.tracks@.remove(i as int)
            &&& ns.track == -1
            &&& ns.page == os.page
            &&& one_more(o.navigator@, n.navigator@)
            &&& n.navigator@.last() matches NavigatorMessage::GraphicsEvent(
                GraphicsEvent::Refresh(m),
            ) && m@ == "selected_track"@
        },
        UIAction::Page(page) => {
            &&& n.sequencer == o.sequencer
            &&& ns.page == page
            &&& ns.track == os.track
            &&& one_more(o.navigator@, n.navigator@)
            &&& n.navigator@.last() matches NavigatorMessage::GraphicsEvent(
                GraphicsEvent::Refresh(m),
            ) && m@ == "page"@
        },
        UIAction::Value(ValueTarget::TrackNote(i), v) => {
            &&& track_edited(o, n, i, TrackEdit::SetNote(v as u8))
            &&& n.navigator == o.navigator
            &&& ns.track == os.track
            &&& ns.page == os.page
        },
        UIAction::Value(ValueTarget::TrackResolution(i), v) => {
            &&& track_edited(
                o,
                n,
                i,
                TrackEdit::SetResolution(resolution_of_index(v)),
            )
            &&& one_more(o.navigator@, n.navigator@)
            &&& n.navigator@.last() matches NavigatorMessage::GraphicsEvent(
                GraphicsEvent::Refresh(m),
            ) && m@ == "refresh_track"@
            &&& ns.track == os.track
            &&& ns.page == os.page
        },
        UIAction::Value(ValueTarget::TrackLoops(i), v) => {
            &&& track_edited(o, n, i, TrackEdit::SetLoops(v as u8))
            &&& one_more(o.navigator@, n.navigator@)
            &&& n.navigator@.last() matches NavigatorMessage::GraphicsEvent(
                GraphicsEvent::Refresh(m),
            ) && m@ == "refresh_track"@
            &&& ns.track == os.track
            &&& ns.page == os.page
        },
        _ => {
            &&& n.sequencer == o.sequencer
            &&& n.navigator == o.navigator
            &&& ns.track == os.track
            &&& ns.page == os.page
        }
    }
}

impl SequencerTracksScreen {
    /// The kind of screen the manager builds for this route.
    pub fn factory() -> (r: ScreenKind)
        ensures
            r == ScreenKind::SequencerTracks,
    {
        ScreenKind::SequencerTracks
    }

    /// Starts on the track list, no track picked, first page.
    pub fn new(ctx: &Context) -> (r: Self)
        requires
            ctx.sequencer.spec_project() is Some,
        ensures
            r.track == -1,
            r.page == 0,
            shows_tracks(r.data, ctx),
            !r.data.focus,
    {
        let mut screen = SequencerTracksScreen { data: ScreenData::new(), track: -1, page: 0 };
        screen.show_tracks(ctx);
        screen
    }

    /// Shows the track list.
    pub fn show_tracks(&mut self, ctx: &Context)
        requires
            ctx.sequencer.spec_project() is Some,
        ensures
            final(self).track == old(self).track,
            final(self).page == old(self).page,
            final(self).data.focus == old(self).data.focus,
            shows_tracks(final(self).data, ctx),
    {
        self.data.row_offset = 0;
        self.data.clear();
        self.data.add_text(String::from_str("Tracks"));
        let labels = ctx.sequencer.get_project(track_labels);
        self.data.add_element(
            UIItem::Button(UIButton::new(String::from_str("Add"), ButtonAction::AddTrack)),
        );
        let n = labels.len();
        for i in 0..n
            invariant
                n == labels@.len(),
                labels@.len() == ctx.sequencer.spec_project()->0.tracks@.len(),
                forall|k: int|
                    0 <= k < labels@.len() ==> #[trigger] labels@[k]@ == track_label(
                        k as nat,
                        ctx.sequencer.spec_project()->0.tracks@[k].note,
                    ),
                self.data.row_offset == 0,
                self.data.focus == old(self).data.focus,
                self.track == old(self).track,
                self.page == old(self).page,
                self.data.elements@.len() == i + 2,
                is_text(self.data.elements@[0], "Tracks"@),
                is_button(self.data.elements@[1], "Add"@, ButtonActionView::AddTrack),
                forall|k: int|
                    0 <= k < i ==> is_button(
                        #[trigger] self.data.elements@[k + 2],
                        track_label(k as nat, ctx.sequencer.spec_project()->0.tracks@[k].note),
                        ButtonActionView::SelectTrack(k as usize),
                    ),
        {
            self.data.add_element(
                UIItem::Button(UIButton::new(labels[i].clone(), ButtonAction::SelectTrack(i))),
            );
            assert(is_button(
                self.data.elements@[i + 2],
                track_label(i as nat, ctx.sequencer.spec_project()->0.tracks@[i as int].note),
                ButtonActionView::SelectTrack(i),
            ));
        }
    }

    /// Shows the picked track.
    pub fn show_track(&mut self, ctx: &Context)
        requires
            ctx.sequencer.spec_project() is Some,
            0 <= old(self).track < ctx.sequencer.spec_project()->0.tracks@.len(),
        ensures
            final(self).track == old(self).track,
            final(self).page == old(self).page,
            final(self).data.focus == old(self).data.focus,
            shows_track(final(self).data, ctx, old(self).track as int, old(self).page),
    {
        self.data.row_offset = 0;
        self.data.clear();
        let index = self.track as usize;
        let ghost p = ctx.sequencer.spec_project()->0;
        let settings = track_settings(ctx.sequencer.project_ref(), index);
        assert(settings == (
            p.tracks@[index as int].resolution,
            p.tracks@[index as int].loops,
            p.loops,
            p.tracks@[index as int].note,
        ));
        let (resolution, track_loops, project_loops, track_note) = settings;
        let mut title = String::from_str("Track: ");
        push_decimal(&mut title, index as u128);
        self.data.add_text(title);
        self.data.add_element(
            UIItem::Button(UIButton::new(String::from_str("Remove"), ButtonAction::RemoveTrack(index))),
        );
        let pages_per_loop: u32 = 1 + (resolution.steps() as u32 % 2);
        assert(pages_per_loop * (track_loops as u32) <= 510) by (nonlinear_arith)
            requires
                1 <= pages_per_loop <= 2,
                track_loops <= 255,
        ;
        let pages: u32 = pages_per_loop * track_loops as u32;
        self.data.add_element(UIItem::PageSelector(UIPageSelector::new(self.page, pages)));
        self.data.add_element(
            UIItem::IntInput(
                UIIntInput::new(
                    IntInputConfig::new(
                        "Note",
                        ValueFormat::Note,
                        ValueRule::Clamp(0, MAX_MIDI_NOTE as i32),
                        Some(ValueTarget::TrackNote(index)),
                    ),
                    track_note as i32,
                ),
            ),
        );
        self.data.add_element(
            UIItem::IntInput(
                UIIntInput::new(
                    IntInputConfig::new(
                        "Res",
                        ValueFormat::Resolution,
                        ValueRule::Clamp(0, 3),
                        Some(ValueTarget::TrackResolution(index)),
                    ),
                    resolution.as_index(),
                ),
            ),
        );
        self.data.add_element(
            UIItem::IntInput(
                UIIntInput::new(
                    IntInputConfig::new(
                        "Loops",
                        ValueFormat::Plain,
                        ValueRule::LoopDivisor(project_loops),
                        Some(ValueTarget::TrackLoops(index)),
                    ),
                    track_loops as i32,
                ),
            ),
        );
    }

    /// Shows the picked track's triggers of the current page on the LEDs,
    /// or clears the overlay when no track is picked.
    pub fn update_leds(&self, ctx: &mut Context)
        requires
            old(ctx).wf(),
            track_in_project(self.track, old(ctx)),
        ensures
            final(ctx).wf(),
            only_leds_changed(old(ctx), final(ctx)),
            leds_shown(self.track, self.page, old(ctx), final(ctx)),
    {
        if self.track < 0 {
            ctx.set_sequencer_leds(0, false);
            return;
        }
        let index = self.track as usize;
        let triggers = track_triggers(ctx.sequencer.project_ref(), index);
        assert(triggers@ == ctx.sequencer.spec_project()->0.tracks@[index as int].triggers@);
        let base: u64 = self.page as u64 * 8;
        let status = leds_of(&triggers, base);
        ctx.set_sequencer_leds(status, true);
    }

    /// Redraws after a change: "add_track" redraws the list,
    /// "selected_track" goes to the first page of the picked track (or the
    /// list), "refresh_track" redraws the track; the LEDs are redrawn on
    /// every message.
    pub fn refresh(&mut self, message: &str, ctx: &mut Context)
        requires
            old(ctx).wf(),
            track_in_project(old(self).track, old(ctx)),
            message@ == "refresh_track"@ ==> old(self).track >= 0,
        ensures
            final(ctx).wf(),
            tracks_refreshed(old(self), final(self), old(ctx), final(ctx), message@),
    {
        proof {
            reveal_strlit("add_track");
            reveal_strlit("selected_track");
            reveal_strlit("refresh_track");
            assert("add_track"@.len() == 9);
            assert("selected_track"@.len() == 14);
            assert("refresh_track"@.len() == 13);
        }
        if same_text(message, "add_track") {
            self.show_tracks(ctx);
        } else if same_text(message, "selected_track") {
            self.page = 0;
            if self.track < 0 {
                self.show_tracks(ctx);
            } else {
                self.show_track(ctx);
            }
        } else if same_text(message, "refresh_track") {
            self.show_track(ctx);
        }
        self.update_leds(ctx);
    }

    /// Back releases a focused element; otherwise it leaves the picked
    /// track for the list, and is not used on the list.
    pub fn on_back(&mut self, ctx: &mut Context) -> (r: (bool, Option<UIAction>))
        requires
            old(ctx).wf(),
            track_in_project(old(self).track, old(ctx)),
            old(self).data.focus ==> old(self).data.selected_accepts(GraphicsEvent::Back),
        ensures
            final(ctx).wf(),
            !final(self).data.focus,
            old(self).data.focus ==> *final(ctx) == *old(ctx) && final(self).track == old(
                self,
            ).track && final(self).page == old(self).page && backed(
                old(self).data,
                final(self).data,
                r,
            ),
            !old(self).data.focus && old(self).track >= 0 ==> {
                &&& r.0
                &&& r.1 is None
                &&& final(self).track == -1
                &&& final(self).page == 0
                &&& shows_tracks(final(self).data, old(ctx))
                &&& only_leds_changed(old(ctx), final(ctx))
                &&& leds_shown(-1i32, 0u32, old(ctx), final(ctx))
            },
            !old(self).data.focus && old(self).track < 0 ==> !r.0 && r.1 is None && *final(self)
                == *old(self) && *final(ctx) == *old(ctx),
    {
        if self.data.focus {
            return self.data.on_back();
        }
        if self.track >= 0 {
            self.track = -1;
            proof {
                reveal_strlit("selected_track");
                reveal_strlit("refresh_track");
                assert("selected_track"@.len() == 14);
                assert("refresh_track"@.len() == 13);
            }
            self.refresh("selected_track", ctx);
            (true, None)
        } else {
            (false, None)
        }
    }

    /// A short pad press on a picked track switches the trigger of that pad
    /// on the current page and redraws the LEDs. The screen is never
    /// redrawn for it.
    pub fn on_custom_event(&mut self, event: u32, ctx: &mut Context) -> (r: bool)
        requires
            old(ctx).wf(),
            track_in_project(old(self).track, old(ctx)),
            old(self).page < 32,
        ensures
            !r,
            final(ctx).wf(),
            *final(self) == *old(self),
            pad_step_toggled(old(self), old(ctx), final(ctx), event),
    {
        let e = CustomGraphicsEvent::from_bits(event);
        if !e.is_long_click() && !e.is_shortcut() {
            if self.track < 0 {
                return false;
            }
            let channel = e.get_channel();
            let step = pad_to_seq(channel);
            let page = self.page as u8;
            let position: u8 = step + 8 * page;
            ctx.sequencer.edit_track(self.track as usize, TrackEdit::ToggleTrigger(position));
            self.update_leds(ctx);
        }
        false
    }

    /// Carries out what an element of this screen asked for.
    pub fn handle_action(&mut self, action: UIAction, ctx: &mut Context)
        requires
            old(ctx).wf(),
            track_in_project(old(self).track, old(ctx)),
            action matches UIAction::Button(ButtonAction::RemoveTrack(i)) ==> i < old(
                ctx,
            ).sequencer.spec_project()->0.tracks@.len(),
            action matches UIAction::Value(ValueTarget::TrackResolution(_), v) ==> 0 <= v <= 3,
        ensures
            final(ctx).wf(),
            tracks_acted(old(self), final(self), old(ctx), final(ctx), action),
    {
        match action {
            UIAction::Button(ButtonAction::AddTrack) => {
                ctx.sequencer.add_track();
                ctx.navigator.push(NavigatorMessage::graphics_event(GraphicsEvent::refresh("add_track")));
            },
            UIAction::Button(ButtonAction::SelectTrack(i)) => {
                self.track = i as i32;
                ctx.navigator.push(
                    NavigatorMessage::graphics_event(GraphicsEvent::refresh("selected_track")),
                );
            },
            UIAction::Button(ButtonAction::RemoveTrack(i)) => {
                ctx.sequencer.remove_track(i);
                self.track = -1;
                ctx.navigator.push(
                    NavigatorMessage::graphics_event(GraphicsEvent::refresh("selected_track")),
                );
            },
            UIAction::Page(page) => {
                self.page = page;
                ctx.navigator.push(NavigatorMessage::graphics_event(GraphicsEvent::refresh("page")));
            },
            UIAction::Value(ValueTarget::TrackNote(i), v) => {
                ctx.sequencer.edit_track(i, TrackEdit::SetNote(v as u8));
            },
            UIAction::Value(ValueTarget::TrackResolution(i), v) => {
                ctx.sequencer.edit_track(i, TrackEdit::SetResolution(SequencerResolution::from_index(v)));
                ctx.navigator.push(
                    NavigatorMessage::graphics_event(GraphicsEvent::refresh("refresh_track")),
                );
            },
            UIAction::Value(ValueTarget::TrackLoops(i), v) => {
                ctx.sequencer.edit_track(i, TrackEdit::SetLoops(v as u8));
                ctx.navigator.push(
                    NavigatorMessage::graphics_event(GraphicsEvent::refresh("refresh_track")),
                );
            },
            _ => {},
        }
    }
}

/// Track `i`, when the project has it, took `edit`; nothing else of the
/// sequencer changed.
pub open spec fn track_edited(old_ctx: &Context, ctx: &Context, i: usize, edit: TrackEdit) -> bool {
    let p = ctx.sequencer.spec_project()->0;
    let o = old_ctx.sequencer.spec_project()->0;
    &&& p.name == o.name
    &&& p.loops == o.loops
    &&& p.tracks@.len() == o.tracks@.len()
    &&& forall|k: int| 0 <= k < o.tracks@.len() && k != i ==> #[trigger] p.tracks@[k] == o.tracks@[k]
    &&& i < o.tracks@.len() ==> edited(o.tracks@[i as int], p.tracks@[i as int], edit)
    &&& ctx.sequencer.spec_states() == old_ctx.sequencer.spec_states()
    &&& ctx.sequencer.spec_enabled() == old_ctx.sequencer.spec_enabled()
}

impl Screen for SequencerTracksScreen {
    open spec fn spec_data(&self) -> ScreenData {
        self.data
    }

    fn get_data(&self) -> (r: &ScreenData) {
        &self.data
    }
}

} // verus!
