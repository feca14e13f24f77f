//! The graphics manager: the registered screens, the screen shown and the
//! way back.
use vstd::prelude::*;
use crate::context::{Context, bpm_set};
use crate::navigator::{NavigatorMessage, one_more};
use crate::graphics::drivers::lcd1602::{Lcd1602, LcdOp, clear_ops, draw_ops, init_ops, row_bytes};
use crate::graphics::event::GraphicsEvent;
use vstd::utf8::encode_utf8;
use crate::graphics::screen::{ScreenData, scroll_event};
use crate::graphics::ui::element::{
    ButtonAction, UIAction, UIElement, ValueTarget, is_text, lemma_back_no_action,
};
use crate::screens::drumpad::{DrumPadScreen, shows_drumpad};
use crate::screens::home::{HomeScreen, navigate_action, shows_home};
use crate::screens::pad_settings::{PadSettings, pads_acted, pads_are_ready, pads_ready, shows_pad};
use crate::screens::sequencer::{SequencerScreen, sequencer_acted, shows_options, shows_projects};
use crate::screens::sequencer_project::{SequencerProjectScreen, project_acted, shows_project};
use crate::screens::settings::{SettingsScreen, shows_settings};
use crate::screens::sequencer_tracks::{
    SequencerTracksScreen,
    pad_step_toggled,
    shows_tracks,
    leds_shown,
    only_leds_changed,
    track_in_project,
    tracks_acted,
    tracks_refreshed,
};
use crate::settings_components::pads::PAD_COUNT;
use crate::text::same_text;

verus! {

/// The screens the manager can build.
#[derive(Debug, Copy, Clone, PartialEq, Eq, Structural)]
pub enum ScreenKind {
    Home,
    DrumPad,
    Settings,
    PadSettings,
    Sequencer,
    SequencerProject,
    SequencerTracks,
}

/// A screen of any kind.
pub enum AnyScreen {
    Home(HomeScreen),
    DrumPad(DrumPadScreen),
    Settings(SettingsScreen),
    PadSettings(PadSettings),
    Sequencer(SequencerScreen),
    SequencerProject(SequencerProjectScreen),
    SequencerTracks(SequencerTracksScreen),
}

/// What a screen of this kind needs of the context to be built: the
/// project screens need a loaded project.
pub open spec fn kind_ready(kind: ScreenKind, ctx: &Context) -> bool {
    (kind == ScreenKind::SequencerProject || kind == ScreenKind::SequencerTracks)
        ==> ctx.sequencer.spec_project() is Some
}

/// `s` is a new screen of `kind` as its constructor makes it for `ctx`:
/// the cursor on the first element and nothing focused.
pub open spec fn built(kind: ScreenKind, s: AnyScreen, ctx: &Context) -> bool {
    &&& s.kind() == kind
    &&& s.data().row_offset == 0
    &&& !s.data().focus
    &&& match s {
        AnyScreen::Home(h) => shows_home(h.data),
        AnyScreen::DrumPad(d) => shows_drumpad(d.data),
        AnyScreen::Settings(t) => shows_settings(t.data, ctx),
        AnyScreen::PadSettings(p) => p.page_focus == -1 && p.data.elements@.len() == 0,
        AnyScreen::Sequencer(q) => q.index == 0 && shows_options(q.data, ctx),
        AnyScreen::SequencerProject(q) => shows_project(q.data, ctx),
        AnyScreen::SequencerTracks(t) => t.track == -1 && t.page == 0 && shows_tracks(t.data, ctx),
    }
}

/// `s` is a screen of `kind` as it is first shown over `ctx`: built and
/// started, so the pad screen waits for a pad press.
pub open spec fn opened(kind: ScreenKind, s: AnyScreen, ctx: &Context) -> bool {
    &&& s.kind() == kind
    &&& s.data().row_offset == 0
    &&& !s.data().focus
    &&& match s {
        AnyScreen::Home(h) => shows_home(h.data),
        AnyScreen::DrumPad(d) => shows_drumpad(d.data),
        AnyScreen::Settings(t) => shows_settings(t.data, ctx),
        AnyScreen::PadSettings(p) => p.page_focus == -1 && p.data.elements@.len() == 1 && is_text(
            p.data.elements@[0],
            "Press button"@,
        ),
        AnyScreen::Sequencer(q) => q.index == 0 && shows_options(q.data, ctx),
        AnyScreen::SequencerProject(q) => shows_project(q.data, ctx),
        AnyScreen::SequencerTracks(t) => t.track == -1 && t.page == 0 && shows_tracks(t.data, ctx),
    }
}

/// Whether pad hits are kept off the MIDI output after the screen of kind
/// `shown` (if any) ends and one of `kind` starts: only while the pad
/// screen is shown, and as before between other screens.
pub open spec fn paused_after(shown: Option<ScreenKind>, kind: ScreenKind, paused: bool) -> bool {
    if kind == ScreenKind::PadSettings {
        true
    } else if shown == Some(ScreenKind::PadSettings) {
        false
    } else {
        paused
    }
}

/// Whether a screen of this kind can be built now.
pub fn kind_is_ready(kind: ScreenKind, ctx: &Context) -> (r: bool)
    ensures
        r == kind_ready(kind, ctx),
{
    match kind {
        ScreenKind::SequencerProject | ScreenKind::SequencerTracks => ctx.sequencer.get_project_name_or_null().is_some(),
        _ => true,
    }
}

impl AnyScreen {
    pub open spec fn kind(&self) -> ScreenKind {
        match self {
            AnyScreen::Home(_) => ScreenKind::Home,
            AnyScreen::DrumPad(_) => ScreenKind::DrumPad,
            AnyScreen::Settings(_) => ScreenKind::Settings,
            AnyScreen::PadSettings(_) => ScreenKind::PadSettings,
            AnyScreen::Sequencer(_) => ScreenKind::Sequencer,
            AnyScreen::SequencerProject(_) => ScreenKind::SequencerProject,
            AnyScreen::SequencerTracks(_) => ScreenKind::SequencerTracks,
        }
    }

    /// The elements, cursor and focus of the screen.
    pub open spec fn data(&self) -> ScreenData {
        match self {
            AnyScreen::Home(s) => s.data,
            AnyScreen::DrumPad(s) => s.data,
            AnyScreen::Settings(s) => s.data,
            AnyScreen::PadSettings(s) => s.data,
            AnyScreen::Sequencer(s) => s.data,
            AnyScreen::SequencerProject(s) => s.data,
            AnyScreen::SequencerTracks(s) => s.data,
        }
    }

    /// What the screen needs of the context to take events: the pad screen
    /// needs the pads settings, the project screens a loaded project (and
    /// the tracks screen a track of it and a page whose steps fit a byte).
    pub open spec fn ready(&self, ctx: &Context) -> bool {
        match self {
            AnyScreen::PadSettings(s) => pads_ready(ctx) && s.page_focus < PAD_COUNT,
            AnyScreen::SequencerProject(_) => ctx.sequencer.spec_project() is Some,
            AnyScreen::SequencerTracks(s) => track_in_project(s.track, ctx) && s.page < 32,
            _ => true,
        }
    }

    /// The same screen showing other rows.
    pub open spec fn with_data(self, d: ScreenData) -> AnyScreen {
        match self {
            AnyScreen::Home(_) => AnyScreen::Home(HomeScreen { data: d }),
            AnyScreen::DrumPad(_) => AnyScreen::DrumPad(DrumPadScreen { data: d }),
            AnyScreen::Settings(_) => AnyScreen::Settings(SettingsScreen { data: d }),
            AnyScreen::PadSettings(s) => AnyScreen::PadSettings(
                PadSettings { page_focus: s.page_focus, data: d },
            ),
            AnyScreen::Sequencer(s) => AnyScreen::Sequencer(SequencerScreen { data: d, index: s.index }),
            AnyScreen::SequencerProject(_) => AnyScreen::SequencerProject(
                SequencerProjectScreen { data: d },
            ),
            AnyScreen::SequencerTracks(s) => AnyScreen::SequencerTracks(
                SequencerTracksScreen { data: d, track: s.track, page: s.page },
            ),
        }
    }

    /// Carrying out `action` takes the screen to `n` and the context from
    /// `oc` to `nc`; the rows stay as they are.
    pub open spec fn acted(self, n: AnyScreen, oc: Context, nc: Context, action: UIAction) -> bool {
        &&& n.kind() == self.kind()
        &&& n.data() == self.data()
        &&& match self {
            AnyScreen::PadSettings(_) => n == self && pads_acted(&oc, &nc, action),
            AnyScreen::Sequencer(s) => sequencer_acted(&s, &n->Sequencer_0, &oc, &nc, action),
            AnyScreen::SequencerProject(s) => project_acted(&s, &n->SequencerProject_0, &oc, &nc, action),
            AnyScreen::SequencerTracks(s) => if tracks_action_allowed(action, &oc) {
                tracks_acted(&s, &n->SequencerTracks_0, &oc, &nc, action)
            } else {
                n == self && nc == oc
            },
            _ => {
                &&& n == self
                &&& match action {
                    UIAction::Button(ButtonAction::Navigate(route)) => {
                        &&& nc.same_state(&oc)
                        &&& nc.settings_events == oc.settings_events
                        &&& nc.storage == oc.storage
                        &&& nc.led_writes == oc.led_writes
                        &&& one_more(oc.navigator@, nc.navigator@)
                        &&& nc.navigator@.last() matches NavigatorMessage::Navigate(p)
                            && p@ == route@
                    },
                    UIAction::Value(ValueTarget::Bpm, v) => if self is Settings {
                        &&& bpm_set(&oc, &nc, v as u8)
                        &&& nc.sequencer == oc.sequencer
                        &&& nc.leds == oc.leds
                        &&& nc.pads_midi_paused == oc.pads_midi_paused
                        &&& nc.project_names == oc.project_names
                        &&& nc.navigator == oc.navigator
                        &&& nc.storage == oc.storage
                        &&& nc.led_writes == oc.led_writes
                    } else {
                        nc == oc
                    },
                    _ => nc == oc,
                }
            },
        }
    }

    /// What a click does: when the screen is ready and the element under
    /// the cursor can take it, that element takes it and what it asks for
    /// is carried out; otherwise nothing changes.
    pub open spec fn clicked(self, n: AnyScreen, oc: Context, nc: Context) -> bool {
        let o = self.data();
        let d = n.data();
        if self.ready(&oc) && o.selected_accepts(GraphicsEvent::Click) {
            &&& d.row_offset == o.row_offset
            &&& d.elements@.len() == o.elements@.len()
            &&& forall|i: int|
                0 <= i < o.elements@.len() && i != o.row_offset ==> #[trigger] d.elements@[i]
                    == o.elements@[i]
            &&& exists|a: Option<UIAction>| #[trigger]
                o.elements@[o.row_offset as int].spec_on_event(
                    GraphicsEvent::Click,
                    d.elements@[o.row_offset as int],
                    d.focus,
                    a,
                ) && match a {
                    Some(act) => self.with_data(d).acted(n, oc, nc, act),
                    None => n == self.with_data(d) && nc == oc,
                }
        } else {
            n == self && nc == oc
        }
    }

    /// What a turn of the selector does: a focused element takes it and
    /// what it asks for is carried out; without focus the cursor moves one
    /// row, staying on the elements. Nothing changes when the screen or the
    /// focused element cannot take it, or when an empty screen is turned
    /// right.
    pub open spec fn scrolled(self, n: AnyScreen, oc: Context, nc: Context, direction: bool) -> bool {
        let o = self.data();
        let d = n.data();
        let event = scroll_event(direction);
        if !self.ready(&oc) || (o.focus && !o.selected_accepts(event)) || (!o.focus && direction
            && o.elements@.len() == 0) {
            n == self && nc == oc
        } else if o.focus {
            &&& d.focus
            &&& d.row_offset == o.row_offset
            &&& d.elements@.len() == o.elements@.len()
            &&& forall|i: int|
                0 <= i < o.elements@.len() && i != o.row_offset ==> #[trigger] d.elements@[i]
                    == o.elements@[i]
            &&& exists|flag: bool, a: Option<UIAction>| #[trigger]
                o.elements@[o.row_offset as int].spec_on_event(
                    event,
                    d.elements@[o.row_offset as int],
                    flag,
                    a,
                ) && match a {
                    Some(act) => self.with_data(d).acted(n, oc, nc, act),
                    None => n == self.with_data(d) && nc == oc,
                }
        } else {
            &&& n == self.with_data(d)
            &&& nc == oc
            &&& !d.focus
            &&& d.elements@ == o.elements@
            &&& d.row_offset == if direction {
                if o.row_offset + 1 < o.elements@.len() - 1 {
                    (o.row_offset + 1) as usize
                } else {
                    (o.elements@.len() - 1) as usize
                }
            } else if o.row_offset == 0 {
                0
            } else {
                (o.row_offset - 1) as usize
            }
        }
    }

    /// What Back does to the screen, and whether the screen used it
    /// (`r`). A screen that cannot take it now (a tracks screen that is
    /// not ready, or a focused element that cannot take it) uses it
    /// without change. A focused element takes it and the focus is
    /// released. Without focus the pad screen goes back to waiting for a
    /// pad, the sequencer screen from its project list to its options, the
    /// tracks screen from a picked track to the list; elsewhere Back is not
    /// used.
    pub open spec fn back_taken(self, n: AnyScreen, oc: Context, nc: Context, r: bool) -> bool {
        let o = self.data();
        let d = n.data();
        if (self is SequencerTracks && !self.ready(&oc)) || (o.focus && !o.selected_accepts(
            GraphicsEvent::Back,
        )) {
            r && n == self && nc == oc
        } else if o.focus {
            &&& n == self.with_data(d)
            &&& nc == oc
            &&& !d.focus
            &&& d.row_offset == o.row_offset
            &&& d.elements@.len() == o.elements@.len()
            &&& forall|i: int|
                0 <= i < o.elements@.len() && i != o.row_offset ==> #[trigger] d.elements@[i]
                    == o.elements@[i]
            &&& o.elements@[o.row_offset as int].spec_on_event(
                GraphicsEvent::Back,
                d.elements@[o.row_offset as int],
                r,
                None,
            )
        } else {
            match self {
                AnyScreen::PadSettings(s) => if s.page_focus >= 0 {
                    &&& r
                    &&& n->PadSettings_0.page_focus == -1
                    &&& d.row_offset == 0
                    &&& !d.focus
                    &&& d.elements@.len() == 1
                    &&& is_text(d.elements@[0], "Press button"@)
                    &&& nc == oc
                } else {
                    &&& !r
                    &&& n->PadSettings_0.page_focus == s.page_focus
                    &&& d.elements@ == o.elements@
                    &&& d.row_offset == o.row_offset
                    &&& !d.focus
                    &&& nc == oc
                },
                AnyScreen::Sequencer(s) => if s.index > 0 {
                    &&& r
                    &&& n->Sequencer_0.index == 0
                    &&& shows_options(d, &oc)
                    &&& nc == oc
                } else {
                    !r && n == self && nc == oc
                },
                AnyScreen::SequencerTracks(s) => if s.track >= 0 {
                    &&& r
                    &&& n->SequencerTracks_0.track == -1
                    &&& n->SequencerTracks_0.page == 0
                    &&& shows_tracks(d, &oc)
                    &&& only_leds_changed(&oc, &nc)
                    &&& leds_shown(-1i32, 0u32, &oc, &nc)
                } else {
                    !r && n == self && nc == oc
                },
                _ => {
                    &&& !r
                    &&& d.elements@ == o.elements@
                    &&& d.row_offset == o.row_offset
                    &&& !d.focus
                    &&& nc == oc
                },
            }
        }
    }

    /// What a refresh `message` does: the sequencer screen redraws the
    /// page it is on when the page changed; the tracks screen redraws what
    /// the message names when it shows a track of the loaded project (see
    /// `tracks_refreshed`); other screens ignore it.
    pub open spec fn refreshed(self, n: AnyScreen, oc: Context, nc: Context, message: Seq<char>) -> bool {
        match self {
            AnyScreen::Sequencer(s) => {
                let t = n->Sequencer_0;
                &&& n is Sequencer
                &&& nc == oc
                &&& t.index == s.index
                &&& t.data.focus == s.data.focus
                &&& message == "page_change"@ && s.index == 1 ==> shows_projects(t.data, &oc)
                &&& message == "page_change"@ && s.index != 1 ==> shows_options(t.data, &oc)
                &&& message != "page_change"@ ==> t == s
            },
            AnyScreen::SequencerTracks(s) => if track_in_project(s.track, &oc) && (message
                == "refresh_track"@ ==> s.track >= 0) {
                n is SequencerTracks && tracks_refreshed(&s, &n->SequencerTracks_0, &oc, &nc, message)
            } else {
                n == self && nc == oc
            },
            _ => n == self && nc == oc,
        }
    }

    /// What a pad event does when it reaches the screen, and whether the
    /// screen must be redrawn (`r`): a short press picks a pad on the pad
    /// screen while it waits for one; on the tracks screen a press switches
    /// a step of the picked track (see `pad_step_toggled`). Other screens,
    /// and screens that are not ready, ignore it.
    pub open spec fn pad_taken(self, n: AnyScreen, oc: Context, nc: Context, event: u32, r: bool) -> bool {
        if !(self.ready(&oc) && (self is PadSettings || self is SequencerTracks)) {
            !r && n == self && nc == oc
        } else if self is PadSettings {
            let s = self->PadSettings_0;
            let t = n->PadSettings_0;
            &&& n is PadSettings
            &&& nc == oc
            &&& r == (event & 8 == 0 && s.page_focus < 0)
            &&& r ==> t.page_focus as int == (event & 7) as int && shows_pad(t.data, &oc, t.page_focus)
            &&& !r ==> t == s
        } else {
            &&& !r
            &&& n == self
            &&& pad_step_toggled(&self->SequencerTracks_0, &oc, &nc, event)
        }
    }

    /// The screen as it starts (from `self` to `n`): the cursor on the
    /// first element; the pad screen also waits for a pad press.
    pub open spec fn started(self, n: AnyScreen) -> bool {
        &&& n.kind() == self.kind()
        &&& n.data().row_offset == 0
        &&& n.data().focus == self.data().focus
        &&& if self is PadSettings {
            &&& n->PadSettings_0.page_focus == -1
            &&& n.data().elements@.len() == 1
            &&& is_text(n.data().elements@[0], "Press button"@)
        } else {
            &&& n == self.with_data(n.data())
            &&& n.data().elements@ == self.data().elements@
        }
    }

    /// Whether the screen can take events now.
    pub fn is_ready(&self, ctx: &Context) -> (r: bool)
        requires
            ctx.wf(),
        ensures
            r == self.ready(ctx),
    {
        match self {
            AnyScreen::PadSettings(s) => pads_are_ready(ctx) && s.page_focus < 8,
            AnyScreen::SequencerProject(_) => ctx.sequencer.get_project_name_or_null().is_some(),
            AnyScreen::SequencerTracks(s) => {
                if ctx.sequencer.get_project_name_or_null().is_none() || s.page >= 32 {
                    false
                } else if s.track < 0 {
                    true
                } else {
                    (s.track as usize) < ctx.sequencer.project_ref().tracks.len()
                }
            },
            _ => true,
        }
    }

    /// A new screen of `kind`, as its constructor makes it.
    pub fn build(kind: ScreenKind, ctx: &Context) -> (r: AnyScreen)
        requires
            ctx.wf(),
            kind_ready(kind, ctx),
        ensures
            built(kind, r, ctx),
    {
        match kind {
            ScreenKind::Home => AnyScreen::Home(HomeScreen::new()),
            ScreenKind::DrumPad => AnyScreen::DrumPad(DrumPadScreen::new()),
            ScreenKind::Settings => AnyScreen::Settings(SettingsScreen::new(ctx)),
            ScreenKind::PadSettings => AnyScreen::PadSettings(PadSettings::new()),
            ScreenKind::Sequencer => AnyScreen::Sequencer(SequencerScreen::new(ctx)),
            ScreenKind::SequencerProject => AnyScreen::SequencerProject(SequencerProjectScreen::new(ctx)),
            ScreenKind::SequencerTracks => AnyScreen::SequencerTracks(SequencerTracksScreen::new(ctx)),
        }
    }

    pub fn data_ref(&self) -> (r: &ScreenData)
        ensures
            *r == self.data(),
    {
        match self {
            AnyScreen::Home(s) => &s.data,
            AnyScreen::DrumPad(s) => &s.data,
            AnyScreen::Settings(s) => &s.data,
            AnyScreen::PadSettings(s) => &s.data,
            AnyScreen::Sequencer(s) => &s.data,
            AnyScreen::SequencerProject(s) => &s.data,
            AnyScreen::SequencerTracks(s) => &s.data,
        }
    }

    /// A screen starts with the cursor on its first element; the pad screen
    /// also keeps pad hits off the MIDI output and waits for a pad press.
    pub fn on_start(&mut self, ctx: &mut Context)
        requires
            old(ctx).wf(),
        ensures
            final(ctx).wf(),
            final(self).kind() == old(self).kind(),
            old(self).started(*final(self)),
            *final(ctx) == if (*old(self)) is PadSettings {
                old(ctx).with_pads_paused(true)
            } else {
                *old(ctx)
            },
    {
        match self {
            AnyScreen::Home(s) => s.data.on_start(),
            AnyScreen::DrumPad(s) => s.data.on_start(),
            AnyScreen::Settings(s) => s.data.on_start(),
            AnyScreen::PadSettings(s) => s.on_start(ctx),
            AnyScreen::Sequencer(s) => s.data.on_start(),
            AnyScreen::SequencerProject(s) => s.data.on_start(),
            AnyScreen::SequencerTracks(s) => s.data.on_start(),
        }
    }

    /// Leaving the pad screen lets pad hits through to the MIDI output
    /// again; other screens do nothing when they end.
    pub fn on_end(&mut self, ctx: &mut Context)
        ensures
            *final(self) == *old(self),
            *final(ctx) == if (*old(self)) is PadSettings {
                old(ctx).with_pads_paused(false)
            } else {
                *old(ctx)
            },
    {
        match self {
            AnyScreen::PadSettings(s) => s.on_end(ctx),
            _ => {},
        }
    }

    /// Carries out what an element of the screen asked for. The home and
    /// drum pad screens only navigate; the settings screen also sets the
    /// tempo; the other screens carry out their own actions.
    pub fn handle_action(&mut self, action: UIAction, ctx: &mut Context)
        requires
            old(ctx).wf(),
            old(self).ready(old(ctx)),
        ensures
            final(ctx).wf(),
            final(self).kind() == old(self).kind(),
            final(self).data() == old(self).data(),
            old(self).acted(*final(self), *old(ctx), *final(ctx), action),
    {
        match self {
            AnyScreen::PadSettings(s) => s.handle_action(action, ctx),
            AnyScreen::Sequencer(s) => s.handle_action(action, ctx),
            AnyScreen::SequencerProject(s) => s.handle_action(action, ctx),
            AnyScreen::SequencerTracks(s) => {
                let allowed = match &action {
                    UIAction::Button(ButtonAction::RemoveTrack(i)) => *i < ctx.sequencer.project_ref().tracks.len(),
                    UIAction::Value(ValueTarget::TrackResolution(_), v) => 0 <= *v && *v <= 3,
                    _ => true,
                };
                if allowed {
                    s.handle_action(action, ctx);
                }
            },
            AnyScreen::Settings(_) => {
                match action {
                    UIAction::Value(ValueTarget::Bpm, v) => ctx.set_bpm(v as u8),
                    UIAction::Button(b) => {
                        if let ButtonAction::Navigate(_) = b {
                            navigate_action(&b, ctx);
                        }
                    },
                    _ => {},
                }
            },
            _ => {
                match action {
                    UIAction::Button(b) => {
                        if let ButtonAction::Navigate(_) = b {
                            navigate_action(&b, ctx);
                        }
                    },
                    _ => {},
                }
            },
        }
    }
}

impl AnyScreen {
    /// A click goes to the element under the cursor; what it asks for is
    /// carried out. Ignored when the screen or the element cannot take it.
    pub fn on_click(&mut self, ctx: &mut Context)
        requires
            old(ctx).wf(),
        ensures
            final(ctx).wf(),
            final(self).kind() == old(self).kind(),
            old(self).clicked(*final(self), *old(ctx), *final(ctx)),
    {
        if !self.is_ready(ctx) || !self.data_ref().selected_can_take(&GraphicsEvent::Click) {
            return;
        }
        let action = match self {
            AnyScreen::Home(s) => s.data.on_click(),
            AnyScreen::DrumPad(s) => s.data.on_click(),
            AnyScreen::Settings(s) => s.data.on_click(),
            AnyScreen::PadSettings(s) => s.data.on_click(),
            AnyScreen::Sequencer(s) => s.data.on_click(),
            AnyScreen::SequencerProject(s) => s.data.on_click(),
            AnyScreen::SequencerTracks(s) => s.data.on_click(),
        };
        let ghost mid = *self;
        proof {
            let o = old(self).data();
            assert(mid == old(self).with_data(mid.data()));
            assert(o.elements@[o.row_offset as int].spec_on_event(
                GraphicsEvent::Click,
                mid.data().elements@[o.row_offset as int],
                mid.data().focus,
                action,
            ));
        }
        if let Some(a) = action {
            self.handle_action(a, ctx);
        }
    }

    /// A turn of the selector: a focused element takes it, otherwise the
    /// cursor moves; what an element asks for is carried out. Ignored when
    /// the screen or the element cannot take it, or when an empty screen is
    /// turned right.
    pub fn on_scroll(&mut self, direction: bool, ctx: &mut Context)
        requires
            old(ctx).wf(),
        ensures
            final(ctx).wf(),
            final(self).kind() == old(self).kind(),
            old(self).scrolled(*final(self), *old(ctx), *final(ctx), direction),
    {
        if !self.is_ready(ctx) {
            return;
        }
        let focus = self.data_ref().focus;
        let event = if direction {
            GraphicsEvent::ScrollRight
        } else {
            GraphicsEvent::ScrollLeft
        };
        if focus && !self.data_ref().selected_can_take(&event) {
            return;
        }
        if !focus && direction && self.data_ref().elements.len() == 0 {
            return;
        }
        let action = match self {
            AnyScreen::Home(s) => s.data.on_scroll(direction),
            AnyScreen::DrumPad(s) => s.data.on_scroll(direction),
            AnyScreen::Settings(s) => s.data.on_scroll(direction),
            AnyScreen::PadSettings(s) => s.data.on_scroll(direction),
            AnyScreen::Sequencer(s) => s.data.on_scroll(direction),
            AnyScreen::SequencerProject(s) => s.data.on_scroll(direction),
            AnyScreen::SequencerTracks(s) => s.data.on_scroll(direction),
        };
        let ghost mid = *self;
        proof {
            let o = old(self).data();
            assert(mid == old(self).with_data(mid.data()));
            if o.focus {
                let flag = choose|flag: bool|
                    #[trigger] o.elements@[o.row_offset as int].spec_on_event(
                        scroll_event(direction),
                        mid.data().elements@[o.row_offset as int],
                        flag,
                        action,
                    );
                assert(o.elements@[o.row_offset as int].spec_on_event(
                    scroll_event(direction),
                    mid.data().elements@[o.row_offset as int],
                    flag,
                    action,
                ));
            }
        }
        if let Some(a) = action {
            self.handle_action(a, ctx);
        }
    }

    /// Back: the screen's own handling (a focused element, then the
    /// screen's pages); answers whether the screen used it. A screen that
    /// cannot take it now uses it without change.
    pub fn on_back(&mut self, ctx: &mut Context) -> (r: bool)
        requires
            old(ctx).wf(),
        ensures
            final(ctx).wf(),
            final(self).kind() == old(self).kind(),
            old(self).back_taken(*final(self), *old(ctx), *final(ctx), r),
    {
        if let AnyScreen::SequencerTracks(_) = self {
            if !self.is_ready(ctx) {
                return true;
            }
        }
        if self.data_ref().focus && !self.data_ref().selected_can_take(&GraphicsEvent::Back) {
            return true;
        }
        let ghost before = self.data();
        let (used, action) = match self {
            AnyScreen::Home(s) => s.data.on_back(),
            AnyScreen::DrumPad(s) => s.data.on_back(),
            AnyScreen::Settings(s) => s.data.on_back(),
            AnyScreen::PadSettings(s) => s.on_back(),
            AnyScreen::Sequencer(s) => s.on_back(ctx),
            AnyScreen::SequencerProject(s) => s.data.on_back(),
            AnyScreen::SequencerTracks(s) => s.on_back(ctx),
        };
        proof {
            if before.focus {
                lemma_back_no_action(
                    before.elements@[before.row_offset as int],
                    self.data().elements@[before.row_offset as int],
                    used,
                    action,
                );
            }
        }
        if let Some(a) = action {
            if self.is_ready(ctx) {
                self.handle_action(a, ctx);
            }
        }
        used
    }

    /// A pad event for the screen: the pad screen and the tracks screen
    /// take it; answers whether the screen must be redrawn.
    pub fn on_custom_event(&mut self, event: u32, ctx: &mut Context) -> (r: bool)
        requires
            old(ctx).wf(),
        ensures
            final(ctx).wf(),
            final(self).kind() == old(self).kind(),
            old(self).pad_taken(*final(self), *old(ctx), *final(ctx), event, r),
    {
        if !self.is_ready(ctx) {
            return false;
        }
        match self {
            AnyScreen::PadSettings(s) => s.on_custom_event(event, ctx),
            AnyScreen::SequencerTracks(s) => s.on_custom_event(event, ctx),
            _ => false,
        }
    }

    /// A refresh message for the screen: the sequencer screens redraw
    /// their pages; the others ignore it.
    pub fn refresh(&mut self, message: &str, ctx: &mut Context)
        requires
            old(ctx).wf(),
        ensures
            final(ctx).wf(),
            final(self).kind() == old(self).kind(),
            old(self).refreshed(*final(self), *old(ctx), *final(ctx), message@),
    {
        match self {
            AnyScreen::Sequencer(s) => s.refresh(message, ctx),
            AnyScreen::SequencerTracks(s) => {
                if ctx.sequencer.get_project_name_or_null().is_none() {
                    return;
                }
                let tracks = ctx.sequencer.project_ref().tracks.len();
                let picked = s.track >= 0 && (s.track as usize) < tracks;
                if (s.track < 0 || picked) && (picked || !same_text(message, "refresh_track")) {
                    s.refresh(message, ctx);
                }
            },
            _ => {},
        }
    }
}

/// Whether the tracks screen carries out `action`: removing needs an
/// existing track and a resolution one of the four positions.
pub open spec fn tracks_action_allowed(action: UIAction, ctx: &Context) -> bool {
    match action {
        UIAction::Button(ButtonAction::RemoveTrack(i)) => i < ctx.sequencer.spec_project()->0.tracks@.len(),
        UIAction::Value(ValueTarget::TrackResolution(_), v) => 0 <= v <= 3,
        _ => true,
    }
}

/// The screen registered last under `id` in `entries`, if any.
pub open spec fn route_in(entries: Seq<(String, ScreenKind)>, id: Seq<char>) -> Option<ScreenKind>
    decreases entries.len(),
{
    if entries.len() == 0 {
        None
    } else if entries.last().0@ == id {
        Some(entries.last().1)
    } else {
        route_in(entries.drop_last(), id)
    }
}

pub struct GraphicsManager {
    /// The displays the screen shown is drawn on.
    pub drivers: Vec<Lcd1602>,
    /// The registered screens; a later entry under a name replaces the
    /// earlier ones.
    pub screens_factories: Vec<(String, ScreenKind)>,
    /// The screen shown and the name it was opened under.
    pub current_screen: Option<(String, AnyScreen)>,
    /// The names of the screens to go back to, the latest last.
    pub backstack: Vec<String>,
}

/// `new` is `old` after opening `id` as screen `kind`: the screen shown
/// before goes on the way back.
pub open spec fn navigated(old: &GraphicsManager, new: &GraphicsManager, id: Seq<char>) -> bool {
    &&& new.current_id() == Some(id)
    &&& new.stack() == match old.current_id() {
        Some(c) => old.stack().push(c),
        None => old.stack(),
    }
    &&& new.screens_factories == old.screens_factories
}

/// `new` is `old` after going back: the latest screen on the way back is
/// shown again, or nothing changes when the way back is empty.
pub open spec fn went_back(old: &GraphicsManager, new: &GraphicsManager) -> bool {
    &&& if old.stack().len() > 0 {
        new.current_id() == Some(old.stack().last()) && new.stack() == old.stack().drop_last()
    } else {
        new.current_id() == old.current_id() && new.stack() == old.stack()
    }
    &&& new.screens_factories == old.screens_factories
}

impl GraphicsManager {
    /// The screen registered under `id`, if any.
    pub open spec fn route(&self, id: Seq<char>) -> Option<ScreenKind> {
        route_in(self.screens_factories@, id)
    }

    /// The name of the screen shown, if any.
    pub open spec fn current_id(&self) -> Option<Seq<char>> {
        match self.current_screen {
            Some(c) => Some(c.0@),
            None => None,
        }
    }

    /// The kind of the screen shown, if any.
    pub open spec fn current_kind(&self) -> Option<ScreenKind> {
        match self.current_screen {
            Some(c) => Some(c.1.kind()),
            None => None,
        }
    }

    /// The elements, cursor and focus of the screen shown.
    pub open spec fn current_data(&self) -> ScreenData {
        match self.current_screen {
            Some(c) => c.1.data(),
            None => arbitrary(),
        }
    }

    /// The names on the way back, the latest last.
    pub open spec fn stack(&self) -> Seq<Seq<char>> {
        self.backstack@.map_values(|s: String| s@)
    }

    /// Every name shown or on the way back is registered.
    pub open spec fn wf(&self) -> bool {
        &&& forall|i: int|
            0 <= i < self.backstack@.len() ==> #[trigger] route_in(
                self.screens_factories@,
                self.backstack@[i]@,
            ) is Some
        &&& self.current_id() matches Some(c) ==> route_in(self.screens_factories@, c) is Some
    }

    /// No screen registered, none shown.
    pub fn new() -> (r: Self)
        ensures
            r.wf(),
            forall|id: Seq<char>| #[trigger] r.route(id) is None,
            r.screens_factories@.len() == 0,
            r.current_screen is None,
            r.backstack@.len() == 0,
            r.drivers@.len() == 0,
    {
        GraphicsManager {
            drivers: Vec::new(),
            screens_factories: Vec::new(),
            current_screen: None,
            backstack: Vec::new(),
        }
    }

    /// Registers screen `factory` under `id`, replacing the one registered
    /// under that name before.
    pub fn load_screen(&mut self, id: &str, factory: ScreenKind)
        requires
            old(self).wf(),
        ensures
            final(self).wf(),
            final(self).route(id@) == Some(factory),
            forall|other: Seq<char>| other != id@ ==> #[trigger] final(self).route(other) == old(self).route(other),
            final(self).current_screen == old(self).current_screen,
            final(self).backstack == old(self).backstack,
            final(self).drivers == old(self).drivers,
    {
        self.screens_factories.push((String::from_str(id), factory));
        assert(self.screens_factories@.drop_last() =~= old(self).screens_factories@);
        assert forall|i: int| 0 <= i < self.backstack@.len() implies #[trigger] route_in(
            self.screens_factories@,
            self.backstack@[i]@,
        ) is Some by {
            assert(route_in(old(self).screens_factories@, old(self).backstack@[i]@) is Some);
        }
        proof {
            if self.current_id() is Some {
                assert(route_in(old(self).screens_factories@, self.current_id()->0) is Some);
            }
        }
    }

    /// The screen registered under `id`, if any.
    pub fn find_route(&self, id: &str) -> (r: Option<ScreenKind>)
        ensures
            r == self.route(id@),
    {
        let mut i = self.screens_factories.len();
        let key = String::from_str(id);
        assert(self.screens_factories@.take(i as int) =~= self.screens_factories@);
        while i > 0
            invariant
                i <= self.screens_factories@.len(),
                key@ == id@,
                self.route(id@) == route_in(self.screens_factories@.take(i as int), id@),
            decreases i,
        {
            let ghost t = self.screens_factories@.take(i as int);
            assert(t.drop_last() =~= self.screens_factories@.take(i - 1));
            assert(t.last() == self.screens_factories@[i - 1]);
            if self.screens_factories[i - 1].0 == key {
                return Some(self.screens_factories[i - 1].1);
            }
            i = i - 1;
        }
        None
    }

    /// Whether a screen is registered under `id`.
    pub fn has_route(&self, id: &str) -> (r: bool)
        ensures
            r == self.route(id@) is Some,
    {
        self.find_route(id).is_some()
    }

    /// Shows `screen` under `id`: the screen shown before ends, the new one
    /// starts.
    fn navigate_screen(&mut self, id: String, screen: AnyScreen, ctx: &mut Context)
        requires
            old(ctx).wf(),
        ensures
            final(ctx).wf(),
            final(self).current_screen matches Some(c) && c.0 == id && screen.started(c.1),
            final(self).screens_factories == old(self).screens_factories,
            final(self).backstack == old(self).backstack,
            final(self).drivers == old(self).drivers,
            *final(ctx) == old(ctx).with_pads_paused(
                paused_after(old(self).current_kind(), screen.kind(), old(ctx).pads_midi_paused),
            ),
    {
        let mut screen = screen;
        match &mut self.current_screen {
            Some(current) => current.1.on_end(ctx),
            None => {},
        }
        screen.on_start(ctx);
        self.current_screen = Some((id, screen));
    }

    /// Opens the screen registered under `id`, which must be registered and
    /// buildable now (a project screen needs a loaded project); the screen
    /// shown before goes on the way back.
    pub fn navigate(&mut self, id: &str, ctx: &mut Context)
        requires
            old(self).wf(),
            old(ctx).wf(),
            old(self).route(id@) is Some,
            kind_ready(old(self).route(id@)->0, old(ctx)),
        ensures
            final(self).wf(),
            final(ctx).wf(),
            old(self).opens(final(self), *old(ctx), *final(ctx), id@),
    {
        let kind = self.find_route(id).unwrap();
        let ghost old_stack = self.stack();
        match &self.current_screen {
            Some(current) => {
                let name = current.0.clone();
                self.backstack.push(name);
            },
            None => {},
        }
        proof {
            if old(self).current_id() is Some {
                assert(self.stack() =~= old_stack.push(old(self).current_id()->0));
            } else {
                assert(self.stack() =~= old_stack);
            }
        }
        let screen = AnyScreen::build(kind, ctx);
        self.navigate_screen(String::from_str(id), screen, ctx);
        proof {
            assert forall|i: int| 0 <= i < self.backstack@.len() implies #[trigger] self.route(
                self.backstack@[i]@,
            ) is Some by {
                if i < old(self).backstack@.len() {
                    assert(self.backstack@[i] == old(self).backstack@[i]);
                    assert(old(self).route(old(self).backstack@[i]@) is Some);
                } else {
                    assert(self.stack()[i] == self.backstack@[i]@);
                    assert(self.backstack@[i]@ == old(self).current_id()->0);
                }
            }
        }
    }

    /// Goes back to the latest screen on the way back, built anew. Nothing
    /// happens when the way back is empty, or when that screen cannot be
    /// built now.
    pub fn navigate_back(&mut self, ctx: &mut Context)
        requires
            old(self).wf(),
            old(ctx).wf(),
        ensures
            final(self).wf(),
            final(ctx).wf(),
            old(self).goes_back(final(self), *old(ctx), *final(ctx)),
    {
        let n = self.backstack.len();
        if n == 0 {
            return;
        }
        assert(self.stack().last() == self.backstack@[n - 1]@);
        let kind = self.find_route(self.backstack[n - 1].as_str()).unwrap();
        if !kind_is_ready(kind, ctx) {
            return;
        }
        let id = self.backstack.pop().unwrap();
        assert(self.stack() =~= old(self).stack().drop_last());
        assert(id@ == old(self).stack().last());
        let screen = AnyScreen::build(kind, ctx);
        self.navigate_screen(id, screen, ctx);
        proof {
            assert(old(self).route(old(self).backstack@[n - 1]@) is Some);
            assert forall|i: int| 0 <= i < self.backstack@.len() implies #[trigger] self.route(
                self.backstack@[i]@,
            ) is Some by {
                assert(self.backstack@[i] == old(self).backstack@[i]);
                assert(old(self).route(old(self).backstack@[i]@) is Some);
            }
        }
    }

    /// What opening the screen registered under `id` does to the manager
    /// (from `self` to `n`) and the context (from `oc` to `nc`): the screen
    /// of that kind is built and shown, the one shown before goes on the
    /// way back, and pad hits are kept off the MIDI output exactly while the
    /// pad screen is shown. Nothing changes when the screen cannot be built
    /// now.
    pub open spec fn opens(&self, n: &GraphicsManager, oc: Context, nc: Context, id: Seq<char>) -> bool {
        let kind = self.route(id)->0;
        if kind_ready(kind, &oc) {
            &&& navigated(self, n, id)
            &&& n.drivers == self.drivers
            &&& n.current_kind() == Some(kind)
            &&& n.current_screen matches Some(c) && opened(kind, c.1, &oc)
            &&& nc == oc.with_pads_paused(paused_after(self.current_kind(), kind, oc.pads_midi_paused))
        } else {
            *n == *self && nc == oc
        }
    }

    /// What going back does: the latest screen on the way back is built
    /// anew and shown, as when it is opened. Nothing changes when the way
    /// back is empty or that screen cannot be built now.
    pub open spec fn goes_back(&self, n: &GraphicsManager, oc: Context, nc: Context) -> bool {
        let kind = self.route(self.stack().last())->0;
        if self.stack().len() > 0 && kind_ready(kind, &oc) {
            &&& went_back(self, n)
            &&& n.drivers == self.drivers
            &&& n.current_screen matches Some(c) && opened(kind, c.1, &oc)
            &&& nc == oc.with_pads_paused(paused_after(self.current_kind(), kind, oc.pads_midi_paused))
        } else {
            *n == *self && nc == oc
        }
    }

    /// What a pad event does when passed to the screen shown, and whether
    /// the display must be redrawn (`r`): the screen takes it (see
    /// `AnyScreen::pad_taken`); nothing happens while no screen is shown.
    pub open spec fn pad_event_taken(
        &self,
        n: &GraphicsManager,
        oc: Context,
        nc: Context,
        event: u32,
        r: bool,
    ) -> bool {
        &&& n.screens_factories == self.screens_factories
        &&& n.drivers == self.drivers
        &&& n.current_id() == self.current_id()
        &&& n.current_kind() == self.current_kind()
        &&& n.backstack == self.backstack
        &&& self.current_screen is None ==> !r && nc == oc
        &&& !(self.current_kind() == Some(ScreenKind::PadSettings) || self.current_kind() == Some(
            ScreenKind::SequencerTracks,
        )) ==> !r && nc == oc
        &&& self.current_screen matches Some((id, s)) ==> n.current_screen matches Some((fid, fs))
            && fid == id && s.pad_taken(fs, oc, nc, event, r)
    }

    /// What passing `event` to the screen shown does to the manager (from
    /// `self` to `n`) and the context (from `oc` to `nc`): the screen takes
    /// clicks, turns, backs and refresh messages; a back it does not use
    /// goes back a screen when there is one to go back to that can be built
    /// now. Other events, and every event while no screen is shown, change
    /// nothing.
    pub open spec fn event_taken(
        &self,
        n: &GraphicsManager,
        oc: Context,
        nc: Context,
        event: GraphicsEvent,
    ) -> bool {
        &&& n.screens_factories == self.screens_factories
        &&& n.drivers == self.drivers
        &&& self.current_screen is None ==> *n == *self && nc == oc
        &&& !(event is Back) ==> {
            &&& n.current_id() == self.current_id()
            &&& n.current_kind() == self.current_kind()
            &&& n.stack() == self.stack()
        }
        &&& event is Back ==> (n.current_id() == self.current_id() && n.stack() == self.stack())
            || went_back(self, n)
        &&& self.current_screen matches Some((id, s)) ==> match event {
            GraphicsEvent::Click => {
                &&& n.current_screen matches Some((fid, fs)) && fid == id && s.clicked(fs, oc, nc)
                &&& n.backstack == self.backstack
            },
            GraphicsEvent::ScrollLeft => {
                &&& n.current_screen matches Some((fid, fs)) && fid == id && s.scrolled(
                    fs,
                    oc,
                    nc,
                    false,
                )
                &&& n.backstack == self.backstack
            },
            GraphicsEvent::ScrollRight => {
                &&& n.current_screen matches Some((fid, fs)) && fid == id && s.scrolled(
                    fs,
                    oc,
                    nc,
                    true,
                )
                &&& n.backstack == self.backstack
            },
            GraphicsEvent::Refresh(message) => {
                &&& n.current_screen matches Some((fid, fs)) && fid == id && s.refreshed(
                    fs,
                    oc,
                    nc,
                    message@,
                )
                &&& n.backstack == self.backstack
            },
            GraphicsEvent::Back => exists|m: AnyScreen, mc: Context, r: bool|
                #[trigger] s.back_taken(m, oc, mc, r) && if r {
                    &&& n.current_screen == Some((id, m))
                    &&& n.backstack == self.backstack
                    &&& nc == mc
                } else if self.stack().len() > 0 && kind_ready(
                    self.route(self.stack().last())->0,
                    &oc,
                ) {
                    let kind = self.route(self.stack().last())->0;
                    &&& went_back(self, n)
                    &&& n.current_screen matches Some(c) && opened(kind, c.1, &oc)
                    &&& nc == oc.with_pads_paused(
                        paused_after(self.current_kind(), kind, oc.pads_midi_paused),
                    )
                } else {
                    &&& n.current_screen == Some((id, m))
                    &&& n.backstack == self.backstack
                    &&& nc == oc
                },
            _ => *n == *self && nc == oc,
        }
    }

    /// Passes an input event to the screen shown: clicks, backs and turns of
    /// the selector go to the screen, and a back the screen does not use
    /// goes back a screen. A refresh message is delivered to the screen's
    /// `refresh`: the sequencer screens send themselves these messages
    /// (through the navigator) after an action changes what they must show,
    /// such as opening the project list, adding a track or picking a page,
    /// and this is the only way those messages reach them. Other events are
    /// ignored, as is every event while no screen is shown.
    pub fn send_event(&mut self, event: GraphicsEvent, ctx: &mut Context)
        requires
            old(self).wf(),
            old(ctx).wf(),
        ensures
            final(self).wf(),
            final(ctx).wf(),
            old(self).event_taken(final(self), *old(ctx), *final(ctx), event),
    {
        let current = self.current_screen.take();
        let used = match current {
            None => {
                return;
            },
            Some((id, mut screen)) => {
                let used = match event {
                    GraphicsEvent::Click => {
                        screen.on_click(ctx);
                        true
                    },
                    GraphicsEvent::Back => screen.on_back(ctx),
                    GraphicsEvent::ScrollLeft => {
                        screen.on_scroll(false, ctx);
                        true
                    },
                    GraphicsEvent::ScrollRight => {
                        screen.on_scroll(true, ctx);
                        true
                    },
                    GraphicsEvent::Refresh(message) => {
                        screen.refresh(message.as_str(), ctx);
                        true
                    },
                    _ => true,
                };
                self.current_screen = Some((id, screen));
                used
            },
        };
        let ghost taken = *self;
        let ghost taken_ctx = *ctx;
        proof {
            if event is Back {
                let now = taken.current_screen->0;
                let before = old(self).current_screen->0;
                assert(before.1.back_taken(now.1, *old(ctx), taken_ctx, used));
            }
        }
        if !used {
            self.navigate_back(ctx);
        }
    }

    /// Passes a pad event to the screen shown, which there must be; answers
    /// whether the display must be redrawn.
    pub fn send_custom_event(&mut self, event: u32, ctx: &mut Context) -> (r: bool)
        requires
            old(self).wf(),
            old(ctx).wf(),
            old(self).current_screen is Some,
        ensures
            final(self).wf(),
            final(ctx).wf(),
            old(self).pad_event_taken(final(self), *old(ctx), *final(ctx), event, r),
    {
        let current = self.current_screen.take();
        match current {
            None => false,
            Some((id, mut screen)) => {
                let r = screen.on_custom_event(event, ctx);
                self.current_screen = Some((id, screen));
                r
            },
        }
    }

    /// Adds a display; returns its start-up sequence.
    pub fn install_driver(&mut self, driver: Lcd1602) -> (r: Vec<LcdOp>)
        requires
            old(self).wf(),
        ensures
            final(self).wf(),
            r@ == init_ops(driver.addr),
            final(self).drivers@ == old(self).drivers@.push(driver),
            final(self).screens_factories == old(self).screens_factories,
            final(self).current_screen == old(self).current_screen,
            final(self).backstack == old(self).backstack,
    {
        let ops = driver.init();
        self.drivers.push(driver);
        ops
    }

    /// The lines to draw for the screen shown.
    pub fn rows(&self, selector_press: bool) -> (r: Vec<String>)
        requires
            self.current_screen is Some,
        ensures
            r@.len() == self.current_data().spec_rows(selector_press).len(),
            forall|k: int|
                0 <= k < r@.len() ==> #[trigger] r@[k]@ == self.current_data().spec_rows(selector_press)[k],
    {
        match &self.current_screen {
            Some(current) => current.1.data_ref().render(selector_press),
            None => Vec::new(),
        }
    }

    /// Redraws every display with the screen shown: each is cleared, then
    /// given the lines.
    pub fn update(&self, selector_press: bool) -> (r: Vec<LcdOp>)
        requires
            self.current_screen is Some,
        ensures
            r@ == frame_ops(
                self.drivers@,
                self.current_data().spec_rows(selector_press).map_values(|c: Seq<char>| encode_utf8(c)),
            ),
    {
        let rows = self.rows(selector_press);
        let ghost bytes = self.current_data().spec_rows(selector_press).map_values(|c: Seq<char>| encode_utf8(c));
        assert(row_bytes(rows@) =~= bytes);
        let mut ops: Vec<LcdOp> = Vec::new();
        let n = self.drivers.len();
        for i in 0..n
            invariant
                n == self.drivers@.len(),
                rows@.len() <= 2,
                row_bytes(rows@) == bytes,
                ops@ == frame_ops(self.drivers@.take(i as int), bytes),
        {
            let d = &self.drivers[i];
            let mut clear = d.clear();
            let mut draw = d.draw(&rows);
            ops.append(&mut clear);
            ops.append(&mut draw);
            assert(self.drivers@.take(i + 1).drop_last() =~= self.drivers@.take(i as int));
            assert(ops@ =~= frame_ops(self.drivers@.take(i + 1), bytes));
        }
        assert(self.drivers@.take(n as int) =~= self.drivers@);
        ops
    }
}

/// Redrawing the displays `drivers` with the lines `rows`.
pub open spec fn frame_ops(drivers: Seq<Lcd1602>, rows: Seq<Seq<u8>>) -> Seq<LcdOp>
    decreases drivers.len(),
{
    if drivers.len() == 0 {
        Seq::empty()
    } else {
        let d = drivers.last();
        frame_ops(drivers.drop_last(), rows) + clear_ops(d.addr) + draw_ops(d.addr, rows)
    }
}

/// Opening a screen and then going back shows the screen shown before
/// again, under its name, of its kind and built anew, with the way back as
/// it was. When neither screen is the pad screen the context is as it was.
pub proof fn lemma_navigate_then_back(
    m0: &GraphicsManager,
    m1: &GraphicsManager,
    m2: &GraphicsManager,
    c0: Context,
    c1: Context,
    c2: Context,
    id: Seq<char>,
)
    requires
        m0.current_screen matches Some(c) && m0.route(c.0@) == Some(c.1.kind()),
        m0.route(id) is Some,
        kind_ready(m0.route(id)->0, &c0),
        kind_ready(m0.current_kind()->0, &c0),
        m0.opens(m1, c0, c1, id),
        m1.goes_back(m2, c1, c2),
    ensures
        m2.current_id() == m0.current_id(),
        m2.current_kind() == m0.current_kind(),
        m2.stack() == m0.stack(),
        m2.screens_factories == m0.screens_factories,
        m2.drivers == m0.drivers,
        m2.current_screen matches Some(c) && opened(m0.current_kind()->0, c.1, &c0),
        m0.current_kind() != Some(ScreenKind::PadSettings) && m0.route(id) != Some(
            ScreenKind::PadSettings,
        ) ==> c2 == c0,
{
    assert(m1.stack().len() > 0);
    assert(m1.stack().drop_last() =~= m0.stack());
    assert(m1.stack().last() == m0.current_id()->0);
    assert(c1.sequencer == c0.sequencer && c1.settings == c0.settings);
    assert(c1.project_names == c0.project_names);
}

} // verus!
