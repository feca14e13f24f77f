//! The element interface: how an element draws itself and answers events,
//! and the actions an element hands back to its screen.
use vstd::prelude::*;
use crate::graphics::event::GraphicsEvent;
use crate::graphics::ui::button::UIButton;
use crate::graphics::ui::checkbox::UICheckBox;
use crate::graphics::ui::intinput::UIIntInput;
use crate::graphics::ui::page_selector::UIPageSelector;
use crate::graphics::ui::row::UIRow;
use crate::graphics::ui::text::UIText;

verus! {

/// How an element is drawn: as the selected row, as the selected row while
/// the selector button is held, or plainly.
#[derive(Debug, Copy, Clone, PartialEq, Eq, Structural)]
pub enum UIElementState {
    Selected,
    SelectorPress,
    Unselected,
}

/// The marker drawn in front of an element.
pub open spec fn state_prefix(state: UIElementState) -> Seq<char> {
    match state {
        UIElementState::Selected => seq!['>'],
        UIElementState::SelectorPress => seq!['\\'],
        UIElementState::Unselected => Seq::empty(),
    }
}

/// Appends the marker drawn in front of an element.
pub fn push_prefix(s: &mut String, state: UIElementState)
    ensures
        final(s)@ == old(s)@ + state_prefix(state),
{
    match state {
        UIElementState::Selected => crate::text::push_char(s, '>'),
        UIElementState::SelectorPress => crate::text::push_char(s, '\\'),
        UIElementState::Unselected => {
            assert(s@ =~= s@ + state_prefix(state));
        },
    }
}

/// What pressing a button asks for.
pub enum ButtonAction {
    /// Open the named screen.
    Navigate(String),
    /// Store the pad settings and leave the pad screen.
    SavePads,
    /// Start a new sequencer project with a fresh name.
    NewProject,
    /// Show the list of stored projects.
    OpenProjects,
    /// Load the named stored project.
    LoadProject(String),
    /// Store the current project.
    SaveProject,
    AddTrack,
    SelectTrack(usize),
    RemoveTrack(usize),
}

impl ButtonAction {
    pub fn duplicate(&self) -> (r: Self)
        ensures
            r == *self,
    {
        match self {
            ButtonAction::Navigate(s) => ButtonAction::Navigate(s.clone()),
            ButtonAction::SavePads => ButtonAction::SavePads,
            ButtonAction::NewProject => ButtonAction::NewProject,
            ButtonAction::OpenProjects => ButtonAction::OpenProjects,
            ButtonAction::LoadProject(s) => ButtonAction::LoadProject(s.clone()),
            ButtonAction::SaveProject => ButtonAction::SaveProject,
            ButtonAction::AddTrack => ButtonAction::AddTrack,
            ButtonAction::SelectTrack(i) => ButtonAction::SelectTrack(*i),
            ButtonAction::RemoveTrack(i) => ButtonAction::RemoveTrack(*i),
        }
    }
}

/// A button action, with its names as character sequences.
pub enum ButtonActionView {
    Navigate(Seq<char>),
    SavePads,
    NewProject,
    OpenProjects,
    LoadProject(Seq<char>),
    SaveProject,
    AddTrack,
    SelectTrack(usize),
    RemoveTrack(usize),
}

impl View for ButtonAction {
    type V = ButtonActionView;

    open spec fn view(&self) -> ButtonActionView {
        match self {
            ButtonAction::Navigate(s) => ButtonActionView::Navigate(s@),
            ButtonAction::SavePads => ButtonActionView::SavePads,
            ButtonAction::NewProject => ButtonActionView::NewProject,
            ButtonAction::OpenProjects => ButtonActionView::OpenProjects,
            ButtonAction::LoadProject(s) => ButtonActionView::LoadProject(s@),
            ButtonAction::SaveProject => ButtonActionView::SaveProject,
            ButtonAction::AddTrack => ButtonActionView::AddTrack,
            ButtonAction::SelectTrack(i) => ButtonActionView::SelectTrack(*i),
            ButtonAction::RemoveTrack(i) => ButtonActionView::RemoveTrack(*i),
        }
    }
}

/// `e` is a text showing `s`.
pub open spec fn is_text(e: UIItem, s: Seq<char>) -> bool {
    e matches UIItem::Text(t) && t.text@ == s
}

/// `e` is a button labelled `s` with action `a`.
pub open spec fn is_button(e: UIItem, s: Seq<char>, a: ButtonActionView) -> bool {
    e matches UIItem::Button(b) && b.text@ == s && b.on_click@ == a
}

/// `e` is a row item that is a button labelled `s` with action `a`.
pub open spec fn is_row_button(e: UIRowItem, s: Seq<char>, a: ButtonActionView) -> bool {
    e matches UIRowItem::Button(b) && b.text@ == s && b.on_click@ == a
}

/// `e` is an unfocused number input labelled `s` showing `value` with the
/// given format, rule and target.
pub open spec fn is_int_input(
    e: UIItem,
    s: Seq<char>,
    format: crate::graphics::ui::intinput::ValueFormat,
    rule: crate::graphics::ui::intinput::ValueRule,
    target: ValueTarget,
    value: i32,
) -> bool {
    e matches UIItem::IntInput(n) && n.config.text@ == s && n.config.format_value == format
        && n.config.on_change == rule && n.config.on_done == Some(target) && n.value == value
        && n.old_value == value && !n.focus
}

/// The setting a number input edits.
#[derive(Debug, Copy, Clone, PartialEq, Eq, Structural)]
pub enum ValueTarget {
    Bpm,
    PadNote(u8),
    PadChannel(u8),
    ProjectLoops,
    TrackNote(usize),
    TrackResolution(usize),
    TrackLoops(usize),
}

/// The setting a check box switches.
#[derive(Debug, Copy, Clone, PartialEq, Eq, Structural)]
pub enum ToggleTarget {
    SequencerEnabled,
}

/// What an element asks its screen to do after an event.
pub enum UIAction {
    Button(ButtonAction),
    /// A number input was confirmed with a new value.
    Value(ValueTarget, i32),
    /// A check box was switched to the given state.
    Toggle(ToggleTarget, bool),
    /// A page selector moved to the given page (counted from 0).
    Page(u32),
}

/// The interface of everything a screen can show in a row.
pub trait UIElement: Sized {
    /// The text the element draws in `state`.
    spec fn spec_render(&self, state: UIElementState) -> Seq<char>;

    /// Whether the element can take `event` (some events are undefined for
    /// some element states).
    spec fn accepts(&self, event: GraphicsEvent) -> bool;

    /// On `event` the element becomes `after` and answers `flag` and
    /// `action`.
    spec fn spec_on_event(
        &self,
        event: GraphicsEvent,
        after: Self,
        flag: bool,
        action: Option<UIAction>,
    ) -> bool;

    fn render(&self, state: UIElementState) -> (r: String)
        ensures
            r@ == self.spec_render(state),
    ;

    /// Whether the element can take `event`.
    fn can_take(&self, event: &GraphicsEvent) -> (r: bool)
        ensures
            r == self.accepts(*event),
    ;

    /// Handles `event`. The flag tells the screen whether the element holds
    /// the focus (for a click) or consumed the event (for a back).
    fn on_event(&mut self, event: GraphicsEvent) -> (r: (bool, Option<UIAction>))
        requires
            old(self).accepts(event),
        ensures
            old(self).spec_on_event(event, *final(self), r.0, r.1),
    ;
}

/// An element that can stand inside a row.
pub enum UIRowItem {
    Button(UIButton),
    CheckBox(UICheckBox),
    IntInput(UIIntInput),
    PageSelector(UIPageSelector),
    Text(UIText),
}

/// An element of a screen.
pub enum UIItem {
    Button(UIButton),
    CheckBox(UICheckBox),
    IntInput(UIIntInput),
    PageSelector(UIPageSelector),
    Text(UIText),
    Row(UIRow),
}

impl UIElement for UIRowItem {
    open spec fn spec_render(&self, state: UIElementState) -> Seq<char> {
        match self {
            UIRowItem::Button(e) => e.spec_render(state),
            UIRowItem::CheckBox(e) => e.spec_render(state),
            UIRowItem::IntInput(e) => e.spec_render(state),
            UIRowItem::PageSelector(e) => e.spec_render(state),
            UIRowItem::Text(e) => e.spec_render(state),
        }
    }

    open spec fn accepts(&self, event: GraphicsEvent) -> bool {
        match self {
            UIRowItem::Button(e) => e.accepts(event),
            UIRowItem::CheckBox(e) => e.accepts(event),
            UIRowItem::IntInput(e) => e.accepts(event),
            UIRowItem::PageSelector(e) => e.accepts(event),
            UIRowItem::Text(e) => e.accepts(event),
        }
    }

    open spec fn spec_on_event(
        &self,
        event: GraphicsEvent,
        after: Self,
        flag: bool,
        action: Option<UIAction>,
    ) -> bool {
        match self {
            UIRowItem::Button(e) => after matches UIRowItem::Button(n) && e.spec_on_event(event, n, flag, action),
            UIRowItem::CheckBox(e) => after matches UIRowItem::CheckBox(n) && e.spec_on_event(event, n, flag, action),
            UIRowItem::IntInput(e) => after matches UIRowItem::IntInput(n) && e.spec_on_event(event, n, flag, action),
            UIRowItem::PageSelector(e) => after matches UIRowItem::PageSelector(n) && e.spec_on_event(event, n, flag, action),
            UIRowItem::Text(e) => after matches UIRowItem::Text(n) && e.spec_on_event(event, n, flag, action),
        }
    }

    fn render(&self, state: UIElementState) -> (r: String) {
        match self {
            UIRowItem::Button(e) => e.render(state),
            UIRowItem::CheckBox(e) => e.render(state),
            UIRowItem::IntInput(e) => e.render(state),
            UIRowItem::PageSelector(e) => e.render(state),
            UIRowItem::Text(e) => e.render(state),
        }
    }

    fn can_take(&self, event: &GraphicsEvent) -> (r: bool) {
        match self {
            UIRowItem::Button(e) => e.can_take(event),
            UIRowItem::CheckBox(e) => e.can_take(event),
            UIRowItem::IntInput(e) => e.can_take(event),
            UIRowItem::PageSelector(e) => e.can_take(event),
            UIRowItem::Text(e) => e.can_take(event),
        }
    }

    fn on_event(&mut self, event: GraphicsEvent) -> (r: (bool, Option<UIAction>)) {
        match self {
            UIRowItem::Button(e) => e.on_event(event),
            UIRowItem::CheckBox(e) => e.on_event(event),
            UIRowItem::IntInput(e) => e.on_event(event),
            UIRowItem::PageSelector(e) => e.on_event(event),
            UIRowItem::Text(e) => e.on_event(event),
        }
    }
}

impl UIElement for UIItem {
    open spec fn spec_render(&self, state: UIElementState) -> Seq<char> {
        match self {
            UIItem::Button(e) => e.spec_render(state),
            UIItem::CheckBox(e) => e.spec_render(state),
            UIItem::IntInput(e) => e.spec_render(state),
            UIItem::PageSelector(e) => e.spec_render(state),
            UIItem::Text(e) => e.spec_render(state),
            UIItem::Row(e) => e.spec_render(state),
        }
    }

    open spec fn accepts(&self, event: GraphicsEvent) -> bool {
        match self {
            UIItem::Button(e) => e.accepts(event),
            UIItem::CheckBox(e) => e.accepts(event),
            UIItem::IntInput(e) => e.accepts(event),
            UIItem::PageSelector(e) => e.accepts(event),
            UIItem::Text(e) => e.accepts(event),
            UIItem::Row(e) => e.accepts(event),
        }
    }

    open spec fn spec_on_event(
        &self,
        event: GraphicsEvent,
        after: Self,
        flag: bool,
        action: Option<UIAction>,
    ) -> bool {
        match self {
            UIItem::Button(e) => after matches UIItem::Button(n) && e.spec_on_event(event, n, flag, action),
            UIItem::CheckBox(e) => after matches UIItem::CheckBox(n) && e.spec_on_event(event, n, flag, action),
            UIItem::IntInput(e) => after matches UIItem::IntInput(n) && e.spec_on_event(event, n, flag, action),
            UIItem::PageSelector(e) => after matches UIItem::PageSelector(n) && e.spec_on_event(event, n, flag, action),
            UIItem::Text(e) => after matches UIItem::Text(n) && e.spec_on_event(event, n, flag, action),
            UIItem::Row(e) => after matches UIItem::Row(n) && e.spec_on_event(event, n, flag, action),
        }
    }

    fn render(&self, state: UIElementState) -> (r: String) {
        match self {
            UIItem::Button(e) => e.render(state),
            UIItem::CheckBox(e) => e.render(state),
            UIItem::IntInput(e) => e.render(state),
            UIItem::PageSelector(e) => e.render(state),
            UIItem::Text(e) => e.render(state),
            UIItem::Row(e) => e.render(state),
        }
    }

    fn can_take(&self, event: &GraphicsEvent) -> (r: bool) {
        match self {
            UIItem::Button(e) => e.can_take(event),
            UIItem::CheckBox(e) => e.can_take(event),
            UIItem::IntInput(e) => e.can_take(event),
            UIItem::PageSelector(e) => e.can_take(event),
            UIItem::Text(e) => e.can_take(event),
            UIItem::Row(e) => e.can_take(event),
        }
    }

    fn on_event(&mut self, event: GraphicsEvent) -> (r: (bool, Option<UIAction>)) {
        match self {
            UIItem::Button(e) => e.on_event(event),
            UIItem::CheckBox(e) => e.on_event(event),
            UIItem::IntInput(e) => e.on_event(event),
            UIItem::PageSelector(e) => e.on_event(event),
            UIItem::Text(e) => e.on_event(event),
            UIItem::Row(e) => e.on_event(event),
        }
    }
}

/// Back never asks the screen for an action, whatever element takes it.
pub proof fn lemma_back_no_action(
    e: UIItem,
    after: UIItem,
    flag: bool,
    action: Option<UIAction>,
)
    requires
        e.spec_on_event(GraphicsEvent::Back, after, flag, action),
    ensures
        action is None,
{
}

} // verus!
