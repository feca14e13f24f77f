//! The sequencer screen: the on/off switch, the current project, and the
//! way to a new project or to one of the stored projects.
use vstd::prelude::*;
use crate::context::{Context, StorageRequest};
use crate::graphics::event::GraphicsEvent;
use crate::graphics::manager::ScreenKind;
use crate::graphics::screen::{Screen, ScreenData, backed};
use crate::graphics::ui::button::UIButton;
use crate::graphics::ui::checkbox::UICheckBox;
use crate::graphics::ui::element::{
    ButtonAction,
    ButtonActionView,
    ToggleTarget,
    UIAction,
    UIItem,
    UIRowItem,
    is_button,
    is_row_button,
    is_text,
};
use crate::graphics::ui::row::UIRow;
use crate::navigator::{NavigatorMessage, one_more};
use crate::screens::home::navigate_action;
use crate::text::{lemma_decimal_injective, push_decimal, push_str, same_text, spec_decimal};

verus! {

/// The name a new project gets when `k` is the first free number.
pub open spec fn project_name(k: nat) -> Seq<char> {
    "Project"@ + spec_decimal(k)
}

/// The names as character sequences.
pub open spec fn name_views(names: Seq<String>) -> Seq<Seq<char>> {
    names.map_values(|s: String| s@)
}

/// `k` is the first number from 1 on whose project name is not taken.
pub open spec fn first_free(names: Seq<Seq<char>>, k: nat) -> bool {
    &&& k >= 1
    &&& !names.contains(project_name(k))
    &&& forall|j: nat| 1 <= j < k ==> names.contains(#[trigger] project_name(j))
}

/// Different numbers give different project names.
proof fn lemma_project_name_injective(a: nat, b: nat)
    requires
        project_name(a) == project_name(b),
    ensures
        a == b,
{
    reveal_strlit("Project");
    let pa = project_name(a);
    let pb = project_name(b);
    assert(pa.subrange(7, pa.len() as int) =~= spec_decimal(a));
    assert(pb.subrange(7, pb.len() as int) =~= spec_decimal(b));
    lemma_decimal_injective(a, b);
}

/// When the names of projects 1 to `i - 1` are all taken there are at least
/// `i - 1` names.
proof fn lemma_taken_names_bound(names: Seq<Seq<char>>, i: nat)
    requires
        i >= 1,
        forall|j: nat| 1 <= j < i ==> names.contains(#[trigger] project_name(j)),
    ensures
        i <= names.len() + 1,
{
    let p = Seq::new((i - 1) as nat, |k: int| project_name((k + 1) as nat));
    assert(p.no_duplicates()) by {
        assert forall|a: int, b: int|
            0 <= a < p.len() && 0 <= b < p.len() && a != b implies p[a] != p[b] by {
            if p[a] == p[b] {
                lemma_project_name_injective((a + 1) as nat, (b + 1) as nat);
            }
        }
    }
    assert(p.to_set().subset_of(names.to_set())) by {
        assert forall|x: Seq<char>| p.to_set().contains(x) implies names.to_set().contains(x) by {
            let k = choose|k: int| 0 <= k < p.len() && p[k] == x;
            assert(names.contains(project_name((k + 1) as nat)));
        }
    }
    p.unique_seq_to_set();
    names.lemma_cardinality_of_set();
    vstd::seq_lib::seq_to_set_is_finite(names);
    vstd::set_lib::lemma_len_subset(p.to_set(), names.to_set());
}

/// Whether one of `names` equals `s`.
fn contains_name(names: &Vec<String>, s: &String) -> (r: bool)
    ensures
        r == name_views(names@).contains(s@),
{
    let n = names.len();
    for i in 0..n
        invariant
            n == names@.len(),
            forall|k: int| 0 <= k < i ==> #[trigger] names@[k]@ != s@,
    {
        if names[i] == *s {
            assert(name_views(names@)[i as int] == s@);
            return true;
        }
    }
    assert(!name_views(names@).contains(s@)) by {
        if name_views(names@).contains(s@) {
            let k = choose|k: int| 0 <= k < name_views(names@).len() && name_views(names@)[k] == s@;
            assert(names@[k]@ == s@);
        }
    }
    false
}

/// The name of a new project: "Project1", "Project2", ..., the first that
/// no stored project has.
pub fn fresh_project_name(names: &Vec<String>) -> (r: String)
    ensures
        exists|k: nat| #[trigger] first_free(name_views(names@), k) && r@ == project_name(k),
{
    let ghost views = name_views(names@);
    let n = names.len();
    let mut i: u128 = 1;
    let mut name = String::from_str("Project");
    push_decimal(&mut name, 1);
    while contains_name(names, &name)
        invariant
            views == name_views(names@),
            views.len() == names@.len(),
            n == names@.len(),
            1 <= i <= n + 1,
            name@ == project_name(i as nat),
            forall|j: nat| 1 <= j < i ==> views.contains(#[trigger] project_name(j)),
        decreases names@.len() + 1 - i,
    {
        proof {
            assert forall|j: nat| 1 <= j < i + 1 implies views.contains(#[trigger] project_name(j)) by {
                if j == i {
                } else {
                }
            }
            lemma_taken_names_bound(views, (i + 1) as nat);
        }
        i = i + 1;
        name = String::from_str("Project");
        push_decimal(&mut name, i);
    }
    assert(first_free(views, i as nat));
    name
}

pub struct SequencerScreen {
    pub data: ScreenData,
    /// Which page is shown: 0 for the options, 1 for the stored projects.
    pub index: u8,
}

/// The options page of `data`: title, switch and, when a project is loaded,
/// a button to it, then the row with "New" and "Open".
pub open spec fn shows_options(data: ScreenData, ctx: &Context) -> bool {
    let enabled = ctx.sequencer.spec_enabled();
    let project = ctx.sequencer.spec_project();
    let row_at: int = if project is Some {
        3
    } else {
        2
    };
    &&& data.row_offset == 0
    &&& data.elements@.len() == row_at + 1
    &&& is_text(data.elements@[0], "Sequencer"@)
    &&& data.elements@[1] matches UIItem::CheckBox(c) && c.label@ == "Enabled"@ && c.on_change
        == ToggleTarget::SequencerEnabled && c.checked == enabled
    &&& project is Some ==> is_button(
        data.elements@[2],
        "Curr: "@ + project->0.name@,
        ButtonActionView::Navigate("sequencer_project"@),
    )
    &&& data.elements@[row_at] matches UIItem::Row(row) && row.label@ == "Project"@ + ": "@
        && row.elements@.len() == 2 && row.offset == 0 && !row.focus && is_row_button(
        row.elements@[0],
        "New"@,
        ButtonActionView::NewProject,
    ) && is_row_button(row.elements@[1], "Open"@, ButtonActionView::OpenProjects)
}

/// The project list of `data`: a title and one button per stored project.
pub open spec fn shows_projects(data: ScreenData, ctx: &Context) -> bool {
    let names = ctx.project_names@;
    &&& data.row_offset == 0
    &&& data.elements@.len() == names.len() + 1
    &&& is_text(data.elements@[0], "Select Project"@)
    &&& forall|k: int|
        0 <= k < names.len() ==> is_button(
            #[trigger] data.elements@[k + 1],
            names[k]@,
            ButtonActionView::LoadProject(names[k]@),
        )
}

/// What carrying out `action` on the sequencer screen does: the switch
/// turns the sequencer on or off and asks for a redraw, "New" starts a
/// project with the first free name and opens it, "Open" shows the stored
/// projects, a stored project is asked for and opened, a navigation button
/// asks for its screen; nothing else changes.
pub open spec fn sequencer_acted(
    os: &SequencerScreen,
    ns: &SequencerScreen,
    o: &Context,
    n: &Context,
    action: UIAction,
) -> bool {
    &&& n.settings == o.settings
    &&& n.leds == o.leds
    &&& n.pads_midi_paused == o.pads_midi_paused
    &&& n.project_names == o.project_names
    &&& n.settings_events == o.settings_events
    &&& n.led_writes == o.led_writes
    &&& ns.data == os.data
    &&& match action {
        UIAction::Toggle(_, v) => {
            &&& n.sequencer.spec_enabled() == v
            &&& n.sequencer.spec_project() == o.sequencer.spec_project()
            &&& one_more(o.navigator@, n.navigator@)
            &&& n.navigator@.last() matches NavigatorMessage::GraphicsEvent(
                GraphicsEvent::Refresh(m),
            ) && m@.len() == 0
            &&& ns.index == os.index
        },
        UIAction::Button(ButtonAction::NewProject) => {
            let p = n.sequencer.spec_project();
            &&& p is Some
            &&& exists|k: nat| #[trigger]
                first_free(name_views(o.project_names@), k) && p->0.name@
                    == project_name(k)
            &&& p->0.loops == 1
            &&& p->0.tracks@.len() == 0
            &&& n.sequencer.spec_enabled() == o.sequencer.spec_enabled()
            &&& one_more(o.navigator@, n.navigator@)
            &&& n.navigator@.last() matches NavigatorMessage::Navigate(r) && r@
                == "sequencer_project"@
            &&& n.storage == o.storage
            &&& ns.index == os.index
        },
        UIAction::Button(ButtonAction::OpenProjects) => {
            &&& ns.index == 1
            &&& n.sequencer == o.sequencer
            &&& one_more(o.navigator@, n.navigator@)
            &&& n.navigator@.last() matches NavigatorMessage::GraphicsEvent(
                GraphicsEvent::Refresh(m),
            ) && m@ == "page_change"@
            &&& n.storage == o.storage
        },
        UIAction::Button(ButtonAction::LoadProject(name)) => {
            &&& n.sequencer == o.sequencer
            &&& n.storage@.len() == o.storage@.len() + 1
            &&& n.storage@.last() matches StorageRequest::LoadProject(q) && q@ == name@
            &&& one_more(o.navigator@, n.navigator@)
            &&& n.navigator@.last() matches NavigatorMessage::Navigate(r) && r@
                == "sequencer_project"@
            &&& ns.index == os.index
        },
        UIAction::Button(ButtonAction::Navigate(route)) => {
            &&& n.sequencer == o.sequencer
            &&& n.storage == o.storage
            &&& one_more(o.navigator@, n.navigator@)
            &&& n.navigator@.last() matches NavigatorMessage::Navigate(r) && r@
                == route@
            &&& ns.index == os.index
        },
        _ => {
            &&& n.sequencer == o.sequencer
            &&& n.storage == o.storage
            &&& n.navigator == o.navigator
            &&& ns.index == os.index
        },
    }
}

impl SequencerScreen {
    /// The kind of screen the manager builds for this route.
    pub fn factory() -> (r: ScreenKind)
        ensures
            r == ScreenKind::Sequencer,
    {
        ScreenKind::Sequencer
    }

    /// Starts on the options page.
    pub fn new(ctx: &Context) -> (r: Self)
        ensures
            r.index == 0,
            shows_options(r.data, ctx),
            !r.data.focus,
    {
        let mut screen = SequencerScreen { data: ScreenData::new(), index: 0 };
        screen.sequencer_options(ctx);
        screen
    }

    /// Shows the options page.
    pub fn sequencer_options(&mut self, ctx: &Context)
        ensures
            final(self).index == old(self).index,
            final(self).data.focus == old(self).data.focus,
            shows_options(final(self).data, ctx),
    {
        self.data.row_offset = 0;
        self.data.clear();
        self.data.add_text(String::from_str("Sequencer"));
        let enabled = ctx.sequencer.enabled();
        self.data.add_element(
            UIItem::CheckBox(
                UICheckBox::new(String::from_str("Enabled"), ToggleTarget::SequencerEnabled, enabled),
            ),
        );
        match ctx.sequencer.get_project_name_or_null() {
            Some(current) => {
                let mut label = String::from_str("Curr: ");
                push_str(&mut label, current.as_str());
                self.data.add_element(
                    UIItem::Button(
                        UIButton::new(
                            label,
                            ButtonAction::Navigate(String::from_str("sequencer_project")),
                        ),
                    ),
                );
            },
            None => {},
        }
        let mut row = UIRow::with_label("Project");
        row.add_element(
            UIRowItem::Button(UIButton::new(String::from_str("New"), ButtonAction::NewProject)),
        );
        row.add_element(
            UIRowItem::Button(UIButton::new(String::from_str("Open"), ButtonAction::OpenProjects)),
        );
        self.data.add_element(UIItem::Row(row));
    }

    /// Shows the stored projects, one button each.
    pub fn select_project(&mut self, ctx: &Context)
        ensures
            final(self).index == old(self).index,
            final(self).data.focus == old(self).data.focus,
            shows_projects(final(self).data, ctx),
    {
        self.data.row_offset = 0;
        self.data.clear();
        self.data.add_text(String::from_str("Select Project"));
        let n = ctx.project_names.len();
        for i in 0..n
            invariant
                n == ctx.project_names@.len(),
                self.data.row_offset == 0,
                self.data.focus == old(self).data.focus,
                self.index == old(self).index,
                self.data.elements@.len() == i + 1,
                is_text(self.data.elements@[0], "Select Project"@),
                forall|k: int|
                    0 <= k < i ==> is_button(
                        #[trigger] self.data.elements@[k + 1],
                        ctx.project_names@[k]@,
                        ButtonActionView::LoadProject(ctx.project_names@[k]@),
                    ),
        {
            let name = &ctx.project_names[i];
            self.data.add_element(
                UIItem::Button(UIButton::new(name.clone(), ButtonAction::LoadProject(name.clone()))),
            );
            assert(is_button(
                self.data.elements@[i + 1],
                ctx.project_names@[i as int]@,
                ButtonActionView::LoadProject(ctx.project_names@[i as int]@),
            ));
        }
    }

    /// Redraws the page in force on a "page_change" message.
    pub fn refresh(&mut self, message: &str, ctx: &Context)
        ensures
            final(self).index == old(self).index,
            final(self).data.focus == old(self).data.focus,
            message@ == "page_change"@ && old(self).index == 1 ==> shows_projects(final(self).data, ctx),
            message@ == "page_change"@ && old(self).index != 1 ==> shows_options(final(self).data, ctx),
            message@ != "page_change"@ ==> *final(self) == *old(self),
    {
        if same_text(message, "page_change") {
            if self.index == 1 {
                self.select_project(ctx);
            } else {
                self.sequencer_options(ctx);
            }
        }
    }

    /// Back releases a focused element; otherwise it leaves the project list
    /// for the options page, and is not used on the options page.
    pub fn on_back(&mut self, ctx: &Context) -> (r: (bool, Option<UIAction>))
        requires
            old(self).data.focus ==> old(self).data.selected_accepts(GraphicsEvent::Back),
        ensures
            !final(self).data.focus,
            old(self).data.focus ==> final(self).index == old(self).index && backed(
                old(self).data,
                final(self).data,
                r,
            ),
            !old(self).data.focus && old(self).index > 0 ==> {
                &&& r.0
                &&& r.1 is None
                &&& final(self).index == 0
                &&& shows_options(final(self).data, ctx)
            },
            !old(self).data.focus && old(self).index == 0 ==> !r.0 && r.1 is None && *final(self)
                == *old(self),
    {
        if self.data.focus {
            return self.data.on_back();
        }
        if self.index > 0 {
            self.index = 0;
            self.sequencer_options(ctx);
            (true, None)
        } else {
            (false, None)
        }
    }

    /// Carries out what an element of this screen asked for.
    pub fn handle_action(&mut self, action: UIAction, ctx: &mut Context)
        requires
            old(ctx).wf(),
        ensures
            final(ctx).wf(),
            sequencer_acted(old(self), final(self), old(ctx), final(ctx), action),
    {
        match action {
            UIAction::Toggle(_, v) => {
                ctx.set_sequencer_enabled(v);
            },
            UIAction::Button(ButtonAction::NewProject) => {
                let name = fresh_project_name(&ctx.project_names);
                ctx.start_project(name);
            },
            UIAction::Button(ButtonAction::OpenProjects) => {
                self.index = 1;
                ctx.navigator.push(NavigatorMessage::graphics_event(GraphicsEvent::refresh("page_change")));
            },
            UIAction::Button(ButtonAction::LoadProject(name)) => {
                ctx.storage.push(StorageRequest::LoadProject(name));
                ctx.navigator.push(NavigatorMessage::navigate("sequencer_project"));
            },
            UIAction::Button(b) => {
                if let ButtonAction::Navigate(_) = b {
                    navigate_action(&b, ctx);
                }
            },
            _ => {},
        }
    }
}

impl Screen for SequencerScreen {
    open spec fn spec_data(&self) -> ScreenData {
        self.data
    }

    fn get_data(&self) -> (r: &ScreenData) {
        &self.data
    }
}

} // verus!
