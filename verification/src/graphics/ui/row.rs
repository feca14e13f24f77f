//! A row of several elements shown side by side on one 16-character line;
//! clicked, it takes the focus and passes further clicks to the element
//! under its cursor.
use vstd::prelude::*;
use crate::graphics::event::GraphicsEvent;
use crate::graphics::ui::element::{UIAction, UIElement, UIElementState, UIRowItem, push_prefix, state_prefix};
use crate::text::{fit, fit_width, push_char, push_str};

verus! {

/// Width of a display line, in characters.
pub const LINE_WIDTH: usize = 16;

pub struct UIRow {
    pub label: String,
    pub elements: Vec<UIRowItem>,
    /// Index of the element under the cursor.
    pub offset: usize,
    pub focus: bool,
}

/// How the element under the cursor is drawn.
pub open spec fn child_state(state: UIElementState, focus: bool) -> UIElementState {
    match state {
        UIElementState::SelectorPress => UIElementState::SelectorPress,
        _ => if focus {
            UIElementState::Selected
        } else {
            UIElementState::Unselected
        },
    }
}

impl UIRow {
    /// An empty row without a label.
    pub fn new() -> (r: Self)
        ensures
            r.label@ == Seq::<char>::empty(),
            r.elements@.len() == 0,
            r.offset == 0,
            !r.focus,
    {
        UIRow { label: String::new(), elements: Vec::new(), offset: 0, focus: false }
    }

    /// An empty row labelled "`label`: ".
    pub fn with_label(label: &str) -> (r: Self)
        ensures
            r.label@ == label@ + ": "@,
            r.elements@.len() == 0,
            r.offset == 0,
            !r.focus,
    {
        let mut l = String::from_str(label);
        push_str(&mut l, ": ");
        UIRow { label: l, elements: Vec::new(), offset: 0, focus: false }
    }

    pub fn add_element(&mut self, item: UIRowItem)
        ensures
            final(self).elements@ == old(self).elements@.push(item),
            final(self).label == old(self).label,
            final(self).offset == old(self).offset,
            final(self).focus == old(self).focus,
    {
        self.elements.push(item);
    }

    /// The line before it is fitted to the display width.
    pub open spec fn spec_line(&self, state: UIElementState) -> Seq<char> {
        let n = self.elements@.len();
        state_prefix(state) + self.label@ + (if self.offset < n {
            self.elements@[self.offset as int].spec_render(child_state(state, self.focus)) + seq![' ']
        } else {
            Seq::empty()
        }) + (if self.offset + 1 < n {
            self.elements@[self.offset + 1].spec_render(UIElementState::Unselected)
        } else {
            Seq::empty()
        })
    }
}

impl UIElement for UIRow {
    open spec fn spec_render(&self, state: UIElementState) -> Seq<char> {
        fit_width(self.spec_line(state), LINE_WIDTH as nat)
    }

    open spec fn accepts(&self, event: GraphicsEvent) -> bool {
        &&& (event is Click && self.focus) ==> self.offset < self.elements@.len()
            && self.elements@[self.offset as int].accepts(GraphicsEvent::Click)
        &&& event is ScrollRight ==> self.elements@.len() >= 1
    }

    /// Click: an unfocused row takes the focus; a focused row passes the
    /// click to the element under the cursor and answers what it answers.
    /// Back: drops the focus. Turning moves the cursor within the row.
    open spec fn spec_on_event(
        &self,
        event: GraphicsEvent,
        after: Self,
        flag: bool,
        action: Option<UIAction>,
    ) -> bool {
        &&& after.label == self.label
        &&& match event {
            GraphicsEvent::Click => if !self.focus {
                after.focus && after.offset == self.offset && after.elements@ == self.elements@
                    && flag && action is None
            } else {
                &&& after.focus
                &&& after.offset == self.offset
                &&& after.elements@.len() == self.elements@.len()
                &&& forall|i: int|
                    0 <= i < self.elements@.len() && i != self.offset ==> #[trigger] after.elements@[i]
                        == self.elements@[i]
                &&& self.elements@[self.offset as int].spec_on_event(
                    GraphicsEvent::Click,
                    after.elements@[self.offset as int],
                    flag,
                    action,
                )
            },
            GraphicsEvent::Back => after.elements@ == self.elements@ && after.offset == self.offset
                && !after.focus && flag == self.focus && action is None,
            GraphicsEvent::ScrollRight => after.elements@ == self.elements@ && after.focus
                == self.focus && after.offset == (if self.offset + 1 < self.elements@.len() - 1 {
                self.offset + 1
            } else {
                self.elements@.len() - 1
            }) && !flag && action is None,
            GraphicsEvent::ScrollLeft => after.elements@ == self.elements@ && after.focus
                == self.focus && after.offset == (if self.offset > 0 {
                self.offset - 1
            } else {
                0
            }) && !flag && action is None,
            _ => after.elements@ == self.elements@ && after.offset == self.offset && after.focus
                == self.focus && !flag && action is None,
        }
    }

    fn render(&self, state: UIElementState) -> (r: String) {
        let mut text = String::new();
        push_prefix(&mut text, state);
        push_str(&mut text, self.label.as_str());
        let n = self.elements.len();
        let cs = match state {
            UIElementState::SelectorPress => UIElementState::SelectorPress,
            _ => if self.focus {
                UIElementState::Selected
            } else {
                UIElementState::Unselected
            },
        };
        if self.offset < n {
            let t = self.elements[self.offset].render(cs);
            push_str(&mut text, t.as_str());
            push_char(&mut text, ' ');
        }
        if self.offset < n && self.offset + 1 < n {
            let t = self.elements[self.offset + 1].render(UIElementState::Unselected);
            push_str(&mut text, t.as_str());
        }
        assert(text@ =~= self.spec_line(state));
        fit(text.as_str(), LINE_WIDTH)
    }

    fn can_take(&self, event: &GraphicsEvent) -> (r: bool) {
        match event {
            GraphicsEvent::Click => if self.focus {
                self.offset < self.elements.len() && self.elements[self.offset].can_take(
                    &GraphicsEvent::Click,
                )
            } else {
                true
            },
            GraphicsEvent::ScrollRight => self.elements.len() >= 1,
            _ => true,
        }
    }

    fn on_event(&mut self, event: GraphicsEvent) -> (r: (bool, Option<UIAction>)) {
        match event {
            GraphicsEvent::Click => {
                if !self.focus {
                    self.focus = true;
                    (true, None)
                } else {
                    let ghost old_elements = self.elements@;
                    let mut item = self.elements.remove(self.offset);
                    let r = item.on_event(GraphicsEvent::Click);
                    self.elements.insert(self.offset, item);
                    assert forall|i: int|
                        0 <= i < old_elements.len() && i != self.offset implies #[trigger] self.elements@[i]
                        == old_elements[i] by {
                        if i < self.offset {
                        } else {
                        }
                    }
                    r
                }
            },
            GraphicsEvent::Back => {
                if self.focus {
                    self.focus = false;
                    (true, None)
                } else {
                    (false, None)
                }
            },
            GraphicsEvent::ScrollRight => {
                let last = self.elements.len() - 1;
                self.offset = if self.offset < last {
                    self.offset + 1
                } else {
                    last
                };
                (false, None)
            },
            GraphicsEvent::ScrollLeft => {
                if self.offset > 0 {
                    self.offset = self.offset - 1;
                }
                (false, None)
            },
            _ => (false, None),
        }
    }
}

} // verus!
