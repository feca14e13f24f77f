//! What every screen has: a list of elements, a cursor row and a focus
//! flag, and the default way events move them.
use vstd::prelude::*;
use crate::graphics::event::GraphicsEvent;
use crate::graphics::ui::element::{UIAction, UIElement, UIElementState, UIItem};
use crate::graphics::ui::text::UIText;

verus! {

/// Rows shown at once on the display.
pub const VISIBLE_ROWS: usize = 2;

pub struct ScreenData {
    pub elements: Vec<UIItem>,
    /// The element under the cursor; it is drawn on the first line.
    pub row_offset: usize,
    /// Whether the element under the cursor holds the focus.
    pub focus: bool,
}

/// What Back does to a screen's rows: without focus nothing changes and the
/// event is not used; with focus the element under the cursor takes it and
/// the focus is released.
pub open spec fn backed(o: ScreenData, n: ScreenData, r: (bool, Option<UIAction>)) -> bool {
    &&& n.row_offset == o.row_offset
    &&& !n.focus
    &&& !o.focus ==> n.elements@ == o.elements@ && !r.0 && r.1 is None
    &&& o.focus ==> {
        &&& n.elements@.len() == o.elements@.len()
        &&& forall|i: int|
            0 <= i < o.elements@.len() && i != o.row_offset ==> #[trigger] n.elements@[i]
                == o.elements@[i]
        &&& o.elements@[o.row_offset as int].spec_on_event(
            GraphicsEvent::Back,
            n.elements@[o.row_offset as int],
            r.0,
            r.1,
        )
    }
}

/// The event a turn of the selector makes.
pub open spec fn scroll_event(direction: bool) -> GraphicsEvent {
    if direction {
        GraphicsEvent::ScrollRight
    } else {
        GraphicsEvent::ScrollLeft
    }
}

/// How the `k`-th visible row is drawn.
pub open spec fn row_state(k: int, selector_press: bool) -> UIElementState {
    if k == 0 {
        if selector_press {
            UIElementState::SelectorPress
        } else {
            UIElementState::Selected
        }
    } else {
        UIElementState::Unselected
    }
}

impl ScreenData {
    /// The lines shown: the element under the cursor and the one after it.
    pub open spec fn spec_rows(&self, selector_press: bool) -> Seq<Seq<char>> {
        let i = self.row_offset as int;
        let len = self.elements@.len() as int;
        let end = if i + 2 < len {
            i + 2
        } else {
            len
        };
        if i < len {
            Seq::new(
                (end - i) as nat,
                |k: int| self.elements@[i + k].spec_render(row_state(k, selector_press)),
            )
        } else {
            Seq::empty()
        }
    }

    /// The element under the cursor can take `event`.
    pub open spec fn selected_accepts(&self, event: GraphicsEvent) -> bool {
        self.row_offset < self.elements@.len() && self.elements@[self.row_offset as int].accepts(
            event,
        )
    }

    pub fn new() -> (r: ScreenData)
        ensures
            r.elements@.len() == 0,
            r.row_offset == 0,
            !r.focus,
    {
        ScreenData { elements: Vec::new(), row_offset: 0, focus: false }
    }

    pub fn add_element(&mut self, item: UIItem)
        ensures
            final(self).elements@ == old(self).elements@.push(item),
            final(self).row_offset == old(self).row_offset,
            final(self).focus == old(self).focus,
    {
        self.elements.push(item);
    }

    pub fn add_text(&mut self, text: String)
        ensures
            final(self).elements@ == old(self).elements@.push(UIItem::Text(UIText { text })),
            final(self).row_offset == old(self).row_offset,
            final(self).focus == old(self).focus,
    {
        self.elements.push(UIItem::Text(UIText::new(text)));
    }

    pub fn clear(&mut self)
        ensures
            final(self).elements@.len() == 0,
            final(self).row_offset == old(self).row_offset,
            final(self).focus == old(self).focus,
    {
        self.elements.clear();
    }

    /// Whether the element under the cursor can take `event`.
    pub fn selected_can_take(&self, event: &GraphicsEvent) -> (r: bool)
        ensures
            r == self.selected_accepts(*event),
    {
        self.row_offset < self.elements.len() && self.elements[self.row_offset].can_take(event)
    }

    /// Passes `event` to the element under the cursor.
    fn send_to_selected(&mut self, event: GraphicsEvent) -> (r: (bool, Option<UIAction>))
        requires
            old(self).selected_accepts(event),
        ensures
            final(self).row_offset == old(self).row_offset,
            final(self).focus == old(self).focus,
            final(self).elements@.len() == old(self).elements@.len(),
            forall|i: int|
                0 <= i < old(self).elements@.len() && i != old(self).row_offset ==> #[trigger] final(self).elements@[i] == old(self).elements@[i],
            old(self).elements@[old(self).row_offset as int].spec_on_event(
                event,
                final(self).elements@[old(self).row_offset as int],
                r.0,
                r.1,
            ),
    {
        let i = self.row_offset;
        let ghost old_elements = self.elements@;
        let mut item = self.elements.remove(i);
        let r = item.on_event(event);
        self.elements.insert(i, item);
        assert forall|k: int| 0 <= k < old_elements.len() && k != i implies #[trigger] self.elements@[k]
            == old_elements[k] by {
            if k < i {
            } else {
            }
        }
        r
    }

    /// A screen starts with the cursor on its first element.
    pub fn on_start(&mut self)
        ensures
            final(self).elements@ == old(self).elements@,
            final(self).row_offset == 0,
            final(self).focus == old(self).focus,
    {
        self.row_offset = 0;
    }

    /// A click goes to the element under the cursor, which says whether it
    /// now holds the focus.
    pub fn on_click(&mut self) -> (r: Option<UIAction>)
        requires
            old(self).selected_accepts(GraphicsEvent::Click),
        ensures
            final(self).row_offset == old(self).row_offset,
            final(self).elements@.len() == old(self).elements@.len(),
            forall|i: int|
                0 <= i < old(self).elements@.len() && i != old(self).row_offset ==> #[trigger] final(self).elements@[i] == old(self).elements@[i],
            old(self).elements@[old(self).row_offset as int].spec_on_event(
                GraphicsEvent::Click,
                final(self).elements@[old(self).row_offset as int],
                final(self).focus,
                r,
            ),
    {
        let (focus, action) = self.send_to_selected(GraphicsEvent::Click);
        self.focus = focus;
        action
    }

    /// Back releases a focused element, which says whether it used the
    /// event; without focus the screen does not use it.
    pub fn on_back(&mut self) -> (r: (bool, Option<UIAction>))
        requires
            old(self).focus ==> old(self).selected_accepts(GraphicsEvent::Back),
        ensures
            backed(*old(self), *final(self), r),
    {
        if self.focus {
            self.focus = false;
            let r = self.send_to_selected(GraphicsEvent::Back);
            r
        } else {
            (false, None)
        }
    }

    /// Turning the selector: a focused element takes the turn; otherwise
    /// the cursor moves, staying on the elements.
    pub fn on_scroll(&mut self, direction: bool) -> (r: Option<UIAction>)
        requires
            old(self).focus ==> old(self).selected_accepts(
                scroll_event(direction),
            ),
            !old(self).focus && direction ==> old(self).elements@.len() >= 1,
        ensures
            final(self).focus == old(self).focus,
            old(self).focus ==> {
                &&& final(self).row_offset == old(self).row_offset
                &&& final(self).elements@.len() == old(self).elements@.len()
                &&& forall|i: int|
                    0 <= i < old(self).elements@.len() && i != old(self).row_offset ==> #[trigger] final(self).elements@[i] == old(self).elements@[i]
                &&& exists|flag: bool|
                    #[trigger] old(self).elements@[old(self).row_offset as int].spec_on_event(
                        scroll_event(direction),
                        final(self).elements@[old(self).row_offset as int],
                        flag,
                        r,
                    )
            },
            !old(self).focus ==> {
                &&& final(self).elements@ == old(self).elements@
                &&& r is None
                &&& final(self).row_offset == if direction {
                    if old(self).row_offset + 1 < old(self).elements@.len() - 1 {
                        (old(self).row_offset + 1) as usize
                    } else {
                        (old(self).elements@.len() - 1) as usize
                    }
                } else if old(self).row_offset == 0 {
                    0
                } else {
                    (old(self).row_offset - 1) as usize
                }
            },
    {
        if self.focus {
            let event = if direction {
                GraphicsEvent::ScrollRight
            } else {
                GraphicsEvent::ScrollLeft
            };
            let (_, action) = self.send_to_selected(event);
            action
        } else {
            if direction {
                let last = self.elements.len() - 1;
                self.row_offset = if self.row_offset < usize::MAX && self.row_offset + 1 < last {
                    self.row_offset + 1
                } else {
                    last
                };
            } else {
                if self.row_offset == 0 {
                    return None;
                }
                self.row_offset = self.row_offset - 1;
            }
            None
        }
    }

    /// The lines to draw: the element under the cursor, marked, and the one
    /// after it.
    pub fn render(&self, selector_press: bool) -> (r: Vec<String>)
        ensures
            r@.len() == self.spec_rows(selector_press).len(),
            forall|k: int| 0 <= k < r@.len() ==> #[trigger] r@[k]@ == self.spec_rows(selector_press)[k],
    {
        let i = self.row_offset;
        let len = self.elements.len();
        let mut rows: Vec<String> = Vec::new();
        if i < len {
            let end = if len - i > 2 {
                i + 2
            } else {
                len
            };
            let mut k: usize = i;
            while k < end
                invariant
                    i < len,
                    i <= k <= end,
                    end <= len,
                    len == self.elements@.len(),
                    i == self.row_offset,
                    end == (if i + 2 < len { i + 2 } else { len as int }),
                    rows@.len() == k - i,
                    forall|m: int| 0 <= m < rows@.len() ==> #[trigger] rows@[m]@ == self.spec_rows(
                        selector_press,
                    )[m],
                decreases end - k,
            {
                let state = if k == i {
                    if selector_press {
                        UIElementState::SelectorPress
                    } else {
                        UIElementState::Selected
                    }
                } else {
                    UIElementState::Unselected
                };
                rows.push(self.elements[k].render(state));
                k = k + 1;
            }
        }
        rows
    }
}

/// What the display shows of a screen.
pub trait Screen {
    spec fn spec_data(&self) -> ScreenData;

    fn get_data(&self) -> (r: &ScreenData)
        ensures
            *r == self.spec_data(),
    ;
}

} // verus!
