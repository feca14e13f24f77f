//! A page switch: "Page (p/n)", focused by a click, turned to change page.
use vstd::prelude::*;
use crate::graphics::event::GraphicsEvent;
use crate::graphics::ui::element::{UIAction, UIElement, UIElementState, state_prefix};
use crate::text::{push_char, push_decimal, push_str, spec_decimal};

verus! {

pub struct UIPageSelector {
    pub focus: bool,
    /// The page shown, counted from 0.
    pub page: u32,
    /// The number of pages.
    pub pages: u32,
}

/// The page a turn leads to: one further in its direction, held between the
/// first and the last page.
pub open spec fn scrolled_page(page: u32, pages: u32, right: bool) -> u32 {
    let p = if right {
        page + 1
    } else {
        page - 1
    };
    if p < 0 {
        0
    } else if p > pages - 1 {
        (pages - 1) as u32
    } else {
        p as u32
    }
}

impl UIPageSelector {
    pub fn new(page: u32, pages: u32) -> (r: Self)
        ensures
            !r.focus,
            r.page == page,
            r.pages == pages,
    {
        UIPageSelector { focus: false, page, pages }
    }
}

impl UIElement for UIPageSelector {
    open spec fn spec_render(&self, state: UIElementState) -> Seq<char> {
        (if self.focus {
            seq!['-']
        } else {
            state_prefix(state)
        }) + "Page ("@ + spec_decimal(self.page as nat + 1) + seq!['/'] + spec_decimal(
            self.pages as nat,
        ) + seq![')']
    }

    open spec fn accepts(&self, event: GraphicsEvent) -> bool {
        (event is ScrollRight || event is ScrollLeft) ==> 1 <= self.pages
    }

    /// Click toggles the focus; back drops it; a turn moves the page and
    /// reports it.
    open spec fn spec_on_event(
        &self,
        event: GraphicsEvent,
        after: Self,
        flag: bool,
        action: Option<UIAction>,
    ) -> bool {
        &&& after.pages == self.pages
        &&& match event {
            GraphicsEvent::Click => after.focus == !self.focus && after.page == self.page && flag
                == after.focus && action is None,
            GraphicsEvent::Back => !after.focus && after.page == self.page && flag && action is None,
            GraphicsEvent::ScrollRight => {
                let p = scrolled_page(self.page, self.pages, true);
                after.focus == self.focus && after.page == p && flag && action == Some(
                    UIAction::Page(p),
                )
            },
            GraphicsEvent::ScrollLeft => {
                let p = scrolled_page(self.page, self.pages, false);
                after.focus == self.focus && after.page == p && flag && action == Some(
                    UIAction::Page(p),
                )
            },
            _ => after == *self && !flag && action is None,
        }
    }

    fn render(&self, state: UIElementState) -> (r: String) {
        let mut s = String::new();
        if self.focus {
            push_char(&mut s, '-');
        } else {
            match state {
                UIElementState::Selected => push_char(&mut s, '>'),
                UIElementState::SelectorPress => push_char(&mut s, '\\'),
                UIElementState::Unselected => {},
            }
        }
        push_str(&mut s, "Page (");
        push_decimal(&mut s, self.page as u128 + 1);
        push_char(&mut s, '/');
        push_decimal(&mut s, self.pages as u128);
        push_char(&mut s, ')');
        assert(s@ =~= self.spec_render(state));
        s
    }

    fn can_take(&self, event: &GraphicsEvent) -> (r: bool) {
        match event {
            GraphicsEvent::ScrollRight | GraphicsEvent::ScrollLeft => 1 <= self.pages,
            _ => true,
        }
    }

    fn on_event(&mut self, event: GraphicsEvent) -> (r: (bool, Option<UIAction>)) {
        match event {
            GraphicsEvent::Click => {
                self.focus = !self.focus;
                (self.focus, None)
            },
            GraphicsEvent::Back => {
                self.focus = false;
                (true, None)
            },
            GraphicsEvent::ScrollRight => {
                self.page = if self.page >= self.pages - 1 {
                    self.pages - 1
                } else {
                    self.page + 1
                };
                (true, Some(UIAction::Page(self.page)))
            },
            GraphicsEvent::ScrollLeft => {
                self.page = if self.page == 0 {
                    0
                } else if self.page - 1 > self.pages - 1 {
                    self.pages - 1
                } else {
                    self.page - 1
                };
                (true, Some(UIAction::Page(self.page)))
            },
            _ => (false, None),
        }
    }
}

/// A turn moves one page: right to `min(page + 1, pages - 1)`, left to
/// `max(page - 1, 0)`, held on the last page; the turn reports the page it
/// reached. From a page that exists the page changes by at most one.
pub proof fn lemma_page_turn(
    sel: UIPageSelector,
    after: UIPageSelector,
    flag: bool,
    action: Option<UIAction>,
    right: bool,
)
    requires
        1 <= sel.pages,
        sel.spec_on_event(
            if right {
                GraphicsEvent::ScrollRight
            } else {
                GraphicsEvent::ScrollLeft
            },
            after,
            flag,
            action,
        ),
    ensures
        after.pages == sel.pages,
        after.focus == sel.focus,
        right ==> after.page as int == if sel.page as int + 1 <= sel.pages as int - 1 {
            sel.page as int + 1
        } else {
            sel.pages as int - 1
        },
        !right ==> after.page as int == if sel.page == 0 {
            0
        } else if sel.page as int - 1 <= sel.pages as int - 1 {
            sel.page as int - 1
        } else {
            sel.pages as int - 1
        },
        action == Some(UIAction::Page(after.page)),
        after.page < after.pages,
        sel.page < sel.pages ==> after.page as int - sel.page as int <= 1 && sel.page as int
            - after.page as int <= 1,
{
}

} // verus!
