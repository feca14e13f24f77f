//! A line of fixed text.
use vstd::prelude::*;
use crate::graphics::event::GraphicsEvent;
use crate::graphics::ui::element::{UIAction, UIElement, UIElementState, push_prefix, state_prefix};
use crate::text::push_str;

verus! {

pub struct UIText {
    pub text: String,
}

impl UIText {
    pub fn new(value: String) -> (r: UIText)
        ensures
            r.text == value,
    {
        UIText { text: value }
    }
}

impl UIElement for UIText {
    open spec fn spec_render(&self, state: UIElementState) -> Seq<char> {
        state_prefix(state) + self.text@
    }

    open spec fn accepts(&self, event: GraphicsEvent) -> bool {
        true
    }

    /// Text ignores every event.
    open spec fn spec_on_event(
        &self,
        event: GraphicsEvent,
        after: Self,
        flag: bool,
        action: Option<UIAction>,
    ) -> bool {
        after == *self && !flag && action is None
    }

    fn render(&self, state: UIElementState) -> (r: String) {
        let mut s = String::new();
        push_prefix(&mut s, state);
        push_str(&mut s, self.text.as_str());
        assert(s@ =~= self.spec_render(state));
        s
    }

    fn can_take(&self, event: &GraphicsEvent) -> (r: bool) {
        true
    }

    fn on_event(&mut self, event: GraphicsEvent) -> (r: (bool, Option<UIAction>)) {
        (false, None)
    }
}

} // verus!
