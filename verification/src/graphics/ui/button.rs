//! A labelled button.
use vstd::prelude::*;
use crate::graphics::event::GraphicsEvent;
use crate::graphics::ui::element::{
    ButtonAction,
    UIAction,
    UIElement,
    UIElementState,
    push_prefix,
    state_prefix,
};
use crate::text::push_str;

verus! {

pub struct UIButton {
    pub text: String,
    pub on_click: ButtonAction,
}

impl UIButton {
    pub fn new(text: String, on_click: ButtonAction) -> (r: Self)
        ensures
            r.text == text,
            r.on_click == on_click,
    {
        UIButton { text, on_click }
    }
}

impl UIElement for UIButton {
    open spec fn spec_render(&self, state: UIElementState) -> Seq<char> {
        state_prefix(state) + self.text@
    }

    open spec fn accepts(&self, event: GraphicsEvent) -> bool {
        true
    }

    /// A click hands back the button's action; the button never holds the
    /// focus.
    open spec fn spec_on_event(
        &self,
        event: GraphicsEvent,
        after: Self,
        flag: bool,
        action: Option<UIAction>,
    ) -> bool {
        &&& after == *self
        &&& !flag
        &&& action == if event is Click {
            Some(UIAction::Button(self.on_click))
        } else {
            None
        }
    }

    fn render(&self, state: UIElementState) -> (r: String) {
        let mut s = String::new();
        push_prefix(&mut s, state);
        push_str(&mut s, self.text.as_str());
        assert(s@ =~= self.spec_render(state));
        s
    }

    fn can_take(&self, event: &GraphicsEvent) -> (r: bool) {
        true
    }

    fn on_event(&mut self, event: GraphicsEvent) -> (r: (bool, Option<UIAction>)) {
        match event {
            GraphicsEvent::Click => (false, Some(UIAction::Button(self.on_click.duplicate()))),
            _ => (false, None),
        }
    }
}

} // verus!
