//! A labelled on/off switch.
use vstd::prelude::*;
use crate::graphics::event::GraphicsEvent;
use crate::graphics::ui::element::{
    ToggleTarget,
    UIAction,
    UIElement,
    UIElementState,
    push_prefix,
    state_prefix,
};
use crate::text::push_str;

verus! {

pub struct UICheckBox {
    pub label: String,
    pub on_change: ToggleTarget,
    pub checked: bool,
}

impl UICheckBox {
    pub fn new(label: String, on_change: ToggleTarget, default_value: bool) -> (r: Self)
        ensures
            r.label == label,
            r.on_change == on_change,
            r.checked == default_value,
    {
        UICheckBox { label, on_change, checked: default_value }
    }
}

impl UIElement for UICheckBox {
    open spec fn spec_render(&self, state: UIElementState) -> Seq<char> {
        state_prefix(state) + self.label@ + ": "@ + if self.checked {
            "ON"@
        } else {
            "OFF"@
        }
    }

    open spec fn accepts(&self, event: GraphicsEvent) -> bool {
        true
    }

    /// A click flips the switch and reports the new state.
    open spec fn spec_on_event(
        &self,
        event: GraphicsEvent,
        after: Self,
        flag: bool,
        action: Option<UIAction>,
    ) -> bool {
        &&& !flag
        &&& after.label == self.label
        &&& after.on_change == self.on_change
        &&& if event is Click {
            after.checked == !self.checked && action == Some(
                UIAction::Toggle(self.on_change, !self.checked),
            )
        } else {
            after.checked == self.checked && action is None
        }
    }

    fn render(&self, state: UIElementState) -> (r: String) {
        let mut s = String::new();
        push_prefix(&mut s, state);
        push_str(&mut s, self.label.as_str());
        push_str(&mut s, ": ");
        if self.checked {
            push_str(&mut s, "ON");
        } else {
            push_str(&mut s, "OFF");
        }
        assert(s@ =~= self.spec_render(state));
        s
    }

    fn can_take(&self, event: &GraphicsEvent) -> (r: bool) {
        true
    }

    fn on_event(&mut self, event: GraphicsEvent) -> (r: (bool, Option<UIAction>)) {
        match event {
            GraphicsEvent::Click => {
                self.checked = !self.checked;
                (false, Some(UIAction::Toggle(self.on_change, self.checked)))
            },
            _ => (false, None),
        }
    }
}

} // verus!
