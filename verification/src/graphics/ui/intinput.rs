//! A number input: selected, it is focused by a click, changed by turning
//! the selector and confirmed by a second click or cancelled by back.
use vstd::prelude::*;
use crate::graphics::event::GraphicsEvent;
use crate::graphics::ui::element::{UIAction, UIElement, UIElementState, ValueTarget, state_prefix};
use crate::text::{push_char, push_int, push_str, spec_int};
use crate::utils::{int_to_note, note_name};
use crate::sequencer::SequencerResolution;

verus! {

/// How the value is shown.
#[derive(Debug, Copy, Clone, PartialEq, Eq, Structural)]
pub enum ValueFormat {
    /// In decimal.
    Plain,
    /// As a MIDI note name.
    Note,
    /// In decimal, counted from 1.
    PlusOne,
    /// As the name of a sequencer resolution.
    Resolution,
}

/// Which value a turn of the selector leads to.
#[derive(Debug, Copy, Clone, PartialEq, Eq, Structural)]
pub enum ValueRule {
    /// Any value.
    Identity,
    /// The value is held between the two bounds.
    Clamp(i32, i32),
    /// The value is a divisor of the given loop count, at least 1: a turn
    /// moves on in its direction to the next divisor.
    LoopDivisor(u8),
}

/// The shown form of `value`.
pub open spec fn format_spec(f: ValueFormat, value: i32) -> Seq<char> {
    match f {
        ValueFormat::Plain => spec_int(value as int),
        ValueFormat::Note => note_name(value as int),
        ValueFormat::PlusOne => spec_int(value + 1),
        ValueFormat::Resolution => if value == 0 {
            "Quarter"@
        } else if value == 1 {
            "HalfBeat"@
        } else if value == 2 {
            "Beat"@
        } else if value == 3 {
            "Loop"@
        } else {
            "-"@
        },
    }
}

/// The divisor of `loops` reached from `v` by steps of `d` (1 or -1).
pub open spec fn seek_divisor(loops: int, v: int, d: int) -> int
    decreases (if d > 0 {
        loops - v
    } else {
        v
    }),
    when 1 <= v <= loops && (d == 1 || d == -1)
{
    if loops % v == 0 {
        v
    } else {
        proof {
            vstd::arithmetic::div_mod::lemma_mod_self_0(loops);
            assert(loops % 1 == 0);
        }
        seek_divisor(loops, v + d, d)
    }
}

/// The value a rule gives when the selector moves from `old` to `value`.
pub open spec fn rule_spec(rule: ValueRule, value: i32, old: i32) -> i32 {
    match rule {
        ValueRule::Identity => value,
        ValueRule::Clamp(lo, hi) => if value < lo {
            lo
        } else if value > hi {
            hi
        } else {
            value
        },
        ValueRule::LoopDivisor(loops) => if value <= 0 {
            1
        } else if value > loops {
            loops as i32
        } else {
            seek_divisor(loops as int, value as int, value - old) as i32
        },
    }
}

/// Appends the shown form of `value`.
pub fn push_formatted(s: &mut String, f: ValueFormat, value: i32)
    ensures
        final(s)@ == old(s)@ + format_spec(f, value),
{
    match f {
        ValueFormat::Plain => push_int(s, value as i64),
        ValueFormat::Note => {
            let n = int_to_note(value);
            push_str(s, n.as_str());
        },
        ValueFormat::PlusOne => push_int(s, value as i64 + 1),
        ValueFormat::Resolution => {
            if value == 0 {
                push_str(s, "Quarter");
            } else if value == 1 {
                push_str(s, "HalfBeat");
            } else if value == 2 {
                push_str(s, "Beat");
            } else if value == 3 {
                push_str(s, "Loop");
            } else {
                push_str(s, "-");
            }
        },
    }
}

impl ValueRule {
    /// The value the rule gives when the selector moves from `old` to
    /// `value`.
    pub fn apply(&self, value: i32, old: i32) -> (r: i32)
        requires
            self is LoopDivisor ==> (value - old == 1 || value - old == -1),
        ensures
            r == rule_spec(*self, value, old),
    {
        match self {
            ValueRule::Identity => value,
            ValueRule::Clamp(lo, hi) => {
                if value < *lo {
                    *lo
                } else if value > *hi {
                    *hi
                } else {
                    value
                }
            },
            ValueRule::LoopDivisor(loops) => {
                let loops = *loops;
                if value <= 0 {
                    1
                } else if value > loops as i32 {
                    loops as i32
                } else {
                    let changer = value - old;
                    let mut v = value;
                    while (loops as i32 % v) != 0
                        invariant
                            1 <= v <= loops,
                            changer == 1 || changer == -1,
                            seek_divisor(loops as int, v as int, changer as int) == seek_divisor(
                                loops as int,
                                value as int,
                                changer as int,
                            ),
                        decreases (if changer > 0 {
                            loops - v
                        } else {
                            v as int
                        }),
                    {
                        assert(loops as i32 % loops as i32 == 0);
                        assert(loops as i32 % 1 == 0);
                        v = v + changer;
                    }
                    v
                }
            },
        }
    }
}

pub struct IntInputConfig {
    pub text: String,
    pub format_value: ValueFormat,
    pub on_change: ValueRule,
    /// The setting a confirmed value goes to, if any.
    pub on_done: Option<ValueTarget>,
}

impl IntInputConfig {
    pub fn new(text: &str, format_value: ValueFormat, on_change: ValueRule, on_done: Option<ValueTarget>) -> (r: Self)
        ensures
            r.text@ == text@,
            r.format_value == format_value,
            r.on_change == on_change,
            r.on_done == on_done,
    {
        IntInputConfig { text: String::from_str(text), format_value, on_change, on_done }
    }
}

impl Default for IntInputConfig {
    /// An input labelled "Input" showing its value in decimal, taking any
    /// value and handing it to no setting.
    fn default() -> (r: Self)
        ensures
            r.text@ == "Input"@,
            r.format_value == ValueFormat::Plain,
            r.on_change == ValueRule::Identity,
            r.on_done is None,
    {
        IntInputConfig::new("Input", ValueFormat::Plain, ValueRule::Identity, None)
    }
}

pub struct UIIntInput {
    pub focus: bool,
    pub config: IntInputConfig,
    /// The value before the current edit.
    pub old_value: i32,
    pub value: i32,
}

impl UIIntInput {
    pub fn new(config: IntInputConfig, default_value: i32) -> (r: Self)
        ensures
            r.config == config,
            !r.focus,
            r.old_value == default_value,
            r.value == default_value,
    {
        UIIntInput { focus: false, config, old_value: default_value, value: default_value }
    }
}

/// The marker of a number input: '-' while it is being edited.
pub open spec fn input_prefix(state: UIElementState, focus: bool) -> Seq<char> {
    match state {
        UIElementState::Selected => if focus {
            seq!['-']
        } else {
            seq!['>']
        },
        _ => state_prefix(state),
    }
}

impl UIElement for UIIntInput {
    open spec fn spec_render(&self, state: UIElementState) -> Seq<char> {
        input_prefix(state, self.focus) + self.config.text@ + ": "@ + format_spec(
            self.config.format_value,
            self.value,
        )
    }

    open spec fn accepts(&self, event: GraphicsEvent) -> bool {
        &&& event is ScrollRight ==> self.value < i32::MAX
        &&& event is ScrollLeft ==> self.value > i32::MIN
    }

    /// Click: focus toggles; leaving the focus with a changed value hands
    /// back the value for the input's setting; the value becomes the new
    /// reference. Back: the edit is cancelled. Turning: the rule gives the
    /// next value.
    open spec fn spec_on_event(
        &self,
        event: GraphicsEvent,
        after: Self,
        flag: bool,
        action: Option<UIAction>,
    ) -> bool {
        &&& after.config == self.config
        &&& match event {
            GraphicsEvent::Click => {
                &&& after.focus == !self.focus
                &&& after.value == self.value
                &&& after.old_value == self.value
                &&& flag == after.focus
                &&& action == if self.focus && self.value != self.old_value
                    && self.config.on_done is Some {
                    Some(UIAction::Value(self.config.on_done->0, self.value))
                } else {
                    None
                }
            },
            GraphicsEvent::Back => {
                &&& !after.focus
                &&& after.value == self.old_value
                &&& after.old_value == self.old_value
                &&& flag
                &&& action is None
            },
            GraphicsEvent::ScrollRight => {
                &&& after.focus == self.focus
                &&& after.old_value == self.old_value
                &&& after.value == rule_spec(self.config.on_change, (self.value + 1) as i32, self.value)
                &&& !flag
                &&& action is None
            },
            GraphicsEvent::ScrollLeft => {
                &&& after.focus == self.focus
                &&& after.old_value == self.old_value
                &&& after.value == rule_spec(self.config.on_change, (self.value - 1) as i32, self.value)
                &&& !flag
                &&& action is None
            },
            _ => after == *self && !flag && action is None,
        }
    }

    fn render(&self, state: UIElementState) -> (r: String) {
        let mut s = String::new();
        match state {
            UIElementState::Selected => {
                if self.focus {
                    push_char(&mut s, '-');
                } else {
                    push_char(&mut s, '>');
                }
            },
            UIElementState::SelectorPress => push_char(&mut s, '\\'),
            UIElementState::Unselected => {},
        }
        assert(s@ =~= input_prefix(state, self.focus));
        push_str(&mut s, self.config.text.as_str());
        push_str(&mut s, ": ");
        push_formatted(&mut s, self.config.format_value, self.value);
        assert(s@ =~= self.spec_render(state));
        s
    }

    fn can_take(&self, event: &GraphicsEvent) -> (r: bool) {
        match event {
            GraphicsEvent::ScrollRight => self.value < i32::MAX,
            GraphicsEvent::ScrollLeft => self.value > i32::MIN,
            _ => true,
        }
    }

    fn on_event(&mut self, event: GraphicsEvent) -> (r: (bool, Option<UIAction>)) {
        match event {
            GraphicsEvent::Click => {
                let was_focus = self.focus;
                self.focus = !self.focus;
                let mut action: Option<UIAction> = None;
                if !self.focus && self.value != self.old_value {
                    match self.config.on_done {
                        Some(target) => {
                            action = Some(UIAction::Value(target, self.value));
                        },
                        None => {},
                    }
                }
                self.old_value = self.value;
                (self.focus, action)
            },
            GraphicsEvent::Back => {
                self.focus = false;
                self.value = self.old_value;
                (true, None)
            },
            GraphicsEvent::ScrollRight => {
                self.value = self.config.on_change.apply(self.value + 1, self.value);
                (false, None)
            },
            GraphicsEvent::ScrollLeft => {
                self.value = self.config.on_change.apply(self.value - 1, self.value);
                (false, None)
            },
            _ => (false, None),
        }
    }
}

/// The divisor search ends on a divisor of the loop count, between 1 and
/// the loop count.
pub proof fn lemma_seek_divisor(loops: int, v: int, d: int)
    requires
        1 <= v <= loops,
        d == 1 || d == -1,
    ensures
        1 <= seek_divisor(loops, v, d) <= loops,
        loops % seek_divisor(loops, v, d) == 0,
    decreases (if d > 0 {
        loops - v
    } else {
        v
    }),
{
    if loops % v != 0 {
        vstd::arithmetic::div_mod::lemma_mod_self_0(loops);
        assert(loops % 1 == 0);
        lemma_seek_divisor(loops, v + d, d);
    }
}

/// A track's loop input only ever shows a divisor of the project's loop
/// count, between 1 and that count.
pub proof fn lemma_loop_divisor(loops: u8, value: i32, old: i32)
    requires
        loops >= 1,
        value - old == 1 || value - old == -1,
    ensures
        1 <= rule_spec(ValueRule::LoopDivisor(loops), value, old) <= loops,
        loops as int % rule_spec(ValueRule::LoopDivisor(loops), value, old) as int == 0,
{
    if value <= 0 {
    } else if value > loops {
        vstd::arithmetic::div_mod::lemma_mod_self_0(loops as int);
    } else {
        lemma_seek_divisor(loops as int, value as int, (value - old) as int);
    }
}

/// Turn `i` takes the input from state `i` to state `i + 1`.
pub open spec fn turn_step(
    turns: Seq<GraphicsEvent>,
    states: Seq<UIIntInput>,
    flags: Seq<bool>,
    actions: Seq<Option<UIAction>>,
    i: int,
) -> bool {
    &&& (turns[i] is ScrollLeft || turns[i] is ScrollRight)
    &&& states[i].spec_on_event(turns[i], states[i + 1], flags[i], actions[i])
}

/// The turns after opening keep the reference value and the settings of
/// the input.
proof fn lemma_turns_keep_reference(
    turns: Seq<GraphicsEvent>,
    states: Seq<UIIntInput>,
    flags: Seq<bool>,
    actions: Seq<Option<UIAction>>,
    k: int,
)
    requires
        states.len() == turns.len() + 1,
        flags.len() == turns.len(),
        actions.len() == turns.len(),
        0 <= k < states.len(),
        forall|i: int| 0 <= i < turns.len() ==> #[trigger] turn_step(turns, states, flags, actions, i),
    ensures
        states[k].old_value == states[0].old_value,
        states[k].config == states[0].config,
        states[k].focus == states[0].focus,
        forall|i: int| 0 <= i < k ==> #[trigger] actions[i] is None,
    decreases k,
{
    if k > 0 {
        lemma_turns_keep_reference(turns, states, flags, actions, k - 1);
        assert(turn_step(turns, states, flags, actions, k - 1));
    }
}

/// Opening a number input, turning the selector any number of times and
/// backing out leaves the input closed with the value it had, and hands
/// no value to any setting on the way.
pub proof fn lemma_int_input_cancel(
    start: UIIntInput,
    opened: UIIntInput,
    open_flag: bool,
    open_action: Option<UIAction>,
    turns: Seq<GraphicsEvent>,
    states: Seq<UIIntInput>,
    flags: Seq<bool>,
    actions: Seq<Option<UIAction>>,
    end: UIIntInput,
    end_flag: bool,
    end_action: Option<UIAction>,
)
    requires
        !start.focus,
        start.spec_on_event(GraphicsEvent::Click, opened, open_flag, open_action),
        states.len() == turns.len() + 1,
        flags.len() == turns.len(),
        actions.len() == turns.len(),
        states[0] == opened,
        forall|i: int| 0 <= i < turns.len() ==> #[trigger] turn_step(turns, states, flags, actions, i),
        states.last().spec_on_event(GraphicsEvent::Back, end, end_flag, end_action),
    ensures
        open_flag,
        open_action is None,
        forall|i: int| 0 <= i < turns.len() ==> #[trigger] actions[i] is None,
        !end.focus,
        end.value == start.value,
        end.config == start.config,
        end_action is None,
{
    lemma_turns_keep_reference(turns, states, flags, actions, states.len() - 1);
}

/// The resolution format names each resolution at its menu position
/// (Quarter, HalfBeat, Beat, Loop), and shows "-" exactly for values
/// outside the four positions; different positions show different names.
pub proof fn lemma_resolution_names(r: SequencerResolution, a: i32, b: i32)
    ensures
        format_spec(ValueFormat::Resolution, r.spec_index()) == match r {
            SequencerResolution::Quarter => "Quarter"@,
            SequencerResolution::HalfBeat => "HalfBeat"@,
            SequencerResolution::Beat => "Beat"@,
            SequencerResolution::Loop => "Loop"@,
        },
        format_spec(ValueFormat::Resolution, a) == "-"@ <==> !(0 <= a <= 3),
        0 <= a <= 3 && a != b ==> format_spec(ValueFormat::Resolution, a) != format_spec(
            ValueFormat::Resolution,
            b,
        ),
{
    reveal_strlit("Quarter");
    reveal_strlit("HalfBeat");
    reveal_strlit("Beat");
    reveal_strlit("Loop");
    reveal_strlit("-");
    assert("Beat"@[0] != "Loop"@[0]);
    assert("Quarter"@.len() != "-"@.len());
    assert("HalfBeat"@.len() != "-"@.len());
    assert("Beat"@.len() != "-"@.len());
    assert("Loop"@.len() != "-"@.len());
}

} // verus!
