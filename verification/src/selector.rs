//! The rotary selector: a quadrature encoder with a push button, debounced
//! in its interrupt handlers.
use vstd::prelude::*;

verus! {

#[derive(Debug, Copy, Clone, PartialEq, Eq, Structural)]
pub enum RotationEvent {
    Left,
    Right,
}

#[derive(Debug, Copy, Clone, PartialEq, Eq, Structural)]
pub enum SelectorEvent {
    Rotation(RotationEvent),
    /// The button went down (`true`) or up (`false`).
    Click(bool),
}

/// Interrupts closer than this to the last accepted one (timer ticks) are
/// bounces.
pub const DEBOUNCE_TICKS: u32 = 50_000;

/// Time difference on the wrapping hardware timer.
pub open spec fn elapsed(now: u32, last: u32) -> u32 {
    ((now as int - last as int) % 0x1_0000_0000int) as u32
}

/// Time of the last accepted interrupt of one input.
pub struct Debouncer {
    last_isr: u32,
}

impl Debouncer {
    pub closed spec fn spec_last(&self) -> u32 {
        self.last_isr
    }

    pub fn new() -> (r: Self)
        ensures
            r.spec_last() == 0,
    {
        Debouncer { last_isr: 0 }
    }

    /// Whether an interrupt at `now` is accepted; accepting it moves the
    /// reference time to `now`.
    pub fn accept(&mut self, now: u32) -> (r: bool)
        ensures
            r == (elapsed(now, old(self).spec_last()) > DEBOUNCE_TICKS),
            final(self).spec_last() == if r {
                now
            } else {
                old(self).spec_last()
            },
    {
        let d = now.wrapping_sub(self.last_isr);
        if d > DEBOUNCE_TICKS {
            self.last_isr = now;
            true
        } else {
            false
        }
    }

    /// Encoder clock edge at `now` with the levels of the clock and data
    /// lines: equal levels mean a turn to the left.
    pub fn rotation(&mut self, now: u32, clk_lvl: i32, data_lvl: i32) -> (r: Option<SelectorEvent>)
        ensures
            elapsed(now, old(self).spec_last()) > DEBOUNCE_TICKS ==> r == Some(
                SelectorEvent::Rotation(
                    if clk_lvl == data_lvl {
                        RotationEvent::Left
                    } else {
                        RotationEvent::Right
                    },
                ),
            ) && final(self).spec_last() == now,
            elapsed(now, old(self).spec_last()) <= DEBOUNCE_TICKS ==> r is None
                && final(self).spec_last() == old(self).spec_last(),
    {
        if self.accept(now) {
            let event = if clk_lvl == data_lvl {
                RotationEvent::Left
            } else {
                RotationEvent::Right
            };
            Some(SelectorEvent::Rotation(event))
        } else {
            None
        }
    }

    /// Button edge at `now` with the button line level: low means pressed.
    pub fn click(&mut self, now: u32, btn_lvl: i32) -> (r: Option<SelectorEvent>)
        ensures
            elapsed(now, old(self).spec_last()) > DEBOUNCE_TICKS ==> r == Some(
                SelectorEvent::Click(btn_lvl == 0),
            ) && final(self).spec_last() == now,
            elapsed(now, old(self).spec_last()) <= DEBOUNCE_TICKS ==> r is None
                && final(self).spec_last() == old(self).spec_last(),
    {
        if self.accept(now) {
            Some(SelectorEvent::Click(btn_lvl == 0))
        } else {
            None
        }
    }
}

} // verus!
