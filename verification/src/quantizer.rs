//! The quantizer: a timer ticking at 96 pulses per quarter note, grouped
//! into sixteen steps of 24 ticks, that drives the MIDI clock and the
//! sequencer.
use vstd::prelude::*;

verus! {

/// Pulses per quarter note.
pub const PPQ: u8 = 96;

/// Ticks in one sixteenth-note step.
pub const TICKS_PER_STEP: u8 = 24;

/// Frequency of the hardware timer, in hertz.
pub const TIMER_RESOLUTION: u32 = 40_000_000;

/// Steps in one loop.
pub const STEPS: u8 = 16;

/// What the sequencer is told on a tick.
#[derive(Debug, Copy, Clone, PartialEq, Eq, Structural)]
pub enum SequencerMessage {
    /// Step `n` starts.
    NoteOn(u8),
    /// Step `n` ends (five ticks after it started).
    NoteOff(u8),
}

/// Tick and step counters, advanced by the timer interrupt.
pub struct Quantizer {
    pub ticks: u8,
    pub steps: u8,
}

/// Position within a loop, in ticks (0 to 383).
pub open spec fn loop_position(steps: u8, ticks: u8) -> int {
    steps as int * TICKS_PER_STEP as int + ticks as int
}

/// Timer alarm count that makes the timer tick at `bpm` quarter notes per
/// minute, 96 ticks per quarter note.
pub open spec fn alarm_count(bpm: u8) -> u64 {
    ((60 * TIMER_RESOLUTION as int) / (bpm as int * PPQ as int)) as u64
}

impl Quantizer {
    pub open spec fn wf(&self) -> bool {
        self.ticks < TICKS_PER_STEP && self.steps < STEPS
    }

    /// Counters set so that the first tick starts step 0.
    pub fn new() -> (r: Self)
        ensures
            r.wf(),
            r.ticks == TICKS_PER_STEP - 1,
            r.steps == STEPS - 1,
    {
        Quantizer { ticks: TICKS_PER_STEP - 1, steps: STEPS - 1 }
    }

    /// The timer alarm count for a tempo of `bpm`.
    pub fn start(&self, bpm: u8) -> (r: u64)
        requires
            bpm > 0,
        ensures
            r == alarm_count(bpm),
    {
        let time: u64 = 60u64 * TIMER_RESOLUTION as u64;
        assert(bpm as u64 * 96 <= 255 * 96) by (nonlinear_arith)
            requires
                bpm <= 255,
        ;
        let ticks: u64 = bpm as u64 * PPQ as u64;
        time / ticks
    }

    /// One timer interrupt: the tick counter advances, and after the last
    /// tick of a step the next step (modulo 16) begins at tick 0.
    pub fn tick(&mut self)
        requires
            old(self).wf(),
        ensures
            final(self).wf(),
            loop_position(final(self).steps, final(self).ticks) == (loop_position(
                old(self).steps,
                old(self).ticks,
            ) + 1) % (STEPS as int * TICKS_PER_STEP as int),
            old(self).ticks + 1 < TICKS_PER_STEP ==> final(self).ticks == old(self).ticks + 1
                && final(self).steps == old(self).steps,
            old(self).ticks + 1 >= TICKS_PER_STEP ==> final(self).ticks == 0 && final(self).steps
                == (old(self).steps + 1) % (STEPS as int),
    {
        let t = self.ticks;
        let s = self.steps;
        self.ticks = t + 1;
        if t + 1 >= TICKS_PER_STEP {
            self.ticks = 0;
            self.steps = (self.steps + 1) % STEPS;
            if s < 15 {
                assert(loop_position(self.steps, self.ticks) == loop_position(s, t) + 1);
                assert((loop_position(s, t) + 1) % 384 == loop_position(s, t) + 1);
            } else {
                assert(loop_position(s, t) + 1 == 384);
            }
        } else {
            assert(loop_position(self.steps, self.ticks) == loop_position(s, t) + 1);
            assert((loop_position(s, t) + 1) % 384 == loop_position(s, t) + 1);
        }
    }

    /// What the sequencer is told after a tick: step start at tick 0, step
    /// end at tick 5, nothing otherwise.
    pub fn sequencer_message(&self) -> (r: Option<SequencerMessage>)
        ensures
            self.ticks == 0 ==> r == Some(SequencerMessage::NoteOn(self.steps)),
            self.ticks == 5 ==> r == Some(SequencerMessage::NoteOff(self.steps)),
            self.ticks != 0 && self.ticks != 5 ==> r is None,
    {
        if self.ticks == 0 {
            Some(SequencerMessage::NoteOn(self.steps))
        } else if self.ticks == 5 {
            Some(SequencerMessage::NoteOff(self.steps))
        } else {
            None
        }
    }
}

} // verus!
