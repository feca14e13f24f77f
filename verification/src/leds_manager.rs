//! The eight pad LEDs behind an I2C port expander: pressed pads light up,
//! and the sequencer can overlay the triggers of the page being edited.
use vstd::prelude::*;

verus! {

/// Expander register that sets the pin directions.
pub const LEDS_CONFIG_REGISTER: u8 = 0x06;

/// Expander register that drives the pins.
pub const LEDS_OUTPUT_REGISTER: u8 = 0x02;

/// State of the LED task: which pads are held, and the sequencer overlay.
pub struct LedsManager {
    leds: u8,
    seq_status: u8,
    seq_enabled: bool,
}

/// The byte driven onto the LEDs: held pads, plus the sequencer overlay
/// when it is shown.
pub open spec fn led_output(leds: u8, seq_status: u8, seq_enabled: bool) -> u8 {
    (if seq_enabled {
        seq_status
    } else {
        0u8
    }) | leds
}

impl LedsManager {
    pub closed spec fn spec_leds(&self) -> u8 {
        self.leds
    }

    pub closed spec fn spec_seq_status(&self) -> u8 {
        self.seq_status
    }

    pub closed spec fn spec_seq_enabled(&self) -> bool {
        self.seq_enabled
    }

    /// The byte currently driven onto the LEDs.
    pub open spec fn spec_output(&self) -> u8 {
        led_output(self.spec_leds(), self.spec_seq_status(), self.spec_seq_enabled())
    }

    /// All LEDs off, no overlay.
    pub fn new() -> (r: Self)
        ensures
            r.spec_leds() == 0,
            r.spec_seq_status() == 0,
            !r.spec_seq_enabled(),
    {
        LedsManager { leds: 0, seq_status: 0, seq_enabled: false }
    }

    /// The writes that set every expander pin to output and switch all LEDs
    /// off, sent once at start.
    pub fn init_packets() -> (r: ([u8; 2], [u8; 2]))
        ensures
            r.0@ == seq![LEDS_CONFIG_REGISTER, 0u8],
            r.1@ == seq![LEDS_OUTPUT_REGISTER, 0u8],
    {
        ([LEDS_CONFIG_REGISTER, 0x00], [LEDS_OUTPUT_REGISTER, 0])
    }

    /// The byte to drive onto the LEDs.
    pub fn output(&self) -> (r: u8)
        ensures
            r == self.spec_output(),
    {
        let mut status: u8 = 0;
        if self.seq_enabled {
            status = status | self.seq_status;
        }
        status = status | self.leds;
        let (s, l) = (self.seq_status, self.leds);
        assert((0u8 | s) | l == s | l && 0u8 | l == l) by (bit_vector);
        status
    }

    /// The write that drives the current output.
    pub fn output_packet(&self) -> (r: [u8; 2])
        ensures
            r@ == seq![LEDS_OUTPUT_REGISTER, self.spec_output()],
    {
        [LEDS_OUTPUT_REGISTER, self.output()]
    }

    /// Lights (`press`) or clears the LED of pad `index`; returns the new
    /// output byte.
    pub fn set_led(&mut self, index: u8, press: bool) -> (r: u8)
        requires
            index < 8,
        ensures
            final(self).spec_leds() == if press {
                old(self).spec_leds() | (1u8 << index)
            } else {
                old(self).spec_leds() & !(1u8 << index)
            },
            final(self).spec_seq_status() == old(self).spec_seq_status(),
            final(self).spec_seq_enabled() == old(self).spec_seq_enabled(),
            r == final(self).spec_output(),
    {
        if press {
            self.leds = self.leds | (1 << index);
        } else {
            self.leds = self.leds & !(1 << index);
        }
        self.output()
    }

    /// Sets the sequencer overlay and whether it is shown; returns the new
    /// output byte.
    pub fn set_sequencer(&mut self, sequencer: u8, enabled: bool) -> (r: u8)
        ensures
            final(self).spec_leds() == old(self).spec_leds(),
            final(self).spec_seq_status() == sequencer,
            final(self).spec_seq_enabled() == enabled,
            r == final(self).spec_output(),
    {
        self.seq_status = sequencer;
        self.seq_enabled = enabled;
        self.output()
    }
}

/// Pressing and releasing a pad leaves the LEDs of the other pads as they
/// were and switches the pad's own LED off; a pressed pad is lit whatever
/// the overlay.
pub proof fn lemma_led_press_release(leds: u8, index: u8, seq_status: u8, seq_enabled: bool)
    requires
        index < 8,
    ensures
        ((leds | (1u8 << index)) & !(1u8 << index)) == leds & !(1u8 << index),
        led_output(leds | (1u8 << index), seq_status, seq_enabled) & (1u8 << index) != 0,
        !seq_enabled ==> led_output(leds, seq_status, seq_enabled) == leds,
{
    let o = if seq_enabled {
        seq_status
    } else {
        0u8
    };
    assert(((leds | (1u8 << index)) & !(1u8 << index)) == leds & !(1u8 << index) && (o | (leds | (
    1u8 << index))) & (1u8 << index) != 0 && 0u8 | leds == leds) by (bit_vector)
        requires
            index < 8u8,
    ;
}

} // verus!
