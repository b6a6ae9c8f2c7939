//! The mute indicator: one pixel that is red while the microphone is muted.

use vstd::prelude::*;

verus! {

/// The state of the indicator.
#[derive(Clone, Copy, Debug, PartialEq, Eq, Structural)]
pub enum LedStatus {
    /// The indicator is lit.
    On,
    /// The indicator is dark.
    Off,
}

impl Default for LedStatus {
    /// The indicator is dark until it is told otherwise.
    fn default() -> (status: LedStatus)
        ensures
            status == LedStatus::Off,
    {
        LedStatus::Off
    }
}

/// A colour for a pixel with a red, a green, a blue and a white channel.
#[derive(Clone, Copy, Debug, PartialEq, Eq, Structural)]
pub struct Rgbw {
    /// Red.
    pub r: u8,
    /// Green.
    pub g: u8,
    /// Blue.
    pub b: u8,
    /// White.
    pub w: u8,
}

/// The colour that shows a state: full red for `On`, black for `Off`.
pub open spec fn colour_of(status: LedStatus) -> Rgbw {
    match status {
        LedStatus::On => Rgbw { r: 255, g: 0, b: 0, w: 0 },
        LedStatus::Off => Rgbw { r: 0, g: 0, b: 0, w: 0 },
    }
}

/// What the indicator is, mathematically: the state it was last set to.
pub struct Indicator {
    /// The state.
    pub status: LedStatus,
}

impl Indicator {
    /// The indicator after it has been set to `status`.
    pub open spec fn set(self, status: LedStatus) -> Indicator {
        Indicator { status }
    }

    /// What a reader of the indicator sees.
    pub open spec fn read(self) -> LedStatus {
        self.status
    }
}

/// Whoever reads the indicator right after it was set reads what it was set
/// to, whatever it showed before; so a read after it was set to `On` gives
/// `On`.
pub proof fn lemma_read_after_set(indicator: Indicator, status: LedStatus)
    ensures
        indicator.set(status).read() == status,
        indicator.set(LedStatus::On).read() == LedStatus::On,
{
}

/// The mute indicator.
#[derive(Clone, Copy, Debug)]
pub struct MuteLed {
    led_state: LedStatus,
}

impl View for MuteLed {
    type V = Indicator;

    closed spec fn view(&self) -> Indicator {
        Indicator { status: self.led_state }
    }
}

impl MuteLed {
    /// An indicator that is off.
    pub fn new() -> (led: MuteLed)
        ensures
            led@ == (Indicator { status: LedStatus::Off }),
    {
        MuteLed { led_state: LedStatus::Off }
    }

    /// Sets the indicator on or off. Returns the colour to write to the
    /// pixel.
    pub fn set(&mut self, status: LedStatus) -> (colour: Rgbw)
        ensures
            final(self)@ == old(self)@.set(status),
            colour == colour_of(status),
    {
        self.led_state = status;
        match status {
            LedStatus::On => Rgbw { r: 255, g: 0, b: 0, w: 0 },
            LedStatus::Off => Rgbw { r: 0, g: 0, b: 0, w: 0 },
        }
    }

    /// Turns the indicator on. Returns the colour to write to the pixel.
    pub fn set_led_on(&mut self) -> (colour: Rgbw)
        ensures
            final(self)@ == old(self)@.set(LedStatus::On),
            colour == colour_of(LedStatus::On),
    {
        self.set(LedStatus::On)
    }

    /// Turns the indicator off. Returns the colour to write to the pixel.
    pub fn set_led_off(&mut self) -> (colour: Rgbw)
        ensures
            final(self)@ == old(self)@.set(LedStatus::Off),
            colour == colour_of(LedStatus::Off),
    {
        self.set(LedStatus::Off)
    }

    /// The state that the indicator was last set to.
    pub fn _get_led_status(&self) -> (status: LedStatus)
        ensures
            status == self@.read(),
    {
        self.led_state
    }
}

} // verus!
