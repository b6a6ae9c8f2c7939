//! A push button with a lamp: each press toggles the lamp. The line is not
//! gated by time stamps; instead its interrupt is switched off by the press
//! and switched on again by a one-shot timer, once the contact has settled.

use vstd::prelude::*;

verus! {

/// What a press asks of the hardware.
#[derive(Clone, Copy, Debug, PartialEq, Eq, Structural)]
pub struct Command {
    /// The level to drive the lamp to: high for lit.
    pub led_high: bool,
    /// After how many microseconds the timer is to fire that re-arms the
    /// interrupt of the button line.
    pub rearm_after: u64,
}

/// What a button with a lamp is, mathematically.
pub struct Toggle {
    /// Whether the lamp is lit.
    pub led_on: bool,
    /// Whether the interrupt of the button line is enabled.
    pub armed: bool,
    /// The time the contact is given to settle, in microseconds.
    pub window: nat,
}

impl Toggle {
    /// The button at start: the lamp dark, the interrupt enabled.
    pub open spec fn initial(window: nat) -> Toggle {
        Toggle { led_on: false, armed: true, window }
    }

    /// What a press asks for: while the interrupt is enabled, the lamp in
    /// its other state and the timer; nothing while it is disabled.
    pub open spec fn command(self) -> Option<Command> {
        if self.armed {
            Some(Command { led_high: !self.led_on, rearm_after: self.window as u64 })
        } else {
            None
        }
    }

    /// The button after a press: the lamp toggled and the interrupt
    /// disabled, if it was enabled; else unchanged.
    pub open spec fn after_press(self) -> Toggle {
        if self.armed {
            Toggle { led_on: !self.led_on, armed: false, window: self.window }
        } else {
            self
        }
    }

    /// The button after the timer has fired: the interrupt is enabled.
    pub open spec fn after_timer(self) -> Toggle {
        Toggle { led_on: self.led_on, armed: true, window: self.window }
    }
}

/// However the contact bounces after a press, the lamp toggles once: a
/// second press before the timer has fired asks for nothing and changes
/// nothing. A press after the timer toggles the lamp back.
pub proof fn lemma_one_toggle_per_press(button: Toggle)
    requires
        button.armed,
    ensures
        button.after_press().led_on == !button.led_on,
        button.after_press().command() is None,
        button.after_press().after_press() == button.after_press(),
        button.after_press().after_timer().after_press().led_on == button.led_on,
{
}

/// A push button with a lamp.
#[derive(Clone, Copy, Debug)]
pub struct LedButton {
    led_state: bool,
    armed: bool,
    debounce_duration: u64,
}

impl View for LedButton {
    type V = Toggle;

    closed spec fn view(&self) -> Toggle {
        Toggle {
            led_on: self.led_state,
            armed: self.armed,
            window: self.debounce_duration as nat,
        }
    }
}

impl LedButton {
    /// A button whose lamp is dark and whose contact is given
    /// `debounce_duration` microseconds to settle after each press.
    pub fn new(debounce_duration: u64) -> (button: LedButton)
        ensures
            button@ == Toggle::initial(debounce_duration as nat),
    {
        LedButton { led_state: false, armed: true, debounce_duration }
    }

    /// Handles an interrupt of the button line. Returns what is to be done:
    /// the level for the lamp and the delay of the timer whose firing is
    /// reported by `on_timer`.
    pub fn on_press(&mut self) -> (command: Option<Command>)
        ensures
            command == old(self)@.command(),
            final(self)@ == old(self)@.after_press(),
    {
        if !self.armed {
            return None;
        }
        self.armed = false;
        self.led_state = !self.led_state;
        Some(Command { led_high: self.led_state, rearm_after: self.debounce_duration })
    }

    /// The timer has fired: the interrupt of the button line is to be
    /// enabled again.
    pub fn on_timer(&mut self)
        ensures
            final(self)@ == old(self)@.after_timer(),
    {
        self.armed = true;
    }

    /// Whether the lamp is lit.
    pub fn is_led_on(&self) -> (lit: bool)
        ensures
            lit == self@.led_on,
    {
        self.led_state
    }

    /// Whether the interrupt of the button line is enabled.
    pub fn is_armed(&self) -> (armed: bool)
        ensures
            armed == self@.armed,
    {
        self.armed
    }
}

} // verus!
