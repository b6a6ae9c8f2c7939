//! The messages that the device and its peer exchange.

use crate::mute_led::{colour_of, LedStatus, MuteLed, Rgbw};
use vstd::prelude::*;

verus! {

/// The state that the device reports to its peer.
#[derive(Clone, Copy, Debug, PartialEq, Eq, Structural)]
pub struct HidStatus {
    /// The position of the encoder.
    pub encoder_position: i32,
    /// How often the mute button has been pressed.
    pub mic_mute_button_press_count: u32,
    /// The state of the mute indicator.
    pub led_status: LedStatus,
}

/// A message between the device and its peer.
#[derive(Clone, Copy, Debug, PartialEq, Eq, Structural)]
pub enum BluetoothMessage {
    /// From the device to the peer: the state of the device.
    HidStatus(HidStatus),
    /// From the peer to the device: set the mute indicator.
    SetMicMuteIndicator(LedStatus),
}

/// The state that an inbound message asks the indicator to take, if it asks
/// for one. What could not be decoded (`None`) asks for nothing, and
/// neither does a message of a kind that only the device sends.
pub open spec fn requested_indicator(message: Option<BluetoothMessage>) -> Option<LedStatus> {
    match message {
        Some(BluetoothMessage::SetMicMuteIndicator(status)) => Some(status),
        _ => None,
    }
}

/// Acts on what the peer has sent: `message` is the decoded payload, or
/// `None` where the bytes did not decode. A request to set the indicator is
/// carried out, and the colour to write to the pixel is returned. Anything
/// else is ignored and leaves the indicator as it is.
pub fn handle_inbound(
    led: &mut MuteLed,
    message: Option<BluetoothMessage>,
) -> (colour: Option<Rgbw>)
    ensures
        match requested_indicator(message) {
            Some(status) => {
                &&& final(led)@ == old(led)@.set(status)
                &&& colour == Some(colour_of(status))
            },
            None => final(led)@ == old(led)@ && colour is None,
        },
{
    match message {
        Some(BluetoothMessage::SetMicMuteIndicator(status)) => {
            let colour = match status {
                LedStatus::On => led.set_led_on(),
                LedStatus::Off => led.set_led_off(),
            };
            Some(colour)
        },
        _ => None,
    }
}

} // verus!
