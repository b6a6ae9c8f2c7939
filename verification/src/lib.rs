//! Input aggregation and state synchronisation for a wireless control knob:
//! a rotary encoder, momentary buttons and a status indicator, whose state
//! is reported to a peer.
//!
//! Every component is a small transition system. Its state is an ordinary
//! value, each event is one method call, and the contract of the method says
//! exactly which state follows and what has to be done about it. Reading the
//! clock, the pins and the radio is left to the caller, who hands in what was
//! read and carries out what is returned.
//!
//! A component is not synchronised in itself: calls on one instance are
//! expected to be serialised by the caller, for instance by a critical
//! section around the interrupt handlers of one device.
//!
//! - [`debouncer`]: the time filter for the edges of one input line.
//! - [`encoder`]: the quadrature decoder and its position counter.
//! - [`mute_button`]: the press counter and the queue that wakes a worker.
//! - [`mute_led`]: the mute indicator.
//! - [`led_button`]: a button that toggles its lamp.
//! - [`message`]: the messages exchanged with the peer.
//! - [`report`]: the loop that decides when the peer is told.
//! - [`ble_keyboard`]: the reports of a HID keyboard with media keys.

pub mod ble_keyboard;
pub mod debouncer;
pub mod encoder;
pub mod led_button;
pub mod message;
pub mod mute_button;
pub mod mute_led;
pub mod report;
