//! The reporting loop: at every tick it compares what it observes with what
//! it observed at the tick before, and decides whether the peer is told.

use crate::encoder::Encoder;
use crate::message::{BluetoothMessage, HidStatus};
use crate::mute_button::MuteButton;
use crate::mute_led::MuteLed;
use vstd::prelude::*;

verus! {

/// What is done about changes that were observed while no peer was
/// connected.
#[derive(Clone, Copy, Debug, PartialEq, Eq, Structural)]
pub enum Reconnect {
    /// They are forgotten: the peer hears of the state again when it next
    /// changes while connected.
    Forget,
    /// They are flushed: the first tick after the peer is back reports the
    /// state as it is then, in one message.
    Flush,
}

/// Whether two observations differ in what is worth a report: the position
/// or the press count. The indicator alone is not.
pub open spec fn differs(previous: HidStatus, current: HidStatus) -> bool {
    previous.encoder_position != current.encoder_position
        || previous.mic_mute_button_press_count != current.mic_mute_button_press_count
}

/// What the reporting loop is, mathematically.
pub struct Report {
    /// What is done about changes while disconnected.
    pub policy: Reconnect,
    /// What was observed at the last tick; at start, the initial state.
    pub previous: HidStatus,
    /// Whether a change was observed, while disconnected, that is still to
    /// be flushed.
    pub unreported: bool,
}

impl Report {
    /// The loop at start.
    pub open spec fn initial(policy: Reconnect, status: HidStatus) -> Report {
        Report { policy, previous: status, unreported: false }
    }

    /// What a tick sends that observes `current`: the current state, if the
    /// peer is connected and the state has changed since the last tick or a
    /// change waits to be flushed; nothing otherwise.
    pub open spec fn message(
        self,
        connected: bool,
        current: HidStatus,
    ) -> Option<BluetoothMessage> {
        if connected && (differs(self.previous, current) || self.unreported) {
            Some(BluetoothMessage::HidStatus(current))
        } else {
            None
        }
    }

    /// The loop after a tick that observes `current`. What was observed is
    /// retained whether or not the peer is connected.
    pub open spec fn after(self, connected: bool, current: HidStatus) -> Report {
        Report {
            policy: self.policy,
            previous: current,
            unreported: self.policy == Reconnect::Flush && !connected
                && (differs(self.previous, current) || self.unreported),
        }
    }

    /// Whether the loop is in a state that it can reach: only the flushing
    /// policy ever has something to flush.
    pub open spec fn wf(self) -> bool {
        self.unreported ==> self.policy == Reconnect::Flush
    }
}

/// A tick sends at most one message, and where nothing waits to be flushed
/// (as is always so where changes are forgotten) it sends one exactly when
/// the peer is connected and the position or the press count is not what it
/// was at the tick before. What it sends is the state as it is now.
pub proof fn lemma_message_iff_changed_while_connected(
    report: Report,
    connected: bool,
    current: HidStatus,
)
    requires
        !report.unreported,
    ensures
        report.message(connected, current) is Some
            <==> connected && differs(report.previous, current),
        report.message(connected, current) matches Some(message)
            ==> message == BluetoothMessage::HidStatus(current),
        report.after(connected, current).previous == current,
        report.policy == Reconnect::Forget ==> !report.after(connected, current).unreported,
{
}

/// While the peer is away nothing is sent. Where changes are flushed, the
/// first tick with the peer back sends the state as it is then if anything
/// changed in between, and the tick after that is quiet again unless the
/// state has changed once more.
pub proof fn lemma_flush_on_reconnect(
    report: Report,
    away: HidStatus,
    back: HidStatus,
    next: HidStatus,
)
    requires
        report.policy == Reconnect::Flush,
        differs(report.previous, away) || report.unreported,
    ensures
        report.message(false, away) is None,
        report.after(false, away).message(true, back) == Some(BluetoothMessage::HidStatus(back)),
        report.after(false, away).after(true, back).message(true, next) is Some
            <==> differs(back, next),
{
}

/// Observes the device: reads the position, the press count and the
/// indicator. The three are read one after the other, each for itself.
pub fn observe(encoder: &Encoder, button: &MuteButton, led: &MuteLed) -> (status: HidStatus)
    ensures
        status.encoder_position == encoder@.position,
        status.mic_mute_button_press_count == button@.press_count,
        status.led_status == led@.read(),
{
    HidStatus {
        encoder_position: encoder.position(),
        mic_mute_button_press_count: button.press_count(),
        led_status: led._get_led_status(),
    }
}

/// The reporting loop.
#[derive(Clone, Copy, Debug)]
pub struct Reporter {
    policy: Reconnect,
    previous: HidStatus,
    unreported: bool,
}

impl View for Reporter {
    type V = Report;

    closed spec fn view(&self) -> Report {
        Report { policy: self.policy, previous: self.previous, unreported: self.unreported }
    }
}

impl Reporter {
    #[verifier::type_invariant]
    spec fn reachable(self) -> bool {
        self.unreported ==> self.policy == Reconnect::Flush
    }

    /// A loop that starts from the state `status`. Returns the loop and the
    /// message to publish at start, which carries that state.
    pub fn new(policy: Reconnect, status: HidStatus) -> (start: (Reporter, BluetoothMessage))
        ensures
            start.0@ == Report::initial(policy, status),
            start.1 == BluetoothMessage::HidStatus(status),
    {
        let reporter = Reporter { policy, previous: status, unreported: false };
        (reporter, BluetoothMessage::HidStatus(status))
    }

    /// One tick: `connected` is whether a peer is connected, `current` what
    /// is observed now. Returns the message to send, if one is due.
    pub fn tick(
        &mut self,
        connected: bool,
        current: HidStatus,
    ) -> (message: Option<BluetoothMessage>)
        ensures
            message == old(self)@.message(connected, current),
            final(self)@ == old(self)@.after(connected, current),
            final(self)@.wf(),
    {
        proof {
            use_type_invariant(&*self);
        }
        let changed = self.previous.encoder_position != current.encoder_position
            || self.previous.mic_mute_button_press_count != current.mic_mute_button_press_count;
        let due = changed || self.unreported;
        let flushes = match self.policy {
            Reconnect::Flush => true,
            Reconnect::Forget => false,
        };
        self.previous = current;
        self.unreported = flushes && !connected && due;
        if connected && due {
            Some(BluetoothMessage::HidStatus(current))
        } else {
            None
        }
    }

    /// What was observed at the last tick.
    pub fn previous(&self) -> (status: HidStatus)
        ensures
            status == self@.previous,
    {
        self.previous
    }

    /// Whether a change waits to be flushed.
    pub fn unreported(&self) -> (waiting: bool)
        ensures
            waiting == self@.unreported,
            waiting ==> self@.policy == Reconnect::Flush,
    {
        proof {
            use_type_invariant(self);
        }
        self.unreported
    }
}

} // verus!
