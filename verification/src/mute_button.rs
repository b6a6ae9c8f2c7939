//! The mute button: a debounced press counter, and the bounded signalling
//! queue through which the interrupt handler wakes a worker.

use crate::debouncer::{Debouncer, Gate};
use vstd::prelude::*;

verus! {

/// How many notifications the signalling queue holds. One that is posted
/// while this many are waiting is dropped.
pub const QUEUE_SIZE: u32 = 10;

/// What a worker learns from one wait on the signalling queue.
#[derive(Clone, Copy, Debug, PartialEq, Eq, Structural)]
pub enum MuteButtonStatus {
    /// A notification was waiting: the button has been pressed.
    Pressed,
    /// The queue was empty and the wait timed out.
    Released,
}

/// What became of one interrupt of the button line.
#[derive(Clone, Copy, Debug, PartialEq, Eq, Structural)]
pub enum Press {
    /// The edge was rejected as a bounce: nothing was counted.
    Bounced,
    /// The press was counted and a notification was posted.
    Notified,
    /// The press was counted, but the queue was full and the notification
    /// was dropped.
    Dropped,
}

/// What a 32-bit counter shows that has counted to `x`.
pub open spec fn wrap_u32(x: int) -> int {
    x % 0x1_0000_0000
}

/// For how many milliseconds a worker waits on the queue: the window
/// rounded up to whole milliseconds, so that the wait is never shorter than
/// the window, but at least one and at most what 32 bits hold.
pub open spec fn timeout_ms(window: nat) -> nat {
    let ms = (window + 999) / 1000;
    if ms < 1 {
        1
    } else if ms > u32::MAX {
        u32::MAX as nat
    } else {
        ms
    }
}

/// What happens to a button: an interrupt of its line at some time, or a
/// wait of the worker on the queue.
pub enum ButtonEvent {
    /// The line fired at this timestamp, in microseconds.
    Interrupt(int),
    /// The worker waited on the queue once.
    Receive,
}

/// What a mute button is, mathematically.
pub struct Bridge {
    /// What gates the button line.
    pub gate: Gate,
    /// The press counter.
    pub press_count: int,
    /// The number of notifications waiting in the queue.
    pub pending: nat,
}

impl Bridge {
    /// The button at start: a fresh gate, nothing counted, nothing waiting.
    pub open spec fn initial(window: nat) -> Bridge {
        Bridge { gate: Gate::fresh(window), press_count: 0, pending: 0 }
    }

    /// What becomes of an interrupt at time `now`.
    pub open spec fn press(self, now: int) -> Press {
        if !self.gate.accepts(now) {
            Press::Bounced
        } else if self.pending < QUEUE_SIZE {
            Press::Notified
        } else {
            Press::Dropped
        }
    }

    /// The button after an interrupt at time `now`. An accepted edge counts
    /// as one press whether or not the queue has room for its notification.
    pub open spec fn after_interrupt(self, now: int) -> Bridge {
        if self.gate.accepts(now) {
            Bridge {
                gate: self.gate.after(now),
                press_count: wrap_u32(self.press_count + 1),
                pending: if self.pending < QUEUE_SIZE {
                    self.pending + 1
                } else {
                    self.pending
                },
            }
        } else {
            self
        }
    }

    /// What one wait of the worker yields.
    pub open spec fn received(self) -> MuteButtonStatus {
        if self.pending > 0 {
            MuteButtonStatus::Pressed
        } else {
            MuteButtonStatus::Released
        }
    }

    /// The button after one wait of the worker: a waiting notification, if
    /// there is one, is gone, and nothing else has changed.
    pub open spec fn after_receive(self) -> Bridge {
        Bridge {
            gate: self.gate,
            press_count: self.press_count,
            pending: if self.pending > 0 {
                (self.pending - 1) as nat
            } else {
                0
            },
        }
    }

    /// The button after one event.
    pub open spec fn after(self, event: ButtonEvent) -> Bridge {
        match event {
            ButtonEvent::Interrupt(now) => self.after_interrupt(now),
            ButtonEvent::Receive => self.after_receive(),
        }
    }

    /// The button after all of `events`, in order.
    pub open spec fn after_all(self, events: Seq<ButtonEvent>) -> Bridge
        decreases events.len(),
    {
        if events.len() == 0 {
            self
        } else {
            self.after_all(events.drop_last()).after(events.last())
        }
    }

    /// How many of `events` are interrupts that are accepted.
    pub open spec fn accepted_presses(self, events: Seq<ButtonEvent>) -> nat
        decreases events.len(),
    {
        if events.len() == 0 {
            0
        } else {
            let before = events.drop_last();
            let this: nat = match events.last() {
                ButtonEvent::Interrupt(now) => if self.after_all(before).gate.accepts(now) {
                    1
                } else {
                    0
                },
                ButtonEvent::Receive => 0,
            };
            self.accepted_presses(before) + this
        }
    }

    /// How many of `events` are waits of the worker that find a
    /// notification.
    pub open spec fn received_notifications(self, events: Seq<ButtonEvent>) -> nat
        decreases events.len(),
    {
        if events.len() == 0 {
            0
        } else {
            let before = events.drop_last();
            let this: nat = match events.last() {
                ButtonEvent::Interrupt(_) => 0,
                ButtonEvent::Receive => if self.after_all(before).pending > 0 {
                    1
                } else {
                    0
                },
            };
            self.received_notifications(before) + this
        }
    }
}

/// One accepted edge adds exactly one to the press counter and a rejected
/// one adds nothing, so that the counter never goes down; and this is so
/// whatever waits in the queue. A wait of the worker does not touch the
/// counter. (A counter that stands at the top of its 32 bits starts again
/// at zero; that state is left out here.)
pub proof fn lemma_press_counts_once(button: Bridge, now: int, waiting: nat)
    requires
        0 <= button.press_count < u32::MAX,
    ensures
        button.gate.accepts(now)
            ==> button.after_interrupt(now).press_count == button.press_count + 1,
        !button.gate.accepts(now)
            ==> button.after_interrupt(now).press_count == button.press_count,
        button.after_interrupt(now).press_count >= button.press_count,
        (Bridge { pending: waiting, ..button }).after_interrupt(now).press_count
            == button.after_interrupt(now).press_count,
        button.after_receive().press_count == button.press_count,
{
}

/// After any run of interrupts and waits, the press counter stands where it
/// stood plus the number of accepted edges (as 32 bits show that sum, and
/// exactly there where it fits), never more than `QUEUE_SIZE` notifications
/// wait, and the worker has found no more notifications than waited at the
/// start or were posted by accepted edges.
pub proof fn lemma_presses_are_counted(button: Bridge, events: Seq<ButtonEvent>)
    requires
        0 <= button.press_count <= u32::MAX,
        button.pending <= QUEUE_SIZE,
    ensures
        button.after_all(events).press_count == wrap_u32(
            button.press_count + button.accepted_presses(events),
        ),
        button.press_count + button.accepted_presses(events) <= u32::MAX
            ==> button.after_all(events).press_count
                == button.press_count + button.accepted_presses(events),
        button.after_all(events).pending <= QUEUE_SIZE,
        button.after_all(events).pending + button.received_notifications(events)
            <= button.pending + button.accepted_presses(events),
    decreases events.len(),
{
    if events.len() > 0 {
        lemma_presses_are_counted(button, events.drop_last());
    }
}

/// With no worker running, accepted edges fill the queue up to its size and
/// no further, while each of them is counted.
pub proof fn lemma_queue_fills_up(button: Bridge, events: Seq<ButtonEvent>)
    requires
        button.pending <= QUEUE_SIZE,
        forall|i: int| 0 <= i < events.len() ==> #[trigger] events[i] is Interrupt,
    ensures
        button.pending + button.accepted_presses(events) <= QUEUE_SIZE
            ==> button.after_all(events).pending
                == button.pending + button.accepted_presses(events),
        button.pending + button.accepted_presses(events) > QUEUE_SIZE
            ==> button.after_all(events).pending == QUEUE_SIZE,
    decreases events.len(),
{
    if events.len() > 0 {
        lemma_queue_fills_up(button, events.drop_last());
    }
}

/// The mute button: its gate, its press counter and its signalling queue.
///
/// The press counter is the record of how often the button was pressed.
/// The queue carries no data; it only wakes the worker, and a notification
/// that finds it full is lost without harm to the counter.
#[derive(Clone, Copy, Debug)]
pub struct MuteButton {
    debouncer: Debouncer,
    press_count: u32,
    pending: u32,
}

impl View for MuteButton {
    type V = Bridge;

    closed spec fn view(&self) -> Bridge {
        Bridge {
            gate: self.debouncer@,
            press_count: self.press_count as int,
            pending: self.pending as nat,
        }
    }
}

impl MuteButton {
    #[verifier::type_invariant]
    spec fn queue_is_bounded(self) -> bool {
        self.pending <= QUEUE_SIZE
    }

    /// A button that has not been pressed, with the given debounce window in
    /// microseconds.
    pub fn new(debounce_duration: u64) -> (button: MuteButton)
        ensures
            button@ == Bridge::initial(debounce_duration as nat),
    {
        MuteButton { debouncer: Debouncer::new(debounce_duration), press_count: 0, pending: 0 }
    }

    /// Handles an interrupt of the button line that the clock dates `now`.
    /// Never waits: where the queue is full the notification is dropped.
    pub fn on_interrupt(&mut self, now: i64) -> (press: Press)
        ensures
            press == old(self)@.press(now as int),
            final(self)@ == old(self)@.after_interrupt(now as int),
            final(self)@.pending <= QUEUE_SIZE,
    {
        proof {
            use_type_invariant(&*self);
        }
        let mut debouncer = self.debouncer;
        let accepted = debouncer.should_update(now);
        self.debouncer = debouncer;
        if !accepted {
            return Press::Bounced;
        }
        self.press_count = self.press_count.wrapping_add(1);
        if self.pending < QUEUE_SIZE {
            self.pending = self.pending + 1;
            Press::Notified
        } else {
            Press::Dropped
        }
    }

    /// One wait of the worker on the queue: takes a notification if one is
    /// there. On `Pressed` the worker runs its callback.
    pub fn receive(&mut self) -> (status: MuteButtonStatus)
        ensures
            status == old(self)@.received(),
            final(self)@ == old(self)@.after_receive(),
            final(self)@.pending <= QUEUE_SIZE,
    {
        proof {
            use_type_invariant(&*self);
        }
        if self.pending > 0 {
            self.pending = self.pending - 1;
            MuteButtonStatus::Pressed
        } else {
            MuteButtonStatus::Released
        }
    }

    /// How often the button has been pressed.
    pub fn press_count(&self) -> (count: u32)
        ensures
            count == self@.press_count,
    {
        self.press_count
    }

    /// How many notifications wait in the queue.
    pub fn pending(&self) -> (waiting: u32)
        ensures
            waiting == self@.pending,
            waiting <= QUEUE_SIZE,
    {
        proof {
            use_type_invariant(self);
        }
        self.pending
    }

    /// For how many milliseconds the worker waits on the queue before it
    /// looks again.
    pub fn receive_timeout(&self) -> (ms: u32)
        ensures
            ms == timeout_ms(self@.gate.window),
            ms >= 1,
            ms == u32::MAX || ms * 1000 >= self@.gate.window,
    {
        let window = self.debouncer.debounce_duration();
        let whole: u64 = window / 1000;
        let ms: u64 = if window % 1000 > 0 {
            whole + 1
        } else {
            whole
        };
        if ms < 1 {
            1
        } else if ms > u32::MAX as u64 {
            u32::MAX
        } else {
            ms as u32
        }
    }
}

} // verus!
