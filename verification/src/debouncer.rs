//! The debounce gate: a time filter for the edges of one input line.

use vstd::prelude::*;

verus! {

/// What a gate is, mathematically: the window and the time of the event that
/// was accepted last, if any was.
pub struct Gate {
    /// The least distance, in microseconds, between two accepted events.
    pub window: nat,
    /// The timestamp of the last accepted event.
    pub last_accepted: Option<int>,
}

impl Gate {
    /// A gate on whose line nothing has happened yet.
    pub open spec fn fresh(window: nat) -> Gate {
        Gate { window, last_accepted: None }
    }

    /// Whether an event at time `now` passes. The first event always does;
    /// a later one does when at least the window has elapsed since the last
    /// accepted one.
    pub open spec fn accepts(self, now: int) -> bool {
        match self.last_accepted {
            None => true,
            Some(last) => now - last >= self.window,
        }
    }

    /// This gate after an event at time `now`: an accepted event becomes the
    /// last accepted one, a rejected event leaves no trace.
    pub open spec fn after(self, now: int) -> Gate {
        if self.accepts(now) {
            Gate { window: self.window, last_accepted: Some(now) }
        } else {
            self
        }
    }

    /// This gate after all the events of `times`, in order.
    pub open spec fn after_all(self, times: Seq<int>) -> Gate
        decreases times.len(),
    {
        if times.len() == 0 {
            self
        } else {
            self.after_all(times.drop_last()).after(times.last())
        }
    }

    /// Whether event number `i` of `times` passes, the earlier ones having
    /// been delivered before it.
    pub open spec fn accepts_at(self, times: Seq<int>, i: int) -> bool {
        self.after_all(times.take(i)).accepts(times[i])
    }

    /// How many events of `times` pass.
    pub open spec fn accepted_count(self, times: Seq<int>) -> nat
        decreases times.len(),
    {
        if times.len() == 0 {
            0
        } else {
            let before = times.drop_last();
            let this: nat = if self.after_all(before).accepts(times.last()) {
                1
            } else {
                0
            };
            self.accepted_count(before) + this
        }
    }
}

/// Whether each event of `times` comes at least `window` after the one
/// before it.
pub open spec fn spaced(times: Seq<int>, window: nat) -> bool {
    forall|i: int| 0 < i < times.len() ==> #[trigger] times[i] - times[i - 1] >= window
}

/// Of two events that are less than the window apart, in either order, a
/// gate never accepts both.
pub proof fn lemma_close_events_never_both(gate: Gate, first: int, second: int)
    requires
        -(gate.window as int) < second - first < gate.window,
    ensures
        !(gate.accepts(first) && gate.after(first).accepts(second)),
{
}

/// Of two events that are less than the window apart, a gate that is open
/// for the first one (a fresh gate always is) accepts exactly one: the
/// first.
pub proof fn lemma_close_events_exactly_one(gate: Gate, first: int, second: int)
    requires
        -(gate.window as int) < second - first < gate.window,
        gate.accepts(first),
    ensures
        !gate.after(first).accepts(second),
        gate.accepted_count(seq![first, second]) == 1,
{
    let head = seq![first, second].drop_last();
    assert(gate.after_all(head.drop_last()) == gate);
    assert(gate.accepted_count(head.drop_last()) == 0);
    assert(gate.accepted_count(head) == 1);
}

/// Events that are spaced by at least the window are all accepted, by a gate
/// that is open for the first of them (a fresh gate always is).
pub proof fn lemma_spaced_events_all_accepted(gate: Gate, times: Seq<int>)
    requires
        spaced(times, gate.window),
        times.len() > 0 ==> gate.accepts(times[0]),
    ensures
        forall|i: int| 0 <= i < times.len() ==> #[trigger] gate.accepts_at(times, i),
        gate.accepted_count(times) == times.len(),
        times.len() > 0 ==> gate.after_all(times).last_accepted == Some(times.last()),
        gate.after_all(times).window == gate.window,
    decreases times.len(),
{
    if times.len() > 0 {
        let before = times.drop_last();
        assert(spaced(before, gate.window));
        lemma_spaced_events_all_accepted(gate, before);
        assert(gate.after_all(before).accepts(times.last()));
        assert forall|i: int| 0 <= i < times.len() implies #[trigger] gate.accepts_at(
            times,
            i,
        ) by {
            if i < times.len() - 1 {
                assert(times.take(i) =~= before.take(i));
                assert(gate.accepts_at(before, i));
            }
        }
    }
}

/// With a window of zero a gate lets every event through whose timestamp
/// is not before that of the last accepted one.
pub proof fn lemma_zero_window_always_accepts(gate: Gate, now: int)
    requires
        gate.window == 0,
        gate.last_accepted matches Some(last) ==> last <= now,
    ensures
        gate.accepts(now),
{
}

/// The debounce gate of one physical input line.
///
/// Timestamps are microseconds of a monotonic clock. A window of zero is
/// legal and means that every event of a clock that does not run backwards
/// is accepted.
#[derive(Clone, Copy, Debug)]
pub struct Debouncer {
    last_update: Option<i64>,
    debounce_duration: u64,
}

impl View for Debouncer {
    type V = Gate;

    closed spec fn view(&self) -> Gate {
        Gate {
            window: self.debounce_duration as nat,
            last_accepted: match self.last_update {
                None => None,
                Some(t) => Some(t as int),
            },
        }
    }
}

impl Debouncer {
    /// A gate with the given window, in microseconds, that has accepted
    /// nothing yet.
    pub fn new(debounce_duration: u64) -> (gate: Debouncer)
        ensures
            gate@ == Gate::fresh(debounce_duration as nat),
    {
        Debouncer { last_update: None, debounce_duration }
    }

    /// Decides on an event that the clock dates `now`, and remembers it if
    /// it is accepted.
    pub fn should_update(&mut self, now: i64) -> (accepted: bool)
        ensures
            accepted == old(self)@.accepts(now as int),
            final(self)@ == old(self)@.after(now as int),
    {
        let accepted = match self.last_update {
            None => true,
            Some(last) => now as i128 - last as i128 >= self.debounce_duration as i128,
        };
        if accepted {
            self.last_update = Some(now);
        }
        accepted
    }

    /// The window, in microseconds.
    pub fn debounce_duration(&self) -> (window: u64)
        ensures
            window == self@.window,
    {
        self.debounce_duration
    }

    /// The timestamp of the last accepted event.
    pub fn last_update(&self) -> (last: Option<i64>)
        ensures
            match last {
                None => self@.last_accepted is None,
                Some(t) => self@.last_accepted == Some(t as int),
            },
    {
        self.last_update
    }
}

} // verus!
