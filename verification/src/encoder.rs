//! The quadrature decoder: two gated interrupt lines, the phase they were
//! last seen in, and the position that their transitions add up to.

use crate::debouncer::{Debouncer, Gate};
use vstd::prelude::*;

verus! {

/// What one step of the encoder means.
#[derive(Clone, Copy, Debug, PartialEq, Eq, Structural)]
pub enum Direction {
    /// A clockwise step.
    Clockwise,
    /// A counter-clockwise step.
    CounterClockwise,
    /// No step: the phase did not change, or it changed in a way that no
    /// single step explains.
    NoChange,
}

/// One of the two lines of the encoder.
#[derive(Clone, Copy, Debug, PartialEq, Eq, Structural)]
pub enum Line {
    /// The first line.
    A,
    /// The second line.
    B,
}

/// The levels of both lines at one moment. The lines idle high, so a phase
/// records which of them is pulled low.
#[derive(Clone, Copy, Debug, PartialEq, Eq, Structural)]
pub struct Phase {
    /// Whether line A is low.
    pub a_low: bool,
    /// Whether line B is low.
    pub b_low: bool,
}

/// A phase as two bits: bit 0 for line A, bit 1 for line B.
pub open spec fn phase_bits(phase: Phase) -> int {
    (if phase.a_low { 1int } else { 0int }) + (if phase.b_low { 2int } else { 0int })
}

/// The code of a transition: the bits of the old phase below those of the
/// new one.
pub open spec fn transition_code(from: Phase, to: Phase) -> int {
    phase_bits(from) + 4 * phase_bits(to)
}

/// The direction that a transition code stands for. Four codes are a step
/// one way, four are a step the other way, and the remaining ones (no
/// change, or both lines changed at once) are not a step.
pub open spec fn code_direction(code: u8) -> Direction {
    if code == 0b0001 || code == 0b0111 || code == 0b1000 || code == 0b1110 {
        Direction::Clockwise
    } else if code == 0b0010 || code == 0b0100 || code == 0b1011 || code == 0b1101 {
        Direction::CounterClockwise
    } else {
        Direction::NoChange
    }
}

/// The direction of the transition between two phases.
pub open spec fn decode(from: Phase, to: Phase) -> Direction {
    code_direction(transition_code(from, to) as u8)
}

/// The integer in the range of `i32` that differs from `x` by a multiple of
/// 2^32: what a 32-bit counter shows that has counted to `x`.
pub open spec fn wrap_i32(x: int) -> int {
    (x + 0x8000_0000) % 0x1_0000_0000 - 0x8000_0000
}

/// By how much a step moves the position.
pub open spec fn delta(direction: Direction) -> int {
    match direction {
        Direction::Clockwise => 1,
        Direction::CounterClockwise => -1,
        Direction::NoChange => 0,
    }
}

/// An edge on one line, as the decoder sees it: when it came, and the levels
/// that both lines were read at.
pub struct Edge {
    /// The line that fired.
    pub line: Line,
    /// The timestamp of the edge, in microseconds.
    pub now: int,
    /// The phase read when the edge was handled.
    pub levels: Phase,
}

/// What a decoder is, mathematically.
pub struct Decoder {
    /// What gates line A.
    pub gate_a: Gate,
    /// What gates line B.
    pub gate_b: Gate,
    /// The phase read at the last accepted edge.
    pub phase: Phase,
    /// The position counter.
    pub position: int,
}

impl Decoder {
    /// The decoder at start: fresh gates, both lines high, position zero.
    pub open spec fn initial(window: nat) -> Decoder {
        Decoder {
            gate_a: Gate::fresh(window),
            gate_b: Gate::fresh(window),
            phase: Phase { a_low: false, b_low: false },
            position: 0,
        }
    }

    /// What gates a line.
    pub open spec fn gate(self, line: Line) -> Gate {
        match line {
            Line::A => self.gate_a,
            Line::B => self.gate_b,
        }
    }

    /// Whether the edge passes the debounce gate of its line.
    pub open spec fn accepts(self, edge: Edge) -> bool {
        self.gate(edge.line).accepts(edge.now)
    }

    /// What the edge is decoded to; nothing, if its gate rejects it.
    pub open spec fn outcome(self, edge: Edge) -> Option<Direction> {
        if self.accepts(edge) {
            Some(decode(self.phase, edge.levels))
        } else {
            None
        }
    }

    /// The decoder after the edge. A rejected edge changes nothing. An
    /// accepted one is remembered by its gate, its levels become the phase,
    /// and its direction moves the position, which wraps around like the
    /// 32-bit counter that holds it.
    pub open spec fn after(self, edge: Edge) -> Decoder {
        if self.accepts(edge) {
            Decoder {
                gate_a: match edge.line {
                    Line::A => self.gate_a.after(edge.now),
                    Line::B => self.gate_a,
                },
                gate_b: match edge.line {
                    Line::A => self.gate_b,
                    Line::B => self.gate_b.after(edge.now),
                },
                phase: edge.levels,
                position: wrap_i32(self.position + delta(decode(self.phase, edge.levels))),
            }
        } else {
            self
        }
    }

    /// The decoder after all of `edges`, in order.
    pub open spec fn after_all(self, edges: Seq<Edge>) -> Decoder
        decreases edges.len(),
    {
        if edges.len() == 0 {
            self
        } else {
            self.after_all(edges.drop_last()).after(edges.last())
        }
    }

    /// How many of `edges` are accepted and decoded to `direction`.
    pub open spec fn count(self, edges: Seq<Edge>, direction: Direction) -> nat
        decreases edges.len(),
    {
        if edges.len() == 0 {
            0
        } else {
            let before = edges.drop_last();
            let this: nat = if self.after_all(before).outcome(edges.last()) == Some(direction) {
                1
            } else {
                0
            };
            self.count(before, direction) + this
        }
    }

    /// The clockwise steps among `edges`, minus the counter-clockwise ones.
    pub open spec fn net_rotation(self, edges: Seq<Edge>) -> int {
        self.count(edges, Direction::Clockwise) - self.count(edges, Direction::CounterClockwise)
    }
}

/// The table is that of a Gray code. A transition in which one line changes
/// is a step, and the transition back is the step the other way. One in
/// which no line changes, or both do, is no step.
pub proof fn lemma_one_line_is_one_step(from: Phase, to: Phase)
    ensures
        (from.a_low != to.a_low) != (from.b_low != to.b_low)
            <==> decode(from, to) != Direction::NoChange,
        decode(from, to) == Direction::Clockwise
            <==> decode(to, from) == Direction::CounterClockwise,
        decode(from, from) == Direction::NoChange,
{
}

/// Wrapping twice is wrapping once: a counter that wrapped on the way shows
/// the same as one that counted the whole sum.
pub proof fn lemma_wrap_i32_absorbs(x: int, d: int)
    ensures
        wrap_i32(wrap_i32(x) + d) == wrap_i32(x + d),
        i32::MIN <= wrap_i32(x) <= i32::MAX,
        i32::MIN <= x <= i32::MAX ==> wrap_i32(x) == x,
{
}

/// An edge that its gate rejects, and one that is decoded to no change,
/// leave the position as it is.
pub proof fn lemma_no_step_keeps_position(decoder: Decoder, edge: Edge)
    requires
        i32::MIN <= decoder.position <= i32::MAX,
        decoder.outcome(edge) is None || decoder.outcome(edge) == Some(Direction::NoChange),
    ensures
        decoder.after(edge).position == decoder.position,
{
}

/// After any sequence of edges the position is where it was, plus the
/// number of accepted edges that were decoded as clockwise, minus the number
/// of those decoded as counter-clockwise; as a 32-bit counter shows that
/// sum, and exactly that sum wherever it fits in 32 bits.
pub proof fn lemma_position_is_net_rotation(decoder: Decoder, edges: Seq<Edge>)
    requires
        i32::MIN <= decoder.position <= i32::MAX,
    ensures
        decoder.after_all(edges).position == wrap_i32(
            decoder.position + decoder.count(edges, Direction::Clockwise)
                - decoder.count(edges, Direction::CounterClockwise),
        ),
        i32::MIN <= decoder.position + decoder.net_rotation(edges) <= i32::MAX
            ==> decoder.after_all(edges).position
                == decoder.position + decoder.net_rotation(edges),
    decreases edges.len(),
{
    if edges.len() > 0 {
        let before = edges.drop_last();
        lemma_position_is_net_rotation(decoder, before);
        let step = match decoder.after_all(before).outcome(edges.last()) {
            Some(direction) => delta(direction),
            None => 0,
        };
        lemma_wrap_i32_absorbs(decoder.position + decoder.net_rotation(before), step);
    }
    lemma_wrap_i32_absorbs(decoder.position + decoder.net_rotation(edges), 0);
}

/// Looks a transition code up in the phase table of the `rotary_encoder_hal`
/// crate, by `Phase::direction` of its `DefaultPhase`. Taken on trust: the
/// table is the one that `code_direction` writes out, eight codes that are
/// a step and `None` for every other value.
#[verifier::external_body]
fn default_phase_direction(code: u8) -> (direction: Direction)
    ensures
        direction == code_direction(code),
{
    let mut table = rotary_encoder_hal::DefaultPhase;
    match rotary_encoder_hal::Phase::direction(&mut table, code) {
        rotary_encoder_hal::Direction::Clockwise => Direction::Clockwise,
        rotary_encoder_hal::Direction::CounterClockwise => Direction::CounterClockwise,
        rotary_encoder_hal::Direction::None => Direction::NoChange,
    }
}

/// The two bits of a phase.
fn bits_of(phase: Phase) -> (bits: u8)
    ensures
        bits == phase_bits(phase),
{
    let a: u8 = if phase.a_low { 1 } else { 0 };
    let b: u8 = if phase.b_low { 2 } else { 0 };
    a + b
}

/// Decodes the transition between two phases.
pub fn direction_between(from: Phase, to: Phase) -> (direction: Direction)
    ensures
        direction == decode(from, to),
{
    let code: u8 = bits_of(from) + 4 * bits_of(to);
    default_phase_direction(code)
}

/// The position after a step in the given direction.
fn moved(position: i32, direction: Direction) -> (next: i32)
    ensures
        next == wrap_i32(position + delta(direction)),
{
    match direction {
        Direction::Clockwise => position.wrapping_add(1),
        Direction::CounterClockwise => position.wrapping_sub(1),
        Direction::NoChange => position,
    }
}

/// A rotary encoder on two debounced interrupt lines.
#[derive(Clone, Copy, Debug)]
pub struct Encoder {
    debouncer_a: Debouncer,
    debouncer_b: Debouncer,
    phase: Phase,
    position: i32,
}

impl View for Encoder {
    type V = Decoder;

    closed spec fn view(&self) -> Decoder {
        Decoder {
            gate_a: self.debouncer_a@,
            gate_b: self.debouncer_b@,
            phase: self.phase,
            position: self.position as int,
        }
    }
}

impl Encoder {
    /// An encoder at position zero whose lines both have the given debounce
    /// window, in microseconds.
    pub fn new(debounce_duration: u64) -> (encoder: Encoder)
        ensures
            encoder@ == Decoder::initial(debounce_duration as nat),
    {
        Encoder {
            debouncer_a: Debouncer::new(debounce_duration),
            debouncer_b: Debouncer::new(debounce_duration),
            phase: Phase { a_low: false, b_low: false },
            position: 0,
        }
    }

    /// Handles an edge on `line` that the clock dates `now`, `levels` being
    /// the phase that the lines are read at. Returns what the edge was
    /// decoded to, or nothing if the line's debounce gate rejected it.
    pub fn on_edge(&mut self, line: Line, now: i64, levels: Phase) -> (outcome: Option<Direction>)
        ensures
            outcome == old(self)@.outcome((Edge { line, now: now as int, levels })),
            final(self)@ == old(self)@.after((Edge { line, now: now as int, levels })),
            i32::MIN <= final(self)@.position <= i32::MAX,
    {
        let accepted = match line {
            Line::A => self.debouncer_a.should_update(now),
            Line::B => self.debouncer_b.should_update(now),
        };
        if !accepted {
            return None;
        }
        let direction = direction_between(self.phase, levels);
        self.phase = levels;
        self.position = moved(self.position, direction);
        Some(direction)
    }

    /// The position counter.
    pub fn position(&self) -> (position: i32)
        ensures
            position == self@.position,
    {
        self.position
    }

    /// The phase read at the last accepted edge.
    pub fn phase(&self) -> (phase: Phase)
        ensures
            phase == self@.phase,
    {
        self.phase
    }
}

} // verus!
