use vstd::prelude::*;

verus! {

/// Turning direction reported by the rotary encoder.
#[derive(Clone, Copy, PartialEq, Eq, Structural, Debug)]
pub enum Direction {
    Clockwise,
    CounterClockwise,
}

/// The two-bit state of the encoder pins: pin A is the high bit, pin B the low bit.
pub open spec fn pin_state(a_high: bool, b_high: bool) -> u8 {
    ((if a_high { 2int } else { 0int }) + (if b_high { 1int } else { 0int })) as u8
}

/// Position of a pin state on the quadrature cycle 00 -> 01 -> 11 -> 10 -> 00.
pub open spec fn cycle_position(state: u8) -> int {
    if state == 0 {
        0
    } else if state == 1 {
        1
    } else if state == 3 {
        2
    } else {
        3
    }
}

/// The direction of a transition between two pin states: one step forward on the
/// quadrature cycle is clockwise, one step back is counter-clockwise, anything else
/// (no change, or both pins changed at once) reports nothing.
pub open spec fn spec_decode(last: u8, new: u8) -> Option<Direction> {
    if cycle_position(new) == (cycle_position(last) + 1) % 4 {
        Some(Direction::Clockwise)
    } else if cycle_position(last) == (cycle_position(new) + 1) % 4 {
        Some(Direction::CounterClockwise)
    } else {
        None
    }
}

/// Quadrature decoder state of the rotary encoder: the last observed pin state.
pub struct RotaryEncoder {
    last_state: u8,
}

fn read_state(a_high: bool, b_high: bool) -> (r: u8)
    ensures
        r == pin_state(a_high, b_high),
        r < 4,
{
    let a: u8 = if a_high { 1 } else { 0 };
    let b: u8 = if b_high { 1 } else { 0 };
    let r: u8 = (a << 1) | b;
    assert(a <= 1 && b <= 1 ==> (a << 1) | b == 2 * a + b) by (bit_vector);
    r
}

impl RotaryEncoder {
    #[verifier::type_invariant]
    spec fn inv(&self) -> bool {
        self.last_state < 4
    }

    /// The last observed pin state.
    pub closed spec fn state(&self) -> u8 {
        self.last_state
    }

    /// Starts the decoder from the current levels of pins A and B.
    pub fn new(a_high: bool, b_high: bool) -> (r: Self)
        ensures
            r.state() == pin_state(a_high, b_high),
    {
        let state = read_state(a_high, b_high);
        Self { last_state: state }
    }

    /// Handles an edge on either pin, given the pin levels read after it: records the
    /// new state and reports the direction of the transition, if it is one step of
    /// the quadrature cycle.
    pub fn on_edge(&mut self, a_high: bool, b_high: bool) -> (r: Option<Direction>)
        ensures
            final(self).state() == pin_state(a_high, b_high),
            r == spec_decode(old(self).state(), pin_state(a_high, b_high)),
    {
        proof {
            use_type_invariant(&*self);
        }
        let new_state = read_state(a_high, b_high);
        let last = self.last_state;
        let transition: u8 = (last << 2) | new_state;
        assert(last < 4 && new_state < 4 ==> (last << 2) | new_state == 4 * last + new_state)
            by (bit_vector);
        self.last_state = new_state;
        if transition == 0b0001 || transition == 0b0111 || transition == 0b1110 || transition
            == 0b1000 {
            Some(Direction::Clockwise)
        } else if transition == 0b0010 || transition == 0b1011 || transition == 0b1101
            || transition == 0b0100 {
            Some(Direction::CounterClockwise)
        } else {
            None
        }
    }
}

/// Reversing a transition reverses the reported direction.
pub proof fn lemma_reverse_transition(last: u8, new: u8)
    requires
        last < 4,
        new < 4,
    ensures
        (spec_decode(last, new) == Some(Direction::Clockwise)) <==> (spec_decode(new, last)
            == Some(Direction::CounterClockwise)),
{
}

/// A direction is reported exactly when one of the two pins changed.
pub proof fn lemma_single_pin_change(a0: bool, b0: bool, a1: bool, b1: bool)
    ensures
        spec_decode(pin_state(a0, b0), pin_state(a1, b1)) is Some <==> ((a0 != a1) != (b0
            != b1)),
{
}

} // verus!
