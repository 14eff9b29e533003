//! The player's keys, and the thrust adjustments they call for in one frame.
use vstd::prelude::*;

verus! {

/// The directional keys held during one frame.
#[derive(Clone, Copy, Debug, PartialEq, Eq)]
pub struct Keys {
    pub turn_left: bool,
    pub turn_right: bool,
    pub throttle_up: bool,
    pub throttle_down: bool,
}

/// One change to the player's thrust, scaled by the frame's elapsed time
/// and by the turn or throttle rate when it is applied.
#[derive(Clone, Copy, Debug, PartialEq, Eq)]
pub enum Adjust {
    /// Heading decreases by the turn rate times the elapsed time.
    TurnLeft,
    /// Heading increases by the turn rate times the elapsed time.
    TurnRight,
    /// Magnitude increases by the throttle rate times the elapsed time.
    ThrottleUp,
    /// Magnitude decreases by the throttle rate times the elapsed time.
    ThrottleDown,
}

impl Adjust {
    pub open spec fn heading_sign_spec(self) -> int {
        match self {
            Adjust::TurnLeft => -1,
            Adjust::TurnRight => 1,
            _ => 0,
        }
    }

    pub open spec fn throttle_sign_spec(self) -> int {
        match self {
            Adjust::ThrottleUp => 1,
            Adjust::ThrottleDown => -1,
            _ => 0,
        }
    }

    /// The direction in which this adjustment moves the heading: -1, 0 or 1.
    pub fn heading_sign(&self) -> (r: i8)
        ensures
            r == self.heading_sign_spec(),
    {
        match self {
            Adjust::TurnLeft => -1,
            Adjust::TurnRight => 1,
            _ => 0,
        }
    }

    /// The direction in which this adjustment moves the magnitude: -1, 0 or 1.
    pub fn throttle_sign(&self) -> (r: i8)
        ensures
            r == self.throttle_sign_spec(),
    {
        match self {
            Adjust::ThrottleUp => 1,
            Adjust::ThrottleDown => -1,
            _ => 0,
        }
    }
}

pub open spec fn when(held: bool, a: Adjust) -> Seq<Adjust> {
    if held {
        seq![a]
    } else {
        Seq::empty()
    }
}

/// The adjustments of one frame, in the order they are applied: turning
/// left, turning right, throttling up, throttling down, each where its key
/// is held.
pub open spec fn held(keys: Keys) -> Seq<Adjust> {
    when(keys.turn_left, Adjust::TurnLeft) + when(keys.turn_right, Adjust::TurnRight) + when(
        keys.throttle_up,
        Adjust::ThrottleUp,
    ) + when(keys.throttle_down, Adjust::ThrottleDown)
}

/// Net number of heading steps in a sequence of adjustments.
pub open spec fn net_heading(s: Seq<Adjust>) -> int
    decreases s.len(),
{
    if s.len() == 0 {
        0
    } else {
        net_heading(s.drop_last()) + s.last().heading_sign_spec()
    }
}

/// Net number of throttle steps in a sequence of adjustments.
pub open spec fn net_throttle(s: Seq<Adjust>) -> int
    decreases s.len(),
{
    if s.len() == 0 {
        0
    } else {
        net_throttle(s.drop_last()) + s.last().throttle_sign_spec()
    }
}

/// The adjustments that the held keys call for, in the order they apply.
/// Every held key contributes; none overrides another.
pub fn adjustments(keys: Keys) -> (r: Vec<Adjust>)
    ensures
        r@ == held(keys),
{
    let mut r: Vec<Adjust> = Vec::new();
    if keys.turn_left {
        r.push(Adjust::TurnLeft);
    }
    if keys.turn_right {
        r.push(Adjust::TurnRight);
    }
    if keys.throttle_up {
        r.push(Adjust::ThrottleUp);
    }
    if keys.throttle_down {
        r.push(Adjust::ThrottleDown);
    }
    assert(r@ =~= held(keys));
    r
}

proof fn lemma_net_append(s: Seq<Adjust>, t: Seq<Adjust>)
    ensures
        net_heading(s + t) == net_heading(s) + net_heading(t),
        net_throttle(s + t) == net_throttle(s) + net_throttle(t),
    decreases t.len(),
{
    if t.len() == 0 {
        assert(s + t =~= s);
    } else {
        lemma_net_append(s, t.drop_last());
        assert((s + t).drop_last() =~= s + t.drop_last());
    }
}

/// Held keys accumulate: within one frame the heading moves by one step
/// right for each turn-right and one step left for each turn-left, the
/// magnitude by one step up for throttle-up and one down for throttle-down,
/// and turning never touches the magnitude nor throttling the heading.
pub proof fn lemma_keys_accumulate(keys: Keys)
    ensures
        net_heading(held(keys)) == (if keys.turn_right { 1int } else { 0 }) - (if keys.turn_left {
            1int
        } else {
            0
        }),
        net_throttle(held(keys)) == (if keys.throttle_up { 1int } else { 0 }) - (
        if keys.throttle_down {
            1int
        } else {
            0
        }),
{
    let l = when(keys.turn_left, Adjust::TurnLeft);
    let r = when(keys.turn_right, Adjust::TurnRight);
    let u = when(keys.throttle_up, Adjust::ThrottleUp);
    let d = when(keys.throttle_down, Adjust::ThrottleDown);
    assert(net_heading(seq![Adjust::TurnLeft].drop_last()) == 0);
    assert(net_heading(seq![Adjust::TurnRight].drop_last()) == 0);
    assert(net_heading(seq![Adjust::ThrottleUp].drop_last()) == 0);
    assert(net_heading(seq![Adjust::ThrottleDown].drop_last()) == 0);
    assert(net_throttle(seq![Adjust::TurnLeft].drop_last()) == 0);
    assert(net_throttle(seq![Adjust::TurnRight].drop_last()) == 0);
    assert(net_throttle(seq![Adjust::ThrottleUp].drop_last()) == 0);
    assert(net_throttle(seq![Adjust::ThrottleDown].drop_last()) == 0);
    lemma_net_append(l, r);
    lemma_net_append(l + r, u);
    lemma_net_append(l + r + u, d);
}

} // verus!
