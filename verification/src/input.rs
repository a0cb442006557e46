//! Snapshots of the input devices, one per frame.

use vstd::prelude::*;

verus! {

/// Which of the four directional keys are held down.
#[derive(Clone, Copy, Debug, PartialEq, Eq, Structural)]
pub struct Keys {
    pub forward: bool,
    pub back: bool,
    pub left: bool,
    pub right: bool,
}

impl Keys {
    /// No key held.
    pub fn none() -> (keys: Keys)
        ensures
            keys == (Keys { forward: false, back: false, left: false, right: false }),
    {
        Keys { forward: false, back: false, left: false, right: false }
    }

    /// A key of the forward/back axis is held together with one of the
    /// left/right axis.
    pub open spec fn spec_diagonal(&self) -> bool {
        (self.forward || self.back) && (self.left || self.right)
    }

    #[verifier::when_used_as_spec(spec_diagonal)]
    pub fn diagonal(&self) -> (d: bool)
        ensures
            d == self.spec_diagonal(),
    {
        (self.forward || self.back) && (self.left || self.right)
    }
}

/// Which of the two actions are held down.
#[derive(Clone, Copy, Debug, PartialEq, Eq, Structural)]
pub struct Mouse {
    pub jump: bool,
    pub fire: bool,
}

/// Remembers whether fire was held on the previous frame, so that a shot is
/// released on the frame where fire goes from up to down and on no other.
#[derive(Clone, Copy, Debug, PartialEq, Eq, Structural)]
pub struct FireTrigger {
    pub held: bool,
}

impl FireTrigger {
    /// A trigger that has not been pulled.
    pub fn new() -> (trigger: FireTrigger)
        ensures
            !trigger.held,
    {
        FireTrigger { held: false }
    }

    /// Whether a frame on which fire is `fire` is a fire edge for a trigger
    /// that was `held` on the frame before.
    pub open spec fn is_edge(held: bool, fire: bool) -> bool {
        fire && !held
    }

    /// Feeds this frame's fire state and says whether it is a fire edge.
    pub fn rising_edge(&mut self, fire: bool) -> (edge: bool)
        ensures
            edge == Self::is_edge(old(self).held, fire),
            final(self).held == fire,
    {
        let edge = fire && !self.held;
        self.held = fire;
        edge
    }
}

/// How many fire edges a run of frames holds, for a trigger that was `held`
/// before the first of them. `fires` gives the fire state frame by frame.
pub open spec fn fire_edges(held: bool, fires: Seq<bool>) -> nat
    decreases fires.len(),
{
    if fires.len() == 0 {
        0
    } else {
        let here: nat = if FireTrigger::is_edge(held, fires[0]) { 1 } else { 0 };
        here + fire_edges(fires[0], fires.skip(1))
    }
}

/// Fire held down over any number of consecutive frames releases one shot,
/// on the first of them, and none at all if fire was already down before.
pub proof fn held_fire_spawns_once(held: bool, fires: Seq<bool>)
    requires
        fires.len() > 0,
        forall|i: int| 0 <= i < fires.len() ==> fires[i],
    ensures
        FireTrigger::is_edge(held, fires[0]) == !held,
        forall|i: int| 1 <= i < fires.len() ==> !FireTrigger::is_edge(#[trigger] fires[i - 1], fires[i]),
        fire_edges(held, fires) == if held { 0nat } else { 1nat },
    decreases fires.len(),
{
    if fires.len() > 1 {
        held_fire_spawns_once(fires[0], fires.skip(1));
    } else {
        assert(fire_edges(fires[0], fires.skip(1)) == 0);
    }
}

} // verus!
