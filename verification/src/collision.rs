//! The collision flag: whether the player is touching another body, as far as
//! the most recent contact notification tells.

use vstd::prelude::*;

verus! {

/// A contact transition between the player and another body.
#[derive(Clone, Copy, Debug, PartialEq, Eq, Structural)]
pub enum ContactEvent {
    Started,
    Stopped,
}

impl ContactEvent {
    /// The flag value this notification leaves behind: false for a contact
    /// that ended, true for any other.
    pub open spec fn spec_touching(self) -> bool {
        self != ContactEvent::Stopped
    }

    #[verifier::when_used_as_spec(spec_touching)]
    pub fn touching(self) -> (t: bool)
        ensures
            t == self.spec_touching(),
    {
        match self {
            ContactEvent::Stopped => false,
            _ => true,
        }
    }
}

/// The flag after `events` have been seen in order, starting from `flag`:
/// the last notification decides, and without one the flag stays.
pub open spec fn flag_after(flag: bool, events: Seq<ContactEvent>) -> bool {
    if events.len() == 0 {
        flag
    } else {
        events.last().spec_touching()
    }
}

/// Per-simulation collision state. It is a single flag, not a count:
/// overlapping contacts collapse into the latest transition.
#[derive(Clone, Copy, Debug, PartialEq, Eq, Structural)]
pub struct CollisionState {
    pub flag: bool,
}

impl CollisionState {
    /// The state at start-up: the player counts as touching.
    pub fn new() -> (state: CollisionState)
        ensures
            state.flag,
    {
        CollisionState { flag: true }
    }

    pub fn is_colliding(&self) -> (c: bool)
        ensures
            c == self.flag,
    {
        self.flag
    }

    /// Consumes one frame's notifications in arrival order.
    pub fn observe(&mut self, events: &[ContactEvent])
        ensures
            final(self).flag == flag_after(old(self).flag, events@),
    {
        let ghost before = self.flag;
        let mut i: usize = 0;
        while i < events.len()
            invariant
                i <= events.len(),
                self.flag == flag_after(before, events@.take(i as int)),
            decreases events.len() - i,
        {
            set_collisions(self, events[i].touching());
            i += 1;
        }
        assert(events@.take(i as int) == events@);
    }
}

/// Overwrites the collision flag.
pub fn set_collisions(state: &mut CollisionState, collision_stat: bool)
    ensures
        final(state).flag == collision_stat,
{
    if collision_stat {
        state.flag = true;
    } else {
        state.flag = false;
    }
}

/// Last write wins: once a notification has arrived, nothing seen before it
/// matters.
pub proof fn last_notification_decides(flag: bool, earlier: Seq<ContactEvent>, last: ContactEvent)
    ensures
        flag_after(flag, earlier.push(last)) == last.spec_touching(),
        flag_after(flag, earlier.push(last)) == flag_after(!flag, earlier.push(last)),
{
}

/// Seeing two batches one after the other is seeing their concatenation.
pub proof fn batches_compose(flag: bool, first: Seq<ContactEvent>, second: Seq<ContactEvent>)
    ensures
        flag_after(flag_after(flag, first), second) == flag_after(flag, first + second),
{
    if second.len() == 0 {
        assert(first + second == first);
    } else {
        assert((first + second).last() == second.last());
    }
}

} // verus!
