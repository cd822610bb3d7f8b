//! How long a write keeps serving what it offered.
//!
//! A selection is owned by whoever wrote to it last. While this process
//! owns one, it answers the paste requests of other applications, until
//! another application takes the selection. The platform drives that last
//! step; this module only says what follows from it.

use vstd::prelude::*;

use crate::common::WaitConfig;

verus! {

/// What this process is to a selection.
#[derive(Debug, Clone, Copy, PartialEq, Eq, Structural)]
pub enum Ownership {
    /// Nothing on the selection comes from this process.
    Idle,
    /// This process installed the content and answers paste requests.
    Offering,
    /// Another application wrote to the selection, or cleared it.
    Superseded,
}

/// What happens to a selection.
#[derive(Debug, Clone, Copy, PartialEq, Eq, Structural)]
pub enum OwnershipEvent {
    /// A write of this process installed its content.
    Installed,
    /// Another application took the selection.
    Taken,
    /// What served the old content has let go of it.
    Released,
}

/// What the thread that made a write does.
#[derive(Debug, Clone, Copy, PartialEq, Eq, Structural)]
pub enum CallAction {
    /// It goes on serving paste requests; the call has not returned.
    Serve,
    /// The call returns. If the content is still offered, a detached
    /// holder serves it.
    Return,
}

/// The state after an event. A write installs its content whatever was
/// there; a selection is taken only from the one who offers; and only what
/// was superseded is released.
pub open spec fn after(state: Ownership, event: OwnershipEvent) -> Ownership {
    match event {
        OwnershipEvent::Installed => Ownership::Offering,
        OwnershipEvent::Taken => if state == Ownership::Offering {
            Ownership::Superseded
        } else {
            state
        },
        OwnershipEvent::Released => if state == Ownership::Superseded {
            Ownership::Idle
        } else {
            state
        },
    }
}

/// What the writing thread does in a state: it serves as long as it offers
/// and was told to wait, and returns else.
pub open spec fn action_in(state: Ownership, wait: WaitConfig) -> CallAction {
    if state == Ownership::Offering && wait == WaitConfig::Forever {
        CallAction::Serve
    } else {
        CallAction::Return
    }
}

/// The state after a sequence of events.
pub open spec fn after_all(state: Ownership, events: Seq<OwnershipEvent>) -> Ownership
    decreases events.len(),
{
    if events.len() == 0 {
        state
    } else {
        after(after_all(state, events.drop_last()), events.last())
    }
}

/// Takes an event: the state that follows, and what the thread that made
/// the write does in it.
pub fn on_event(state: Ownership, wait: WaitConfig, event: OwnershipEvent) -> (next: (
    Ownership,
    CallAction,
))
    ensures
        next.0 == after(state, event),
        next.1 == action_in(next.0, wait),
{
    let state = match event {
        OwnershipEvent::Installed => Ownership::Offering,
        OwnershipEvent::Taken => match state {
            Ownership::Offering => Ownership::Superseded,
            other => other,
        },
        OwnershipEvent::Released => match state {
            Ownership::Superseded => Ownership::Idle,
            other => other,
        },
    };
    let action = match (state, wait) {
        (Ownership::Offering, WaitConfig::Forever) => CallAction::Serve,
        _ => CallAction::Return,
    };
    (state, action)
}

/// A write that waits ends when the selection is taken, and by nothing
/// else: after its content is installed, and whatever the platform reports
/// from then on, the call has returned exactly if the selection was taken.
pub proof fn lemma_waits_until_taken(events: Seq<OwnershipEvent>)
    requires
        forall|i: int| 0 <= i < events.len() ==> events[i] != OwnershipEvent::Installed,
    ensures
        action_in(after_all(Ownership::Offering, events), WaitConfig::Forever) == CallAction::Return
            <==> exists|i: int| 0 <= i < events.len() && events[i] == OwnershipEvent::Taken,
    decreases events.len(),
{
    if events.len() > 0 {
        let front = events.drop_last();
        lemma_waits_until_taken(front);
        let taken_before = exists|i: int| 0 <= i < front.len() && front[i] == OwnershipEvent::Taken;
        if taken_before {
            let i = choose|i: int| 0 <= i < front.len() && front[i] == OwnershipEvent::Taken;
            assert(events[i] == OwnershipEvent::Taken);
        }
        if events.last() == OwnershipEvent::Taken {
            assert(events[events.len() - 1] == OwnershipEvent::Taken);
        }
        if exists|i: int| 0 <= i < events.len() && events[i] == OwnershipEvent::Taken {
            let i = choose|i: int| 0 <= i < events.len() && events[i] == OwnershipEvent::Taken;
            if i < front.len() {
                assert(front[i] == OwnershipEvent::Taken);
            }
        }
    }
}

/// A write that does not wait returns at once, in every state.
pub proof fn lemma_returns_at_once(state: Ownership)
    ensures
        action_in(state, WaitConfig::Immediate) == CallAction::Return,
{
}

} // verus!
