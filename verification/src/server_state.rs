//! Process-wide server state: the supervised child's handle and the shared
//! readiness result.
//!
//! The handle of a spawned child is moved in here exactly once, when its
//! health check succeeds, so that the shutdown hook can reach it. Killing
//! goes through [`kill_sidecar`], which *takes* the handle out: whoever holds
//! the returned handle owns the kill, and every later taker — a second
//! shutdown trigger, a concurrent exit path — gets nothing, so the child is
//! handed out for killing at most once.

use vstd::prelude::*;

use crate::ready::{ReadyCell, ServerReadyData};

verus! {

/// Exclusive ownership of a running child process, reduced to what the
/// orchestration logic reads of it: the process identifier. The type is
/// deliberately not copyable or cloneable — a handle is moved, never
/// duplicated, so holding one means owning the right to kill that child.
pub struct ChildHandle {
    pub pid: u32,
}

/// The state registered for the whole process: the child handle slot and the
/// single-assignment readiness result every awaiter reads.
pub struct ServerState {
    child: Option<ChildHandle>,
    status: ReadyCell,
}

impl ServerState {
    /// The handle currently held, if any.
    pub closed spec fn child_spec(&self) -> Option<ChildHandle> {
        self.child
    }

    /// The shared readiness cell.
    pub closed spec fn status_spec(&self) -> ReadyCell {
        self.status
    }

    pub fn new(child: Option<ChildHandle>, status: ReadyCell) -> (r: ServerState)
        ensures
            r.child_spec() == child,
            r.status_spec() == status,
    {
        ServerState { child, status }
    }

    /// Stores a handle (or clears the slot), dropping whatever was held.
    pub fn set_child(&mut self, child: Option<ChildHandle>)
        ensures
            final(self).child_spec() == child,
            final(self).status_spec() == old(self).status_spec(),
    {
        self.child = child;
    }

    /// Settles the shared readiness result; the first write wins.
    pub fn settle_status(&mut self, v: Result<ServerReadyData, String>) -> (won: bool)
        ensures
            won == !old(self).status_spec().is_settled(),
            final(self).status_spec() == old(self).status_spec().settle_spec(v),
            final(self).status_spec().is_settled(),
            final(self).status_spec().value_spec() == (if old(self).status_spec().is_settled() {
                old(self).status_spec().value_spec()
            } else {
                Some(v)
            }),
            final(self).child_spec() == old(self).child_spec(),
    {
        self.status.settle(v)
    }

    /// Whether the readiness result has settled.
    pub fn status_settled(&self) -> (r: bool)
        ensures
            r == self.status_spec().is_settled(),
    {
        self.status.read().is_some()
    }
}

/// One take-the-child transition, as [`kill_sidecar`] performs it: the
/// caller walks away with whatever the slot held, and the slot is empty.
pub open spec fn take_child_transition(
    pre: ServerState,
    post: ServerState,
    victim: Option<ChildHandle>,
) -> bool {
    &&& victim == pre.child_spec()
    &&& post.child_spec() is None
    &&& post.status_spec() == pre.status_spec()
}

/// Takes exclusive ownership of the supervised child, if one is registered,
/// so the caller can kill it. The slot is left empty, so a second trigger of
/// the shutdown path receives `None` and does nothing — the handle, and with
/// it the kill, is handed out at most once per spawn.
pub fn kill_sidecar(state: &mut ServerState) -> (victim: Option<ChildHandle>)
    ensures
        take_child_transition(*old(state), *final(state), victim),
{
    let mut victim: Option<ChildHandle> = None;
    core::mem::swap(&mut victim, &mut state.child);
    victim
}

/// However often shutdown is triggered, at most one trigger walks away with
/// the child's handle: after any take, every later take yields `None`.
pub proof fn law_kill_at_most_once(
    s0: ServerState,
    s1: ServerState,
    s2: ServerState,
    v1: Option<ChildHandle>,
    v2: Option<ChildHandle>,
)
    requires
        take_child_transition(s0, s1, v1),
        take_child_transition(s1, s2, v2),
    ensures
        v2 is None,
        !(v1 is Some && v2 is Some),
{
}

/// The UI-facing await: once the readiness result has settled, every call
/// yields that same settled value.
pub fn await_initialization(state: &ServerState) -> (r: Result<ServerReadyData, String>)
    requires
        state.status_spec().is_settled(),
    ensures
        Some(r) == state.status_spec().value_spec(),
{
    state.status.get()
}

} // verus!
