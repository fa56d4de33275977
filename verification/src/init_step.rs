//! Initialization progress, broadcast as a watch-style signal.
//!
//! The orchestrator advances a tiny sequential state machine
//! `ServerWaiting -> SqliteWaiting? -> Done` and publishes each step. A
//! subscriber sees the current step the moment it attaches and then some of
//! the later steps in order (a watch signal keeps no backlog, so steps may be
//! coalesced but never reordered). [`Progress`] records the full emission
//! history as ghost state so the broadcast guarantees are stated and proved
//! over it: the history only ever climbs, and `Done` is emitted exactly once,
//! as the last step of the run.

use vstd::prelude::*;

verus! {

/// One step of initialization progress, in the order the run goes through
/// them. `SqliteWaiting` appears only when the secondary-storage wait is
/// enabled and not yet satisfied.
#[derive(Clone, Copy, Debug, PartialEq, Eq, Structural)]
pub enum InitStep {
    ServerWaiting,
    SqliteWaiting,
    Done,
}

/// Where a step stands in the fixed progression.
pub open spec fn step_rank(s: InitStep) -> int {
    match s {
        InitStep::ServerWaiting => 0,
        InitStep::SqliteWaiting => 1,
        InitStep::Done => 2,
    }
}

/// The sequence never goes backwards in the progression order.
pub open spec fn monotone(h: Seq<InitStep>) -> bool {
    forall|i: int, j: int|
        0 <= i <= j < h.len() ==> step_rank(#[trigger] h[i]) <= step_rank(#[trigger] h[j])
}

/// `Done` can only stand at the very end of the sequence.
pub open spec fn done_only_last(h: Seq<InitStep>) -> bool {
    forall|i: int| 0 <= i < h.len() && #[trigger] h[i] is Done ==> i == h.len() - 1
}

/// The single-writer progress signal: the current step, plus the ghost
/// history of every step emitted so far (the earliest first).
pub struct Progress {
    current: InitStep,
    history: Ghost<Seq<InitStep>>,
}

impl Progress {
    pub closed spec fn current_spec(&self) -> InitStep {
        self.current
    }

    /// Every step emitted so far, in emission order.
    pub closed spec fn history(&self) -> Seq<InitStep> {
        self.history@
    }

    /// The signal's invariant: the history starts with the initial step,
    /// ends at the current one, only ever climbs, and holds `Done` at most
    /// once — as its final entry.
    pub open spec fn wf(&self) -> bool {
        &&& self.history().len() >= 1
        &&& self.history().first() == InitStep::ServerWaiting
        &&& self.history().last() == self.current_spec()
        &&& monotone(self.history())
        &&& done_only_last(self.history())
    }

    /// A fresh signal: `ServerWaiting` has just been emitted.
    pub fn new() -> (r: Progress)
        ensures
            r.wf(),
            r.current_spec() == InitStep::ServerWaiting,
            r.history() == seq![InitStep::ServerWaiting],
    {
        let ghost h: Seq<InitStep> = seq![InitStep::ServerWaiting];
        Progress { current: InitStep::ServerWaiting, history: Ghost(h) }
    }

    /// The step a subscriber observes the moment it attaches.
    pub fn current(&self) -> (s: InitStep)
        ensures
            s == self.current_spec(),
    {
        self.current
    }

    /// Emits the next step. Transitions are push-only: the new step must lie
    /// strictly further along than the current one, so no emission ever
    /// regresses and nothing follows `Done`.
    pub fn advance(&mut self, to: InitStep)
        requires
            old(self).wf(),
            step_rank(to) > step_rank(old(self).current_spec()),
        ensures
            final(self).wf(),
            final(self).current_spec() == to,
            final(self).history() == old(self).history().push(to),
    {
        proof {
            let h = self.history@;
            assert forall|i: int, j: int| 0 <= i <= j < h.push(to).len() implies step_rank(
                #[trigger] h.push(to)[i],
            ) <= step_rank(#[trigger] h.push(to)[j]) by {
                if j < h.len() {
                    assert(h.push(to)[i] == h[i] && h.push(to)[j] == h[j]);
                } else if i < h.len() {
                    assert(h.push(to)[i] == h[i] && h.push(to)[j] == to);
                    assert(step_rank(h[i]) <= step_rank(h.last()));
                }
            }
            assert forall|i: int|
                0 <= i < h.push(to).len() && #[trigger] h.push(to)[i] is Done implies i == h.push(
                to,
            ).len() - 1 by {
                if i < h.len() {
                    assert(h.push(to)[i] == h[i]);
                    assert(step_rank(h[i]) <= step_rank(h.last()));
                    assert(!(h.last() is Done));
                }
            }
        }
        let ghost h2: Seq<InitStep> = self.history@.push(to);
        self.current = to;
        self.history = Ghost(h2);
    }
}

/// `Done` is emitted exactly once per run: an emission is `Done` precisely
/// when it is the final one of a run that has completed.
pub proof fn law_done_emitted_exactly_once(p: Progress)
    requires
        p.wf(),
    ensures
        forall|i: int|
            0 <= i < p.history().len() ==> ((#[trigger] p.history()[i]) is Done <==> (i
                == p.history().len() - 1 && p.current_spec() is Done)),
{
}

/// What a subscriber observes: it attaches while the run is underway and
/// receives the steps at some strictly climbing set of history positions
/// (the current value at attach time, then later changes, possibly
/// coalesced — a watch signal queues nothing, but never reorders).
pub open spec fn observed(h: Seq<InitStep>, positions: Seq<int>) -> Seq<InitStep> {
    Seq::new(positions.len(), |k: int| h[positions[k]])
}

/// Positions that are in range and strictly climbing.
pub open spec fn valid_positions(h: Seq<InitStep>, positions: Seq<int>) -> bool {
    forall|k: int, l: int|
        0 <= k <= l < positions.len() ==> {
            &&& 0 <= #[trigger] positions[k] <= #[trigger] positions[l] < h.len()
            &&& (k < l ==> positions[k] < positions[l])
        }
}

/// Every subscriber observes a non-decreasing sequence of steps, and sees
/// `Done` at most once — only as the last step it ever observes.
pub proof fn law_observed_monotone(p: Progress, positions: Seq<int>)
    requires
        p.wf(),
        valid_positions(p.history(), positions),
    ensures
        monotone(observed(p.history(), positions)),
        done_only_last(observed(p.history(), positions)),
{
    let h = p.history();
    let o = observed(h, positions);
    assert forall|i: int, j: int| 0 <= i <= j < o.len() implies step_rank(#[trigger] o[i])
        <= step_rank(#[trigger] o[j]) by {
        assert(0 <= positions[i] <= positions[j] < h.len());
        assert(o[i] == h[positions[i]] && o[j] == h[positions[j]]);
    }
    assert forall|i: int| 0 <= i < o.len() && #[trigger] o[i] is Done implies i == o.len() - 1 by {
        assert(o[i] == h[positions[i]]);
        assert(positions[i] == h.len() - 1);
        if i < o.len() - 1 {
            assert(positions[i] < positions[o.len() - 1] < h.len());
        }
    }
}

} // verus!
