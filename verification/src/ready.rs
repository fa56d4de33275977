//! The single-assignment "server ready" result.
//!
//! The orchestrator settles this cell exactly once — either with the URL and
//! optional credential of a healthy server, or with an error message carrying
//! the captured log tail. Every awaiter reads the same settled value no
//! matter when it attaches and no matter how many later writes are attempted:
//! the first write wins and all others are no-ops.

use vstd::prelude::*;

verus! {

/// What a ready server looks like to the UI layer: where to reach it and,
/// for a freshly spawned server, the shared-secret credential.
#[derive(Debug)]
pub struct ServerReadyData {
    pub url: String,
    pub password: Option<String>,
}

/// Copies a ready-or-error value field by field, preserving it exactly.
pub fn clone_ready_result(v: &Result<ServerReadyData, String>) -> (r: Result<
    ServerReadyData,
    String,
>)
    ensures
        r == *v,
{
    match v {
        Ok(d) => {
            let password = match &d.password {
                Some(p) => Some(p.clone()),
                None => None,
            };
            Ok(ServerReadyData { url: d.url.clone(), password })
        },
        Err(e) => Err(e.clone()),
    }
}

/// A one-shot, broadcast-readable result cell: unset until the first
/// `settle`, and from then on pinned to that first value forever.
pub struct ReadyCell {
    value: Option<Result<ServerReadyData, String>>,
}

impl ReadyCell {
    /// The settled value, if any.
    pub closed spec fn value_spec(&self) -> Option<Result<ServerReadyData, String>> {
        self.value
    }

    pub open spec fn is_settled(&self) -> bool {
        self.value_spec() is Some
    }

    /// The cell left after one attempted write: the first write sticks,
    /// every later one is a no-op.
    pub closed spec fn settle_spec(self, v: Result<ServerReadyData, String>) -> ReadyCell {
        if self.is_settled() {
            self
        } else {
            ReadyCell { value: Some(v) }
        }
    }

    /// What one attempted write leaves in the cell: the old value where one
    /// was already settled, the written value otherwise.
    pub proof fn lemma_settle_spec(self, v: Result<ServerReadyData, String>)
        ensures
            self.settle_spec(v).value_spec() == (if self.is_settled() {
                self.value_spec()
            } else {
                Some(v)
            }),
    {
    }

    /// A fresh, unsettled cell.
    pub fn new() -> (r: ReadyCell)
        ensures
            !r.is_settled(),
    {
        ReadyCell { value: None }
    }

    /// Attempts to settle the cell. Returns whether this write was the one
    /// that settled it; a write to an already-settled cell changes nothing.
    pub fn settle(&mut self, v: Result<ServerReadyData, String>) -> (won: bool)
        ensures
            won == !old(self).is_settled(),
            *final(self) == old(self).settle_spec(v),
            final(self).is_settled(),
            final(self).value_spec() == (if old(self).is_settled() {
                old(self).value_spec()
            } else {
                Some(v)
            }),
    {
        match &self.value {
            Some(_) => false,
            None => {
                self.value = Some(v);
                true
            },
        }
    }

    /// Reads the current value. Reading never changes the cell, so any two
    /// reads of a settled cell yield the identical value.
    pub fn read(&self) -> (r: &Option<Result<ServerReadyData, String>>)
        ensures
            *r == self.value_spec(),
    {
        &self.value
    }

    /// A copy of the settled value.
    pub fn get(&self) -> (r: Result<ServerReadyData, String>)
        requires
            self.is_settled(),
        ensures
            Some(r) == self.value_spec(),
    {
        match &self.value {
            Some(v) => clone_ready_result(v),
            None => vstd::pervasive::unreached(),
        }
    }
}

/// The cell left after a whole run of attempted writes, applied in order.
pub open spec fn settle_all(c: ReadyCell, vs: Seq<Result<ServerReadyData, String>>) -> ReadyCell
    decreases vs.len(),
{
    if vs.len() == 0 {
        c
    } else {
        settle_all(c.settle_spec(vs[0]), vs.drop_first())
    }
}

/// First write wins: whatever writes arrive after a cell settles, every
/// awaiter observes the value of the first write. So awaiting the result is
/// idempotent — the cell is settled at most once per run.
pub proof fn law_first_write_wins(c: ReadyCell, vs: Seq<Result<ServerReadyData, String>>)
    requires
        !c.is_settled(),
        vs.len() > 0,
    ensures
        settle_all(c, vs).value_spec() == Some(vs[0]),
{
    lemma_settled_stays(c.settle_spec(vs[0]), vs.drop_first());
}

/// A settled cell is inert: no later run of writes moves its value.
pub proof fn lemma_settled_stays(c: ReadyCell, vs: Seq<Result<ServerReadyData, String>>)
    requires
        c.is_settled(),
    ensures
        settle_all(c, vs) == c,
    decreases vs.len(),
{
    if vs.len() > 0 {
        lemma_settled_stays(c.settle_spec(vs[0]), vs.drop_first());
    }
}

} // verus!
