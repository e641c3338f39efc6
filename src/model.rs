//! An abstract model of the shared cells, in which each atomic write of the
//! protocol is one step.
//!
//! Every thread's lookups find the same pair of addresses (`fw`, `fk`, 0 when a
//! symbol is missing). The steps are:
//! - `FailPublish`: after a failed lookup, the compare-and-set of the status
//!   from `NOT_INIT` to `BAD_INIT`;
//! - `StoreWait` / `StoreWake`: after a complete lookup, the compare-and-set of
//!   a slot from 0 to its address;
//! - `PublishGood`: after a thread's two slot writes, the release store of
//!   `GOOD_INIT` (by then neither slot is 0, since slots are never cleared).
//! In this model an interleaving of the threads is a sequence of enabled
//! steps, and the lemmas below are proved of the model. That the atomic
//! writes of `ULockCells::publish` are exactly these steps is seen by reading
//! the two side by side: nothing here proves it, since the values held by
//! `core::sync::atomic` cells are not visible to the verifier.
use crate::error::ApiUnsupported;
use crate::status::{
    failure_outcome_spec, next_spec, resolved_spec, Next, BAD_INIT, GOOD_INIT, NOT_INIT,
};
use vstd::prelude::*;

verus! {

/// The contents of the three cells at one moment.
#[derive(Clone, Copy, Debug, PartialEq, Eq, Structural)]
pub struct CellsModel {
    pub status: u8,
    pub ulock_wait: usize,
    pub ulock_wake: usize,
}

/// One atomic write of the protocol.
#[derive(Clone, Copy, Debug, PartialEq, Eq, Structural)]
pub enum Action {
    FailPublish,
    StoreWait,
    StoreWake,
    PublishGood,
}

impl CellsModel {
    /// The cells as they are at process start.
    pub open spec fn initial() -> CellsModel {
        CellsModel { status: NOT_INIT, ulock_wait: 0, ulock_wake: 0 }
    }

    /// Whether a thread whose lookups found `fw` and `fk` can take step `a` now.
    pub open spec fn enabled(self, a: Action, fw: usize, fk: usize) -> bool {
        match a {
            Action::FailPublish => !resolved_spec(fw, fk),
            Action::StoreWait => resolved_spec(fw, fk),
            Action::StoreWake => resolved_spec(fw, fk),
            Action::PublishGood => resolved_spec(fw, fk) && self.ulock_wait != 0
                && self.ulock_wake != 0,
        }
    }

    /// The cells after step `a` by a thread whose lookups found `fw` and `fk`.
    pub open spec fn step(self, a: Action, fw: usize, fk: usize) -> CellsModel {
        match a {
            Action::FailPublish => if self.status == NOT_INIT {
                CellsModel { status: BAD_INIT, ..self }
            } else {
                self
            },
            Action::StoreWait => if self.ulock_wait == 0 {
                CellsModel { ulock_wait: fw, ..self }
            } else {
                self
            },
            Action::StoreWake => if self.ulock_wake == 0 {
                CellsModel { ulock_wake: fk, ..self }
            } else {
                self
            },
            Action::PublishGood => CellsModel { status: GOOD_INIT, ..self },
        }
    }

    /// What holds of the cells in every state reachable from `initial` when
    /// the lookups find `fw` and `fk`.
    pub open spec fn consistent(self, fw: usize, fk: usize) -> bool {
        &&& self.status == NOT_INIT || self.status == BAD_INIT || self.status == GOOD_INIT
        &&& self.ulock_wait == 0 || self.ulock_wait == fw
        &&& self.ulock_wake == 0 || self.ulock_wake == fk
        &&& !resolved_spec(fw, fk) ==> self.ulock_wait == 0 && self.ulock_wake == 0
        &&& self.status == GOOD_INIT ==> self.ulock_wait != 0 && self.ulock_wake != 0
        &&& self.status == BAD_INIT ==> !resolved_spec(fw, fk)
    }
}

/// The cells at process start are consistent, whatever the lookups find.
pub proof fn lemma_initial_consistent(fw: usize, fk: usize)
    ensures
        CellsModel::initial().consistent(fw, fk),
{
}

/// Every enabled step keeps the modelled cells consistent, so every sequence
/// of enabled steps from the initial cells does.
pub proof fn lemma_step_keeps_consistent(c: CellsModel, a: Action, fw: usize, fk: usize)
    requires
        c.consistent(fw, fk),
        c.enabled(a, fw, fk),
    ensures
        c.step(a, fw, fk).consistent(fw, fk),
{
}

/// No state shows the status as succeeded while a slot is still unresolved:
/// a succeeded status comes with both slots holding the looked-up addresses.
pub proof fn lemma_no_partial_visibility(c: CellsModel, fw: usize, fk: usize)
    requires
        c.consistent(fw, fk),
    ensures
        c.status == GOOD_INIT ==> c.ulock_wait == fw && c.ulock_wake == fk && fw != 0 && fk
            != 0,
{
}

/// Every caller reaches the same outcome, success exactly when both symbols
/// were found: both from a settled status it reads, and from the state its
/// failed publication finds.
pub proof fn lemma_single_outcome(c: CellsModel, fw: usize, fk: usize)
    requires
        c.consistent(fw, fk),
    ensures
        next_spec(c.status) matches Next::Ready(r) ==> (r is Ok <==> resolved_spec(fw, fk)),
        !resolved_spec(fw, fk) ==> failure_outcome_spec(c.status) == Err::<(), ApiUnsupported>(
            ApiUnsupported {},
        ),
{
}

/// Once the status is succeeded, a caller returns success without a lookup,
/// and no step changes any cell again.
pub proof fn lemma_success_is_final(c: CellsModel, a: Action, fw: usize, fk: usize)
    requires
        c.consistent(fw, fk),
        c.status == GOOD_INIT,
        c.enabled(a, fw, fk),
    ensures
        next_spec(c.status) == Next::Ready(Ok::<(), ApiUnsupported>(())),
        c.step(a, fw, fk) == c,
{
}

/// Once the status is failed, a caller returns the error without a lookup,
/// and the status stays failed; a failed publication keeps it failed even
/// for a thread whose lookups would now succeed.
pub proof fn lemma_failure_is_final(
    c: CellsModel,
    a: Action,
    fw: usize,
    fk: usize,
    later_w: usize,
    later_k: usize,
)
    requires
        c.consistent(fw, fk),
        c.status == BAD_INIT,
        c.enabled(a, fw, fk),
    ensures
        next_spec(c.status) == Next::Ready(Err::<(), ApiUnsupported>(ApiUnsupported {})),
        c.step(a, fw, fk).status == BAD_INIT,
        c.step(Action::FailPublish, later_w, later_k).status == BAD_INIT,
{
}

} // verus!
