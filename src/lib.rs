//! Lazily resolved access to the ulock wait and wake functions.
//!
//! The two function addresses are looked up at most a few times per process,
//! cached in word-sized atomic slots, and guarded by a tri-state status cell
//! that moves once from "not initialised" to "failed" or "succeeded".
mod error;
mod lazy;
mod model;
mod status;

pub use error::ApiUnsupported;
pub use lazy::{
    call_wait_slot, call_wake_slot, ulock_wait, ulock_wake, wait_after_ready, wake_after_ready,
    ULockApi, ULockCells,
};
pub use model::{
    lemma_failure_is_final, lemma_initial_consistent, lemma_no_partial_visibility,
    lemma_single_outcome, lemma_step_keeps_consistent, lemma_success_is_final, Action, CellsModel,
};
pub use status::{
    failure_outcome, next_after_status, resolved, InitState, Next, Symbol, BAD_INIT, GOOD_INIT,
    NOT_INIT,
};
