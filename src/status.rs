use crate::error::ApiUnsupported;
use vstd::prelude::*;

verus! {

/// Status code: resolution has not been attempted to completion yet.
pub const NOT_INIT: u8 = 0;

/// Status code: resolution ran and at least one symbol was missing.
pub const BAD_INIT: u8 = 1;

/// Status code: both slots hold resolved addresses.
pub const GOOD_INIT: u8 = 2;

/// The three states of the status cell.
#[derive(Clone, Copy, Debug, PartialEq, Eq, Structural)]
pub enum InitState {
    NotInit,
    BadInit,
    GoodInit,
}

impl InitState {
    pub open spec fn code_spec(self) -> u8 {
        match self {
            InitState::NotInit => NOT_INIT,
            InitState::BadInit => BAD_INIT,
            InitState::GoodInit => GOOD_INIT,
        }
    }

    pub open spec fn from_code_spec(v: u8) -> Option<InitState> {
        if v == NOT_INIT {
            Some(InitState::NotInit)
        } else if v == BAD_INIT {
            Some(InitState::BadInit)
        } else if v == GOOD_INIT {
            Some(InitState::GoodInit)
        } else {
            None
        }
    }

    /// The byte stored in the status cell for this state.
    pub fn code(&self) -> (r: u8)
        ensures
            r == self.code_spec(),
    {
        match self {
            InitState::NotInit => NOT_INIT,
            InitState::BadInit => BAD_INIT,
            InitState::GoodInit => GOOD_INIT,
        }
    }

    /// The state a status byte stands for; `None` for a byte that no state uses.
    pub fn from_code(v: u8) -> (r: Option<InitState>)
        ensures
            r == Self::from_code_spec(v),
            r matches Some(s) ==> s.code_spec() == v,
    {
        if v == NOT_INIT {
            Some(InitState::NotInit)
        } else if v == BAD_INIT {
            Some(InitState::BadInit)
        } else if v == GOOD_INIT {
            Some(InitState::GoodInit)
        } else {
            None
        }
    }
}

/// What a caller does after reading the status cell.
#[derive(Clone, Copy, Debug, PartialEq, Eq)]
pub enum Next {
    /// The outcome is settled; return it.
    Ready(Result<(), ApiUnsupported>),
    /// Nothing is settled yet; look the symbols up and publish the result.
    Resolve,
}

/// The decision on a status byte read with acquire ordering.
///
/// A byte outside the three codes can only come from a corrupted cell; it is
/// reported as unsupported rather than trusted.
pub open spec fn next_spec(status: u8) -> Next {
    if status == GOOD_INIT {
        Next::Ready(Ok(()))
    } else if status == NOT_INIT {
        Next::Resolve
    } else {
        Next::Ready(Err(ApiUnsupported {}))
    }
}

/// The outcome reported after a failed lookup, given the status byte that the
/// compare-and-set from `NOT_INIT` to `BAD_INIT` found in the cell: the state a
/// winning thread published is adopted.
pub open spec fn failure_outcome_spec(prev: u8) -> Result<(), ApiUnsupported> {
    if prev == GOOD_INIT {
        Ok(())
    } else {
        Err(ApiUnsupported {})
    }
}

/// Whether a pair of looked-up addresses is a complete resolution.
pub open spec fn resolved_spec(found_wait: usize, found_wake: usize) -> bool {
    found_wait != 0 && found_wake != 0
}

/// Decides what to do on a status byte.
pub fn next_after_status(status: u8) -> (r: Next)
    ensures
        r == next_spec(status),
{
    match InitState::from_code(status) {
        Some(InitState::GoodInit) => Next::Ready(Ok(())),
        Some(InitState::NotInit) => Next::Resolve,
        Some(InitState::BadInit) => Next::Ready(Err(ApiUnsupported::new())),
        None => Next::Ready(Err(ApiUnsupported::new())),
    }
}

/// The outcome to report after publishing a failure, from the byte that the
/// compare-and-set observed.
pub fn failure_outcome(prev: u8) -> (r: Result<(), ApiUnsupported>)
    ensures
        r == failure_outcome_spec(prev),
{
    match InitState::from_code(prev) {
        Some(InitState::GoodInit) => Ok(()),
        _ => Err(ApiUnsupported::new()),
    }
}

/// Whether both lookups found their symbol.
pub fn resolved(found_wait: usize, found_wake: usize) -> (r: bool)
    ensures
        r == resolved_spec(found_wait, found_wake),
{
    found_wait != 0 && found_wake != 0
}

/// The two symbols that are looked up.
#[derive(Clone, Copy, Debug, PartialEq, Eq, Structural)]
pub enum Symbol {
    Wait,
    Wake,
}

impl Symbol {
    pub open spec fn name_spec(self) -> Seq<char> {
        match self {
            Symbol::Wait => "__ulock_wait\0"@,
            Symbol::Wake => "__ulock_wake\0"@,
        }
    }

    /// The symbol's name, terminated by a NUL byte for the platform lookup.
    pub fn name(&self) -> (r: &'static str)
        ensures
            r@ == self.name_spec(),
    {
        match self {
            Symbol::Wait => "__ulock_wait\0",
            Symbol::Wake => "__ulock_wake\0",
        }
    }
}

} // verus!
