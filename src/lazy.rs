use crate::error::ApiUnsupported;
use crate::status::{
    failure_outcome, next_after_status, next_spec, resolved, resolved_spec, Next, Symbol, BAD_INIT,
    GOOD_INIT, NOT_INIT,
};
use core::sync::atomic::{AtomicU8, AtomicUsize, Ordering};
use vstd::prelude::*;

verus! {

/// The shared cells: one status byte and one slot per function address.
///
/// A slot holds 0 until its address is resolved and never changes after that.
/// The fields are public so that a process-wide instance can be written as a
/// constant initialiser: every field starts at 0.
pub struct ULockCells {
    pub status: AtomicU8,
    pub ulock_wait: AtomicUsize,
    pub ulock_wake: AtomicUsize,
}

impl ULockCells {
    /// Fresh cells: status `NOT_INIT`, both slots unresolved.
    pub fn new() -> (r: ULockCells) {
        ULockCells {
            status: AtomicU8::new(NOT_INIT),
            ulock_wait: AtomicUsize::new(0),
            ulock_wake: AtomicUsize::new(0),
        }
    }

    /// Publishes the result of one pair of lookups.
    ///
    /// When a symbol is missing, the status moves from `NOT_INIT` to `BAD_INIT`
    /// by one compare-and-set, and the outcome is decided by `failure_outcome`
    /// on the byte that the compare-and-set found, so that a state another
    /// thread published first is adopted. Otherwise both slots are filled by a
    /// compare-and-set against 0 (racing threads write the same value) and
    /// `GOOD_INIT` is published with release ordering, after the slot writes.
    pub fn publish(&self, found_wait: usize, found_wake: usize) -> (r: Result<(), ApiUnsupported>)
        ensures
            resolved_spec(found_wait, found_wake) ==> r == Ok::<(), ApiUnsupported>(()),
    {
        if !resolved(found_wait, found_wake) {
            let prev = match self.status.compare_exchange(
                NOT_INIT,
                BAD_INIT,
                Ordering::AcqRel,
                Ordering::Acquire,
            ) {
                Ok(v) => v,
                Err(v) => v,
            };
            return failure_outcome(prev);
        }
        let _ = self.ulock_wait.compare_exchange(0, found_wait, Ordering::Relaxed, Ordering::Relaxed);
        let _ = self.ulock_wake.compare_exchange(0, found_wake, Ordering::Relaxed, Ordering::Relaxed);
        self.status.store(GOOD_INIT, Ordering::Release);
        Ok(())
    }

    /// What `settle` returns for the status byte `status`: a settled status
    /// gives its outcome; `NOT_INIT` gives success whenever the two lookups
    /// found both symbols, where `w` and `k` are what the lookups returned.
    /// When a symbol is missing the outcome is `failure_outcome` of the byte
    /// that `publish`'s compare-and-set found, which only the cell decides.
    pub open spec fn settles<L: Fn(Symbol) -> usize>(
        status: u8,
        lookup: &L,
        r: Result<(), ApiUnsupported>,
    ) -> bool {
        &&& status != NOT_INIT ==> next_spec(status) == Next::Ready(r)
        &&& status == NOT_INIT ==> exists|w: usize, k: usize|
            {
                &&& lookup.ensures((Symbol::Wait,), w)
                &&& lookup.ensures((Symbol::Wake,), k)
                &&& resolved_spec(w, k) ==> r == Ok::<(), ApiUnsupported>(())
            }
    }

    /// Acts on a status byte read with acquire ordering.
    ///
    /// A settled status is returned at once, without a lookup; only on
    /// `NOT_INIT` are both symbols looked up through `lookup` and the result
    /// published.
    pub fn settle<L: Fn(Symbol) -> usize>(&self, status: u8, lookup: &L) -> (r: Result<
        (),
        ApiUnsupported,
    >)
        requires
            forall|s: Symbol| lookup.requires((s,)),
        ensures
            Self::settles(status, lookup, r),
    {
        match next_after_status(status) {
            Next::Ready(r) => r,
            Next::Resolve => {
                let w = lookup(Symbol::Wait);
                let k = lookup(Symbol::Wake);
                self.publish(w, k)
            },
        }
    }

    /// Makes sure that resolution has run to an outcome, and returns it.
    ///
    /// The status is read with acquire ordering and handed to `settle`, which
    /// carries the contract on that byte; the byte itself is shared state that
    /// any thread may have written, so nothing is promised here of the result.
    pub fn ensure_ready<L: Fn(Symbol) -> usize>(&self, lookup: &L) -> (r: Result<(), ApiUnsupported>)
        requires
            forall|s: Symbol| lookup.requires((s,)),
    {
        let status = self.status.load(Ordering::Acquire);
        self.settle(status, lookup)
    }
}

} // verus!

verus! {

/// Calls the wait function at the slot address `f`, if it is resolved.
///
/// A non-zero `f` is handed to `call` with the caller's arguments unchanged,
/// and what `call` returns is handed back; for 0 nothing is called.
pub fn call_wait_slot<C, P>(f: usize, call: &C, op: u32, addr: P, val: u64, micros: u32) -> (r:
    Option<cty::c_int>) where C: Fn(usize, u32, P, u64, u32) -> cty::c_int
    requires
        f != 0 ==> call.requires((f, op, addr, val, micros)),
    ensures
        r is None <==> f == 0,
        r matches Some(v) ==> call.ensures((f, op, addr, val, micros), v),
{
    if f != 0 {
        let v = call(f, op, addr, val, micros);
        let r: Option<cty::c_int> = Some(v);
        assert(call.ensures((f, op, addr, val, micros), r->Some_0));
        r
    } else {
        None
    }
}

/// The slow path of the wait call, after `ensure_ready` gave `ready` and the
/// wait slot was read again as `f`.
///
/// An error is handed on without a call. After success, a resolved `f` is
/// called as by `call_wait_slot`; a slot still at 0 is reported as
/// unsupported.
pub fn wait_after_ready<C, P>(
    ready: Result<(), ApiUnsupported>,
    f: usize,
    call: &C,
    op: u32,
    addr: P,
    val: u64,
    micros: u32,
) -> (r: Result<cty::c_int, ApiUnsupported>) where C: Fn(usize, u32, P, u64, u32) -> cty::c_int
    requires
        f != 0 ==> call.requires((f, op, addr, val, micros)),
    ensures
        ready is Err ==> r == Err::<cty::c_int, ApiUnsupported>(ApiUnsupported {}),
        ready is Ok && f != 0 ==> r is Ok && call.ensures((f, op, addr, val, micros), r->Ok_0),
        ready is Ok && f == 0 ==> r == Err::<cty::c_int, ApiUnsupported>(ApiUnsupported {}),
{
    match ready {
        Ok(()) => match call_wait_slot(f, call, op, addr, val, micros) {
            Some(v) => {
                let r: Result<cty::c_int, ApiUnsupported> = Ok(v);
                assert(call.ensures((f, op, addr, val, micros), r->Ok_0));
                r
            },
            None => Err(ApiUnsupported::new()),
        },
        Err(_) => Err(ApiUnsupported::new()),
    }
}

/// Calls the wait function through its cached address.
///
/// The slot is read with relaxed ordering and handed to `call_wait_slot`; a
/// resolved address is called at once. An unresolved slot sends the caller
/// through `ensure_ready`, after which the slot is read again and both are
/// handed to `wait_after_ready`. Those two carry the contract on each value
/// read; what holds whatever the cells held is stated here.
pub fn ulock_wait<L, C, P: Copy>(
    cells: &ULockCells,
    lookup: &L,
    call: C,
    op: u32,
    addr: P,
    val: u64,
    micros: u32,
) -> (r: Result<cty::c_int, ApiUnsupported>) where
    L: Fn(Symbol) -> usize,
    C: Fn(usize, u32, P, u64, u32) -> cty::c_int,

    requires
        forall|s: Symbol| lookup.requires((s,)),
        forall|f: usize| f != 0 ==> call.requires((f, op, addr, val, micros)),
    ensures
        r is Ok ==> exists|f: usize| f != 0 && call.ensures((f, op, addr, val, micros), r->Ok_0),
{
    let f = cells.ulock_wait.load(Ordering::Relaxed);
    if let Some(v) = call_wait_slot(f, &call, op, addr, val, micros) {
        let r: Result<cty::c_int, ApiUnsupported> = Ok(v);
        assert(call.ensures((f, op, addr, val, micros), r->Ok_0));
        return r;
    }
    let ready = cells.ensure_ready(lookup);
    let f = cells.ulock_wait.load(Ordering::Relaxed);
    wait_after_ready(ready, f, &call, op, addr, val, micros)
}

/// Calls the wake function at the slot address `f`, if it is resolved, as
/// `call_wait_slot` does for the wait function.
pub fn call_wake_slot<C, P>(f: usize, call: &C, op: u32, addr: P, val: u64) -> (r: Option<
    cty::c_int,
>) where C: Fn(usize, u32, P, u64) -> cty::c_int
    requires
        f != 0 ==> call.requires((f, op, addr, val)),
    ensures
        r is None <==> f == 0,
        r matches Some(v) ==> call.ensures((f, op, addr, val), v),
{
    if f != 0 {
        let v = call(f, op, addr, val);
        let r: Option<cty::c_int> = Some(v);
        assert(call.ensures((f, op, addr, val), r->Some_0));
        r
    } else {
        None
    }
}

/// The slow path of the wake call, as `wait_after_ready` is for the wait
/// function.
pub fn wake_after_ready<C, P>(
    ready: Result<(), ApiUnsupported>,
    f: usize,
    call: &C,
    op: u32,
    addr: P,
    val: u64,
) -> (r: Result<cty::c_int, ApiUnsupported>) where C: Fn(usize, u32, P, u64) -> cty::c_int
    requires
        f != 0 ==> call.requires((f, op, addr, val)),
    ensures
        ready is Err ==> r == Err::<cty::c_int, ApiUnsupported>(ApiUnsupported {}),
        ready is Ok && f != 0 ==> r is Ok && call.ensures((f, op, addr, val), r->Ok_0),
        ready is Ok && f == 0 ==> r == Err::<cty::c_int, ApiUnsupported>(ApiUnsupported {}),
{
    match ready {
        Ok(()) => match call_wake_slot(f, call, op, addr, val) {
            Some(v) => {
                let r: Result<cty::c_int, ApiUnsupported> = Ok(v);
                assert(call.ensures((f, op, addr, val), r->Ok_0));
                r
            },
            None => Err(ApiUnsupported::new()),
        },
        Err(_) => Err(ApiUnsupported::new()),
    }
}

/// Calls the wake function through its cached address, as `ulock_wait` does
/// for the wait function, from `call_wake_slot` and `wake_after_ready`.
pub fn ulock_wake<L, C, P: Copy>(
    cells: &ULockCells,
    lookup: &L,
    call: C,
    op: u32,
    addr: P,
    val: u64,
) -> (r: Result<cty::c_int, ApiUnsupported>) where
    L: Fn(Symbol) -> usize,
    C: Fn(usize, u32, P, u64) -> cty::c_int,

    requires
        forall|s: Symbol| lookup.requires((s,)),
        forall|f: usize| f != 0 ==> call.requires((f, op, addr, val)),
    ensures
        r is Ok ==> exists|f: usize| f != 0 && call.ensures((f, op, addr, val), r->Ok_0),
{
    let f = cells.ulock_wake.load(Ordering::Relaxed);
    if let Some(v) = call_wake_slot(f, &call, op, addr, val) {
        let r: Result<cty::c_int, ApiUnsupported> = Ok(v);
        assert(call.ensures((f, op, addr, val), r->Ok_0));
        return r;
    }
    let ready = cells.ensure_ready(lookup);
    let f = cells.ulock_wake.load(Ordering::Relaxed);
    wake_after_ready(ready, f, &call, op, addr, val)
}

/// Both resolved addresses together, for callers that keep the pair.
#[derive(Clone, Copy, Debug, PartialEq, Eq, Structural)]
pub struct ULockApi {
    pub ulock_wait: usize,
    pub ulock_wake: usize,
}

impl ULockApi {
    /// The pair made of two slot values, when both are resolved.
    pub fn from_slots(w: usize, k: usize) -> (r: Option<ULockApi>)
        ensures
            r is Some <==> (w != 0 && k != 0),
            r matches Some(a) ==> a.ulock_wait == w && a.ulock_wake == k,
    {
        if w != 0 && k != 0 {
            Some(ULockApi { ulock_wait: w, ulock_wake: k })
        } else {
            None
        }
    }

    /// The outcome of `get`, after `ensure_ready` gave `ready` and the slots
    /// were read as `w` and `k`: an error is handed on, and after success the
    /// pair is returned when both slots are resolved.
    pub fn from_ready(ready: Result<(), ApiUnsupported>, w: usize, k: usize) -> (r: Result<
        ULockApi,
        ApiUnsupported,
    >)
        ensures
            ready is Ok && w != 0 && k != 0 ==> r == Ok::<ULockApi, ApiUnsupported>(
                (ULockApi { ulock_wait: w, ulock_wake: k }),
            ),
            !(ready is Ok && w != 0 && k != 0) ==> r == Err::<ULockApi, ApiUnsupported>(
                ApiUnsupported {},
            ),
    {
        match ready {
            Ok(()) => match Self::from_slots(w, k) {
                Some(a) => Ok(a),
                None => Err(ApiUnsupported::new()),
            },
            Err(_) => Err(ApiUnsupported::new()),
        }
    }

    /// Runs `ensure_ready`, reads both slots and hands all three to
    /// `from_ready`, which carries the contract on those values.
    pub fn get<L: Fn(Symbol) -> usize>(cells: &ULockCells, lookup: &L) -> (r: Result<
        ULockApi,
        ApiUnsupported,
    >)
        requires
            forall|s: Symbol| lookup.requires((s,)),
        ensures
            r matches Ok(api) ==> api.ulock_wait != 0 && api.ulock_wake != 0,
    {
        let ready = cells.ensure_ready(lookup);
        let w = cells.ulock_wait.load(Ordering::Relaxed);
        let k = cells.ulock_wake.load(Ordering::Relaxed);
        Self::from_ready(ready, w, k)
    }
}

} // verus!
