//! The paired, single-use handles.
//!
//! Each operation takes the slot's write lock, reads whether the peer handle
//! still exists, runs one step of the slot's state machine, and releases the
//! lock. The peer is alive exactly while two `Arc`s point at the slot: a handle
//! releases its pointer when it is consumed or dropped, and no handle can be
//! cloned, so the count read under the lock cannot be torn from the contents.
use std::sync::{Arc, PoisonError, RwLock, RwLockReadGuard, RwLockWriteGuard};
use vstd::prelude::*;

use crate::slot::{Deposit, Meeting, Retrieval, Slot};

verus! {

#[verifier::external_type_specification]
#[verifier::external_body]
#[verifier::reject_recursive_types(T)]
pub struct ExRwLock<T: ?Sized>(RwLock<T>);

#[verifier::external_type_specification]
#[verifier::external_body]
#[verifier::reject_recursive_types(T)]
pub struct ExRwLockReadGuard<'a, T: ?Sized>(RwLockReadGuard<'a, T>);

#[verifier::external_type_specification]
#[verifier::external_body]
#[verifier::reject_recursive_types(T)]
pub struct ExRwLockWriteGuard<'a, T: ?Sized + 'a>(RwLockWriteGuard<'a, T>);

/// Relies on `RwLock::new`: a lock around `value`.
#[verifier::external_body]
fn new_lock<S>(value: S) -> RwLock<S> {
    RwLock::new(value)
}

/// Relies on `RwLock::write`: waits until this thread holds the lock alone. A
/// lock poisoned by a panic in another thread is entered all the same.
#[verifier::external_body]
fn lock_write<S>(lock: &RwLock<S>) -> RwLockWriteGuard<'_, S> {
    lock.write().unwrap_or_else(PoisonError::into_inner)
}

/// Relies on `RwLock::read`: waits until no thread holds the lock for writing.
/// A lock poisoned by a panic in another thread is entered all the same.
#[verifier::external_body]
fn lock_read<S>(lock: &RwLock<S>) -> RwLockReadGuard<'_, S> {
    lock.read().unwrap_or_else(PoisonError::into_inner)
}

/// Relies on `DerefMut` of `RwLockWriteGuard`: the value behind the lock.
#[verifier::external_body]
fn guarded_mut<'a, 'b, S>(guard: &'a mut RwLockWriteGuard<'b, S>) -> &'a mut S {
    &mut **guard
}

/// Relies on `Deref` of `RwLockReadGuard`: the value behind the lock.
#[verifier::external_body]
fn guarded<'a, 'b, S>(guard: &'a RwLockReadGuard<'b, S>) -> &'a S {
    &**guard
}

/// Relies on `Arc::clone`: another pointer to the same allocation.
#[verifier::external_body]
fn share<S>(a: &Arc<S>) -> (r: Arc<S>)
    ensures
        r == *a,
{
    Arc::clone(a)
}

/// Relies on `Arc::strong_count`: how many `Arc`s point to the allocation. Other
/// threads may change the count at any moment, so nothing is promised of it.
#[verifier::external_body]
fn holders<S>(a: &Arc<S>) -> usize {
    Arc::strong_count(a)
}

/// Relies on `Arc::ptr_eq`: whether two pointers share one allocation.
#[verifier::external_body]
fn same_allocation<S>(a: &Arc<S>, b: &Arc<S>) -> bool {
    Arc::ptr_eq(a, b)
}

/// The handshake can never complete: the peer handle was released before it
/// contributed or retrieved a value.
#[derive(Debug, Clone, Copy, PartialEq, Eq, Structural, PartialOrd, Ord)]
pub struct Canceled;

/// One of the two handles of a pair. Every operation but a pull that finds
/// nothing consumes the handle, so a handle deposits at most once.
#[derive(Debug)]
#[verifier::reject_recursive_types(T)]
pub struct Handshake<T> {
    common: Arc<RwLock<Slot<T>>>,
}

/// Whether the peer of a handle is alive, given how many `Arc`s point at the
/// slot: the handle's own, and the peer's while it has not been released.
pub fn peer_alive(holders: usize) -> (r: bool)
    ensures
        r == (holders > 1),
{
    holders > 1
}

impl<T> Handshake<T> {
    /// Whether the two handles hold equal locks. `new` gives both handles a
    /// clone of one `Arc`, so a fresh pair satisfies it.
    pub closed spec fn shares_slot_with(self, other: Self) -> bool {
        self.common == other.common
    }

    /// The public result of a push whose step gave `step`, `h` being the pushing handle.
    pub open spec fn push_result(step: Deposit<T>, h: Self) -> Result<Result<(), (Self, T)>, T> {
        match step {
            Deposit::Stored => Ok(Ok(())),
            Deposit::Occupied(v) => Ok(Err((h, v))),
            Deposit::Abandoned(v) => Err(v),
        }
    }

    /// The public result of a pull whose step gave `step`, `h` being the pulling handle.
    pub open spec fn pull_result(step: Retrieval<T>, h: Self) -> Result<Result<T, Self>, Canceled> {
        match step {
            Retrieval::Taken(v) => Ok(Ok(v)),
            Retrieval::Pending => Ok(Err(h)),
            Retrieval::Abandoned => Err(Canceled),
        }
    }

    /// Whether `r` is a public result of a join whose step gave `step`, the
    /// peer's and the caller's values being combined by `f`.
    pub open spec fn join_result<U, F: FnOnce(T, T) -> U>(step: Meeting<T>, f: F, r: Result<Option<U>, Canceled>) -> bool {
        match step {
            Meeting::Met(peer, own) => r matches Ok(Some(u)) && f.ensures((peer, own), u),
            Meeting::Waiting => r == Ok::<Option<U>, Canceled>(None),
            Meeting::Abandoned => r == Err::<Option<U>, Canceled>(Canceled),
        }
    }

    /// Two peer handles on one new, empty slot.
    pub fn new() -> (r: (Handshake<T>, Handshake<T>))
        ensures
            r.0.shares_slot_with(r.1),
    {
        let common = Arc::new(new_lock(Slot::new()));
        let other = share(&common);
        (Handshake { common }, Handshake { common: other })
    }

    /// Turns the outcome of a deposit step into the result of `try_push`.
    fn settle_push(self, step: Deposit<T>) -> (r: Result<Result<(), (Self, T)>, T>)
        ensures
            r == Self::push_result(step, self),
    {
        match step {
            Deposit::Stored => Ok(Ok(())),
            Deposit::Occupied(v) => Ok(Err((self, v))),
            Deposit::Abandoned(v) => Err(v),
        }
    }

    /// Turns the outcome of a retrieval step into the result of `try_pull`.
    fn settle_pull(self, step: Retrieval<T>) -> (r: Result<Result<T, Self>, Canceled>)
        ensures
            r == Self::pull_result(step, self),
    {
        match step {
            Retrieval::Taken(v) => Ok(Ok(v)),
            Retrieval::Pending => Ok(Err(self)),
            Retrieval::Abandoned => Err(Canceled),
        }
    }

    /// Turns the outcome of a join step into the result of `join`, calling `f`
    /// on the peer's value and the caller's own when both are there.
    fn settle_join<U, F: FnOnce(T, T) -> U>(step: Meeting<T>, f: F) -> (r: Result<Option<U>, Canceled>)
        requires
            step matches Meeting::Met(peer, own) ==> f.requires((peer, own)),
        ensures
            Self::join_result(step, f, r),
    {
        match step {
            Meeting::Met(peer, own) => Ok(Some(f(peer, own))),
            Meeting::Waiting => Ok(None),
            Meeting::Abandoned => Err(Canceled),
        }
    }

    /// Deposits `value` for the peer: one deposit step on the slot as it stands
    /// when the lock is taken, with the peer's liveness at that moment.
    ///
    /// `Ok(Ok(()))`: the value waits in the slot, and the handle is consumed.
    /// `Ok(Err((self, value)))`: the slot already holds the peer's value; the
    /// handle stays usable, to pull that value. `Err(value)`: the peer is gone
    /// and nobody could ever retrieve the value.
    pub fn try_push(self, value: T) -> (r: Result<Result<(), (Self, T)>, T>)
        ensures
            exists|seen: Slot<T>, alive: bool|
                r == Self::push_result(#[trigger] seen.deposit_spec(value, alive).1, self),
            r matches Ok(Err(back)) ==> back == (self, value),
            r matches Err(v) ==> v == value,
    {
        let (step, Ghost(seen), Ghost(alive)) = {
            let mut guard = lock_write(&self.common);
            let alive = peer_alive(holders(&self.common));
            let slot = guarded_mut(&mut guard);
            let ghost seen = *slot;
            let step = slot.deposit(value, alive);
            (step, Ghost(seen), Ghost(alive))
        };
        let r = self.settle_push(step);
        assert(r == Self::push_result(seen.deposit_spec(value, alive).1, self));
        r
    }

    /// Retrieves the peer's value: one retrieval step on the slot as it stands
    /// when the lock is taken, with the peer's liveness at that moment.
    ///
    /// `Ok(Ok(v))`: the value, taken out of the slot; the handle is consumed.
    /// `Ok(Err(self))`: nothing yet, try again later. `Err(Canceled)`: nothing,
    /// and the peer is gone.
    pub fn try_pull(self) -> (r: Result<Result<T, Self>, Canceled>)
        ensures
            exists|seen: Slot<T>, alive: bool|
                r == Self::pull_result(#[trigger] seen.retrieve_spec(alive).1, self),
            r matches Ok(Err(h)) ==> h == self,
    {
        let (step, Ghost(seen), Ghost(alive)) = {
            let mut guard = lock_write(&self.common);
            let alive = peer_alive(holders(&self.common));
            let slot = guarded_mut(&mut guard);
            let ghost seen = *slot;
            let step = slot.retrieve(alive);
            (step, Ghost(seen), Ghost(alive))
        };
        let r = self.settle_pull(step);
        assert(r == Self::pull_result(seen.retrieve_spec(alive).1, self));
        r
    }

    /// Combines `value` with the peer's own: one join step on the slot as it
    /// stands when the lock is taken, with the peer's liveness at that moment.
    ///
    /// If the peer has not joined yet, `value` is left for it and the result is
    /// `Ok(None)`. If it has, its value `peer` is taken and the result is
    /// `Ok(Some(f(peer, value)))`, with `f` called after the lock is released.
    /// `Err(Canceled)`: the peer is gone without joining.
    pub fn join<U, F: FnOnce(T, T) -> U>(self, value: T, f: F) -> (r: Result<Option<U>, Canceled>)
        requires
            forall|peer: T| f.requires((peer, value)),
        ensures
            exists|seen: Slot<T>, alive: bool|
                Self::join_result(#[trigger] seen.meet_spec(value, alive).1, f, r),
            r matches Ok(Some(u)) ==> exists|peer: T| f.ensures((peer, value), u),
    {
        let (step, Ghost(seen), Ghost(alive)) = {
            let mut guard = lock_write(&self.common);
            let alive = peer_alive(holders(&self.common));
            let slot = guarded_mut(&mut guard);
            let ghost seen = *slot;
            let step = slot.meet(value, alive);
            (step, Ghost(seen), Ghost(alive))
        };
        let ghost contributed = if step is Met { step->Met_0 } else { value };
        let r = Self::settle_join(step, f);
        assert(Self::join_result(seen.meet_spec(value, alive).1, f, r));
        assert(r matches Ok(Some(u)) ==> f.ensures((contributed, value), u));
        r
    }

    /// Whether the slot holds a value at the moment of the call. The peer may
    /// change that right after: this is for diagnostics only.
    pub fn is_set(&self) -> bool {
        let guard = lock_read(&self.common);
        guarded(&guard).is_set()
    }
}

/// Two handles are equal when their slots hold the same thing at the moment of
/// the comparison, read under both locks. That is a snapshot of shared state,
/// not a function of the handles, so no specification of `==` is given.
impl<T: PartialEq> PartialEq for Handshake<T> {
    fn eq(&self, other: &Self) -> bool {
        let mine = lock_read(&self.common);
        if same_allocation(&self.common, &other.common) {
            // the two handles of one pair: read their one lock only once
            let slot = guarded(&mine);
            slot.same_contents(slot)
        } else {
            let theirs = lock_read(&other.common);
            guarded(&mine).same_contents(guarded(&theirs))
        }
    }
}

impl<T: PartialEq> vstd::std_specs::cmp::PartialEqSpecImpl for Handshake<T> {
    open spec fn obeys_eq_spec() -> bool {
        false
    }

    /// Unused: `obeys_eq_spec` is false, since `==` reads shared state that no
    /// spec function of the handles can see.
    open spec fn eq_spec(&self, other: &Self) -> bool {
        true
    }
}

} // verus!
