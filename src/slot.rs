//! The state shared by the two handles of a pair, as a state machine.
//!
//! Every operation on a pair is one atomic step of this machine, taken while
//! the slot's lock is held. A step sees the slot and whether the peer handle is
//! still alive, and nothing else.
use vstd::prelude::*;
use vstd::std_specs::cmp::PartialEqSpec;

verus! {

/// The value shared by the two handles of a pair.
///
/// A slot starts `Empty`, becomes `Full` when a value is deposited, and becomes
/// `Drained` when that value is taken. No step leads back to `Empty` or out of
/// `Drained`, so over its whole life a slot carries at most one value.
#[derive(Debug)]
pub enum Slot<T> {
    Empty,
    Full(T),
    Drained,
}

/// What a deposit did with the offered value.
#[derive(Debug)]
pub enum Deposit<T> {
    /// The value now waits in the slot.
    Stored,
    /// The slot already holds the peer's value: the offered value is handed back.
    Occupied(T),
    /// Nobody could ever take the value: it is handed back.
    Abandoned(T),
}

/// What a retrieval found.
#[derive(Debug)]
pub enum Retrieval<T> {
    /// The value that was waiting in the slot, now taken out of it.
    Taken(T),
    /// Nothing yet, but the peer may still deposit.
    Pending,
    /// Nothing, and nothing will ever come.
    Abandoned,
}

/// What a join found: the peer's value with the caller's own, or neither.
#[derive(Debug)]
pub enum Meeting<T> {
    /// The peer's value (first) taken out of the slot, and the caller's own (second).
    Met(T, T),
    /// The caller's value now waits in the slot for the peer's join.
    Waiting,
    /// The peer can never join: the caller's value is dropped.
    Abandoned,
}

impl<T> Slot<T> {
    /// Whether the slot holds a value.
    pub open spec fn holds_value(self) -> bool {
        self is Full
    }

    /// A deposit: an empty slot takes the value if the peer can still retrieve
    /// it; otherwise the value is handed back and the slot is left as it was.
    pub open spec fn deposit_spec(self, value: T, peer_alive: bool) -> (Slot<T>, Deposit<T>) {
        match self {
            Slot::Empty => if peer_alive {
                (Slot::Full(value), Deposit::Stored)
            } else {
                (Slot::Empty, Deposit::Abandoned(value))
            },
            Slot::Full(_) => (self, Deposit::Occupied(value)),
            Slot::Drained => (self, Deposit::Abandoned(value)),
        }
    }

    /// A retrieval: a full slot gives up its value and is drained; an empty one
    /// is pending while the peer lives and abandoned once it is gone.
    pub open spec fn retrieve_spec(self, peer_alive: bool) -> (Slot<T>, Retrieval<T>) {
        match self {
            Slot::Full(v) => (Slot::Drained, Retrieval::Taken(v)),
            Slot::Empty => (Slot::Empty, if peer_alive {
                Retrieval::Pending
            } else {
                Retrieval::Abandoned
            }),
            Slot::Drained => (Slot::Drained, Retrieval::Abandoned),
        }
    }

    /// A join: deposit if empty, else take and pair with the caller's value.
    pub open spec fn meet_spec(self, value: T, peer_alive: bool) -> (Slot<T>, Meeting<T>) {
        match self {
            Slot::Full(v) => (Slot::Drained, Meeting::Met(v, value)),
            Slot::Empty => if peer_alive {
                (Slot::Full(value), Meeting::Waiting)
            } else {
                (Slot::Empty, Meeting::Abandoned)
            },
            Slot::Drained => (Slot::Drained, Meeting::Abandoned),
        }
    }

    /// A slot that holds nothing yet.
    pub fn new() -> (s: Self)
        ensures
            s == Slot::<T>::Empty,
            !s.holds_value(),
    {
        Slot::Empty
    }

    /// Whether the slot holds a value.
    pub fn is_set(&self) -> (r: bool)
        ensures
            r == self.holds_value(),
    {
        match self {
            Slot::Full(_) => true,
            _ => false,
        }
    }

    /// Offers `value` to the slot, as `deposit_spec` says.
    pub fn deposit(&mut self, value: T, peer_alive: bool) -> (r: Deposit<T>)
        ensures
            (*final(self), r) == old(self).deposit_spec(value, peer_alive),
    {
        match self {
            Slot::Empty => {
                if peer_alive {
                    *self = Slot::Full(value);
                    Deposit::Stored
                } else {
                    Deposit::Abandoned(value)
                }
            },
            Slot::Full(_) => Deposit::Occupied(value),
            Slot::Drained => Deposit::Abandoned(value),
        }
    }

    /// Takes the waiting value out of the slot, as `retrieve_spec` says.
    pub fn retrieve(&mut self, peer_alive: bool) -> (r: Retrieval<T>)
        ensures
            (*final(self), r) == old(self).retrieve_spec(peer_alive),
    {
        if self.is_set() {
            let mut taken = Slot::Drained;
            core::mem::swap(self, &mut taken);
            match taken {
                Slot::Full(v) => Retrieval::Taken(v),
                _ => Retrieval::Abandoned,
            }
        } else {
            match self {
                Slot::Empty => if peer_alive {
                    Retrieval::Pending
                } else {
                    Retrieval::Abandoned
                },
                _ => Retrieval::Abandoned,
            }
        }
    }

    /// Deposits `value` if the slot is empty, else takes the peer's value, as
    /// `meet_spec` says.
    pub fn meet(&mut self, value: T, peer_alive: bool) -> (r: Meeting<T>)
        ensures
            (*final(self), r) == old(self).meet_spec(value, peer_alive),
    {
        if self.is_set() {
            let mut taken = Slot::Drained;
            core::mem::swap(self, &mut taken);
            match taken {
                Slot::Full(v) => Meeting::Met(v, value),
                _ => Meeting::Abandoned,
            }
        } else {
            match self {
                Slot::Empty => {
                    if peer_alive {
                        *self = Slot::Full(value);
                        Meeting::Waiting
                    } else {
                        Meeting::Abandoned
                    }
                },
                _ => Meeting::Abandoned,
            }
        }
    }
}

impl<T: PartialEq> Slot<T> {
    /// Whether the two slots hold the same thing: both a value, and equal values;
    /// or neither a value.
    pub fn same_contents(&self, other: &Slot<T>) -> (r: bool)
        ensures
            T::obeys_eq_spec() ==> r == match (self, other) {
                (Slot::Full(a), Slot::Full(b)) => a.eq_spec(b),
                (Slot::Full(_), _) => false,
                (_, Slot::Full(_)) => false,
                _ => true,
            },
    {
        match (self, other) {
            (Slot::Full(a), Slot::Full(b)) => a == b,
            (Slot::Full(_), _) => false,
            (_, Slot::Full(_)) => false,
            _ => true,
        }
    }
}

} // verus!
