//! What holds of the slot protocol over several steps.
//!
//! The two handles of a pair run the steps of `Slot` one at a time under the
//! slot's lock, so what is proved here of a sequence of steps is what the
//! handles see. A `peer_alive` argument is what the stepping handle saw of its
//! peer at that moment.
use vstd::prelude::*;

use crate::slot::{Deposit, Meeting, Retrieval, Slot};

verus! {

/// A slot that holds a value keeps it against every later deposit, from either
/// side: the offered value is handed back and the slot is unchanged. A
/// retrieval or a join takes exactly the value that was stored.
pub proof fn stored_value_is_never_overwritten<T>(s: Slot<T>, value: T, peer_alive: bool)
    requires
        s.holds_value(),
    ensures
        s.deposit_spec(value, peer_alive) == (s, Deposit::Occupied(value)),
        s.retrieve_spec(peer_alive) == (Slot::<T>::Drained, Retrieval::Taken(s->Full_0)),
        s.meet_spec(value, peer_alive) == (Slot::<T>::Drained, Meeting::Met(s->Full_0, value)),
{
}

/// A slot carries at most one value over its life: only an empty slot takes a
/// value in, no step leads back to an empty slot, and from any other slot every
/// step leaves the slot with no value or with the value it already held.
pub proof fn slot_is_filled_at_most_once<T>(s: Slot<T>, value: T, peer_alive: bool)
    requires
        !(s is Empty),
    ensures
        !(s.deposit_spec(value, peer_alive).0 is Empty),
        !(s.retrieve_spec(peer_alive).0 is Empty),
        !(s.meet_spec(value, peer_alive).0 is Empty),
        s.deposit_spec(value, peer_alive).0.holds_value() ==> s.deposit_spec(value, peer_alive).0 == s,
        !s.retrieve_spec(peer_alive).0.holds_value(),
        !s.meet_spec(value, peer_alive).0.holds_value(),
{
}

/// Once drained, a slot never holds a value again and no step can complete:
/// deposits are handed back, retrievals and joins are abandoned.
pub proof fn drained_slot_stays_drained<T>(value: T, peer_alive: bool)
    ensures
        Slot::<T>::Drained.deposit_spec(value, peer_alive) == (Slot::<T>::Drained, Deposit::Abandoned(value)),
        Slot::<T>::Drained.retrieve_spec(peer_alive) == (Slot::<T>::Drained, Retrieval::<T>::Abandoned),
        Slot::<T>::Drained.meet_spec(value, peer_alive) == (Slot::<T>::Drained, Meeting::<T>::Abandoned),
{
}

/// Pushing `x` on one side of a fresh pair, then pulling on the other, gives
/// exactly `x`, and the slot holds nothing afterwards. The pushing side sees
/// its peer alive, since the peer pulls later; the pulling side may or may not
/// still see the pusher.
pub proof fn push_then_pull_round_trip<T>(x: T, pusher_alive_at_pull: bool)
    ensures
        Slot::<T>::Empty.deposit_spec(x, true) == (Slot::Full(x), Deposit::<T>::Stored),
        Slot::Full(x).retrieve_spec(pusher_alive_at_pull) == (Slot::<T>::Drained, Retrieval::Taken(x)),
        !Slot::<T>::Drained.holds_value(),
{
}

/// A pushed value outlives the handle that pushed it: after the pusher is gone,
/// the other side still retrieves the value.
pub proof fn pushed_value_survives_the_pusher<T>(x: T)
    ensures
        Slot::Empty.deposit_spec(x, true).0.retrieve_spec(false).1 == Retrieval::Taken(x),
{
}

/// If one side is released having never deposited, the slot stays empty and
/// the other side's pull and join are canceled, as often as they are tried,
/// rather than pending forever.
pub proof fn release_without_deposit_cancels<T>(value: T)
    ensures
        Slot::<T>::Empty.retrieve_spec(false) == (Slot::<T>::Empty, Retrieval::<T>::Abandoned),
        Slot::<T>::Empty.meet_spec(value, false) == (Slot::<T>::Empty, Meeting::<T>::Abandoned),
{
}

/// The number of combined results that one join outcome carries.
pub open spec fn completions<T>(m: Meeting<T>) -> nat {
    if m is Met {
        1
    } else {
        0
    }
}

/// The combined results of both joins of one pair: the first join, with `x`,
/// sees an empty slot and its peer alive; the second, with `y`, comes after it.
pub open spec fn pair_completions<T>(x: T, y: T, second_sees_peer: bool) -> nat {
    let (after_first, first) = Slot::<T>::Empty.meet_spec(x, true);
    let (_, second) = after_first.meet_spec(y, second_sees_peer);
    completions(first) + completions(second)
}

/// On a pair that is not canceled, exactly one of the two joins yields the
/// combined result, whichever side comes first: the first join waits and the
/// second receives the first one's value with its own.
pub proof fn join_completes_exactly_once<T>(x: T, y: T, second_sees_peer: bool)
    ensures
        Slot::<T>::Empty.meet_spec(x, true) == (Slot::Full(x), Meeting::<T>::Waiting),
        Slot::Full(x).meet_spec(y, second_sees_peer) == (Slot::<T>::Drained, Meeting::Met(x, y)),
        pair_completions(x, y, second_sees_peer) == 1,
{
}

/// The combined results over many independent pairs, pair `i` joined first with
/// `firsts[i]` and then with `seconds[i]`.
pub open spec fn total_completions<T>(firsts: Seq<T>, seconds: Seq<T>, second_sees_peer: Seq<bool>) -> nat
    decreases firsts.len(),
{
    if firsts.len() == 0 {
        0
    } else {
        let last = firsts.len() - 1;
        total_completions(firsts.drop_last(), seconds.drop_last(), second_sees_peer.drop_last())
            + pair_completions(firsts[last], seconds[last], second_sees_peer[last])
    }
}

/// Over `n` independent pairs whose handles all join, in any order across the
/// pairs, exactly `n` joins yield a combined result: none is lost and none is
/// counted twice.
pub proof fn many_pairs_complete_once_each<T>(firsts: Seq<T>, seconds: Seq<T>, second_sees_peer: Seq<bool>)
    requires
        seconds.len() == firsts.len(),
        second_sees_peer.len() == firsts.len(),
    ensures
        total_completions(firsts, seconds, second_sees_peer) == firsts.len(),
    decreases firsts.len(),
{
    if firsts.len() > 0 {
        let last = firsts.len() - 1;
        many_pairs_complete_once_each(firsts.drop_last(), seconds.drop_last(), second_sees_peer.drop_last());
        join_completes_exactly_once(firsts[last], seconds[last], second_sees_peer[last]);
    }
}

} // verus!
