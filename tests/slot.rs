use handshake::{Deposit, Meeting, Retrieval, Slot};

fn full(v: i32) -> Slot<i32> {
    let mut s = Slot::new();
    assert!(matches!(s.deposit(v, true), Deposit::Stored));
    s
}

#[test]
fn new_slot_is_empty() {
    let s = Slot::<i32>::new();
    assert!(!s.is_set());
    assert!(matches!(s, Slot::Empty));
}

#[test]
fn deposit_into_empty_slot_with_live_peer() {
    let s = full(3);
    assert!(s.is_set());
    assert!(matches!(s, Slot::Full(3)));
}

#[test]
fn deposit_without_peer_is_handed_back() {
    let mut s = Slot::<i32>::new();
    assert!(matches!(s.deposit(3, false), Deposit::Abandoned(3)));
    assert!(matches!(s, Slot::Empty));
}

#[test]
fn deposit_into_full_slot_is_handed_back() {
    let mut s = full(1);
    assert!(matches!(s.deposit(2, true), Deposit::Occupied(2)));
    assert!(matches!(s.deposit(5, false), Deposit::Occupied(5)));
    assert!(matches!(s, Slot::Full(1)));
}

#[test]
fn retrieve_takes_the_value_and_drains() {
    let mut s = full(8);
    assert!(matches!(s.retrieve(false), Retrieval::Taken(8)));
    assert!(matches!(s, Slot::Drained));
    assert!(!s.is_set());
}

#[test]
fn retrieve_from_empty_slot() {
    let mut s = Slot::<i32>::new();
    assert!(matches!(s.retrieve(true), Retrieval::Pending));
    assert!(matches!(s.retrieve(false), Retrieval::Abandoned));
    assert!(matches!(s, Slot::Empty));
}

#[test]
fn drained_slot_never_refills() {
    let mut s = full(8);
    assert!(matches!(s.retrieve(true), Retrieval::Taken(8)));
    assert!(matches!(s.deposit(9, true), Deposit::Abandoned(9)));
    assert!(matches!(s.meet(9, true), Meeting::Abandoned));
    assert!(matches!(s.retrieve(true), Retrieval::Abandoned));
    assert!(matches!(s, Slot::Drained));
}

#[test]
fn meet_waits_then_meets() {
    let mut s = Slot::<i32>::new();
    assert!(matches!(s.meet(1, true), Meeting::Waiting));
    assert!(matches!(s, Slot::Full(1)));
    assert!(matches!(s.meet(2, false), Meeting::Met(1, 2)));
    assert!(matches!(s, Slot::Drained));
}

#[test]
fn meet_without_peer_is_abandoned() {
    let mut s = Slot::<i32>::new();
    assert!(matches!(s.meet(1, false), Meeting::Abandoned));
    assert!(matches!(s, Slot::Empty));
}

#[test]
fn same_contents_compares_values() {
    let e = Slot::<i32>::new();
    let mut d = full(2);
    assert!(e.same_contents(&Slot::new()));
    assert!(full(2).same_contents(&full(2)));
    assert!(!full(2).same_contents(&full(3)));
    assert!(!full(2).same_contents(&e));
    assert!(!e.same_contents(&full(2)));
    assert!(matches!(d.retrieve(true), Retrieval::Taken(2)));
    assert!(d.same_contents(&e));
}
