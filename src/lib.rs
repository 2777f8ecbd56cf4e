//! A two-party, one-shot handshake: two handles created together share one slot,
//! through which exactly one value is handed over, or two values are combined.
//!
//! `slot` holds the protocol as a state machine with exact contracts, `laws`
//! what holds of it over several steps, and `handshake` the handles, which run
//! one step of the machine per operation under the slot's lock.
pub mod handshake;
pub mod laws;
pub mod slot;

pub use handshake::{Canceled, Handshake};
pub use slot::{Deposit, Meeting, Retrieval, Slot};
