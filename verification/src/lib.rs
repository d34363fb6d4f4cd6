//! A one-shot completion bridge: a producer running on an arbitrary thread
//! delivers a single result through a completer handle, and a cooperatively
//! scheduled consumer observes it by polling a continuation.
//!
//! The heart of the crate is the state machine in [`state`]: its transition
//! functions carry exact contracts, and the shared cell that producer and
//! consumer race on is a verified reader-writer lock whose invariant says
//! that the stored state is always reachable by a legal transition history.

pub mod continuation;
pub mod deferred;
pub mod state;
