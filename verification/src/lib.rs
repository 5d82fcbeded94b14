//! Core of an on-chain voting ledger.
//!
//! An authority creates time-windowed polls, candidates register for a poll,
//! and each voter casts at most one vote per poll for a registered candidate.
//! The ledger runtime that resolves storage keys, applies each transition
//! atomically, and supplies the current time is an external collaborator:
//! this crate holds only the records and the validation-and-mutation logic,
//! as total functions from plain values to plain values.

pub mod errors;
pub mod instructions;
pub mod laws;
pub mod phase;
pub mod states;
