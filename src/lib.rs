//! An authorization-gated record store: users register a profile, send
//! messages backed by a fixed deposit, and an administrator collects a fee
//! from each deposit and later withdraws it.
//!
//! Every record lives at an address derived from a namespace tag and an owner
//! key; every mutation checks that the caller controls the owner key; every
//! value-moving operation is all-or-nothing.

pub mod key;
pub mod address;
pub mod table;
pub mod state;
pub mod fees;
pub mod transitions;
pub mod ledger;
pub mod laws;
