//! A tip jar ledger record: a bounded ring of recent tips, running totals,
//! and the owner-only rules that guard every change to the record.
//!
//! The hosting ledger supplies storage, caller identities, value transfers
//! and event delivery. The operations here decide, and hand back what the
//! host must do (a transfer, a notification) as plain values.

pub mod error;
pub mod events;
pub mod state;
pub mod laws;
pub mod tipjar;
