//! A content-addressed file registry with pay-per-access settlement.
//!
//! The registry records metadata about uploaded files, enforces per-account
//! upload capacity limits, tracks which accounts have paid to download which
//! files, computes the download cost (flat or size-tiered), and settles the
//! payment to a designated collection account before granting access. It also
//! supports atomic ownership transfer of a registered file.
//!
//! All state lives in an explicit [`registry::Pallet`] value; the balance
//! ledger is an external collaborator reached through the [`ledger::Ledger`]
//! trait.

pub mod codec;
pub mod hashing;
pub mod laws;
pub mod ledger;
pub mod registry;
pub mod settlement;
pub mod types;
