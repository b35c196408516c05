//! A non-fungible-token ledger: address whitelisting, one-mint-per-address
//! issuance up to a fixed supply, ownership records, per-token approvals, and
//! transfer semantics (direct and delegated).
//!
//! The ledger itself is a pure state machine over plain values. Durable
//! storage, caller authentication, and event delivery are collaborators of the
//! surrounding host; an adapter hands the ledger its state and performs those
//! effects around it.

use vstd::prelude::*;

pub mod laws;
pub mod ledger;
pub mod model;

verus! {

/// The fixed maximum number of tokens that can ever be minted.
pub const MAX_SUPPLY: i128 = 2000;

} // verus!
