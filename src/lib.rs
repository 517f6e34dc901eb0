//! Custodial tipping ledger: vaults keyed by hashed identities, capped
//! allowances spent by a relayer, and a fee vault that collects a
//! basis-point fee on every tip.
use vstd::prelude::*;

pub mod keys;
pub mod address;
pub mod fee;
pub mod state;
pub mod tip;
pub mod custody;
pub mod allowance;
pub mod admin;
pub mod lemmas;

verus! {

} // verus!
