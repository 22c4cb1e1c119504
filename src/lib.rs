//! Custody and time-release accounting for a governance token.
//!
//! Deposits of SRM (or its "mega" denomination, MSRM) create a locked or a
//! vesting record together with a claim ticket; a matured claim ticket mints
//! gSRM; burning gSRM against a record issues a redeem ticket; a matured
//! redeem ticket releases the deposited asset. Every operation is a checked
//! transition of the record store in `ledger`, specified by the step
//! functions of `model`.
use vstd::prelude::*;

pub mod errors;
pub mod laws;
pub mod ledger;
pub mod model;
pub mod serum_gov;
pub mod state;
pub mod vesting;

verus! {

/// Number of gSRM base units that one MSRM unit stands for.
pub const MSRM_MULTIPLIER: u64 = 1_000_000_000_000;

} // verus!
