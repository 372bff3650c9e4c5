//! The logic of the reference contracts, apart from ledger storage and
//! cross-contract calls.
pub mod allowance;
pub mod reentrancy;
pub mod token;
