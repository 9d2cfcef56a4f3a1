//! A peer-to-peer collateralized loan agreement: a lender escrows funds to be
//! borrowed, a borrower locks collateral and receives the funds, and the
//! agreement resolves either by repayment (collateral returned) or by the
//! lender reclaiming both escrows after the deadline passes unrepaid.
//!
//! The library verifies the loan-agreement state machine and its
//! escrow-custody model: terms validation, exactly-once transitions between
//! the funded and active states, and atomic release of both escrow balances
//! to the correct party under every terminal condition. Balance records and
//! the asset transfer port are modelled over plain values at the interface
//! the external ledger guarantees; the custodial escrow identity is derived
//! through the real program-address derivation.

pub mod agreement;
pub mod authority;
pub mod laws;
pub mod ledger;
pub mod operations;
pub mod validation;
