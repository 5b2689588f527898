//! Accounting and lifecycle engine of a yield-bearing vault.
//!
//! The vault mints share tokens against deposits of an underlying asset,
//! prices them with an oracle-reported, deviation-guarded price, pays
//! withdrawals through a request/fulfilment protocol and changes its
//! privileged parameters only through propose/accept timelocks.
//!
//! Every operation is a transition on an explicit [`stoken::SToken`] value.
//! Token transfers, authorization and event emission are left to the host:
//! each transition returns a receipt naming the address that must have
//! authorized it and the token movements the host has to perform.

pub mod access;
pub mod address;
pub mod constants;
pub mod emergency;
pub mod errors;
pub mod governance;
pub mod keys;
pub mod ledger;
pub mod math;
pub mod oracle;
pub mod receipts;
pub mod stoken;
pub mod swap;
pub mod types;
pub mod utils;
pub mod withdrawal;
