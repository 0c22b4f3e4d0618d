//! Accounting and authority core of a two-asset exchange vault.

pub mod authority;
pub mod error;
pub mod identity;
pub mod laws;
pub mod ledger;
pub mod math;
pub mod order;
pub mod reserve;
pub mod state;
pub mod swap;
pub mod withdraw;
