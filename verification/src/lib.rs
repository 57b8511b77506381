//! A token sale on a ledger of accounts: native currency is exchanged for
//! the sale's token, payments made elsewhere are credited on a trusted
//! authority's word, and the one who opened the sale closes it.
//!
//! Every operation is decided here, on a snapshot of the accounts it was
//! handed: the answer is the first failure in a fixed order of checks, or the
//! plan of the calls that carry the operation out.

pub mod account;
pub mod address;
pub mod config;
pub mod error;
pub mod exchange;
pub mod initialize;
pub mod instruction;
pub mod laws;
pub mod ledger;
pub mod payment;
pub mod processor;
pub mod state;
pub mod terminate;
pub mod util;
