//! Crowdfunding campaigns on a shared ledger: the records, the four
//! transitions (create, contribute, withdraw, refund) and the invariants that
//! hold of every sequence of them.

pub mod accounts;
pub mod address;
pub mod error;
pub mod key;
pub mod laws;
pub mod ledger;
pub mod state;
pub mod system;
pub mod totals;
pub mod transitions;
