//! Yield donations of a vault contract.
//!
//! Users route a share of their yield to an approved charity each time the
//! yield is paid out. The functions stand in [`donations`]; they work on a
//! [`ledger::Ledger`], which holds the storage entries of the contract as plain
//! values and collects what the call asks of the host. What holds of any series
//! of calls is proved in [`laws`].

pub mod address;
pub mod donations;
pub mod entries;
pub mod error;
pub mod laws;
pub mod ledger;
