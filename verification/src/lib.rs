//! A peer-to-peer lending contract with verified rules.
//!
//! The contract keeps loan requests, approvals, repayments and configuration
//! in a key-value ledger. Every entry point checks who authorised the call,
//! refuses what the rules forbid with a [`LendingError`], and otherwise moves
//! the ledger to the one next state that the rules prescribe.
//!
//! * [`types`] holds the records, keys and events of the contract.
//! * [`errors`] holds the reasons for which a call is refused.
//! * [`entries`] is the key-value map that ledger entries live in.
//! * [`math`] is the integer arithmetic of fees and interest.
//! * [`state`] is the executable contract state and its mathematical view.
//! * [`model`] says, for every call, when it is refused and what it does.
//! * [`admin`], [`loans`], [`rates`], [`queries`] and [`flash`] are the calls.
//! * [`behaviour`] says of every call what it does, by the ledger entries and
//!   the numbers alone.
//! * [`history`] puts calls in sequence; [`soundness`] and [`laws`] state and
//!   prove what holds over all of them.
pub mod admin;
pub mod behaviour;
pub mod entries;
pub mod errors;
pub mod flash;
pub mod history;
pub mod laws;
pub mod loans;
pub mod math;
pub mod model;
pub mod queries;
pub mod rates;
pub mod soundness;
pub mod state;
pub mod types;

pub use errors::LendingError;
