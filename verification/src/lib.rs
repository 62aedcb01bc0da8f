//! Watches a chain's reward rounds and reports when the reward transaction of
//! a round is missing.
//!
//! A round is a stretch of blocks during which the watched address is due to
//! claim its reward once. The library follows the rounds by the heights of
//! the new blocks, looks for the claiming transaction in what the chain
//! delivers, and keeps one flag that says whether the claim of the current
//! round was seen. It does no input or output of its own: the caller hands
//! it what arrived and performs what it asks for.
//!
//! - [`uint256`]: the 256-bit numbers of the chain.
//! - [`chain`]: addresses, hashes, transactions, block headers.
//! - [`round_detector`]: the round and its boundaries.
//! - [`transaction_detector`]: the search for the claiming transaction.
//! - [`alert`]: the flag, the alerts, and their text.
//! - [`watcher`]: the state machine that puts the three together.
//! - [`watcher_laws`]: what holds of that machine.
//! - [`amount`]: token amounts as text.
//! - [`initialization`]: the settings.
//! - [`error`]: the failures.

pub mod alert;
pub mod amount;
pub mod chain;
pub mod error;
pub mod initialization;
pub mod round_detector;
pub mod transaction_detector;
pub mod uint256;
pub mod watcher;
pub mod watcher_laws;
