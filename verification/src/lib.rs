//! A block-confirmation watcher for a blockchain node, as a verified core.
//!
//! The crate holds the decisions of the watcher: how a fetched block is
//! classified, how the cursor over block numbers moves, and which action
//! follows each event of the poll loop. Network round trips, sleeping and
//! logging are left to the program that drives it.

pub mod block;
pub mod cursor;
pub mod config;
pub mod stats;
pub mod miner;
pub mod notifier;
pub mod tick;
