//! Snapshots of the watcher's progress.

use vstd::prelude::*;

verus! {

/// A snapshot of how far the watcher is behind the chain. It is computed
/// on demand and kept nowhere.
#[derive(Debug, Clone, Copy, PartialEq, Eq)]
pub struct MinerStats {
    pub current_block: u64,
    pub last_processed_block: u64,
    pub blocks_behind: u64,
    pub confirmation_threshold: u64,
}

/// The distance from `last_processed_block` up to `current_block`, and zero
/// where the chain's height is not above the cursor.
pub open spec fn behind(current_block: u64, last_processed_block: u64) -> int {
    if current_block >= last_processed_block {
        current_block - last_processed_block
    } else {
        0
    }
}

impl MinerStats {
    /// The snapshot for a chain of height `current_block` and a cursor at
    /// `last_processed_block`.
    pub fn snapshot(current_block: u64, last_processed_block: u64, confirmation_threshold: u64) -> (stats:
        MinerStats)
        ensures
            stats.current_block == current_block,
            stats.last_processed_block == last_processed_block,
            stats.confirmation_threshold == confirmation_threshold,
            stats.blocks_behind == behind(current_block, last_processed_block),
            stats.blocks_behind >= 0,
            current_block >= last_processed_block ==> stats.blocks_behind + last_processed_block
                == current_block,
    {
        let blocks_behind: u64 = if current_block >= last_processed_block {
            current_block - last_processed_block
        } else {
            0
        };
        MinerStats { current_block, last_processed_block, blocks_behind, confirmation_threshold }
    }
}

} // verus!
