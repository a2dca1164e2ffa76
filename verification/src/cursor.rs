//! The cursor over block numbers.

use vstd::prelude::*;

verus! {

/// The number of the last block that was fully processed.
#[derive(Debug, Clone, Copy)]
pub struct Cursor {
    last_processed_block: u64,
}

/// The blocks still to be scanned when the chain stands at `current_height`
/// and `last` was the last block processed: none if the chain has not grown,
/// else the inclusive range from the block after `last` up to the tip.
pub open spec fn pending(last: u64, current_height: u64) -> Option<(u64, u64)> {
    if current_height <= last {
        None
    } else {
        Some(((last + 1) as u64, current_height))
    }
}

impl Cursor {
    /// The number of the last processed block.
    pub closed spec fn view(&self) -> u64 {
        self.last_processed_block
    }

    /// A cursor that has not been set yet: it stands at block 0.
    pub fn new() -> (cursor: Cursor)
        ensures
            cursor@ == 0,
    {
        Cursor { last_processed_block: 0 }
    }

    /// Sets the cursor to the chain's height at startup, so that earlier
    /// blocks are never scanned.
    pub fn initialize(&mut self, height: u64)
        ensures
            final(self)@ == height,
    {
        self.last_processed_block = height;
    }

    /// The number of the last processed block.
    pub fn last_processed_block(&self) -> (last: u64)
        ensures
            last == self@,
    {
        self.last_processed_block
    }

    /// The inclusive range of blocks to scan for a chain of height
    /// `current_height`, or `None` where there is nothing new.
    pub fn pending_range(&self, current_height: u64) -> (range: Option<(u64, u64)>)
        ensures
            range == pending(self@, current_height),
            current_height <= self@ <==> range is None,
            range matches Some((start, end)) ==> start == self@ + 1 && end == current_height,
    {
        if current_height <= self.last_processed_block {
            None
        } else {
            Some((self.last_processed_block + 1, current_height))
        }
    }

    /// Moves the cursor to `end`, whatever happened to the blocks before it.
    pub fn advance_to(&mut self, end: u64)
        ensures
            final(self)@ == end,
    {
        self.last_processed_block = end;
    }
}

} // verus!
