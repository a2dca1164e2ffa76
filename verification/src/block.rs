//! Fetched blocks and their classification.

use vstd::prelude::*;

verus! {

/// What the node returned for one block: its hash, if the node reported one,
/// its timestamp in seconds since the epoch, and the identifiers of its
/// transactions.
#[derive(Debug, Clone, PartialEq, Eq)]
pub struct ChainBlock {
    pub hash: Option<[u8; 32]>,
    pub timestamp: u64,
    pub transactions: Vec<[u8; 32]>,
}

/// Summary of a block that was classified as carrying policy activity.
#[derive(Debug, Clone, Copy, PartialEq, Eq)]
pub struct PolicyBlock {
    pub block_number: u64,
    pub block_hash: [u8; 32],
    pub timestamp: u64,
    pub policy_count: u64,
}

impl PolicyBlock {
    /// A policy block holds at least one policy transaction.
    pub open spec fn wf(&self) -> bool {
        self.policy_count >= 1
    }
}

/// The hash recorded for a block: the one the node reported, or all zeroes
/// where it reported none.
pub open spec fn recorded_hash(hash: Option<[u8; 32]>) -> [u8; 32] {
    match hash {
        Some(h) => h,
        None => vstd::array::spec_array_fill_for_copy_type::<u8, 32>(0u8),
    }
}

/// A block is a policy block exactly when it holds at least one transaction.
pub open spec fn is_policy_block(block: ChainBlock) -> bool {
    block.transactions@.len() > 0
}

/// The summary of a policy block: every transaction counts as a policy
/// transaction, and hash and timestamp are those of the block.
pub open spec fn policy_summary(block_number: u64, block: ChainBlock) -> PolicyBlock {
    PolicyBlock {
        block_number,
        block_hash: recorded_hash(block.hash),
        timestamp: block.timestamp,
        policy_count: block.transactions@.len() as u64,
    }
}

/// What classification yields for a block fetched under `block_number`.
pub open spec fn classification(block_number: u64, block: ChainBlock) -> Option<PolicyBlock> {
    if is_policy_block(block) {
        Some(policy_summary(block_number, block))
    } else {
        None
    }
}

/// What the answer of the node to the request for block `block_number`
/// yields: where the node has no such block, there is no policy block.
pub open spec fn processed(block_number: u64, fetched: Option<ChainBlock>) -> Option<PolicyBlock> {
    match fetched {
        Some(block) => classification(block_number, block),
        None => None,
    }
}

/// Counts the policy transactions of a block: under the heuristic in use,
/// all of its transactions.
pub fn count_policy_transactions(block: &ChainBlock) -> (count: u64)
    ensures
        count == block.transactions@.len(),
{
    let n: usize = block.transactions.len();
    n as u64
}

/// Classifies the block that was fetched under `block_number`.
///
/// Returns `None` for a block without transactions, and otherwise the
/// summary with the transaction count and the block's own hash and
/// timestamp.
pub fn classify(block_number: u64, block: &ChainBlock) -> (result: Option<PolicyBlock>)
    ensures
        result == classification(block_number, *block),
        block.transactions@.len() == 0 <==> result is None,
        result matches Some(p) ==> {
            &&& p.wf()
            &&& p.block_number == block_number
            &&& p.policy_count == block.transactions@.len()
            &&& p.timestamp == block.timestamp
            &&& p.block_hash == recorded_hash(block.hash)
            &&& block.hash matches Some(h) ==> p.block_hash == h
            &&& block.hash is None ==> forall|i: int| 0 <= i < 32 ==> p.block_hash[i] == 0u8
        },
{
    let policy_count: u64 = count_policy_transactions(block);
    if policy_count > 0 {
        let block_hash: [u8; 32] = match block.hash {
            Some(h) => h,
            None => [0u8; 32],
        };
        Some(PolicyBlock { block_number, block_hash, timestamp: block.timestamp, policy_count })
    } else {
        None
    }
}

/// Classifies what the node answered to the request for block
/// `block_number`. A block that the node does not have is no policy block,
/// and no error.
pub fn process_block(block_number: u64, fetched: &Option<ChainBlock>) -> (result: Option<PolicyBlock>)
    ensures
        result == processed(block_number, *fetched),
        result is Some <==> (fetched matches Some(block) && block.transactions@.len() > 0),
        result matches Some(p) ==> p.wf() && p.block_number == block_number,
{
    match fetched {
        Some(block) => classify(block_number, block),
        None => None,
    }
}

} // verus!
