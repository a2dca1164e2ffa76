//! What is reported and done downstream for a confirmed policy block.

use vstd::prelude::*;
use crate::block::PolicyBlock;

verus! {

/// The sixteen hexadecimal digits, lower case, each at the place of its value.
pub open spec fn hex_digits() -> Seq<char> {
    seq!['0', '1', '2', '3', '4', '5', '6', '7', '8', '9', 'a', 'b', 'c', 'd', 'e', 'f']
}

/// The lower-case hexadecimal text of `data`: two digits for each byte, the
/// digit of its upper four bits before that of its lower four.
pub open spec fn hex_text(data: Seq<u8>) -> Seq<char> {
    Seq::new(
        2 * data.len(),
        |i: int|
            if i % 2 == 0 {
                hex_digits()[data[i / 2] as int / 16]
            } else {
                hex_digits()[data[i / 2] as int % 16]
            },
    )
}

/// The text under which a hash is reported: `0x` and its hexadecimal digits.
pub open spec fn hash_text(hash: Seq<u8>) -> Seq<char> {
    seq!['0', 'x'] + hex_text(hash)
}

/// Calls `hex::encode`, which walks the bytes in order and writes for each
/// one two characters of `0123456789abcdef`: first the one at the index of
/// the byte's upper four bits, then the one at the index of its lower four.
/// The contract states this as [`hex_text`]. It is believed, not proved.
#[verifier::external_body]
fn hex_encode(data: &[u8]) -> (text: String)
    ensures
        text@ == hex_text(data@),
{
    hex::encode(data)
}

/// The record of one confirmation: the fields of the policy block, the hash
/// as text, the wall-clock time of the confirmation in seconds since the
/// epoch, and the configured confirmation threshold.
#[derive(Debug, Clone, PartialEq, Eq)]
pub struct ConfirmationRecord {
    pub block_number: u64,
    pub block_hash: String,
    pub timestamp: u64,
    pub policy_transactions: u64,
    pub confirmation_time: u64,
    pub confirmation_threshold: u64,
}

/// Builds the record of the confirmation of `policy_block` at
/// `confirmation_time`.
pub fn confirmation_record(
    policy_block: &PolicyBlock,
    confirmation_time: u64,
    confirmation_threshold: u64,
) -> (record: ConfirmationRecord)
    ensures
        record.block_number == policy_block.block_number,
        record.block_hash@ == hash_text(policy_block.block_hash@),
        record.block_hash@.len() == 66,
        record.timestamp == policy_block.timestamp,
        record.policy_transactions == policy_block.policy_count,
        record.confirmation_time == confirmation_time,
        record.confirmation_threshold == confirmation_threshold,
{
    let digits: String = hex_encode(policy_block.block_hash.as_slice());
    let block_hash: String = String::from_str("0x").concat(digits.as_str());
    proof {
        reveal_strlit("0x");
        assert("0x"@ =~= seq!['0', 'x']);
    }
    ConfirmationRecord {
        block_number: policy_block.block_number,
        block_hash,
        timestamp: policy_block.timestamp,
        policy_transactions: policy_block.policy_count,
        confirmation_time,
        confirmation_threshold,
    }
}

/// One of the downstream steps that follow a confirmation.
#[derive(Debug, Clone, Copy, PartialEq, Eq)]
pub enum NotifyStep {
    /// Update the statuses of the policies.
    UpdatePolicyStatuses,
    /// Trigger the verification of claims.
    TriggerClaimVerification,
    /// Update the off-chain databases.
    UpdateOffChainDatabases,
    /// Notify the parties concerned.
    NotifyParties,
}

/// The time that a step takes, in milliseconds.
pub open spec fn step_delay(step: NotifyStep) -> u64 {
    match step {
        NotifyStep::UpdatePolicyStatuses => 100,
        NotifyStep::TriggerClaimVerification => 150,
        NotifyStep::UpdateOffChainDatabases => 200,
        NotifyStep::NotifyParties => 100,
    }
}

/// The steps that follow every confirmation, in the order in which they
/// are performed.
pub open spec fn step_sequence() -> Seq<NotifyStep> {
    seq![
        NotifyStep::UpdatePolicyStatuses,
        NotifyStep::TriggerClaimVerification,
        NotifyStep::UpdateOffChainDatabases,
        NotifyStep::NotifyParties,
    ]
}

impl NotifyStep {
    /// The time that the step takes, in milliseconds.
    pub fn delay_millis(&self) -> (millis: u64)
        ensures
            millis == step_delay(*self),
    {
        match self {
            NotifyStep::UpdatePolicyStatuses => 100,
            NotifyStep::TriggerClaimVerification => 150,
            NotifyStep::UpdateOffChainDatabases => 200,
            NotifyStep::NotifyParties => 100,
        }
    }
}

/// The steps to perform for a confirmed policy block, one after the other.
/// They are the same for every block, and none of them can fail.
pub fn notification_steps() -> (steps: Vec<NotifyStep>)
    ensures
        steps@ == step_sequence(),
{
    let steps: Vec<NotifyStep> = vec![
        NotifyStep::UpdatePolicyStatuses,
        NotifyStep::TriggerClaimVerification,
        NotifyStep::UpdateOffChainDatabases,
        NotifyStep::NotifyParties,
    ];
    assert(steps@ =~= step_sequence());
    steps
}

} // verus!
