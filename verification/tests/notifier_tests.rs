use rust_miner::block::PolicyBlock;
use rust_miner::config::MinerConfig;
use rust_miner::miner::HealthInsureChainMiner;
use rust_miner::notifier::{confirmation_record, notification_steps, ConfirmationRecord, NotifyStep};

fn low_u64_be(value: u64) -> [u8; 32] {
    let mut hash = [0u8; 32];
    hash[24..].copy_from_slice(&value.to_be_bytes());
    hash
}

#[test]
fn record_holds_the_hash_as_hex_text() {
    let policy_block = PolicyBlock {
        block_number: 12345,
        block_hash: low_u64_be(12345),
        timestamp: 1640995200,
        policy_count: 3,
    };
    let record = confirmation_record(&policy_block, 1640995300, 12);
    assert_eq!(
        record,
        ConfirmationRecord {
            block_number: 12345,
            block_hash: "0x0000000000000000000000000000000000000000000000000000000000003039"
                .to_string(),
            timestamp: 1640995200,
            policy_transactions: 3,
            confirmation_time: 1640995300,
            confirmation_threshold: 12,
        }
    );
}

#[test]
fn hex_text_is_lower_case_with_the_upper_digit_first() {
    let mut hash = [0u8; 32];
    hash[0] = 0xf9;
    hash[1] = 0xb4;
    hash[2] = 0xca;
    hash[31] = 0x0f;
    let policy_block = PolicyBlock { block_number: 1, block_hash: hash, timestamp: 2, policy_count: 1 };
    let record = confirmation_record(&policy_block, 0, 0);
    assert_eq!(
        record.block_hash,
        "0xf9b4ca000000000000000000000000000000000000000000000000000000000f"
    );
    assert_eq!(record.block_hash.len(), 66);
}

#[test]
fn miner_attaches_its_threshold_to_the_record() {
    let config = MinerConfig::new("http://localhost:8545".to_string(), 7, 5).unwrap();
    let miner = HealthInsureChainMiner::new(config);
    let policy_block =
        PolicyBlock { block_number: 9, block_hash: [0xff; 32], timestamp: 10, policy_count: 4 };
    let record = miner.log_block_confirmation(&policy_block, 11);
    assert_eq!(record.block_number, 9);
    assert_eq!(record.block_hash, format!("0x{}", "ff".repeat(32)));
    assert_eq!(record.timestamp, 10);
    assert_eq!(record.policy_transactions, 4);
    assert_eq!(record.confirmation_time, 11);
    assert_eq!(record.confirmation_threshold, 7);
}

#[test]
fn four_steps_follow_a_confirmation_in_order() {
    assert_eq!(
        notification_steps(),
        vec![
            NotifyStep::UpdatePolicyStatuses,
            NotifyStep::TriggerClaimVerification,
            NotifyStep::UpdateOffChainDatabases,
            NotifyStep::NotifyParties,
        ]
    );
}

#[test]
fn each_step_has_its_delay() {
    assert_eq!(NotifyStep::UpdatePolicyStatuses.delay_millis(), 100);
    assert_eq!(NotifyStep::TriggerClaimVerification.delay_millis(), 150);
    assert_eq!(NotifyStep::UpdateOffChainDatabases.delay_millis(), 200);
    assert_eq!(NotifyStep::NotifyParties.delay_millis(), 100);
    let total: u64 = notification_steps().iter().map(|step| step.delay_millis()).sum();
    assert_eq!(total, 550);
}
