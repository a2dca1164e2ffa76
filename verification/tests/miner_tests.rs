use rust_miner::block::PolicyBlock;
use rust_miner::config::MinerConfig;
use web3::types::H256;

#[test]
fn test_policy_block_creation() {
    let policy_block = PolicyBlock {
        block_number: 12345,
        block_hash: H256::from_low_u64_be(12345).to_fixed_bytes(),
        timestamp: 1640995200,
        policy_count: 3,
    };

    assert_eq!(policy_block.block_number, 12345);
    assert_eq!(policy_block.policy_count, 3);
}

#[test]
fn test_miner_config() {
    let config = MinerConfig {
        rpc_url: "http://localhost:8545".to_string(),
        confirmation_threshold: 12,
        poll_interval_secs: 5,
    };

    assert_eq!(config.rpc_url, "http://localhost:8545");
    assert_eq!(config.confirmation_threshold, 12);
    assert_eq!(config.poll_interval_secs, 5);
    assert_eq!(std::time::Duration::from_secs(config.poll_interval_secs).as_secs(), 5);
}
