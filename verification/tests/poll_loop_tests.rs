use rust_miner::block::{ChainBlock, PolicyBlock};
use rust_miner::config::MinerConfig;
use rust_miner::miner::{Action, Event, HealthInsureChainMiner, Phase, TransportError};
use rust_miner::stats::MinerStats;

fn miner() -> HealthInsureChainMiner {
    let config = MinerConfig::new("http://localhost:8545".to_string(), 12, 5).unwrap();
    HealthInsureChainMiner::new(config)
}

fn started_at(height: u64) -> HealthInsureChainMiner {
    let mut miner = miner();
    assert_eq!(miner.step(Event::Start), Some(Action::FetchHeight));
    assert_eq!(miner.step(Event::HeightFetched(Ok(height))), Some(Action::FetchHeight));
    miner
}

fn block_with(transactions: usize, timestamp: u64) -> ChainBlock {
    ChainBlock { hash: Some([0x11; 32]), timestamp, transactions: vec![[0x22; 32]; transactions] }
}

#[test]
fn new_miner_is_not_started() {
    let miner = miner();
    assert_eq!(miner.phase(), Phase::Created);
    assert_eq!(miner.last_processed_block(), 0);
    assert_eq!(miner.config().confirmation_threshold, 12);
    assert_eq!(miner.config().poll_interval_secs, 5);
    assert_eq!(miner.config().rpc_url, "http://localhost:8545");
}

#[test]
fn stats_before_start_count_from_block_zero() {
    let miner = miner();
    assert_eq!(
        miner.get_stats(100),
        MinerStats {
            current_block: 100,
            last_processed_block: 0,
            blocks_behind: 100,
            confirmation_threshold: 12,
        }
    );
}

#[test]
fn start_initializes_the_cursor_from_the_height() {
    let miner = started_at(100);
    assert_eq!(miner.last_processed_block(), 100);
    assert_eq!(miner.phase(), Phase::AwaitingHeight);
    assert_eq!(miner.get_stats(100).blocks_behind, 0);
}

#[test]
fn start_is_retried_when_the_height_cannot_be_fetched() {
    let mut miner = miner();
    assert_eq!(miner.step(Event::Start), Some(Action::FetchHeight));
    assert_eq!(miner.phase(), Phase::Starting);
    for _ in 0..2 {
        assert_eq!(
            miner.step(Event::HeightFetched(Err(TransportError))),
            Some(Action::Sleep { report: None })
        );
        assert_eq!(miner.phase(), Phase::StartDelayed);
        assert_eq!(miner.last_processed_block(), 0);
        assert_eq!(miner.step(Event::Start), None);
        assert_eq!(miner.step(Event::BlockFetched(Ok(None))), None);
        assert_eq!(miner.step(Event::TimerFired), Some(Action::FetchHeight));
        assert_eq!(miner.phase(), Phase::Starting);
    }
    assert_eq!(miner.step(Event::HeightFetched(Ok(100))), Some(Action::FetchHeight));
    assert_eq!(miner.last_processed_block(), 100);
    assert_eq!(miner.phase(), Phase::AwaitingHeight);
    assert_eq!(miner.step(Event::HeightFetched(Ok(101))), Some(Action::FetchBlock(101)));
}

#[test]
fn tick_scans_the_pending_range_and_advances() {
    let mut miner = started_at(100);

    assert_eq!(miner.step(Event::HeightFetched(Ok(103))), Some(Action::FetchBlock(101)));
    assert_eq!(miner.phase(), Phase::Scanning { next: 101, end: 103, found: 0 });

    assert_eq!(
        miner.step(Event::BlockFetched(Ok(Some(block_with(0, 1000))))),
        Some(Action::FetchBlock(102))
    );
    assert_eq!(
        miner.step(Event::BlockFetched(Err(TransportError))),
        Some(Action::FetchBlock(103))
    );
    assert_eq!(miner.last_processed_block(), 100);

    assert_eq!(
        miner.step(Event::BlockFetched(Ok(Some(block_with(2, 1024))))),
        Some(Action::Notify(PolicyBlock {
            block_number: 103,
            block_hash: [0x11; 32],
            timestamp: 1024,
            policy_count: 2,
        }))
    );
    assert_eq!(miner.phase(), Phase::Notifying { next: 103, end: 103, found: 0 });
    assert_eq!(miner.last_processed_block(), 100);

    assert_eq!(miner.step(Event::NotificationDone), Some(Action::Sleep { report: Some(1) }));
    assert_eq!(miner.last_processed_block(), 103);
    assert_eq!(miner.phase(), Phase::Idle);
}

#[test]
fn tick_without_new_blocks_fetches_nothing() {
    let mut miner = started_at(100);
    assert_eq!(miner.step(Event::HeightFetched(Ok(103))), Some(Action::FetchBlock(101)));
    assert_eq!(miner.step(Event::BlockFetched(Ok(None))), Some(Action::FetchBlock(102)));
    assert_eq!(miner.step(Event::BlockFetched(Ok(None))), Some(Action::FetchBlock(103)));
    assert_eq!(miner.step(Event::BlockFetched(Ok(None))), Some(Action::Sleep { report: None }));
    assert_eq!(miner.last_processed_block(), 103);

    for _ in 0..2 {
        assert_eq!(miner.step(Event::TimerFired), Some(Action::FetchHeight));
        assert_eq!(miner.step(Event::HeightFetched(Ok(103))), Some(Action::Sleep { report: None }));
        assert_eq!(miner.phase(), Phase::Idle);
        assert_eq!(miner.last_processed_block(), 103);
    }
}

#[test]
fn tick_is_skipped_when_the_height_cannot_be_fetched() {
    let mut miner = started_at(100);
    assert_eq!(
        miner.step(Event::HeightFetched(Err(TransportError))),
        Some(Action::Sleep { report: None })
    );
    assert_eq!(miner.last_processed_block(), 100);
    assert_eq!(miner.phase(), Phase::Idle);
    assert_eq!(miner.step(Event::TimerFired), Some(Action::FetchHeight));
    assert_eq!(miner.step(Event::HeightFetched(Ok(101))), Some(Action::FetchBlock(101)));
}

#[test]
fn height_below_the_cursor_leaves_it_in_place() {
    let mut miner = started_at(100);
    assert_eq!(miner.step(Event::HeightFetched(Ok(42))), Some(Action::Sleep { report: None }));
    assert_eq!(miner.last_processed_block(), 100);
}

#[test]
fn every_policy_block_of_a_tick_is_counted() {
    let mut miner = started_at(0);
    assert_eq!(miner.step(Event::HeightFetched(Ok(3))), Some(Action::FetchBlock(1)));
    for number in 1..=3u64 {
        let action = miner.step(Event::BlockFetched(Ok(Some(block_with(1, number)))));
        assert_eq!(
            action,
            Some(Action::Notify(PolicyBlock {
                block_number: number,
                block_hash: [0x11; 32],
                timestamp: number,
                policy_count: 1,
            }))
        );
        let action = miner.step(Event::NotificationDone);
        if number < 3 {
            assert_eq!(action, Some(Action::FetchBlock(number + 1)));
            assert_eq!(miner.last_processed_block(), 0);
        } else {
            assert_eq!(action, Some(Action::Sleep { report: Some(3) }));
        }
    }
    assert_eq!(miner.last_processed_block(), 3);
}

#[test]
fn failed_blocks_are_skipped_for_good() {
    let mut miner = started_at(10);
    assert_eq!(miner.step(Event::HeightFetched(Ok(12))), Some(Action::FetchBlock(11)));
    assert_eq!(miner.step(Event::BlockFetched(Err(TransportError))), Some(Action::FetchBlock(12)));
    assert_eq!(
        miner.step(Event::BlockFetched(Err(TransportError))),
        Some(Action::Sleep { report: None })
    );
    assert_eq!(miner.last_processed_block(), 12);
    assert_eq!(miner.step(Event::TimerFired), Some(Action::FetchHeight));
    assert_eq!(miner.step(Event::HeightFetched(Ok(13))), Some(Action::FetchBlock(13)));
}

#[test]
fn scan_reaches_the_last_block_number() {
    let mut miner = started_at(u64::MAX - 1);
    assert_eq!(miner.step(Event::HeightFetched(Ok(u64::MAX))), Some(Action::FetchBlock(u64::MAX)));
    assert!(matches!(
        miner.step(Event::BlockFetched(Ok(Some(block_with(1, 0))))),
        Some(Action::Notify(_))
    ));
    assert_eq!(miner.step(Event::NotificationDone), Some(Action::Sleep { report: Some(1) }));
    assert_eq!(miner.last_processed_block(), u64::MAX);
}

#[test]
fn unexpected_events_change_nothing() {
    let mut miner = miner();
    assert_eq!(miner.step(Event::TimerFired), None);
    assert_eq!(miner.step(Event::HeightFetched(Ok(5))), None);
    assert_eq!(miner.step(Event::NotificationDone), None);
    assert_eq!(miner.phase(), Phase::Created);
    assert_eq!(miner.last_processed_block(), 0);

    let mut miner = started_at(100);
    assert_eq!(miner.step(Event::BlockFetched(Ok(None))), None);
    assert_eq!(miner.step(Event::Start), None);
    assert_eq!(miner.phase(), Phase::AwaitingHeight);
    assert_eq!(miner.step(Event::HeightFetched(Ok(101))), Some(Action::FetchBlock(101)));
    assert_eq!(miner.step(Event::HeightFetched(Ok(200))), None);
    assert_eq!(miner.step(Event::NotificationDone), None);
    assert_eq!(miner.phase(), Phase::Scanning { next: 101, end: 101, found: 0 });
    assert_eq!(miner.last_processed_block(), 100);
}
