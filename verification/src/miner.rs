//! The poll loop as a state machine.
//!
//! The watcher itself performs no network call and never sleeps. Its owner
//! carries out the [`Action`] it is handed, reports what came of it as an
//! [`Event`], and gets the next action from [`HealthInsureChainMiner::step`].

use vstd::prelude::*;
use crate::block::{process_block, processed, ChainBlock, PolicyBlock};
use crate::config::MinerConfig;
use crate::cursor::{pending, Cursor};
use crate::notifier::{confirmation_record, hash_text, ConfirmationRecord};
use crate::stats::{behind, MinerStats};

verus! {

/// A round trip to the node failed, or its answer could not be decoded.
#[derive(Debug, Clone, Copy, PartialEq, Eq)]
pub struct TransportError;

/// Where the watcher stands in its cycle.
#[derive(Debug, Clone, Copy, PartialEq, Eq)]
pub enum Phase {
    /// Built and not started.
    Created,
    /// Waiting for the chain's height at startup.
    Starting,
    /// The height could not be fetched at startup: the watcher sleeps and
    /// then asks for it again. The cursor is not set yet.
    StartDelayed,
    /// Between two ticks.
    Idle,
    /// A tick has begun and waits for the chain's height.
    AwaitingHeight,
    /// Waiting for block `next` of a range that ends at `end`; `found`
    /// policy blocks were confirmed in the range so far.
    Scanning { next: u64, end: u64, found: u64 },
    /// Block `next` is a policy block and its notification is under way.
    Notifying { next: u64, end: u64, found: u64 },
}

/// What the owner reports to the watcher.
#[derive(Debug, PartialEq, Eq)]
pub enum Event {
    /// The owner asks the watcher to begin.
    Start,
    /// The poll interval has passed.
    TimerFired,
    /// The node answered, or failed to answer, the request for its height.
    HeightFetched(Result<u64, TransportError>),
    /// The node answered the request for a block with the block or with
    /// "no such block", or failed to answer.
    BlockFetched(Result<Option<ChainBlock>, TransportError>),
    /// The notification of a policy block is complete.
    NotificationDone,
}

/// What the watcher asks its owner to do next.
#[derive(Debug, Clone, Copy, PartialEq, Eq)]
pub enum Action {
    /// Ask the node for the chain's height.
    FetchHeight,
    /// Ask the node for the block of this number.
    FetchBlock(u64),
    /// Confirm this policy block downstream.
    Notify(PolicyBlock),
    /// Sleep for the poll interval. `report` is the number of policy blocks
    /// confirmed in the tick that ends here, where there was one.
    Sleep { report: Option<u64> },
}

/// The state of a watcher, as far as its transitions depend on it.
pub struct MinerState {
    pub last_processed_block: u64,
    pub phase: Phase,
}

/// The number of confirmed policy blocks to report at the end of a tick:
/// none where nothing was found.
pub open spec fn report_of(found: u64) -> Option<u64> {
    if found > 0 {
        Some(found)
    } else {
        None
    }
}

/// A scan in progress is consistent when the awaited block lies in the
/// range after the cursor, and no more blocks were counted than were passed.
pub open spec fn scan_wf(last: u64, next: u64, end: u64, found: u64) -> bool {
    last < next <= end && found <= next - last - 1
}

/// A state is consistent when the cursor still stands at block 0 before the
/// height at startup has arrived, and a scan in progress is consistent with
/// the cursor.
pub open spec fn state_wf(state: MinerState) -> bool {
    match state.phase {
        Phase::Created => state.last_processed_block == 0,
        Phase::Starting => state.last_processed_block == 0,
        Phase::StartDelayed => state.last_processed_block == 0,
        Phase::Scanning { next, end, found } => scan_wf(state.last_processed_block, next, end, found),
        Phase::Notifying { next, end, found } => scan_wf(state.last_processed_block, next, end, found),
        _ => true,
    }
}

/// State and action once block `next` of a scan is dealt with: the scan
/// moves on to the following block, or, after the last one, the cursor
/// moves to the end of the range and the watcher sleeps.
pub open spec fn after_block(last: u64, next: u64, end: u64, found: u64) -> (MinerState, Action) {
    if next >= end {
        (
            MinerState { last_processed_block: end, phase: Phase::Idle },
            Action::Sleep { report: report_of(found) },
        )
    } else {
        (
            MinerState {
                last_processed_block: last,
                phase: Phase::Scanning { next: (next + 1) as u64, end, found },
            },
            Action::FetchBlock((next + 1) as u64),
        )
    }
}

/// The transition of the watcher: the state and the action that follow
/// `event` in `state`, or `None` where the state does not await that event.
pub open spec fn transition(state: MinerState, event: Event) -> Option<(MinerState, Action)> {
    let last = state.last_processed_block;
    match (state.phase, event) {
        (Phase::Created, Event::Start) => Some(
            (MinerState { last_processed_block: last, phase: Phase::Starting }, Action::FetchHeight),
        ),
        (Phase::Starting, Event::HeightFetched(Ok(height))) => Some(
            (
                MinerState { last_processed_block: height, phase: Phase::AwaitingHeight },
                Action::FetchHeight,
            ),
        ),
        (Phase::Starting, Event::HeightFetched(Err(_))) => Some(
            (
                MinerState { last_processed_block: last, phase: Phase::StartDelayed },
                Action::Sleep { report: None },
            ),
        ),
        (Phase::StartDelayed, Event::TimerFired) => Some(
            (MinerState { last_processed_block: last, phase: Phase::Starting }, Action::FetchHeight),
        ),
        (Phase::Idle, Event::TimerFired) => Some(
            (
                MinerState { last_processed_block: last, phase: Phase::AwaitingHeight },
                Action::FetchHeight,
            ),
        ),
        (Phase::AwaitingHeight, Event::HeightFetched(Ok(height))) => match pending(last, height) {
            Some((start, end)) => Some(
                (
                    MinerState {
                        last_processed_block: last,
                        phase: Phase::Scanning { next: start, end, found: 0 },
                    },
                    Action::FetchBlock(start),
                ),
            ),
            None => Some(
                (
                    MinerState { last_processed_block: last, phase: Phase::Idle },
                    Action::Sleep { report: None },
                ),
            ),
        },
        (Phase::AwaitingHeight, Event::HeightFetched(Err(_))) => Some(
            (
                MinerState { last_processed_block: last, phase: Phase::Idle },
                Action::Sleep { report: None },
            ),
        ),
        (Phase::Scanning { next, end, found }, Event::BlockFetched(Ok(fetched))) => {
            match processed(next, fetched) {
                Some(policy_block) => Some(
                    (
                        MinerState {
                            last_processed_block: last,
                            phase: Phase::Notifying { next, end, found },
                        },
                        Action::Notify(policy_block),
                    ),
                ),
                None => Some(after_block(last, next, end, found)),
            }
        },
        (Phase::Scanning { next, end, found }, Event::BlockFetched(Err(_))) => Some(
            after_block(last, next, end, found),
        ),
        (Phase::Notifying { next, end, found }, Event::NotificationDone) => Some(
            after_block(last, next, end, (found + 1) as u64),
        ),
        _ => None,
    }
}

/// The watcher: its configuration, its cursor and its place in the cycle.
#[derive(Debug, Clone)]
pub struct HealthInsureChainMiner {
    config: MinerConfig,
    cursor: Cursor,
    phase: Phase,
}

impl HealthInsureChainMiner {
    /// The state that the transitions work on.
    pub closed spec fn view(&self) -> MinerState {
        MinerState { last_processed_block: self.cursor@, phase: self.phase }
    }

    /// The configuration that the watcher was built with.
    pub closed spec fn spec_config(&self) -> MinerConfig {
        self.config
    }

    /// The configuration is valid and the state is consistent.
    pub open spec fn wf(&self) -> bool {
        self.spec_config().wf() && state_wf(self@)
    }

    /// A watcher that has not started: its cursor stands at block 0.
    pub fn new(config: MinerConfig) -> (miner: HealthInsureChainMiner)
        requires
            config.wf(),
        ensures
            miner.wf(),
            miner.spec_config() == config,
            miner@.last_processed_block == 0,
            miner@.phase == Phase::Created,
    {
        HealthInsureChainMiner { config, cursor: Cursor::new(), phase: Phase::Created }
    }

    /// The configuration that the watcher was built with.
    pub fn config(&self) -> (config: &MinerConfig)
        ensures
            *config == self.spec_config(),
    {
        &self.config
    }

    /// The number of the last block that was fully processed.
    pub fn last_processed_block(&self) -> (last: u64)
        ensures
            last == self@.last_processed_block,
    {
        self.cursor.last_processed_block()
    }

    /// Where the watcher stands in its cycle.
    pub fn phase(&self) -> (phase: Phase)
        ensures
            phase == self@.phase,
    {
        self.phase
    }

    /// The snapshot of the watcher's progress against a chain of height
    /// `current_block`.
    pub fn get_stats(&self, current_block: u64) -> (stats: MinerStats)
        ensures
            stats.current_block == current_block,
            stats.last_processed_block == self@.last_processed_block,
            stats.confirmation_threshold == self.spec_config().confirmation_threshold,
            stats.blocks_behind == behind(current_block, self@.last_processed_block),
    {
        MinerStats::snapshot(
            current_block,
            self.cursor.last_processed_block(),
            self.config.confirmation_threshold,
        )
    }

    /// The record of the confirmation of `policy_block` at
    /// `confirmation_time`, with the configured confirmation threshold.
    pub fn log_block_confirmation(&self, policy_block: &PolicyBlock, confirmation_time: u64) -> (record:
        ConfirmationRecord)
        ensures
            record.block_number == policy_block.block_number,
            record.block_hash@ == hash_text(policy_block.block_hash@),
            record.timestamp == policy_block.timestamp,
            record.policy_transactions == policy_block.policy_count,
            record.confirmation_time == confirmation_time,
            record.confirmation_threshold == self.spec_config().confirmation_threshold,
    {
        confirmation_record(policy_block, confirmation_time, self.config.confirmation_threshold)
    }

    /// Ends the handling of block `next`: moves on to the following block,
    /// or closes the range after its last block.
    fn finish_block(&mut self, next: u64, end: u64, found: u64) -> (action: Action)
        requires
            old(self).spec_config().wf(),
            old(self)@.last_processed_block < next <= end,
            found <= next - old(self)@.last_processed_block,
        ensures
            (final(self)@, action) == after_block(old(self)@.last_processed_block, next, end, found),
            final(self).spec_config() == old(self).spec_config(),
            final(self).wf(),
    {
        if next >= end {
            self.cursor.advance_to(end);
            self.phase = Phase::Idle;
            let report: Option<u64> = if found > 0 {
                Some(found)
            } else {
                None
            };
            Action::Sleep { report }
        } else {
            self.phase = Phase::Scanning { next: next + 1, end, found };
            Action::FetchBlock(next + 1)
        }
    }

    /// Takes one event and answers with the next action.
    ///
    /// State and action are those of [`transition`]. An event that the
    /// current phase does not await changes nothing and is answered with
    /// `None`. The cursor never moves back.
    pub fn step(&mut self, event: Event) -> (action: Option<Action>)
        requires
            old(self).wf(),
        ensures
            final(self).wf(),
            final(self).spec_config() == old(self).spec_config(),
            match transition(old(self)@, event) {
                Some((state, act)) => final(self)@ == state && action == Some(act),
                None => final(self)@ == old(self)@ && action is None,
            },
            final(self)@.last_processed_block >= old(self)@.last_processed_block,
    {
        let phase: Phase = self.phase;
        match (phase, event) {
            (Phase::Created, Event::Start) => {
                self.phase = Phase::Starting;
                Some(Action::FetchHeight)
            },
            (Phase::Starting, Event::HeightFetched(Ok(height))) => {
                self.cursor.initialize(height);
                self.phase = Phase::AwaitingHeight;
                Some(Action::FetchHeight)
            },
            (Phase::Starting, Event::HeightFetched(Err(_))) => {
                self.phase = Phase::StartDelayed;
                Some(Action::Sleep { report: None })
            },
            (Phase::StartDelayed, Event::TimerFired) => {
                self.phase = Phase::Starting;
                Some(Action::FetchHeight)
            },
            (Phase::Idle, Event::TimerFired) => {
                self.phase = Phase::AwaitingHeight;
                Some(Action::FetchHeight)
            },
            (Phase::AwaitingHeight, Event::HeightFetched(Ok(height))) => {
                match self.cursor.pending_range(height) {
                    Some((start, end)) => {
                        self.phase = Phase::Scanning { next: start, end, found: 0 };
                        Some(Action::FetchBlock(start))
                    },
                    None => {
                        self.phase = Phase::Idle;
                        Some(Action::Sleep { report: None })
                    },
                }
            },
            (Phase::AwaitingHeight, Event::HeightFetched(Err(_))) => {
                self.phase = Phase::Idle;
                Some(Action::Sleep { report: None })
            },
            (Phase::Scanning { next, end, found }, Event::BlockFetched(Ok(fetched))) => {
                match process_block(next, &fetched) {
                    Some(policy_block) => {
                        self.phase = Phase::Notifying { next, end, found };
                        Some(Action::Notify(policy_block))
                    },
                    None => Some(self.finish_block(next, end, found)),
                }
            },
            (Phase::Scanning { next, end, found }, Event::BlockFetched(Err(_))) => {
                Some(self.finish_block(next, end, found))
            },
            (Phase::Notifying { next, end, found }, Event::NotificationDone) => {
                Some(self.finish_block(next, end, found + 1))
            },
            _ => None,
        }
    }
}

} // verus!
