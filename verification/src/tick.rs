//! Whole ticks of the poll loop, and what holds of them.
//!
//! A tick is a run of transitions: the height is fetched, then every block
//! of the pending range is fetched in turn, and each policy block among
//! them is confirmed before the next block is asked for. The functions here
//! describe such a run by the answers of the node alone.

use vstd::prelude::*;
use crate::block::{is_policy_block, policy_summary, ChainBlock};
use crate::cursor::pending;
use crate::miner::{
    after_block,
    report_of,
    scan_wf,
    state_wf,
    transition,
    Action,
    Event,
    MinerState,
    Phase,
    TransportError,
};

verus! {

/// Whether the node's answer to the request for a block leads to a
/// confirmation: it does when a block came back and holds a transaction.
pub open spec fn confirms(outcome: Result<Option<ChainBlock>, TransportError>) -> bool {
    outcome matches Ok(Some(block)) && is_policy_block(block)
}

/// The number of answers among `outcomes` that lead to a confirmation.
pub open spec fn confirmed_count(outcomes: Seq<Result<Option<ChainBlock>, TransportError>>) -> nat
    decreases outcomes.len(),
{
    if outcomes.len() == 0 {
        0
    } else {
        (if confirms(outcomes[0]) {
            1nat
        } else {
            0nat
        }) + confirmed_count(outcomes.drop_first())
    }
}

/// State and action once the node's answer for the awaited block is dealt
/// with: where the answer makes the watcher confirm a policy block, the
/// end of that notification is part of it.
pub open spec fn handle_block(
    state: MinerState,
    outcome: Result<Option<ChainBlock>, TransportError>,
) -> Option<(MinerState, Action)> {
    match transition(state, Event::BlockFetched(outcome)) {
        Some((notifying, Action::Notify(_))) => transition(notifying, Event::NotificationDone),
        other => other,
    }
}

/// State and action after the node's answers `outcomes` for the awaited
/// block and those that follow it, taken in order; `None` where the watcher
/// awaits no block at some point, or where there is no answer at all.
pub open spec fn scan(
    state: MinerState,
    outcomes: Seq<Result<Option<ChainBlock>, TransportError>>,
) -> Option<(MinerState, Action)>
    decreases outcomes.len(),
{
    if outcomes.len() == 0 {
        None
    } else if outcomes.len() == 1 {
        handle_block(state, outcomes[0])
    } else {
        match handle_block(state, outcomes[0]) {
            Some((following, _)) => scan(following, outcomes.drop_first()),
            None => None,
        }
    }
}

/// A scan that is fed one answer for each block still due always reaches
/// the end of its range: the cursor then stands at the end of the range,
/// whichever fetches failed, the watcher is idle, and what it reports is
/// the number of policy blocks confirmed in the range.
pub proof fn lemma_scan_completes(
    last: u64,
    next: u64,
    end: u64,
    found: u64,
    outcomes: Seq<Result<Option<ChainBlock>, TransportError>>,
)
    requires
        scan_wf(last, next, end, found),
        outcomes.len() == end - next + 1,
    ensures
        found + confirmed_count(outcomes) <= end - last,
        scan(
            MinerState { last_processed_block: last, phase: Phase::Scanning { next, end, found } },
            outcomes,
        ) == Some(
            (
                MinerState { last_processed_block: end, phase: Phase::Idle },
                Action::Sleep { report: report_of((found + confirmed_count(outcomes)) as u64) },
            ),
        ),
    decreases outcomes.len(),
{
    let state = MinerState { last_processed_block: last, phase: Phase::Scanning { next, end, found } };
    let counted: u64 = if confirms(outcomes[0]) {
        (found + 1) as u64
    } else {
        found
    };
    assert(handle_block(state, outcomes[0]) == Some(after_block(last, next, end, counted)));
    let rest = outcomes.drop_first();
    if next == end {
        assert(rest.len() == 0);
        assert(confirmed_count(rest) == 0);
    } else {
        lemma_scan_completes(last, (next + 1) as u64, end, counted, rest);
    }
}

/// A tick on a chain that has grown scans the whole pending range. From
/// the moment the height `height` arrives, above the cursor, and with one
/// answer for each block from the one after the cursor up to `height`, the
/// watcher first asks for the block after the cursor, and ends idle with
/// the cursor at `height`, so that nothing is pending at that height any
/// more. It reports the number of policy blocks among the answers, and
/// nothing where there was none.
pub proof fn lemma_tick_advances_cursor(
    last: u64,
    height: u64,
    outcomes: Seq<Result<Option<ChainBlock>, TransportError>>,
)
    requires
        height > last,
        outcomes.len() == height - last,
    ensures
        transition(
            MinerState { last_processed_block: last, phase: Phase::AwaitingHeight },
            Event::HeightFetched(Ok(height)),
        ) matches Some((scanning, first)) && {
            &&& first == Action::FetchBlock((last + 1) as u64)
            &&& confirmed_count(outcomes) <= u64::MAX
            &&& scan(scanning, outcomes) == Some(
                (
                    MinerState { last_processed_block: height, phase: Phase::Idle },
                    Action::Sleep { report: report_of(confirmed_count(outcomes) as u64) },
                ),
            )
        },
        pending(height, height) is None,
{
    lemma_scan_completes(last, (last + 1) as u64, height, 0, outcomes);
}

/// A tick on a chain that has not grown, or whose height could not be
/// fetched, fetches no block: the watcher goes back to sleep with nothing
/// to report and the cursor where it was.
pub proof fn lemma_tick_without_news(last: u64, answer: Result<u64, TransportError>)
    requires
        answer matches Ok(height) ==> height <= last,
    ensures
        transition(
            MinerState { last_processed_block: last, phase: Phase::AwaitingHeight },
            Event::HeightFetched(answer),
        ) == Some(
            (
                MinerState { last_processed_block: last, phase: Phase::Idle },
                Action::Sleep { report: None },
            ),
        ),
{
}

/// A failed fetch of the height at startup ends nothing. The watcher
/// sleeps with nothing to report and the cursor not yet set, and when the
/// poll interval has passed it asks for the height again.
pub proof fn lemma_startup_is_retried(last: u64)
    ensures
        transition(
            MinerState { last_processed_block: last, phase: Phase::Starting },
            Event::HeightFetched(Err(TransportError)),
        ) == Some(
            (
                MinerState { last_processed_block: last, phase: Phase::StartDelayed },
                Action::Sleep { report: None },
            ),
        ),
        transition(
            MinerState { last_processed_block: last, phase: Phase::StartDelayed },
            Event::TimerFired,
        ) == Some(
            (MinerState { last_processed_block: last, phase: Phase::Starting }, Action::FetchHeight),
        ),
{
}

/// The watcher has no final state: whatever its state, there is an event
/// that it awaits.
pub proof fn lemma_no_final_state(state: MinerState)
    ensures
        exists|event: Event| (#[trigger] transition(state, event)) is Some,
{
    let event = match state.phase {
        Phase::Created => Event::Start,
        Phase::Starting => Event::HeightFetched(Err(TransportError)),
        Phase::StartDelayed => Event::TimerFired,
        Phase::Idle => Event::TimerFired,
        Phase::AwaitingHeight => Event::HeightFetched(Err(TransportError)),
        Phase::Scanning { .. } => Event::BlockFetched(Err(TransportError)),
        Phase::Notifying { .. } => Event::NotificationDone,
    };
    assert(transition(state, event) is Some);
}

/// No event moves the cursor back, and a consistent state stays consistent.
pub proof fn lemma_cursor_never_moves_back(state: MinerState, event: Event)
    requires
        state_wf(state),
    ensures
        transition(state, event) matches Some((following, _)) ==> {
            &&& following.last_processed_block >= state.last_processed_block
            &&& state_wf(following)
        },
{
}

/// While it scans, the watcher asks for a confirmation exactly when the
/// awaited block came back with at least one transaction. What it hands
/// out is the summary of that block under the number it was asked for, and
/// neither the cursor nor the count moves before the confirmation is done.
pub proof fn lemma_confirmation_iff_policy_block(
    last: u64,
    next: u64,
    end: u64,
    found: u64,
    outcome: Result<Option<ChainBlock>, TransportError>,
)
    ensures
        confirms(outcome) <==> (transition(
            MinerState { last_processed_block: last, phase: Phase::Scanning { next, end, found } },
            Event::BlockFetched(outcome),
        ) matches Some((_, Action::Notify(_)))),
        outcome matches Ok(Some(block)) ==> (is_policy_block(block) ==> transition(
            MinerState { last_processed_block: last, phase: Phase::Scanning { next, end, found } },
            Event::BlockFetched(outcome),
        ) == Some(
            (
                MinerState { last_processed_block: last, phase: Phase::Notifying { next, end, found } },
                Action::Notify(policy_summary(next, block)),
            ),
        )),
{
}

/// A scan takes the blocks of its range in ascending order, one at a time:
/// after the answers for the first blocks due, with blocks still left, the
/// cursor has not moved and the watcher asks for the block that follows the
/// last one answered, having counted the policy blocks confirmed so far.
pub proof fn lemma_scan_in_ascending_order(
    last: u64,
    next: u64,
    end: u64,
    found: u64,
    outcomes: Seq<Result<Option<ChainBlock>, TransportError>>,
)
    requires
        scan_wf(last, next, end, found),
        1 <= outcomes.len() <= end - next,
    ensures
        found + confirmed_count(outcomes) <= next + outcomes.len() - last - 1,
        scan(
            MinerState { last_processed_block: last, phase: Phase::Scanning { next, end, found } },
            outcomes,
        ) == Some(
            (
                MinerState {
                    last_processed_block: last,
                    phase: Phase::Scanning {
                        next: (next + outcomes.len()) as u64,
                        end,
                        found: (found + confirmed_count(outcomes)) as u64,
                    },
                },
                Action::FetchBlock((next + outcomes.len()) as u64),
            ),
        ),
    decreases outcomes.len(),
{
    let state = MinerState { last_processed_block: last, phase: Phase::Scanning { next, end, found } };
    let counted: u64 = if confirms(outcomes[0]) {
        (found + 1) as u64
    } else {
        found
    };
    assert(handle_block(state, outcomes[0]) == Some(after_block(last, next, end, counted)));
    let rest = outcomes.drop_first();
    if outcomes.len() == 1 {
        assert(confirmed_count(rest) == 0);
    } else {
        lemma_scan_in_ascending_order(last, (next + 1) as u64, end, counted, rest);
    }
}

} // verus!
