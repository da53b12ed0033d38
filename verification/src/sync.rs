//! Decisions of the sync process.
//!
//! Talking to peers, to Ethereum and to the database is left to the caller. The types here say
//! what to do next, given what came of it.
use crate::sync::checkpoint::EthereumStateUpdate;
use crate::sync::error::SyncError;
use vstd::prelude::*;

pub mod checkpoint;
pub mod chunks;
pub mod error;
pub mod receipts;
pub mod stream;

verus! {

/// How far the chain may lag behind the latest L1 checkpoint before it is synced to a checkpoint
/// again.
pub const CHECKPOINT_MARGIN: u64 = 10;

/// What came of what was asked for.
pub enum DriverEvent {
    /// The latest checkpoint was fetched.
    Checkpoint(EthereumStateUpdate),
    /// The latest checkpoint could not be fetched.
    CheckpointFailed,
    /// The sync to the checkpoint succeeded.
    Synced,
    /// The sync to the checkpoint failed.
    SyncFailed(SyncError),
    /// The failure was handled.
    ErrorHandled,
}

/// What to do next.
pub enum DriverAction {
    /// Fetch the latest checkpoint.
    FetchCheckpoint,
    /// Sync to a checkpoint.
    SyncTo(EthereumStateUpdate),
    /// Handle a failed sync.
    HandleError(SyncError),
    /// Go on to follow the head of the chain.
    Track,
    /// Give up.
    Abort,
    /// Nothing: the event was not waited for.
    Ignore,
}

/// What is waited for.
#[derive(Clone, Copy, Debug, PartialEq, Eq)]
pub enum DriverState {
    /// The first checkpoint.
    FirstCheckpoint,
    /// The end of the sync to a checkpoint.
    Syncing(EthereumStateUpdate),
    /// That a failed sync to a checkpoint is handled.
    Handling(EthereumStateUpdate),
    /// The latest checkpoint, after a sync to an earlier one.
    LatestCheckpoint(EthereumStateUpdate),
    /// Nothing.
    Done,
}

/// Whether a checkpoint is so far ahead that the chain has to be synced to it, too.
pub open spec fn is_far_ahead(synced: EthereumStateUpdate, latest: EthereumStateUpdate) -> bool {
    synced.block_number@ + CHECKPOINT_MARGIN < latest.block_number@
}

/// The state and the action that follow an event.
pub open spec fn driver_step(state: DriverState, event: DriverEvent) -> (DriverState, DriverAction) {
    match (state, event) {
        (DriverState::FirstCheckpoint, DriverEvent::Checkpoint(checkpoint)) => (
            DriverState::Syncing(checkpoint),
            DriverAction::SyncTo(checkpoint),
        ),
        (DriverState::Syncing(checkpoint), DriverEvent::Synced) => (
            DriverState::LatestCheckpoint(checkpoint),
            DriverAction::FetchCheckpoint,
        ),
        (DriverState::Syncing(checkpoint), DriverEvent::SyncFailed(e)) => (
            DriverState::Handling(checkpoint),
            DriverAction::HandleError(e),
        ),
        (DriverState::Handling(checkpoint), DriverEvent::ErrorHandled) => (
            DriverState::Syncing(checkpoint),
            DriverAction::SyncTo(checkpoint),
        ),
        (DriverState::LatestCheckpoint(checkpoint), DriverEvent::Checkpoint(latest)) => if is_far_ahead(
            checkpoint,
            latest,
        ) {
            (DriverState::Syncing(latest), DriverAction::SyncTo(latest))
        } else {
            (DriverState::Done, DriverAction::Track)
        },
        (DriverState::FirstCheckpoint, DriverEvent::CheckpointFailed) => (DriverState::Done, DriverAction::Abort),
        (DriverState::LatestCheckpoint(_), DriverEvent::CheckpointFailed) => (DriverState::Done, DriverAction::Abort),
        _ => (state, DriverAction::Ignore),
    }
}

/// Syncs the chain to L1 checkpoints, until it is within some margin of the latest one.
pub struct Sync {
    pub state: DriverState,
}

impl Sync {
    /// Starts. The first thing to do is to fetch the latest checkpoint.
    pub fn new() -> (r: Sync)
        ensures
            r.state == DriverState::FirstCheckpoint,
    {
        Sync { state: DriverState::FirstCheckpoint }
    }

    /// Takes an event and says what to do next.
    pub fn run(&mut self, event: DriverEvent) -> (r: DriverAction)
        ensures
            (final(self).state, r) == driver_step(old(self).state, event),
    {
        let (state, action) = match (self.state, event) {
            (DriverState::FirstCheckpoint, DriverEvent::Checkpoint(checkpoint)) => (
                DriverState::Syncing(checkpoint),
                DriverAction::SyncTo(checkpoint),
            ),
            (DriverState::Syncing(checkpoint), DriverEvent::Synced) => (
                DriverState::LatestCheckpoint(checkpoint),
                DriverAction::FetchCheckpoint,
            ),
            (DriverState::Syncing(checkpoint), DriverEvent::SyncFailed(e)) => (
                DriverState::Handling(checkpoint),
                DriverAction::HandleError(e),
            ),
            (DriverState::Handling(checkpoint), DriverEvent::ErrorHandled) => (
                DriverState::Syncing(checkpoint),
                DriverAction::SyncTo(checkpoint),
            ),
            (DriverState::LatestCheckpoint(checkpoint), DriverEvent::Checkpoint(latest)) => if checkpoint.block_number.get()
                + CHECKPOINT_MARGIN < latest.block_number.get() {
                (DriverState::Syncing(latest), DriverAction::SyncTo(latest))
            } else {
                (DriverState::Done, DriverAction::Track)
            },
            (DriverState::FirstCheckpoint, DriverEvent::CheckpointFailed) => (DriverState::Done, DriverAction::Abort),
            (DriverState::LatestCheckpoint(_), DriverEvent::CheckpointFailed) => (
                DriverState::Done,
                DriverAction::Abort,
            ),
            (state, _) => (state, DriverAction::Ignore),
        };
        self.state = state;
        action
    }
}

/// Following the head of the chain starts only after a sync to a checkpoint succeeded that is
/// within the margin of the latest one.
pub proof fn lemma_tracks_within_margin(state: DriverState, event: DriverEvent)
    requires
        driver_step(state, event).1 is Track,
    ensures
        state is LatestCheckpoint,
        event is Checkpoint,
        event->Checkpoint_0.block_number@ <= state->LatestCheckpoint_0.block_number@ + CHECKPOINT_MARGIN,
{
}

/// After a sync to block `n` succeeded, a latest checkpoint at block `m` leads to following the head
/// of the chain if and only if `m` is at most `n + 10`, and to a sync to this checkpoint if and only
/// if it is further ahead. Nothing else can come of it.
pub proof fn lemma_margin_decides(synced: EthereumStateUpdate, latest: EthereumStateUpdate)
    ensures
        ({
            let n = synced.block_number@ as int;
            let m = latest.block_number@ as int;
            let (state, action) = driver_step(
                DriverState::LatestCheckpoint(synced),
                DriverEvent::Checkpoint(latest),
            );
            &&& action is Track <==> m <= n + 10
            &&& action == DriverAction::SyncTo(latest) <==> m > n + 10
            &&& m <= n + 10 ==> state is Done
            &&& m > n + 10 ==> state == DriverState::Syncing(latest)
        }),
{
}

/// What is synced to is always the checkpoint that was fetched last, and every successful sync is
/// followed by a look at the latest checkpoint.
pub proof fn lemma_syncs_to_what_was_fetched(checkpoint: EthereumStateUpdate, event: DriverEvent)
    ensures
        driver_step(DriverState::FirstCheckpoint, DriverEvent::Checkpoint(checkpoint)) == (
            DriverState::Syncing(checkpoint),
            DriverAction::SyncTo(checkpoint),
        ),
        driver_step(DriverState::Syncing(checkpoint), DriverEvent::Synced) == (
            DriverState::LatestCheckpoint(checkpoint),
            DriverAction::FetchCheckpoint,
        ),
        driver_step(DriverState::Syncing(checkpoint), event).1 is FetchCheckpoint <==> event is Synced,
        driver_step(DriverState::Syncing(checkpoint), event).1 is HandleError <==> event is SyncFailed,
        driver_step(DriverState::Handling(checkpoint), event).1 is SyncTo <==> event is ErrorHandled,
{
}

/// The process is given up if and only if a checkpoint that is waited for cannot be fetched. What
/// is not waited for changes nothing, and once the process is over, nothing happens any more.
pub proof fn lemma_gives_up_without_checkpoint(state: DriverState, event: DriverEvent)
    ensures
        driver_step(state, event).1 is Abort <==> event is CheckpointFailed && (state is FirstCheckpoint || state
            is LatestCheckpoint),
        driver_step(state, event).1 is Ignore <==> !{
            ||| state is FirstCheckpoint && (event is Checkpoint || event is CheckpointFailed)
            ||| state is Syncing && (event is Synced || event is SyncFailed)
            ||| state is Handling && event is ErrorHandled
            ||| state is LatestCheckpoint && (event is Checkpoint || event is CheckpointFailed)
        },
        driver_step(state, event).1 is Ignore ==> driver_step(state, event).0 == state,
        driver_step(state, event).0 is Done <==> state is Done || driver_step(state, event).1 is Track || driver_step(
            state,
            event,
        ).1 is Abort,
{
}

/// A failed sync is tried again with the same checkpoint, once the failure was handled.
pub proof fn lemma_failed_sync_is_repeated(checkpoint: EthereumStateUpdate, e: SyncError)
    ensures
        ({
            let failed = driver_step(DriverState::Syncing(checkpoint), DriverEvent::SyncFailed(e));
            let again = driver_step(failed.0, DriverEvent::ErrorHandled);
            failed.1 == DriverAction::HandleError(e) && again.1 == DriverAction::SyncTo(checkpoint)
        }),
{
}

} // verus!
