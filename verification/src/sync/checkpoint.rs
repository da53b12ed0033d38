//! Syncing blocks that are secured by L1.
use crate::common::header::BlockHeader;
use crate::common::transaction::Transaction;
use crate::common::{BlockHash, BlockNumber, StateCommitment, TransactionCommitment};
use crate::sync::receipts::{start, starts, ReceiptsStart};
use vstd::prelude::*;

verus! {

/// The state of Starknet as Ethereum knows it.
#[derive(Clone, Copy, Debug, PartialEq, Eq)]
pub struct EthereumStateUpdate {
    pub state_root: StateCommitment,
    pub block_number: BlockNumber,
    pub block_hash: BlockHash,
}

/// What the local database knows.
#[derive(Clone, Copy, Debug, PartialEq, Eq)]
pub struct LocalState {
    /// The latest header.
    pub latest_header: Option<(BlockNumber, BlockHash)>,
    /// The state that was last known from Ethereum.
    pub anchor: Option<EthereumStateUpdate>,
    /// The header with the number of the checkpoint.
    pub checkpoint: Option<(BlockNumber, BlockHash)>,
}

/// How the local database compares with a checkpoint from Ethereum.
#[derive(Clone, Copy, Debug, PartialEq, Eq)]
pub enum CheckpointAnalysis {
    /// The checkpoint has another hash than the anchor with the same number: Ethereum contradicts
    /// what it said before.
    HashMismatchWithAnchor { block: BlockNumber, checkpoint: BlockHash, anchor: BlockHash },
    /// The checkpoint is older than the anchor: Ethereum contradicts what it said before.
    PredatesAnchor { checkpoint: BlockNumber, anchor: BlockNumber },
    /// The checkpoint lies beyond the local chain, which has to be rolled back to its anchor:
    /// what is not secured by L1 cannot be relied on.
    ExceedsLocalChain { local: BlockNumber, checkpoint: BlockNumber, anchor: Option<BlockNumber> },
    /// The checkpoint contradicts the local chain, which has to be rolled back to its anchor.
    HashMismatchWithLocalChain {
        block: BlockNumber,
        local: BlockHash,
        checkpoint: BlockHash,
        anchor: Option<BlockNumber>,
    },
    /// The local chain agrees with the checkpoint.
    Consistent,
}

/// The number of the anchor, where there is one.
pub open spec fn anchor_number(local_state: LocalState) -> Option<BlockNumber> {
    match local_state.anchor {
        Some(anchor) => Some(anchor.block_number),
        None => None,
    }
}

/// Whether this is the number of the anchor, or none where there is no anchor.
pub open spec fn is_anchor_number(local_state: LocalState, number: Option<BlockNumber>) -> bool {
    match number {
        Some(number) => local_state.anchor matches Some(anchor) && anchor.block_number == number,
        None => local_state.anchor is None,
    }
}

/// Whether the checkpoint is older than the anchor.
pub open spec fn predates_anchor(local_state: LocalState, checkpoint: EthereumStateUpdate) -> bool {
    local_state.anchor matches Some(anchor) && checkpoint.block_number@ < anchor.block_number@
}

/// Whether the checkpoint has the anchor's number, but another hash.
pub open spec fn contradicts_anchor(local_state: LocalState, checkpoint: EthereumStateUpdate) -> bool {
    local_state.anchor matches Some(anchor) && checkpoint.block_number@ == anchor.block_number@
        && checkpoint.block_hash@ != anchor.block_hash@
}

/// Whether the checkpoint lies beyond the local chain.
pub open spec fn exceeds_local_chain(local_state: LocalState, checkpoint: EthereumStateUpdate) -> bool {
    local_state.latest_header matches Some(latest) && checkpoint.block_number@ > latest.0@
}

/// Whether the local header with the checkpoint's number has another hash.
pub open spec fn contradicts_local_chain(local_state: LocalState, checkpoint: EthereumStateUpdate) -> bool {
    local_state.latest_header is Some && (local_state.checkpoint matches Some(local) && local.1@
        != checkpoint.block_hash@)
}

impl CheckpointAnalysis {
    /// Compares the local database with a checkpoint.
    pub fn analyse(local_state: &LocalState, checkpoint: &EthereumStateUpdate) -> (r: CheckpointAnalysis)
        ensures
            r == if predates_anchor(*local_state, *checkpoint) {
                CheckpointAnalysis::PredatesAnchor {
                    checkpoint: checkpoint.block_number,
                    anchor: local_state.anchor->Some_0.block_number,
                }
            } else if contradicts_anchor(*local_state, *checkpoint) {
                CheckpointAnalysis::HashMismatchWithAnchor {
                    block: local_state.anchor->Some_0.block_number,
                    checkpoint: checkpoint.block_hash,
                    anchor: local_state.anchor->Some_0.block_hash,
                }
            } else if exceeds_local_chain(*local_state, *checkpoint) {
                CheckpointAnalysis::ExceedsLocalChain {
                    local: local_state.latest_header->Some_0.0,
                    checkpoint: checkpoint.block_number,
                    anchor: anchor_number(*local_state),
                }
            } else if contradicts_local_chain(*local_state, *checkpoint) {
                CheckpointAnalysis::HashMismatchWithLocalChain {
                    block: checkpoint.block_number,
                    local: local_state.checkpoint->Some_0.1,
                    checkpoint: checkpoint.block_hash,
                    anchor: anchor_number(*local_state),
                }
            } else {
                CheckpointAnalysis::Consistent
            },
            match r {
                CheckpointAnalysis::PredatesAnchor { checkpoint: n, anchor } => {
                    &&& n == checkpoint.block_number
                    &&& local_state.anchor matches Some(known) && known.block_number == anchor
                    &&& n@ < anchor@
                },
                CheckpointAnalysis::HashMismatchWithAnchor { block, checkpoint: hash, anchor } => {
                    &&& hash == checkpoint.block_hash
                    &&& local_state.anchor matches Some(known) && known.block_number == block && known.block_hash
                        == anchor
                    &&& block@ == checkpoint.block_number@ && hash@ != anchor@
                },
                CheckpointAnalysis::ExceedsLocalChain { local, checkpoint: n, anchor } => {
                    &&& n == checkpoint.block_number
                    &&& local_state.latest_header matches Some(latest) && latest.0 == local
                    &&& n@ > local@
                    &&& is_anchor_number(*local_state, anchor)
                },
                CheckpointAnalysis::HashMismatchWithLocalChain { block, local, checkpoint: hash, anchor } => {
                    &&& block == checkpoint.block_number && hash == checkpoint.block_hash
                    &&& local_state.latest_header is Some
                    &&& local_state.checkpoint matches Some(known) && known.1 == local
                    &&& hash@ != local@
                    &&& is_anchor_number(*local_state, anchor)
                },
                CheckpointAnalysis::Consistent => {
                    &&& local_state.anchor matches Some(known) ==> known.block_number@ < checkpoint.block_number@
                        || known.block_number@ == checkpoint.block_number@ && known.block_hash@
                        == checkpoint.block_hash@
                    &&& local_state.latest_header matches Some(latest) ==> checkpoint.block_number@ <= latest.0@ && (
                    local_state.checkpoint matches Some(known) ==> known.1@ == checkpoint.block_hash@)
                },
            },
    {
        if let Some(anchor) = &local_state.anchor {
            if checkpoint.block_number.get() < anchor.block_number.get() {
                return CheckpointAnalysis::PredatesAnchor {
                    checkpoint: checkpoint.block_number,
                    anchor: anchor.block_number,
                };
            }
            if checkpoint.block_number.get() == anchor.block_number.get() && checkpoint.block_hash.0
                != anchor.block_hash.0 {
                return CheckpointAnalysis::HashMismatchWithAnchor {
                    block: anchor.block_number,
                    checkpoint: checkpoint.block_hash,
                    anchor: anchor.block_hash,
                };
            }
        }
        let anchor = match &local_state.anchor {
            Some(anchor) => Some(anchor.block_number),
            None => None,
        };
        if let Some(latest) = local_state.latest_header {
            if checkpoint.block_number.get() > latest.0.get() {
                return CheckpointAnalysis::ExceedsLocalChain {
                    local: latest.0,
                    checkpoint: checkpoint.block_number,
                    anchor,
                };
            }
            if let Some((_, hash)) = local_state.checkpoint {
                if hash.0 != checkpoint.block_hash.0 {
                    return CheckpointAnalysis::HashMismatchWithLocalChain {
                        block: checkpoint.block_number,
                        local: hash,
                        checkpoint: checkpoint.block_hash,
                        anchor,
                    };
                }
            }
        }
        CheckpointAnalysis::Consistent
    }

    /// Decides what to do about the result of an analysis. An error means that Ethereum
    /// contradicts what it said before, which makes all data suspect.
    pub fn handle(self) -> (r: Result<CheckpointAction, AnchorMismatch>)
        ensures
            match self {
                CheckpointAnalysis::HashMismatchWithAnchor { .. } => r == Err::<CheckpointAction, _>(AnchorMismatch),
                CheckpointAnalysis::PredatesAnchor { .. } => r == Err::<CheckpointAction, _>(AnchorMismatch),
                CheckpointAnalysis::ExceedsLocalChain { anchor, .. } => r == Ok::<_, AnchorMismatch>(
                    CheckpointAction::RollbackToAnchor(anchor),
                ),
                CheckpointAnalysis::HashMismatchWithLocalChain { anchor, .. } => r == Ok::<_, AnchorMismatch>(
                    CheckpointAction::RollbackToAnchor(anchor),
                ),
                CheckpointAnalysis::Consistent => r == Ok::<_, AnchorMismatch>(CheckpointAction::Nothing),
            },
    {
        match self {
            CheckpointAnalysis::HashMismatchWithAnchor { .. } => Err(AnchorMismatch),
            CheckpointAnalysis::PredatesAnchor { .. } => Err(AnchorMismatch),
            CheckpointAnalysis::ExceedsLocalChain { anchor, .. } => Ok(CheckpointAction::RollbackToAnchor(anchor)),
            CheckpointAnalysis::HashMismatchWithLocalChain { anchor, .. } => Ok(
                CheckpointAction::RollbackToAnchor(anchor),
            ),
            CheckpointAnalysis::Consistent => Ok(CheckpointAction::Nothing),
        }
    }
}

/// The checkpoint contradicts the local anchor.
#[derive(Clone, Copy, Debug, PartialEq, Eq)]
pub struct AnchorMismatch;

/// What to do to the local chain before syncing to a checkpoint.
#[derive(Clone, Copy, Debug, PartialEq, Eq)]
pub enum CheckpointAction {
    /// Make the anchor the tip of the chain, or drop the whole chain where there is no anchor.
    RollbackToAnchor(Option<BlockNumber>),
    /// Leave the chain as it is.
    Nothing,
}

/// What is decided about a checkpoint.
pub open spec fn decision(local_state: LocalState, checkpoint: EthereumStateUpdate) -> Result<
    CheckpointAction,
    AnchorMismatch,
> {
    if predates_anchor(local_state, checkpoint) || contradicts_anchor(local_state, checkpoint) {
        Err(AnchorMismatch)
    } else if exceeds_local_chain(local_state, checkpoint) || contradicts_local_chain(local_state, checkpoint) {
        Ok(CheckpointAction::RollbackToAnchor(anchor_number(local_state)))
    } else {
        Ok(CheckpointAction::Nothing)
    }
}

/// Analyses a checkpoint and decides what to do.
pub fn check_checkpoint(local_state: &LocalState, checkpoint: &EthereumStateUpdate) -> (r: Result<
    CheckpointAction,
    AnchorMismatch,
>)
    ensures
        r == decision(*local_state, *checkpoint),
{
    CheckpointAnalysis::analyse(local_state, checkpoint).handle()
}

/// What is decided about a checkpoint, told by numbers and hashes alone. It is refused if and only
/// if it is older than the anchor, or has the anchor's number and another hash. Of one that is not
/// refused, the chain is rolled back to its anchor if and only if the checkpoint is beyond the
/// latest header, or the header with its number has another hash. Otherwise, and wherever there is
/// no header at all, nothing is done.
pub proof fn lemma_decision_by_numbers_and_hashes(local_state: LocalState, checkpoint: EthereumStateUpdate)
    ensures
        ({
            let n = checkpoint.block_number@;
            let refused = local_state.anchor matches Some(anchor) && (n < anchor.block_number@ || n
                == anchor.block_number@ && checkpoint.block_hash@ != anchor.block_hash@);
            let behind = local_state.latest_header matches Some(latest) && latest.0@ < n;
            let forked = local_state.latest_header is Some && (local_state.checkpoint matches Some(local) && local.1@
                != checkpoint.block_hash@);
            let target = match local_state.anchor {
                Some(anchor) => Some(anchor.block_number),
                None => None,
            };
            &&& decision(local_state, checkpoint) is Err <==> refused
            &&& decision(local_state, checkpoint) == Ok::<_, AnchorMismatch>(CheckpointAction::RollbackToAnchor(target))
                <==> !refused && (behind || forked)
            &&& decision(local_state, checkpoint) == Ok::<_, AnchorMismatch>(CheckpointAction::Nothing) <==> !refused
                && !behind && !forked
        }),
{
}

/// A chain that lags behind a checkpoint is never left as it is.
pub proof fn lemma_lagging_chain_is_not_left_alone(
    local_state: LocalState,
    latest: (BlockNumber, BlockHash),
    checkpoint: EthereumStateUpdate,
)
    requires
        local_state.latest_header == Some(latest),
        checkpoint.block_number@ > latest.0@,
    ensures
        decision(local_state, checkpoint) != Ok::<_, AnchorMismatch>(CheckpointAction::Nothing),
{
}

/// A checkpoint is refused exactly where it contradicts the anchor, whatever the local chain
/// holds: where it is older, or has the anchor's number and another hash.
pub proof fn lemma_refused_against_anchor_only(
    local_state: LocalState,
    other: LocalState,
    checkpoint: EthereumStateUpdate,
)
    requires
        local_state.anchor == other.anchor,
    ensures
        decision(local_state, checkpoint) is Err <==> decision(other, checkpoint) is Err,
        local_state.anchor is None ==> decision(local_state, checkpoint) is Ok,
{
}

/// Rolling back never goes below the anchor: what Ethereum has secured is kept.
pub proof fn lemma_rollback_keeps_anchor(local_state: LocalState, checkpoint: EthereumStateUpdate)
    ensures
        decision(local_state, checkpoint) matches Ok(CheckpointAction::RollbackToAnchor(target)) ==> {
            &&& target == anchor_number(local_state)
            &&& target matches Some(number) ==> number@ <= checkpoint.block_number@
        },
{
}

/// A database without headers is never rolled back.
pub proof fn lemma_empty_chain_is_left_alone(local_state: LocalState, checkpoint: EthereumStateUpdate)
    requires
        local_state.latest_header is None,
    ensures
        !(decision(local_state, checkpoint) matches Ok(CheckpointAction::RollbackToAnchor(_))),
{
}

/// Once the chain was synced to a checkpoint, the same checkpoint leaves it alone, however far the
/// chain has grown since.
pub proof fn lemma_synced_chain_is_left_alone(local_state: LocalState, checkpoint: EthereumStateUpdate)
    requires
        local_state.anchor == Some(checkpoint),
        local_state.latest_header matches Some(latest) && latest.0@ >= checkpoint.block_number@,
        local_state.checkpoint matches Some(local) && local.1@ == checkpoint.block_hash@,
    ensures
        decision(local_state, checkpoint) == Ok::<_, AnchorMismatch>(CheckpointAction::Nothing),
{
}

/// What came of comparing a block's transactions with its header.
#[derive(Clone, Copy, Debug, PartialEq, Eq)]
pub enum TransactionCheck {
    /// The transactions do or do not belong to the block.
    Checked(bool),
    /// The commitment to the transactions is needed to tell.
    CommitmentNeeded,
}

/// Checks whether transactions belong to a block. Where there are as many as the header says,
/// their commitment decides.
pub fn check_transactions(
    block: &BlockHeader,
    transactions: &[Transaction],
    commitment: Option<TransactionCommitment>,
) -> (r: TransactionCheck)
    ensures
        r == if transactions@.len() != block.transaction_count {
            TransactionCheck::Checked(false)
        } else {
            match commitment {
                Some(commitment) => TransactionCheck::Checked(commitment@ == block.transaction_commitment@),
                None => TransactionCheck::CommitmentNeeded,
            }
        },
{
    if transactions.len() != block.transaction_count {
        return TransactionCheck::Checked(false);
    }
    match commitment {
        Some(commitment) => TransactionCheck::Checked(commitment.0 == block.transaction_commitment.0),
        None => TransactionCheck::CommitmentNeeded,
    }
}

/// The steps of a sync to a checkpoint.
#[derive(Clone, Copy, Debug, PartialEq, Eq)]
pub enum SyncStep {
    /// Compare the local database with the checkpoint.
    LocalState,
    /// Roll the local chain back to its anchor.
    Rollback,
    /// Make the checkpoint the new anchor.
    Anchor,
    /// Sync the headers, from the anchor back to the first block.
    Headers,
    /// Sync the transactions.
    Transactions,
    /// Sync the state updates.
    StateUpdates,
    /// Sync the class definitions.
    ClassDefinitions,
    /// Sync the events.
    Events,
    /// Everything is synced.
    Done,
    /// A step has failed.
    Failed,
}

/// What came of a step.
#[derive(Clone, Copy, Debug, PartialEq, Eq)]
pub enum SyncEvent {
    /// The local state was queried.
    LocalState(LocalState),
    /// The step is done.
    Completed,
    /// The step has failed.
    Failed,
}

/// What to do next in a sync.
#[derive(Clone, Copy, Debug, PartialEq, Eq)]
pub enum SyncAction {
    /// Roll the local chain back.
    RollbackToAnchor(Option<BlockNumber>),
    /// Persist the new anchor.
    PersistAnchor(EthereumStateUpdate),
    /// Sync the headers up to the anchor.
    SyncHeaders(EthereumStateUpdate),
    /// Sync the transactions up to a block.
    SyncTransactions(BlockNumber),
    /// Sync the state updates up to a block.
    SyncStateUpdates(BlockNumber),
    /// Sync the class definitions up to a block.
    SyncClassDefinitions(BlockNumber),
    /// Sync the events up to a block.
    SyncEvents(BlockNumber),
    /// Nothing is left to do.
    Finish,
    /// Give up: the checkpoint contradicts the anchor.
    Refuse,
    /// Give up: the step has failed.
    Abort,
    /// Nothing: the event does not belong to the current step.
    Ignore,
}

/// The step and the action that follow an event.
pub open spec fn transition(step: SyncStep, checkpoint: EthereumStateUpdate, event: SyncEvent) -> (
    SyncStep,
    SyncAction,
) {
    let head = checkpoint.block_number;
    match (step, event) {
        (SyncStep::LocalState, SyncEvent::LocalState(local_state)) => match decision(local_state, checkpoint) {
            Ok(CheckpointAction::RollbackToAnchor(anchor)) => (
                SyncStep::Rollback,
                SyncAction::RollbackToAnchor(anchor),
            ),
            Ok(CheckpointAction::Nothing) => (SyncStep::Anchor, SyncAction::PersistAnchor(checkpoint)),
            Err(_) => (SyncStep::Failed, SyncAction::Refuse),
        },
        (SyncStep::Rollback, SyncEvent::Completed) => (SyncStep::Anchor, SyncAction::PersistAnchor(checkpoint)),
        (SyncStep::Anchor, SyncEvent::Completed) => (SyncStep::Headers, SyncAction::SyncHeaders(checkpoint)),
        (SyncStep::Headers, SyncEvent::Completed) => (SyncStep::Transactions, SyncAction::SyncTransactions(head)),
        (SyncStep::Transactions, SyncEvent::Completed) => (
            SyncStep::StateUpdates,
            SyncAction::SyncStateUpdates(head),
        ),
        (SyncStep::StateUpdates, SyncEvent::Completed) => (
            SyncStep::ClassDefinitions,
            SyncAction::SyncClassDefinitions(head),
        ),
        (SyncStep::ClassDefinitions, SyncEvent::Completed) => (SyncStep::Events, SyncAction::SyncEvents(head)),
        (SyncStep::Events, SyncEvent::Completed) => (SyncStep::Done, SyncAction::Finish),
        (SyncStep::Done, _) => (SyncStep::Done, SyncAction::Ignore),
        (SyncStep::Failed, _) => (SyncStep::Failed, SyncAction::Ignore),
        (_, SyncEvent::Failed) => (SyncStep::Failed, SyncAction::Abort),
        _ => (step, SyncAction::Ignore),
    }
}

/// A sync of the local chain to a checkpoint.
#[derive(Clone, Copy, Debug, PartialEq, Eq)]
pub struct Sync {
    pub checkpoint: EthereumStateUpdate,
    pub step: SyncStep,
}

impl Sync {
    /// Starts a sync. The first thing to do is to query the local state.
    pub fn new(checkpoint: EthereumStateUpdate) -> (r: Sync)
        ensures
            r == (Sync { checkpoint, step: SyncStep::LocalState }),
    {
        Sync { checkpoint, step: SyncStep::LocalState }
    }

    /// Takes the outcome of a step and says what to do next.
    pub fn run(&mut self, event: SyncEvent) -> (r: SyncAction)
        ensures
            final(self).checkpoint == old(self).checkpoint,
            (final(self).step, r) == transition(old(self).step, old(self).checkpoint, event),
    {
        let checkpoint = self.checkpoint;
        let head = checkpoint.block_number;
        let (step, action) = match (self.step, event) {
            (SyncStep::LocalState, SyncEvent::LocalState(local_state)) => match check_checkpoint(
                &local_state,
                &checkpoint,
            ) {
                Ok(CheckpointAction::RollbackToAnchor(anchor)) => (
                    SyncStep::Rollback,
                    SyncAction::RollbackToAnchor(anchor),
                ),
                Ok(CheckpointAction::Nothing) => (SyncStep::Anchor, SyncAction::PersistAnchor(checkpoint)),
                Err(_) => (SyncStep::Failed, SyncAction::Refuse),
            },
            (SyncStep::Rollback, SyncEvent::Completed) => (SyncStep::Anchor, SyncAction::PersistAnchor(checkpoint)),
            (SyncStep::Anchor, SyncEvent::Completed) => (SyncStep::Headers, SyncAction::SyncHeaders(checkpoint)),
            (SyncStep::Headers, SyncEvent::Completed) => (
                SyncStep::Transactions,
                SyncAction::SyncTransactions(head),
            ),
            (SyncStep::Transactions, SyncEvent::Completed) => (
                SyncStep::StateUpdates,
                SyncAction::SyncStateUpdates(head),
            ),
            (SyncStep::StateUpdates, SyncEvent::Completed) => (
                SyncStep::ClassDefinitions,
                SyncAction::SyncClassDefinitions(head),
            ),
            (SyncStep::ClassDefinitions, SyncEvent::Completed) => (SyncStep::Events, SyncAction::SyncEvents(head)),
            (SyncStep::Events, SyncEvent::Completed) => (SyncStep::Done, SyncAction::Finish),
            (SyncStep::Done, _) => (SyncStep::Done, SyncAction::Ignore),
            (SyncStep::Failed, _) => (SyncStep::Failed, SyncAction::Ignore),
            (_, SyncEvent::Failed) => (SyncStep::Failed, SyncAction::Abort),
            (step, _) => (step, SyncAction::Ignore),
        };
        self.step = step;
        action
    }

    /// What to fetch of the headers, given the next gap in the local chain of headers.
    pub fn sync_headers(gap: Option<HeaderGap>) -> (r: Option<HeaderPlan>)
        ensures
            r == match gap {
                Some(gap) => Some(HeaderPlan { gap, reverse: true, chunk_size: HEADERS_CHUNK }),
                None => None,
            },
    {
        match gap {
            Some(gap) => Some(HeaderPlan { gap, reverse: true, chunk_size: HEADERS_CHUNK }),
            None => None,
        }
    }

    /// What to fetch of the transactions, given the first block that lacks some.
    pub fn sync_transactions(next_missing: Option<BlockNumber>, stop: BlockNumber) -> (r: Option<StreamPlan>)
        ensures
            r == stream_plan(next_missing, stop, TRANSACTIONS_CHUNK),
    {
        plan(next_missing, stop, TRANSACTIONS_CHUNK)
    }

    /// How to sync the receipts, given the first block that lacks some and the latest block.
    pub fn sync_receipts(first_block: Option<BlockNumber>, last_block: Option<BlockNumber>) -> (r: ReceiptsStart)
        requires
            first_block is Some && last_block is Some ==> first_block->Some_0@ <= last_block->Some_0@,
        ensures
            starts(first_block, last_block, r),
    {
        start(first_block, last_block)
    }

    /// What to fetch of the state updates, given the first block that lacks some.
    pub fn sync_state_updates(next_missing: Option<BlockNumber>, stop: BlockNumber) -> (r: Option<StreamPlan>)
        ensures
            r == stream_plan(next_missing, stop, STATE_UPDATES_CHUNK),
    {
        plan(next_missing, stop, STATE_UPDATES_CHUNK)
    }

    /// What to fetch of the class definitions, given the first block that lacks some.
    pub fn sync_class_definitions(next_missing: Option<BlockNumber>, stop: BlockNumber) -> (r: Option<StreamPlan>)
        ensures
            r == stream_plan(next_missing, stop, CLASS_DEFINITIONS_CHUNK),
    {
        plan(next_missing, stop, CLASS_DEFINITIONS_CHUNK)
    }

    /// What to fetch of the events, given the first block that lacks some.
    pub fn sync_events(next_missing: Option<BlockNumber>, stop: BlockNumber) -> (r: Option<StreamPlan>)
        ensures
            r == stream_plan(next_missing, stop, EVENTS_CHUNK),
    {
        plan(next_missing, stop, EVENTS_CHUNK)
    }
}

/// How far a sync has come.
pub open spec fn rank(step: SyncStep) -> nat {
    match step {
        SyncStep::LocalState => 0,
        SyncStep::Rollback => 1,
        SyncStep::Anchor => 2,
        SyncStep::Headers => 3,
        SyncStep::Transactions => 4,
        SyncStep::StateUpdates => 5,
        SyncStep::ClassDefinitions => 6,
        SyncStep::Events => 7,
        SyncStep::Done => 8,
        SyncStep::Failed => 9,
    }
}

/// A sync only moves forward. From the new anchor on it skips nothing: the anchor is persisted
/// before any header is synced, the headers before any transaction, and so on.
pub proof fn lemma_steps_in_order(step: SyncStep, checkpoint: EthereumStateUpdate, event: SyncEvent)
    ensures
        rank(transition(step, checkpoint, event).0) >= rank(step),
        transition(step, checkpoint, event).0 == step <==> transition(step, checkpoint, event).1 is Ignore,
        ({
            let next = rank(transition(step, checkpoint, event).0);
            3 <= next <= 8 && next != rank(step) ==> next == rank(step) + 1 && event is Completed
        }),
{
}

/// What each step asks for: the rollback goes to the anchor that the chain had, everything after it
/// concerns the checkpoint alone, and the data is synced up to the checkpoint's block.
pub proof fn lemma_steps_serve_the_checkpoint(step: SyncStep, checkpoint: EthereumStateUpdate, event: SyncEvent)
    ensures
        match transition(step, checkpoint, event).1 {
            SyncAction::RollbackToAnchor(target) => event matches SyncEvent::LocalState(local_state)
                && is_anchor_number(local_state, target) && step is LocalState,
            SyncAction::PersistAnchor(anchor) => anchor == checkpoint && (step is LocalState || step is Rollback),
            SyncAction::SyncHeaders(anchor) => anchor == checkpoint && step is Anchor,
            SyncAction::SyncTransactions(stop) => stop == checkpoint.block_number && step is Headers,
            SyncAction::SyncStateUpdates(stop) => stop == checkpoint.block_number && step is Transactions,
            SyncAction::SyncClassDefinitions(stop) => stop == checkpoint.block_number && step is StateUpdates,
            SyncAction::SyncEvents(stop) => stop == checkpoint.block_number && step is ClassDefinitions,
            SyncAction::Finish => step is Events && event is Completed,
            SyncAction::Refuse => step is LocalState && (event matches SyncEvent::LocalState(local_state) && (
            local_state.anchor matches Some(anchor) && (checkpoint.block_number@ < anchor.block_number@
                || checkpoint.block_number@ == anchor.block_number@ && checkpoint.block_hash@ != anchor.block_hash@))),
            SyncAction::Abort => event is Failed && !(step is Done) && !(step is Failed),
            SyncAction::Ignore => true,
        },
{
}

/// The actions that follow one another when every step of a sync succeeds.
pub open spec fn actions_after(step: SyncStep, checkpoint: EthereumStateUpdate, n: nat) -> Seq<SyncAction>
    decreases n,
{
    if n == 0 {
        Seq::empty()
    } else {
        let (next, action) = transition(step, checkpoint, SyncEvent::Completed);
        seq![action] + actions_after(next, checkpoint, (n - 1) as nat)
    }
}

/// Once the anchor is persisted and every step succeeds, the headers, the transactions, the state
/// updates, the class definitions and the events are synced, each once and in this order, and the
/// sync is finished. A rollback, where one is needed, comes before the anchor.
pub proof fn lemma_whole_sync(checkpoint: EthereumStateUpdate)
    ensures
        actions_after(SyncStep::Anchor, checkpoint, 6) == seq![
            SyncAction::SyncHeaders(checkpoint),
            SyncAction::SyncTransactions(checkpoint.block_number),
            SyncAction::SyncStateUpdates(checkpoint.block_number),
            SyncAction::SyncClassDefinitions(checkpoint.block_number),
            SyncAction::SyncEvents(checkpoint.block_number),
            SyncAction::Finish,
        ],
        actions_after(SyncStep::Rollback, checkpoint, 7) == seq![SyncAction::PersistAnchor(checkpoint)]
            + actions_after(SyncStep::Anchor, checkpoint, 6),
{
    reveal_with_fuel(actions_after, 8);
    assert(actions_after(SyncStep::Anchor, checkpoint, 6) =~= seq![
        SyncAction::SyncHeaders(checkpoint),
        SyncAction::SyncTransactions(checkpoint.block_number),
        SyncAction::SyncStateUpdates(checkpoint.block_number),
        SyncAction::SyncClassDefinitions(checkpoint.block_number),
        SyncAction::SyncEvents(checkpoint.block_number),
        SyncAction::Finish,
    ]);
}

/// How a sync starts from the local state: it is refused, rolls back or persists the anchor, as
/// numbers and hashes decide. A step that fails ends the sync, whichever it is.
pub proof fn lemma_sync_starts_with_the_decision(
    local_state: LocalState,
    checkpoint: EthereumStateUpdate,
    step: SyncStep,
)
    ensures
        ({
            let action = transition(SyncStep::LocalState, checkpoint, SyncEvent::LocalState(local_state)).1;
            let refused = local_state.anchor matches Some(anchor) && (checkpoint.block_number@ < anchor.block_number@
                || checkpoint.block_number@ == anchor.block_number@ && checkpoint.block_hash@ != anchor.block_hash@);
            let stale = local_state.latest_header matches Some(latest) && (latest.0@ < checkpoint.block_number@ || (
            local_state.checkpoint matches Some(local) && local.1@ != checkpoint.block_hash@));
            &&& action is Refuse <==> refused
            &&& action is RollbackToAnchor <==> !refused && stale
            &&& action == SyncAction::PersistAnchor(checkpoint) <==> !refused && !stale
        }),
        step != SyncStep::Done && step != SyncStep::Failed ==> transition(step, checkpoint, SyncEvent::Failed) == (
            SyncStep::Failed,
            SyncAction::Abort,
        ),
        transition(SyncStep::Done, checkpoint, SyncEvent::Failed).0 == SyncStep::Done,
{
}

/// What is fetched of some data are all blocks from the first one that lacks some up to the last
/// one, and nothing exactly where none is missing.
pub proof fn lemma_plan_covers_what_is_missing(next_missing: Option<BlockNumber>, stop: BlockNumber, chunk_size: usize)
    ensures
        match stream_plan(next_missing, stop, chunk_size) {
            Some(plan) => next_missing == Some(plan.start) && plan.stop == stop && plan.chunk_size == chunk_size,
            None => next_missing is None,
        },
        TRANSACTIONS_CHUNK == 100 && STATE_UPDATES_CHUNK == 100 && CLASS_DEFINITIONS_CHUNK == 1000 && EVENTS_CHUNK
            == 100 && HEADERS_CHUNK == 1024,
{
}

/// The number of headers that are persisted together.
pub const HEADERS_CHUNK: usize = 1024;

/// The number of blocks whose transactions are persisted together.
pub const TRANSACTIONS_CHUNK: usize = 100;

/// The number of blocks whose state updates are persisted together.
pub const STATE_UPDATES_CHUNK: usize = 100;

/// The number of class definitions that are persisted together.
pub const CLASS_DEFINITIONS_CHUNK: usize = 1000;

/// The number of blocks whose events are persisted together.
pub const EVENTS_CHUNK: usize = 100;

/// A gap in the local chain of headers.
#[derive(Clone, Copy, Debug, PartialEq, Eq)]
pub struct HeaderGap {
    /// The newest missing header.
    pub head: BlockNumber,
    /// The hash that the newest missing header has to have.
    pub head_hash: BlockHash,
    /// The oldest missing header.
    pub tail: BlockNumber,
}

/// Which headers to fetch, and how many to persist at a time.
#[derive(Clone, Copy, Debug, PartialEq, Eq)]
pub struct HeaderPlan {
    pub gap: HeaderGap,
    /// Whether the newest header comes first.
    pub reverse: bool,
    pub chunk_size: usize,
}

/// Which blocks to fetch data of, and how much to persist at a time.
#[derive(Clone, Copy, Debug, PartialEq, Eq)]
pub struct StreamPlan {
    pub start: BlockNumber,
    pub stop: BlockNumber,
    pub chunk_size: usize,
}

/// What to fetch where data is missing from a block on. Nothing, if none is missing.
pub open spec fn stream_plan(next_missing: Option<BlockNumber>, stop: BlockNumber, chunk_size: usize) -> Option<
    StreamPlan,
> {
    match next_missing {
        Some(start) => Some(StreamPlan { start, stop, chunk_size }),
        None => None,
    }
}

fn plan(next_missing: Option<BlockNumber>, stop: BlockNumber, chunk_size: usize) -> (r: Option<StreamPlan>)
    ensures
        r == stream_plan(next_missing, stop, chunk_size),
{
    match next_missing {
        Some(start) => Some(StreamPlan { start, stop, chunk_size }),
        None => None,
    }
}

} // verus!
