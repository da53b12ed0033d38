use pathfinder_core::common::header::BlockHeader;
use pathfinder_core::common::receipt::Receipt;
use pathfinder_core::common::transaction::{L1HandlerTransaction, Transaction, TransactionVariant};
use pathfinder_core::common::{
    BlockHash, BlockNumber, ContractAddress, EntryPoint, StateCommitment, TransactionCommitment, TransactionHash,
    TransactionNonce,
};
use pathfinder_core::felt::Felt;
use pathfinder_core::sync::checkpoint::{
    check_checkpoint, check_transactions, AnchorMismatch, CheckpointAction, CheckpointAnalysis, EthereumStateUpdate,
    HeaderGap, HeaderPlan, LocalState, StreamPlan, Sync as CheckpointSync, SyncAction, SyncEvent, SyncStep,
    TransactionCheck,
};
use pathfinder_core::sync::chunks::{cut, ChunkAction, Chunks};
use pathfinder_core::sync::error::{PeerId, SyncError};
use pathfinder_core::sync::receipts::{ReceiptsAction, ReceiptsError, ReceiptsEvent, ReceiptsStart, ReceiptsSync};
use pathfinder_core::sync::stream::{Items, Stage, SyncResult, SyncStream, SyncStreamExt};
use pathfinder_core::sync::{DriverAction, DriverEvent, DriverState, Sync};

fn number(n: u64) -> BlockNumber {
    BlockNumber::new_or_panic(n)
}

fn hash(n: u64) -> BlockHash {
    BlockHash(Felt::from_u64(n))
}

struct ForwardHeaderCheck {
    next_number: BlockNumber,
    parent_hash: BlockHash,
}

impl Stage for ForwardHeaderCheck {
    type Input = BlockHeader;
    type Output = BlockHeader;

    fn handle(&mut self, input: BlockHeader) -> Option<SyncResult<BlockHeader>> {
        if self.next_number != input.number || self.parent_hash != input.parent_hash {
            return Some(Err(SyncError::Discontinuity(PeerId(vec![1]))));
        }
        self.next_number = number(self.next_number.get() + 1);
        self.parent_hash = input.hash;
        Some(Ok(input))
    }
}

fn headers() -> Vec<BlockHeader> {
    let header0 = BlockHeader::default();
    let header1 = BlockHeader { number: number(1), parent_hash: header0.hash, hash: hash(1), ..Default::default() };
    let header2 = BlockHeader { number: number(2), parent_hash: header1.hash, hash: hash(2), ..Default::default() };
    vec![header0, header1, header2]
}

fn check() -> ForwardHeaderCheck {
    ForwardHeaderCheck { next_number: number(0), parent_hash: hash(0) }
}

#[test]
fn header_continuity() {
    let expected = headers();
    let stream = Items::new(expected.iter().cloned().map(Ok).collect());
    let result: Result<Vec<_>, _> = stream.pipe(check(), 2).collect().into_iter().collect();
    assert_eq!(result.unwrap(), expected);
}

#[test]
fn a_failing_stage_does_not_end_the_pipeline() {
    let all = headers();
    let input = vec![Ok(all[0].clone()), Ok(all[2].clone()), Ok(all[1].clone())];
    let result = Items::new(input).pipe(check(), 2).collect();
    assert_eq!(result.len(), 3);
    assert_eq!(result[0].as_ref().unwrap(), &all[0]);
    assert_eq!(result[1], Err(SyncError::Discontinuity(PeerId(vec![1]))));
    assert_eq!(result[2].as_ref().unwrap(), &all[1]);
}

#[test]
fn a_failing_input_ends_the_pipeline() {
    let all = headers();
    let failure = SyncError::Other("gone".to_string());
    let input = vec![Ok(all[0].clone()), Err(failure.clone()), Ok(all[1].clone())];
    let result = Items::new(input).pipe(check(), 1).collect();
    assert_eq!(result, vec![Ok(all[0].clone()), Err(failure)]);
}

struct Batcher {
    len: usize,
    buffer: [u32; 5],
}

impl Stage for Batcher {
    type Input = u32;
    type Output = [u32; 5];

    fn handle(&mut self, input: u32) -> Option<SyncResult<[u32; 5]>> {
        self.buffer[self.len] = input;
        self.len += 1;
        if self.buffer.len() == self.len {
            self.len = 0;
            Some(Ok(std::mem::take(&mut self.buffer)))
        } else {
            None
        }
    }
}

#[test]
fn batching() {
    let stream = Items::new((0..12).map(Ok).collect());
    let result = stream.pipe(Batcher { len: 0, buffer: [0; 5] }, 3).collect();
    assert_eq!(result, vec![Ok([0, 1, 2, 3, 4]), Ok([5, 6, 7, 8, 9])]);
}

#[test]
fn items_come_in_order() {
    let mut stream = Items::new(vec![Ok(1), Ok(2)]);
    assert_eq!(stream.next(), Some(Ok(1)));
    assert_eq!(stream.next(), Some(Ok(2)));
    assert_eq!(stream.next(), None);
}

#[test]
fn chunks_are_full_but_for_the_last() {
    let chunked = cut(Items::new((0..7).map(Ok).collect()), 3);
    assert_eq!(chunked.chunks, vec![vec![0, 1, 2], vec![3, 4, 5], vec![6]]);
    assert_eq!(chunked.failure, None);
}

#[test]
fn a_failure_drops_the_unfinished_chunk() {
    let failure = SyncError::EventCommitmentMismatch(PeerId(vec![7]));
    let mut items: Vec<SyncResult<u32>> = (0..5).map(Ok).collect();
    items.push(Err(failure.clone()));
    items.push(Ok(9));
    let chunked = cut(Items::new(items), 3);
    assert_eq!(chunked.chunks, vec![vec![0, 1, 2]]);
    assert_eq!(chunked.failure, Some(failure));
}

#[test]
fn a_failed_stream_persists_nothing() {
    let chunked = cut(Items::new(vec![Err::<u32, _>(SyncError::Other(String::new()))]), 100);
    assert!(chunked.chunks.is_empty());
    assert!(matches!(chunked.failure, Some(SyncError::Other(_))));
}

#[test]
fn chunks_one_by_one() {
    let mut chunks = Chunks::new(2);
    assert!(matches!(chunks.push(Ok(1)), ChunkAction::Wait));
    assert!(matches!(chunks.push(Ok(2)), ChunkAction::Persist(x) if x == vec![1, 2]));
    assert!(matches!(chunks.push(Ok(3)), ChunkAction::Wait));
    assert_eq!(chunks.finish(), Some(vec![3]));
    assert_eq!(Chunks::<u32>::new(2).finish(), None);
}

fn update(block: u64, block_hash: u64) -> EthereumStateUpdate {
    EthereumStateUpdate {
        state_root: StateCommitment(Felt::from_u64(1)),
        block_number: number(block),
        block_hash: hash(block_hash),
    }
}

fn local(
    latest: Option<(u64, u64)>,
    anchor: Option<(u64, u64)>,
    checkpoint: Option<(u64, u64)>,
) -> LocalState {
    LocalState {
        latest_header: latest.map(|(n, h)| (number(n), hash(h))),
        anchor: anchor.map(|(n, h)| update(n, h)),
        checkpoint: checkpoint.map(|(n, h)| (number(n), hash(h))),
    }
}

#[test]
fn a_checkpoint_before_the_anchor_is_refused() {
    let state = local(Some((20, 20)), Some((10, 10)), Some((9, 9)));
    let analysis = CheckpointAnalysis::analyse(&state, &update(9, 9));
    assert_eq!(analysis, CheckpointAnalysis::PredatesAnchor { checkpoint: number(9), anchor: number(10) });
    assert_eq!(analysis.handle(), Err(AnchorMismatch));
}

#[test]
fn a_checkpoint_that_contradicts_the_anchor_is_refused() {
    let state = local(Some((20, 20)), Some((10, 10)), Some((10, 10)));
    let analysis = CheckpointAnalysis::analyse(&state, &update(10, 11));
    assert_eq!(
        analysis,
        CheckpointAnalysis::HashMismatchWithAnchor { block: number(10), checkpoint: hash(11), anchor: hash(10) }
    );
    assert_eq!(analysis.handle(), Err(AnchorMismatch));
}

#[test]
fn a_checkpoint_beyond_the_chain_rolls_back_to_the_anchor() {
    let state = local(Some((20, 20)), Some((10, 10)), None);
    let analysis = CheckpointAnalysis::analyse(&state, &update(21, 21));
    assert_eq!(
        analysis,
        CheckpointAnalysis::ExceedsLocalChain {
            local: number(20),
            checkpoint: number(21),
            anchor: Some(number(10)),
        }
    );
    assert_eq!(analysis.handle(), Ok(CheckpointAction::RollbackToAnchor(Some(number(10)))));
}

#[test]
fn a_checkpoint_that_contradicts_the_chain_rolls_back_to_the_anchor() {
    let state = local(Some((20, 20)), None, Some((15, 15)));
    let analysis = CheckpointAnalysis::analyse(&state, &update(15, 16));
    assert_eq!(
        analysis,
        CheckpointAnalysis::HashMismatchWithLocalChain {
            block: number(15),
            local: hash(15),
            checkpoint: hash(16),
            anchor: None,
        }
    );
    assert_eq!(analysis.handle(), Ok(CheckpointAction::RollbackToAnchor(None)));
}

#[test]
fn a_matching_checkpoint_changes_nothing() {
    let state = local(Some((20, 20)), Some((10, 10)), Some((15, 15)));
    assert_eq!(check_checkpoint(&state, &update(15, 15)), Ok(CheckpointAction::Nothing));
    // Neither does the first checkpoint of an empty database.
    assert_eq!(check_checkpoint(&local(None, None, None), &update(15, 15)), Ok(CheckpointAction::Nothing));
}

#[test]
fn a_sync_takes_its_steps_in_order() {
    let checkpoint = update(15, 15);
    let head = checkpoint.block_number;
    let mut sync = CheckpointSync::new(checkpoint);
    let state = local(Some((20, 20)), Some((10, 10)), Some((15, 16)));
    assert_eq!(sync.run(SyncEvent::LocalState(state)), SyncAction::RollbackToAnchor(Some(number(10))));
    let expected = [
        SyncAction::PersistAnchor(checkpoint),
        SyncAction::SyncHeaders(checkpoint),
        SyncAction::SyncTransactions(head),
        SyncAction::SyncStateUpdates(head),
        SyncAction::SyncClassDefinitions(head),
        SyncAction::SyncEvents(head),
        SyncAction::Finish,
    ];
    for action in expected {
        assert_eq!(sync.run(SyncEvent::Completed), action);
    }
    assert_eq!(sync.step, SyncStep::Done);
    assert_eq!(sync.run(SyncEvent::Completed), SyncAction::Ignore);
}

#[test]
fn a_refused_checkpoint_or_a_failed_step_ends_the_sync() {
    let mut sync = CheckpointSync::new(update(9, 9));
    let state = local(Some((20, 20)), Some((10, 10)), Some((9, 9)));
    assert_eq!(sync.run(SyncEvent::LocalState(state)), SyncAction::Refuse);
    assert_eq!(sync.step, SyncStep::Failed);

    let mut sync = CheckpointSync::new(update(9, 9));
    assert_eq!(sync.run(SyncEvent::Completed), SyncAction::Ignore);
    assert_eq!(sync.run(SyncEvent::LocalState(local(None, None, None))), SyncAction::PersistAnchor(update(9, 9)));
    assert_eq!(sync.run(SyncEvent::Failed), SyncAction::Abort);
}

#[test]
fn stages_fetch_what_is_missing() {
    let stop = number(50);
    let plan = |start, chunk_size| Some(StreamPlan { start: number(start), stop, chunk_size });
    assert_eq!(CheckpointSync::sync_transactions(Some(number(3)), stop), plan(3, 100));
    assert_eq!(CheckpointSync::sync_state_updates(Some(number(4)), stop), plan(4, 100));
    assert_eq!(CheckpointSync::sync_class_definitions(Some(number(5)), stop), plan(5, 1000));
    assert_eq!(CheckpointSync::sync_events(Some(number(6)), stop), plan(6, 100));
    assert_eq!(CheckpointSync::sync_events(None, stop), None);
    let gap = HeaderGap { head: number(9), head_hash: hash(9), tail: number(2) };
    let expected = HeaderPlan { gap, reverse: true, chunk_size: 1024 };
    assert_eq!(CheckpointSync::sync_headers(Some(gap)), Some(expected));
    assert_eq!(CheckpointSync::sync_headers(None), None);
}

#[test]
fn transactions_are_checked_against_the_header() {
    let block = BlockHeader {
        transaction_count: 1,
        transaction_commitment: TransactionCommitment(Felt::from_u64(5)),
        ..Default::default()
    };
    let transactions = vec![Transaction {
        hash: TransactionHash(Felt::from_u64(1)),
        variant: TransactionVariant::L1Handler(L1HandlerTransaction {
            contract_address: ContractAddress::new_or_panic(Felt::from_u64(2)),
            entry_point_selector: EntryPoint(Felt::from_u64(3)),
            nonce: TransactionNonce(Felt::from_u64(4)),
            calldata: vec![],
        }),
    }];
    let commitment = |n| Some(TransactionCommitment(Felt::from_u64(n)));
    assert_eq!(check_transactions(&block, &[], None), TransactionCheck::Checked(false));
    assert_eq!(check_transactions(&block, &transactions, None), TransactionCheck::CommitmentNeeded);
    assert_eq!(check_transactions(&block, &transactions, commitment(5)), TransactionCheck::Checked(true));
    assert_eq!(check_transactions(&block, &transactions, commitment(6)), TransactionCheck::Checked(false));
}

fn receipt(sync: &ReceiptsSync) -> ReceiptsEvent {
    ReceiptsEvent::Receipt(Receipt { transaction_index: sync.next_index().unwrap(), ..Default::default() })
}

fn begin(first: u64, last: u64) -> ReceiptsSync {
    match CheckpointSync::sync_receipts(Some(number(first)), Some(number(last))) {
        ReceiptsStart::Sync(sync) => sync,
        _ => panic!("nothing to sync"),
    }
}

#[test]
fn receipts_are_persisted_block_by_block() {
    let sync = begin(3, 4);
    let (sync, action) = sync.step(ReceiptsEvent::Header(Some(2)));
    assert!(matches!(action, ReceiptsAction::NextPeer { start, limit: 2 } if start == number(3)));
    let (sync, action) = sync.step(ReceiptsEvent::Connected);
    assert!(matches!(action, ReceiptsAction::Read));
    let event = receipt(&sync);
    let (sync, _) = sync.step(event);
    let event = receipt(&sync);
    let (sync, _) = sync.step(event);
    // The third receipt shows that the first block is complete.
    let event = receipt(&sync);
    let (sync, action) = sync.step(event);
    match action {
        ReceiptsAction::Persist { block, receipts } => {
            assert_eq!(block, number(3));
            let indices: Vec<u64> = receipts.iter().map(|x| x.transaction_index.get()).collect();
            assert_eq!(indices, vec![0, 1]);
        }
        _ => panic!("not persisted"),
    }
    let (sync, action) = sync.step(ReceiptsEvent::Persisted);
    assert!(matches!(action, ReceiptsAction::QueryHeader(block) if block == number(4)));
    let (sync, action) = sync.step(ReceiptsEvent::Header(Some(1)));
    assert!(matches!(action, ReceiptsAction::Read));
    assert_eq!(sync.current_block(), number(4));
    let (sync, action) = sync.step(ReceiptsEvent::Fin);
    match action {
        ReceiptsAction::Persist { block, receipts } => {
            assert_eq!(block, number(4));
            assert_eq!(receipts.len(), 1);
        }
        _ => panic!("not persisted"),
    }
    let (_, action) = sync.step(ReceiptsEvent::Persisted);
    assert!(matches!(action, ReceiptsAction::Finish));
}

#[test]
fn a_peer_that_stops_early_is_replaced() {
    for event in [ReceiptsEvent::Fin, ReceiptsEvent::StreamEnd, ReceiptsEvent::InvalidReceipt] {
        let (sync, _) = begin(3, 5).step(ReceiptsEvent::Header(Some(2)));
        let (sync, _) = sync.step(ReceiptsEvent::Connected);
        let next = receipt(&sync);
        let (sync, _) = sync.step(next);
        let (sync, action) = sync.step(event);
        assert!(matches!(action, ReceiptsAction::NextPeer { start, limit: 3 } if start == number(3)));
        assert_eq!(sync.next_index().unwrap().get(), 0);
        let (_, action) = sync.step(ReceiptsEvent::RequestFailed);
        assert!(matches!(action, ReceiptsAction::NextPeer { start, limit: 3 } if start == number(3)));
    }
}

#[test]
fn an_extra_receipt_after_the_latest_block_ends_the_sync() {
    let (sync, _) = begin(5, 5).step(ReceiptsEvent::Header(Some(1)));
    let (sync, _) = sync.step(ReceiptsEvent::Connected);
    let event = receipt(&sync);
    let (sync, _) = sync.step(event);
    let event = receipt(&sync);
    let (sync, action) = sync.step(event);
    assert!(matches!(action, ReceiptsAction::Persist { .. }));
    let (_, action) = sync.step(ReceiptsEvent::Persisted);
    assert!(matches!(action, ReceiptsAction::Finish));
}

#[test]
fn receipts_sync_needs_headers() {
    assert!(matches!(CheckpointSync::sync_receipts(None, Some(number(1))), ReceiptsStart::Nothing));
    assert!(matches!(
        CheckpointSync::sync_receipts(Some(number(1)), None),
        ReceiptsStart::Fail(ReceiptsError::LastBlockNotFound)
    ));
    let (_, action) = begin(1, 2).step(ReceiptsEvent::Header(None));
    assert!(matches!(action, ReceiptsAction::Fail(ReceiptsError::FirstBlockNotFound)));
    let (_, action) = begin(1, 2).step(ReceiptsEvent::Fin);
    assert!(matches!(action, ReceiptsAction::Fail(ReceiptsError::Unexpected)));

    let (sync, _) = begin(1, 2).step(ReceiptsEvent::Header(Some(0)));
    let (sync, _) = sync.step(ReceiptsEvent::Connected);
    let event = receipt(&sync);
    let (sync, action) = sync.step(event);
    assert!(matches!(action, ReceiptsAction::Persist { receipts, .. } if receipts.is_empty()));
    let (sync, _) = sync.step(ReceiptsEvent::Persisted);
    let (_, action) = sync.step(ReceiptsEvent::Header(None));
    assert!(matches!(action, ReceiptsAction::Fail(ReceiptsError::NextBlockNotFound)));
}

#[test]
fn syncing_repeats_until_within_the_margin() {
    let mut sync = Sync::new();
    let first = update(100, 1);
    assert!(matches!(sync.run(DriverEvent::Checkpoint(first)), DriverAction::SyncTo(x) if x == first));
    let failure = SyncError::Other("broken".to_string());
    assert!(matches!(sync.run(DriverEvent::SyncFailed(failure.clone())), DriverAction::HandleError(e) if e == failure));
    assert!(matches!(sync.run(DriverEvent::ErrorHandled), DriverAction::SyncTo(x) if x == first));
    assert!(matches!(sync.run(DriverEvent::Synced), DriverAction::FetchCheckpoint));
    let second = update(111, 2);
    assert!(matches!(sync.run(DriverEvent::Checkpoint(second)), DriverAction::SyncTo(x) if x == second));
    assert!(matches!(sync.run(DriverEvent::Synced), DriverAction::FetchCheckpoint));
    assert!(matches!(sync.run(DriverEvent::Checkpoint(update(121, 3))), DriverAction::Track));
    assert_eq!(sync.state, DriverState::Done);
}

#[test]
fn without_a_checkpoint_there_is_no_sync() {
    let mut sync = Sync::new();
    assert!(matches!(sync.run(DriverEvent::Synced), DriverAction::Ignore));
    assert!(matches!(sync.run(DriverEvent::CheckpointFailed), DriverAction::Abort));
}
