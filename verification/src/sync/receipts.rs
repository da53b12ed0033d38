//! Syncing receipts, peer by peer.
use crate::common::receipt::Receipt;
use crate::common::{BlockNumber, TransactionIndex};
use vstd::prelude::*;

verus! {

/// What the sync of receipts asks for.
pub enum ReceiptsAction {
    /// Look up how many transactions a block has.
    QueryHeader(BlockNumber),
    /// Ask the next peer for the receipts of `limit` blocks from `start` on. Where no peer is
    /// left, look for peers anew.
    NextPeer { start: BlockNumber, limit: u64 },
    /// Read the next response of the peer.
    Read,
    /// Persist the receipts of a block.
    Persist { block: BlockNumber, receipts: Vec<Receipt> },
    /// Everything is synced.
    Finish,
    /// Give up.
    Fail(ReceiptsError),
}

/// Why the sync of receipts is given up.
#[derive(Clone, Copy, Debug, PartialEq, Eq)]
pub enum ReceiptsError {
    /// There are blocks without receipts, but no latest block.
    LastBlockNotFound,
    /// The first block without receipts has no header.
    FirstBlockNotFound,
    /// The block that follows has no header.
    NextBlockNotFound,
    /// Something was reported that was not asked for.
    Unexpected,
}

/// What came of what was asked for.
pub enum ReceiptsEvent {
    /// How many transactions the block has, where its header is known.
    Header(Option<usize>),
    /// The peer could not be reached.
    RequestFailed,
    /// The peer answers.
    Connected,
    /// The peer sent a receipt.
    Receipt(Receipt),
    /// The peer sent a receipt that makes no sense.
    InvalidReceipt,
    /// The peer says that there is nothing more.
    Fin,
    /// The connection to the peer has ended.
    StreamEnd,
    /// The receipts are persisted.
    Persisted,
}

/// What is being waited for.
pub enum ReceiptsState {
    /// The header of the first block.
    FirstHeader,
    /// A peer.
    Peer,
    /// A response of the peer.
    Response,
    /// That the receipts of the current block are persisted. The receipt that showed that the
    /// block is complete belongs to the next block.
    Persisting(Option<Receipt>),
    /// The header of the next block.
    NextHeader(Receipt),
    /// Nothing.
    Done,
}

/// A sync of the receipts up to the latest block.
pub struct ReceiptsSync {
    last: BlockNumber,
    current: BlockNumber,
    transaction_count: usize,
    receipts: Vec<Receipt>,
    state: ReceiptsState,
}

/// How a sync of receipts starts.
pub enum ReceiptsStart {
    /// No receipts are missing.
    Nothing,
    /// Look up the header of the first block that lacks receipts.
    Sync(ReceiptsSync),
    /// Give up.
    Fail(ReceiptsError),
}

/// The state of a sync of receipts.
#[verifier::ext_equal]
pub struct ReceiptsView {
    /// The latest block.
    pub last: u64,
    /// The block whose receipts are being fetched.
    pub current: u64,
    /// How many transactions this block has.
    pub transaction_count: nat,
    /// The receipts of this block that were fetched.
    pub receipts: Seq<Receipt>,
    pub state: ReceiptsState,
}

impl View for ReceiptsSync {
    type V = ReceiptsView;

    closed spec fn view(&self) -> ReceiptsView {
        ReceiptsView {
            last: self.last@,
            current: self.current@,
            transaction_count: self.transaction_count as nat,
            receipts: self.receipts@,
            state: self.state,
        }
    }
}

/// What is asked for, with the receipts as a sequence.
#[verifier::ext_equal]
pub enum ReceiptsActionView {
    QueryHeader(u64),
    NextPeer { start: u64, limit: u64 },
    Read,
    Persist { block: u64, receipts: Seq<Receipt> },
    Finish,
    Fail(ReceiptsError),
}

impl View for ReceiptsAction {
    type V = ReceiptsActionView;

    open spec fn view(&self) -> ReceiptsActionView {
        match self {
            ReceiptsAction::QueryHeader(block) => ReceiptsActionView::QueryHeader(block@),
            ReceiptsAction::NextPeer { start, limit } => ReceiptsActionView::NextPeer { start: start@, limit: *limit },
            ReceiptsAction::Read => ReceiptsActionView::Read,
            ReceiptsAction::Persist { block, receipts } => ReceiptsActionView::Persist {
                block: block@,
                receipts: receipts@,
            },
            ReceiptsAction::Finish => ReceiptsActionView::Finish,
            ReceiptsAction::Fail(e) => ReceiptsActionView::Fail(*e),
        }
    }
}

impl ReceiptsView {
    /// What holds of every state: the latest block is not passed, and no more receipts are held
    /// than the block has transactions, except that a block without transactions may hold the
    /// one receipt that came with it.
    pub open spec fn well_formed(self) -> bool {
        &&& self.current <= self.last <= i64::MAX
        &&& self.receipts.len() <= self.transaction_count || (self.transaction_count == 0 && self.receipts.len() == 1)
        &&& self.state is NextHeader ==> self.current < self.last
        &&& self.state matches ReceiptsState::Persisting(None) ==> self.current == self.last
        &&& self.state is Peer ==> self.receipts.len() == 0
    }

    /// What is asked of the next peer.
    pub open spec fn request(self) -> ReceiptsActionView {
        ReceiptsActionView::NextPeer { start: self.current, limit: (self.last - self.current + 1) as u64 }
    }

    /// The next peer is asked, and what the last one sent for the current block is dropped.
    pub open spec fn next_peer(self) -> (ReceiptsView, ReceiptsActionView) {
        (ReceiptsView { receipts: Seq::empty(), state: ReceiptsState::Peer, ..self }, self.request())
    }

    /// The receipts of the current block are handed out to be persisted.
    pub open spec fn persist(self, pending: Option<Receipt>) -> (ReceiptsView, ReceiptsActionView) {
        (
            ReceiptsView { receipts: Seq::empty(), state: ReceiptsState::Persisting(pending), ..self },
            ReceiptsActionView::Persist { block: self.current, receipts: self.receipts },
        )
    }

    /// The state and the action that follow an event.
    pub open spec fn step(self, event: ReceiptsEvent) -> (ReceiptsView, ReceiptsActionView) {
        match (self.state, event) {
            (ReceiptsState::FirstHeader, ReceiptsEvent::Header(Some(count))) => ReceiptsView {
                transaction_count: count as nat,
                ..self
            }.next_peer(),
            (ReceiptsState::FirstHeader, ReceiptsEvent::Header(None)) => (
                ReceiptsView { state: ReceiptsState::Done, ..self },
                ReceiptsActionView::Fail(ReceiptsError::FirstBlockNotFound),
            ),
            (ReceiptsState::Peer, ReceiptsEvent::RequestFailed) => self.next_peer(),
            (ReceiptsState::Peer, ReceiptsEvent::Connected) => (
                ReceiptsView { state: ReceiptsState::Response, ..self },
                ReceiptsActionView::Read,
            ),
            (ReceiptsState::Response, ReceiptsEvent::Receipt(receipt)) => if self.receipts.len()
                < self.transaction_count {
                (ReceiptsView { receipts: self.receipts.push(receipt), ..self }, ReceiptsActionView::Read)
            } else {
                self.persist(Some(receipt))
            },
            (ReceiptsState::Response, ReceiptsEvent::Fin) => if self.current == self.last && self.receipts.len()
                == self.transaction_count {
                self.persist(None)
            } else {
                self.next_peer()
            },
            (ReceiptsState::Response, ReceiptsEvent::InvalidReceipt) => self.next_peer(),
            (ReceiptsState::Response, ReceiptsEvent::StreamEnd) => self.next_peer(),
            (ReceiptsState::Persisting(pending), ReceiptsEvent::Persisted) => match pending {
                Some(receipt) if self.current < self.last => (
                    ReceiptsView { state: ReceiptsState::NextHeader(receipt), ..self },
                    ReceiptsActionView::QueryHeader((self.current + 1) as u64),
                ),
                _ => (ReceiptsView { state: ReceiptsState::Done, ..self }, ReceiptsActionView::Finish),
            },
            (ReceiptsState::NextHeader(receipt), ReceiptsEvent::Header(Some(count))) => (
                ReceiptsView {
                    current: (self.current + 1) as u64,
                    transaction_count: count as nat,
                    receipts: seq![receipt],
                    state: ReceiptsState::Response,
                    ..self
                },
                ReceiptsActionView::Read,
            ),
            (ReceiptsState::NextHeader(_), ReceiptsEvent::Header(None)) => (
                ReceiptsView { state: ReceiptsState::Done, ..self },
                ReceiptsActionView::Fail(ReceiptsError::NextBlockNotFound),
            ),
            _ => (
                ReceiptsView { state: ReceiptsState::Done, ..self },
                ReceiptsActionView::Fail(ReceiptsError::Unexpected),
            ),
        }
    }
}

/// Whether `r` is how a sync of receipts starts: not at all where no block lacks receipts, and
/// otherwise with the first block that does.
pub open spec fn starts(first_block: Option<BlockNumber>, last_block: Option<BlockNumber>, r: ReceiptsStart) -> bool {
    match (first_block, last_block) {
        (None, _) => r is Nothing,
        (Some(_), None) => r == ReceiptsStart::Fail(ReceiptsError::LastBlockNotFound),
        (Some(first), Some(last)) => r matches ReceiptsStart::Sync(sync) && sync@ == (ReceiptsView {
            last: last@,
            current: first@,
            transaction_count: 0,
            receipts: Seq::empty(),
            state: ReceiptsState::FirstHeader,
        }),
    }
}

/// Starts a sync of receipts, given the first block that lacks some and the latest block.
pub fn start(first_block: Option<BlockNumber>, last_block: Option<BlockNumber>) -> (r: ReceiptsStart)
    requires
        first_block is Some && last_block is Some ==> first_block->Some_0@ <= last_block->Some_0@,
    ensures
        starts(first_block, last_block, r),
{
    let current = match first_block {
        Some(block) => block,
        None => return ReceiptsStart::Nothing,
    };
    let last = match last_block {
        Some(block) => block,
        None => return ReceiptsStart::Fail(ReceiptsError::LastBlockNotFound),
    };
    last.get();
    ReceiptsStart::Sync(
        ReceiptsSync {
            last,
            current,
            transaction_count: 0,
            receipts: Vec::new(),
            state: ReceiptsState::FirstHeader,
        },
    )
}

impl ReceiptsSync {
    #[verifier::type_invariant]
    spec fn stays_well_formed(self) -> bool {
        self@.well_formed()
    }

    /// The block whose receipts are being fetched.
    pub fn current_block(&self) -> (r: BlockNumber)
        ensures
            r@ == self@.current,
            self@.well_formed(),
    {
        proof {
            use_type_invariant(self);
        }
        self.current
    }

    /// The number of receipts that are held for the current block, where it is one that can be
    /// stored. It is the position that the next receipt gets, as long as the block is not full.
    /// After that, the next receipt becomes the first one of the following block, where there is
    /// one.
    pub fn next_index(&self) -> (r: Option<TransactionIndex>)
        ensures
            match r {
                Some(index) => index@ == self@.receipts.len(),
                None => self@.receipts.len() > i64::MAX,
            },
    {
        TransactionIndex::new(self.receipts.len() as u64)
    }

    /// Takes an event and says what to do next.
    pub fn step(self, event: ReceiptsEvent) -> (r: (ReceiptsSync, ReceiptsAction))
        ensures
            (r.0@, r.1@) == self@.step(event),
            self@.well_formed(),
            r.0@.well_formed(),
    {
        proof {
            use_type_invariant(&self);
        }
        let ReceiptsSync { last, current, transaction_count, receipts, state } = self;
        match (state, event) {
            (ReceiptsState::FirstHeader, ReceiptsEvent::Header(Some(count))) => ask_next_peer(last, current, count),
            (ReceiptsState::FirstHeader, ReceiptsEvent::Header(None)) => (
                ReceiptsSync { last, current, transaction_count, receipts, state: ReceiptsState::Done },
                ReceiptsAction::Fail(ReceiptsError::FirstBlockNotFound),
            ),
            (ReceiptsState::Peer, ReceiptsEvent::RequestFailed) => ask_next_peer(last, current, transaction_count),
            (ReceiptsState::Peer, ReceiptsEvent::Connected) => (
                ReceiptsSync { last, current, transaction_count, receipts, state: ReceiptsState::Response },
                ReceiptsAction::Read,
            ),
            (ReceiptsState::Response, ReceiptsEvent::Receipt(receipt)) => if receipts.len() < transaction_count {
                let mut receipts = receipts;
                receipts.push(receipt);
                (
                    ReceiptsSync { last, current, transaction_count, receipts, state: ReceiptsState::Response },
                    ReceiptsAction::Read,
                )
            } else {
                let state = ReceiptsState::Persisting(Some(receipt));
                (
                    ReceiptsSync { last, current, transaction_count, receipts: Vec::new(), state },
                    ReceiptsAction::Persist { block: current, receipts },
                )
            },
            (ReceiptsState::Response, ReceiptsEvent::Fin) => if current.get() == last.get() && receipts.len()
                == transaction_count {
                let state = ReceiptsState::Persisting(None);
                (
                    ReceiptsSync { last, current, transaction_count, receipts: Vec::new(), state },
                    ReceiptsAction::Persist { block: current, receipts },
                )
            } else {
                ask_next_peer(last, current, transaction_count)
            },
            (ReceiptsState::Response, ReceiptsEvent::InvalidReceipt) => ask_next_peer(last, current, transaction_count),
            (ReceiptsState::Response, ReceiptsEvent::StreamEnd) => ask_next_peer(last, current, transaction_count),
            (ReceiptsState::Persisting(pending), ReceiptsEvent::Persisted) => match pending {
                Some(receipt) if current.get() < last.get() => {
                    let next = BlockNumber::new_or_panic(current.get() + 1);
                    let state = ReceiptsState::NextHeader(receipt);
                    (
                        ReceiptsSync { last, current, transaction_count, receipts, state },
                        ReceiptsAction::QueryHeader(next),
                    )
                },
                _ => (
                    ReceiptsSync { last, current, transaction_count, receipts, state: ReceiptsState::Done },
                    ReceiptsAction::Finish,
                ),
            },
            (ReceiptsState::NextHeader(receipt), ReceiptsEvent::Header(Some(count))) => {
                let next = BlockNumber::new_or_panic(current.get() + 1);
                let mut receipts: Vec<Receipt> = Vec::new();
                receipts.push(receipt);
                assert(receipts@ =~= seq![receipt]);
                (
                    ReceiptsSync {
                        last,
                        current: next,
                        transaction_count: count,
                        receipts,
                        state: ReceiptsState::Response,
                    },
                    ReceiptsAction::Read,
                )
            },
            (ReceiptsState::NextHeader(_), ReceiptsEvent::Header(None)) => (
                ReceiptsSync { last, current, transaction_count, receipts, state: ReceiptsState::Done },
                ReceiptsAction::Fail(ReceiptsError::NextBlockNotFound),
            ),
            _ => (
                ReceiptsSync { last, current, transaction_count, receipts, state: ReceiptsState::Done },
                ReceiptsAction::Fail(ReceiptsError::Unexpected),
            ),
        }
    }
}

/// Asks the next peer for the receipts from the current block on, with nothing fetched yet.
fn ask_next_peer(last: BlockNumber, current: BlockNumber, transaction_count: usize) -> (r: (
    ReceiptsSync,
    ReceiptsAction,
))
    requires
        current@ <= last@,
    ensures
        r.0@ == (ReceiptsView {
            last: last@,
            current: current@,
            transaction_count: transaction_count as nat,
            receipts: Seq::empty(),
            state: ReceiptsState::Peer,
        }),
        r.1@ == r.0@.request(),
{
    let limit: u64 = last.get() - current.get() + 1;
    (
        ReceiptsSync { last, current, transaction_count, receipts: Vec::new(), state: ReceiptsState::Peer },
        ReceiptsAction::NextPeer { start: current, limit },
    )
}

/// What is persisted for a block are as many receipts as it has transactions, unless it has none
/// and a receipt came with it from the block before.
pub proof fn lemma_persisted_is_complete(view: ReceiptsView, event: ReceiptsEvent)
    requires
        view.well_formed(),
    ensures
        view.step(event).1 matches ReceiptsActionView::Persist { block, receipts } ==> {
            &&& block == view.current
            &&& receipts == view.receipts
            &&& receipts.len() == view.transaction_count || (view.transaction_count == 0 && receipts.len() == 1)
        },
{
}

/// Blocks are synced one after the other up to the latest one: a step leads to the same block or
/// to the next, to the next only after the current one was persisted, and the sync finishes only
/// once the latest block was persisted.
pub proof fn lemma_blocks_in_order(view: ReceiptsView, event: ReceiptsEvent)
    requires
        view.well_formed(),
    ensures
        view.step(event).0.well_formed(),
        view.step(event).0.last == view.last,
        view.step(event).0.current == view.current || (view.step(event).0.current == view.current + 1 && view.state
            is NextHeader),
        view.step(event).0.state is NextHeader ==> view.state is Persisting && view.step(event).0.current
            == view.current,
        view.step(event).0.state is Persisting ==> view.step(event).1 is Persist,
        view.step(event).1 is Finish ==> view.state is Persisting && view.current == view.last,
{
}

/// Where a peer is given up, what it sent for the current block is dropped, and the next one is
/// asked for the rest of the chain from this block on.
pub proof fn lemma_next_peer_continues(view: ReceiptsView, event: ReceiptsEvent)
    requires
        view.well_formed(),
        view.step(event).1 is NextPeer,
    ensures
        view.step(event).1 == (ReceiptsActionView::NextPeer {
            start: view.current,
            limit: (view.last - view.current + 1) as u64,
        }),
        view.step(event).0.receipts.len() == 0,
        view.step(event).0.current == view.current,
{
}

/// The state after a sequence of events.
pub open spec fn state_after(view: ReceiptsView, events: Seq<ReceiptsEvent>) -> ReceiptsView
    decreases events.len(),
{
    if events.len() == 0 {
        view
    } else {
        state_after(view, events.drop_last()).step(events.last()).0
    }
}

/// The blocks that are persisted in the course of a sequence of events.
pub open spec fn persisted_blocks(view: ReceiptsView, events: Seq<ReceiptsEvent>) -> Seq<u64>
    decreases events.len(),
{
    if events.len() == 0 {
        Seq::empty()
    } else {
        let init = events.drop_last();
        match state_after(view, init).step(events.last()).1 {
            ReceiptsActionView::Persist { block, .. } => persisted_blocks(view, init).push(block),
            _ => persisted_blocks(view, init),
        }
    }
}

/// Whether the last of a sequence of events finishes the sync.
pub open spec fn finishes(view: ReceiptsView, events: Seq<ReceiptsEvent>) -> bool {
    events.len() > 0 && state_after(view, events.drop_last()).step(events.last()).1 is Finish
}

/// Whatever the peers do, the blocks are persisted one after the other, none twice and none
/// left out, and once the sync finishes, they all are.
pub proof fn lemma_persisted_blocks(view: ReceiptsView, events: Seq<ReceiptsEvent>)
    requires
        view.well_formed(),
        view.state is FirstHeader,
    ensures
        forall|i: int|
            0 <= i < persisted_blocks(view, events).len() ==> #[trigger] persisted_blocks(view, events)[i]
                == view.current + i,
        finishes(view, events) ==> persisted_blocks(view, events).len() == view.last - view.current + 1,
{
    lemma_progress(view, events);
    if events.len() > 0 {
        lemma_progress(view, events.drop_last());
    }
}

/// How many blocks are persisted, told by the state.
proof fn lemma_progress(view: ReceiptsView, events: Seq<ReceiptsEvent>)
    requires
        view.well_formed(),
        view.state is FirstHeader,
    ensures
        ({
            let state = state_after(view, events);
            let blocks = persisted_blocks(view, events);
            &&& state.well_formed()
            &&& state.last == view.last
            &&& state.current >= view.current
            &&& forall|i: int| 0 <= i < blocks.len() ==> #[trigger] blocks[i] == view.current + i
            &&& (state.state is Persisting || state.state is NextHeader) ==> blocks.len() == state.current - view.current
                + 1
            &&& (state.state is FirstHeader || state.state is Peer || state.state is Response) ==> blocks.len()
                == state.current - view.current
        }),
    decreases events.len(),
{
    if events.len() > 0 {
        lemma_progress(view, events.drop_last());
        let before = state_after(view, events.drop_last());
        let (after, action) = before.step(events.last());
        lemma_blocks_in_order(before, events.last());
        lemma_persisted_is_complete(before, events.last());
        assert(state_after(view, events) == after);
        assert(after.state is Persisting <==> action is Persist);
        assert(action is Persist ==> before.state is Response);
        assert(after.state is NextHeader ==> before.state is Persisting && after.current == before.current);
        assert(after.state is Peer ==> (before.state is FirstHeader || before.state is Peer || before.state is Response)
            && after.current == before.current);
        assert(after.state is Response ==> (before.state is Peer || before.state is Response) && after.current
            == before.current || before.state is NextHeader && after.current == before.current + 1);
        assert(!(after.state is FirstHeader));
    }
}

/// A receipt that is taken goes behind those that are held already. It is taken as long as the
/// block has more transactions than receipts. The first one beyond that hands out exactly what is
/// held, and is kept for the next block.
pub proof fn lemma_receipt_goes_last(view: ReceiptsView, receipt: Receipt)
    requires
        view.state is Response,
    ensures
        ({
            let (after, action) = view.step(ReceiptsEvent::Receipt(receipt));
            &&& action is Persist <==> view.receipts.len() >= view.transaction_count
            &&& !(action is Persist) ==> {
                &&& action is Read
                &&& after.receipts.len() == view.receipts.len() + 1
                &&& after.receipts.last() == receipt
                &&& forall|i: int| 0 <= i < view.receipts.len() ==> #[trigger] after.receipts[i] == view.receipts[i]
                &&& after.state is Response
                &&& after.current == view.current
                &&& after.transaction_count == view.transaction_count
            }
            &&& action matches ReceiptsActionView::Persist { block, receipts } ==> {
                &&& block == view.current
                &&& receipts == view.receipts
                &&& after.state == ReceiptsState::Persisting(Some(receipt))
                &&& after.current == view.current
            }
        }),
{
}

/// A peer that says that there is nothing more has sent everything if and only if this is the
/// latest block and it has as many receipts as transactions. Otherwise, and where the peer breaks
/// off or sends nonsense, the next one is asked.
pub proof fn lemma_end_of_a_peer(view: ReceiptsView, event: ReceiptsEvent)
    requires
        view.state is Response,
        event is Fin || event is StreamEnd || event is InvalidReceipt,
    ensures
        view.step(event).1 is Persist <==> event is Fin && view.current == view.last && view.receipts.len()
            == view.transaction_count,
        view.step(event).1 is Persist ==> view.step(event).1 == (ReceiptsActionView::Persist {
            block: view.current,
            receipts: view.receipts,
        }) && view.step(event).0.state == ReceiptsState::Persisting(None),
        !(view.step(event).1 is Persist) ==> view.step(event).1 is NextPeer,
{
}

/// A header says how many transactions its block has. The first one starts the block with nothing
/// held, each further one starts the next block with the receipt that was kept for it.
pub proof fn lemma_header_starts_a_block(view: ReceiptsView, count: usize)
    requires
        view.well_formed(),
    ensures
        view.state is FirstHeader ==> ({
            let (after, action) = view.step(ReceiptsEvent::Header(Some(count)));
            &&& after.current == view.current && after.transaction_count == count && after.receipts.len() == 0
            &&& action == (ReceiptsActionView::NextPeer {
                start: view.current,
                limit: (view.last - view.current + 1) as u64,
            })
        }),
        view.state matches ReceiptsState::NextHeader(kept) ==> ({
            let (after, action) = view.step(ReceiptsEvent::Header(Some(count)));
            &&& after.current == view.current + 1 && after.transaction_count == count
            &&& after.receipts.len() == 1 && after.receipts[0] == kept
            &&& after.state is Response && action is Read
        }),
        view.state is FirstHeader ==> view.step(ReceiptsEvent::Header(None)).1 == ReceiptsActionView::Fail(
            ReceiptsError::FirstBlockNotFound,
        ),
        view.state is NextHeader ==> view.step(ReceiptsEvent::Header(None)).1 == ReceiptsActionView::Fail(
            ReceiptsError::NextBlockNotFound,
        ),
{
}

/// After a block was persisted, the header of the next block is looked up, and the receipt that was
/// kept goes with it, if and only if there is such a receipt and such a block. Otherwise the sync is
/// finished.
pub proof fn lemma_after_persisting(view: ReceiptsView, kept: Option<Receipt>)
    requires
        view.well_formed(),
        view.state == ReceiptsState::Persisting(kept),
    ensures
        ({
            let (after, action) = view.step(ReceiptsEvent::Persisted);
            let goes_on = kept is Some && view.current < view.last;
            &&& goes_on ==> action == ReceiptsActionView::QueryHeader((view.current + 1) as u64) && after.state
                == ReceiptsState::NextHeader(kept->Some_0)
            &&& !goes_on ==> action is Finish
        }),
{
}

/// What is not waited for ends the sync.
pub proof fn lemma_unexpected_event_fails(view: ReceiptsView, event: ReceiptsEvent)
    ensures
        view.step(event).1 == ReceiptsActionView::Fail(ReceiptsError::Unexpected) <==> !{
            ||| (view.state is FirstHeader || view.state is NextHeader) && event is Header
            ||| view.state is Peer && (event is RequestFailed || event is Connected)
            ||| view.state is Response && (event is Receipt || event is InvalidReceipt || event is Fin || event
                is StreamEnd)
            ||| view.state is Persisting && event is Persisted
        },
        view.state is Peer && event is Connected ==> view.step(event).1 is Read && view.step(event).0.state is Response
            && view.step(event).0.receipts == view.receipts,
        view.state is Peer && event is RequestFailed ==> view.step(event).1 is NextPeer,
{
}

/// A sync starts at the first block that lacks receipts and goes up to the latest one, with nothing
/// held. There is none exactly where no block lacks receipts.
pub proof fn lemma_start(first_block: Option<BlockNumber>, last_block: Option<BlockNumber>, r: ReceiptsStart)
    requires
        starts(first_block, last_block, r),
    ensures
        r is Nothing <==> first_block is None,
        r is Sync <==> first_block is Some && last_block is Some,
        r matches ReceiptsStart::Sync(sync) ==> {
            &&& sync@.current == first_block->Some_0@
            &&& sync@.last == last_block->Some_0@
            &&& sync@.receipts.len() == 0
            &&& sync@.state is FirstHeader
        },
        r matches ReceiptsStart::Fail(e) ==> e == ReceiptsError::LastBlockNotFound,
{
}

/// What the last of a sequence of events is answered with.
pub open spec fn answer(view: ReceiptsView, events: Seq<ReceiptsEvent>) -> ReceiptsActionView {
    state_after(view, events.drop_last()).step(events.last()).1
}

/// The last receipt that was answered with a request to persist: it is the first one of the block
/// that follows.
pub open spec fn kept_receipt(view: ReceiptsView, events: Seq<ReceiptsEvent>) -> Option<Receipt>
    decreases events.len(),
{
    if events.len() == 0 {
        None
    } else {
        match (answer(view, events), events.last()) {
            (ReceiptsActionView::Persist { .. }, ReceiptsEvent::Receipt(receipt)) => Some(receipt),
            (ReceiptsActionView::Persist { .. }, _) => None,
            _ => kept_receipt(view, events.drop_last()),
        }
    }
}

/// The receipts that arrived for the current block, in order of arrival: those since the last peer
/// was asked, or the one that was kept for the block and those after it.
pub open spec fn arrived(view: ReceiptsView, events: Seq<ReceiptsEvent>) -> Seq<Receipt>
    decreases events.len(),
{
    if events.len() == 0 {
        Seq::empty()
    } else {
        match (answer(view, events), events.last()) {
            (ReceiptsActionView::NextPeer { .. }, _) => Seq::empty(),
            (ReceiptsActionView::Persist { .. }, _) => Seq::empty(),
            (ReceiptsActionView::Read, ReceiptsEvent::Receipt(receipt)) => arrived(view, events.drop_last()).push(
                receipt,
            ),
            (ReceiptsActionView::Read, ReceiptsEvent::Header(_)) => match kept_receipt(view, events.drop_last()) {
                Some(receipt) => seq![receipt],
                None => Seq::empty(),
            },
            _ => arrived(view, events.drop_last()),
        }
    }
}

/// Whatever the peers do, the receipts that are handed out for a block are exactly those that
/// arrived for it, in order of arrival.
pub proof fn lemma_persisted_is_what_arrived(view: ReceiptsView, events: Seq<ReceiptsEvent>)
    requires
        view.well_formed(),
        view.state is FirstHeader,
        view.receipts.len() == 0,
        events.len() > 0,
    ensures
        answer(view, events) matches ReceiptsActionView::Persist { receipts, .. } ==> receipts == arrived(
            view,
            events.drop_last(),
        ),
{
    lemma_held_is_what_arrived(view, events.drop_last());
}

proof fn lemma_held_is_what_arrived(view: ReceiptsView, events: Seq<ReceiptsEvent>)
    requires
        view.well_formed(),
        view.state is FirstHeader,
        view.receipts.len() == 0,
    ensures
        ({
            let state = state_after(view, events);
            &&& !(state.state is Done) ==> state.receipts == arrived(view, events)
            &&& state.state matches ReceiptsState::Persisting(kept) ==> kept == kept_receipt(view, events)
            &&& state.state matches ReceiptsState::NextHeader(kept) ==> Some(kept) == kept_receipt(view, events)
        }),
    decreases events.len(),
{
    if events.len() == 0 {
        assert(view.receipts =~= Seq::empty());
    } else {
        lemma_held_is_what_arrived(view, events.drop_last());
        assert(state_after(view, events) == state_after(view, events.drop_last()).step(events.last()).0);
        assert(state_after(view, events).receipts =~= arrived(view, events) || state_after(view, events).state is Done);
    }
}

/// The events of a peer that sends receipts one after the other.
pub open spec fn sends(receipts: Seq<Receipt>) -> Seq<ReceiptsEvent> {
    receipts.map(|_i: int, receipt: Receipt| ReceiptsEvent::Receipt(receipt))
}

/// Receipts that complete a block are all taken, in order of arrival, and nothing is persisted
/// before.
pub proof fn lemma_receipts_are_taken(view: ReceiptsView, receipts: Seq<Receipt>)
    requires
        view.state is Response,
        view.receipts.len() + receipts.len() <= view.transaction_count,
    ensures
        state_after(view, sends(receipts)) == (ReceiptsView { receipts: view.receipts + receipts, ..view }),
        persisted_blocks(view, sends(receipts)).len() == 0,
    decreases receipts.len(),
{
    if receipts.len() == 0 {
        assert(view.receipts + receipts =~= view.receipts);
    } else {
        let init = receipts.drop_last();
        lemma_receipts_are_taken(view, init);
        assert(sends(receipts).drop_last() =~= sends(init));
        assert(sends(receipts).last() == ReceiptsEvent::Receipt(receipts.last()));
        assert((view.receipts + init).push(receipts.last()) =~= view.receipts + receipts);
    }
}

/// A peer that sends all receipts of the latest block, and then that there is nothing more, has
/// these receipts persisted for it, in the order in which it sent them.
pub proof fn lemma_complete_block_is_persisted(view: ReceiptsView, receipts: Seq<Receipt>)
    requires
        view.state is Response,
        view.receipts.len() == 0,
        view.current == view.last,
        receipts.len() == view.transaction_count,
    ensures
        state_after(view, sends(receipts)).step(ReceiptsEvent::Fin).1 == (ReceiptsActionView::Persist {
            block: view.current,
            receipts,
        }),
{
    lemma_receipts_are_taken(view, receipts);
    assert(view.receipts + receipts =~= receipts);
}

/// A peer that sends all receipts of a block and the first one of the next has the former persisted
/// for the block, in the order in which it sent them, and the latter taken for the next.
pub proof fn lemma_complete_block_leads_to_the_next(
    view: ReceiptsView,
    receipts: Seq<Receipt>,
    next: Receipt,
    count: usize,
)
    requires
        view.state is Response,
        view.receipts.len() == 0,
        view.current < view.last <= i64::MAX,
        receipts.len() == view.transaction_count,
    ensures
        ({
            let full = state_after(view, sends(receipts));
            let (persisting, action) = full.step(ReceiptsEvent::Receipt(next));
            let (waiting, query) = persisting.step(ReceiptsEvent::Persisted);
            let (following, _) = waiting.step(ReceiptsEvent::Header(Some(count)));
            &&& action == (ReceiptsActionView::Persist { block: view.current, receipts })
            &&& query == ReceiptsActionView::QueryHeader((view.current + 1) as u64)
            &&& following.state is Response && following.current == view.current + 1 && following.transaction_count
                == count && following.receipts == seq![next]
        }),
{
    lemma_receipts_are_taken(view, receipts);
    assert(view.receipts + receipts =~= receipts);
}

/// What is asked for says what is in it.
pub proof fn lemma_parts_of_an_action(action: ReceiptsAction)
    ensures
        action matches ReceiptsAction::QueryHeader(block) ==> action@ == ReceiptsActionView::QueryHeader(block@),
        action matches ReceiptsAction::NextPeer { start, limit } ==> action@ == (ReceiptsActionView::NextPeer {
            start: start@,
            limit,
        }),
        action matches ReceiptsAction::Persist { block, receipts } ==> action@ == (ReceiptsActionView::Persist {
            block: block@,
            receipts: receipts@,
        }),
        action matches ReceiptsAction::Fail(e) ==> action@ == ReceiptsActionView::Fail(e),
        action is Read <==> action@ is Read,
        action is Finish <==> action@ is Finish,
{
}

} // verus!
