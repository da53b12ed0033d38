//! Reading and writing the transactions of a block.
//!
//! The database holds one row per block, with the compressed transactions of the block. The
//! caller runs the queries; this module decides what to write and what a row that was read means.
use crate::bytes::be_value;
use crate::common::event::{Event, EventView};
use crate::common::receipt::{Receipt, ReceiptView};
use crate::common::transaction::{Transaction as StarknetTransaction, TransactionView};
use crate::common::{views, BlockHash, BlockNumber, TransactionHash};
use crate::felt::{modulus, Felt};
use crate::storage::codec::Decode;
use crate::storage::compression::{compressed, compression_fails, decompressed, decompression_fails, zstd_content,
    zstd_frame, COMPRESSION_LEVEL};
use crate::storage::convert::loadable_messages;
use crate::storage::rows::{decode_rows, encode_rows, loadable_events, loadable_row, loadable_rows, loaded_rows,
    bounded_numbers, lemma_small_numbers_are_loadable, reloaded, rows_encoding, rows_of, stored_rows, LoadError, Rows,
    TransactionData, TransactionDataView};
use vstd::arithmetic::power2::pow2;
use vstd::prelude::*;

verus! {

/// How final a transaction is.
#[derive(Clone, Copy, Debug, PartialEq, Eq)]
pub enum TransactionStatus {
    L1Accepted,
    L2Accepted,
}

/// A transaction with its receipt, its events and the number of its block.
pub type TransactionWithReceipt = (StarknetTransaction, Receipt, Vec<Event>, BlockNumber);

/// A transaction of a block with its receipt and its events.
pub type TransactionDataForBlock = (StarknetTransaction, Receipt, Vec<Event>);

/// The events of a transaction of a block.
pub type EventsForBlock = (TransactionHash, Vec<Event>);

/// Why a request cannot be answered.
#[derive(Clone, Copy, Debug, PartialEq, Eq)]
pub enum StorageError {
    /// The rows could not be compressed.
    Compression,
    /// The stored bytes could not be decompressed.
    Decompression,
    /// The decompressed bytes could not be loaded.
    Load(LoadError),
    /// There are no transactions for the block.
    NoTransactions(BlockNumber),
    /// There is no transaction at the index.
    NoTransaction { index: usize, block_number: BlockNumber },
    /// A transaction has no receipt.
    ReceiptMissing,
    /// A transaction has no events.
    EventsMissing,
    /// The transaction with this hash has no events.
    EventsMissingFor(TransactionHash),
    /// A stored hash is no field element.
    InvalidHash,
}

/// A row of the `transactions` table.
#[derive(Clone, Debug, PartialEq, Eq)]
pub struct BlockRow {
    pub block_number: BlockNumber,
    /// The compressed transactions of the block.
    pub transactions: Vec<u8>,
}

impl BlockRow {
    /// What the row says, where it can be decompressed.
    pub open spec fn data(self) -> Option<Result<Seq<TransactionDataView>, LoadError>> {
        match zstd_content(self.transactions@) {
            Some(bytes) => Some(rows_of(bytes)),
            None => None,
        }
    }

    /// Whether this is what is stored of the transactions of a block: their compressed encoding,
    /// which is loaded as these transactions again if their addresses fit 251 bits.
    pub open spec fn stores(self, block_number: BlockNumber, data: Seq<TransactionDataView>) -> bool {
        &&& self.block_number == block_number
        &&& self.transactions@ == zstd_frame(rows_encoding(data), COMPRESSION_LEVEL as int)
        &&& zstd_content(self.transactions@) == Some(rows_encoding(data))
        &&& self.data() == Some(reloaded(data))
    }
}

/// What to write for the transactions of a new block.
pub struct Insertion<'a> {
    /// The rows of the `transaction_hashes` table.
    pub hashes: Vec<TransactionHash>,
    /// The row of the `transactions` table.
    pub row: BlockRow,
    /// The events to enter in the block's Bloom filter.
    pub events: Vec<&'a Event>,
}

/// The hashes of transactions, in order.
pub open spec fn hashes_of(data: Seq<TransactionDataView>) -> Seq<nat> {
    Seq::new(data.len(), |i: int| data[i].transaction.hash)
}

/// The transactions, in order.
pub open spec fn transactions_of(data: Seq<TransactionDataView>) -> Seq<TransactionView> {
    Seq::new(data.len(), |i: int| data[i].transaction)
}

/// The events of all transactions that have some, one after the other.
pub open spec fn events_of(data: Seq<TransactionDataView>) -> Seq<EventView>
    decreases data.len(),
{
    if data.len() == 0 {
        Seq::empty()
    } else {
        match data.last().events {
            Some(events) => events_of(data.drop_last()) + events,
            None => events_of(data.drop_last()),
        }
    }
}

/// Whether the first transaction with a hash stands at a position.
pub open spec fn is_first(data: Seq<TransactionDataView>, hash: nat, i: int) -> bool {
    &&& 0 <= i < data.len()
    &&& data[i].transaction.hash == hash
    &&& forall|j: int| 0 <= j < i ==> (#[trigger] data[j]).transaction.hash != hash
}

/// Whether no transaction has a hash.
pub open spec fn is_absent(data: Seq<TransactionDataView>, hash: nat) -> bool {
    forall|j: int| 0 <= j < data.len() ==> (#[trigger] data[j]).transaction.hash != hash
}

/// Whether `tx` is the first transaction with a hash.
pub open spec fn is_found(data: Seq<TransactionDataView>, hash: nat, tx: TransactionView) -> bool {
    exists|i: int| #[trigger] is_first(data, hash, i) && tx == data[i].transaction
}

/// Whether `tx` is the first transaction with a hash, with its receipt and its events.
pub open spec fn is_found_complete(data: Seq<TransactionDataView>, hash: nat, tx: TransactionDataForBlock) -> bool {
    exists|i: int| #[trigger] is_first(data, hash, i) && is_complete(data[i], tx)
}

/// Whether `e` is what the first transaction with a hash lacks.
pub open spec fn is_found_gap(data: Seq<TransactionDataView>, hash: nat, e: StorageError) -> bool {
    exists|i: int| #[trigger] is_first(data, hash, i) && gap(data[i]) == Some(e)
}

/// What a transaction lacks, the receipt before the events.
pub open spec fn gap(data: TransactionDataView) -> Option<StorageError> {
    if data.receipt is None {
        Some(StorageError::ReceiptMissing)
    } else if data.events is None {
        Some(StorageError::EventsMissing)
    } else {
        None
    }
}

/// Whether `e` is what the first incomplete transaction lacks.
pub open spec fn is_first_gap(data: Seq<TransactionDataView>, e: StorageError) -> bool {
    exists|i: int|
        0 <= i < data.len() && #[trigger] gap(data[i]) == Some(e) && forall|j: int|
            0 <= j < i ==> #[trigger] gap(data[j]) is None
}

/// Whether `r` is a transaction with its receipt and its events.
pub open spec fn is_complete(data: TransactionDataView, r: TransactionDataForBlock) -> bool {
    &&& r.0@ == data.transaction
    &&& data.receipt == Some(r.1@)
    &&& data.events == Some(views(r.2@))
}

/// Whether `r` is the hash of a transaction with its events.
pub open spec fn has_events(data: TransactionDataView, r: EventsForBlock) -> bool {
    &&& r.0@ == data.transaction.hash
    &&& data.events == Some(views(r.1@))
}

/// Whether `e` names the first transaction without events.
pub open spec fn is_first_without_events(data: Seq<TransactionDataView>, e: StorageError) -> bool {
    e matches StorageError::EventsMissingFor(hash) && exists|i: int|
        {
            &&& 0 <= i < data.len()
            &&& (#[trigger] data[i]).events is None
            &&& hash@ == data[i].transaction.hash
            &&& forall|j: int| 0 <= j < i ==> (#[trigger] data[j]).events is Some
        }
}

/// Finds the first transaction with a hash.
fn find(data: &Vec<TransactionData>, hash: TransactionHash) -> (r: Option<usize>)
    ensures
        match r {
            Some(i) => is_first(views(data@), hash@, i as int),
            None => is_absent(views(data@), hash@),
        },
{
    let mut i: usize = 0;
    while i < data.len()
        invariant
            i <= data@.len(),
            forall|j: int| 0 <= j < i ==> (#[trigger] views(data@)[j]).transaction.hash != hash@,
        decreases data.len() - i,
    {
        if data[i].transaction.hash.0 == hash.0 {
            return Some(i);
        }
        i += 1;
    }
    None
}

/// The first transaction with a hash.
pub fn find_transaction(data: Vec<TransactionData>, hash: TransactionHash) -> (r: Option<StarknetTransaction>)
    ensures
        match r {
            Some(tx) => is_found(views(data@), hash@, tx@),
            None => is_absent(views(data@), hash@),
        },
{
    match find(&data, hash) {
        Some(i) => {
            let ghost all = data@;
            let mut data = data;
            let found = data.swap_remove(i);
            assert(is_first(views(all), hash@, i as int) && found@ == views(all)[i as int]);
            Some(found.transaction)
        },
        None => None,
    }
}

/// Takes a transaction together with its receipt and its events.
pub fn complete(data: TransactionData) -> (r: Result<TransactionDataForBlock, StorageError>)
    ensures
        match r {
            Ok(r) => gap(data@) is None && is_complete(data@, r),
            Err(e) => gap(data@) == Some(e),
        },
{
    let receipt = match data.receipt {
        Some(receipt) => receipt,
        None => return Err(StorageError::ReceiptMissing),
    };
    let events = match data.events {
        Some(events) => events,
        None => return Err(StorageError::EventsMissing),
    };
    Ok((data.transaction, receipt, events))
}

/// The first transaction with a hash, with its receipt and its events.
pub fn find_transaction_with_receipt(data: Vec<TransactionData>, hash: TransactionHash) -> (r: Result<
    Option<TransactionDataForBlock>,
    StorageError,
>)
    ensures
        match r {
            Ok(Some(tx)) => is_found_complete(views(data@), hash@, tx),
            Ok(None) => is_absent(views(data@), hash@),
            Err(e) => is_found_gap(views(data@), hash@, e),
        },
{
    match find(&data, hash) {
        Some(i) => {
            let ghost all = data@;
            let mut data = data;
            let found = data.swap_remove(i);
            assert(is_first(views(all), hash@, i as int) && found@ == views(all)[i as int]);
            match complete(found) {
                Ok(tx) => Ok(Some(tx)),
                Err(e) => Err(e),
            }
        },
        None => Ok(None),
    }
}

/// The transactions of a block with their receipts and their events.
pub fn complete_all(data: Vec<TransactionData>) -> (r: Result<Vec<TransactionDataForBlock>, StorageError>)
    ensures
        match r {
            Ok(all) => all@.len() == data@.len() && forall|i: int|
                0 <= i < data@.len() ==> is_complete(views(data@)[i], #[trigger] all@[i]),
            Err(e) => is_first_gap(views(data@), e),
        },
{
    let ghost all = data@;
    let mut r: Vec<TransactionDataForBlock> = Vec::new();
    for row in iter: data
        invariant
            iter.seq() == all,
            r@.len() == iter.index(),
            forall|j: int| 0 <= j < iter.index() ==> #[trigger] gap(views(all)[j]) is None,
            forall|j: int| 0 <= j < iter.index() ==> is_complete(views(all)[j], #[trigger] r@[j]),
    {
        assert(views(all)[iter.index()] == row@);
        match complete(row) {
            Ok(tx) => r.push(tx),
            Err(e) => {
                assert(gap(views(all)[iter.index()]) == Some(e));
                return Err(e);
            },
        }
    }
    Ok(r)
}

/// The events of each transaction of a block.
pub fn all_events(data: Vec<TransactionData>) -> (r: Result<Vec<EventsForBlock>, StorageError>)
    ensures
        match r {
            Ok(all) => all@.len() == data@.len() && forall|i: int|
                0 <= i < data@.len() ==> has_events(views(data@)[i], #[trigger] all@[i]),
            Err(e) => is_first_without_events(views(data@), e),
        },
{
    let ghost all = data@;
    let mut r: Vec<EventsForBlock> = Vec::new();
    for row in iter: data
        invariant
            iter.seq() == all,
            r@.len() == iter.index(),
            forall|j: int| 0 <= j < iter.index() ==> (#[trigger] views(all)[j]).events is Some,
            forall|j: int| 0 <= j < iter.index() ==> has_events(views(all)[j], #[trigger] r@[j]),
    {
        assert(views(all)[iter.index()] == row@);
        match row.events {
            Some(events) => r.push((row.transaction.hash, events)),
            None => return Err(StorageError::EventsMissingFor(row.transaction.hash)),
        }
    }
    Ok(r)
}

/// The transactions of a block.
pub fn all_transactions(data: Vec<TransactionData>) -> (r: Vec<StarknetTransaction>)
    ensures
        views(r@) == transactions_of(views(data@)),
{
    let ghost all = data@;
    let mut r: Vec<StarknetTransaction> = Vec::new();
    for row in iter: data
        invariant
            iter.seq() == all,
            r@.len() == iter.index(),
            forall|j: int| 0 <= j < iter.index() ==> (#[trigger] r@[j])@ == all[j]@.transaction,
    {
        r.push(row.transaction);
    }
    assert(views(r@) =~= transactions_of(views(all)));
    r
}

/// The transaction at a position of a block, where there is one.
pub fn transaction_at(data: Vec<TransactionData>, index: usize) -> (r: Option<StarknetTransaction>)
    ensures
        match r {
            Some(tx) => index < data@.len() && tx@ == views(data@)[index as int].transaction,
            None => index >= data@.len(),
        },
{
    if index >= data.len() {
        return None;
    }
    let mut data = data;
    let found = data.swap_remove(index);
    Some(found.transaction)
}

/// The number of transactions of a block.
pub fn count(data: &[TransactionData]) -> (r: usize)
    ensures
        r == data@.len(),
{
    data.len()
}

/// The hashes of the transactions of a block.
pub fn all_hashes(data: &[TransactionData]) -> (r: Vec<TransactionHash>)
    ensures
        views(r@) == hashes_of(views(data@)),
{
    let mut r: Vec<TransactionHash> = Vec::new();
    let mut i: usize = 0;
    while i < data.len()
        invariant
            i <= data@.len(),
            r@.len() == i,
            forall|j: int| 0 <= j < i ==> (#[trigger] r@[j])@ == data@[j]@.transaction.hash,
        decreases data.len() - i,
    {
        r.push(data[i].transaction.hash);
        i += 1;
    }
    assert(views(r@) =~= hashes_of(views(data@)));
    r
}

/// The views of borrowed events, in order.
pub open spec fn borrowed_views(events: Seq<&Event>) -> Seq<EventView> {
    Seq::new(events.len(), |i: int| events[i]@)
}

/// The events of all transactions that have some, one after the other.
pub fn known_events(data: &[TransactionData]) -> (r: Vec<&Event>)
    ensures
        borrowed_views(r@) == events_of(views(data@)),
{
    let mut r: Vec<&Event> = Vec::new();
    let mut i: usize = 0;
    assert(borrowed_views(r@) =~= events_of(views(data@).take(0)));
    while i < data.len()
        invariant
            i <= data@.len(),
            borrowed_views(r@) == events_of(views(data@).take(i as int)),
        decreases data.len() - i,
    {
        let ghost before = r@;
        proof {
            let next = views(data@).take(i + 1);
            assert(next.drop_last() =~= views(data@).take(i as int));
            assert(next.last() == data@[i as int]@);
        }
        if let Some(events) = &data[i].events {
            let mut k: usize = 0;
            assert(borrowed_views(before) + views(events@).take(0) =~= borrowed_views(before));
            while k < events.len()
                invariant
                    k <= events@.len(),
                    borrowed_views(r@) == borrowed_views(before) + views(events@).take(k as int),
                decreases events.len() - k,
            {
                let ghost so_far = r@;
                r.push(&events[k]);
                proof {
                    assert(borrowed_views(r@) =~= borrowed_views(so_far).push(events@[k as int]@));
                    assert(views(events@).take(k + 1) =~= views(events@).take(k as int).push(events@[k as int]@));
                }
                k += 1;
            }
            assert(views(events@).take(events@.len() as int) =~= views(events@));
        }
        i += 1;
    }
    assert(views(data@).take(data@.len() as int) =~= views(data@));
    r
}

/// Whether `e` is an error that reading a selected row may end in. `Load` comes exactly from a
/// content that cannot be loaded. `Decompression` comes exactly from a call of the decompressor
/// that failed. That may happen on every row, also on one that can be decompressed, because memory
/// may run out.
pub open spec fn load_failed(row: Option<BlockRow>, e: StorageError) -> bool {
    row matches Some(row) && match e {
        StorageError::Decompression => decompression_fails(row.transactions@),
        StorageError::Load(e) => row.data() == Some(Err::<Seq<TransactionDataView>, _>(e)),
        _ => false,
    }
}

/// Whether `r` is what comes of reading a selected row.
pub open spec fn is_read(row: Option<BlockRow>, r: Result<Option<Vec<TransactionData>>, StorageError>) -> bool {
    match r {
        Ok(Some(data)) => selected(row) == Some(views(data@)),
        Ok(None) => row is None,
        Err(e) => load_failed(row, e),
    }
}

/// Whether `r` is what comes of reading a selected row together with the number of its block.
pub open spec fn is_read_with_number(
    row: Option<BlockRow>,
    r: Result<Option<(BlockNumber, Vec<TransactionData>)>, StorageError>,
) -> bool {
    match r {
        Ok(Some((block_number, data))) => {
            &&& selected(row) == Some(views(data@))
            &&& row matches Some(row) && block_number == row.block_number
        },
        Ok(None) => row is None,
        Err(e) => load_failed(row, e),
    }
}

/// What a selected row says, where there is one and it can be read.
pub open spec fn selected(row: Option<BlockRow>) -> Option<Seq<TransactionDataView>> {
    match row {
        Some(row) => match row.data() {
            Some(Ok(data)) => Some(data),
            _ => None,
        },
        None => None,
    }
}

/// The transactions of a block after one of them got its receipt.
pub open spec fn with_receipt(data: Seq<TransactionDataView>, i: int, receipt: ReceiptView) -> Seq<
    TransactionDataView,
> {
    data.update(i, TransactionDataView { receipt: Some(receipt), ..data[i] })
}

/// The transactions of a block after one of them got its events.
pub open spec fn with_events(data: Seq<TransactionDataView>, i: int, events: Seq<EventView>) -> Seq<
    TransactionDataView,
> {
    data.update(i, TransactionDataView { events: Some(events), ..data[i] })
}

/// Enters the receipt of a transaction of a block.
pub fn set_receipt(
    data: Vec<TransactionData>,
    block_number: BlockNumber,
    transaction_idx: usize,
    receipt: Receipt,
) -> (r: Result<Vec<TransactionData>, StorageError>)
    ensures
        match r {
            Ok(updated) => transaction_idx < data@.len() && views(updated@) == with_receipt(
                views(data@),
                transaction_idx as int,
                receipt@,
            ),
            Err(e) => transaction_idx >= data@.len() && e == (StorageError::NoTransaction {
                index: transaction_idx,
                block_number,
            }),
        },
{
    if transaction_idx >= data.len() {
        return Err(StorageError::NoTransaction { index: transaction_idx, block_number });
    }
    let ghost before = data@;
    let mut data = data;
    data[transaction_idx].receipt = Some(receipt);
    assert(views(data@) =~= with_receipt(views(before), transaction_idx as int, receipt@));
    Ok(data)
}

/// Enters the events of a transaction of a block.
pub fn set_events(
    data: Vec<TransactionData>,
    block_number: BlockNumber,
    transaction_idx: usize,
    events: Vec<Event>,
) -> (r: Result<Vec<TransactionData>, StorageError>)
    ensures
        match r {
            Ok(updated) => transaction_idx < data@.len() && views(updated@) == with_events(
                views(data@),
                transaction_idx as int,
                views(events@),
            ),
            Err(e) => transaction_idx >= data@.len() && e == (StorageError::NoTransaction {
                index: transaction_idx,
                block_number,
            }),
        },
{
    if transaction_idx >= data.len() {
        return Err(StorageError::NoTransaction { index: transaction_idx, block_number });
    }
    let ghost before = data@;
    let mut data = data;
    data[transaction_idx].events = Some(events);
    assert(views(data@) =~= with_events(views(before), transaction_idx as int, views(events@)));
    Ok(data)
}

/// Stores the transactions of a block.
pub fn store(block_number: BlockNumber, data: &[TransactionData]) -> (r: Result<BlockRow, StorageError>)
    ensures
        match r {
            Ok(row) => row.stores(block_number, views(data@)),
            Err(e) => e == StorageError::Compression && compression_fails(
                rows_encoding(views(data@)),
                COMPRESSION_LEVEL,
            ),
        },
{
    let bytes = encode_rows(data);
    row_of(block_number, compressed(bytes.as_slice(), COMPRESSION_LEVEL))
}

/// The row that holds compressed transactions, where they could be compressed.
pub fn row_of(block_number: BlockNumber, compressed: Result<Vec<u8>, std::io::Error>) -> (r: Result<
    BlockRow,
    StorageError,
>)
    ensures
        r == match compressed {
            Ok(transactions) => Ok(BlockRow { block_number, transactions }),
            Err(_) => Err(StorageError::Compression),
        },
{
    match compressed {
        Ok(transactions) => Ok(BlockRow { block_number, transactions }),
        Err(_) => Err(StorageError::Compression),
    }
}

/// The transactions that decompressed bytes hold, where they could be decompressed.
pub fn data_of(decompressed: Result<Vec<u8>, std::io::Error>) -> (r: Result<Vec<TransactionData>, StorageError>)
    ensures
        match decompressed {
            Ok(bytes) => match rows_of(bytes@) {
                Ok(data) => r matches Ok(loaded) && views(loaded@) == data,
                Err(e) => r == Err::<Vec<TransactionData>, _>(StorageError::Load(e)),
            },
            Err(_) => r == Err::<Vec<TransactionData>, _>(StorageError::Decompression),
        },
{
    match decompressed {
        Ok(bytes) => match decode_rows(bytes.as_slice()) {
            Ok(data) => Ok(data),
            Err(e) => Err(StorageError::Load(e)),
        },
        Err(_) => Err(StorageError::Decompression),
    }
}

/// A request to the database, with the row of the `transactions` table that its query selected,
/// where there is one.
pub struct Transaction {
    pub row: Option<BlockRow>,
}

impl Transaction {
    /// What to write for the transactions, receipts and events of a new block. There is nothing
    /// to write for a block without transactions.
    pub fn insert_transaction_data(block_number: BlockNumber, transaction_data: &[TransactionData]) -> (r: Result<
        Option<Insertion>,
        StorageError,
    >)
        ensures
            match r {
                Ok(None) => transaction_data@.len() == 0,
                Ok(Some(insertion)) => {
                    &&& transaction_data@.len() > 0
                    &&& views(insertion.hashes@) == hashes_of(views(transaction_data@))
                    &&& insertion.row.stores(block_number, views(transaction_data@))
                    &&& borrowed_views(insertion.events@) == events_of(views(transaction_data@))
                },
                Err(e) => transaction_data@.len() > 0 && e == StorageError::Compression && compression_fails(
                    rows_encoding(views(transaction_data@)),
                    COMPRESSION_LEVEL,
                ),
            },
    {
        if transaction_data.len() == 0 {
            return Ok(None);
        }
        let hashes = all_hashes(transaction_data);
        let row = match store(block_number, transaction_data) {
            Ok(row) => row,
            Err(e) => return Err(e),
        };
        let events = known_events(transaction_data);
        Ok(Some(Insertion { hashes, row, events }))
    }

    /// Reads the row that was selected by the number of its block.
    pub fn query_transactions_by_block_number(&self) -> (r: Result<Option<Vec<TransactionData>>, StorageError>)
        ensures
            is_read(self.row, r),
    {
        let row = match &self.row {
            Some(row) => row,
            None => return Ok(None),
        };
        match data_of(decompressed(row.transactions.as_slice())) {
            Ok(data) => Ok(Some(data)),
            Err(e) => Err(e),
        }
    }

    /// Reads the row that was selected by the hash of one of its transactions.
    pub fn query_transactions_by_tx_hash(&self) -> (r: Result<
        Option<(BlockNumber, Vec<TransactionData>)>,
        StorageError,
    >)
        ensures
            is_read_with_number(self.row, r),
    {
        let block_number = match &self.row {
            Some(row) => row.block_number,
            None => return Ok(None),
        };
        match self.query_transactions_by_block_number() {
            Ok(Some(data)) => Ok(Some((block_number, data))),
            Ok(None) => Ok(None),
            Err(e) => Err(e),
        }
    }

    /// The row that replaces the selected one when a transaction gets its receipt.
    pub fn update_receipt(&self, block_number: BlockNumber, transaction_idx: usize, receipt: Receipt) -> (r: Result<
        BlockRow,
        StorageError,
    >)
        ensures
            match r {
                Ok(row) => {
                    &&& selected(self.row) matches Some(data)
                    &&& transaction_idx < data.len()
                    &&& row.stores(block_number, with_receipt(data, transaction_idx as int, receipt@))
                },
                Err(e) => {
                    &&& update_failed(self.row, block_number, transaction_idx, e)
                    &&& e is Compression ==> compression_fails(
                        rows_encoding(with_receipt(selected(self.row)->Some_0, transaction_idx as int, receipt@)),
                        COMPRESSION_LEVEL,
                    )
                },
            },
    {
        let data = match self.query_transactions_by_block_number() {
            Ok(Some(data)) => data,
            Ok(None) => return Err(StorageError::NoTransactions(block_number)),
            Err(e) => return Err(e),
        };
        match set_receipt(data, block_number, transaction_idx, receipt) {
            Ok(updated) => store(block_number, updated.as_slice()),
            Err(e) => Err(e),
        }
    }

    /// The row that replaces the selected one when a transaction gets its events.
    pub fn update_events(&self, block_number: BlockNumber, transaction_idx: usize, events: Vec<Event>) -> (r: Result<
        BlockRow,
        StorageError,
    >)
        ensures
            match r {
                Ok(row) => {
                    &&& selected(self.row) matches Some(data)
                    &&& transaction_idx < data.len()
                    &&& row.stores(block_number, with_events(data, transaction_idx as int, views(events@)))
                },
                Err(e) => {
                    &&& update_failed(self.row, block_number, transaction_idx, e)
                    &&& e is Compression ==> compression_fails(
                        rows_encoding(with_events(selected(self.row)->Some_0, transaction_idx as int, views(events@))),
                        COMPRESSION_LEVEL,
                    )
                },
            },
    {
        let data = match self.query_transactions_by_block_number() {
            Ok(Some(data)) => data,
            Ok(None) => return Err(StorageError::NoTransactions(block_number)),
            Err(e) => return Err(e),
        };
        match set_events(data, block_number, transaction_idx, events) {
            Ok(updated) => store(block_number, updated.as_slice()),
            Err(e) => Err(e),
        }
    }

    /// The transaction with a hash. The selected row is the one whose block has this hash.
    pub fn transaction(&self, transaction: TransactionHash) -> (r: Result<Option<StarknetTransaction>, StorageError>)
        ensures
            match r {
                Ok(Some(tx)) => selected(self.row) matches Some(data) && is_found(data, transaction@, tx@),
                Ok(None) => self.row is None || (selected(self.row) matches Some(data) && is_absent(
                    data,
                    transaction@,
                )),
                Err(e) => load_failed(self.row, e),
            },
    {
        match self.query_transactions_by_tx_hash() {
            Ok(Some((_, data))) => Ok(find_transaction(data, transaction)),
            Ok(None) => Ok(None),
            Err(e) => Err(e),
        }
    }

    /// The transaction with a hash, with its receipt, its events and the number of its block.
    pub fn transaction_with_receipt(&self, txn_hash: TransactionHash) -> (r: Result<
        Option<TransactionWithReceipt>,
        StorageError,
    >)
        ensures
            match r {
                Ok(Some(tx)) => {
                    &&& selected(self.row) matches Some(data) && is_found_complete(
                        data,
                        txn_hash@,
                        (tx.0, tx.1, tx.2),
                    )
                    &&& self.row matches Some(row) && tx.3 == row.block_number
                },
                Ok(None) => self.row is None || (selected(self.row) matches Some(data) && is_absent(data, txn_hash@)),
                Err(e) => load_failed(self.row, e) || (selected(self.row) matches Some(data) && is_found_gap(
                    data,
                    txn_hash@,
                    e,
                )),
            },
    {
        match self.query_transactions_by_tx_hash() {
            Ok(Some((block_number, data))) => match find_transaction_with_receipt(data, txn_hash) {
                Ok(Some((transaction, receipt, events))) => Ok(Some((transaction, receipt, events, block_number))),
                Ok(None) => Ok(None),
                Err(e) => Err(e),
            },
            Ok(None) => Ok(None),
            Err(e) => Err(e),
        }
    }

    /// The transaction at a position of the selected block.
    pub fn transaction_at_block(&self, index: usize) -> (r: Result<Option<StarknetTransaction>, StorageError>)
        ensures
            match r {
                Ok(Some(tx)) => selected(self.row) matches Some(data) && index < data.len() && tx@
                    == data[index as int].transaction,
                Ok(None) => self.row is None || (selected(self.row) matches Some(data) && index >= data.len()),
                Err(e) => load_failed(self.row, e),
            },
    {
        match self.query_transactions_by_block_number() {
            Ok(Some(data)) => Ok(transaction_at(data, index)),
            Ok(None) => Ok(None),
            Err(e) => Err(e),
        }
    }

    /// The number of transactions of the selected block.
    pub fn transaction_count(&self) -> (r: Result<usize, StorageError>)
        ensures
            match r {
                Ok(count) => if self.row is None {
                    count == 0
                } else {
                    selected(self.row) matches Some(data) && count == data.len()
                },
                Err(e) => load_failed(self.row, e),
            },
    {
        match self.query_transactions_by_block_number() {
            Ok(Some(data)) => Ok(count(data.as_slice())),
            Ok(None) => Ok(0),
            Err(e) => Err(e),
        }
    }

    /// The transactions of the selected block with their receipts and their events.
    pub fn transaction_data_for_block(&self) -> (r: Result<Option<Vec<TransactionDataForBlock>>, StorageError>)
        ensures
            match r {
                Ok(Some(all)) => selected(self.row) matches Some(data) && all@.len() == data.len() && forall|i: int|
                    0 <= i < data.len() ==> is_complete(data[i], #[trigger] all@[i]),
                Ok(None) => self.row is None,
                Err(e) => load_failed(self.row, e) || (selected(self.row) matches Some(data) && is_first_gap(
                    data,
                    e,
                )),
            },
    {
        match self.query_transactions_by_block_number() {
            Ok(Some(data)) => match complete_all(data) {
                Ok(all) => Ok(Some(all)),
                Err(e) => Err(e),
            },
            Ok(None) => Ok(None),
            Err(e) => Err(e),
        }
    }

    /// The transactions of the selected block.
    pub fn transactions_for_block(&self) -> (r: Result<Option<Vec<StarknetTransaction>>, StorageError>)
        ensures
            match r {
                Ok(Some(all)) => selected(self.row) matches Some(data) && views(all@) == transactions_of(data),
                Ok(None) => self.row is None,
                Err(e) => load_failed(self.row, e),
            },
    {
        match self.query_transactions_by_block_number() {
            Ok(Some(data)) => Ok(Some(all_transactions(data))),
            Ok(None) => Ok(None),
            Err(e) => Err(e),
        }
    }

    /// The events of each transaction of the selected block.
    pub fn events_for_block(&self) -> (r: Result<Option<Vec<EventsForBlock>>, StorageError>)
        ensures
            match r {
                Ok(Some(all)) => selected(self.row) matches Some(data) && all@.len() == data.len() && forall|i: int|
                    0 <= i < data.len() ==> has_events(data[i], #[trigger] all@[i]),
                Ok(None) => self.row is None,
                Err(e) => load_failed(self.row, e) || (selected(self.row) matches Some(data)
                    && is_first_without_events(data, e)),
            },
    {
        match self.query_transactions_by_block_number() {
            Ok(Some(data)) => match all_events(data) {
                Ok(all) => Ok(Some(all)),
                Err(e) => Err(e),
            },
            Ok(None) => Ok(None),
            Err(e) => Err(e),
        }
    }

    /// The hashes of the transactions of the selected block.
    pub fn transaction_hashes_for_block(&self) -> (r: Result<Option<Vec<TransactionHash>>, StorageError>)
        ensures
            match r {
                Ok(Some(all)) => selected(self.row) matches Some(data) && views(all@) == hashes_of(data),
                Ok(None) => self.row is None,
                Err(e) => load_failed(self.row, e),
            },
    {
        match self.query_transactions_by_block_number() {
            Ok(Some(data)) => Ok(Some(all_hashes(data.as_slice()))),
            Ok(None) => Ok(None),
            Err(e) => Err(e),
        }
    }

    /// The hash of the block of a transaction, from the column that the query selected.
    pub fn transaction_block_hash(column: Option<&[u8]>) -> (r: Result<Option<BlockHash>, StorageError>)
        ensures
            match r {
                Ok(Some(hash)) => column matches Some(bytes) && bytes@.len() <= 32 && hash@ == be_value(bytes@),
                Ok(None) => column is None,
                Err(e) => e == StorageError::InvalidHash && (column matches Some(bytes) && (bytes@.len() > 32
                    || be_value(bytes@) >= modulus())),
            },
    {
        match column {
            Some(bytes) => match Felt::from_be_slice(bytes) {
                Ok(felt) => Ok(Some(BlockHash(felt))),
                Err(_) => Err(StorageError::InvalidHash),
            },
            None => Ok(None),
        }
    }
}

/// Whether `e` is why a transaction of a block cannot be updated.
pub open spec fn update_failed(
    row: Option<BlockRow>,
    block_number: BlockNumber,
    index: usize,
    e: StorageError,
) -> bool {
    match e {
        StorageError::NoTransactions(number) => row is None && number == block_number,
        StorageError::NoTransaction { index: i, block_number: number } => {
            &&& selected(row) matches Some(data)
            &&& index >= data.len()
            &&& i == index
            &&& number == block_number
        },
        StorageError::Compression => selected(row) matches Some(data) && index < data.len(),
        _ => load_failed(row, e),
    }
}

/// What was stored of a block is what reading its row gives, as long as the addresses fit 251
/// bits.
pub proof fn lemma_stored_is_selected(row: BlockRow, block_number: BlockNumber, data: Seq<TransactionDataView>)
    requires
        row.stores(block_number, data),
        loadable_rows(stored_rows(data)),
    ensures
        selected(Some(row)) == Some(data),
{
}

/// Whether the query for a block number selects `row`. The rows of the `transactions` table are
/// given by their block numbers.
pub open spec fn selects_by_number(rows: Map<u64, BlockRow>, block_number: u64, row: Option<BlockRow>) -> bool {
    row == if rows.contains_key(block_number) {
        Some(rows[block_number])
    } else {
        None
    }
}

/// Whether the query for a transaction hash may select `row`: the row of a block that the
/// `transaction_hashes` table gives for the hash, or none where there is no such row. The table is
/// given as pairs of a hash and a block number.
pub open spec fn selects_by_hash(
    hashes: Set<(nat, u64)>,
    rows: Map<u64, BlockRow>,
    hash: nat,
    row: Option<BlockRow>,
) -> bool {
    match row {
        Some(row) => exists|n: u64| #[trigger] hashes.contains((hash, n)) && rows.contains_key(n) && rows[n] == row,
        None => forall|n: u64| #[trigger] hashes.contains((hash, n)) ==> !rows.contains_key(n),
    }
}

/// Reading a block by the hash of one of its transactions gives its number and what reading it by
/// its number gives, where no other block has the hash. Only decompression may fail where it did
/// not before. A hash without a block gives nothing.
pub proof fn lemma_reading_by_hash_is_reading_by_number(
    hashes: Set<(nat, u64)>,
    rows: Map<u64, BlockRow>,
    hash: nat,
    block_number: BlockNumber,
    by_number: Transaction,
    by_hash: Transaction,
    data: Vec<TransactionData>,
    r: Result<Option<(BlockNumber, Vec<TransactionData>)>, StorageError>,
)
    requires
        forall|n: u64| #[trigger] rows.contains_key(n) ==> rows[n].block_number@ == n,
        forall|n: u64| #[trigger] hashes.contains((hash, n)) ==> n == block_number@,
        selects_by_number(rows, block_number@, by_number.row),
        selects_by_hash(hashes, rows, hash, by_hash.row),
        is_read(by_number.row, Ok(Some(data))),
        is_read_with_number(by_hash.row, r),
    ensures
        hashes.contains((hash, block_number@)) ==> by_hash.row == by_number.row && match r {
            Ok(Some((number, list))) => number@ == block_number@ && views(list@) == views(data@),
            Ok(None) => false,
            Err(e) => e == StorageError::Decompression && decompression_fails(by_number.row->Some_0.transactions@),
        },
        !hashes.contains((hash, block_number@)) ==> r matches Ok(None),
{
    if by_hash.row is Some {
        let n = choose|n: u64| #[trigger]
            hashes.contains((hash, n)) && rows.contains_key(n) && rows[n] == by_hash.row->Some_0;
        assert(n == block_number@);
    }
}

/// The `transaction_hashes` table after the hashes of a block were entered.
pub open spec fn with_hashes(hashes: Set<(nat, u64)>, block_number: u64, new: Seq<nat>) -> Set<(nat, u64)> {
    hashes.union(new.map(|_i: int, hash: nat| (hash, block_number)).to_set())
}

/// After a block was entered, each of its transactions leads to the block's row, which reads as
/// what was entered, where no other block has its hash and the addresses fit 251 bits.
pub proof fn lemma_inserted_is_selected(
    hashes: Set<(nat, u64)>,
    rows: Map<u64, BlockRow>,
    insertion: Insertion,
    block_number: BlockNumber,
    data: Seq<TransactionDataView>,
    i: int,
    row: Option<BlockRow>,
)
    requires
        0 <= i < data.len(),
        views(insertion.hashes@) == hashes_of(data),
        insertion.row.stores(block_number, data),
        loadable_rows(stored_rows(data)),
        forall|n: u64| !#[trigger] hashes.contains((data[i].transaction.hash, n)),
        selects_by_hash(
            with_hashes(hashes, block_number@, views(insertion.hashes@)),
            rows.insert(block_number@, insertion.row),
            data[i].transaction.hash,
            row,
        ),
    ensures
        row == Some(insertion.row),
        selected(row) == Some(data),
        !is_absent(data, data[i].transaction.hash),
{
    let hash = data[i].transaction.hash;
    let new = hashes_of(data).map(|_i: int, hash: nat| (hash, block_number@));
    let all = with_hashes(hashes, block_number@, hashes_of(data));
    assert(new[i] == (hash, block_number@));
    assert(all.contains((hash, block_number@)));
    assert forall|n: u64| #[trigger] all.contains((hash, n)) implies n == block_number@ by {
        assert(new.contains((hash, n)));
    }
    lemma_stored_is_selected(insertion.row, block_number, data);
}

/// Every transaction that was stored is found by its hash. Where no hash occurs twice, it is the
/// very one that is found.
pub proof fn lemma_stored_is_found(data: Seq<TransactionDataView>, i: int)
    requires
        0 <= i < data.len(),
    ensures
        !is_absent(data, data[i].transaction.hash),
        exists|k: int| #[trigger] is_first(data, data[i].transaction.hash, k) && k <= i,
        hashes_of(data).no_duplicates() ==> is_first(data, data[i].transaction.hash, i),
{
    let hash = data[i].transaction.hash;
    lemma_first_exists(data, hash, i);
    if hashes_of(data).no_duplicates() {
        assert forall|j: int| 0 <= j < i implies (#[trigger] data[j]).transaction.hash != hash by {
            assert(hashes_of(data)[j] != hashes_of(data)[i]);
        }
    }
}

proof fn lemma_first_exists(data: Seq<TransactionDataView>, hash: nat, i: int)
    requires
        0 <= i < data.len(),
        data[i].transaction.hash == hash,
    ensures
        exists|k: int| #[trigger] is_first(data, hash, k) && k <= i,
    decreases i,
{
    if exists|j: int| 0 <= j < i && (#[trigger] data[j]).transaction.hash == hash {
        let j = choose|j: int| 0 <= j < i && (#[trigger] data[j]).transaction.hash == hash;
        lemma_first_exists(data, hash, j);
        let k = choose|k: int| #[trigger] is_first(data, hash, k) && k <= j;
        assert(is_first(data, hash, k) && k <= i);
    } else {
        assert(is_first(data, hash, i));
    }
}

/// What could be read can be stored and read again.
pub proof fn lemma_selected_is_loadable(row: Option<BlockRow>)
    requires
        selected(row) is Some,
    ensures
        loadable_rows(stored_rows(selected(row)->Some_0)),
{
    let bytes = zstd_content(row->Some_0.transactions@)->Some_0;
    let rows = Rows::parse(bytes)->Some_0.0;
    let data = selected(row)->Some_0;
    assert(data == loaded_rows(rows));
    assert forall|i: int| 0 <= i < data.len() implies loadable_row(#[trigger] stored_rows(data)[i]) by {
        assert(loadable_row(rows[i]));
    }
}

/// After a receipt was entered, reading the block gives the receipt and everything else as it
/// was.
pub proof fn lemma_update_receipt_is_selected(
    before: Option<BlockRow>,
    after: BlockRow,
    block_number: BlockNumber,
    i: int,
    receipt: ReceiptView,
)
    requires
        selected(before) is Some,
        0 <= i < selected(before)->Some_0.len(),
        after.stores(block_number, with_receipt(selected(before)->Some_0, i, receipt)),
        loadable_messages(receipt.l2_to_l1_messages),
    ensures
        selected(Some(after)) == Some(with_receipt(selected(before)->Some_0, i, receipt)),
        transactions_of(selected(Some(after))->Some_0) == transactions_of(selected(before)->Some_0),
{
    let data = selected(before)->Some_0;
    let updated = with_receipt(data, i, receipt);
    lemma_selected_is_loadable(before);
    assert forall|j: int| 0 <= j < updated.len() implies loadable_row(#[trigger] stored_rows(updated)[j]) by {
        assert(loadable_row(stored_rows(data)[j]));
    }
    assert(transactions_of(updated) =~= transactions_of(data));
}

/// After events were entered, reading the block gives the events and everything else as it was.
pub proof fn lemma_update_events_is_selected(
    before: Option<BlockRow>,
    after: BlockRow,
    block_number: BlockNumber,
    i: int,
    events: Seq<EventView>,
)
    requires
        selected(before) is Some,
        0 <= i < selected(before)->Some_0.len(),
        after.stores(block_number, with_events(selected(before)->Some_0, i, events)),
        loadable_events(events),
    ensures
        selected(Some(after)) == Some(with_events(selected(before)->Some_0, i, events)),
        transactions_of(selected(Some(after))->Some_0) == transactions_of(selected(before)->Some_0),
{
    let data = selected(before)->Some_0;
    let updated = with_events(data, i, events);
    lemma_selected_is_loadable(before);
    assert forall|j: int| 0 <= j < updated.len() implies loadable_row(#[trigger] stored_rows(updated)[j]) by {
        assert(loadable_row(stored_rows(data)[j]));
    }
    assert(transactions_of(updated) =~= transactions_of(data));
}

/// What is returned of a transaction with its receipt and its events is the whole stored entry.
pub proof fn lemma_complete_is_the_entry(data: TransactionDataView, r: TransactionDataForBlock)
    ensures
        is_complete(data, r) <==> data == (TransactionDataView {
            transaction: r.0@,
            receipt: Some(r.1@),
            events: Some(views(r.2@)),
        }),
{
}

/// A transaction lacks its receipt, or else its events, exactly where the entry has none.
pub proof fn lemma_gap_is_what_is_missing(data: TransactionDataView)
    ensures
        gap(data) is None <==> data.receipt is Some && data.events is Some,
        gap(data) == Some(StorageError::ReceiptMissing) <==> data.receipt is None,
        gap(data) == Some(StorageError::EventsMissing) <==> data.receipt is Some && data.events is None,
{
}

/// A transaction that is found by a hash has this hash, is one of the block and has no earlier one
/// with the hash before it. The same holds of the entry whose receipt and events are found, and of
/// the one that lacks some.
pub proof fn lemma_found_has_the_hash(
    data: Seq<TransactionDataView>,
    hash: nat,
    tx: TransactionView,
    r: TransactionDataForBlock,
    e: StorageError,
)
    ensures
        is_found(data, hash, tx) ==> tx.hash == hash && exists|i: int|
            0 <= i < data.len() && (#[trigger] data[i]).transaction == tx && !hashes_of(data).take(i).contains(hash),
        is_found_complete(data, hash, r) ==> r.0@.hash == hash && exists|i: int|
            0 <= i < data.len() && #[trigger] data[i] == (TransactionDataView {
                transaction: r.0@,
                receipt: Some(r.1@),
                events: Some(views(r.2@)),
            }) && !hashes_of(data).take(i).contains(hash),
        is_found_gap(data, hash, e) ==> exists|i: int|
            0 <= i < data.len() && (#[trigger] data[i]).transaction.hash == hash && !hashes_of(data).take(i).contains(
                hash,
            ) && (data[i].receipt is None && e == StorageError::ReceiptMissing || data[i].receipt is Some
                && data[i].events is None && e == StorageError::EventsMissing),
        is_absent(data, hash) <==> !hashes_of(data).contains(hash),
{
    if is_found(data, hash, tx) {
        let i = choose|i: int| #[trigger] is_first(data, hash, i) && tx == data[i].transaction;
        lemma_first_is_first(data, hash, i);
        assert(data[i].transaction == tx);
    }
    if is_found_complete(data, hash, r) {
        let i = choose|i: int| #[trigger] is_first(data, hash, i) && is_complete(data[i], r);
        lemma_first_is_first(data, hash, i);
        lemma_complete_is_the_entry(data[i], r);
        assert(data[i].transaction.hash == hash);
    }
    if is_found_gap(data, hash, e) {
        let i = choose|i: int| #[trigger] is_first(data, hash, i) && gap(data[i]) == Some(e);
        lemma_first_is_first(data, hash, i);
        lemma_gap_is_what_is_missing(data[i]);
        assert(data[i].transaction.hash == hash);
    }
    if is_absent(data, hash) && hashes_of(data).contains(hash) {
        let i = hashes_of(data).index_of(hash);
        assert(data[i].transaction.hash == hash);
    }
    if !hashes_of(data).contains(hash) {
        assert forall|j: int| 0 <= j < data.len() implies (#[trigger] data[j]).transaction.hash != hash by {
            assert(hashes_of(data)[j] == data[j].transaction.hash);
        }
    }
}

proof fn lemma_first_is_first(data: Seq<TransactionDataView>, hash: nat, i: int)
    requires
        is_first(data, hash, i),
    ensures
        !hashes_of(data).take(i).contains(hash),
{
    let before = hashes_of(data).take(i);
    if before.contains(hash) {
        let j = before.index_of(hash);
        assert(data[j].transaction.hash == hash);
    }
}

/// Reading a whole block fails exactly at its first incomplete transaction, with what this one
/// lacks: everything before it has a receipt and events.
pub proof fn lemma_first_gap(data: Seq<TransactionDataView>, e: StorageError)
    ensures
        is_first_gap(data, e) <==> exists|i: int|
            0 <= i < data.len() && (if (#[trigger] data[i]).receipt is None {
                e == StorageError::ReceiptMissing
            } else {
                data[i].events is None && e == StorageError::EventsMissing
            }) && forall|j: int| 0 <= j < i ==> (#[trigger] data[j]).receipt is Some && data[j].events is Some,
{
    if is_first_gap(data, e) {
        let i = choose|i: int|
            0 <= i < data.len() && #[trigger] gap(data[i]) == Some(e) && forall|j: int|
                0 <= j < i ==> #[trigger] gap(data[j]) is None;
        assert forall|j: int| 0 <= j < i implies (#[trigger] data[j]).receipt is Some && data[j].events is Some by {
            assert(gap(data[j]) is None);
        }
        assert(data[i].receipt is None || data[i].events is None);
    }
    if exists|i: int|
        0 <= i < data.len() && (if (#[trigger] data[i]).receipt is None {
            e == StorageError::ReceiptMissing
        } else {
            data[i].events is None && e == StorageError::EventsMissing
        }) && forall|j: int| 0 <= j < i ==> (#[trigger] data[j]).receipt is Some && data[j].events is Some {
        let i = choose|i: int|
            0 <= i < data.len() && (if (#[trigger] data[i]).receipt is None {
                e == StorageError::ReceiptMissing
            } else {
                data[i].events is None && e == StorageError::EventsMissing
            }) && forall|j: int| 0 <= j < i ==> (#[trigger] data[j]).receipt is Some && data[j].events is Some;
        assert(gap(data[i]) == Some(e));
        assert forall|j: int| 0 <= j < i implies #[trigger] gap(data[j]) is None by {
            assert(data[j].receipt is Some);
        }
    }
}

/// The events that are returned for a transaction are those that are stored for it, under its
/// hash. Where some are missing, the first transaction that lacks them is named.
pub proof fn lemma_events_are_those_of_the_transaction(
    entry: TransactionDataView,
    r: EventsForBlock,
    data: Seq<TransactionDataView>,
    e: StorageError,
)
    ensures
        has_events(entry, r) <==> entry.transaction.hash == r.0@ && entry.events == Some(views(r.1@)),
        is_first_without_events(data, e) ==> e is EventsMissingFor && exists|i: int|
            0 <= i < data.len() && (#[trigger] data[i]).events is None && data[i].transaction.hash
                == e->EventsMissingFor_0@ && forall|j: int| 0 <= j < i ==> (#[trigger] data[j]).events is Some,
{
}

/// The hashes, the transactions and the events of a block are those of its transactions, one
/// after the other.
pub proof fn lemma_parts_of_a_block(a: Seq<TransactionDataView>, b: Seq<TransactionDataView>, entry: TransactionDataView)
    ensures
        hashes_of(a + b) == hashes_of(a) + hashes_of(b),
        transactions_of(a + b) == transactions_of(a) + transactions_of(b),
        events_of(a + b) == events_of(a) + events_of(b),
        hashes_of(seq![entry]) == seq![entry.transaction.hash],
        transactions_of(seq![entry]) == seq![entry.transaction],
        entry.events matches Some(events) ==> events_of(seq![entry]) == events,
        entry.events is None ==> events_of(seq![entry]).len() == 0,
        hashes_of(Seq::empty()).len() == 0,
        transactions_of(Seq::empty()).len() == 0,
        events_of(Seq::empty()).len() == 0,
    decreases b.len(),
{
    assert(hashes_of(a + b) =~= hashes_of(a) + hashes_of(b));
    assert(transactions_of(a + b) =~= transactions_of(a) + transactions_of(b));
    assert(hashes_of(seq![entry]) =~= seq![entry.transaction.hash]);
    assert(transactions_of(seq![entry]) =~= seq![entry.transaction]);
    reveal_with_fuel(events_of, 2);
    assert(seq![entry].drop_last() =~= Seq::empty());
    if let Some(events) = entry.events {
        assert(Seq::<EventView>::empty() + events =~= events);
    }
    if b.len() == 0 {
        assert(a + b =~= a);
        assert(events_of(a) + events_of(b) =~= events_of(a));
    } else {
        lemma_parts_of_a_block(a, b.drop_last(), entry);
        assert((a + b).drop_last() =~= a + b.drop_last());
        assert((a + b).last() == b.last());
        if let Some(events) = b.last().events {
            assert(events_of(a) + (events_of(b.drop_last()) + events) =~= (events_of(a) + events_of(b.drop_last()))
                + events);
        }
    }
}

/// The events that are handed out for the Bloom filter are the very ones that were given, in order.
pub proof fn lemma_borrowed_views(events: Seq<&Event>, i: int)
    requires
        0 <= i < events.len(),
    ensures
        borrowed_views(events).len() == events.len(),
        borrowed_views(events)[i] == events[i]@,
{
}

/// Entering a receipt or events changes nothing but the receipt or the events of this transaction.
pub proof fn lemma_update_changes_one_part(
    data: Seq<TransactionDataView>,
    i: int,
    receipt: ReceiptView,
    events: Seq<EventView>,
    j: int,
)
    requires
        0 <= i < data.len(),
        0 <= j < data.len(),
    ensures
        with_receipt(data, i, receipt).len() == data.len(),
        with_receipt(data, i, receipt)[i] == (TransactionDataView {
            transaction: data[i].transaction,
            receipt: Some(receipt),
            events: data[i].events,
        }),
        j != i ==> with_receipt(data, i, receipt)[j] == data[j],
        with_events(data, i, events).len() == data.len(),
        with_events(data, i, events)[i] == (TransactionDataView {
            transaction: data[i].transaction,
            receipt: data[i].receipt,
            events: Some(events),
        }),
        j != i ==> with_events(data, i, events)[j] == data[j],
{
}

/// What was stored of a block is what reading its row gives, whole and in order, under the number
/// of the block, as long as its addresses are below 2^251. The only other outcome is that the
/// decompressor fails.
pub proof fn lemma_stored_is_read(
    row: BlockRow,
    block_number: BlockNumber,
    data: Seq<TransactionDataView>,
    by_number: Result<Option<Vec<TransactionData>>, StorageError>,
    by_hash: Result<Option<(BlockNumber, Vec<TransactionData>)>, StorageError>,
)
    requires
        row.stores(block_number, data),
        forall|i: int, k: int|
            0 <= i < data.len() && 0 <= k < bounded_numbers(data[i]).len() ==> #[trigger] bounded_numbers(data[i])[k]
                < pow2(251),
        is_read(Some(row), by_number),
        is_read_with_number(Some(row), by_hash),
    ensures
        row.block_number == block_number,
        zstd_content(row.transactions@) == Some(rows_encoding(data)),
        selected(Some(row)) == Some(data),
        match by_number {
            Ok(Some(read)) => views(read@) == data,
            Ok(None) => false,
            Err(e) => e == StorageError::Decompression && decompression_fails(row.transactions@),
        },
        match by_hash {
            Ok(Some((number, read))) => number == block_number && views(read@) == data,
            Ok(None) => false,
            Err(e) => e == StorageError::Decompression && decompression_fails(row.transactions@),
        },
{
    lemma_small_numbers_are_loadable(data);
}

/// Without a row there is nothing to read, and no error.
pub proof fn lemma_no_row_is_read_as_nothing(
    by_number: Result<Option<Vec<TransactionData>>, StorageError>,
    by_hash: Result<Option<(BlockNumber, Vec<TransactionData>)>, StorageError>,
)
    ensures
        is_read(None, by_number) <==> by_number matches Ok(None),
        is_read_with_number(None, by_hash) <==> by_hash matches Ok(None),
        selected(None) is None,
{
}

/// Why an update of a stored block fails: there is no such block, no such transaction, or one of
/// the two calls to the compressor and the decompressor fails.
pub proof fn lemma_update_fails_for_a_reason(
    row: BlockRow,
    block_number: BlockNumber,
    data: Seq<TransactionDataView>,
    index: usize,
    e: StorageError,
)
    requires
        row.stores(block_number, data),
        forall|i: int, k: int|
            0 <= i < data.len() && 0 <= k < bounded_numbers(data[i]).len() ==> #[trigger] bounded_numbers(data[i])[k]
                < pow2(251),
    ensures
        update_failed(None, block_number, index, e) <==> e == StorageError::NoTransactions(block_number),
        update_failed(Some(row), block_number, index, e) <==> {
            ||| e == StorageError::Decompression && decompression_fails(row.transactions@)
            ||| index >= data.len() && e == (StorageError::NoTransaction { index, block_number })
            ||| index < data.len() && e == StorageError::Compression
        },
{
    lemma_small_numbers_are_loadable(data);
}

} // verus!
