//! Blocks of transactions as bytes.
use crate::common::event::{Event, EventView};
use crate::common::receipt::{L2ToL1MessageView, Receipt, ReceiptView};
use crate::common::transaction::{Transaction, TransactionVariantView, TransactionView};
use crate::common::{lemma_address_limit, views};
use crate::storage::codec::{Decode, Encode};
use crate::storage::convert::{loadable_event, loadable_message, loadable_messages, loadable_transaction, loaded_receipt,
    lemma_receipt_round_trip, stored_receipt};
use crate::storage::dto;
use crate::storage::dto::{option_view, TransactionsRowView};
use crate::storage::format::elements::lemma_contents_are_views;
use vstd::arithmetic::power2::pow2;
use vstd::prelude::*;

verus! {

/// A transaction with what is known of its outcome.
#[derive(Clone, Debug, PartialEq, Eq)]
pub struct TransactionData {
    pub transaction: Transaction,
    pub receipt: Option<Receipt>,
    pub events: Option<Vec<Event>>,
}

/// What is known of a transaction.
#[verifier::ext_equal]
pub struct TransactionDataView {
    pub transaction: TransactionView,
    pub receipt: Option<ReceiptView>,
    pub events: Option<Seq<EventView>>,
}

impl View for TransactionData {
    type V = TransactionDataView;

    open spec fn view(&self) -> TransactionDataView {
        TransactionDataView {
            transaction: self.transaction@,
            receipt: option_view(self.receipt),
            events: match self.events {
                Some(events) => Some(views(events@)),
                None => None,
            },
        }
    }
}

/// What is stored of a transaction.
pub open spec fn stored_row(data: TransactionDataView) -> TransactionsRowView {
    TransactionsRowView {
        transaction: data.transaction,
        receipt: match data.receipt {
            Some(receipt) => Some(stored_receipt(receipt)),
            None => None,
        },
        events: data.events,
    }
}

/// What a stored row stands for.
pub open spec fn loaded_row(row: TransactionsRowView) -> TransactionDataView {
    TransactionDataView {
        transaction: row.transaction,
        receipt: match row.receipt {
            Some(receipt) => Some(loaded_receipt(receipt)),
            None => None,
        },
        events: row.events,
    }
}

/// What is stored of the transactions of a block.
pub open spec fn stored_rows(data: Seq<TransactionDataView>) -> Seq<TransactionsRowView> {
    Seq::new(data.len(), |i: int| stored_row(data[i]))
}

/// What stored rows stand for.
pub open spec fn loaded_rows(rows: Seq<TransactionsRowView>) -> Seq<TransactionDataView> {
    Seq::new(rows.len(), |i: int| loaded_row(rows[i]))
}

/// Whether every address of an event list can be loaded.
pub open spec fn loadable_events(events: Seq<EventView>) -> bool {
    forall|i: int| 0 <= i < events.len() ==> loadable_event(#[trigger] events[i])
}

/// Whether every address of a row can be loaded.
pub open spec fn loadable_row(row: TransactionsRowView) -> bool {
    &&& loadable_transaction(row.transaction.variant)
    &&& row.receipt matches Some(receipt) ==> loadable_messages(receipt.l2_to_l1_messages)
    &&& row.events matches Some(events) ==> loadable_events(events)
}

/// Whether every address of all rows can be loaded.
pub open spec fn loadable_rows(rows: Seq<TransactionsRowView>) -> bool {
    forall|i: int| 0 <= i < rows.len() ==> loadable_row(#[trigger] rows[i])
}

/// The numbers of a transaction that have to fit 251 bits: contract addresses, but for the senders
/// of declare transactions of version 1 and 2, and compiled class hashes.
pub open spec fn bounded_numbers_of_variant(variant: TransactionVariantView) -> Seq<nat> {
    match variant {
        TransactionVariantView::DeclareV0(tx) => seq![tx.sender_address],
        TransactionVariantView::DeclareV1(_) => Seq::empty(),
        TransactionVariantView::DeclareV2(tx) => seq![tx.compiled_class_hash],
        TransactionVariantView::DeclareV3(tx) => seq![tx.sender_address, tx.compiled_class_hash],
        TransactionVariantView::Deploy(tx) => seq![tx.contract_address],
        TransactionVariantView::DeployAccountV1(tx) => seq![tx.contract_address],
        TransactionVariantView::DeployAccountV3(tx) => seq![tx.contract_address],
        TransactionVariantView::InvokeV0(tx) => seq![tx.sender_address],
        TransactionVariantView::InvokeV1(tx) => seq![tx.sender_address],
        TransactionVariantView::InvokeV3(tx) => seq![tx.sender_address],
        TransactionVariantView::L1Handler(tx) => seq![tx.contract_address],
    }
}

/// The numbers of an entry that have to fit 251 bits: those of the transaction, and the contracts
/// that its messages and its events come from.
pub open spec fn bounded_numbers(data: TransactionDataView) -> Seq<nat> {
    bounded_numbers_of_variant(data.transaction.variant) + match data.receipt {
        Some(receipt) => receipt.l2_to_l1_messages.map(|_i: int, message: L2ToL1MessageView| message.from_address),
        None => Seq::empty(),
    } + match data.events {
        Some(events) => events.map(|_i: int, event: EventView| event.from_address),
        None => Seq::empty(),
    }
}

/// Transactions can be loaded again exactly where none of the bounded numbers needs more than 251
/// bits.
pub proof fn lemma_small_numbers_are_loadable(data: Seq<TransactionDataView>)
    ensures
        loadable_rows(stored_rows(data)) <==> forall|i: int, k: int|
            0 <= i < data.len() && 0 <= k < bounded_numbers(data[i]).len() ==> #[trigger] bounded_numbers(data[i])[k]
                < pow2(251),
{
    lemma_address_limit();
    assert forall|i: int| 0 <= i < data.len() implies (loadable_row(#[trigger] stored_rows(data)[i]) <==> forall|k: int|
        0 <= k < bounded_numbers(data[i]).len() ==> #[trigger] bounded_numbers(data[i])[k] < pow2(251)) by {
        lemma_small_numbers_of_an_entry(data[i]);
    }
    if loadable_rows(stored_rows(data)) {
        assert forall|i: int, k: int| 0 <= i < data.len() && 0 <= k < bounded_numbers(data[i]).len() implies
            #[trigger] bounded_numbers(data[i])[k] < pow2(251) by {
            assert(loadable_row(stored_rows(data)[i]));
        }
    }
    if forall|i: int, k: int|
        0 <= i < data.len() && 0 <= k < bounded_numbers(data[i]).len() ==> #[trigger] bounded_numbers(data[i])[k]
            < pow2(251) {
        assert forall|i: int| 0 <= i < data.len() implies loadable_row(#[trigger] stored_rows(data)[i]) by {
            assert forall|k: int| 0 <= k < bounded_numbers(data[i]).len() implies #[trigger] bounded_numbers(data[i])[k]
                < pow2(251) by {}
        }
    }
}

proof fn lemma_small_numbers_of_an_entry(data: TransactionDataView)
    ensures
        loadable_row(stored_row(data)) <==> forall|k: int|
            0 <= k < bounded_numbers(data).len() ==> #[trigger] bounded_numbers(data)[k] < pow2(251),
{
    lemma_address_limit();
    let own = bounded_numbers_of_variant(data.transaction.variant);
    let messages = match data.receipt {
        Some(receipt) => receipt.l2_to_l1_messages.map(|_i: int, message: L2ToL1MessageView| message.from_address),
        None => Seq::empty(),
    };
    let events = match data.events {
        Some(events) => events.map(|_i: int, event: EventView| event.from_address),
        None => Seq::empty(),
    };
    let all = bounded_numbers(data);
    assert(all == own + messages + events);
    let small = forall|k: int| 0 <= k < all.len() ==> #[trigger] all[k] < pow2(251);
    if small {
        assert forall|k: int| 0 <= k < own.len() implies #[trigger] own[k] < pow2(251) by {
            assert(all[k] == own[k]);
        }
        assert(loadable_transaction(data.transaction.variant)) by {
            if own.len() > 0 {
                assert(own[0] < pow2(251));
            }
            if own.len() > 1 {
                assert(own[1] < pow2(251));
            }
        }
        if let Some(receipt) = data.receipt {
            assert forall|i: int| 0 <= i < receipt.l2_to_l1_messages.len() implies loadable_message(
                #[trigger] receipt.l2_to_l1_messages[i],
            ) by {
                assert(all[own.len() + i] == messages[i]);
            }
        }
        if let Some(list) = data.events {
            assert forall|i: int| 0 <= i < list.len() implies loadable_event(#[trigger] list[i]) by {
                assert(all[own.len() + messages.len() + i] == events[i]);
            }
        }
    }
    if loadable_row(stored_row(data)) {
        assert forall|k: int| 0 <= k < all.len() implies #[trigger] all[k] < pow2(251) by {
            if k < own.len() {
                assert(all[k] == own[k]);
            } else if k < own.len() + messages.len() {
                assert(all[k] == messages[k - own.len()]);
                assert(loadable_message(data.receipt->Some_0.l2_to_l1_messages[k - own.len()]));
            } else {
                assert(all[k] == events[k - own.len() - messages.len()]);
                assert(loadable_event(data.events->Some_0[k - own.len() - messages.len()]));
            }
        }
    }
}

/// The rows of a block, as they are stored.
pub type Rows = Vec<dto::TransactionsRow>;

/// The bytes that are stored of the transactions of a block, before compression.
pub open spec fn rows_encoding(data: Seq<TransactionDataView>) -> Seq<u8> {
    Rows::encoding(stored_rows(data))
}

/// Why stored bytes cannot be loaded.
#[derive(Clone, Copy, Debug, PartialEq, Eq)]
pub enum LoadError {
    /// The bytes are not rows.
    Malformed,
    /// An address or a compiled class hash does not fit 251 bits.
    AddressOutOfRange,
}

/// What stored bytes stand for. Bytes that follow the rows are ignored.
pub open spec fn rows_of(bytes: Seq<u8>) -> Result<Seq<TransactionDataView>, LoadError> {
    match Rows::parse(bytes) {
        Some((rows, _)) => if loadable_rows(rows) {
            Ok(loaded_rows(rows))
        } else {
            Err(LoadError::AddressOutOfRange)
        },
        None => Err(LoadError::Malformed),
    }
}

/// What loading gives after transactions were stored: the same transactions, as long as their
/// addresses fit 251 bits.
pub open spec fn reloaded(data: Seq<TransactionDataView>) -> Result<Seq<TransactionDataView>, LoadError> {
    if loadable_rows(stored_rows(data)) {
        Ok(data)
    } else {
        Err(LoadError::AddressOutOfRange)
    }
}

/// Transactions that were stored are loaded again.
pub proof fn lemma_rows_round_trip(data: Seq<TransactionDataView>)
    requires
        Rows::valid(stored_rows(data)),
    ensures
        rows_of(rows_encoding(data)) == reloaded(data),
{
    let rows = stored_rows(data);
    Rows::lemma_parse_encoding(rows, Seq::empty());
    assert(rows_encoding(data) + Seq::empty() =~= rows_encoding(data));
    assert forall|i: int| 0 <= i < data.len() implies loaded_row(rows[i]) == data[i] by {
        if let Some(receipt) = data[i].receipt {
            lemma_receipt_round_trip(receipt);
        }
    }
    assert(loaded_rows(rows) =~= data);
}

/// What is stored of a transaction.
fn dto_row(data: &TransactionData) -> (r: dto::TransactionsRow)
    ensures
        r@ == stored_row(data@),
{
    let receipt = match &data.receipt {
        Some(receipt) => Some(dto::Receipt::from(receipt)),
        None => None,
    };
    let events = match &data.events {
        Some(events) => Some(dto_events(events)),
        None => None,
    };
    dto::TransactionsRow { transaction: dto::Transaction::from(&data.transaction), receipt, events }
}

/// What is stored of events.
fn dto_events(events: &Vec<Event>) -> (r: dto::Events)
    ensures
        r@ == views(events@),
{
    let mut stored: Vec<dto::Event> = Vec::new();
    let mut i: usize = 0;
    while i < events.len()
        invariant
            i <= events@.len(),
            stored@.len() == i,
            forall|j: int| 0 <= j < i ==> (#[trigger] stored@[j])@ == events@[j]@,
        decreases events.len() - i,
    {
        stored.push(dto::Event::from(&events[i]));
        i += 1;
    }
    assert(views(stored@) =~= views(events@));
    dto::Events::V0 { events: stored }
}

/// The bytes that are stored of the transactions of a block, before compression.
pub fn encode_rows(data: &[TransactionData]) -> (r: Vec<u8>)
    ensures
        r@ == rows_encoding(views(data@)),
        Rows::valid(stored_rows(views(data@))),
        rows_of(r@) == reloaded(views(data@)),
{
    let mut rows: Rows = Vec::new();
    let mut i: usize = 0;
    while i < data.len()
        invariant
            i <= data@.len(),
            rows@.len() == i,
            forall|j: int| 0 <= j < i ==> (#[trigger] rows@[j])@ == stored_row(data@[j]@),
        decreases data.len() - i,
    {
        rows.push(dto_row(&data[i]));
        i += 1;
    }
    proof {
        lemma_contents_are_views(rows@);
        assert(views(rows@) =~= stored_rows(views(data@)));
    }
    let mut bytes: Vec<u8> = Vec::new();
    rows.encode(&mut bytes);
    proof {
        assert(bytes@ =~= rows_encoding(views(data@)));
        lemma_rows_round_trip(views(data@));
    }
    bytes
}

/// Whether every address of the events can be loaded.
fn events_are_loadable(events: &dto::Events) -> (r: bool)
    ensures
        r == loadable_events(events@),
{
    let dto::Events::V0 { events: list } = events;
    let mut i: usize = 0;
    while i < list.len()
        invariant
            i <= list@.len(),
            events@ == views(list@),
            forall|j: int| 0 <= j < i ==> loadable_event(#[trigger] events@[j]),
        decreases list.len() - i,
    {
        if !list[i].is_loadable() {
            assert(!loadable_event(events@[i as int]));
            return false;
        }
        i += 1;
    }
    true
}

/// Whether every address of the row can be loaded.
fn row_is_loadable(row: &dto::TransactionsRow) -> (r: bool)
    ensures
        r == loadable_row(row@),
{
    let receipt = match &row.receipt {
        Some(receipt) => receipt.is_loadable(),
        None => true,
    };
    let events = match &row.events {
        Some(events) => events_are_loadable(events),
        None => true,
    };
    row.transaction.is_loadable() && receipt && events
}

/// What stored events stand for.
fn load_events(events: dto::Events) -> (r: Vec<Event>)
    requires
        loadable_events(events@),
    ensures
        views(r@) == events@,
{
    let ghost stored = events@;
    let dto::Events::V0 { events: list } = events;
    let ghost all = list@;
    assert(stored == views(all));
    let mut r: Vec<Event> = Vec::new();
    for event in iter: list
        invariant
            iter.seq() == all,
            loadable_events(views(all)),
            r@.len() == iter.index(),
            forall|j: int| 0 <= j < iter.index() ==> (#[trigger] r@[j])@ == all[j]@,
    {
        assert(views(all)[iter.index()] == event@);
        r.push(Event::from(event));
    }
    assert(views(r@) =~= views(all));
    r
}

/// What a stored row stands for.
fn load_row(row: dto::TransactionsRow) -> (r: TransactionData)
    requires
        loadable_row(row@),
    ensures
        r@ == loaded_row(row@),
{
    let receipt = match row.receipt {
        Some(receipt) => Some(Receipt::from(receipt)),
        None => None,
    };
    let events = match row.events {
        Some(events) => Some(load_events(events)),
        None => None,
    };
    TransactionData { transaction: Transaction::from(row.transaction), receipt, events }
}

/// Loads the transactions of a block from decompressed bytes.
pub fn decode_rows(bytes: &[u8]) -> (r: Result<Vec<TransactionData>, LoadError>)
    ensures
        match r {
            Ok(data) => rows_of(bytes@) == Ok::<_, LoadError>(views(data@)),
            Err(e) => rows_of(bytes@) == Err::<Seq<TransactionDataView>, _>(e),
        },
{
    let rows: Rows = match Rows::decode(bytes) {
        Ok((rows, _)) => rows,
        Err(_) => return Err(LoadError::Malformed),
    };
    let ghost all = rows@;
    proof {
        lemma_contents_are_views(all);
    }
    let mut r: Vec<TransactionData> = Vec::new();
    for row in iter: rows
        invariant
            iter.seq() == all,
            Rows::parse(bytes@) is Some,
            Rows::parse(bytes@)->Some_0.0 == views(all),
            r@.len() == iter.index(),
            forall|j: int| 0 <= j < iter.index() ==> loadable_row((#[trigger] all[j])@),
            forall|j: int| 0 <= j < iter.index() ==> (#[trigger] r@[j])@ == loaded_row(all[j]@),
    {
        if !row_is_loadable(&row) {
            assert(!loadable_row(views(all)[iter.index()]));
            return Err(LoadError::AddressOutOfRange);
        }
        r.push(load_row(row));
    }
    assert(views(r@) =~= loaded_rows(views(all)));
    assert(loadable_rows(views(all)));
    Ok(r)
}

/// What [`TransactionData`] says is what each of its parts says.
pub proof fn lemma_parts_of_transaction_data(value: TransactionData)
    ensures
        value@.transaction == value.transaction@,
        value@.receipt == option_view(value.receipt),
        value@.events is Some <==> value.events is Some,
        value.events matches Some(events) ==> value@.events == Some(views(events@)),
{
}

/// Transactions are stored and loaded one by one, part by part.
pub proof fn lemma_rows_part_by_part(data: Seq<TransactionDataView>, rows: Seq<TransactionsRowView>, i: int)
    ensures
        stored_rows(data).len() == data.len(),
        0 <= i < data.len() ==> ({
            let row = stored_rows(data)[i];
            &&& row.transaction == data[i].transaction
            &&& row.events == data[i].events
            &&& row.receipt is Some <==> data[i].receipt is Some
            &&& row.receipt matches Some(receipt) ==> receipt == stored_receipt(data[i].receipt->Some_0)
        }),
        loaded_rows(rows).len() == rows.len(),
        0 <= i < rows.len() ==> ({
            let entry = loaded_rows(rows)[i];
            &&& entry.transaction == rows[i].transaction
            &&& entry.events == rows[i].events
            &&& entry.receipt is Some <==> rows[i].receipt is Some
            &&& entry.receipt matches Some(receipt) ==> receipt == loaded_receipt(rows[i].receipt->Some_0)
        }),
{
}

/// The bytes that are stored of transactions, whatever follows them, are loaded as these
/// transactions, as long as their addresses and compiled class hashes are below 2^251, and cannot be
/// loaded otherwise.
pub proof fn lemma_stored_bytes_are_loaded(data: Seq<TransactionDataView>, rest: Seq<u8>)
    requires
        Rows::valid(stored_rows(data)),
    ensures
        ({
            let small = forall|i: int, k: int|
                0 <= i < data.len() && 0 <= k < bounded_numbers(data[i]).len() ==> #[trigger] bounded_numbers(
                    data[i],
                )[k] < pow2(251);
            &&& small ==> rows_of(rows_encoding(data) + rest) == Ok::<_, LoadError>(data)
            &&& !small ==> rows_of(rows_encoding(data) + rest) == Err::<Seq<TransactionDataView>, _>(
                LoadError::AddressOutOfRange,
            )
        }),
{
    let rows = stored_rows(data);
    Rows::lemma_parse_encoding(rows, rest);
    lemma_small_numbers_are_loadable(data);
    assert forall|i: int| 0 <= i < data.len() implies loaded_row(rows[i]) == data[i] by {
        if let Some(receipt) = data[i].receipt {
            lemma_receipt_round_trip(receipt);
        }
    }
    assert(loaded_rows(rows) =~= data);
}

/// Transactions that are stored alike are alike.
pub proof fn lemma_stored_bytes_tell_the_transactions(a: Seq<TransactionDataView>, b: Seq<TransactionDataView>)
    requires
        Rows::valid(stored_rows(a)),
        Rows::valid(stored_rows(b)),
        rows_encoding(a) == rows_encoding(b),
    ensures
        a == b,
{
    Rows::lemma_parse_encoding(stored_rows(a), Seq::empty());
    Rows::lemma_parse_encoding(stored_rows(b), Seq::empty());
    assert(stored_rows(a).len() == a.len() && stored_rows(b).len() == b.len());
    assert forall|i: int| 0 <= i < a.len() implies a[i] == b[i] by {
        assert(stored_rows(a)[i] == stored_rows(b)[i]);
        assert(loaded_row(stored_row(a[i])) == loaded_row(stored_row(b[i])));
        if let Some(receipt) = a[i].receipt {
            lemma_receipt_round_trip(receipt);
        }
        if let Some(receipt) = b[i].receipt {
            lemma_receipt_round_trip(receipt);
        }
    }
    assert(a =~= b);
}

/// Bytes are loaded as the rows that they begin with. They are malformed exactly where they begin
/// with none, and otherwise refused exactly where a row holds an address or a compiled class hash
/// that is not below 2^251.
pub proof fn lemma_loading(bytes: Seq<u8>)
    ensures
        rows_of(bytes) == Err::<Seq<TransactionDataView>, _>(LoadError::Malformed) <==> Rows::parse(bytes) is None,
        Rows::parse(bytes) matches Some((rows, rest)) ==> ({
            let data = loaded_rows(rows);
            let small = forall|i: int, k: int|
                0 <= i < data.len() && 0 <= k < bounded_numbers(data[i]).len() ==> #[trigger] bounded_numbers(
                    data[i],
                )[k] < pow2(251);
            &&& small ==> rows_of(bytes) == Ok::<_, LoadError>(data)
            &&& !small ==> rows_of(bytes) == Err::<Seq<TransactionDataView>, _>(LoadError::AddressOutOfRange)
        }),
{
    if let Some((rows, rest)) = Rows::parse(bytes) {
        let data = loaded_rows(rows);
        lemma_small_numbers_are_loadable(data);
        let again = stored_rows(data);
        assert forall|i: int| 0 <= i < rows.len() implies loadable_row(#[trigger] again[i]) == loadable_row(
            rows[i],
        ) by {}
        if loadable_rows(again) {
            assert forall|i: int| 0 <= i < rows.len() implies loadable_row(#[trigger] rows[i]) by {
                assert(loadable_row(again[i]));
            }
        }
        if loadable_rows(rows) {
            assert forall|i: int| 0 <= i < again.len() implies loadable_row(#[trigger] again[i]) by {
                assert(loadable_row(rows[i]));
            }
        }
    }
}

} // verus!
