//! The stored form of events and of whole rows.
use crate::bytes::{lemma_append_assoc, lemma_pow256_values};
use crate::common::event::EventView;
use crate::common::transaction::TransactionView;
use crate::storage::codec::{decode_variant, encode_integer, Decode, Encode, Malformed};
use crate::storage::dto::{Event, Events, MinimalFelt, Receipt, ReceiptV0View, Transaction, TransactionVariantV0,
    TransactionsRow, TransactionsRowView};
use crate::storage::format::elements::lemma_contents_are_views;
use crate::storage::wire::{lemma_unvarint, unvarint, varint};
use vstd::prelude::*;

verus! {

/// The fields of [`Event`], as they are stored.
pub type EventFields = (Vec<MinimalFelt>, (MinimalFelt, Vec<MinimalFelt>));

/// What is stored of the fields.
pub open spec fn event_fields(content: EventView) -> (Seq<nat>, (nat, Seq<nat>)) {
    (content.data, (content.from_address, content.keys))
}

impl Encode for Event {
    type Content = EventView;

    open spec fn content(&self) -> EventView {
        self@
    }

    #[verifier::opaque]
    open spec fn valid(content: EventView) -> bool {
        EventFields::valid(event_fields(content))
    }

    #[verifier::opaque]
    open spec fn encoding(content: EventView) -> Seq<u8> {
        EventFields::encoding(event_fields(content))
    }

    fn encode(&self, out: &mut Vec<u8>) {
        proof {
            reveal(<Event as Encode>::valid);
            reveal(<Event as Encode>::encoding);
            lemma_contents_are_views(self.data@);
            lemma_contents_are_views(self.keys@);
        }
        (&self.data, (&self.from_address, &self.keys)).encode(out);
    }
}

impl Decode for Event {
    #[verifier::opaque]
    open spec fn parse(s: Seq<u8>) -> Option<(EventView, Seq<u8>)> {
        match EventFields::parse(s) {
            Some(((data, (from_address, keys)), rest)) => Some((EventView { data, from_address, keys }, rest)),
            None => None,
        }
    }

    proof fn lemma_parse_encoding(content: EventView, rest: Seq<u8>) {
        reveal(<Event as Encode>::valid);
        reveal(<Event as Encode>::encoding);
        reveal(<Event as Decode>::parse);
        EventFields::lemma_parse_encoding(event_fields(content), rest);
    }

    fn decode(input: &[u8]) -> (r: Result<(Event, &[u8]), Malformed>) {
        proof {
            reveal(<Event as Decode>::parse);
        }
        let (fields, rest) = match EventFields::decode(input) {
            Ok(read) => read,
            Err(e) => return Err(e),
        };
        let (data, (from_address, keys)) = fields;
        proof {
            lemma_contents_are_views(data@);
            lemma_contents_are_views(keys@);
        }
        Ok((Event { data, from_address, keys }, rest))
    }
}

/// The events of a transaction, as they are stored.
pub type EventsList = Vec<Event>;

impl Encode for Events {
    type Content = Seq<EventView>;

    open spec fn content(&self) -> Seq<EventView> {
        self@
    }

    open spec fn valid(content: Seq<EventView>) -> bool {
        EventsList::valid(content)
    }

    open spec fn encoding(content: Seq<EventView>) -> Seq<u8> {
        varint(0) + EventsList::encoding(content)
    }

    fn encode(&self, out: &mut Vec<u8>) {
        encode_integer(0, out);
        match self {
            Events::V0 { events } => {
                proof {
                    lemma_contents_are_views(events@);
                }
                events.encode(out);
            },
        }
        proof {
            let content = self@;
            lemma_append_assoc(old(out)@, varint(0), EventsList::encoding(content));
        }
    }
}

impl Decode for Events {
    open spec fn parse(s: Seq<u8>) -> Option<(Seq<EventView>, Seq<u8>)> {
        match unvarint(s, 4) {
            Some((n, tail)) => if n == 0 {
                EventsList::parse(tail)
            } else {
                None
            },
            None => None,
        }
    }

    proof fn lemma_parse_encoding(content: Seq<EventView>, rest: Seq<u8>) {
        lemma_pow256_values();
        lemma_append_assoc(varint(0), EventsList::encoding(content), rest);
        lemma_unvarint(0, 4, EventsList::encoding(content) + rest);
        EventsList::lemma_parse_encoding(content, rest);
    }

    fn decode(input: &[u8]) -> (r: Result<(Events, &[u8]), Malformed>) {
        let (n, tail) = match decode_variant(input) {
            Ok(read) => read,
            Err(e) => return Err(e),
        };
        if n != 0 {
            return Err(Malformed);
        }
        match EventsList::decode(tail) {
            Ok((payload, rest)) => {
                proof {
                    lemma_contents_are_views(payload@);
                }
                Ok((Events::V0 { events: payload }, rest))
            },
            Err(e) => Err(e),
        }
    }
}

/// The fields of [`Transaction`], as they are stored.
pub type TransactionFields = (MinimalFelt, TransactionVariantV0);

impl Encode for Transaction {
    type Content = TransactionView;

    open spec fn content(&self) -> TransactionView {
        self@
    }

    open spec fn valid(content: TransactionView) -> bool {
        TransactionFields::valid((content.hash, content.variant))
    }

    open spec fn encoding(content: TransactionView) -> Seq<u8> {
        varint(0) + TransactionFields::encoding((content.hash, content.variant))
    }

    fn encode(&self, out: &mut Vec<u8>) {
        encode_integer(0, out);
        match self {
            Transaction::V0 { hash, variant } => {
                (hash, variant).encode(out);
            },
        }
        proof {
            let content = self@;
            lemma_append_assoc(old(out)@, varint(0), TransactionFields::encoding((content.hash, content.variant)));
        }
    }
}

impl Decode for Transaction {
    open spec fn parse(s: Seq<u8>) -> Option<(TransactionView, Seq<u8>)> {
        match unvarint(s, 4) {
            Some((n, tail)) => if n == 0 {
                match TransactionFields::parse(tail) {
                    Some(((hash, variant), rest)) => Some((TransactionView { hash, variant }, rest)),
                    None => None,
                }
            } else {
                None
            },
            None => None,
        }
    }

    proof fn lemma_parse_encoding(content: TransactionView, rest: Seq<u8>) {
        lemma_pow256_values();
        lemma_append_assoc(varint(0), TransactionFields::encoding((content.hash, content.variant)), rest);
        lemma_unvarint(0, 4, TransactionFields::encoding((content.hash, content.variant)) + rest);
        TransactionFields::lemma_parse_encoding((content.hash, content.variant), rest);
    }

    fn decode(input: &[u8]) -> (r: Result<(Transaction, &[u8]), Malformed>) {
        let (n, tail) = match decode_variant(input) {
            Ok(read) => read,
            Err(e) => return Err(e),
        };
        if n != 0 {
            return Err(Malformed);
        }
        match TransactionFields::decode(tail) {
            Ok((payload, rest)) => {
                Ok((Transaction::V0 { hash: payload.0, variant: payload.1 }, rest))
            },
            Err(e) => Err(e),
        }
    }
}

/// The fields of [`TransactionsRow`], as they are stored.
pub type TransactionsRowFields = (Transaction, (Option<Receipt>, Option<Events>));

/// What is stored of the fields.
pub open spec fn transactions_row_fields(content: TransactionsRowView) -> (TransactionView, (Option<ReceiptV0View>,
    Option<Seq<EventView>>)) {
    (content.transaction, (content.receipt, content.events))
}

impl Encode for TransactionsRow {
    type Content = TransactionsRowView;

    open spec fn content(&self) -> TransactionsRowView {
        self@
    }

    #[verifier::opaque]
    open spec fn valid(content: TransactionsRowView) -> bool {
        TransactionsRowFields::valid(transactions_row_fields(content))
    }

    #[verifier::opaque]
    open spec fn encoding(content: TransactionsRowView) -> Seq<u8> {
        TransactionsRowFields::encoding(transactions_row_fields(content))
    }

    fn encode(&self, out: &mut Vec<u8>) {
        proof {
            reveal(<TransactionsRow as Encode>::valid);
            reveal(<TransactionsRow as Encode>::encoding);
        }
        (&self.transaction, (&self.receipt, &self.events)).encode(out);
    }
}

impl Decode for TransactionsRow {
    #[verifier::opaque]
    open spec fn parse(s: Seq<u8>) -> Option<(TransactionsRowView, Seq<u8>)> {
        match TransactionsRowFields::parse(s) {
            Some(((transaction, (receipt, events)), rest)) => Some((TransactionsRowView { transaction, receipt,
                events }, rest)),
            None => None,
        }
    }

    proof fn lemma_parse_encoding(content: TransactionsRowView, rest: Seq<u8>) {
        reveal(<TransactionsRow as Encode>::valid);
        reveal(<TransactionsRow as Encode>::encoding);
        reveal(<TransactionsRow as Decode>::parse);
        TransactionsRowFields::lemma_parse_encoding(transactions_row_fields(content), rest);
    }

    fn decode(input: &[u8]) -> (r: Result<(TransactionsRow, &[u8]), Malformed>) {
        proof {
            reveal(<TransactionsRow as Decode>::parse);
        }
        let (fields, rest) = match TransactionsRowFields::decode(input) {
            Ok(read) => read,
            Err(e) => return Err(e),
        };
        let (transaction, (receipt, events)) = fields;
        Ok((TransactionsRow { transaction, receipt, events }, rest))
    }
}

/// The fields of [`Event`] are stored one after the other, in this order, and read from bytes
/// exactly where all of them can be read.
pub proof fn lemma_layout_of_event(content: EventView, s: Seq<u8>)
    ensures
        Event::encoding(content) == (
            <Vec<MinimalFelt> as Encode>::encoding(content.data) + (
            MinimalFelt::encoding(content.from_address) + (
            <Vec<MinimalFelt> as Encode>::encoding(content.keys)))),
        match Event::parse(s) {
            Some((read, rest)) => EventFields::parse(s) == Some(((read.data, (read.from_address, read.keys)), rest)),
            None => EventFields::parse(s) is None,
        },
{
    reveal(<Event as Encode>::encoding);
    reveal(<Event as Decode>::parse);
}

/// The fields of [`TransactionsRow`] are stored one after the other, in this order, and read from bytes
/// exactly where all of them can be read.
pub proof fn lemma_layout_of_transactions_row(content: TransactionsRowView, s: Seq<u8>)
    ensures
        TransactionsRow::encoding(content) == (
            Transaction::encoding(content.transaction) + (
            <Option<Receipt> as Encode>::encoding(content.receipt) + (
            <Option<Events> as Encode>::encoding(content.events)))),
        match TransactionsRow::parse(s) {
            Some((read, rest)) => TransactionsRowFields::parse(s) == Some(((read.transaction, (read.receipt,
                read.events)), rest)),
            None => TransactionsRowFields::parse(s) is None,
        },
{
    reveal(<TransactionsRow as Encode>::encoding);
    reveal(<TransactionsRow as Decode>::parse);
}

/// Events and transactions are stored as the number of their version and then what they hold. Other
/// versions are refused.
pub proof fn lemma_layout_of_versions(events: Seq<EventView>, transaction: TransactionView, s: Seq<u8>)
    ensures
        Events::encoding(events) == varint(0) + <Vec<Event> as Encode>::encoding(events),
        Transaction::encoding(transaction) == varint(0) + (MinimalFelt::encoding(transaction.hash)
            + TransactionVariantV0::encoding(transaction.variant)),
        unvarint(s, 4) is None || unvarint(s, 4)->Some_0.0 > 0 ==> Events::parse(s) is None && Transaction::parse(s)
            is None,
        unvarint(s, 4) matches Some((n, tail)) ==> {
            &&& n == 0 ==> Events::parse(s) == <Vec<Event> as Decode>::parse(tail)
            &&& n == 0 ==> (Transaction::parse(s) is Some <==> <(MinimalFelt, TransactionVariantV0) as Decode>::parse(
                tail,
            ) is Some)
        },
{
}

} // verus!
