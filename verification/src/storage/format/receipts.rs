//! The stored form of receipts.
use crate::bytes::{lemma_append_assoc, lemma_pow256_values};
use crate::common::receipt::{ExecutionStatusView, L2ToL1MessageView};
use crate::common::{EthereumAddress, TransactionIndex};
use crate::storage::codec::{decode_variant, encode_integer, Decode, Encode, Malformed};
use crate::storage::dto::{BuiltinCounters, ExecutionDataAvailability, ExecutionResources, ExecutionStatus,
    L2ToL1Message, MinimalFelt, Receipt, ReceiptV0, ReceiptV0View};
use crate::storage::format::elements::lemma_contents_are_views;
use crate::storage::wire::{lemma_unvarint, unvarint, varint};
use vstd::prelude::*;

verus! {

/// The fields of [`BuiltinCounters`], as they are stored.
pub type BuiltinCountersFields = (u64, (u64, (u64, (u64, (u64, (u64, (u64, (u64, u64))))))));

/// What is stored of the fields.
pub open spec fn builtin_counters_fields(content: BuiltinCounters) -> (u64, (u64, (u64, (u64, (u64, (u64, (u64, (u64,
    u64)))))))) {
    (content.output, (content.pedersen, (content.range_check, (content.ecdsa, (content.bitwise, (content.ec_op,
        (content.keccak, (content.poseidon, content.segment_arena))))))))
}

impl Encode for BuiltinCounters {
    type Content = BuiltinCounters;

    open spec fn content(&self) -> BuiltinCounters {
        *self
    }

    #[verifier::opaque]
    open spec fn valid(content: BuiltinCounters) -> bool {
        BuiltinCountersFields::valid(builtin_counters_fields(content))
    }

    #[verifier::opaque]
    open spec fn encoding(content: BuiltinCounters) -> Seq<u8> {
        BuiltinCountersFields::encoding(builtin_counters_fields(content))
    }

    fn encode(&self, out: &mut Vec<u8>) {
        proof {
            reveal(<BuiltinCounters as Encode>::valid);
            reveal(<BuiltinCounters as Encode>::encoding);
        }
        (&self.output, (&self.pedersen, (&self.range_check, (&self.ecdsa, (&self.bitwise, (&self.ec_op, (&self.keccak,
            (&self.poseidon, &self.segment_arena)))))))).encode(out);
    }
}

impl Decode for BuiltinCounters {
    #[verifier::opaque]
    open spec fn parse(s: Seq<u8>) -> Option<(BuiltinCounters, Seq<u8>)> {
        match BuiltinCountersFields::parse(s) {
            Some(((output, (pedersen, (range_check, (ecdsa, (bitwise, (ec_op, (keccak, (poseidon,
                segment_arena)))))))), rest)) => Some((BuiltinCounters { output, pedersen, range_check, ecdsa, bitwise,
                ec_op, keccak, poseidon, segment_arena }, rest)),
            None => None,
        }
    }

    proof fn lemma_parse_encoding(content: BuiltinCounters, rest: Seq<u8>) {
        reveal(<BuiltinCounters as Encode>::valid);
        reveal(<BuiltinCounters as Encode>::encoding);
        reveal(<BuiltinCounters as Decode>::parse);
        BuiltinCountersFields::lemma_parse_encoding(builtin_counters_fields(content), rest);
    }

    fn decode(input: &[u8]) -> (r: Result<(BuiltinCounters, &[u8]), Malformed>) {
        proof {
            reveal(<BuiltinCounters as Decode>::parse);
        }
        let (fields, rest) = match BuiltinCountersFields::decode(input) {
            Ok(read) => read,
            Err(e) => return Err(e),
        };
        let (output, (pedersen, (range_check, (ecdsa, (bitwise, (ec_op, (keccak, (poseidon,
            segment_arena)))))))) = fields;
        Ok((BuiltinCounters { output, pedersen, range_check, ecdsa, bitwise, ec_op, keccak, poseidon, segment_arena },
            rest))
    }
}

/// The fields of [`ExecutionDataAvailability`], as they are stored.
pub type ExecutionDataAvailabilityFields = (Option<u128>, Option<u128>);

/// What is stored of the fields.
pub open spec fn execution_data_availability_fields(content: ExecutionDataAvailability) -> (Option<u128>,
    Option<u128>) {
    (content.l1_gas, content.l1_data_gas)
}

impl Encode for ExecutionDataAvailability {
    type Content = ExecutionDataAvailability;

    open spec fn content(&self) -> ExecutionDataAvailability {
        *self
    }

    #[verifier::opaque]
    open spec fn valid(content: ExecutionDataAvailability) -> bool {
        ExecutionDataAvailabilityFields::valid(execution_data_availability_fields(content))
    }

    #[verifier::opaque]
    open spec fn encoding(content: ExecutionDataAvailability) -> Seq<u8> {
        ExecutionDataAvailabilityFields::encoding(execution_data_availability_fields(content))
    }

    fn encode(&self, out: &mut Vec<u8>) {
        proof {
            reveal(<ExecutionDataAvailability as Encode>::valid);
            reveal(<ExecutionDataAvailability as Encode>::encoding);
        }
        (&self.l1_gas, &self.l1_data_gas).encode(out);
    }
}

impl Decode for ExecutionDataAvailability {
    #[verifier::opaque]
    open spec fn parse(s: Seq<u8>) -> Option<(ExecutionDataAvailability, Seq<u8>)> {
        match ExecutionDataAvailabilityFields::parse(s) {
            Some(((l1_gas, l1_data_gas), rest)) => Some((ExecutionDataAvailability { l1_gas, l1_data_gas }, rest)),
            None => None,
        }
    }

    proof fn lemma_parse_encoding(content: ExecutionDataAvailability, rest: Seq<u8>) {
        reveal(<ExecutionDataAvailability as Encode>::valid);
        reveal(<ExecutionDataAvailability as Encode>::encoding);
        reveal(<ExecutionDataAvailability as Decode>::parse);
        ExecutionDataAvailabilityFields::lemma_parse_encoding(execution_data_availability_fields(content), rest);
    }

    fn decode(input: &[u8]) -> (r: Result<(ExecutionDataAvailability, &[u8]), Malformed>) {
        proof {
            reveal(<ExecutionDataAvailability as Decode>::parse);
        }
        let (fields, rest) = match ExecutionDataAvailabilityFields::decode(input) {
            Ok(read) => read,
            Err(e) => return Err(e),
        };
        let (l1_gas, l1_data_gas) = fields;
        Ok((ExecutionDataAvailability { l1_gas, l1_data_gas }, rest))
    }
}

/// The fields of [`ExecutionResources`], as they are stored.
pub type ExecutionResourcesFields = (BuiltinCounters, (u64, (u64, ExecutionDataAvailability)));

/// What is stored of the fields.
pub open spec fn execution_resources_fields(content: ExecutionResources) -> (BuiltinCounters, (u64, (u64,
    ExecutionDataAvailability))) {
    (content.builtins, (content.n_steps, (content.n_memory_holes, content.data_availability)))
}

impl Encode for ExecutionResources {
    type Content = ExecutionResources;

    open spec fn content(&self) -> ExecutionResources {
        *self
    }

    #[verifier::opaque]
    open spec fn valid(content: ExecutionResources) -> bool {
        ExecutionResourcesFields::valid(execution_resources_fields(content))
    }

    #[verifier::opaque]
    open spec fn encoding(content: ExecutionResources) -> Seq<u8> {
        ExecutionResourcesFields::encoding(execution_resources_fields(content))
    }

    fn encode(&self, out: &mut Vec<u8>) {
        proof {
            reveal(<ExecutionResources as Encode>::valid);
            reveal(<ExecutionResources as Encode>::encoding);
        }
        (&self.builtins, (&self.n_steps, (&self.n_memory_holes, &self.data_availability))).encode(out);
    }
}

impl Decode for ExecutionResources {
    #[verifier::opaque]
    open spec fn parse(s: Seq<u8>) -> Option<(ExecutionResources, Seq<u8>)> {
        match ExecutionResourcesFields::parse(s) {
            Some(((builtins, (n_steps, (n_memory_holes, data_availability))),
                rest)) => Some((ExecutionResources { builtins, n_steps, n_memory_holes, data_availability }, rest)),
            None => None,
        }
    }

    proof fn lemma_parse_encoding(content: ExecutionResources, rest: Seq<u8>) {
        reveal(<ExecutionResources as Encode>::valid);
        reveal(<ExecutionResources as Encode>::encoding);
        reveal(<ExecutionResources as Decode>::parse);
        ExecutionResourcesFields::lemma_parse_encoding(execution_resources_fields(content), rest);
    }

    fn decode(input: &[u8]) -> (r: Result<(ExecutionResources, &[u8]), Malformed>) {
        proof {
            reveal(<ExecutionResources as Decode>::parse);
        }
        let (fields, rest) = match ExecutionResourcesFields::decode(input) {
            Ok(read) => read,
            Err(e) => return Err(e),
        };
        let (builtins, (n_steps, (n_memory_holes, data_availability))) = fields;
        Ok((ExecutionResources { builtins, n_steps, n_memory_holes, data_availability }, rest))
    }
}

/// The fields of [`L2ToL1Message`], as they are stored.
pub type L2ToL1MessageFields = (MinimalFelt, (Vec<MinimalFelt>, EthereumAddress));

/// What is stored of the fields.
pub open spec fn l2_to_l1_message_fields(content: L2ToL1MessageView) -> (nat, (Seq<nat>, Seq<u8>)) {
    (content.from_address, (content.payload, content.to_address))
}

impl Encode for L2ToL1Message {
    type Content = L2ToL1MessageView;

    open spec fn content(&self) -> L2ToL1MessageView {
        self@
    }

    #[verifier::opaque]
    open spec fn valid(content: L2ToL1MessageView) -> bool {
        L2ToL1MessageFields::valid(l2_to_l1_message_fields(content))
    }

    #[verifier::opaque]
    open spec fn encoding(content: L2ToL1MessageView) -> Seq<u8> {
        L2ToL1MessageFields::encoding(l2_to_l1_message_fields(content))
    }

    fn encode(&self, out: &mut Vec<u8>) {
        proof {
            reveal(<L2ToL1Message as Encode>::valid);
            reveal(<L2ToL1Message as Encode>::encoding);
            lemma_contents_are_views(self.payload@);
        }
        (&self.from_address, (&self.payload, &self.to_address)).encode(out);
    }
}

impl Decode for L2ToL1Message {
    #[verifier::opaque]
    open spec fn parse(s: Seq<u8>) -> Option<(L2ToL1MessageView, Seq<u8>)> {
        match L2ToL1MessageFields::parse(s) {
            Some(((from_address, (payload, to_address)), rest)) => Some((L2ToL1MessageView { from_address, payload,
                to_address }, rest)),
            None => None,
        }
    }

    proof fn lemma_parse_encoding(content: L2ToL1MessageView, rest: Seq<u8>) {
        reveal(<L2ToL1Message as Encode>::valid);
        reveal(<L2ToL1Message as Encode>::encoding);
        reveal(<L2ToL1Message as Decode>::parse);
        L2ToL1MessageFields::lemma_parse_encoding(l2_to_l1_message_fields(content), rest);
    }

    fn decode(input: &[u8]) -> (r: Result<(L2ToL1Message, &[u8]), Malformed>) {
        proof {
            reveal(<L2ToL1Message as Decode>::parse);
        }
        let (fields, rest) = match L2ToL1MessageFields::decode(input) {
            Ok(read) => read,
            Err(e) => return Err(e),
        };
        let (from_address, (payload, to_address)) = fields;
        proof {
            lemma_contents_are_views(payload@);
        }
        Ok((L2ToL1Message { from_address, payload, to_address }, rest))
    }
}

impl Encode for ExecutionStatus {
    type Content = ExecutionStatusView;

    open spec fn content(&self) -> ExecutionStatusView {
        self@
    }

    open spec fn valid(content: ExecutionStatusView) -> bool {
        content matches ExecutionStatusView::Reverted(reason) ==> String::valid(reason)
    }

    open spec fn encoding(content: ExecutionStatusView) -> Seq<u8> {
        match content {
            ExecutionStatusView::Succeeded => varint(0),
            ExecutionStatusView::Reverted(reason) => varint(1) + String::encoding(reason),
        }
    }

    fn encode(&self, out: &mut Vec<u8>) {
        match self {
            ExecutionStatus::Succeeded => encode_integer(0, out),
            ExecutionStatus::Reverted { reason } => {
                encode_integer(1, out);
                reason.encode(out);
                proof {
                    lemma_append_assoc(old(out)@, varint(1), String::encoding(reason@));
                }
            },
        }
    }
}

impl Decode for ExecutionStatus {
    open spec fn parse(s: Seq<u8>) -> Option<(ExecutionStatusView, Seq<u8>)> {
        match unvarint(s, 4) {
            Some((n, tail)) => if n == 0 {
                Some((ExecutionStatusView::Succeeded, tail))
            } else if n == 1 {
                match String::parse(tail) {
                    Some((reason, rest)) => Some((ExecutionStatusView::Reverted(reason), rest)),
                    None => None,
                }
            } else {
                None
            },
            None => None,
        }
    }

    proof fn lemma_parse_encoding(content: ExecutionStatusView, rest: Seq<u8>) {
        lemma_pow256_values();
        match content {
            ExecutionStatusView::Succeeded => {
                lemma_unvarint(0, 4, rest);
            },
            ExecutionStatusView::Reverted(reason) => {
                lemma_append_assoc(varint(1), String::encoding(reason), rest);
                lemma_unvarint(1, 4, String::encoding(reason) + rest);
                String::lemma_parse_encoding(reason, rest);
            },
        }
    }

    fn decode(input: &[u8]) -> (r: Result<(ExecutionStatus, &[u8]), Malformed>) {
        let (n, tail) = match decode_variant(input) {
            Ok(read) => read,
            Err(e) => return Err(e),
        };
        match n {
            0 => Ok((ExecutionStatus::Succeeded, tail)),
            1 => match String::decode(tail) {
                Ok((reason, rest)) => Ok((ExecutionStatus::Reverted { reason }, rest)),
                Err(e) => Err(e),
            },
            _ => Err(Malformed),
        }
    }
}

/// The fields of [`ReceiptV0`], as they are stored.
pub type ReceiptV0Fields = (MinimalFelt, (Option<ExecutionResources>, (Vec<L2ToL1Message>, (MinimalFelt,
    (TransactionIndex, ExecutionStatus)))));

/// What is stored of the fields.
pub open spec fn receipt_v0_fields(content: ReceiptV0View) -> (nat, (Option<ExecutionResources>,
    (Seq<L2ToL1MessageView>, (nat, (u64, ExecutionStatusView))))) {
    (content.actual_fee, (content.execution_resources, (content.l2_to_l1_messages, (content.transaction_hash,
        (content.transaction_index, content.execution_status)))))
}

impl Encode for ReceiptV0 {
    type Content = ReceiptV0View;

    open spec fn content(&self) -> ReceiptV0View {
        self@
    }

    #[verifier::opaque]
    open spec fn valid(content: ReceiptV0View) -> bool {
        ReceiptV0Fields::valid(receipt_v0_fields(content))
    }

    #[verifier::opaque]
    open spec fn encoding(content: ReceiptV0View) -> Seq<u8> {
        ReceiptV0Fields::encoding(receipt_v0_fields(content))
    }

    fn encode(&self, out: &mut Vec<u8>) {
        proof {
            reveal(<ReceiptV0 as Encode>::valid);
            reveal(<ReceiptV0 as Encode>::encoding);
            lemma_contents_are_views(self.l2_to_l1_messages@);
        }
        (&self.actual_fee, (&self.execution_resources, (&self.l2_to_l1_messages, (&self.transaction_hash,
            (&self.transaction_index, &self.execution_status))))).encode(out);
    }
}

impl Decode for ReceiptV0 {
    #[verifier::opaque]
    open spec fn parse(s: Seq<u8>) -> Option<(ReceiptV0View, Seq<u8>)> {
        match ReceiptV0Fields::parse(s) {
            Some(((actual_fee, (execution_resources, (l2_to_l1_messages, (transaction_hash, (transaction_index,
                execution_status))))), rest)) => Some((ReceiptV0View { actual_fee, execution_resources,
                l2_to_l1_messages, transaction_hash, transaction_index, execution_status }, rest)),
            None => None,
        }
    }

    proof fn lemma_parse_encoding(content: ReceiptV0View, rest: Seq<u8>) {
        reveal(<ReceiptV0 as Encode>::valid);
        reveal(<ReceiptV0 as Encode>::encoding);
        reveal(<ReceiptV0 as Decode>::parse);
        ReceiptV0Fields::lemma_parse_encoding(receipt_v0_fields(content), rest);
    }

    fn decode(input: &[u8]) -> (r: Result<(ReceiptV0, &[u8]), Malformed>) {
        proof {
            reveal(<ReceiptV0 as Decode>::parse);
        }
        let (fields, rest) = match ReceiptV0Fields::decode(input) {
            Ok(read) => read,
            Err(e) => return Err(e),
        };
        let (actual_fee, (execution_resources, (l2_to_l1_messages, (transaction_hash, (transaction_index,
            execution_status))))) = fields;
        proof {
            lemma_contents_are_views(l2_to_l1_messages@);
        }
        Ok((ReceiptV0 { actual_fee, execution_resources, l2_to_l1_messages, transaction_hash, transaction_index,
            execution_status }, rest))
    }
}

impl Encode for Receipt {
    type Content = ReceiptV0View;

    open spec fn content(&self) -> ReceiptV0View {
        self@
    }

    open spec fn valid(content: ReceiptV0View) -> bool {
        ReceiptV0::valid(content)
    }

    open spec fn encoding(content: ReceiptV0View) -> Seq<u8> {
        varint(0) + ReceiptV0::encoding(content)
    }

    fn encode(&self, out: &mut Vec<u8>) {
        encode_integer(0, out);
        match self {
            Receipt::V0(receipt) => {
                receipt.encode(out);
            },
        }
        proof {
            let content = self@;
            lemma_append_assoc(old(out)@, varint(0), ReceiptV0::encoding(content));
        }
    }
}

impl Decode for Receipt {
    open spec fn parse(s: Seq<u8>) -> Option<(ReceiptV0View, Seq<u8>)> {
        match unvarint(s, 4) {
            Some((n, tail)) => if n == 0 {
                ReceiptV0::parse(tail)
            } else {
                None
            },
            None => None,
        }
    }

    proof fn lemma_parse_encoding(content: ReceiptV0View, rest: Seq<u8>) {
        lemma_pow256_values();
        lemma_append_assoc(varint(0), ReceiptV0::encoding(content), rest);
        lemma_unvarint(0, 4, ReceiptV0::encoding(content) + rest);
        ReceiptV0::lemma_parse_encoding(content, rest);
    }

    fn decode(input: &[u8]) -> (r: Result<(Receipt, &[u8]), Malformed>) {
        let (n, tail) = match decode_variant(input) {
            Ok(read) => read,
            Err(e) => return Err(e),
        };
        if n != 0 {
            return Err(Malformed);
        }
        match ReceiptV0::decode(tail) {
            Ok((payload, rest)) => {
                Ok((Receipt::V0(payload), rest))
            },
            Err(e) => Err(e),
        }
    }
}

/// The fields of [`BuiltinCounters`] are stored one after the other, in this order, and read from bytes
/// exactly where all of them can be read.
pub proof fn lemma_layout_of_builtin_counters(content: BuiltinCounters, s: Seq<u8>)
    ensures
        BuiltinCounters::encoding(content) == (
            u64::encoding(content.output) + (
            u64::encoding(content.pedersen) + (
            u64::encoding(content.range_check) + (
            u64::encoding(content.ecdsa) + (
            u64::encoding(content.bitwise) + (
            u64::encoding(content.ec_op) + (
            u64::encoding(content.keccak) + (
            u64::encoding(content.poseidon) + (
            u64::encoding(content.segment_arena)))))))))),
        match BuiltinCounters::parse(s) {
            Some((read, rest)) => BuiltinCountersFields::parse(s) == Some(((read.output, (read.pedersen,
                (read.range_check, (read.ecdsa, (read.bitwise, (read.ec_op, (read.keccak, (read.poseidon,
                read.segment_arena)))))))), rest)),
            None => BuiltinCountersFields::parse(s) is None,
        },
{
    reveal(<BuiltinCounters as Encode>::encoding);
    reveal(<BuiltinCounters as Decode>::parse);
}

/// The fields of [`ExecutionDataAvailability`] are stored one after the other, in this order, and read from bytes
/// exactly where all of them can be read.
pub proof fn lemma_layout_of_execution_data_availability(content: ExecutionDataAvailability, s: Seq<u8>)
    ensures
        ExecutionDataAvailability::encoding(content) == (
            <Option<u128> as Encode>::encoding(content.l1_gas) + (
            <Option<u128> as Encode>::encoding(content.l1_data_gas))),
        match ExecutionDataAvailability::parse(s) {
            Some((read, rest)) => ExecutionDataAvailabilityFields::parse(s) == Some(((read.l1_gas, read.l1_data_gas),
                rest)),
            None => ExecutionDataAvailabilityFields::parse(s) is None,
        },
{
    reveal(<ExecutionDataAvailability as Encode>::encoding);
    reveal(<ExecutionDataAvailability as Decode>::parse);
}

/// The fields of [`ExecutionResources`] are stored one after the other, in this order, and read from bytes
/// exactly where all of them can be read.
pub proof fn lemma_layout_of_execution_resources(content: ExecutionResources, s: Seq<u8>)
    ensures
        ExecutionResources::encoding(content) == (
            BuiltinCounters::encoding(content.builtins) + (
            u64::encoding(content.n_steps) + (
            u64::encoding(content.n_memory_holes) + (
            ExecutionDataAvailability::encoding(content.data_availability))))),
        match ExecutionResources::parse(s) {
            Some((read, rest)) => ExecutionResourcesFields::parse(s) == Some(((read.builtins, (read.n_steps,
                (read.n_memory_holes, read.data_availability))), rest)),
            None => ExecutionResourcesFields::parse(s) is None,
        },
{
    reveal(<ExecutionResources as Encode>::encoding);
    reveal(<ExecutionResources as Decode>::parse);
}

/// The fields of [`L2ToL1Message`] are stored one after the other, in this order, and read from bytes
/// exactly where all of them can be read.
pub proof fn lemma_layout_of_l2_to_l1_message(content: L2ToL1MessageView, s: Seq<u8>)
    ensures
        L2ToL1Message::encoding(content) == (
            MinimalFelt::encoding(content.from_address) + (
            <Vec<MinimalFelt> as Encode>::encoding(content.payload) + (
            EthereumAddress::encoding(content.to_address)))),
        match L2ToL1Message::parse(s) {
            Some((read, rest)) => L2ToL1MessageFields::parse(s) == Some(((read.from_address, (read.payload,
                read.to_address)), rest)),
            None => L2ToL1MessageFields::parse(s) is None,
        },
{
    reveal(<L2ToL1Message as Encode>::encoding);
    reveal(<L2ToL1Message as Decode>::parse);
}

/// The fields of [`ReceiptV0`] are stored one after the other, in this order, and read from bytes
/// exactly where all of them can be read.
pub proof fn lemma_layout_of_receipt_v0(content: ReceiptV0View, s: Seq<u8>)
    ensures
        ReceiptV0::encoding(content) == (
            MinimalFelt::encoding(content.actual_fee) + (
            <Option<ExecutionResources> as Encode>::encoding(content.execution_resources) + (
            <Vec<L2ToL1Message> as Encode>::encoding(content.l2_to_l1_messages) + (
            MinimalFelt::encoding(content.transaction_hash) + (
            TransactionIndex::encoding(content.transaction_index) + (
            ExecutionStatus::encoding(content.execution_status))))))),
        match ReceiptV0::parse(s) {
            Some((read, rest)) => ReceiptV0Fields::parse(s) == Some(((read.actual_fee, (read.execution_resources,
                (read.l2_to_l1_messages, (read.transaction_hash, (read.transaction_index, read.execution_status))))),
                rest)),
            None => ReceiptV0Fields::parse(s) is None,
        },
{
    reveal(<ReceiptV0 as Encode>::encoding);
    reveal(<ReceiptV0 as Decode>::parse);
}

/// A receipt is stored as the number of its version and then its fields, and how an execution ended
/// as the number of the outcome, with the reason where there is one. Other versions and outcomes are
/// refused.
pub proof fn lemma_layout_of_receipts(content: ReceiptV0View, reason: Seq<char>, s: Seq<u8>)
    ensures
        Receipt::encoding(content) == varint(0) + ReceiptV0::encoding(content),
        ExecutionStatus::encoding(ExecutionStatusView::Succeeded) == varint(0),
        ExecutionStatus::encoding(ExecutionStatusView::Reverted(reason)) == varint(1) + String::encoding(reason),
        unvarint(s, 4) is None || unvarint(s, 4)->Some_0.0 > 0 ==> Receipt::parse(s) is None,
        unvarint(s, 4) is None || unvarint(s, 4)->Some_0.0 > 1 ==> ExecutionStatus::parse(s) is None,
        unvarint(s, 4) matches Some((n, tail)) ==> {
            &&& n == 0 ==> Receipt::parse(s) == ReceiptV0::parse(tail)
            &&& n == 0 ==> ExecutionStatus::parse(s) == Some((ExecutionStatusView::Succeeded, tail))
            &&& n == 1 && String::parse(tail) is None ==> ExecutionStatus::parse(s) is None
        },
{
}

} // verus!
