//! Receipts.
use crate::common::{views, ContractAddress, EthereumAddress, Fee, L2ToL1MessagePayloadElem, TransactionHash,
    TransactionIndex};
use crate::felt::Felt;
use vstd::prelude::*;

verus! {

/// How often each builtin was used.
#[derive(Clone, Copy, Debug, PartialEq, Eq)]
pub struct BuiltinCounters {
    pub output: u64,
    pub pedersen: u64,
    pub range_check: u64,
    pub ecdsa: u64,
    pub bitwise: u64,
    pub ec_op: u64,
    pub keccak: u64,
    pub poseidon: u64,
    pub segment_arena: u64,
}

/// The gas that making data available took.
#[derive(Clone, Copy, Debug, PartialEq, Eq)]
pub struct ExecutionDataAvailability {
    pub l1_gas: u128,
    pub l1_data_gas: u128,
}

/// What an execution used.
#[derive(Clone, Copy, Debug, PartialEq, Eq)]
pub struct ExecutionResources {
    pub builtins: BuiltinCounters,
    pub n_steps: u64,
    pub n_memory_holes: u64,
    pub data_availability: ExecutionDataAvailability,
}

/// Nothing was used.
pub open spec fn no_resources() -> ExecutionResources {
    ExecutionResources {
        builtins: BuiltinCounters {
            output: 0,
            pedersen: 0,
            range_check: 0,
            ecdsa: 0,
            bitwise: 0,
            ec_op: 0,
            keccak: 0,
            poseidon: 0,
            segment_arena: 0,
        },
        n_steps: 0,
        n_memory_holes: 0,
        data_availability: ExecutionDataAvailability { l1_gas: 0, l1_data_gas: 0 },
    }
}

impl Default for ExecutionResources {
    fn default() -> (r: ExecutionResources)
        ensures
            r == no_resources(),
    {
        ExecutionResources {
            builtins: BuiltinCounters {
                output: 0,
                pedersen: 0,
                range_check: 0,
                ecdsa: 0,
                bitwise: 0,
                ec_op: 0,
                keccak: 0,
                poseidon: 0,
                segment_arena: 0,
            },
            n_steps: 0,
            n_memory_holes: 0,
            data_availability: ExecutionDataAvailability { l1_gas: 0, l1_data_gas: 0 },
        }
    }
}

/// A message to L1.
#[derive(Clone, Debug, PartialEq, Eq)]
pub struct L2ToL1Message {
    pub from_address: ContractAddress,
    pub payload: Vec<L2ToL1MessagePayloadElem>,
    pub to_address: EthereumAddress,
}

/// What a message to L1 says.
#[verifier::ext_equal]
pub struct L2ToL1MessageView {
    pub from_address: nat,
    pub payload: Seq<nat>,
    pub to_address: Seq<u8>,
}

impl View for L2ToL1Message {
    type V = L2ToL1MessageView;

    open spec fn view(&self) -> L2ToL1MessageView {
        L2ToL1MessageView {
            from_address: self.from_address@,
            payload: views(self.payload@),
            to_address: self.to_address.0@,
        }
    }
}

/// How an execution ended.
#[derive(Clone, Debug, PartialEq, Eq)]
pub enum ExecutionStatus {
    Succeeded,
    Reverted { reason: String },
}

/// How an execution ended, with the reason as text.
#[verifier::ext_equal]
pub enum ExecutionStatusView {
    Succeeded,
    Reverted(Seq<char>),
}

impl View for ExecutionStatus {
    type V = ExecutionStatusView;

    open spec fn view(&self) -> ExecutionStatusView {
        match self {
            ExecutionStatus::Succeeded => ExecutionStatusView::Succeeded,
            ExecutionStatus::Reverted { reason } => ExecutionStatusView::Reverted(reason@),
        }
    }
}

/// What came of a transaction.
#[derive(Clone, Debug, PartialEq, Eq)]
pub struct Receipt {
    pub actual_fee: Fee,
    pub execution_resources: ExecutionResources,
    pub l2_to_l1_messages: Vec<L2ToL1Message>,
    pub execution_status: ExecutionStatus,
    pub transaction_hash: TransactionHash,
    pub transaction_index: TransactionIndex,
}

/// What a receipt says.
#[verifier::ext_equal]
pub struct ReceiptView {
    pub actual_fee: nat,
    pub execution_resources: ExecutionResources,
    pub l2_to_l1_messages: Seq<L2ToL1MessageView>,
    pub execution_status: ExecutionStatusView,
    pub transaction_hash: nat,
    pub transaction_index: u64,
}

impl View for Receipt {
    type V = ReceiptView;

    open spec fn view(&self) -> ReceiptView {
        ReceiptView {
            actual_fee: self.actual_fee@,
            execution_resources: self.execution_resources,
            l2_to_l1_messages: views(self.l2_to_l1_messages@),
            execution_status: self.execution_status@,
            transaction_hash: self.transaction_hash@,
            transaction_index: self.transaction_index@,
        }
    }
}

impl Default for Receipt {
    /// The receipt of a transaction that did nothing.
    fn default() -> (r: Receipt)
        ensures
            r@ == (ReceiptView {
                actual_fee: 0,
                execution_resources: no_resources(),
                l2_to_l1_messages: Seq::empty(),
                execution_status: ExecutionStatusView::Succeeded,
                transaction_hash: 0,
                transaction_index: 0,
            }),
    {
        let r = Receipt {
            actual_fee: Fee(Felt::zero()),
            execution_resources: ExecutionResources::default(),
            l2_to_l1_messages: Vec::new(),
            execution_status: ExecutionStatus::Succeeded,
            transaction_hash: TransactionHash(Felt::zero()),
            transaction_index: TransactionIndex::new_or_panic(0),
        };
        assert(r@.l2_to_l1_messages =~= Seq::empty());
        r
    }
}

/// What [`L2ToL1Message`] says is what each of its parts says.
pub proof fn lemma_parts_of_l2_to_l1_message(value: L2ToL1Message)
    ensures
        value@.from_address == value.from_address@,
        value@.payload == views(value.payload@),
        value@.to_address == value.to_address.0@,
{
}

/// What [`Receipt`] says is what each of its parts says.
pub proof fn lemma_parts_of_receipt(value: Receipt)
    ensures
        value@.actual_fee == value.actual_fee@,
        value@.execution_resources == value.execution_resources,
        value@.l2_to_l1_messages == views(value.l2_to_l1_messages@),
        value@.execution_status == value.execution_status@,
        value@.transaction_hash == value.transaction_hash@,
        value@.transaction_index == value.transaction_index@,
{
}

/// An execution that was reverted says why.
pub proof fn lemma_execution_status(value: ExecutionStatus)
    ensures
        value is Succeeded ==> value@ is Succeeded,
        value matches ExecutionStatus::Reverted { reason } ==> value@ == ExecutionStatusView::Reverted(reason@),
{
}

} // verus!
