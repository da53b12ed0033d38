//! The rows of the `transactions` table, before they are serialised.
use crate::common::event::EventView;
use crate::common::receipt::{ExecutionStatusView, L2ToL1MessageView};
use crate::common::transaction as common;
use crate::common::transaction::{DeclareTransactionV0V1View, DeclareTransactionV2View, DeclareTransactionV3View,
    DeployTransactionView, DeployAccountTransactionV1View, DeployAccountTransactionV3View,
    InvokeTransactionV0View, InvokeTransactionV1View, InvokeTransactionV3View, L1HandlerTransactionView,
    TransactionVariantView, TransactionView};
use crate::common::{views, EthereumAddress, ResourceAmount, ResourcePricePerUnit, Tip, TransactionIndex};
use crate::felt::Felt;
use vstd::prelude::*;

verus! {

/// A field element that is stored without leading zeros.
#[derive(Clone, Copy, Debug, PartialEq, Eq)]
pub struct MinimalFelt(pub Felt);

impl View for MinimalFelt {
    type V = nat;

    open spec fn view(&self) -> nat {
        self.0@
    }
}

/// What an invoked entry point is.
#[derive(Clone, Copy, Debug, PartialEq, Eq)]
pub enum EntryPointType {
    External,
    L1Handler,
}

impl View for EntryPointType {
    type V = common::EntryPointType;

    open spec fn view(&self) -> common::EntryPointType {
        match self {
            EntryPointType::External => common::EntryPointType::External,
            EntryPointType::L1Handler => common::EntryPointType::L1Handler,
        }
    }
}

/// The view of an optional value.
pub open spec fn option_view<T: View>(value: Option<T>) -> Option<T::V> {
    match value {
        Some(v) => Some(v@),
        None => None,
    }
}

/// The events of a transaction.
#[derive(Clone, Debug, PartialEq, Eq)]
pub enum Events {
    V0 { events: Vec<Event> },
}

impl View for Events {
    type V = Seq<EventView>;

    open spec fn view(&self) -> Seq<EventView> {
        match self {
            Events::V0 { events } => views(events@),
        }
    }
}

/// An event.
#[derive(Clone, Debug, PartialEq, Eq)]
pub struct Event {
    pub data: Vec<MinimalFelt>,
    pub from_address: MinimalFelt,
    pub keys: Vec<MinimalFelt>,
}

impl View for Event {
    type V = EventView;

    open spec fn view(&self) -> EventView {
        EventView { data: views(self.data@), from_address: self.from_address@, keys: views(self.keys@) }
    }
}

/// What an execution used.
#[derive(Clone, Copy, Debug, PartialEq, Eq)]
pub struct ExecutionResources {
    pub builtins: BuiltinCounters,
    pub n_steps: u64,
    pub n_memory_holes: u64,
    pub data_availability: ExecutionDataAvailability,
}

/// The gas that making data available took, where it is known.
#[derive(Clone, Copy, Debug, PartialEq, Eq)]
pub struct ExecutionDataAvailability {
    pub l1_gas: Option<u128>,
    pub l1_data_gas: Option<u128>,
}

/// How often each builtin was used.
#[derive(Clone, Copy, Debug, PartialEq, Eq)]
pub struct BuiltinCounters {
    pub output: u64,
    pub pedersen: u64,
    pub range_check: u64,
    pub ecdsa: u64,
    pub bitwise: u64,
    pub ec_op: u64,
    pub keccak: u64,
    pub poseidon: u64,
    pub segment_arena: u64,
}

/// A message to L1.
#[derive(Clone, Debug, PartialEq, Eq)]
pub struct L2ToL1Message {
    pub from_address: MinimalFelt,
    pub payload: Vec<MinimalFelt>,
    pub to_address: EthereumAddress,
}

impl View for L2ToL1Message {
    type V = L2ToL1MessageView;

    open spec fn view(&self) -> L2ToL1MessageView {
        L2ToL1MessageView {
            from_address: self.from_address@,
            payload: views(self.payload@),
            to_address: self.to_address.0@,
        }
    }
}

/// How an execution ended.
#[derive(Clone, Debug, PartialEq, Eq)]
pub enum ExecutionStatus {
    Succeeded,
    Reverted { reason: String },
}

impl View for ExecutionStatus {
    type V = ExecutionStatusView;

    open spec fn view(&self) -> ExecutionStatusView {
        match self {
            ExecutionStatus::Succeeded => ExecutionStatusView::Succeeded,
            ExecutionStatus::Reverted { reason } => ExecutionStatusView::Reverted(reason@),
        }
    }
}

/// A receipt.
#[derive(Clone, Debug, PartialEq, Eq)]
pub enum Receipt {
    V0(ReceiptV0),
}

impl View for Receipt {
    type V = ReceiptV0View;

    open spec fn view(&self) -> ReceiptV0View {
        match self {
            Receipt::V0(receipt) => receipt@,
        }
    }
}

/// A receipt in its first stored form.
#[derive(Clone, Debug, PartialEq, Eq)]
pub struct ReceiptV0 {
    pub actual_fee: MinimalFelt,
    pub execution_resources: Option<ExecutionResources>,
    pub l2_to_l1_messages: Vec<L2ToL1Message>,
    pub transaction_hash: MinimalFelt,
    pub transaction_index: TransactionIndex,
    pub execution_status: ExecutionStatus,
}

/// What a stored receipt says.
#[verifier::ext_equal]
pub struct ReceiptV0View {
    pub actual_fee: nat,
    pub execution_resources: Option<ExecutionResources>,
    pub l2_to_l1_messages: Seq<L2ToL1MessageView>,
    pub transaction_hash: nat,
    pub transaction_index: u64,
    pub execution_status: ExecutionStatusView,
}

impl View for ReceiptV0 {
    type V = ReceiptV0View;

    open spec fn view(&self) -> ReceiptV0View {
        ReceiptV0View {
            actual_fee: self.actual_fee@,
            execution_resources: self.execution_resources,
            l2_to_l1_messages: views(self.l2_to_l1_messages@),
            transaction_hash: self.transaction_hash@,
            transaction_index: self.transaction_index@,
            execution_status: self.execution_status@,
        }
    }
}

/// Where data is made available.
#[derive(Clone, Copy, Debug, PartialEq, Eq)]
pub enum DataAvailabilityMode {
    L1,
    L2,
}

impl View for DataAvailabilityMode {
    type V = common::DataAvailabilityMode;

    open spec fn view(&self) -> common::DataAvailabilityMode {
        match self {
            DataAvailabilityMode::L1 => common::DataAvailabilityMode::L1,
            DataAvailabilityMode::L2 => common::DataAvailabilityMode::L2,
        }
    }
}

/// What a transaction may use.
#[derive(Clone, Copy, Debug, PartialEq, Eq)]
pub struct ResourceBounds {
    pub l1_gas: ResourceBound,
    pub l2_gas: ResourceBound,
}

impl View for ResourceBounds {
    type V = common::ResourceBounds;

    open spec fn view(&self) -> common::ResourceBounds {
        common::ResourceBounds { l1_gas: self.l1_gas@, l2_gas: self.l2_gas@ }
    }
}

/// How much of a resource a transaction may use, and at what price.
#[derive(Clone, Copy, Debug, PartialEq, Eq)]
pub struct ResourceBound {
    pub max_amount: ResourceAmount,
    pub max_price_per_unit: ResourcePricePerUnit,
}

impl View for ResourceBound {
    type V = common::ResourceBound;

    open spec fn view(&self) -> common::ResourceBound {
        common::ResourceBound { max_amount: self.max_amount, max_price_per_unit: self.max_price_per_unit }
    }
}

/// A transaction with what is known of its outcome.
#[derive(Clone, Debug, PartialEq, Eq)]
pub struct TransactionsRow {
    pub transaction: Transaction,
    pub receipt: Option<Receipt>,
    pub events: Option<Events>,
}

/// What a row says.
#[verifier::ext_equal]
pub struct TransactionsRowView {
    pub transaction: TransactionView,
    pub receipt: Option<ReceiptV0View>,
    pub events: Option<Seq<EventView>>,
}

impl View for TransactionsRow {
    type V = TransactionsRowView;

    open spec fn view(&self) -> TransactionsRowView {
        TransactionsRowView {
            transaction: self.transaction@,
            receipt: option_view(self.receipt),
            events: option_view(self.events),
        }
    }
}

/// A transaction.
#[derive(Clone, Debug, PartialEq, Eq)]
pub enum Transaction {
    V0 { hash: MinimalFelt, variant: TransactionVariantV0 },
}

impl View for Transaction {
    type V = TransactionView;

    open spec fn view(&self) -> TransactionView {
        match self {
            Transaction::V0 { hash, variant } => TransactionView { hash: hash@, variant: variant@ },
        }
    }
}

/// The kinds of transactions, in their first stored form.
#[derive(Clone, Debug, PartialEq, Eq)]
pub enum TransactionVariantV0 {
    DeclareV0(DeclareTransactionV0V1),
    DeclareV1(DeclareTransactionV0V1),
    DeclareV2(DeclareTransactionV2),
    DeclareV3(DeclareTransactionV3),
    Deploy(DeployTransaction),
    DeployAccountV1(DeployAccountTransactionV1),
    DeployAccountV3(DeployAccountTransactionV3),
    InvokeV0(InvokeTransactionV0),
    InvokeV1(InvokeTransactionV1),
    InvokeV3(InvokeTransactionV3),
    L1HandlerV0(L1HandlerTransactionV0),
}

impl View for TransactionVariantV0 {
    type V = TransactionVariantView;

    open spec fn view(&self) -> TransactionVariantView {
        match self {
            TransactionVariantV0::DeclareV0(tx) => TransactionVariantView::DeclareV0(tx@),
            TransactionVariantV0::DeclareV1(tx) => TransactionVariantView::DeclareV1(tx@),
            TransactionVariantV0::DeclareV2(tx) => TransactionVariantView::DeclareV2(tx@),
            TransactionVariantV0::DeclareV3(tx) => TransactionVariantView::DeclareV3(tx@),
            TransactionVariantV0::Deploy(tx) => TransactionVariantView::Deploy(tx@),
            TransactionVariantV0::DeployAccountV1(tx) => TransactionVariantView::DeployAccountV1(tx@),
            TransactionVariantV0::DeployAccountV3(tx) => TransactionVariantView::DeployAccountV3(tx@),
            TransactionVariantV0::InvokeV0(tx) => TransactionVariantView::InvokeV0(tx@),
            TransactionVariantV0::InvokeV1(tx) => TransactionVariantView::InvokeV1(tx@),
            TransactionVariantV0::InvokeV3(tx) => TransactionVariantView::InvokeV3(tx@),
            TransactionVariantV0::L1HandlerV0(tx) => TransactionVariantView::L1Handler(tx@),
        }
    }
}

/// A declare transaction of version 0 or 1.
#[derive(Clone, Debug, PartialEq, Eq)]
pub struct DeclareTransactionV0V1 {
    pub class_hash: MinimalFelt,
    pub max_fee: MinimalFelt,
    pub nonce: MinimalFelt,
    pub signature: Vec<MinimalFelt>,
    pub sender_address: MinimalFelt,
}

impl View for DeclareTransactionV0V1 {
    type V = DeclareTransactionV0V1View;

    open spec fn view(&self) -> DeclareTransactionV0V1View {
        DeclareTransactionV0V1View {
            class_hash: self.class_hash@,
            max_fee: self.max_fee@,
            nonce: self.nonce@,
            signature: views(self.signature@),
            sender_address: self.sender_address@,
        }
    }
}

/// A declare transaction of version 2.
#[derive(Clone, Debug, PartialEq, Eq)]
pub struct DeclareTransactionV2 {
    pub class_hash: MinimalFelt,
    pub max_fee: MinimalFelt,
    pub nonce: MinimalFelt,
    pub signature: Vec<MinimalFelt>,
    pub sender_address: MinimalFelt,
    pub compiled_class_hash: MinimalFelt,
}

impl View for DeclareTransactionV2 {
    type V = DeclareTransactionV2View;

    open spec fn view(&self) -> DeclareTransactionV2View {
        DeclareTransactionV2View {
            class_hash: self.class_hash@,
            max_fee: self.max_fee@,
            nonce: self.nonce@,
            signature: views(self.signature@),
            sender_address: self.sender_address@,
            compiled_class_hash: self.compiled_class_hash@,
        }
    }
}

/// A declare transaction of version 3.
#[derive(Clone, Debug, PartialEq, Eq)]
pub struct DeclareTransactionV3 {
    pub class_hash: MinimalFelt,
    pub nonce: MinimalFelt,
    pub nonce_data_availability_mode: DataAvailabilityMode,
    pub fee_data_availability_mode: DataAvailabilityMode,
    pub resource_bounds: ResourceBounds,
    pub tip: Tip,
    pub paymaster_data: Vec<MinimalFelt>,
    pub signature: Vec<MinimalFelt>,
    pub account_deployment_data: Vec<MinimalFelt>,
    pub sender_address: MinimalFelt,
    pub compiled_class_hash: MinimalFelt,
}

impl View for DeclareTransactionV3 {
    type V = DeclareTransactionV3View;

    open spec fn view(&self) -> DeclareTransactionV3View {
        DeclareTransactionV3View {
            class_hash: self.class_hash@,
            nonce: self.nonce@,
            nonce_data_availability_mode: self.nonce_data_availability_mode@,
            fee_data_availability_mode: self.fee_data_availability_mode@,
            resource_bounds: self.resource_bounds@,
            tip: self.tip,
            paymaster_data: views(self.paymaster_data@),
            signature: views(self.signature@),
            account_deployment_data: views(self.account_deployment_data@),
            sender_address: self.sender_address@,
            compiled_class_hash: self.compiled_class_hash@,
        }
    }
}

/// A deploy transaction.
#[derive(Clone, Debug, PartialEq, Eq)]
pub struct DeployTransaction {
    pub contract_address: MinimalFelt,
    pub version: MinimalFelt,
    pub contract_address_salt: MinimalFelt,
    pub class_hash: MinimalFelt,
    pub constructor_calldata: Vec<MinimalFelt>,
}

impl View for DeployTransaction {
    type V = DeployTransactionView;

    open spec fn view(&self) -> DeployTransactionView {
        DeployTransactionView {
            contract_address: self.contract_address@,
            version: self.version@,
            contract_address_salt: self.contract_address_salt@,
            class_hash: self.class_hash@,
            constructor_calldata: views(self.constructor_calldata@),
        }
    }
}

/// A deploy account transaction of version 1.
#[derive(Clone, Debug, PartialEq, Eq)]
pub struct DeployAccountTransactionV1 {
    pub contract_address: MinimalFelt,
    pub max_fee: MinimalFelt,
    pub signature: Vec<MinimalFelt>,
    pub nonce: MinimalFelt,
    pub contract_address_salt: MinimalFelt,
    pub constructor_calldata: Vec<MinimalFelt>,
    pub class_hash: MinimalFelt,
}

impl View for DeployAccountTransactionV1 {
    type V = DeployAccountTransactionV1View;

    open spec fn view(&self) -> DeployAccountTransactionV1View {
        DeployAccountTransactionV1View {
            contract_address: self.contract_address@,
            max_fee: self.max_fee@,
            signature: views(self.signature@),
            nonce: self.nonce@,
            contract_address_salt: self.contract_address_salt@,
            constructor_calldata: views(self.constructor_calldata@),
            class_hash: self.class_hash@,
        }
    }
}

/// A deploy account transaction of version 3.
#[derive(Clone, Debug, PartialEq, Eq)]
pub struct DeployAccountTransactionV3 {
    pub sender_address: MinimalFelt,
    pub signature: Vec<MinimalFelt>,
    pub nonce: MinimalFelt,
    pub nonce_data_availability_mode: DataAvailabilityMode,
    pub fee_data_availability_mode: DataAvailabilityMode,
    pub resource_bounds: ResourceBounds,
    pub tip: Tip,
    pub paymaster_data: Vec<MinimalFelt>,
    pub contract_address_salt: MinimalFelt,
    pub constructor_calldata: Vec<MinimalFelt>,
    pub class_hash: MinimalFelt,
}

impl View for DeployAccountTransactionV3 {
    type V = DeployAccountTransactionV3View;

    open spec fn view(&self) -> DeployAccountTransactionV3View {
        DeployAccountTransactionV3View {
            contract_address: self.sender_address@,
            signature: views(self.signature@),
            nonce: self.nonce@,
            nonce_data_availability_mode: self.nonce_data_availability_mode@,
            fee_data_availability_mode: self.fee_data_availability_mode@,
            resource_bounds: self.resource_bounds@,
            tip: self.tip,
            paymaster_data: views(self.paymaster_data@),
            contract_address_salt: self.contract_address_salt@,
            constructor_calldata: views(self.constructor_calldata@),
            class_hash: self.class_hash@,
        }
    }
}

/// An invoke transaction of version 0.
#[derive(Clone, Debug, PartialEq, Eq)]
pub struct InvokeTransactionV0 {
    pub calldata: Vec<MinimalFelt>,
    pub sender_address: MinimalFelt,
    pub entry_point_selector: MinimalFelt,
    pub entry_point_type: Option<EntryPointType>,
    pub max_fee: MinimalFelt,
    pub signature: Vec<MinimalFelt>,
}

impl View for InvokeTransactionV0 {
    type V = InvokeTransactionV0View;

    open spec fn view(&self) -> InvokeTransactionV0View {
        InvokeTransactionV0View {
            calldata: views(self.calldata@),
            sender_address: self.sender_address@,
            entry_point_selector: self.entry_point_selector@,
            entry_point_type: option_view(self.entry_point_type),
            max_fee: self.max_fee@,
            signature: views(self.signature@),
        }
    }
}

/// An invoke transaction of version 1.
#[derive(Clone, Debug, PartialEq, Eq)]
pub struct InvokeTransactionV1 {
    pub calldata: Vec<MinimalFelt>,
    pub sender_address: MinimalFelt,
    pub max_fee: MinimalFelt,
    pub signature: Vec<MinimalFelt>,
    pub nonce: MinimalFelt,
}

impl View for InvokeTransactionV1 {
    type V = InvokeTransactionV1View;

    open spec fn view(&self) -> InvokeTransactionV1View {
        InvokeTransactionV1View {
            calldata: views(self.calldata@),
            sender_address: self.sender_address@,
            max_fee: self.max_fee@,
            signature: views(self.signature@),
            nonce: self.nonce@,
        }
    }
}

/// An invoke transaction of version 3.
#[derive(Clone, Debug, PartialEq, Eq)]
pub struct InvokeTransactionV3 {
    pub signature: Vec<MinimalFelt>,
    pub nonce: MinimalFelt,
    pub nonce_data_availability_mode: DataAvailabilityMode,
    pub fee_data_availability_mode: DataAvailabilityMode,
    pub resource_bounds: ResourceBounds,
    pub tip: Tip,
    pub paymaster_data: Vec<MinimalFelt>,
    pub account_deployment_data: Vec<MinimalFelt>,
    pub calldata: Vec<MinimalFelt>,
    pub sender_address: MinimalFelt,
}

impl View for InvokeTransactionV3 {
    type V = InvokeTransactionV3View;

    open spec fn view(&self) -> InvokeTransactionV3View {
        InvokeTransactionV3View {
            signature: views(self.signature@),
            nonce: self.nonce@,
            nonce_data_availability_mode: self.nonce_data_availability_mode@,
            fee_data_availability_mode: self.fee_data_availability_mode@,
            resource_bounds: self.resource_bounds@,
            tip: self.tip,
            paymaster_data: views(self.paymaster_data@),
            account_deployment_data: views(self.account_deployment_data@),
            calldata: views(self.calldata@),
            sender_address: self.sender_address@,
        }
    }
}

/// A transaction that handles a message from L1.
#[derive(Clone, Debug, PartialEq, Eq)]
pub struct L1HandlerTransactionV0 {
    pub contract_address: MinimalFelt,
    pub entry_point_selector: MinimalFelt,
    pub nonce: MinimalFelt,
    pub calldata: Vec<MinimalFelt>,
}

impl View for L1HandlerTransactionV0 {
    type V = L1HandlerTransactionView;

    open spec fn view(&self) -> L1HandlerTransactionView {
        L1HandlerTransactionView {
            contract_address: self.contract_address@,
            entry_point_selector: self.entry_point_selector@,
            nonce: self.nonce@,
            calldata: views(self.calldata@),
        }
    }
}

/// What [`Event`] says is what each of its parts says.
pub proof fn lemma_parts_of_event(value: Event)
    ensures
        value@.data == views(value.data@),
        value@.from_address == value.from_address@,
        value@.keys == views(value.keys@),
{
}

/// What [`L2ToL1Message`] says is what each of its parts says.
pub proof fn lemma_parts_of_l2_to_l1_message(value: L2ToL1Message)
    ensures
        value@.from_address == value.from_address@,
        value@.payload == views(value.payload@),
        value@.to_address == value.to_address.0@,
{
}

/// What [`ReceiptV0`] says is what each of its parts says.
pub proof fn lemma_parts_of_receipt_v0(value: ReceiptV0)
    ensures
        value@.actual_fee == value.actual_fee@,
        value@.execution_resources == value.execution_resources,
        value@.l2_to_l1_messages == views(value.l2_to_l1_messages@),
        value@.transaction_hash == value.transaction_hash@,
        value@.transaction_index == value.transaction_index@,
        value@.execution_status == value.execution_status@,
{
}

/// What [`ResourceBounds`] says is what each of its parts says.
pub proof fn lemma_parts_of_resource_bounds(value: ResourceBounds)
    ensures
        value@.l1_gas == value.l1_gas@,
        value@.l2_gas == value.l2_gas@,
{
}

/// What [`ResourceBound`] says is what each of its parts says.
pub proof fn lemma_parts_of_resource_bound(value: ResourceBound)
    ensures
        value@.max_amount == value.max_amount,
        value@.max_price_per_unit == value.max_price_per_unit,
{
}

/// What [`TransactionsRow`] says is what each of its parts says.
pub proof fn lemma_parts_of_transactions_row(value: TransactionsRow)
    ensures
        value@.transaction == value.transaction@,
        value@.receipt == option_view(value.receipt),
        value@.events == option_view(value.events),
{
}

/// What [`DeclareTransactionV0V1`] says is what each of its parts says.
pub proof fn lemma_parts_of_declare_transaction_v0_v1(value: DeclareTransactionV0V1)
    ensures
        value@.class_hash == value.class_hash@,
        value@.max_fee == value.max_fee@,
        value@.nonce == value.nonce@,
        value@.signature == views(value.signature@),
        value@.sender_address == value.sender_address@,
{
}

/// What [`DeclareTransactionV2`] says is what each of its parts says.
pub proof fn lemma_parts_of_declare_transaction_v2(value: DeclareTransactionV2)
    ensures
        value@.class_hash == value.class_hash@,
        value@.max_fee == value.max_fee@,
        value@.nonce == value.nonce@,
        value@.signature == views(value.signature@),
        value@.sender_address == value.sender_address@,
        value@.compiled_class_hash == value.compiled_class_hash@,
{
}

/// What [`DeclareTransactionV3`] says is what each of its parts says.
pub proof fn lemma_parts_of_declare_transaction_v3(value: DeclareTransactionV3)
    ensures
        value@.class_hash == value.class_hash@,
        value@.nonce == value.nonce@,
        value@.nonce_data_availability_mode == value.nonce_data_availability_mode@,
        value@.fee_data_availability_mode == value.fee_data_availability_mode@,
        value@.resource_bounds == value.resource_bounds@,
        value@.tip == value.tip,
        value@.paymaster_data == views(value.paymaster_data@),
        value@.signature == views(value.signature@),
        value@.account_deployment_data == views(value.account_deployment_data@),
        value@.sender_address == value.sender_address@,
        value@.compiled_class_hash == value.compiled_class_hash@,
{
}

/// What [`DeployTransaction`] says is what each of its parts says.
pub proof fn lemma_parts_of_deploy_transaction(value: DeployTransaction)
    ensures
        value@.contract_address == value.contract_address@,
        value@.version == value.version@,
        value@.contract_address_salt == value.contract_address_salt@,
        value@.class_hash == value.class_hash@,
        value@.constructor_calldata == views(value.constructor_calldata@),
{
}

/// What [`DeployAccountTransactionV1`] says is what each of its parts says.
pub proof fn lemma_parts_of_deploy_account_transaction_v1(value: DeployAccountTransactionV1)
    ensures
        value@.contract_address == value.contract_address@,
        value@.max_fee == value.max_fee@,
        value@.signature == views(value.signature@),
        value@.nonce == value.nonce@,
        value@.contract_address_salt == value.contract_address_salt@,
        value@.constructor_calldata == views(value.constructor_calldata@),
        value@.class_hash == value.class_hash@,
{
}

/// What [`DeployAccountTransactionV3`] says is what each of its parts says.
pub proof fn lemma_parts_of_deploy_account_transaction_v3(value: DeployAccountTransactionV3)
    ensures
        value@.contract_address == value.sender_address@,
        value@.signature == views(value.signature@),
        value@.nonce == value.nonce@,
        value@.nonce_data_availability_mode == value.nonce_data_availability_mode@,
        value@.fee_data_availability_mode == value.fee_data_availability_mode@,
        value@.resource_bounds == value.resource_bounds@,
        value@.tip == value.tip,
        value@.paymaster_data == views(value.paymaster_data@),
        value@.contract_address_salt == value.contract_address_salt@,
        value@.constructor_calldata == views(value.constructor_calldata@),
        value@.class_hash == value.class_hash@,
{
}

/// What [`InvokeTransactionV0`] says is what each of its parts says.
pub proof fn lemma_parts_of_invoke_transaction_v0(value: InvokeTransactionV0)
    ensures
        value@.calldata == views(value.calldata@),
        value@.sender_address == value.sender_address@,
        value@.entry_point_selector == value.entry_point_selector@,
        value@.entry_point_type == option_view(value.entry_point_type),
        value@.max_fee == value.max_fee@,
        value@.signature == views(value.signature@),
{
}

/// What [`InvokeTransactionV1`] says is what each of its parts says.
pub proof fn lemma_parts_of_invoke_transaction_v1(value: InvokeTransactionV1)
    ensures
        value@.calldata == views(value.calldata@),
        value@.sender_address == value.sender_address@,
        value@.max_fee == value.max_fee@,
        value@.signature == views(value.signature@),
        value@.nonce == value.nonce@,
{
}

/// What [`InvokeTransactionV3`] says is what each of its parts says.
pub proof fn lemma_parts_of_invoke_transaction_v3(value: InvokeTransactionV3)
    ensures
        value@.signature == views(value.signature@),
        value@.nonce == value.nonce@,
        value@.nonce_data_availability_mode == value.nonce_data_availability_mode@,
        value@.fee_data_availability_mode == value.fee_data_availability_mode@,
        value@.resource_bounds == value.resource_bounds@,
        value@.tip == value.tip,
        value@.paymaster_data == views(value.paymaster_data@),
        value@.account_deployment_data == views(value.account_deployment_data@),
        value@.calldata == views(value.calldata@),
        value@.sender_address == value.sender_address@,
{
}

/// What [`L1HandlerTransactionV0`] says is what each of its parts says.
pub proof fn lemma_parts_of_l1_handler_transaction_v0(value: L1HandlerTransactionV0)
    ensures
        value@.contract_address == value.contract_address@,
        value@.entry_point_selector == value.entry_point_selector@,
        value@.nonce == value.nonce@,
        value@.calldata == views(value.calldata@),
{
}

/// A stored transaction of each kind says that it is of this kind.
pub proof fn lemma_kinds_of_stored_transactions(value: TransactionVariantV0, transaction: Transaction)
    ensures
        match value {
            TransactionVariantV0::DeclareV0(tx) => value@ == TransactionVariantView::DeclareV0(tx@),
            TransactionVariantV0::DeclareV1(tx) => value@ == TransactionVariantView::DeclareV1(tx@),
            TransactionVariantV0::DeclareV2(tx) => value@ == TransactionVariantView::DeclareV2(tx@),
            TransactionVariantV0::DeclareV3(tx) => value@ == TransactionVariantView::DeclareV3(tx@),
            TransactionVariantV0::Deploy(tx) => value@ == TransactionVariantView::Deploy(tx@),
            TransactionVariantV0::DeployAccountV1(tx) => value@ == TransactionVariantView::DeployAccountV1(tx@),
            TransactionVariantV0::DeployAccountV3(tx) => value@ == TransactionVariantView::DeployAccountV3(tx@),
            TransactionVariantV0::InvokeV0(tx) => value@ == TransactionVariantView::InvokeV0(tx@),
            TransactionVariantV0::InvokeV1(tx) => value@ == TransactionVariantView::InvokeV1(tx@),
            TransactionVariantV0::InvokeV3(tx) => value@ == TransactionVariantView::InvokeV3(tx@),
            TransactionVariantV0::L1HandlerV0(tx) => value@ == TransactionVariantView::L1Handler(tx@),
        },
        transaction matches Transaction::V0 { hash, variant } && transaction@.hash == hash@ && transaction@.variant
            == variant@,
{
}

/// The stored forms of the small choices and of versioned values say what is in them.
pub proof fn lemma_choices(
    felt: MinimalFelt,
    entry_point: EntryPointType,
    mode: DataAvailabilityMode,
    status: ExecutionStatus,
    receipt: Receipt,
    events: Events,
)
    ensures
        felt@ == felt.0@,
        entry_point@ is External <==> entry_point is External,
        mode@ is L1 <==> mode is L1,
        status is Succeeded ==> status@ is Succeeded,
        status matches ExecutionStatus::Reverted { reason } ==> status@ == ExecutionStatusView::Reverted(reason@),
        receipt matches Receipt::V0(v0) && receipt@ == v0@,
        events matches Events::V0 { events: list } && events@ == views(list@),
{
}

/// The view of an optional value is that of the value, where there is one.
pub proof fn lemma_option_view<T: View>(value: Option<T>)
    ensures
        match value {
            Some(v) => option_view(value) == Some(v@),
            None => option_view(value) is None,
        },
{
}

} // verus!
