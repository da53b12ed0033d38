//! Transactions.
use crate::common::{views, AccountDeploymentDataElem, CallParam, CasmHash, ClassHash, ConstructorParam,
    ContractAddress, ContractAddressSalt, EntryPoint, Fee, PaymasterDataElem, TransactionNonce,
    TransactionSignatureElem, TransactionVersion, ResourceAmount, ResourcePricePerUnit, Tip, TransactionHash};
use vstd::prelude::*;

verus! {

/// What an invoked entry point is.
#[derive(Clone, Copy, Debug, PartialEq, Eq)]
pub enum EntryPointType {
    External,
    L1Handler,
}

/// Where data is made available.
#[derive(Clone, Copy, Debug, PartialEq, Eq)]
pub enum DataAvailabilityMode {
    L1,
    L2,
}

/// How much of a resource a transaction may use, and at what price.
#[derive(Clone, Copy, Debug, PartialEq, Eq)]
pub struct ResourceBound {
    pub max_amount: ResourceAmount,
    pub max_price_per_unit: ResourcePricePerUnit,
}

/// What a transaction may use.
#[derive(Clone, Copy, Debug, PartialEq, Eq)]
pub struct ResourceBounds {
    pub l1_gas: ResourceBound,
    pub l2_gas: ResourceBound,
}

/// A declare transaction of version 0 or 1.
#[derive(Clone, Debug, PartialEq, Eq)]
pub struct DeclareTransactionV0V1 {
    pub class_hash: ClassHash,
    pub max_fee: Fee,
    pub nonce: TransactionNonce,
    pub signature: Vec<TransactionSignatureElem>,
    pub sender_address: ContractAddress,
}

/// What a declare transaction of version 0 or 1 says.
#[verifier::ext_equal]
pub struct DeclareTransactionV0V1View {
    pub class_hash: nat,
    pub max_fee: nat,
    pub nonce: nat,
    pub signature: Seq<nat>,
    pub sender_address: nat,
}

impl View for DeclareTransactionV0V1 {
    type V = DeclareTransactionV0V1View;

    open spec fn view(&self) -> DeclareTransactionV0V1View {
        DeclareTransactionV0V1View {
            class_hash: self.class_hash@,
            max_fee: self.max_fee@,
            nonce: self.nonce@,
            signature: views(self.signature@),
            sender_address: self.sender_address@,
        }
    }
}

/// A declare transaction of version 2.
#[derive(Clone, Debug, PartialEq, Eq)]
pub struct DeclareTransactionV2 {
    pub class_hash: ClassHash,
    pub max_fee: Fee,
    pub nonce: TransactionNonce,
    pub signature: Vec<TransactionSignatureElem>,
    pub sender_address: ContractAddress,
    pub compiled_class_hash: CasmHash,
}

/// What a declare transaction of version 2 says.
#[verifier::ext_equal]
pub struct DeclareTransactionV2View {
    pub class_hash: nat,
    pub max_fee: nat,
    pub nonce: nat,
    pub signature: Seq<nat>,
    pub sender_address: nat,
    pub compiled_class_hash: nat,
}

impl View for DeclareTransactionV2 {
    type V = DeclareTransactionV2View;

    open spec fn view(&self) -> DeclareTransactionV2View {
        DeclareTransactionV2View {
            class_hash: self.class_hash@,
            max_fee: self.max_fee@,
            nonce: self.nonce@,
            signature: views(self.signature@),
            sender_address: self.sender_address@,
            compiled_class_hash: self.compiled_class_hash@,
        }
    }
}

/// A declare transaction of version 3.
#[derive(Clone, Debug, PartialEq, Eq)]
pub struct DeclareTransactionV3 {
    pub class_hash: ClassHash,
    pub nonce: TransactionNonce,
    pub nonce_data_availability_mode: DataAvailabilityMode,
    pub fee_data_availability_mode: DataAvailabilityMode,
    pub resource_bounds: ResourceBounds,
    pub tip: Tip,
    pub paymaster_data: Vec<PaymasterDataElem>,
    pub signature: Vec<TransactionSignatureElem>,
    pub account_deployment_data: Vec<AccountDeploymentDataElem>,
    pub sender_address: ContractAddress,
    pub compiled_class_hash: CasmHash,
}

/// What a declare transaction of version 3 says.
#[verifier::ext_equal]
pub struct DeclareTransactionV3View {
    pub class_hash: nat,
    pub nonce: nat,
    pub nonce_data_availability_mode: DataAvailabilityMode,
    pub fee_data_availability_mode: DataAvailabilityMode,
    pub resource_bounds: ResourceBounds,
    pub tip: Tip,
    pub paymaster_data: Seq<nat>,
    pub signature: Seq<nat>,
    pub account_deployment_data: Seq<nat>,
    pub sender_address: nat,
    pub compiled_class_hash: nat,
}

impl View for DeclareTransactionV3 {
    type V = DeclareTransactionV3View;

    open spec fn view(&self) -> DeclareTransactionV3View {
        DeclareTransactionV3View {
            class_hash: self.class_hash@,
            nonce: self.nonce@,
            nonce_data_availability_mode: self.nonce_data_availability_mode,
            fee_data_availability_mode: self.fee_data_availability_mode,
            resource_bounds: self.resource_bounds,
            tip: self.tip,
            paymaster_data: views(self.paymaster_data@),
            signature: views(self.signature@),
            account_deployment_data: views(self.account_deployment_data@),
            sender_address: self.sender_address@,
            compiled_class_hash: self.compiled_class_hash@,
        }
    }
}

/// A deploy transaction.
#[derive(Clone, Debug, PartialEq, Eq)]
pub struct DeployTransaction {
    pub contract_address: ContractAddress,
    pub version: TransactionVersion,
    pub contract_address_salt: ContractAddressSalt,
    pub class_hash: ClassHash,
    pub constructor_calldata: Vec<ConstructorParam>,
}

/// What a deploy transaction says.
#[verifier::ext_equal]
pub struct DeployTransactionView {
    pub contract_address: nat,
    pub version: nat,
    pub contract_address_salt: nat,
    pub class_hash: nat,
    pub constructor_calldata: Seq<nat>,
}

impl View for DeployTransaction {
    type V = DeployTransactionView;

    open spec fn view(&self) -> DeployTransactionView {
        DeployTransactionView {
            contract_address: self.contract_address@,
            version: self.version@,
            contract_address_salt: self.contract_address_salt@,
            class_hash: self.class_hash@,
            constructor_calldata: views(self.constructor_calldata@),
        }
    }
}

/// A deploy account transaction of version 1.
#[derive(Clone, Debug, PartialEq, Eq)]
pub struct DeployAccountTransactionV1 {
    pub contract_address: ContractAddress,
    pub max_fee: Fee,
    pub signature: Vec<TransactionSignatureElem>,
    pub nonce: TransactionNonce,
    pub contract_address_salt: ContractAddressSalt,
    pub constructor_calldata: Vec<CallParam>,
    pub class_hash: ClassHash,
}

/// What a deploy account transaction of version 1 says.
#[verifier::ext_equal]
pub struct DeployAccountTransactionV1View {
    pub contract_address: nat,
    pub max_fee: nat,
    pub signature: Seq<nat>,
    pub nonce: nat,
    pub contract_address_salt: nat,
    pub constructor_calldata: Seq<nat>,
    pub class_hash: nat,
}

impl View for DeployAccountTransactionV1 {
    type V = DeployAccountTransactionV1View;

    open spec fn view(&self) -> DeployAccountTransactionV1View {
        DeployAccountTransactionV1View {
            contract_address: self.contract_address@,
            max_fee: self.max_fee@,
            signature: views(self.signature@),
            nonce: self.nonce@,
            contract_address_salt: self.contract_address_salt@,
            constructor_calldata: views(self.constructor_calldata@),
            class_hash: self.class_hash@,
        }
    }
}

/// A deploy account transaction of version 3.
#[derive(Clone, Debug, PartialEq, Eq)]
pub struct DeployAccountTransactionV3 {
    pub contract_address: ContractAddress,
    pub signature: Vec<TransactionSignatureElem>,
    pub nonce: TransactionNonce,
    pub nonce_data_availability_mode: DataAvailabilityMode,
    pub fee_data_availability_mode: DataAvailabilityMode,
    pub resource_bounds: ResourceBounds,
    pub tip: Tip,
    pub paymaster_data: Vec<PaymasterDataElem>,
    pub contract_address_salt: ContractAddressSalt,
    pub constructor_calldata: Vec<CallParam>,
    pub class_hash: ClassHash,
}

/// What a deploy account transaction of version 3 says.
#[verifier::ext_equal]
pub struct DeployAccountTransactionV3View {
    pub contract_address: nat,
    pub signature: Seq<nat>,
    pub nonce: nat,
    pub nonce_data_availability_mode: DataAvailabilityMode,
    pub fee_data_availability_mode: DataAvailabilityMode,
    pub resource_bounds: ResourceBounds,
    pub tip: Tip,
    pub paymaster_data: Seq<nat>,
    pub contract_address_salt: nat,
    pub constructor_calldata: Seq<nat>,
    pub class_hash: nat,
}

impl View for DeployAccountTransactionV3 {
    type V = DeployAccountTransactionV3View;

    open spec fn view(&self) -> DeployAccountTransactionV3View {
        DeployAccountTransactionV3View {
            contract_address: self.contract_address@,
            signature: views(self.signature@),
            nonce: self.nonce@,
            nonce_data_availability_mode: self.nonce_data_availability_mode,
            fee_data_availability_mode: self.fee_data_availability_mode,
            resource_bounds: self.resource_bounds,
            tip: self.tip,
            paymaster_data: views(self.paymaster_data@),
            contract_address_salt: self.contract_address_salt@,
            constructor_calldata: views(self.constructor_calldata@),
            class_hash: self.class_hash@,
        }
    }
}

/// An invoke transaction of version 0.
#[derive(Clone, Debug, PartialEq, Eq)]
pub struct InvokeTransactionV0 {
    pub calldata: Vec<CallParam>,
    pub sender_address: ContractAddress,
    pub entry_point_selector: EntryPoint,
    pub entry_point_type: Option<EntryPointType>,
    pub max_fee: Fee,
    pub signature: Vec<TransactionSignatureElem>,
}

/// What an invoke transaction of version 0 says.
#[verifier::ext_equal]
pub struct InvokeTransactionV0View {
    pub calldata: Seq<nat>,
    pub sender_address: nat,
    pub entry_point_selector: nat,
    pub entry_point_type: Option<EntryPointType>,
    pub max_fee: nat,
    pub signature: Seq<nat>,
}

impl View for InvokeTransactionV0 {
    type V = InvokeTransactionV0View;

    open spec fn view(&self) -> InvokeTransactionV0View {
        InvokeTransactionV0View {
            calldata: views(self.calldata@),
            sender_address: self.sender_address@,
            entry_point_selector: self.entry_point_selector@,
            entry_point_type: self.entry_point_type,
            max_fee: self.max_fee@,
            signature: views(self.signature@),
        }
    }
}

/// An invoke transaction of version 1.
#[derive(Clone, Debug, PartialEq, Eq)]
pub struct InvokeTransactionV1 {
    pub calldata: Vec<CallParam>,
    pub sender_address: ContractAddress,
    pub max_fee: Fee,
    pub signature: Vec<TransactionSignatureElem>,
    pub nonce: TransactionNonce,
}

/// What an invoke transaction of version 1 says.
#[verifier::ext_equal]
pub struct InvokeTransactionV1View {
    pub calldata: Seq<nat>,
    pub sender_address: nat,
    pub max_fee: nat,
    pub signature: Seq<nat>,
    pub nonce: nat,
}

impl View for InvokeTransactionV1 {
    type V = InvokeTransactionV1View;

    open spec fn view(&self) -> InvokeTransactionV1View {
        InvokeTransactionV1View {
            calldata: views(self.calldata@),
            sender_address: self.sender_address@,
            max_fee: self.max_fee@,
            signature: views(self.signature@),
            nonce: self.nonce@,
        }
    }
}

/// An invoke transaction of version 3.
#[derive(Clone, Debug, PartialEq, Eq)]
pub struct InvokeTransactionV3 {
    pub signature: Vec<TransactionSignatureElem>,
    pub nonce: TransactionNonce,
    pub nonce_data_availability_mode: DataAvailabilityMode,
    pub fee_data_availability_mode: DataAvailabilityMode,
    pub resource_bounds: ResourceBounds,
    pub tip: Tip,
    pub paymaster_data: Vec<PaymasterDataElem>,
    pub account_deployment_data: Vec<AccountDeploymentDataElem>,
    pub calldata: Vec<CallParam>,
    pub sender_address: ContractAddress,
}

/// What an invoke transaction of version 3 says.
#[verifier::ext_equal]
pub struct InvokeTransactionV3View {
    pub signature: Seq<nat>,
    pub nonce: nat,
    pub nonce_data_availability_mode: DataAvailabilityMode,
    pub fee_data_availability_mode: DataAvailabilityMode,
    pub resource_bounds: ResourceBounds,
    pub tip: Tip,
    pub paymaster_data: Seq<nat>,
    pub account_deployment_data: Seq<nat>,
    pub calldata: Seq<nat>,
    pub sender_address: nat,
}

impl View for InvokeTransactionV3 {
    type V = InvokeTransactionV3View;

    open spec fn view(&self) -> InvokeTransactionV3View {
        InvokeTransactionV3View {
            signature: views(self.signature@),
            nonce: self.nonce@,
            nonce_data_availability_mode: self.nonce_data_availability_mode,
            fee_data_availability_mode: self.fee_data_availability_mode,
            resource_bounds: self.resource_bounds,
            tip: self.tip,
            paymaster_data: views(self.paymaster_data@),
            account_deployment_data: views(self.account_deployment_data@),
            calldata: views(self.calldata@),
            sender_address: self.sender_address@,
        }
    }
}

/// A transaction that handles a message from L1.
#[derive(Clone, Debug, PartialEq, Eq)]
pub struct L1HandlerTransaction {
    pub contract_address: ContractAddress,
    pub entry_point_selector: EntryPoint,
    pub nonce: TransactionNonce,
    pub calldata: Vec<CallParam>,
}

/// What a transaction that handles a message from L1 says.
#[verifier::ext_equal]
pub struct L1HandlerTransactionView {
    pub contract_address: nat,
    pub entry_point_selector: nat,
    pub nonce: nat,
    pub calldata: Seq<nat>,
}

impl View for L1HandlerTransaction {
    type V = L1HandlerTransactionView;

    open spec fn view(&self) -> L1HandlerTransactionView {
        L1HandlerTransactionView {
            contract_address: self.contract_address@,
            entry_point_selector: self.entry_point_selector@,
            nonce: self.nonce@,
            calldata: views(self.calldata@),
        }
    }
}

/// The kinds of transactions.
#[derive(Clone, Debug, PartialEq, Eq)]
pub enum TransactionVariant {
    DeclareV0(DeclareTransactionV0V1),
    DeclareV1(DeclareTransactionV0V1),
    DeclareV2(DeclareTransactionV2),
    DeclareV3(DeclareTransactionV3),
    Deploy(DeployTransaction),
    DeployAccountV1(DeployAccountTransactionV1),
    DeployAccountV3(DeployAccountTransactionV3),
    InvokeV0(InvokeTransactionV0),
    InvokeV1(InvokeTransactionV1),
    InvokeV3(InvokeTransactionV3),
    L1Handler(L1HandlerTransaction),
}

/// What a transaction of each kind says.
#[verifier::ext_equal]
pub enum TransactionVariantView {
    DeclareV0(DeclareTransactionV0V1View),
    DeclareV1(DeclareTransactionV0V1View),
    DeclareV2(DeclareTransactionV2View),
    DeclareV3(DeclareTransactionV3View),
    Deploy(DeployTransactionView),
    DeployAccountV1(DeployAccountTransactionV1View),
    DeployAccountV3(DeployAccountTransactionV3View),
    InvokeV0(InvokeTransactionV0View),
    InvokeV1(InvokeTransactionV1View),
    InvokeV3(InvokeTransactionV3View),
    L1Handler(L1HandlerTransactionView),
}

impl View for TransactionVariant {
    type V = TransactionVariantView;

    open spec fn view(&self) -> TransactionVariantView {
        match self {
            TransactionVariant::DeclareV0(tx) => TransactionVariantView::DeclareV0(tx@),
            TransactionVariant::DeclareV1(tx) => TransactionVariantView::DeclareV1(tx@),
            TransactionVariant::DeclareV2(tx) => TransactionVariantView::DeclareV2(tx@),
            TransactionVariant::DeclareV3(tx) => TransactionVariantView::DeclareV3(tx@),
            TransactionVariant::Deploy(tx) => TransactionVariantView::Deploy(tx@),
            TransactionVariant::DeployAccountV1(tx) => TransactionVariantView::DeployAccountV1(tx@),
            TransactionVariant::DeployAccountV3(tx) => TransactionVariantView::DeployAccountV3(tx@),
            TransactionVariant::InvokeV0(tx) => TransactionVariantView::InvokeV0(tx@),
            TransactionVariant::InvokeV1(tx) => TransactionVariantView::InvokeV1(tx@),
            TransactionVariant::InvokeV3(tx) => TransactionVariantView::InvokeV3(tx@),
            TransactionVariant::L1Handler(tx) => TransactionVariantView::L1Handler(tx@),
        }
    }
}

/// A transaction.
#[derive(Clone, Debug, PartialEq, Eq)]
pub struct Transaction {
    pub hash: TransactionHash,
    pub variant: TransactionVariant,
}

/// What a transaction says.
#[verifier::ext_equal]
pub struct TransactionView {
    pub hash: nat,
    pub variant: TransactionVariantView,
}

impl View for Transaction {
    type V = TransactionView;

    open spec fn view(&self) -> TransactionView {
        TransactionView { hash: self.hash@, variant: self.variant@ }
    }
}

/// What [`DeclareTransactionV0V1`] says is what each of its parts says.
pub proof fn lemma_parts_of_declare_transaction_v0_v1(value: DeclareTransactionV0V1)
    ensures
        value@.class_hash == value.class_hash@,
        value@.max_fee == value.max_fee@,
        value@.nonce == value.nonce@,
        value@.signature == views(value.signature@),
        value@.sender_address == value.sender_address@,
{
}

/// What [`DeclareTransactionV2`] says is what each of its parts says.
pub proof fn lemma_parts_of_declare_transaction_v2(value: DeclareTransactionV2)
    ensures
        value@.class_hash == value.class_hash@,
        value@.max_fee == value.max_fee@,
        value@.nonce == value.nonce@,
        value@.signature == views(value.signature@),
        value@.sender_address == value.sender_address@,
        value@.compiled_class_hash == value.compiled_class_hash@,
{
}

/// What [`DeclareTransactionV3`] says is what each of its parts says.
pub proof fn lemma_parts_of_declare_transaction_v3(value: DeclareTransactionV3)
    ensures
        value@.class_hash == value.class_hash@,
        value@.nonce == value.nonce@,
        value@.nonce_data_availability_mode == value.nonce_data_availability_mode,
        value@.fee_data_availability_mode == value.fee_data_availability_mode,
        value@.resource_bounds == value.resource_bounds,
        value@.tip == value.tip,
        value@.paymaster_data == views(value.paymaster_data@),
        value@.signature == views(value.signature@),
        value@.account_deployment_data == views(value.account_deployment_data@),
        value@.sender_address == value.sender_address@,
        value@.compiled_class_hash == value.compiled_class_hash@,
{
}

/// What [`DeployTransaction`] says is what each of its parts says.
pub proof fn lemma_parts_of_deploy_transaction(value: DeployTransaction)
    ensures
        value@.contract_address == value.contract_address@,
        value@.version == value.version@,
        value@.contract_address_salt == value.contract_address_salt@,
        value@.class_hash == value.class_hash@,
        value@.constructor_calldata == views(value.constructor_calldata@),
{
}

/// What [`DeployAccountTransactionV1`] says is what each of its parts says.
pub proof fn lemma_parts_of_deploy_account_transaction_v1(value: DeployAccountTransactionV1)
    ensures
        value@.contract_address == value.contract_address@,
        value@.max_fee == value.max_fee@,
        value@.signature == views(value.signature@),
        value@.nonce == value.nonce@,
        value@.contract_address_salt == value.contract_address_salt@,
        value@.constructor_calldata == views(value.constructor_calldata@),
        value@.class_hash == value.class_hash@,
{
}

/// What [`DeployAccountTransactionV3`] says is what each of its parts says.
pub proof fn lemma_parts_of_deploy_account_transaction_v3(value: DeployAccountTransactionV3)
    ensures
        value@.contract_address == value.contract_address@,
        value@.signature == views(value.signature@),
        value@.nonce == value.nonce@,
        value@.nonce_data_availability_mode == value.nonce_data_availability_mode,
        value@.fee_data_availability_mode == value.fee_data_availability_mode,
        value@.resource_bounds == value.resource_bounds,
        value@.tip == value.tip,
        value@.paymaster_data == views(value.paymaster_data@),
        value@.contract_address_salt == value.contract_address_salt@,
        value@.constructor_calldata == views(value.constructor_calldata@),
        value@.class_hash == value.class_hash@,
{
}

/// What [`InvokeTransactionV0`] says is what each of its parts says.
pub proof fn lemma_parts_of_invoke_transaction_v0(value: InvokeTransactionV0)
    ensures
        value@.calldata == views(value.calldata@),
        value@.sender_address == value.sender_address@,
        value@.entry_point_selector == value.entry_point_selector@,
        value@.entry_point_type == value.entry_point_type,
        value@.max_fee == value.max_fee@,
        value@.signature == views(value.signature@),
{
}

/// What [`InvokeTransactionV1`] says is what each of its parts says.
pub proof fn lemma_parts_of_invoke_transaction_v1(value: InvokeTransactionV1)
    ensures
        value@.calldata == views(value.calldata@),
        value@.sender_address == value.sender_address@,
        value@.max_fee == value.max_fee@,
        value@.signature == views(value.signature@),
        value@.nonce == value.nonce@,
{
}

/// What [`InvokeTransactionV3`] says is what each of its parts says.
pub proof fn lemma_parts_of_invoke_transaction_v3(value: InvokeTransactionV3)
    ensures
        value@.signature == views(value.signature@),
        value@.nonce == value.nonce@,
        value@.nonce_data_availability_mode == value.nonce_data_availability_mode,
        value@.fee_data_availability_mode == value.fee_data_availability_mode,
        value@.resource_bounds == value.resource_bounds,
        value@.tip == value.tip,
        value@.paymaster_data == views(value.paymaster_data@),
        value@.account_deployment_data == views(value.account_deployment_data@),
        value@.calldata == views(value.calldata@),
        value@.sender_address == value.sender_address@,
{
}

/// What [`L1HandlerTransaction`] says is what each of its parts says.
pub proof fn lemma_parts_of_l1_handler_transaction(value: L1HandlerTransaction)
    ensures
        value@.contract_address == value.contract_address@,
        value@.entry_point_selector == value.entry_point_selector@,
        value@.nonce == value.nonce@,
        value@.calldata == views(value.calldata@),
{
}

/// What [`Transaction`] says is what each of its parts says.
pub proof fn lemma_parts_of_transaction(value: Transaction)
    ensures
        value@.hash == value.hash@,
        value@.variant == value.variant@,
{
}

/// A transaction of each kind says that it is of this kind.
pub proof fn lemma_kinds_of_transactions(value: TransactionVariant)
    ensures
        match value {
            TransactionVariant::DeclareV0(tx) => value@ == TransactionVariantView::DeclareV0(tx@),
            TransactionVariant::DeclareV1(tx) => value@ == TransactionVariantView::DeclareV1(tx@),
            TransactionVariant::DeclareV2(tx) => value@ == TransactionVariantView::DeclareV2(tx@),
            TransactionVariant::DeclareV3(tx) => value@ == TransactionVariantView::DeclareV3(tx@),
            TransactionVariant::Deploy(tx) => value@ == TransactionVariantView::Deploy(tx@),
            TransactionVariant::DeployAccountV1(tx) => value@ == TransactionVariantView::DeployAccountV1(tx@),
            TransactionVariant::DeployAccountV3(tx) => value@ == TransactionVariantView::DeployAccountV3(tx@),
            TransactionVariant::InvokeV0(tx) => value@ == TransactionVariantView::InvokeV0(tx@),
            TransactionVariant::InvokeV1(tx) => value@ == TransactionVariantView::InvokeV1(tx@),
            TransactionVariant::InvokeV3(tx) => value@ == TransactionVariantView::InvokeV3(tx@),
            TransactionVariant::L1Handler(tx) => value@ == TransactionVariantView::L1Handler(tx@),
        },
{
}

} // verus!
