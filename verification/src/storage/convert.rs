//! Conversions between the chain's vocabulary and the rows that are stored.
//!
//! Stored field elements carry no bound of their own, so a stored address that does not fit 251
//! bits cannot be loaded: `loadable` tells such rows apart.
use crate::common::event::{Event, EventView};
use crate::common::receipt::{BuiltinCounters, ExecutionDataAvailability, ExecutionResources, ExecutionStatus,
    L2ToL1Message, L2ToL1MessageView, Receipt, ReceiptView};
use crate::common::transaction::{DataAvailabilityMode, DeclareTransactionV0V1, DeclareTransactionV2,
    DeclareTransactionV3, DeployTransaction, DeployAccountTransactionV1, DeployAccountTransactionV3,
    InvokeTransactionV0, InvokeTransactionV1, InvokeTransactionV3, L1HandlerTransaction, EntryPointType,
    ResourceBound, ResourceBounds, Transaction, TransactionVariant, TransactionVariantView};
use crate::common::{address_limit, views, CasmHash, ClassHash, ContractAddress, ContractAddressSalt, EntryPoint,
    Fee, FeltWrapper, TransactionHash, TransactionNonce, TransactionVersion};
use crate::felt::Felt;
use crate::storage::dto;
use crate::storage::dto::MinimalFelt;
use vstd::prelude::*;
use vstd::std_specs::convert::{FromSpec, FromSpecImpl};

verus! {

impl FromSpecImpl<Felt> for MinimalFelt {
    open spec fn obeys_from_spec() -> bool {
        true
    }

    open spec fn from_spec(value: Felt) -> MinimalFelt {
        MinimalFelt(value)
    }
}

impl From<Felt> for MinimalFelt {
    fn from(value: Felt) -> (r: MinimalFelt) {
        MinimalFelt(value)
    }
}

impl FromSpecImpl<MinimalFelt> for Felt {
    open spec fn obeys_from_spec() -> bool {
        true
    }

    open spec fn from_spec(value: MinimalFelt) -> Felt {
        value.0
    }
}

impl From<MinimalFelt> for Felt {
    fn from(value: MinimalFelt) -> (r: Felt) {
        value.0
    }
}

/// What is stored of a value that wraps a field element.
fn minimal<T: FeltWrapper>(value: &T) -> (r: MinimalFelt)
    ensures
        r@ == value@,
{
    MinimalFelt(*value.as_inner())
}

/// What is stored of a list of values that wrap field elements.
fn minimal_list<T: FeltWrapper>(values: &Vec<T>) -> (r: Vec<MinimalFelt>)
    ensures
        views(r@) == views(values@),
{
    let mut r: Vec<MinimalFelt> = Vec::new();
    let mut i: usize = 0;
    while i < values.len()
        invariant
            i <= values@.len(),
            r@.len() == i,
            forall|j: int| 0 <= j < i ==> (#[trigger] r@[j])@ == values@[j]@,
        decreases values.len() - i,
    {
        r.push(minimal(&values[i]));
        i += 1;
    }
    assert(views(r@) =~= views(values@));
    r
}

/// Gives stored field elements their meaning again.
fn wrapped_list<T: FeltWrapper>(felts: &Vec<MinimalFelt>) -> (r: Vec<T>)
    ensures
        views(r@) == views(felts@),
{
    let mut r: Vec<T> = Vec::new();
    let mut i: usize = 0;
    while i < felts.len()
        invariant
            i <= felts@.len(),
            r@.len() == i,
            forall|j: int| 0 <= j < i ==> (#[trigger] r@[j])@ == felts@[j]@,
        decreases felts.len() - i,
    {
        r.push(T::from_felt(felts[i].0));
        i += 1;
    }
    assert(views(r@) =~= views(felts@));
    r
}

impl FromSpecImpl<EntryPointType> for dto::EntryPointType {
    open spec fn obeys_from_spec() -> bool {
        true
    }

    open spec fn from_spec(value: EntryPointType) -> dto::EntryPointType {
        match value {
            EntryPointType::External => dto::EntryPointType::External,
            EntryPointType::L1Handler => dto::EntryPointType::L1Handler,
        }
    }
}

impl From<EntryPointType> for dto::EntryPointType {
    fn from(value: EntryPointType) -> (r: dto::EntryPointType) {
        match value {
            EntryPointType::External => dto::EntryPointType::External,
            EntryPointType::L1Handler => dto::EntryPointType::L1Handler,
        }
    }
}

impl FromSpecImpl<dto::EntryPointType> for EntryPointType {
    open spec fn obeys_from_spec() -> bool {
        true
    }

    open spec fn from_spec(value: dto::EntryPointType) -> EntryPointType {
        match value {
            dto::EntryPointType::External => EntryPointType::External,
            dto::EntryPointType::L1Handler => EntryPointType::L1Handler,
        }
    }
}

impl From<dto::EntryPointType> for EntryPointType {
    fn from(value: dto::EntryPointType) -> (r: EntryPointType) {
        match value {
            dto::EntryPointType::External => EntryPointType::External,
            dto::EntryPointType::L1Handler => EntryPointType::L1Handler,
        }
    }
}

impl FromSpecImpl<DataAvailabilityMode> for dto::DataAvailabilityMode {
    open spec fn obeys_from_spec() -> bool {
        true
    }

    open spec fn from_spec(value: DataAvailabilityMode) -> dto::DataAvailabilityMode {
        match value {
            DataAvailabilityMode::L1 => dto::DataAvailabilityMode::L1,
            DataAvailabilityMode::L2 => dto::DataAvailabilityMode::L2,
        }
    }
}

impl From<DataAvailabilityMode> for dto::DataAvailabilityMode {
    fn from(value: DataAvailabilityMode) -> (r: dto::DataAvailabilityMode) {
        match value {
            DataAvailabilityMode::L1 => dto::DataAvailabilityMode::L1,
            DataAvailabilityMode::L2 => dto::DataAvailabilityMode::L2,
        }
    }
}

impl FromSpecImpl<dto::DataAvailabilityMode> for DataAvailabilityMode {
    open spec fn obeys_from_spec() -> bool {
        true
    }

    open spec fn from_spec(value: dto::DataAvailabilityMode) -> DataAvailabilityMode {
        match value {
            dto::DataAvailabilityMode::L1 => DataAvailabilityMode::L1,
            dto::DataAvailabilityMode::L2 => DataAvailabilityMode::L2,
        }
    }
}

impl From<dto::DataAvailabilityMode> for DataAvailabilityMode {
    fn from(value: dto::DataAvailabilityMode) -> (r: DataAvailabilityMode) {
        match value {
            dto::DataAvailabilityMode::L1 => DataAvailabilityMode::L1,
            dto::DataAvailabilityMode::L2 => DataAvailabilityMode::L2,
        }
    }
}

impl FromSpecImpl<dto::ResourceBound> for ResourceBound {
    open spec fn obeys_from_spec() -> bool {
        true
    }

    open spec fn from_spec(value: dto::ResourceBound) -> ResourceBound {
        ResourceBound { max_amount: value.max_amount, max_price_per_unit: value.max_price_per_unit }
    }
}

impl From<dto::ResourceBound> for ResourceBound {
    fn from(value: dto::ResourceBound) -> (r: ResourceBound) {
        ResourceBound { max_amount: value.max_amount, max_price_per_unit: value.max_price_per_unit }
    }
}

impl FromSpecImpl<ResourceBound> for dto::ResourceBound {
    open spec fn obeys_from_spec() -> bool {
        true
    }

    open spec fn from_spec(value: ResourceBound) -> dto::ResourceBound {
        dto::ResourceBound { max_amount: value.max_amount, max_price_per_unit: value.max_price_per_unit }
    }
}

impl From<ResourceBound> for dto::ResourceBound {
    fn from(value: ResourceBound) -> (r: dto::ResourceBound) {
        dto::ResourceBound { max_amount: value.max_amount, max_price_per_unit: value.max_price_per_unit }
    }
}

impl FromSpecImpl<dto::ResourceBounds> for ResourceBounds {
    open spec fn obeys_from_spec() -> bool {
        true
    }

    open spec fn from_spec(value: dto::ResourceBounds) -> ResourceBounds {
        ResourceBounds {
            l1_gas: ResourceBound {
                max_amount: value.l1_gas.max_amount,
                max_price_per_unit: value.l1_gas.max_price_per_unit,
            },
            l2_gas: ResourceBound {
                max_amount: value.l2_gas.max_amount,
                max_price_per_unit: value.l2_gas.max_price_per_unit,
            },
        }
    }
}

impl From<dto::ResourceBounds> for ResourceBounds {
    fn from(value: dto::ResourceBounds) -> (r: ResourceBounds) {
        ResourceBounds { l1_gas: ResourceBound::from(value.l1_gas), l2_gas: ResourceBound::from(value.l2_gas) }
    }
}

impl FromSpecImpl<ResourceBounds> for dto::ResourceBounds {
    open spec fn obeys_from_spec() -> bool {
        true
    }

    open spec fn from_spec(value: ResourceBounds) -> dto::ResourceBounds {
        dto::ResourceBounds {
            l1_gas: dto::ResourceBound {
                max_amount: value.l1_gas.max_amount,
                max_price_per_unit: value.l1_gas.max_price_per_unit,
            },
            l2_gas: dto::ResourceBound {
                max_amount: value.l2_gas.max_amount,
                max_price_per_unit: value.l2_gas.max_price_per_unit,
            },
        }
    }
}

impl From<ResourceBounds> for dto::ResourceBounds {
    fn from(value: ResourceBounds) -> (r: dto::ResourceBounds) {
        dto::ResourceBounds {
            l1_gas: dto::ResourceBound::from(value.l1_gas),
            l2_gas: dto::ResourceBound::from(value.l2_gas),
        }
    }
}

impl FromSpecImpl<dto::BuiltinCounters> for BuiltinCounters {
    open spec fn obeys_from_spec() -> bool {
        true
    }

    open spec fn from_spec(value: dto::BuiltinCounters) -> BuiltinCounters {
        BuiltinCounters {
            output: value.output,
            pedersen: value.pedersen,
            range_check: value.range_check,
            ecdsa: value.ecdsa,
            bitwise: value.bitwise,
            ec_op: value.ec_op,
            keccak: value.keccak,
            poseidon: value.poseidon,
            segment_arena: value.segment_arena,
        }
    }
}

impl From<dto::BuiltinCounters> for BuiltinCounters {
    fn from(value: dto::BuiltinCounters) -> (r: BuiltinCounters) {
        BuiltinCounters {
            output: value.output,
            pedersen: value.pedersen,
            range_check: value.range_check,
            ecdsa: value.ecdsa,
            bitwise: value.bitwise,
            ec_op: value.ec_op,
            keccak: value.keccak,
            poseidon: value.poseidon,
            segment_arena: value.segment_arena,
        }
    }
}

impl FromSpecImpl<BuiltinCounters> for dto::BuiltinCounters {
    open spec fn obeys_from_spec() -> bool {
        true
    }

    open spec fn from_spec(value: BuiltinCounters) -> dto::BuiltinCounters {
        dto::BuiltinCounters {
            output: value.output,
            pedersen: value.pedersen,
            range_check: value.range_check,
            ecdsa: value.ecdsa,
            bitwise: value.bitwise,
            ec_op: value.ec_op,
            keccak: value.keccak,
            poseidon: value.poseidon,
            segment_arena: value.segment_arena,
        }
    }
}

impl From<BuiltinCounters> for dto::BuiltinCounters {
    fn from(value: BuiltinCounters) -> (r: dto::BuiltinCounters) {
        dto::BuiltinCounters {
            output: value.output,
            pedersen: value.pedersen,
            range_check: value.range_check,
            ecdsa: value.ecdsa,
            bitwise: value.bitwise,
            ec_op: value.ec_op,
            keccak: value.keccak,
            poseidon: value.poseidon,
            segment_arena: value.segment_arena,
        }
    }
}

/// The resources that stored ones stand for. Gas that is not known in full counts as none.
pub open spec fn loaded_resources(value: dto::ExecutionResources) -> ExecutionResources {
    ExecutionResources {
        builtins: <BuiltinCounters as vstd::std_specs::convert::FromSpec<dto::BuiltinCounters>>::from_spec(
            value.builtins,
        ),
        n_steps: value.n_steps,
        n_memory_holes: value.n_memory_holes,
        data_availability: match (value.data_availability.l1_gas, value.data_availability.l1_data_gas) {
            (Some(l1_gas), Some(l1_data_gas)) => ExecutionDataAvailability { l1_gas, l1_data_gas },
            _ => ExecutionDataAvailability { l1_gas: 0, l1_data_gas: 0 },
        },
    }
}

/// What is stored of resources.
pub open spec fn stored_resources(value: ExecutionResources) -> dto::ExecutionResources {
    dto::ExecutionResources {
        builtins: <dto::BuiltinCounters as vstd::std_specs::convert::FromSpec<BuiltinCounters>>::from_spec(
            value.builtins,
        ),
        n_steps: value.n_steps,
        n_memory_holes: value.n_memory_holes,
        data_availability: dto::ExecutionDataAvailability {
            l1_gas: Some(value.data_availability.l1_gas),
            l1_data_gas: Some(value.data_availability.l1_data_gas),
        },
    }
}

impl FromSpecImpl<dto::ExecutionResources> for ExecutionResources {
    open spec fn obeys_from_spec() -> bool {
        true
    }

    open spec fn from_spec(value: dto::ExecutionResources) -> ExecutionResources {
        loaded_resources(value)
    }
}

impl From<dto::ExecutionResources> for ExecutionResources {
    fn from(value: dto::ExecutionResources) -> (r: ExecutionResources) {
        ExecutionResources {
            builtins: BuiltinCounters::from(value.builtins),
            n_steps: value.n_steps,
            n_memory_holes: value.n_memory_holes,
            data_availability: match (value.data_availability.l1_gas, value.data_availability.l1_data_gas) {
                (Some(l1_gas), Some(l1_data_gas)) => ExecutionDataAvailability { l1_gas, l1_data_gas },
                _ => ExecutionDataAvailability { l1_gas: 0, l1_data_gas: 0 },
            },
        }
    }
}

impl FromSpecImpl<ExecutionResources> for dto::ExecutionResources {
    open spec fn obeys_from_spec() -> bool {
        true
    }

    open spec fn from_spec(value: ExecutionResources) -> dto::ExecutionResources {
        stored_resources(value)
    }
}

impl From<ExecutionResources> for dto::ExecutionResources {
    fn from(value: ExecutionResources) -> (r: dto::ExecutionResources) {
        dto::ExecutionResources {
            builtins: dto::BuiltinCounters::from(value.builtins),
            n_steps: value.n_steps,
            n_memory_holes: value.n_memory_holes,
            data_availability: dto::ExecutionDataAvailability {
                l1_gas: Some(value.data_availability.l1_gas),
                l1_data_gas: Some(value.data_availability.l1_data_gas),
            },
        }
    }
}

impl dto::Event {
    /// What is stored of an event.
    pub fn from(value: &Event) -> (r: dto::Event)
        ensures
            r@ == value@,
    {
        dto::Event {
            data: minimal_list(&value.data),
            from_address: minimal(&value.from_address),
            keys: minimal_list(&value.keys),
        }
    }

    /// Whether the event can be loaded.
    pub fn is_loadable(&self) -> (r: bool)
        ensures
            r == loadable_event(self@),
    {
        !self.from_address.0.has_more_than_251_bits()
    }
}

/// The address that an event comes from has to fit 251 bits.
pub open spec fn loadable_event(event: EventView) -> bool {
    event.from_address < address_limit()
}

impl Event {
    /// The event that a stored one stands for.
    pub fn from(value: dto::Event) -> (r: Event)
        requires
            loadable_event(value@),
        ensures
            r@ == value@,
    {
        Event {
            data: wrapped_list(&value.data),
            from_address: ContractAddress::new_or_panic(value.from_address.0),
            keys: wrapped_list(&value.keys),
        }
    }
}

impl dto::L2ToL1Message {
    /// What is stored of a message.
    pub fn from(value: &L2ToL1Message) -> (r: dto::L2ToL1Message)
        ensures
            r@ == value@,
    {
        dto::L2ToL1Message {
            from_address: minimal(&value.from_address),
            payload: minimal_list(&value.payload),
            to_address: value.to_address,
        }
    }
}

/// The address that a message comes from has to fit 251 bits.
pub open spec fn loadable_message(message: L2ToL1MessageView) -> bool {
    message.from_address < address_limit()
}

impl L2ToL1Message {
    /// The message that a stored one stands for.
    pub fn from(value: dto::L2ToL1Message) -> (r: L2ToL1Message)
        requires
            loadable_message(value@),
        ensures
            r@ == value@,
    {
        L2ToL1Message {
            from_address: ContractAddress::new_or_panic(value.from_address.0),
            payload: wrapped_list(&value.payload),
            to_address: value.to_address,
        }
    }
}

/// What is stored of a receipt.
pub open spec fn stored_receipt(value: ReceiptView) -> dto::ReceiptV0View {
    dto::ReceiptV0View {
        actual_fee: value.actual_fee,
        execution_resources: Some(stored_resources(value.execution_resources)),
        l2_to_l1_messages: value.l2_to_l1_messages,
        transaction_hash: value.transaction_hash,
        transaction_index: value.transaction_index,
        execution_status: value.execution_status,
    }
}

/// The receipt that a stored one stands for. Resources that are not known count as none.
pub open spec fn loaded_receipt(value: dto::ReceiptV0View) -> ReceiptView {
    ReceiptView {
        actual_fee: value.actual_fee,
        execution_resources: match value.execution_resources {
            Some(resources) => loaded_resources(resources),
            None => crate::common::receipt::no_resources(),
        },
        l2_to_l1_messages: value.l2_to_l1_messages,
        execution_status: value.execution_status,
        transaction_hash: value.transaction_hash,
        transaction_index: value.transaction_index,
    }
}

/// The messages of a receipt have to be loadable.
pub open spec fn loadable_messages(messages: Seq<L2ToL1MessageView>) -> bool {
    forall|i: int| 0 <= i < messages.len() ==> loadable_message(#[trigger] messages[i])
}

/// Loading a stored receipt gives the receipt back.
pub proof fn lemma_receipt_round_trip(receipt: ReceiptView)
    ensures
        loaded_receipt(stored_receipt(receipt)) == receipt,
{
}

impl dto::Receipt {
    /// What is stored of a receipt.
    pub fn from(value: &Receipt) -> (r: dto::Receipt)
        ensures
            r@ == stored_receipt(value@),
    {
        let mut messages: Vec<dto::L2ToL1Message> = Vec::new();
        let mut i: usize = 0;
        while i < value.l2_to_l1_messages.len()
            invariant
                i <= value.l2_to_l1_messages@.len(),
                messages@.len() == i,
                forall|j: int| 0 <= j < i ==> (#[trigger] messages@[j])@ == value.l2_to_l1_messages@[j]@,
            decreases value.l2_to_l1_messages.len() - i,
        {
            messages.push(dto::L2ToL1Message::from(&value.l2_to_l1_messages[i]));
            i += 1;
        }
        assert(views(messages@) =~= views(value.l2_to_l1_messages@));
        dto::Receipt::V0(
            dto::ReceiptV0 {
                actual_fee: minimal(&value.actual_fee),
                execution_resources: Some(dto::ExecutionResources::from(value.execution_resources)),
                l2_to_l1_messages: messages,
                transaction_hash: minimal(&value.transaction_hash),
                transaction_index: value.transaction_index,
                execution_status: match &value.execution_status {
                    ExecutionStatus::Succeeded => dto::ExecutionStatus::Succeeded,
                    ExecutionStatus::Reverted { reason } => dto::ExecutionStatus::Reverted { reason: reason.clone() },
                },
            },
        )
    }

    /// Whether the receipt can be loaded.
    pub fn is_loadable(&self) -> (r: bool)
        ensures
            r == loadable_messages(self@.l2_to_l1_messages),
    {
        let dto::Receipt::V0(receipt) = self;
        let mut i: usize = 0;
        while i < receipt.l2_to_l1_messages.len()
            invariant
                i <= receipt.l2_to_l1_messages@.len(),
                receipt@ == self@,
                forall|j: int|
                    0 <= j < i ==> loadable_message((#[trigger] self@.l2_to_l1_messages[j])),
            decreases receipt.l2_to_l1_messages.len() - i,
        {
            if receipt.l2_to_l1_messages[i].from_address.0.has_more_than_251_bits() {
                assert(!loadable_message(self@.l2_to_l1_messages[i as int]));
                return false;
            }
            i += 1;
        }
        true
    }
}

impl Receipt {
    /// The receipt that a stored one stands for.
    pub fn from(value: dto::Receipt) -> (r: Receipt)
        requires
            loadable_messages(value@.l2_to_l1_messages),
        ensures
            r@ == loaded_receipt(value@),
    {
        let ghost stored = value@;
        let dto::Receipt::V0(receipt) = value;
        let ghost all = receipt.l2_to_l1_messages@;
        assert(stored.l2_to_l1_messages == views(all));
        let mut messages: Vec<L2ToL1Message> = Vec::new();
        for message in iter: receipt.l2_to_l1_messages
            invariant
                iter.seq() == all,
                loadable_messages(views(all)),
                messages@.len() == iter.index(),
                forall|j: int| 0 <= j < iter.index() ==> (#[trigger] messages@[j])@ == all[j]@,
        {
            assert(views(all)[iter.index()] == message@);
            messages.push(L2ToL1Message::from(message));
        }
        assert(views(messages@) =~= views(all));
        Receipt {
            actual_fee: Fee(receipt.actual_fee.0),
            execution_resources: match receipt.execution_resources {
                Some(resources) => ExecutionResources::from(resources),
                None => ExecutionResources::default(),
            },
            l2_to_l1_messages: messages,
            execution_status: match receipt.execution_status {
                dto::ExecutionStatus::Succeeded => ExecutionStatus::Succeeded,
                dto::ExecutionStatus::Reverted { reason } => ExecutionStatus::Reverted { reason },
            },
            transaction_hash: TransactionHash(receipt.transaction_hash.0),
            transaction_index: receipt.transaction_index,
        }
    }
}

impl dto::Transaction {
    /// What is stored of a transaction.
    pub fn from(value: &Transaction) -> (r: dto::Transaction)
        ensures
            r@ == value@,
    {
        let variant = match &value.variant {
            TransactionVariant::DeclareV0(tx) => dto::TransactionVariantV0::DeclareV0(
                dto::DeclareTransactionV0V1 {
                    class_hash: minimal(&tx.class_hash),
                    max_fee: minimal(&tx.max_fee),
                    nonce: minimal(&tx.nonce),
                    signature: minimal_list(&tx.signature),
                    sender_address: minimal(&tx.sender_address),
                },
            ),
            TransactionVariant::DeclareV1(tx) => dto::TransactionVariantV0::DeclareV1(
                dto::DeclareTransactionV0V1 {
                    class_hash: minimal(&tx.class_hash),
                    max_fee: minimal(&tx.max_fee),
                    nonce: minimal(&tx.nonce),
                    signature: minimal_list(&tx.signature),
                    sender_address: minimal(&tx.sender_address),
                },
            ),
            TransactionVariant::DeclareV2(tx) => dto::TransactionVariantV0::DeclareV2(
                dto::DeclareTransactionV2 {
                    class_hash: minimal(&tx.class_hash),
                    max_fee: minimal(&tx.max_fee),
                    nonce: minimal(&tx.nonce),
                    signature: minimal_list(&tx.signature),
                    sender_address: minimal(&tx.sender_address),
                    compiled_class_hash: minimal(&tx.compiled_class_hash),
                },
            ),
            TransactionVariant::DeclareV3(tx) => dto::TransactionVariantV0::DeclareV3(
                dto::DeclareTransactionV3 {
                    class_hash: minimal(&tx.class_hash),
                    nonce: minimal(&tx.nonce),
                    nonce_data_availability_mode: dto::DataAvailabilityMode::from(tx.nonce_data_availability_mode),
                    fee_data_availability_mode: dto::DataAvailabilityMode::from(tx.fee_data_availability_mode),
                    resource_bounds: dto::ResourceBounds::from(tx.resource_bounds),
                    tip: tx.tip,
                    paymaster_data: minimal_list(&tx.paymaster_data),
                    signature: minimal_list(&tx.signature),
                    account_deployment_data: minimal_list(&tx.account_deployment_data),
                    sender_address: minimal(&tx.sender_address),
                    compiled_class_hash: minimal(&tx.compiled_class_hash),
                },
            ),
            TransactionVariant::Deploy(tx) => dto::TransactionVariantV0::Deploy(
                dto::DeployTransaction {
                    contract_address: minimal(&tx.contract_address),
                    version: minimal(&tx.version),
                    contract_address_salt: minimal(&tx.contract_address_salt),
                    class_hash: minimal(&tx.class_hash),
                    constructor_calldata: minimal_list(&tx.constructor_calldata),
                },
            ),
            TransactionVariant::DeployAccountV1(tx) => dto::TransactionVariantV0::DeployAccountV1(
                dto::DeployAccountTransactionV1 {
                    contract_address: minimal(&tx.contract_address),
                    max_fee: minimal(&tx.max_fee),
                    signature: minimal_list(&tx.signature),
                    nonce: minimal(&tx.nonce),
                    contract_address_salt: minimal(&tx.contract_address_salt),
                    constructor_calldata: minimal_list(&tx.constructor_calldata),
                    class_hash: minimal(&tx.class_hash),
                },
            ),
            TransactionVariant::DeployAccountV3(tx) => dto::TransactionVariantV0::DeployAccountV3(
                dto::DeployAccountTransactionV3 {
                    sender_address: minimal(&tx.contract_address),
                    signature: minimal_list(&tx.signature),
                    nonce: minimal(&tx.nonce),
                    nonce_data_availability_mode: dto::DataAvailabilityMode::from(tx.nonce_data_availability_mode),
                    fee_data_availability_mode: dto::DataAvailabilityMode::from(tx.fee_data_availability_mode),
                    resource_bounds: dto::ResourceBounds::from(tx.resource_bounds),
                    tip: tx.tip,
                    paymaster_data: minimal_list(&tx.paymaster_data),
                    contract_address_salt: minimal(&tx.contract_address_salt),
                    constructor_calldata: minimal_list(&tx.constructor_calldata),
                    class_hash: minimal(&tx.class_hash),
                },
            ),
            TransactionVariant::InvokeV0(tx) => dto::TransactionVariantV0::InvokeV0(
                dto::InvokeTransactionV0 {
                    calldata: minimal_list(&tx.calldata),
                    sender_address: minimal(&tx.sender_address),
                    entry_point_selector: minimal(&tx.entry_point_selector),
                    entry_point_type: match tx.entry_point_type {
                        Some(entry_point_type) => Some(dto::EntryPointType::from(entry_point_type)),
                        None => None,
                    },
                    max_fee: minimal(&tx.max_fee),
                    signature: minimal_list(&tx.signature),
                },
            ),
            TransactionVariant::InvokeV1(tx) => dto::TransactionVariantV0::InvokeV1(
                dto::InvokeTransactionV1 {
                    calldata: minimal_list(&tx.calldata),
                    sender_address: minimal(&tx.sender_address),
                    max_fee: minimal(&tx.max_fee),
                    signature: minimal_list(&tx.signature),
                    nonce: minimal(&tx.nonce),
                },
            ),
            TransactionVariant::InvokeV3(tx) => dto::TransactionVariantV0::InvokeV3(
                dto::InvokeTransactionV3 {
                    signature: minimal_list(&tx.signature),
                    nonce: minimal(&tx.nonce),
                    nonce_data_availability_mode: dto::DataAvailabilityMode::from(tx.nonce_data_availability_mode),
                    fee_data_availability_mode: dto::DataAvailabilityMode::from(tx.fee_data_availability_mode),
                    resource_bounds: dto::ResourceBounds::from(tx.resource_bounds),
                    tip: tx.tip,
                    paymaster_data: minimal_list(&tx.paymaster_data),
                    account_deployment_data: minimal_list(&tx.account_deployment_data),
                    calldata: minimal_list(&tx.calldata),
                    sender_address: minimal(&tx.sender_address),
                },
            ),
            TransactionVariant::L1Handler(tx) => dto::TransactionVariantV0::L1HandlerV0(
                dto::L1HandlerTransactionV0 {
                    contract_address: minimal(&tx.contract_address),
                    entry_point_selector: minimal(&tx.entry_point_selector),
                    nonce: minimal(&tx.nonce),
                    calldata: minimal_list(&tx.calldata),
                },
            ),
        };
        dto::Transaction::V0 { hash: minimal(&value.hash), variant }
    }

    /// The hash of the transaction.
    pub fn hash(&self) -> (r: TransactionHash)
        ensures
            r@ == self@.hash,
    {
        match self {
            dto::Transaction::V0 { hash, .. } => TransactionHash(hash.0),
        }
    }

    /// Whether the transaction can be loaded.
    pub fn is_loadable(&self) -> (r: bool)
        ensures
            r == loadable_transaction(self@.variant),
    {
        match self {
            dto::Transaction::V0 { variant, .. } => match variant {
                dto::TransactionVariantV0::DeclareV0(tx) => !tx.sender_address.0.has_more_than_251_bits(),
                dto::TransactionVariantV0::DeclareV1(_) => true,
                dto::TransactionVariantV0::DeclareV2(tx) => !tx.compiled_class_hash.0.has_more_than_251_bits(),
                dto::TransactionVariantV0::DeclareV3(tx) => {
                    !tx.sender_address.0.has_more_than_251_bits()
                        && !tx.compiled_class_hash.0.has_more_than_251_bits()
                },
                dto::TransactionVariantV0::Deploy(tx) => !tx.contract_address.0.has_more_than_251_bits(),
                dto::TransactionVariantV0::DeployAccountV1(tx) => !tx.contract_address.0.has_more_than_251_bits(),
                dto::TransactionVariantV0::DeployAccountV3(tx) => !tx.sender_address.0.has_more_than_251_bits(),
                dto::TransactionVariantV0::InvokeV0(tx) => !tx.sender_address.0.has_more_than_251_bits(),
                dto::TransactionVariantV0::InvokeV1(tx) => !tx.sender_address.0.has_more_than_251_bits(),
                dto::TransactionVariantV0::InvokeV3(tx) => !tx.sender_address.0.has_more_than_251_bits(),
                dto::TransactionVariantV0::L1HandlerV0(tx) => !tx.contract_address.0.has_more_than_251_bits(),
            },
        }
    }
}

/// The addresses and the compiled class hash of a transaction have to fit 251 bits, except for
/// the senders of declare transactions of version 1 and 2.
pub open spec fn loadable_transaction(variant: TransactionVariantView) -> bool {
    match variant {
        TransactionVariantView::DeclareV0(tx) => tx.sender_address < address_limit(),
        TransactionVariantView::DeclareV1(_) => true,
        TransactionVariantView::DeclareV2(tx) => tx.compiled_class_hash < address_limit(),
        TransactionVariantView::DeclareV3(tx) => {
            &&& tx.sender_address < address_limit()
            &&& tx.compiled_class_hash < address_limit()
        },
        TransactionVariantView::Deploy(tx) => tx.contract_address < address_limit(),
        TransactionVariantView::DeployAccountV1(tx) => tx.contract_address < address_limit(),
        TransactionVariantView::DeployAccountV3(tx) => tx.contract_address < address_limit(),
        TransactionVariantView::InvokeV0(tx) => tx.sender_address < address_limit(),
        TransactionVariantView::InvokeV1(tx) => tx.sender_address < address_limit(),
        TransactionVariantView::InvokeV3(tx) => tx.sender_address < address_limit(),
        TransactionVariantView::L1Handler(tx) => tx.contract_address < address_limit(),
    }
}

impl Transaction {
    /// The transaction that a stored one stands for.
    pub fn from(value: dto::Transaction) -> (r: Transaction)
        requires
            loadable_transaction(value@.variant),
        ensures
            r@ == value@,
    {
        let hash = value.hash();
        let dto::Transaction::V0 { hash: _, variant: stored } = value;
        let variant = match stored {
            dto::TransactionVariantV0::DeclareV0(tx) => TransactionVariant::DeclareV0(
                DeclareTransactionV0V1 {
                    class_hash: ClassHash(tx.class_hash.0),
                    max_fee: Fee(tx.max_fee.0),
                    nonce: TransactionNonce(tx.nonce.0),
                    signature: wrapped_list(&tx.signature),
                    sender_address: ContractAddress::new_or_panic(tx.sender_address.0),
                },
            ),
            dto::TransactionVariantV0::DeclareV1(tx) => TransactionVariant::DeclareV1(
                DeclareTransactionV0V1 {
                    class_hash: ClassHash(tx.class_hash.0),
                    max_fee: Fee(tx.max_fee.0),
                    nonce: TransactionNonce(tx.nonce.0),
                    signature: wrapped_list(&tx.signature),
                    sender_address: ContractAddress(tx.sender_address.0),
                },
            ),
            dto::TransactionVariantV0::DeclareV2(tx) => TransactionVariant::DeclareV2(
                DeclareTransactionV2 {
                    class_hash: ClassHash(tx.class_hash.0),
                    max_fee: Fee(tx.max_fee.0),
                    nonce: TransactionNonce(tx.nonce.0),
                    signature: wrapped_list(&tx.signature),
                    sender_address: ContractAddress(tx.sender_address.0),
                    compiled_class_hash: CasmHash::new_or_panic(tx.compiled_class_hash.0),
                },
            ),
            dto::TransactionVariantV0::DeclareV3(tx) => TransactionVariant::DeclareV3(
                DeclareTransactionV3 {
                    class_hash: ClassHash(tx.class_hash.0),
                    nonce: TransactionNonce(tx.nonce.0),
                    nonce_data_availability_mode: DataAvailabilityMode::from(tx.nonce_data_availability_mode),
                    fee_data_availability_mode: DataAvailabilityMode::from(tx.fee_data_availability_mode),
                    resource_bounds: ResourceBounds::from(tx.resource_bounds),
                    tip: tx.tip,
                    paymaster_data: wrapped_list(&tx.paymaster_data),
                    signature: wrapped_list(&tx.signature),
                    account_deployment_data: wrapped_list(&tx.account_deployment_data),
                    sender_address: ContractAddress::new_or_panic(tx.sender_address.0),
                    compiled_class_hash: CasmHash::new_or_panic(tx.compiled_class_hash.0),
                },
            ),
            dto::TransactionVariantV0::Deploy(tx) => TransactionVariant::Deploy(
                DeployTransaction {
                    contract_address: ContractAddress::new_or_panic(tx.contract_address.0),
                    version: TransactionVersion(tx.version.0),
                    contract_address_salt: ContractAddressSalt(tx.contract_address_salt.0),
                    class_hash: ClassHash(tx.class_hash.0),
                    constructor_calldata: wrapped_list(&tx.constructor_calldata),
                },
            ),
            dto::TransactionVariantV0::DeployAccountV1(tx) => TransactionVariant::DeployAccountV1(
                DeployAccountTransactionV1 {
                    contract_address: ContractAddress::new_or_panic(tx.contract_address.0),
                    max_fee: Fee(tx.max_fee.0),
                    signature: wrapped_list(&tx.signature),
                    nonce: TransactionNonce(tx.nonce.0),
                    contract_address_salt: ContractAddressSalt(tx.contract_address_salt.0),
                    constructor_calldata: wrapped_list(&tx.constructor_calldata),
                    class_hash: ClassHash(tx.class_hash.0),
                },
            ),
            dto::TransactionVariantV0::DeployAccountV3(tx) => TransactionVariant::DeployAccountV3(
                DeployAccountTransactionV3 {
                    contract_address: ContractAddress::new_or_panic(tx.sender_address.0),
                    signature: wrapped_list(&tx.signature),
                    nonce: TransactionNonce(tx.nonce.0),
                    nonce_data_availability_mode: DataAvailabilityMode::from(tx.nonce_data_availability_mode),
                    fee_data_availability_mode: DataAvailabilityMode::from(tx.fee_data_availability_mode),
                    resource_bounds: ResourceBounds::from(tx.resource_bounds),
                    tip: tx.tip,
                    paymaster_data: wrapped_list(&tx.paymaster_data),
                    contract_address_salt: ContractAddressSalt(tx.contract_address_salt.0),
                    constructor_calldata: wrapped_list(&tx.constructor_calldata),
                    class_hash: ClassHash(tx.class_hash.0),
                },
            ),
            dto::TransactionVariantV0::InvokeV0(tx) => TransactionVariant::InvokeV0(
                InvokeTransactionV0 {
                    calldata: wrapped_list(&tx.calldata),
                    sender_address: ContractAddress::new_or_panic(tx.sender_address.0),
                    entry_point_selector: EntryPoint(tx.entry_point_selector.0),
                    entry_point_type: match tx.entry_point_type {
                        Some(entry_point_type) => Some(EntryPointType::from(entry_point_type)),
                        None => None,
                    },
                    max_fee: Fee(tx.max_fee.0),
                    signature: wrapped_list(&tx.signature),
                },
            ),
            dto::TransactionVariantV0::InvokeV1(tx) => TransactionVariant::InvokeV1(
                InvokeTransactionV1 {
                    calldata: wrapped_list(&tx.calldata),
                    sender_address: ContractAddress::new_or_panic(tx.sender_address.0),
                    max_fee: Fee(tx.max_fee.0),
                    signature: wrapped_list(&tx.signature),
                    nonce: TransactionNonce(tx.nonce.0),
                },
            ),
            dto::TransactionVariantV0::InvokeV3(tx) => TransactionVariant::InvokeV3(
                InvokeTransactionV3 {
                    signature: wrapped_list(&tx.signature),
                    nonce: TransactionNonce(tx.nonce.0),
                    nonce_data_availability_mode: DataAvailabilityMode::from(tx.nonce_data_availability_mode),
                    fee_data_availability_mode: DataAvailabilityMode::from(tx.fee_data_availability_mode),
                    resource_bounds: ResourceBounds::from(tx.resource_bounds),
                    tip: tx.tip,
                    paymaster_data: wrapped_list(&tx.paymaster_data),
                    account_deployment_data: wrapped_list(&tx.account_deployment_data),
                    calldata: wrapped_list(&tx.calldata),
                    sender_address: ContractAddress::new_or_panic(tx.sender_address.0),
                },
            ),
            dto::TransactionVariantV0::L1HandlerV0(tx) => TransactionVariant::L1Handler(
                L1HandlerTransaction {
                    contract_address: ContractAddress::new_or_panic(tx.contract_address.0),
                    entry_point_selector: EntryPoint(tx.entry_point_selector.0),
                    nonce: TransactionNonce(tx.nonce.0),
                    calldata: wrapped_list(&tx.calldata),
                },
            ),
        };
        Transaction { hash, variant }
    }
}

/// Choices are stored as themselves and loaded as themselves.
pub proof fn lemma_choices_are_stored_as_themselves(
    entry_point: EntryPointType,
    stored_entry_point: dto::EntryPointType,
    mode: DataAvailabilityMode,
    stored_mode: dto::DataAvailabilityMode,
)
    ensures
        <dto::EntryPointType as FromSpec<EntryPointType>>::from_spec(entry_point) is External <==> entry_point
            is External,
        <EntryPointType as FromSpec<dto::EntryPointType>>::from_spec(stored_entry_point) is External
            <==> stored_entry_point is External,
        <dto::DataAvailabilityMode as FromSpec<DataAvailabilityMode>>::from_spec(mode) is L1 <==> mode is L1,
        <DataAvailabilityMode as FromSpec<dto::DataAvailabilityMode>>::from_spec(stored_mode) is L1 <==> stored_mode
            is L1,
{
}

/// Field elements and counters are stored and loaded unchanged.
pub proof fn lemma_numbers_are_stored_unchanged(
    felt: Felt,
    stored_felt: MinimalFelt,
    counters: BuiltinCounters,
    stored: dto::BuiltinCounters,
)
    ensures
        <MinimalFelt as FromSpec<Felt>>::from_spec(felt)@ == felt@,
        <Felt as FromSpec<MinimalFelt>>::from_spec(stored_felt)@ == stored_felt@,
        <dto::BuiltinCounters as FromSpec<BuiltinCounters>>::from_spec(counters).output == counters.output,
        <BuiltinCounters as FromSpec<dto::BuiltinCounters>>::from_spec(stored).output == stored.output,
        <dto::BuiltinCounters as FromSpec<BuiltinCounters>>::from_spec(counters).pedersen == counters.pedersen,
        <BuiltinCounters as FromSpec<dto::BuiltinCounters>>::from_spec(stored).pedersen == stored.pedersen,
        <dto::BuiltinCounters as FromSpec<BuiltinCounters>>::from_spec(counters).range_check == counters.range_check,
        <BuiltinCounters as FromSpec<dto::BuiltinCounters>>::from_spec(stored).range_check == stored.range_check,
        <dto::BuiltinCounters as FromSpec<BuiltinCounters>>::from_spec(counters).ecdsa == counters.ecdsa,
        <BuiltinCounters as FromSpec<dto::BuiltinCounters>>::from_spec(stored).ecdsa == stored.ecdsa,
        <dto::BuiltinCounters as FromSpec<BuiltinCounters>>::from_spec(counters).bitwise == counters.bitwise,
        <BuiltinCounters as FromSpec<dto::BuiltinCounters>>::from_spec(stored).bitwise == stored.bitwise,
        <dto::BuiltinCounters as FromSpec<BuiltinCounters>>::from_spec(counters).ec_op == counters.ec_op,
        <BuiltinCounters as FromSpec<dto::BuiltinCounters>>::from_spec(stored).ec_op == stored.ec_op,
        <dto::BuiltinCounters as FromSpec<BuiltinCounters>>::from_spec(counters).keccak == counters.keccak,
        <BuiltinCounters as FromSpec<dto::BuiltinCounters>>::from_spec(stored).keccak == stored.keccak,
        <dto::BuiltinCounters as FromSpec<BuiltinCounters>>::from_spec(counters).poseidon == counters.poseidon,
        <BuiltinCounters as FromSpec<dto::BuiltinCounters>>::from_spec(stored).poseidon == stored.poseidon,
        <dto::BuiltinCounters as FromSpec<BuiltinCounters>>::from_spec(counters).segment_arena == counters.segment_arena,
        <BuiltinCounters as FromSpec<dto::BuiltinCounters>>::from_spec(stored).segment_arena == stored.segment_arena,
{
}

/// Bounds are stored and loaded unchanged, each for its own resource.
pub proof fn lemma_bounds_are_stored_unchanged(bounds: ResourceBounds, stored: dto::ResourceBounds)
    ensures
        <dto::ResourceBounds as FromSpec<ResourceBounds>>::from_spec(bounds)@ == bounds,
        <ResourceBounds as FromSpec<dto::ResourceBounds>>::from_spec(stored) == stored@,
        <dto::ResourceBound as FromSpec<ResourceBound>>::from_spec(bounds.l1_gas)@ == bounds.l1_gas,
        <ResourceBound as FromSpec<dto::ResourceBound>>::from_spec(stored.l2_gas) == stored.l2_gas@,
        stored@.l1_gas.max_amount == stored.l1_gas.max_amount,
        stored@.l1_gas.max_price_per_unit == stored.l1_gas.max_price_per_unit,
        stored@.l2_gas.max_amount == stored.l2_gas.max_amount,
        stored@.l2_gas.max_price_per_unit == stored.l2_gas.max_price_per_unit,
{
}

/// Resources are loaded as they were stored. Where an amount of gas was not stored, both count as
/// zero.
pub proof fn lemma_resources(resources: ExecutionResources, stored: dto::ExecutionResources)
    ensures
        loaded_resources(stored_resources(resources)) == resources,
        stored_resources(resources).n_steps == resources.n_steps,
        stored_resources(resources).n_memory_holes == resources.n_memory_holes,
        stored_resources(resources).data_availability.l1_gas == Some(resources.data_availability.l1_gas),
        stored_resources(resources).data_availability.l1_data_gas == Some(resources.data_availability.l1_data_gas),
        stored_resources(resources).builtins == <dto::BuiltinCounters as FromSpec<BuiltinCounters>>::from_spec(
            resources.builtins,
        ),
        loaded_resources(stored).n_steps == stored.n_steps,
        loaded_resources(stored).n_memory_holes == stored.n_memory_holes,
        loaded_resources(stored).builtins == <BuiltinCounters as FromSpec<dto::BuiltinCounters>>::from_spec(
            stored.builtins,
        ),
        ({
            let gas = loaded_resources(stored).data_availability;
            let known = stored.data_availability;
            if known.l1_gas is Some && known.l1_data_gas is Some {
                known.l1_gas == Some(gas.l1_gas) && known.l1_data_gas == Some(gas.l1_data_gas)
            } else {
                gas.l1_gas == 0 && gas.l1_data_gas == 0
            }
        }),
{
}

/// A receipt is stored and loaded part by part. Where no resources were stored, all count as zero.
pub proof fn lemma_receipts_part_by_part(receipt: ReceiptView, stored: dto::ReceiptV0View)
    ensures
        stored_receipt(receipt).actual_fee == receipt.actual_fee,
        stored_receipt(receipt).execution_resources == Some(stored_resources(receipt.execution_resources)),
        stored_receipt(receipt).l2_to_l1_messages == receipt.l2_to_l1_messages,
        stored_receipt(receipt).transaction_hash == receipt.transaction_hash,
        stored_receipt(receipt).transaction_index == receipt.transaction_index,
        stored_receipt(receipt).execution_status == receipt.execution_status,
        loaded_receipt(stored).actual_fee == stored.actual_fee,
        loaded_receipt(stored).l2_to_l1_messages == stored.l2_to_l1_messages,
        loaded_receipt(stored).transaction_hash == stored.transaction_hash,
        loaded_receipt(stored).transaction_index == stored.transaction_index,
        loaded_receipt(stored).execution_status == stored.execution_status,
        stored.execution_resources matches Some(resources) ==> loaded_receipt(stored).execution_resources
            == loaded_resources(resources),
        stored.execution_resources is None ==> ({
            let none = loaded_receipt(stored).execution_resources;
            &&& none.n_steps == 0 && none.n_memory_holes == 0
            &&& none.data_availability.l1_gas == 0 && none.data_availability.l1_data_gas == 0
            &&& none.builtins.output == 0 && none.builtins.pedersen == 0 && none.builtins.range_check == 0
            &&& none.builtins.ecdsa == 0 && none.builtins.bitwise == 0 && none.builtins.ec_op == 0
            &&& none.builtins.keccak == 0 && none.builtins.poseidon == 0 && none.builtins.segment_arena == 0
        }),
{
}

} // verus!
