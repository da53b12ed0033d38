//! The vocabulary of the chain.
use crate::bytes::{lemma_pow256_is_pow2, pow256};
use crate::felt::Felt;
use vstd::arithmetic::power2::{lemma2_to64, lemma_pow2_adds, pow2};
use vstd::prelude::*;

pub mod event;
pub mod header;
pub mod receipt;
pub mod transaction;

verus! {

/// A type that gives a field element a meaning. Its view is the element's number.
pub trait FeltWrapper: View<V = nat> + Sized {
    /// The element.
    fn as_inner(&self) -> (r: &Felt)
        ensures
            r@ == self@,
    ;

    /// Gives an element this type's meaning.
    fn from_felt(felt: Felt) -> (r: Self)
        ensures
            r@ == felt@,
    ;
}

/// The views of values, in order.
pub open spec fn views<T: View>(values: Seq<T>) -> Seq<T::V> {
    Seq::new(values.len(), |i: int| values[i]@)
}

/// The first number that needs more than 251 bits: contract addresses and compiled class hashes
/// are smaller.
pub open spec fn address_limit() -> nat {
    8 * pow256(31)
}

/// A number needs more than 251 bits exactly where it is not below 2^251.
pub proof fn lemma_address_limit()
    ensures
        address_limit() == pow2(251),
{
    lemma_pow256_is_pow2(31);
    lemma2_to64();
    lemma_pow2_adds(3, 248);
}

/// An element of the data that deploys an account.
#[derive(Clone, Copy, Debug, PartialEq, Eq)]
pub struct AccountDeploymentDataElem(pub Felt);

impl View for AccountDeploymentDataElem {
    type V = nat;

    open spec fn view(&self) -> nat {
        self.0@
    }
}

impl FeltWrapper for AccountDeploymentDataElem {
    fn as_inner(&self) -> (r: &Felt) {
        &self.0
    }

    fn from_felt(felt: Felt) -> (r: AccountDeploymentDataElem) {
        AccountDeploymentDataElem(felt)
    }
}

/// The hash of a block.
#[derive(Clone, Copy, Debug, PartialEq, Eq)]
pub struct BlockHash(pub Felt);

impl View for BlockHash {
    type V = nat;

    open spec fn view(&self) -> nat {
        self.0@
    }
}

impl FeltWrapper for BlockHash {
    fn as_inner(&self) -> (r: &Felt) {
        &self.0
    }

    fn from_felt(felt: Felt) -> (r: BlockHash) {
        BlockHash(felt)
    }
}

/// A parameter of a contract call.
#[derive(Clone, Copy, Debug, PartialEq, Eq)]
pub struct CallParam(pub Felt);

impl View for CallParam {
    type V = nat;

    open spec fn view(&self) -> nat {
        self.0@
    }
}

impl FeltWrapper for CallParam {
    fn as_inner(&self) -> (r: &Felt) {
        &self.0
    }

    fn from_felt(felt: Felt) -> (r: CallParam) {
        CallParam(felt)
    }
}

/// The hash of a compiled class.
#[derive(Clone, Copy, Debug, PartialEq, Eq)]
pub struct CasmHash(pub Felt);

impl View for CasmHash {
    type V = nat;

    open spec fn view(&self) -> nat {
        self.0@
    }
}

impl FeltWrapper for CasmHash {
    fn as_inner(&self) -> (r: &Felt) {
        &self.0
    }

    fn from_felt(felt: Felt) -> (r: CasmHash) {
        CasmHash(felt)
    }
}

/// The hash of a class.
#[derive(Clone, Copy, Debug, PartialEq, Eq)]
pub struct ClassHash(pub Felt);

impl View for ClassHash {
    type V = nat;

    open spec fn view(&self) -> nat {
        self.0@
    }
}

impl FeltWrapper for ClassHash {
    fn as_inner(&self) -> (r: &Felt) {
        &self.0
    }

    fn from_felt(felt: Felt) -> (r: ClassHash) {
        ClassHash(felt)
    }
}

/// A parameter of a constructor call.
#[derive(Clone, Copy, Debug, PartialEq, Eq)]
pub struct ConstructorParam(pub Felt);

impl View for ConstructorParam {
    type V = nat;

    open spec fn view(&self) -> nat {
        self.0@
    }
}

impl FeltWrapper for ConstructorParam {
    fn as_inner(&self) -> (r: &Felt) {
        &self.0
    }

    fn from_felt(felt: Felt) -> (r: ConstructorParam) {
        ConstructorParam(felt)
    }
}

/// The address of a contract.
#[derive(Clone, Copy, Debug, PartialEq, Eq)]
pub struct ContractAddress(pub Felt);

impl View for ContractAddress {
    type V = nat;

    open spec fn view(&self) -> nat {
        self.0@
    }
}

impl FeltWrapper for ContractAddress {
    fn as_inner(&self) -> (r: &Felt) {
        &self.0
    }

    fn from_felt(felt: Felt) -> (r: ContractAddress) {
        ContractAddress(felt)
    }
}

/// The salt that a contract's address is derived from.
#[derive(Clone, Copy, Debug, PartialEq, Eq)]
pub struct ContractAddressSalt(pub Felt);

impl View for ContractAddressSalt {
    type V = nat;

    open spec fn view(&self) -> nat {
        self.0@
    }
}

impl FeltWrapper for ContractAddressSalt {
    fn as_inner(&self) -> (r: &Felt) {
        &self.0
    }

    fn from_felt(felt: Felt) -> (r: ContractAddressSalt) {
        ContractAddressSalt(felt)
    }
}

/// The selector of an entry point.
#[derive(Clone, Copy, Debug, PartialEq, Eq)]
pub struct EntryPoint(pub Felt);

impl View for EntryPoint {
    type V = nat;

    open spec fn view(&self) -> nat {
        self.0@
    }
}

impl FeltWrapper for EntryPoint {
    fn as_inner(&self) -> (r: &Felt) {
        &self.0
    }

    fn from_felt(felt: Felt) -> (r: EntryPoint) {
        EntryPoint(felt)
    }
}

/// The commitment to a block's events.
#[derive(Clone, Copy, Debug, PartialEq, Eq)]
pub struct EventCommitment(pub Felt);

impl View for EventCommitment {
    type V = nat;

    open spec fn view(&self) -> nat {
        self.0@
    }
}

impl FeltWrapper for EventCommitment {
    fn as_inner(&self) -> (r: &Felt) {
        &self.0
    }

    fn from_felt(felt: Felt) -> (r: EventCommitment) {
        EventCommitment(felt)
    }
}

/// An element of an event's data.
#[derive(Clone, Copy, Debug, PartialEq, Eq)]
pub struct EventData(pub Felt);

impl View for EventData {
    type V = nat;

    open spec fn view(&self) -> nat {
        self.0@
    }
}

impl FeltWrapper for EventData {
    fn as_inner(&self) -> (r: &Felt) {
        &self.0
    }

    fn from_felt(felt: Felt) -> (r: EventData) {
        EventData(felt)
    }
}

/// A key of an event.
#[derive(Clone, Copy, Debug, PartialEq, Eq)]
pub struct EventKey(pub Felt);

impl View for EventKey {
    type V = nat;

    open spec fn view(&self) -> nat {
        self.0@
    }
}

impl FeltWrapper for EventKey {
    fn as_inner(&self) -> (r: &Felt) {
        &self.0
    }

    fn from_felt(felt: Felt) -> (r: EventKey) {
        EventKey(felt)
    }
}

/// A fee.
#[derive(Clone, Copy, Debug, PartialEq, Eq)]
pub struct Fee(pub Felt);

impl View for Fee {
    type V = nat;

    open spec fn view(&self) -> nat {
        self.0@
    }
}

impl FeltWrapper for Fee {
    fn as_inner(&self) -> (r: &Felt) {
        &self.0
    }

    fn from_felt(felt: Felt) -> (r: Fee) {
        Fee(felt)
    }
}

/// An element of the payload of a message to L1.
#[derive(Clone, Copy, Debug, PartialEq, Eq)]
pub struct L2ToL1MessagePayloadElem(pub Felt);

impl View for L2ToL1MessagePayloadElem {
    type V = nat;

    open spec fn view(&self) -> nat {
        self.0@
    }
}

impl FeltWrapper for L2ToL1MessagePayloadElem {
    fn as_inner(&self) -> (r: &Felt) {
        &self.0
    }

    fn from_felt(felt: Felt) -> (r: L2ToL1MessagePayloadElem) {
        L2ToL1MessagePayloadElem(felt)
    }
}

/// An element of a paymaster's data.
#[derive(Clone, Copy, Debug, PartialEq, Eq)]
pub struct PaymasterDataElem(pub Felt);

impl View for PaymasterDataElem {
    type V = nat;

    open spec fn view(&self) -> nat {
        self.0@
    }
}

impl FeltWrapper for PaymasterDataElem {
    fn as_inner(&self) -> (r: &Felt) {
        &self.0
    }

    fn from_felt(felt: Felt) -> (r: PaymasterDataElem) {
        PaymasterDataElem(felt)
    }
}

/// The address of the sequencer of a block.
#[derive(Clone, Copy, Debug, PartialEq, Eq)]
pub struct SequencerAddress(pub Felt);

impl View for SequencerAddress {
    type V = nat;

    open spec fn view(&self) -> nat {
        self.0@
    }
}

impl FeltWrapper for SequencerAddress {
    fn as_inner(&self) -> (r: &Felt) {
        &self.0
    }

    fn from_felt(felt: Felt) -> (r: SequencerAddress) {
        SequencerAddress(felt)
    }
}

/// The commitment to the state.
#[derive(Clone, Copy, Debug, PartialEq, Eq)]
pub struct StateCommitment(pub Felt);

impl View for StateCommitment {
    type V = nat;

    open spec fn view(&self) -> nat {
        self.0@
    }
}

impl FeltWrapper for StateCommitment {
    fn as_inner(&self) -> (r: &Felt) {
        &self.0
    }

    fn from_felt(felt: Felt) -> (r: StateCommitment) {
        StateCommitment(felt)
    }
}

/// The commitment to a block's transactions.
#[derive(Clone, Copy, Debug, PartialEq, Eq)]
pub struct TransactionCommitment(pub Felt);

impl View for TransactionCommitment {
    type V = nat;

    open spec fn view(&self) -> nat {
        self.0@
    }
}

impl FeltWrapper for TransactionCommitment {
    fn as_inner(&self) -> (r: &Felt) {
        &self.0
    }

    fn from_felt(felt: Felt) -> (r: TransactionCommitment) {
        TransactionCommitment(felt)
    }
}

/// The hash of a transaction.
#[derive(Clone, Copy, Debug, PartialEq, Eq)]
pub struct TransactionHash(pub Felt);

impl View for TransactionHash {
    type V = nat;

    open spec fn view(&self) -> nat {
        self.0@
    }
}

impl FeltWrapper for TransactionHash {
    fn as_inner(&self) -> (r: &Felt) {
        &self.0
    }

    fn from_felt(felt: Felt) -> (r: TransactionHash) {
        TransactionHash(felt)
    }
}

/// The nonce of a transaction.
#[derive(Clone, Copy, Debug, PartialEq, Eq)]
pub struct TransactionNonce(pub Felt);

impl View for TransactionNonce {
    type V = nat;

    open spec fn view(&self) -> nat {
        self.0@
    }
}

impl FeltWrapper for TransactionNonce {
    fn as_inner(&self) -> (r: &Felt) {
        &self.0
    }

    fn from_felt(felt: Felt) -> (r: TransactionNonce) {
        TransactionNonce(felt)
    }
}

/// An element of a transaction's signature.
#[derive(Clone, Copy, Debug, PartialEq, Eq)]
pub struct TransactionSignatureElem(pub Felt);

impl View for TransactionSignatureElem {
    type V = nat;

    open spec fn view(&self) -> nat {
        self.0@
    }
}

impl FeltWrapper for TransactionSignatureElem {
    fn as_inner(&self) -> (r: &Felt) {
        &self.0
    }

    fn from_felt(felt: Felt) -> (r: TransactionSignatureElem) {
        TransactionSignatureElem(felt)
    }
}

/// The version of a transaction.
#[derive(Clone, Copy, Debug, PartialEq, Eq)]
pub struct TransactionVersion(pub Felt);

impl View for TransactionVersion {
    type V = nat;

    open spec fn view(&self) -> nat {
        self.0@
    }
}

impl FeltWrapper for TransactionVersion {
    fn as_inner(&self) -> (r: &Felt) {
        &self.0
    }

    fn from_felt(felt: Felt) -> (r: TransactionVersion) {
        TransactionVersion(felt)
    }
}

impl ContractAddress {
    /// Takes an element that fits 251 bits.
    pub fn new(felt: Felt) -> (r: Option<ContractAddress>)
        ensures
            match r {
                Some(value) => value@ == felt@ && felt@ < address_limit(),
                None => felt@ >= address_limit(),
            },
    {
        if felt.has_more_than_251_bits() {
            None
        } else {
            Some(ContractAddress(felt))
        }
    }

    /// Takes an element that is known to fit 251 bits.
    pub fn new_or_panic(felt: Felt) -> (r: ContractAddress)
        requires
            felt@ < address_limit(),
        ensures
            r@ == felt@,
    {
        ContractAddress(felt)
    }
}

impl CasmHash {
    /// Takes an element that fits 251 bits.
    pub fn new(felt: Felt) -> (r: Option<CasmHash>)
        ensures
            match r {
                Some(value) => value@ == felt@ && felt@ < address_limit(),
                None => felt@ >= address_limit(),
            },
    {
        if felt.has_more_than_251_bits() {
            None
        } else {
            Some(CasmHash(felt))
        }
    }

    /// Takes an element that is known to fit 251 bits.
    pub fn new_or_panic(felt: Felt) -> (r: CasmHash)
        requires
            felt@ < address_limit(),
        ensures
            r@ == felt@,
    {
        CasmHash(felt)
    }
}

/// The tip that a transaction offers.
#[derive(Clone, Copy, Debug, PartialEq, Eq)]
pub struct Tip(pub u64);

/// An amount of a resource.
#[derive(Clone, Copy, Debug, PartialEq, Eq)]
pub struct ResourceAmount(pub u64);

/// The price of a unit of a resource.
#[derive(Clone, Copy, Debug, PartialEq, Eq)]
pub struct ResourcePricePerUnit(pub u128);

/// The price of gas.
#[derive(Clone, Copy, Debug, PartialEq, Eq)]
pub struct GasPrice(pub u128);

/// The time at which a block was made.
#[derive(Clone, Copy, Debug, PartialEq, Eq)]
pub struct BlockTimestamp(pub u64);

/// An address on Ethereum.
#[derive(Clone, Copy, Debug, PartialEq, Eq)]
pub struct EthereumAddress(pub [u8; 20]);

/// The version of Starknet that made a block.
#[derive(Clone, Debug, PartialEq, Eq)]
pub struct StarknetVersion(pub String);

/// The number of a block. It fits a signed 64-bit integer, which is what the database stores.
#[derive(Clone, Copy, Debug, PartialEq, Eq, PartialOrd, Ord)]
pub struct BlockNumber {
    value: u64,
}

impl View for BlockNumber {
    type V = u64;

    closed spec fn view(&self) -> u64 {
        self.value
    }
}

impl BlockNumber {
    #[verifier::type_invariant]
    spec fn storable(self) -> bool {
        self.value <= i64::MAX
    }

    /// Takes a number that the database can store.
    pub fn new(value: u64) -> (r: Option<BlockNumber>)
        ensures
            match r {
                Some(number) => number@ == value && value <= i64::MAX,
                None => value > i64::MAX,
            },
    {
        if value <= i64::MAX as u64 {
            Some(BlockNumber { value })
        } else {
            None
        }
    }

    /// Takes a number that is known to be storable.
    pub fn new_or_panic(value: u64) -> (r: BlockNumber)
        requires
            value <= i64::MAX,
        ensures
            r@ == value,
    {
        BlockNumber { value }
    }

    /// The number.
    pub fn get(&self) -> (r: u64)
        ensures
            r == self@,
            r <= i64::MAX,
    {
        proof {
            use_type_invariant(self);
        }
        self.value
    }
}

/// The position of a transaction in its block. It fits a signed 64-bit integer, which is what the database stores.
#[derive(Clone, Copy, Debug, PartialEq, Eq, PartialOrd, Ord)]
pub struct TransactionIndex {
    value: u64,
}

impl View for TransactionIndex {
    type V = u64;

    closed spec fn view(&self) -> u64 {
        self.value
    }
}

impl TransactionIndex {
    #[verifier::type_invariant]
    spec fn storable(self) -> bool {
        self.value <= i64::MAX
    }

    /// Takes a number that the database can store.
    pub fn new(value: u64) -> (r: Option<TransactionIndex>)
        ensures
            match r {
                Some(number) => number@ == value && value <= i64::MAX,
                None => value > i64::MAX,
            },
    {
        if value <= i64::MAX as u64 {
            Some(TransactionIndex { value })
        } else {
            None
        }
    }

    /// Takes a number that is known to be storable.
    pub fn new_or_panic(value: u64) -> (r: TransactionIndex)
        requires
            value <= i64::MAX,
        ensures
            r@ == value,
    {
        TransactionIndex { value }
    }

    /// The number.
    pub fn get(&self) -> (r: u64)
        ensures
            r == self@,
            r <= i64::MAX,
    {
        proof {
            use_type_invariant(self);
        }
        self.value
    }
}

impl BlockNumber {
    /// The number of the first block.
    pub fn genesis() -> (r: BlockNumber)
        ensures
            r@ == 0,
    {
        BlockNumber { value: 0 }
    }

    /// The largest number that a block can have.
    pub fn max() -> (r: BlockNumber)
        ensures
            r@ == i64::MAX,
    {
        BlockNumber { value: i64::MAX as u64 }
    }
}

/// The views of values are those of each of them, in order.
pub proof fn lemma_views<T: View>(a: Seq<T>, b: Seq<T>, x: T)
    ensures
        views(a).len() == a.len(),
        views(a + b) == views(a) + views(b),
        views(seq![x]) == seq![x@],
{
    assert(views(a + b) =~= views(a) + views(b));
    assert(views(seq![x]) =~= seq![x@]);
}

/// Whatever meaning a field element is given, it is the same number.
pub proof fn lemma_meanings_keep_the_number(felt: Felt)
    ensures
        AccountDeploymentDataElem(felt)@ == felt@,
        BlockHash(felt)@ == felt@,
        CallParam(felt)@ == felt@,
        CasmHash(felt)@ == felt@,
        ClassHash(felt)@ == felt@,
        ConstructorParam(felt)@ == felt@,
        ContractAddress(felt)@ == felt@,
        ContractAddressSalt(felt)@ == felt@,
        EntryPoint(felt)@ == felt@,
        EventCommitment(felt)@ == felt@,
        EventData(felt)@ == felt@,
        EventKey(felt)@ == felt@,
        Fee(felt)@ == felt@,
        L2ToL1MessagePayloadElem(felt)@ == felt@,
        PaymasterDataElem(felt)@ == felt@,
        SequencerAddress(felt)@ == felt@,
        StateCommitment(felt)@ == felt@,
        TransactionCommitment(felt)@ == felt@,
        TransactionHash(felt)@ == felt@,
        TransactionNonce(felt)@ == felt@,
        TransactionSignatureElem(felt)@ == felt@,
        TransactionVersion(felt)@ == felt@,
{
}

} // verus!
