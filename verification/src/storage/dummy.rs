//! Rows with arbitrary contents, for trying things out.
//!
//! The caller draws the values. What is not drawn follows rules of its own: fields that the
//! peer-to-peer protocol does not carry are left empty, and lists of which it carries one element
//! have one.
use crate::common::Tip;
use crate::felt::Felt;
use crate::storage::dto::{BuiltinCounters, DataAvailabilityMode, DeclareTransactionV0V1, DeclareTransactionV3,
    DeployAccountTransactionV1, DeployAccountTransactionV3, DeployTransaction, ExecutionDataAvailability,
    ExecutionResources, InvokeTransactionV0, InvokeTransactionV3, L1HandlerTransactionV0, MinimalFelt,
    ResourceBounds};
use vstd::prelude::*;

verus! {

/// The fields that all transactions of version 3 have.
#[derive(Clone, Copy, Debug, PartialEq, Eq)]
pub struct DrawnV3 {
    pub nonce: MinimalFelt,
    pub nonce_data_availability_mode: DataAvailabilityMode,
    pub fee_data_availability_mode: DataAvailabilityMode,
    pub resource_bounds: ResourceBounds,
    pub tip: Tip,
    /// The only element of the paymaster data.
    pub paymaster_data: MinimalFelt,
}

/// A list with one element.
fn single(felt: MinimalFelt) -> (r: Vec<MinimalFelt>)
    ensures
        r@ == seq![felt],
{
    let mut r: Vec<MinimalFelt> = Vec::new();
    r.push(felt);
    assert(r@ =~= seq![felt]);
    r
}

impl BuiltinCounters {
    /// Counters that hold drawn numbers. The segment arena is not used.
    pub fn dummy(
        output: u32,
        pedersen: u32,
        range_check: u32,
        ecdsa: u32,
        bitwise: u32,
        ec_op: u32,
        keccak: u32,
        poseidon: u32,
    ) -> (r: BuiltinCounters)
        ensures
            r == (BuiltinCounters {
                output: output as u64,
                pedersen: pedersen as u64,
                range_check: range_check as u64,
                ecdsa: ecdsa as u64,
                bitwise: bitwise as u64,
                ec_op: ec_op as u64,
                keccak: keccak as u64,
                poseidon: poseidon as u64,
                segment_arena: 0,
            }),
    {
        BuiltinCounters {
            output: output as u64,
            pedersen: pedersen as u64,
            range_check: range_check as u64,
            ecdsa: ecdsa as u64,
            bitwise: bitwise as u64,
            ec_op: ec_op as u64,
            keccak: keccak as u64,
            poseidon: poseidon as u64,
            segment_arena: 0,
        }
    }
}

impl ExecutionResources {
    /// Resources that hold drawn numbers. Either both amounts of gas are known, or none is.
    pub fn dummy(gas: Option<(u32, u32)>, builtins: BuiltinCounters, n_steps: u32, n_memory_holes: u32) -> (r:
        ExecutionResources)
        ensures
            r == (ExecutionResources {
                builtins,
                n_steps: n_steps as u64,
                n_memory_holes: n_memory_holes as u64,
                data_availability: match gas {
                    Some((l1_gas, l1_data_gas)) => ExecutionDataAvailability {
                        l1_gas: Some(l1_gas as u128),
                        l1_data_gas: Some(l1_data_gas as u128),
                    },
                    None => ExecutionDataAvailability { l1_gas: None, l1_data_gas: None },
                },
            }),
    {
        let data_availability = match gas {
            Some((l1_gas, l1_data_gas)) => ExecutionDataAvailability {
                l1_gas: Some(l1_gas as u128),
                l1_data_gas: Some(l1_data_gas as u128),
            },
            None => ExecutionDataAvailability { l1_gas: None, l1_data_gas: None },
        };
        ExecutionResources {
            builtins,
            n_steps: n_steps as u64,
            n_memory_holes: n_memory_holes as u64,
            data_availability,
        }
    }
}

impl DeclareTransactionV0V1 {
    /// A transaction with a nonce of zero.
    pub fn dummy(
        class_hash: MinimalFelt,
        max_fee: MinimalFelt,
        sender_address: MinimalFelt,
        signature: Vec<MinimalFelt>,
    ) -> (r: DeclareTransactionV0V1)
        ensures
            r.class_hash == class_hash,
            r.max_fee == max_fee,
            r.nonce@ == 0,
            r.sender_address == sender_address,
            r.signature == signature,
    {
        DeclareTransactionV0V1 { class_hash, max_fee, nonce: MinimalFelt(Felt::zero()), sender_address, signature }
    }
}

impl DeclareTransactionV3 {
    /// A transaction whose paymaster data and account deployment data have one element each.
    pub fn dummy(
        class_hash: MinimalFelt,
        drawn: DrawnV3,
        sender_address: MinimalFelt,
        signature: Vec<MinimalFelt>,
        compiled_class_hash: MinimalFelt,
        account_deployment_data: MinimalFelt,
    ) -> (r: DeclareTransactionV3)
        ensures
            r.class_hash == class_hash,
            r.nonce == drawn.nonce,
            r.nonce_data_availability_mode == drawn.nonce_data_availability_mode,
            r.fee_data_availability_mode == drawn.fee_data_availability_mode,
            r.resource_bounds == drawn.resource_bounds,
            r.tip == drawn.tip,
            r.paymaster_data@ == seq![drawn.paymaster_data],
            r.sender_address == sender_address,
            r.signature == signature,
            r.compiled_class_hash == compiled_class_hash,
            r.account_deployment_data@ == seq![account_deployment_data],
    {
        DeclareTransactionV3 {
            class_hash,
            nonce: drawn.nonce,
            nonce_data_availability_mode: drawn.nonce_data_availability_mode,
            fee_data_availability_mode: drawn.fee_data_availability_mode,
            resource_bounds: drawn.resource_bounds,
            tip: drawn.tip,
            paymaster_data: single(drawn.paymaster_data),
            sender_address,
            signature,
            compiled_class_hash,
            account_deployment_data: single(account_deployment_data),
        }
    }
}

impl DeployTransaction {
    /// A transaction of version 0 or 1 with an address of zero.
    pub fn dummy(
        is_version_one: bool,
        contract_address_salt: MinimalFelt,
        class_hash: MinimalFelt,
        constructor_calldata: Vec<MinimalFelt>,
    ) -> (r: DeployTransaction)
        ensures
            r.version@ == if is_version_one {
                1nat
            } else {
                0nat
            },
            r.contract_address@ == 0,
            r.contract_address_salt == contract_address_salt,
            r.class_hash == class_hash,
            r.constructor_calldata == constructor_calldata,
    {
        let version: u64 = if is_version_one {
            1
        } else {
            0
        };
        DeployTransaction {
            version: MinimalFelt(Felt::from_u64(version)),
            contract_address: MinimalFelt(Felt::zero()),
            contract_address_salt,
            class_hash,
            constructor_calldata,
        }
    }
}

impl DeployAccountTransactionV1 {
    /// A transaction that deploys to an address that was derived from the other fields.
    pub fn dummy(
        contract_address: MinimalFelt,
        max_fee: MinimalFelt,
        signature: Vec<MinimalFelt>,
        nonce: MinimalFelt,
        contract_address_salt: MinimalFelt,
        constructor_calldata: Vec<MinimalFelt>,
        class_hash: MinimalFelt,
    ) -> (r: DeployAccountTransactionV1)
        ensures
            r == (DeployAccountTransactionV1 {
                contract_address,
                max_fee,
                signature,
                nonce,
                contract_address_salt,
                constructor_calldata,
                class_hash,
            }),
    {
        DeployAccountTransactionV1 {
            contract_address,
            max_fee,
            signature,
            nonce,
            contract_address_salt,
            constructor_calldata,
            class_hash,
        }
    }
}

impl DeployAccountTransactionV3 {
    /// A transaction that deploys to an address that was derived from the other fields, and whose
    /// paymaster data has one element.
    pub fn dummy(
        contract_address: MinimalFelt,
        drawn: DrawnV3,
        signature: Vec<MinimalFelt>,
        contract_address_salt: MinimalFelt,
        constructor_calldata: Vec<MinimalFelt>,
        class_hash: MinimalFelt,
    ) -> (r: DeployAccountTransactionV3)
        ensures
            r.sender_address == contract_address,
            r.signature == signature,
            r.nonce == drawn.nonce,
            r.nonce_data_availability_mode == drawn.nonce_data_availability_mode,
            r.fee_data_availability_mode == drawn.fee_data_availability_mode,
            r.resource_bounds == drawn.resource_bounds,
            r.tip == drawn.tip,
            r.paymaster_data@ == seq![drawn.paymaster_data],
            r.contract_address_salt == contract_address_salt,
            r.constructor_calldata == constructor_calldata,
            r.class_hash == class_hash,
    {
        DeployAccountTransactionV3 {
            nonce: drawn.nonce,
            nonce_data_availability_mode: drawn.nonce_data_availability_mode,
            fee_data_availability_mode: drawn.fee_data_availability_mode,
            resource_bounds: drawn.resource_bounds,
            tip: drawn.tip,
            paymaster_data: single(drawn.paymaster_data),
            sender_address: contract_address,
            signature,
            contract_address_salt,
            constructor_calldata,
            class_hash,
        }
    }
}

impl InvokeTransactionV0 {
    /// A transaction that does not say what its entry point is.
    pub fn dummy(
        calldata: Vec<MinimalFelt>,
        sender_address: MinimalFelt,
        entry_point_selector: MinimalFelt,
        max_fee: MinimalFelt,
        signature: Vec<MinimalFelt>,
    ) -> (r: InvokeTransactionV0)
        ensures
            r == (InvokeTransactionV0 {
                calldata,
                sender_address,
                entry_point_selector,
                entry_point_type: None,
                max_fee,
                signature,
            }),
    {
        InvokeTransactionV0 {
            calldata,
            sender_address,
            entry_point_selector,
            entry_point_type: None,
            max_fee,
            signature,
        }
    }
}

impl InvokeTransactionV3 {
    /// A transaction whose paymaster data and account deployment data have one element each.
    pub fn dummy(
        drawn: DrawnV3,
        sender_address: MinimalFelt,
        signature: Vec<MinimalFelt>,
        calldata: Vec<MinimalFelt>,
        account_deployment_data: MinimalFelt,
    ) -> (r: InvokeTransactionV3)
        ensures
            r.nonce == drawn.nonce,
            r.nonce_data_availability_mode == drawn.nonce_data_availability_mode,
            r.fee_data_availability_mode == drawn.fee_data_availability_mode,
            r.resource_bounds == drawn.resource_bounds,
            r.tip == drawn.tip,
            r.paymaster_data@ == seq![drawn.paymaster_data],
            r.sender_address == sender_address,
            r.signature == signature,
            r.calldata == calldata,
            r.account_deployment_data@ == seq![account_deployment_data],
    {
        InvokeTransactionV3 {
            nonce: drawn.nonce,
            nonce_data_availability_mode: drawn.nonce_data_availability_mode,
            fee_data_availability_mode: drawn.fee_data_availability_mode,
            resource_bounds: drawn.resource_bounds,
            tip: drawn.tip,
            paymaster_data: single(drawn.paymaster_data),
            sender_address,
            signature,
            calldata,
            account_deployment_data: single(account_deployment_data),
        }
    }
}

impl L1HandlerTransactionV0 {
    /// A transaction with drawn fields.
    pub fn dummy(
        contract_address: MinimalFelt,
        entry_point_selector: MinimalFelt,
        nonce: MinimalFelt,
        calldata: Vec<MinimalFelt>,
    ) -> (r: L1HandlerTransactionV0)
        ensures
            r == (L1HandlerTransactionV0 { contract_address, entry_point_selector, nonce, calldata }),
    {
        L1HandlerTransactionV0 { contract_address, entry_point_selector, nonce, calldata }
    }
}

} // verus!
