//! Block headers.
use crate::common::{BlockHash, BlockNumber, BlockTimestamp, EventCommitment, GasPrice, SequencerAddress,
    StarknetVersion, StateCommitment, TransactionCommitment};
use crate::felt::Felt;
use vstd::prelude::*;

verus! {

/// The header of a block.
#[derive(Clone, Debug, PartialEq, Eq)]
pub struct BlockHeader {
    pub hash: BlockHash,
    pub parent_hash: BlockHash,
    pub number: BlockNumber,
    pub timestamp: BlockTimestamp,
    pub eth_l1_gas_price: GasPrice,
    pub sequencer_address: SequencerAddress,
    pub starknet_version: StarknetVersion,
    pub state_commitment: StateCommitment,
    pub transaction_commitment: TransactionCommitment,
    pub event_commitment: EventCommitment,
    pub transaction_count: usize,
    pub event_count: usize,
}

impl Default for BlockHeader {
    /// The header of an empty first block.
    fn default() -> (r: BlockHeader)
        ensures
            r.hash@ == 0,
            r.parent_hash@ == 0,
            r.number@ == 0,
            r.timestamp.0 == 0,
            r.eth_l1_gas_price.0 == 0,
            r.sequencer_address@ == 0,
            r.starknet_version.0@ == Seq::<char>::empty(),
            r.state_commitment@ == 0,
            r.transaction_commitment@ == 0,
            r.event_commitment@ == 0,
            r.transaction_count == 0,
            r.event_count == 0,
    {
        BlockHeader {
            hash: BlockHash(Felt::zero()),
            parent_hash: BlockHash(Felt::zero()),
            number: BlockNumber::genesis(),
            timestamp: BlockTimestamp(0),
            eth_l1_gas_price: GasPrice(0),
            sequencer_address: SequencerAddress(Felt::zero()),
            starknet_version: StarknetVersion(String::new()),
            state_commitment: StateCommitment(Felt::zero()),
            transaction_commitment: TransactionCommitment(Felt::zero()),
            event_commitment: EventCommitment(Felt::zero()),
            transaction_count: 0,
            event_count: 0,
        }
    }
}

} // verus!
