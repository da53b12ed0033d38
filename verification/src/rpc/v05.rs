//! Types of version 0.5 of the RPC interface.
use crate::common::header;
use crate::common::{BlockHash, BlockNumber, BlockTimestamp, GasPrice, SequencerAddress, StarknetVersion,
    StateCommitment};
use vstd::prelude::*;
use vstd::std_specs::convert::{FromSpec, FromSpecImpl};

verus! {

/// The price of a resource.
#[derive(Clone, Copy, Debug, PartialEq, Eq)]
pub struct ResourcePrice {
    pub price_in_wei: GasPrice,
}

impl FromSpecImpl<GasPrice> for ResourcePrice {
    open spec fn obeys_from_spec() -> bool {
        true
    }

    open spec fn from_spec(price: GasPrice) -> ResourcePrice {
        ResourcePrice { price_in_wei: price }
    }
}

impl From<GasPrice> for ResourcePrice {
    fn from(price: GasPrice) -> (r: ResourcePrice) {
        ResourcePrice { price_in_wei: price }
    }
}

/// The header of a block. That of a pending block has no hash, no number and no root yet.
#[derive(Clone, Debug, PartialEq, Eq)]
pub struct BlockHeader {
    pub block_hash: Option<BlockHash>,
    pub parent_hash: BlockHash,
    pub block_number: Option<BlockNumber>,
    pub new_root: Option<StateCommitment>,
    pub timestamp: BlockTimestamp,
    pub sequencer_address: SequencerAddress,
    pub l1_gas_price: ResourcePrice,
    pub starknet_version: StarknetVersion,
}

impl FromSpecImpl<header::BlockHeader> for BlockHeader {
    open spec fn obeys_from_spec() -> bool {
        true
    }

    open spec fn from_spec(header: header::BlockHeader) -> BlockHeader {
        BlockHeader {
            block_hash: Some(header.hash),
            parent_hash: header.parent_hash,
            block_number: Some(header.number),
            new_root: Some(header.state_commitment),
            timestamp: header.timestamp,
            sequencer_address: header.sequencer_address,
            l1_gas_price: ResourcePrice { price_in_wei: header.eth_l1_gas_price },
            starknet_version: header.starknet_version,
        }
    }
}

impl From<header::BlockHeader> for BlockHeader {
    fn from(header: header::BlockHeader) -> (r: BlockHeader) {
        BlockHeader {
            block_hash: Some(header.hash),
            parent_hash: header.parent_hash,
            block_number: Some(header.number),
            new_root: Some(header.state_commitment),
            timestamp: header.timestamp,
            sequencer_address: header.sequencer_address,
            l1_gas_price: ResourcePrice::from(header.eth_l1_gas_price),
            starknet_version: header.starknet_version,
        }
    }
}

/// The price of gas, in both currencies.
#[derive(Clone, Copy, Debug, PartialEq, Eq)]
pub struct GasPrices {
    pub price_in_wei: GasPrice,
    pub price_in_fri: GasPrice,
}

/// What the sequencer says of the pending block.
#[derive(Clone, Debug, PartialEq, Eq)]
pub struct PendingBlock {
    pub l1_gas_price: GasPrices,
    pub parent_hash: BlockHash,
    pub sequencer_address: SequencerAddress,
    pub timestamp: BlockTimestamp,
    pub starknet_version: StarknetVersion,
}

impl BlockHeader {
    /// The header of the sequencer's pending block.
    pub fn from_sequencer_pending(pending: PendingBlock) -> (r: BlockHeader)
        ensures
            r == (BlockHeader {
                block_hash: None,
                parent_hash: pending.parent_hash,
                block_number: None,
                new_root: None,
                timestamp: pending.timestamp,
                sequencer_address: pending.sequencer_address,
                l1_gas_price: ResourcePrice { price_in_wei: pending.l1_gas_price.price_in_wei },
                starknet_version: pending.starknet_version,
            }),
    {
        BlockHeader {
            block_hash: None,
            parent_hash: pending.parent_hash,
            block_number: None,
            new_root: None,
            timestamp: pending.timestamp,
            sequencer_address: pending.sequencer_address,
            l1_gas_price: ResourcePrice::from(pending.l1_gas_price.price_in_wei),
            starknet_version: pending.starknet_version,
        }
    }
}

/// The header of a known block says what the block's header says. Its price is that of gas in wei.
pub proof fn lemma_header_of_a_known_block(header: header::BlockHeader, price: GasPrice)
    ensures
        ({
            let r = <BlockHeader as FromSpec<header::BlockHeader>>::from_spec(header);
            &&& r.block_hash == Some(header.hash)
            &&& r.parent_hash == header.parent_hash
            &&& r.block_number == Some(header.number)
            &&& r.new_root == Some(header.state_commitment)
            &&& r.timestamp == header.timestamp
            &&& r.sequencer_address == header.sequencer_address
            &&& r.l1_gas_price.price_in_wei == header.eth_l1_gas_price
            &&& r.starknet_version == header.starknet_version
        }),
        <ResourcePrice as FromSpec<GasPrice>>::from_spec(price).price_in_wei == price,
{
}

} // verus!
