//! Storage format, sync decisions and RPC shapes of a Starknet full node.

pub mod bytes;
pub mod common;
pub mod felt;
pub mod rpc;
pub mod storage;
pub mod sync;
