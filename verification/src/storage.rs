//! How blocks of transactions are stored.

pub mod codec;
pub mod compression;
pub mod convert;
pub mod dto;
pub mod dummy;
pub mod format;
pub mod migration;
pub mod rows;
pub mod transaction;
pub mod wire;
