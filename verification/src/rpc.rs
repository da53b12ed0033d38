//! The shapes in which data leaves the node.

pub mod dto;
pub mod v05;
