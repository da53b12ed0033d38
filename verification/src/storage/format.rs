//! The stored form of the rows of the `transactions` table.
//!
//! A struct is stored as its fields, one after the other, and an enum as the number of the
//! variant, followed by what the variant holds.

pub mod elements;
pub mod receipts;
pub mod rows;
pub mod transactions;
