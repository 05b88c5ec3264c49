//! Blocks and their parts out of sequences of field elements.

pub mod blocks;
pub mod elements;
pub mod lists;
pub mod records;
