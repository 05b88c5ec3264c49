//! Mining on a development network.

pub mod block_transaction;
pub mod devnet_block;
pub mod regtest;
