//! The logic of a Neptune node, with machine-checked contracts.
//!
//! - [`field`], [`digest`], [`mmr`]: the prime field, Tip5 digests and Merkle mountain ranges.
//! - [`difficulty`], [`amount`], [`timestamp`], [`height`], [`network`]: consensus quantities.
//! - [`transaction`], [`block`]: what blocks consist of, how they are hashed, encoded and decoded,
//!   when they are valid, what they reward, and which one of two is preferred.
//! - [`claims`]: assembly that puts claims into the memory of a virtual machine.
//! - [`mine_loop`]: mining on a development network.
//! - [`job_queue`]: which job is run next, and what becomes of it.
//! - [`json_rpc`]: how requests find their methods, and what is answered.
//! - [`tx_artifacts`]: what the creation of a transaction leaves behind.
//! - [`node`]: what the node does when it starts, and what it logs.
//! - [`laws`]: what holds across functions, of all inputs.

pub mod amount;
pub mod block;
pub mod claims;
pub mod difficulty;
pub mod digest;
pub mod field;
pub mod height;
pub mod job_queue;
pub mod json_rpc;
pub mod laws;
pub mod mine_loop;
pub mod mmr;
pub mod network;
pub mod node;
pub mod timestamp;
pub mod transaction;
pub mod tx_artifacts;
