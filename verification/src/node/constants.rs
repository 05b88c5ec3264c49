//! Constants of the node.

use vstd::prelude::*;

verus! {

pub const SUCCESS_EXIT_CODE: i32 = 0;

pub const COMPOSITION_FAILED_EXIT_CODE: i32 = 159;

/// By this text, another program shows that it is a node of this network, too.
pub const MAGIC_STRING_REQUEST: &'static str = "EDE8991A9C599BE908A759B6BF3279CD";

pub const MAGIC_STRING_RESPONSE: &'static str = "Hello Neptune!\n";

pub const PEER_CHANNEL_CAPACITY: usize = 1000;

pub const MINER_CHANNEL_CAPACITY: usize = 10;

pub const RPC_CHANNEL_CAPACITY: usize = 1000;

/// The most RPC channels with one IP address: one for the dashboard, and a few more for command
/// line interactions.
pub const MAX_RPC_CHANNELS_PER_IP: u32 = 5;

/// The most RPC channels that are served at the same time.
pub const MAX_RPC_CHANNELS: usize = 10;

/// The distance of peers with which the node connects on its own initiative.
pub const OUTGOING_PEER_DISTANCE: u8 = 1;

} // verus!
