//! The parameters in which networks differ.

use vstd::prelude::*;

use crate::difficulty::Difficulty;
use crate::timestamp::Timestamp;

verus! {

/// The consensus parameters of one network, such as the main net or a test net.
#[derive(Clone, Copy, Debug, PartialEq, Eq, Structural)]
pub struct Network {
    /// The number that tells the network apart from all others.
    pub id: u64,
    /// When the network was launched, or will be.
    pub launch_date: Timestamp,
    /// The shortest admissible time between a block and its parent.
    pub minimum_block_time: Timestamp,
    /// The time between a block and its parent at which difficulty control aims.
    pub target_block_interval: Timestamp,
    /// The difficulty of the genesis block.
    pub genesis_difficulty: Difficulty,
    /// The time between a block and its parent from which on the difficulty is reset, if it ever
    /// is. Typically, only test nets define it.
    pub difficulty_reset_interval: Option<Timestamp>,
    /// Whether nodes on this network may compose and guess without being told to.
    pub performs_automated_mining: bool,
}

impl Network {
    /// Blocks are meant to be some time apart.
    pub open spec fn well_formed(self) -> bool {
        self.target_block_interval.millis > 0
    }
}

} // verus!
