//! Block heights.

use vstd::prelude::*;

use crate::field::field_increment;
use crate::field::P;

verus! {

/// The number of blocks after which the block subsidy is halved.
///
/// With this interval, the premine and all block subsidies together approach 42 million coins.
pub const BLOCKS_PER_GENERATION: u64 = 160_815;

/// The distance of a block to the genesis block.
#[derive(Clone, Copy, Debug, PartialEq, Eq, Structural)]
pub struct BlockHeight {
    pub value: u64,
}

impl BlockHeight {
    pub open spec fn spec_next(self) -> BlockHeight {
        BlockHeight { value: ((self.value + 1) % (P as int)) as u64 }
    }

    pub open spec fn spec_generation(self) -> int {
        self.value as int / BLOCKS_PER_GENERATION as int
    }

    pub fn new(value: u64) -> (h: BlockHeight)
        ensures
            h.value == value,
    {
        BlockHeight { value }
    }

    /// The height of the next block.
    pub fn next(&self) -> (h: BlockHeight)
        ensures
            h == self.spec_next(),
    {
        BlockHeight { value: field_increment(self.value) }
    }

    pub fn is_genesis(&self) -> (r: bool)
        ensures
            r == (self.value == 0),
    {
        self.value == 0
    }

    /// How often the block subsidy has been halved at this height.
    pub fn get_generation(&self) -> (g: u64)
        ensures
            g == self.spec_generation(),
    {
        self.value / BLOCKS_PER_GENERATION
    }
}

} // verus!
