//! What holds of the library as a whole: how results relate to inputs, and calls to one another.

pub mod blocks;
pub mod choice;
pub mod claims;
pub mod digests;
pub mod encoding;
pub mod jobs;
pub mod layout;
pub mod mining;
pub mod money;
pub mod mountain_ranges;
pub mod node;
pub mod premine;
pub mod quantities;
pub mod validity;
pub mod views;
