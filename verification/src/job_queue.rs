//! A queue of jobs that are run one at a time, by priority.

pub mod channels;
pub mod handle;
pub mod priority;
pub mod scheduler;
