//! The node: how it starts, and what it logs.

pub mod constants;
pub mod local_time;
pub mod lock_events;
pub mod scope_duration;
pub mod startup;
pub mod thread_id;
