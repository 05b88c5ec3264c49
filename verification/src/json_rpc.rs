//! The JSON-RPC server.

pub mod ops;
pub mod router;
pub mod server;
