//! Decision logic of the Tempo node's Ethereum JSON-RPC handlers.

pub mod api;
pub mod channel;
pub mod forward;
pub mod gas;
pub mod nonce;
pub mod primitives;
pub mod receipt;
pub mod transaction;
