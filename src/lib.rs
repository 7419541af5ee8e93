//! Inspects one block of an Ethereum-compatible node over JSON-RPC: decides
//! which block to fetch, frames the requests, reads the replies and decodes
//! the block's metrics.
pub mod block;
pub mod clock;
pub mod numeric;
pub mod rpc;
pub mod target;
