//! Versioned transaction envelope for submitting operations to a Starknet
//! node over RPC: strongly-typed transaction kinds and versions, a canonical
//! wire encoding, and a proved round-trip guarantee.

pub mod codec;
pub mod felt;
pub mod json;
pub mod rpc_transaction;
pub mod transaction;
pub mod wire;
