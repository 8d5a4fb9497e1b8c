//! Fetching the chain head's block number from a JSON-RPC endpoint.
//!
//! The network round trip itself is made by the host program; this library
//! holds the decisions around it: which endpoint is used, how the node's
//! answer is decoded, how the height is written out, and which error comes
//! back when something fails.
use vstd::prelude::*;

pub mod decimal;
pub mod quantity;
pub mod fetch;
pub mod endpoint;

verus! {

} // verus!
