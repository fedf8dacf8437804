//! Command dispatch for a trading daemon's RPC endpoint: method routing,
//! the credential and origin gate, single and batched request processing,
//! and the set-once lifecycle flags of the server.

pub mod batch;
pub mod dispatch;
pub mod gate;
pub mod json;
pub mod registry;
pub mod request;
pub mod response;
pub mod transport;
