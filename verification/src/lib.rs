//! Coordination logic of a peer-to-peer threshold-signing node: configuration
//! layering, the MPC protocol state machine, peer and session bookkeeping,
//! and the replies of the JSON-RPC interface.

pub mod cli;
pub mod mpc;
pub mod network;
pub mod rpc;
pub mod str_map;
pub mod text;
