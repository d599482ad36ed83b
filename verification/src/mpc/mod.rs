//! Multi-party computation: execution identifiers and the protocol state machine.

pub mod execution_id;
pub mod orchestrator;
