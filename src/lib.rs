//! A consumer for a remote work queue: a verified acknowledgment policy,
//! per-message dispatch planning and the consumer's lifecycle state machine.
pub mod errors;
pub mod model;
pub mod policy;
pub mod dispatch;
pub mod lifecycle;
pub mod cli;
pub mod endpoint;
