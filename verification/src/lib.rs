//! Lookahead image cache for a directory viewer: index navigation, the
//! prefetch window, the per-slot load state machine and the request loop
//! that ties them together, with every function proved against its contract.

pub mod bag;
pub mod consumer;
pub mod coordinator;
pub mod navigator;
pub mod picture;
pub mod planner;
pub mod protocol;
pub mod request;
pub mod rotation;
pub mod scheduler;
pub mod status;
pub mod store;
