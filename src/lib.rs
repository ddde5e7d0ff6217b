//! Relay engine for text-insertion jobs: request validation, the single sink
//! slot with its waiter table, the liveness protocol, and the mapping of job
//! outcomes onto HTTP replies.

pub mod config;
pub mod error;
pub mod ingress;
pub mod laws;
pub mod liveness;
pub mod manager;
pub mod models;
pub mod outbound;
pub mod platform;
pub mod protocol;
pub mod text;
pub mod waiters;
