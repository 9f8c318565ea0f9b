//! What the operations of this library are for, stated over their inputs and results.
pub mod authority;
pub mod brakes;
pub mod canonical;
pub mod codec;
pub mod correlation;
pub mod discovery;
pub mod health_records;
pub mod identities;
pub mod layout;
pub mod messages;
pub mod numbers;
pub mod peer;
pub mod replication;
pub mod runtime_records;
pub mod security;
pub mod snapshots;
pub mod transport;
pub mod words;
