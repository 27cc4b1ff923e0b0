//! A change ledger for replicated entities, the message queues that stage
//! their deltas, and a compression adapter.

pub mod compression;
pub mod postbox;
pub mod track;
