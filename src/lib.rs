//! Per-guild configuration kept in an in-memory cache and mirrored in a
//! durable table, with the decisions of the lifecycle handler, the prefix
//! command and the presence loop.

pub mod config;
pub mod error;
pub mod cache;
pub mod store;
pub mod lifecycle;
pub mod prefix_command;
pub mod presence;
pub mod laws;
