//! Cluster aggregations: metadata summarising a cluster, and shard lag
//! synthesised for agents that don't report it.
pub mod error;
pub mod cluster_meta;
pub mod shard_lag;
