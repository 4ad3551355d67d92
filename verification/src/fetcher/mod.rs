//! Cluster state fetching: the rules that sync agents, nodes, shards and
//! actions reported by agents with the records of Replicante Core.
pub mod model;
pub mod error;
pub mod identity;
pub mod actions;
pub mod scheduling;
pub mod sync;
