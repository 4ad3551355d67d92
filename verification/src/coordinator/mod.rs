//! Distributed coordination: node IDs, elections, non-blocking locks and the
//! layout and rules of the ZooKeeper backend.
pub mod error;
pub mod node_id;
pub mod config;
pub mod zookeeper;
pub mod flag;
pub mod election;
pub mod lock;
pub mod coordinator;
pub mod mock;
pub mod cleaner;
pub mod admin;
