//! Verified core logic of the Replicante datastore orchestration system:
//! distributed coordination (elections, non-blocking locks, ZooKeeper layout),
//! cluster state fetching and aggregation, cluster discovery and task queues.
pub mod seqs;
pub mod text;
pub mod coordinator;
pub mod fetcher;
pub mod aggregator;
pub mod discovery;
pub mod tasks;
