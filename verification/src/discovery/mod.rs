//! Cluster discovery: iterate over the clusters that discovery backends report.
pub mod error;
pub mod model;
pub mod backends;
