//! Cluster discovery records.
use vstd::prelude::*;

verus! {

/// A cluster as reported by a discovery backend: its ID, an optional display
/// name and the addresses of its agents.
#[derive(Clone, Debug, PartialEq, Eq)]
pub struct ClusterDiscovery {
    pub cluster_id: String,
    pub display_name: Option<String>,
    pub nodes: Vec<String>,
}

impl ClusterDiscovery {
    /// A discovery record without a display name.
    pub fn new(cluster_id: &str, nodes: Vec<String>) -> (r: ClusterDiscovery)
        ensures
            r.cluster_id@ == cluster_id@,
            r.display_name is None,
            r.nodes == nodes,
    {
        ClusterDiscovery { cluster_id: String::from_str(cluster_id), display_name: None, nodes }
    }
}

} // verus!
