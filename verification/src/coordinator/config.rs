//! Configuration of the coordination services.
use vstd::prelude::*;

verus! {

/// Distributed coordinator configuration options.
#[derive(Clone, Debug)]
pub struct Config {
    /// User specified key/value map attached to node IDs, ordered by key.
    ///
    /// This data is not used by the system and is provided to help users debug
    /// and otherwise label nodes for whatever needs they may have.
    pub node_attributes: Vec<(String, String)>,
}

impl Default for Config {
    fn default() -> (r: Config)
        ensures
            r.node_attributes@.len() == 0,
    {
        Config { node_attributes: Vec::new() }
    }
}

/// Zookeeper background cleaner configuration.
#[derive(Clone, Debug)]
pub struct CleanupConfig {
    /// Maximum number of nodes to delete in a single cleanup cycle.
    pub limit: usize,
    /// Seconds to wait between cleanup cycles.
    pub interval: u64,
    /// Number of cycles before this node will re-run an election, 0 to disable re-runs.
    ///
    /// Having the system re-run elections continuously ensures that failover procedures are
    /// exercised constantly and not just in case of errors.
    pub term: u64,
}

impl Default for CleanupConfig {
    fn default() -> (r: CleanupConfig)
        ensures
            r.limit == 1000,
            r.interval == 3600,
            r.term == 6,
    {
        CleanupConfig {
            limit: CleanupConfig::default_limit(),
            interval: CleanupConfig::default_interval(),
            term: CleanupConfig::default_term(),
        }
    }
}

impl CleanupConfig {
    /// Nodes deleted per cycle by default.
    pub fn default_limit() -> (r: usize)
        ensures
            r == 1000,
    {
        1000
    }

    /// Seconds between cycles by default: one hour.
    pub fn default_interval() -> (r: u64)
        ensures
            r == 3600,
    {
        3600
    }

    /// Cycles between re-elections by default: with the default interval, a
    /// re-election every six hours or so.
    pub fn default_term() -> (r: u64)
        ensures
            r == 6,
    {
        6
    }
}

/// The default ZooKeeper ensemble connection string.
pub open spec fn default_ensemble_text() -> Seq<char> {
    seq!['l', 'o', 'c', 'a', 'l', 'h', 'o', 's', 't', ':', '2', '1', '8', '1', '/', 'r', 'e', 'p', 'l', 'i', 'c', 'a', 'n', 't', 'e']
}

/// Zookeeper distributed coordination configuration options.
#[derive(Clone, Debug)]
pub struct ZookeeperConfig {
    /// Zookeeper background cleaner configuration.
    pub cleanup: CleanupConfig,
    /// Zookeeper ensemble connection string.
    pub ensemble: String,
    /// Zookeeper session timeout (in seconds).
    pub timeout: u64,
}

impl Default for ZookeeperConfig {
    fn default() -> (r: ZookeeperConfig)
        ensures
            r.cleanup.limit == 1000,
            r.cleanup.interval == 3600,
            r.cleanup.term == 6,
            r.ensemble@ == default_ensemble_text(),
            r.timeout == 10,
    {
        ZookeeperConfig {
            cleanup: CleanupConfig::default(),
            ensemble: ZookeeperConfig::default_ensemble(),
            timeout: ZookeeperConfig::default_timeout(),
        }
    }
}

impl ZookeeperConfig {
    /// The default ensemble: a local server with the `/replicante` chroot.
    pub fn default_ensemble() -> (r: String)
        ensures
            r@ == default_ensemble_text(),
    {
        let text = "localhost:2181/replicante";
        proof {
            reveal_strlit("localhost:2181/replicante");
        }
        let r = String::from_str(text);
        assert(r@ =~= default_ensemble_text());
        r
    }

    /// The default session timeout, in seconds.
    pub fn default_timeout() -> (r: u64)
        ensures
            r == 10,
    {
        10
    }
}

} // verus!
