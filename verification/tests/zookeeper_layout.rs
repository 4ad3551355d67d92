use replicante_core::coordinator::config::ZookeeperConfig;
use replicante_core::coordinator::node_id::NodeId;
use replicante_core::coordinator::zookeeper::Client;
use replicante_core::coordinator::zookeeper::PREFIX_ELECTION;
use replicante_core::coordinator::zookeeper::PREFIX_LOCK;
use replicante_core::coordinator::zookeeper::PREFIX_NODE;

#[test]
fn path_for_key() {
    let key = "discovery/some.cluster.id";
    let path = Client::path_from_key(PREFIX_NODE, key);
    assert_eq!(
        path,
        "/nodes/22db/22db2cab3cb041408a0d3137b5563e82570bd26eb237b1c7cb998292a709d10c"
    );
}

#[test]
fn path_for_node_id() {
    let hash = "3bb728ac2ca63e8f3be0d39195b09b76";
    let path = Client::path_from_hash(PREFIX_NODE, hash);
    assert_eq!(path, "/nodes/3bb7/3bb728ac2ca63e8f3be0d39195b09b76");
}

#[test]
fn hash_is_sha256_hex() {
    // SHA-256 of the empty text.
    assert_eq!(
        Client::hash_from_key(""),
        "e3b0c44298fc1c149afbf4c8996fb92427ae41e4649b934ca495991b7852b855"
    );
    assert_ne!(Client::hash_from_key("a"), Client::hash_from_key("b"));
}

#[test]
fn prefixes() {
    assert_eq!(PREFIX_ELECTION, "/elections");
    assert_eq!(PREFIX_LOCK, "/locks");
    assert_eq!(PREFIX_NODE, "/nodes");
}

#[test]
fn container_of_paths() {
    assert_eq!(Client::container_path("/a/b/c"), "/a/b");
    assert_eq!(Client::try_container_path("/a"), Some(String::from("/")));
    assert_eq!(Client::try_container_path("/"), None);
}

#[test]
fn client_registers_node_under_nodes() {
    let node = NodeId::with_id(String::from("3bb728ac2ca63e8f3be0d39195b09b76"));
    let client = Client::new(ZookeeperConfig::default(), Some(&node));
    assert_eq!(
        client.registry_key,
        Some(String::from("/nodes/3bb7/3bb728ac2ca63e8f3be0d39195b09b76"))
    );
    let client = Client::new(ZookeeperConfig::default(), None);
    assert_eq!(client.registry_key, None);
}
