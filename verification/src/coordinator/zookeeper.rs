//! Layout of the ZooKeeper backend (paths and hashed keys) and the rules that
//! interpret ZooKeeper replies.
use vstd::prelude::*;
use std::sync::Arc;

use super::flag::SharedFlag;
use vstd::string::*;

use sha2::Digest;

use crate::text::joined;
use crate::text::join_path;
use crate::text::lower_hex;
use crate::text::to_lower_hex;
use crate::text::lemma_lower_hex_shape;
use crate::text::is_lower_hex_text;

use super::config::ZookeeperConfig;
use super::error::ErrorKind;
use super::node_id::NodeId;

verus! {

/// Container of the election znodes.
pub const PREFIX_ELECTION: &'static str = "/elections";

/// Container of the non-blocking lock znodes.
pub const PREFIX_LOCK: &'static str = "/locks";

/// Container of the node registration znodes.
pub const PREFIX_NODE: &'static str = "/nodes";

/// Number of leading characters of a hash used as the name of its container.
pub const HASH_MIN_LENGTH: usize = 4;

/// The text of `PREFIX_ELECTION`.
pub open spec fn prefix_election() -> Seq<char> {
    seq!['/', 'e', 'l', 'e', 'c', 't', 'i', 'o', 'n', 's']
}

/// The text of `PREFIX_LOCK`.
pub open spec fn prefix_lock() -> Seq<char> {
    seq!['/', 'l', 'o', 'c', 'k', 's']
}

/// The text of `PREFIX_NODE`.
pub open spec fn prefix_node() -> Seq<char> {
    seq!['/', 'n', 'o', 'd', 'e', 's']
}

/// `PREFIX_ELECTION` with its text known.
pub fn prefix_election_text() -> (r: &'static str)
    ensures
        r@ == prefix_election(),
{
    proof {
        reveal_strlit("/elections");
    }
    let r = PREFIX_ELECTION;
    assert(r@ =~= prefix_election());
    r
}

/// `PREFIX_LOCK` with its text known.
pub fn prefix_lock_text() -> (r: &'static str)
    ensures
        r@ == prefix_lock(),
{
    proof {
        reveal_strlit("/locks");
    }
    let r = PREFIX_LOCK;
    assert(r@ =~= prefix_lock());
    r
}

/// `PREFIX_NODE` with its text known.
pub fn prefix_node_text() -> (r: &'static str)
    ensures
        r@ == prefix_node(),
{
    proof {
        reveal_strlit("/nodes");
    }
    let r = PREFIX_NODE;
    assert(r@ =~= prefix_node());
    r
}

/// Failures reported by ZooKeeper operations that the coordination logic tells apart.
#[derive(PartialEq, Eq, Structural, Clone, Copy, Debug)]
pub enum ZkFailure {
    /// The znode does not exist.
    NoNode,
    /// The znode already exists.
    NodeExists,
    /// The znode has children.
    NotEmpty,
    /// The operation timed out.
    OperationTimeout,
    /// Any other failure.
    Other,
}

/// The znode statistics the coordination logic reads.
#[derive(PartialEq, Eq, Structural, Clone, Copy, Debug)]
pub struct ZkStat {
    /// The transaction ID that created the znode.
    pub czxid: i64,
    /// The number of changes to the data of the znode.
    pub version: i32,
    /// The number of children of the znode.
    pub num_children: i32,
}

/// Session states reported by the ZooKeeper client to its listeners.
#[derive(PartialEq, Eq, Structural, Clone, Copy, Debug)]
pub enum ZkSessionState {
    AuthFailed,
    Closed,
    Connected,
    ConnectedReadOnly,
    Connecting,
    /// Deprecated states that are ignored.
    Other,
}

/// Kinds of znode watch events.
#[derive(PartialEq, Eq, Structural, Clone, Copy, Debug)]
pub enum ZkEventType {
    NodeCreated,
    NodeDeleted,
    NodeDataChanged,
    NodeChildrenChanged,
    /// Session events and other notifications.
    Other,
}

/// The outcome of an operation, with one failure treated as success.
pub open spec fn spec_tolerate(result: std::result::Result<(), ZkFailure>, tolerated: ZkFailure) -> std::result::Result<(), ZkFailure> {
    match result {
        Ok(()) => Ok(()),
        Err(e) => if e == tolerated {
            Ok(())
        } else {
            Err(e)
        },
    }
}

/// Treat one failure of a ZooKeeper operation as success.
///
/// Creating a container that exists or deleting a znode that is gone are not
/// errors for most callers.
pub fn tolerate(result: std::result::Result<(), ZkFailure>, tolerated: ZkFailure) -> (r: std::result::Result<(), ZkFailure>)
    ensures
        r == spec_tolerate(result, tolerated),
{
    match result {
        Ok(()) => Ok(()),
        Err(e) => if e == tolerated {
            Ok(())
        } else {
            Err(e)
        },
    }
}

/// Whether a failure counts as a timeout for the timeouts metric.
pub fn is_timeout(failure: ZkFailure) -> (r: bool)
    ensures
        r == (failure == ZkFailure::OperationTimeout),
{
    failure == ZkFailure::OperationTimeout
}

/// Whether a session state change makes the current client unusable.
///
/// Only a closed session requires a new client: authentication errors,
/// (read-only) connections and reconnection attempts keep the client.
pub fn session_expired(state: ZkSessionState) -> (r: bool)
    ensures
        r == (state == ZkSessionState::Closed),
{
    match state {
        ZkSessionState::Closed => true,
        _ => false,
    }
}

/// Holder of the current ZooKeeper session client with its `active` flag.
///
/// The flag is cleared by the session listener when the session closes, after
/// which a new client must be created.
pub struct CurrentClient<K> {
    active: SharedFlag,
    keeper: Arc<K>,
}

impl<K> CurrentClient<K> {
    /// The holder of a freshly connected client, active until its session closes.
    pub fn new(keeper: K) -> (r: CurrentClient<K>)
        ensures
            *r.keeper() == keeper,
    {
        CurrentClient { active: SharedFlag::new(true), keeper: Arc::new(keeper) }
    }

    /// The client held.
    pub closed spec fn keeper(&self) -> Arc<K> {
        self.keeper
    }

    /// The flag recording whether the session of the client is usable.
    pub closed spec fn active_cell(&self) -> SharedFlag {
        self.active
    }

    /// The flag that the session listener clears when the session closes.
    pub fn active_flag(&self) -> (r: SharedFlag)
        ensures
            r == self.active_cell(),
    {
        self.active.share()
    }

    /// Whether the session of the client is still usable.
    ///
    /// The flag is shared with the session listener, so no particular value is promised.
    pub fn active(&self) -> (r: bool) {
        self.active.load()
    }

    /// Another handle on the client.
    pub fn client(&self) -> (r: Arc<K>)
        ensures
            r == self.keeper(),
    {
        super::flag::arc_clone(&self.keeper)
    }
}

/// Record a session state change on the active flag of a client: a closed
/// session marks the client as no longer active.
pub fn session_event(active: &SharedFlag, state: ZkSessionState) -> (r: bool)
    ensures
        r == (state == ZkSessionState::Closed),
{
    let reset = session_expired(state);
    if reset {
        active.store(false);
    }
    reset
}

/// The SHA-256 digest of the UTF-8 encoding of a text.
pub uninterp spec fn sha256_digest(text: Seq<char>) -> Seq<u8>;

/// Hash a text with `sha2::Sha256::digest`.
///
/// The contract states that the bytes are the SHA-256 digest of the text (a
/// name for the outside computation) and that the digest is 32 bytes long,
/// the output size that sha2 declares for `Sha256`.
#[verifier::external_body]
fn sha256_of(text: &str) -> (r: Vec<u8>)
    ensures
        r@ == sha256_digest(text@),
        r@.len() == 32,
{
    sha2::Sha256::digest(text.as_bytes()).to_vec()
}

/// The hash text of a key: lowercase hex of the SHA-256 digest.
pub open spec fn key_hash(key: Seq<char>) -> Seq<char> {
    lower_hex(sha256_digest(key))
}

/// The first characters of a hash that name its container.
pub open spec fn hash_prefix(hash: Seq<char>) -> Seq<char> {
    if hash.len() < HASH_MIN_LENGTH {
        hash
    } else {
        hash.take(HASH_MIN_LENGTH as int)
    }
}

/// The full path of a hashed key under a root: `root/prefix/hash`.
pub open spec fn hash_path(root: Seq<char>, hash: Seq<char>) -> Seq<char> {
    joined(joined(root, hash_prefix(hash)), hash)
}

/// Wrapper around a ZooKeeper session: its configuration and the znode that
/// registers the current node, if any.
pub struct Client {
    pub config: ZookeeperConfig,
    /// Path of the ephemeral znode registering the current node for debugging.
    pub registry_key: Option<String>,
}

impl Client {
    /// Configure a client, registering the given node ID if any.
    pub fn new(config: ZookeeperConfig, node_id: Option<&NodeId>) -> (r: Client)
        requires
            node_id matches Some(n) ==> n.id@.len() >= HASH_MIN_LENGTH,
        ensures
            r.config == config,
            match node_id {
                None => r.registry_key is None,
                Some(n) => r.registry_key matches Some(k) && k@ == hash_path(prefix_node(), n.id@),
            },
    {
        let registry_key = match node_id {
            None => None,
            Some(node_id) => {
                let id = node_id.to_string();
                let id_text = id.as_str();
                Some(Client::path_from_hash(prefix_node_text(), id_text))
            },
        };
        Client { config, registry_key }
    }

    /// Return the path to the container of the given path.
    ///
    /// The container is the path without its last component.
    pub fn container_path(path: &str) -> (r: String)
        requires
            path_parent(path@) is Some,
        ensures
            r@ == path_parent(path@)->Some_0,
    {
        parent_of(path).unwrap()
    }

    /// Return the path to the container of the given path, if it has one.
    pub fn try_container_path(path: &str) -> (r: Option<String>)
        ensures
            match r {
                None => path_parent(path@) is None,
                Some(c) => path_parent(path@) == Some(c@),
            },
    {
        let parent = parent_of(path);
        match parent {
            None => None,
            Some(_) => Some(Client::container_path(path)),
        }
    }

    /// Hash a key to return a unique, escaped, identifier.
    pub fn hash_from_key(key: &str) -> (r: String)
        ensures
            r@ == key_hash(key@),
            r@.len() == 64,
            is_lower_hex_text(r@),
    {
        let digest = sha256_of(key);
        proof {
            lemma_lower_hex_shape(digest@);
        }
        to_lower_hex(&digest)
    }

    /// Return the full path for the given key.
    ///
    /// The key is hashed first to ensure uniform distribution of keys.
    /// The hashing is also useful to avoid having to deal with string escaping.
    pub fn path_from_key(root: &str, key: &str) -> (r: String)
        ensures
            r@ == hash_path(root@, key_hash(key@)),
    {
        let hash = Client::hash_from_key(key);
        proof {
            lemma_hex_bytes(hash@);
        }
        let hash_text = hash.as_str();
        assert(hash_text.spec_bytes() == vstd::utf8::encode_utf8(hash@));
        Client::path_from_hash(root, hash_text)
    }

    /// Return the full path for the given hashed key.
    ///
    /// The hash must be at least `HASH_MIN_LENGTH` characters long.
    pub fn path_from_hash(root: &str, hash: &str) -> (r: String)
        requires
            hash@.len() >= HASH_MIN_LENGTH,
        ensures
            r@ == hash_path(root@, hash@),
    {
        let prefix = hash.substring_char(0, HASH_MIN_LENGTH);
        assert(prefix@ =~= hash_prefix(hash@));
        let head = join_path(root, prefix);
        join_path(head.as_str(), hash)
    }
}

/// A hex text is as long in bytes as in characters.
pub proof fn lemma_hex_bytes(s: Seq<char>)
    requires
        is_lower_hex_text(s),
    ensures
        vstd::utf8::encode_utf8(s).len() == s.len(),
{
    assert(vstd::utf8::is_ascii_chars(s)) by {
        assert forall|i: int| 0 <= i < s.len() implies '\0' <= #[trigger] s[i] <= '\u{7f}' by {
            assert('0' <= s[i] <= '9' || 'a' <= s[i] <= 'f');
        }
    }
    vstd::utf8::is_ascii_chars_encode_utf8(s);
}

/// The parent of a path, as `std::path::Path::parent` computes it.
pub uninterp spec fn path_parent(path: Seq<char>) -> Option<Seq<char>>;

/// The container of a path with `std::path::Path::parent`.
///
/// The contract names the result; `Path::parent` is `None` for a root, a
/// prefix or the empty path. The parent of a UTF-8 path is UTF-8, so the
/// conversion back to text cannot fail.
#[verifier::external_body]
fn parent_of(path: &str) -> (r: Option<String>)
    ensures
        r matches Some(p) ==> path_parent(path@) == Some(p@),
        r is None ==> path_parent(path@) is None,
{
    match std::path::Path::new(path).parent() {
        Some(parent) => Some(parent.to_string_lossy().into_owned()),
        None => None,
    }
}

/// How a znode is created.
#[derive(PartialEq, Eq, Structural, Clone, Copy, Debug)]
pub enum ZnodeMode {
    /// A persistent znode, open to everyone.
    Persistent,
    /// An ephemeral znode, readable by everyone.
    Ephemeral,
    /// An ephemeral znode with a sequence number appended, readable by everyone.
    EphemeralSequential,
}

/// The ZooKeeper operations performed on a connected session.
pub trait ZnodeClient {
    /// Create a znode and return its path.
    fn create(&self, path: &str, data: Vec<u8>, mode: ZnodeMode) -> std::result::Result<String, ZkFailure>;

    /// List the children of a znode.
    fn get_children(&self, path: &str) -> std::result::Result<Vec<String>, ZkFailure>;

    /// Look up the statistics of a znode, if it exists.
    fn stat(&self, path: &str) -> std::result::Result<Option<ZkStat>, ZkFailure>;

    /// Delete a znode, if it is still at the given version.
    fn delete(&self, path: &str, version: Option<i32>) -> std::result::Result<(), ZkFailure>;
}

/// `out` is a reply the client can give to creating the znode at `path` with
/// the given data and mode.
pub open spec fn created_by<C: ZnodeClient>(client: &C, path: Seq<char>, data: Seq<u8>, mode: ZnodeMode, out: std::result::Result<String, ZkFailure>) -> bool {
    exists|p: &str, d: Vec<u8>| p@ == path && d@ == data && #[trigger] call_ensures(C::create, (client, p, d, mode), out)
}

/// `out` is a reply the client can give to looking up the znode at `path`.
pub open spec fn stat_by<C: ZnodeClient>(client: &C, path: Seq<char>, out: std::result::Result<Option<ZkStat>, ZkFailure>) -> bool {
    exists|p: &str| p@ == path && #[trigger] call_ensures(C::stat, (client, p), out)
}

/// `out` is a reply the client can give to listing the children of the znode at `path`.
pub open spec fn children_by<C: ZnodeClient>(client: &C, path: Seq<char>, out: std::result::Result<Vec<String>, ZkFailure>) -> bool {
    exists|p: &str| p@ == path && #[trigger] call_ensures(C::get_children, (client, p), out)
}

/// `out` is a reply the client can give to deleting the znode at `path` if it
/// is at the given version (any version when `None`).
pub open spec fn deleted_at_by<C: ZnodeClient>(client: &C, path: Seq<char>, version: Option<i32>, out: std::result::Result<(), ZkFailure>) -> bool {
    exists|p: &str| p@ == path && #[trigger] call_ensures(C::delete, (client, p, version), out)
}

/// A ZooKeeper operation made through a [`Recorder`].
pub enum ZnodeOp {
    /// The children of the znode at the path were listed.
    Children(Seq<char>),
    /// The znode at the path was looked up, with this reply.
    Stat(Seq<char>, std::result::Result<Option<ZkStat>, ZkFailure>),
    /// The znode at the path was deleted if at the version (any when `None`).
    Delete(Seq<char>, Option<i32>),
}

/// A ZooKeeper client that keeps a record of the operations made through it,
/// so that contracts can say which operations a function makes.
pub struct Recorder<'a, C: ZnodeClient> {
    client: &'a C,
    ops: Ghost<Seq<ZnodeOp>>,
}

impl<'a, C: ZnodeClient> Recorder<'a, C> {
    /// Record the operations made through the given client, starting with none.
    pub fn new(client: &'a C) -> (r: Recorder<'a, C>)
        ensures
            r.client() == client,
            r.ops() == Seq::<ZnodeOp>::empty(),
    {
        Recorder { client, ops: Ghost(Seq::empty()) }
    }

    /// The client the operations are made through.
    pub closed spec fn client(&self) -> &'a C {
        self.client
    }

    /// The operations made so far, in order.
    pub closed spec fn ops(&self) -> Seq<ZnodeOp> {
        self.ops@
    }

    /// List the children of a znode.
    pub fn get_children(&mut self, path: &str) -> (r: std::result::Result<Vec<String>, ZkFailure>)
        ensures
            final(self).client() == old(self).client(),
            final(self).ops() == old(self).ops().push(ZnodeOp::Children(path@)),
            children_by(old(self).client(), path@, r),
    {
        let r = self.client.get_children(path);
        assert(call_ensures(C::get_children, (self.client, path), r));
        self.ops = Ghost(self.ops@.push(ZnodeOp::Children(path@)));
        r
    }

    /// Look up the statistics of a znode, if it exists.
    pub fn stat(&mut self, path: &str) -> (r: std::result::Result<Option<ZkStat>, ZkFailure>)
        ensures
            final(self).client() == old(self).client(),
            final(self).ops() == old(self).ops().push(ZnodeOp::Stat(path@, r)),
            stat_by(old(self).client(), path@, r),
    {
        let r = self.client.stat(path);
        assert(call_ensures(C::stat, (self.client, path), r));
        self.ops = Ghost(self.ops@.push(ZnodeOp::Stat(path@, r)));
        r
    }

    /// Delete a znode, if it is still at the given version.
    pub fn delete(&mut self, path: &str, version: Option<i32>) -> (r: std::result::Result<(), ZkFailure>)
        ensures
            final(self).client() == old(self).client(),
            final(self).ops() == old(self).ops().push(ZnodeOp::Delete(path@, version)),
            deleted_at_by(old(self).client(), path@, version, r),
    {
        let r = self.client.delete(path, version);
        assert(call_ensures(C::delete, (self.client, path, version), r));
        self.ops = Ghost(self.ops@.push(ZnodeOp::Delete(path@, version)));
        r
    }
}

/// The outcome of creating a container: an existing container is fine.
pub open spec fn container_outcome(created: std::result::Result<String, ZkFailure>, r: std::result::Result<(), ErrorKind>) -> bool {
    if created is Ok || created == Err::<String, ZkFailure>(ZkFailure::NodeExists) {
        r is Ok
    } else {
        r matches Err(e) && e@ == ErrorKind::Backend("container creation")@
    }
}

/// `r` is the outcome of creating the empty persistent container at `path`
/// through the client: an existing container is fine.
pub open spec fn container_made_by<C: ZnodeClient>(client: &C, path: Seq<char>, r: std::result::Result<(), ErrorKind>) -> bool {
    exists|created| #[trigger] created_by(client, path, Seq::empty(), ZnodeMode::Persistent, created) && container_outcome(created, r)
}

/// Create the given path as an empty persistent znode, unless it exists.
pub fn mkcontaner<C: ZnodeClient>(client: &C, path: &str) -> (r: std::result::Result<(), ErrorKind>)
    ensures
        container_made_by(client, path@, r),
{
    let data: Vec<u8> = Vec::new();
    let ghost d = data;
    let created = client.create(path, data, ZnodeMode::Persistent);
    assert(created_by(client, path@, Seq::empty(), ZnodeMode::Persistent, created)) by {
        assert(d@ =~= Seq::<u8>::empty());
        assert(call_ensures(C::create, (client, path, d, ZnodeMode::Persistent), created));
    }
    let r = match created {
        Ok(_) => Ok(()),
        Err(ZkFailure::NodeExists) => Ok(()),
        Err(_) => Err(ErrorKind::Backend("container creation")),
    };
    assert(container_outcome(created, r));
    r
}

/// The outcome of creating a missing persistent path: a path created meanwhile is fine.
pub open spec fn creation_outcome(created: std::result::Result<String, ZkFailure>, r: std::result::Result<(), ErrorKind>) -> bool {
    if created is Ok || created == Err::<String, ZkFailure>(ZkFailure::NodeExists) {
        r is Ok
    } else {
        r matches Err(e) && e@ == ErrorKind::Backend("path creation")@
    }
}

/// `r` is the outcome of making sure that `path` exists through the client:
/// the path is looked up, and created empty and persistent when missing.
pub open spec fn persistent_ensured_by<C: ZnodeClient>(client: &C, path: Seq<char>, r: std::result::Result<(), ErrorKind>) -> bool {
    exists|found| #[trigger] stat_by(client, path, found) && match found {
        Err(_) => r matches Err(e) && e@ == ErrorKind::Backend("path check")@,
        Ok(Some(_)) => r is Ok,
        Ok(None) => exists|created| #[trigger] created_by(client, path, Seq::empty(), ZnodeMode::Persistent, created) && creation_outcome(created, r),
    }
}

/// Ensure the given path exists and create it if it does not.
pub fn ensure_persistent<C: ZnodeClient>(client: &C, path: &str) -> (r: std::result::Result<(), ErrorKind>)
    ensures
        persistent_ensured_by(client, path@, r),
{
    let found = client.stat(path);
    assert(stat_by(client, path@, found)) by {
        assert(call_ensures(C::stat, (client, path), found));
    }
    let r = match found {
        Err(_) => Err(ErrorKind::Backend("path check")),
        Ok(Some(_)) => Ok(()),
        Ok(None) => {
            let data: Vec<u8> = Vec::new();
            let ghost d = data;
            let created = client.create(path, data, ZnodeMode::Persistent);
            assert(created_by(client, path@, Seq::empty(), ZnodeMode::Persistent, created)) by {
                assert(d@ =~= Seq::<u8>::empty());
                assert(call_ensures(C::create, (client, path, d, ZnodeMode::Persistent), created));
            }
            let r = match created {
                Ok(_) => Ok(()),
                Err(ZkFailure::NodeExists) => Ok(()),
                Err(_) => Err(ErrorKind::Backend("path creation")),
            };
            assert(creation_outcome(created, r));
            r
        },
    };
    r
}

/// `r` is the outcome of registering `data` under `key` through the client: an
/// ephemeral znode is created; when its container is missing, the container
/// is made and the znode created again.
pub open spec fn node_registered_by<C: ZnodeClient>(client: &C, key: Seq<char>, data: Seq<u8>, r: std::result::Result<(), ErrorKind>) -> bool {
    exists|first| #[trigger] created_by(client, key, data, ZnodeMode::Ephemeral, first) && match first {
        Ok(_) => r is Ok,
        Err(ZkFailure::NoNode) => match path_parent(key) {
            None => r matches Err(e) && e@ == ErrorKind::Backend("node registration")@,
            Some(container) => registered_in_made_container(client, key, data, container, r),
        },
        Err(_) => r matches Err(e) && e@ == ErrorKind::Backend("node registration")@,
    }
}

/// `r` is the outcome of registering `data` under `key` once its missing
/// `container` is made: the container is made, then the znode created again.
pub open spec fn registered_in_made_container<C: ZnodeClient>(client: &C, key: Seq<char>, data: Seq<u8>, container: Seq<char>, r: std::result::Result<(), ErrorKind>) -> bool {
    exists|made| #[trigger] container_made_by(client, container, made) && if made is Err {
        r matches Err(e) && e@ == ErrorKind::Backend("container creation")@
    } else {
        exists|second| #[trigger] created_by(client, key, data, ZnodeMode::Ephemeral, second) && if second is Ok {
            r is Ok
        } else {
            r matches Err(e) && e@ == ErrorKind::Backend("node registration")@
        }
    }
}

/// Register the current node: write its data in an ephemeral znode, creating
/// the container first if it is missing.
///
/// A key without a container (such as `/`) cannot be registered.
pub fn register_node<C: ZnodeClient>(client: &C, key: &str, data: &Vec<u8>) -> (r: std::result::Result<(), ErrorKind>)
    ensures
        node_registered_by(client, key@, data@, r),
{
    let d1 = data.clone();
    let ghost g1 = d1;
    let first = client.create(key, d1, ZnodeMode::Ephemeral);
    assert(created_by(client, key@, data@, ZnodeMode::Ephemeral, first)) by {
        assert(call_ensures(C::create, (client, key, g1, ZnodeMode::Ephemeral), first));
    }
    match first {
        Ok(_) => Ok(()),
        Err(ZkFailure::NoNode) => {
            let container = match Client::try_container_path(key) {
                Some(container) => container,
                None => {
                    return Err(ErrorKind::Backend("node registration"));
                },
            };
            let made = mkcontaner(client, container.as_str());
            if let Err(e) = made {
                assert(path_parent(key@) == Some(container@));
                assert(container_made_by(client, container@, made));
                assert(e@ == ErrorKind::Backend("container creation")@);
                assert(registered_in_made_container(client, key@, data@, container@, Err(e)));
                return Err(e);
            }
            let d2 = data.clone();
            let ghost g2 = d2;
            let second = client.create(key, d2, ZnodeMode::Ephemeral);
            assert(created_by(client, key@, data@, ZnodeMode::Ephemeral, second)) by {
                assert(call_ensures(C::create, (client, key, g2, ZnodeMode::Ephemeral), second));
            }
            assert(container_made_by(client, container@, made));
            let r = match second {
                Ok(_) => Ok(()),
                Err(_) => Err(ErrorKind::Backend("node registration")),
            };
            assert(registered_in_made_container(client, key@, data@, container@, r));
            r
        },
        Err(_) => Err(ErrorKind::Backend("node registration")),
    }
}

/// The path of the root container.
pub open spec fn root_path() -> Seq<char> {
    seq!['/']
}

/// `r` is the outcome of preparing a session through the client, given the
/// outcomes `e1` to `e4` of making sure that the root, elections, locks and
/// nodes containers exist, in this order: the first failure is reported and
/// stops the preparation; once all exist, the node is registered, if any.
pub open spec fn session_prepared_by<C: ZnodeClient>(
    client: &C,
    registry: Option<(String, Vec<u8>)>,
    r: std::result::Result<(), ErrorKind>,
    e1: std::result::Result<(), ErrorKind>,
    e2: std::result::Result<(), ErrorKind>,
    e3: std::result::Result<(), ErrorKind>,
    e4: std::result::Result<(), ErrorKind>,
) -> bool {
    &&& persistent_ensured_by(client, root_path(), e1)
    &&& e1 is Err ==> (r matches Err(e) && e@ == ErrorKind::Backend("ensure root container exists")@)
    &&& e1 is Ok ==> {
        &&& persistent_ensured_by(client, prefix_election(), e2)
        &&& e2 is Err ==> (r matches Err(e) && e@ == ErrorKind::Backend("ensure elections container exists")@)
        &&& e2 is Ok ==> {
            &&& persistent_ensured_by(client, prefix_lock(), e3)
            &&& e3 is Err ==> (r matches Err(e) && e@ == ErrorKind::Backend("ensure locks container exists")@)
            &&& e3 is Ok ==> {
                &&& persistent_ensured_by(client, prefix_node(), e4)
                &&& e4 is Err ==> (r matches Err(e) && e@ == ErrorKind::Backend("ensure nodes container exists")@)
                &&& e4 is Ok ==> match registry {
                    None => r is Ok,
                    Some(reg) => node_registered_by(client, reg.0@, reg.1@, r),
                }
            }
        }
    }
}

/// Prepare a new session: make the root and prefix containers if needed and
/// register the current node, if any.
pub fn prepare_session<C: ZnodeClient>(client: &C, registry: &Option<(String, Vec<u8>)>) -> (r: std::result::Result<(), ErrorKind>)
    ensures
        exists|e1, e2, e3, e4| #[trigger] session_prepared_by(client, *registry, r, e1, e2, e3, e4),
{
    let root = "/";
    proof {
        reveal_strlit("/");
        assert(root@ =~= root_path());
    }
    let ok: std::result::Result<(), ErrorKind> = Ok(());
    let e1 = ensure_persistent(client, root);
    if e1.is_err() {
        let r = Err(ErrorKind::Backend("ensure root container exists"));
        assert(session_prepared_by(client, *registry, r, e1, ok, ok, ok));
        return r;
    }
    let e2 = ensure_persistent(client, prefix_election_text());
    if e2.is_err() {
        let r = Err(ErrorKind::Backend("ensure elections container exists"));
        assert(session_prepared_by(client, *registry, r, e1, e2, ok, ok));
        return r;
    }
    let e3 = ensure_persistent(client, prefix_lock_text());
    if e3.is_err() {
        let r = Err(ErrorKind::Backend("ensure locks container exists"));
        assert(session_prepared_by(client, *registry, r, e1, e2, e3, ok));
        return r;
    }
    let e4 = ensure_persistent(client, prefix_node_text());
    if e4.is_err() {
        let r = Err(ErrorKind::Backend("ensure nodes container exists"));
        assert(session_prepared_by(client, *registry, r, e1, e2, e3, e4));
        return r;
    }
    let r = match registry {
        None => Ok(()),
        Some(reg) => register_node(client, reg.0.as_str(), &reg.1),
    };
    assert(session_prepared_by(client, *registry, r, e1, e2, e3, e4));
    r
}

} // verus!
