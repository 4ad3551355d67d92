# replicante_core

The core logic of the Replicante datastore orchestration system, written in
Verus and verified against its contracts.

- `src/coordinator`: distributed coordination. Node IDs, the ZooKeeper layout
  (hashed paths, containers, session preparation), elections (stages, candidate
  ordering, status), non-blocking locks (synchronised state, acquisition and
  release steps), the background cleaner, administration helpers and an
  in-memory mock coordinator.
- `src/fetcher`: cluster state fetching. The records reported by agents are
  synced with those of core: the events to emit and what to persist for agents,
  nodes, shards and actions, the identity checks of a cluster, the order of the
  actions sync and the scheduling choices for new actions.
- `src/aggregator`: cluster metadata and synthesised shard lag.
- `src/discovery`: the discovery iterator over its backends, including the
  paginated HTTP discovery.
- `src/tasks`: the SQLite tasks queue statements and records.
- `app`: the runtime around the library: ZooKeeper sessions, HTTP requests,
  SQLite connections, metrics and serialisable copies of library types.

Network, disk and clock access stay in `app`; the library decides what to do
with what they return.
