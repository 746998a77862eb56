//! The core service: every mutation enters here, is serialized through
//! the target resource's operation transaction, and is paired with a
//! durable store write.  Data-plane calls happen outside the library;
//! each operation takes the data-plane outcome as an argument and
//! commits or rolls back accordingly.

use vstd::prelude::*;
use crate::errors::{ReplyError, ReplyErrorKind, ResourceKind};
use crate::nexus::{NexusOperation, NexusOperationView, NexusSpec, NexusSpecView, NexusState, NexusStateView};
use crate::node::{NodeEntry, NodeEntryView};
use crate::pool::{PoolOperation, PoolSpec, PoolSpecView};
use crate::registry::Registry;
use crate::replica::{CreateReplica, ReplicaOperation, ReplicaSpec, ReplicaSpecView};
use crate::store::{SpecStatus, Store};
use crate::table::Storable;
use crate::transport::{
    CreateNexus, CreatePool, Deregister, DestroyNexus, DestroyPool, Filter, NexusStatus, Node,
    NodeSpec, NodeSpecView, NodeStatus, Pool, PoolStatus, Protocol, Register, RegisterView,
    Replica, ReplicaStatus,
};

verus! {

/// Everything a pool operation may touch: the pool spec and state
/// tables; the rest of the service is kept as it was.
pub open spec fn pool_tables_framed(post: Service, pre: Service) -> bool {
    &&& post.deadline_ms == pre.deadline_ms
    &&& post.registry == (Registry {
        pool_specs: post.registry.pool_specs,
        pool_states: post.registry.pool_states,
        ..pre.registry
    })
    &&& post.store == (Store { pool_specs: post.store.pool_specs, ..pre.store })
}

/// Pool records filed under any other key are kept as they were.
pub open spec fn pool_records_framed_except(post: Service, pre: Service, id: Seq<char>) -> bool {
    &&& forall|k: Seq<char>| k != id ==> #[trigger] post.registry.pool_specs.spec_get(k)
        == pre.registry.pool_specs.spec_get(k)
    &&& forall|k: Seq<char>| k != id ==> (#[trigger] post.registry.pool_specs.has_key(k)
        <==> pre.registry.pool_specs.has_key(k))
    &&& forall|k: Seq<char>| k != id ==> #[trigger] post.store.pool_specs.spec_get(k)
        == pre.store.pool_specs.spec_get(k)
    &&& forall|k: Seq<char>| k != id ==> (#[trigger] post.store.pool_specs.has_key(k)
        <==> pre.store.pool_specs.has_key(k))
}

/// Everything a replica operation may touch: the replica spec and state
/// tables; the rest of the service is kept as it was.
pub open spec fn replica_tables_framed(post: Service, pre: Service) -> bool {
    &&& post.deadline_ms == pre.deadline_ms
    &&& post.registry == (Registry {
        replica_specs: post.registry.replica_specs,
        replica_states: post.registry.replica_states,
        ..pre.registry
    })
    &&& post.store == (Store { replica_specs: post.store.replica_specs, ..pre.store })
}

/// Replica records filed under any other key are kept as they were.
pub open spec fn replica_records_framed_except(post: Service, pre: Service, uuid: Seq<char>) -> bool {
    &&& forall|k: Seq<char>| k != uuid ==> #[trigger] post.registry.replica_specs.spec_get(k)
        == pre.registry.replica_specs.spec_get(k)
    &&& forall|k: Seq<char>| k != uuid ==> (#[trigger] post.registry.replica_specs.has_key(k)
        <==> pre.registry.replica_specs.has_key(k))
    &&& forall|k: Seq<char>| k != uuid ==> #[trigger] post.store.replica_specs.spec_get(k)
        == pre.store.replica_specs.spec_get(k)
    &&& forall|k: Seq<char>| k != uuid ==> (#[trigger] post.store.replica_specs.has_key(k)
        <==> pre.store.replica_specs.has_key(k))
}

/// Everything a nexus operation may touch: the nexus spec and state
/// tables; the rest of the service is kept as it was.
pub open spec fn nexus_tables_framed(post: Service, pre: Service) -> bool {
    &&& post.deadline_ms == pre.deadline_ms
    &&& post.registry == (Registry {
        nexus_specs: post.registry.nexus_specs,
        nexus_states: post.registry.nexus_states,
        ..pre.registry
    })
    &&& post.store == (Store { nexus_specs: post.store.nexus_specs, ..pre.store })
}

/// Nexus records filed under any other key are kept as they were.
pub open spec fn nexus_records_framed_except(post: Service, pre: Service, uuid: Seq<char>) -> bool {
    &&& forall|k: Seq<char>| k != uuid ==> #[trigger] post.registry.nexus_specs.spec_get(k)
        == pre.registry.nexus_specs.spec_get(k)
    &&& forall|k: Seq<char>| k != uuid ==> (#[trigger] post.registry.nexus_specs.has_key(k)
        <==> pre.registry.nexus_specs.has_key(k))
    &&& forall|k: Seq<char>| k != uuid ==> #[trigger] post.store.nexus_specs.spec_get(k)
        == pre.store.nexus_specs.spec_get(k)
    &&& forall|k: Seq<char>| k != uuid ==> (#[trigger] post.store.nexus_specs.has_key(k)
        <==> pre.store.nexus_specs.has_key(k))
}

/// Whether a hosts access-control list names the sentinel entry that
/// switches access control off.
pub open spec fn acl_disabled(acl: Seq<Seq<char>>) -> bool {
    exists|i: int| 0 <= i < acl.len() && acl[i] == "none"@
}

/// The effective hosts access-control list: a list naming `none`
/// disables access control entirely and becomes empty; any other list
/// is kept as given.
pub fn effective_hosts_acl(acl: Vec<String>) -> (r: Vec<String>)
    ensures
        acl_disabled(acl@.map_values(|s: String| s@)) ==> r@.len() == 0,
        !acl_disabled(acl@.map_values(|s: String| s@)) ==> r@.map_values(|s: String| s@)
            == acl@.map_values(|s: String| s@),
{
    let ghost v = acl@.map_values(|s: String| s@);
    let needle = String::from_str("none");
    let mut i: usize = 0;
    while i < acl.len()
        invariant
            i <= acl@.len(),
            v == acl@.map_values(|s: String| s@),
            needle@ == "none"@,
            forall|j: int| 0 <= j < i ==> v[j] != "none"@,
        decreases acl@.len() - i,
    {
        if acl[i] == needle {
            proof {
                assert(v[i as int] == acl@[i as int]@);
                assert(acl_disabled(v));
            }
            return Vec::new();
        }
        proof {
            assert(v[i as int] == acl@[i as int]@);
        }
        i = i + 1;
    }
    proof {
        assert(!acl_disabled(v));
    }
    acl
}

/// Whether the nexus spec holds the replica as a child with the
/// membership persisting: a tombstoned nexus holds nothing.
pub open spec fn nexus_holds_replica(s: NexusSpecView, uuid: Seq<char>) -> bool {
    !(s.spec_status is Deleted) && s.contains_replica(uuid)
}

/// Whether a registration carries the fields it must.
pub open spec fn register_valid(req: RegisterView) -> bool {
    req.id.len() > 0 && req.grpc_endpoint.len() > 0
}

/// Whether a registration must be rejected: the node is known under a
/// different endpoint and is still live (online and not past its
/// deadline at `now`).
pub open spec fn register_rejected(
    prior: Option<NodeEntryView>,
    req: RegisterView,
    now: u64,
    deadline: u64,
) -> bool {
    match prior {
        Some(e) => e.spec.grpc_endpoint != req.grpc_endpoint && e.status == NodeStatus::Online
            && !(now >= e.last_seen + deadline),
        None => false,
    }
}

/// The registry entry a fresh registration creates.
pub open spec fn fresh_node_entry(req: RegisterView, now: u64) -> NodeEntryView {
    NodeEntryView {
        spec: NodeSpecView { id: req.id, grpc_endpoint: req.grpc_endpoint, labels: Seq::empty() },
        status: NodeStatus::Online,
        last_seen: now,
    }
}

/// The registry entry a registration leaves behind: the prior entry
/// refreshed, or a fresh one.
pub open spec fn registered_node_entry(
    prior: Option<NodeEntryView>,
    req: RegisterView,
    now: u64,
) -> NodeEntryView {
    match prior {
        Some(e) => e.registered(req.grpc_endpoint, now),
        None => fresh_node_entry(req, now),
    }
}

/// Whether a registration must write the node spec to the store: the
/// node is new, or its endpoint changed.
pub open spec fn register_writes_store(prior: Option<NodeEntryView>, req: RegisterView) -> bool {
    match prior {
        Some(e) => e.spec.grpc_endpoint != req.grpc_endpoint,
        None => true,
    }
}

/// The core service: registry, store, and the watchdog deadline.
pub struct Service {
    /// In-memory registry caches.
    pub registry: Registry,
    /// Persistent store model.
    pub store: Store,
    /// Registration deadline in milliseconds.
    pub deadline_ms: u64,
}

impl Service {
    /// Well-formed: registry and store tables file one entry per key.
    pub open spec fn wf(self) -> bool {
        self.registry.wf() && self.store.wf()
    }

    /// A fresh service over an empty registry and an empty store.
    pub fn new(deadline_ms: u64) -> (r: Service)
        ensures
            r.wf(),
            r.deadline_ms == deadline_ms,
            r.store.lease_held,
            r.store.online,
            r.registry.nodes.entries@.len() == 0,
            r.registry.nexus_specs.entries@.len() == 0,
            r.registry.nexus_states.entries@.len() == 0,
            r.registry.pool_specs.entries@.len() == 0,
            r.registry.pool_states.entries@.len() == 0,
            r.registry.replica_specs.entries@.len() == 0,
            r.registry.replica_states.entries@.len() == 0,
            r.registry.volume_specs.entries@.len() == 0,
            r.store.nexus_specs.entries@.len() == 0,
            r.store.node_specs.entries@.len() == 0,
    {
        Service { registry: Registry::new(), store: Store::new(), deadline_ms }
    }

    /// Whether the service is ready to answer.
    pub fn probe(&self) -> (r: bool)
        ensures
            r,
    {
        true
    }

    /// Handle a registration heartbeat at time `now`.
    ///
    /// A valid registration refreshes or creates the node's registry
    /// entry, leaving the node `Online` with `now` as its registration
    /// time.  A new node, or one whose endpoint changed, is also
    /// persisted; a node known under a different endpoint and still
    /// live is rejected.
    pub fn register(&mut self, request: &Register, now: u64) -> (r: Result<(), ReplyError>)
        requires
            old(self).wf(),
        ensures
            final(self).wf(),
            final(self).deadline_ms == old(self).deadline_ms,
            !register_valid(request@) ==> (r matches Err(e) && e.kind
                == ReplyErrorKind::MissingArgument && *final(self) == *old(self)),
            register_valid(request@) && register_rejected(
                old(self).registry.nodes.spec_get(request@.id),
                request@,
                now,
                old(self).deadline_ms,
            ) ==> (r matches Err(e) && e.kind == ReplyErrorKind::PreconditionFailed && *final(self)
                == *old(self)),
            register_valid(request@) && !register_rejected(
                old(self).registry.nodes.spec_get(request@.id),
                request@,
                now,
                old(self).deadline_ms,
            ) ==> {
                let prior = old(self).registry.nodes.spec_get(request@.id);
                let entry = registered_node_entry(prior, request@, now);
                let writes = register_writes_store(prior, request@);
                &&& (r is Ok <==> (!writes || old(self).store.writable()))
                &&& (r is Ok ==> {
                    &&& final(self).registry.nodes.spec_get(request@.id) == Some(entry)
                    &&& forall|k: Seq<char>| k != request@.id ==> #[trigger] final(self).registry.nodes.spec_get(k) == old(self).registry.nodes.spec_get(k)
                    &&& final(self).registry == (Registry {
                        nodes: final(self).registry.nodes,
                        ..old(self).registry
                    })
                    &&& (writes ==> final(self).store.node_specs.spec_get(request@.id) == Some(
                        entry.spec,
                    ) && forall|k: Seq<char>| k != request@.id ==> #[trigger] final(self).store.node_specs.spec_get(k) == old(self).store.node_specs.spec_get(k))
                    &&& (!writes ==> final(self).store == old(self).store)
                    &&& final(self).store == (Store {
                        node_specs: final(self).store.node_specs,
                        ..old(self).store
                    })
                })
                &&& (r is Err ==> *final(self) == *old(self))
                &&& (r matches Err(e) ==> e.kind == ReplyErrorKind::Aborted || e.kind
                    == ReplyErrorKind::Unavailable)
            },
    {
        if request.id.as_str().is_empty() {
            return Err(ReplyError::missing_argument(ResourceKind::Node, "id"));
        }
        if request.grpc_endpoint.as_str().is_empty() {
            return Err(ReplyError::missing_argument(ResourceKind::Node, "grpc_endpoint"));
        }
        let prior = self.registry.nodes.get_cloned(&request.id);
        let entry = match &prior {
            Some(e) => {
                let live = matches!(e.status, NodeStatus::Online) && !e.expired(
                    now,
                    self.deadline_ms,
                );
                let endpoint_changed = !(e.spec.grpc_endpoint == request.grpc_endpoint);
                if endpoint_changed && live {
                    return Err(
                        ReplyError::new(
                            ReplyErrorKind::PreconditionFailed,
                            ResourceKind::Node,
                            String::from_str("node is registered with another endpoint"),
                        ),
                    );
                }
                let mut e2 = e.clone();
                e2.spec.grpc_endpoint = request.grpc_endpoint.clone();
                e2.status = NodeStatus::Online;
                e2.last_seen = now;
                proof {
                    assert(e2@ =~= registered_node_entry(
                        old(self).registry.nodes.spec_get(request@.id),
                        request@,
                        now,
                    ));
                }
                e2
            },
            None => {
                let e2 = NodeEntry {
                    spec: NodeSpec {
                        id: request.id.clone(),
                        grpc_endpoint: request.grpc_endpoint.clone(),
                        labels: Vec::new(),
                    },
                    status: NodeStatus::Online,
                    last_seen: now,
                };
                proof {
                    assert(e2@.spec =~= fresh_node_entry(request@, now).spec);
                    assert(e2@ =~= fresh_node_entry(request@, now));
                }
                e2
            },
        };
        let writes = match &prior {
            Some(e) => !(e.spec.grpc_endpoint == request.grpc_endpoint),
            None => true,
        };
        if writes {
            match self.store.put_node_spec(&entry.spec) {
                Ok(()) => {},
                Err(e) => {
                    return Err(e);
                },
            }
        }
        self.registry.nodes.insert(entry);
        Ok(())
    }

    /// Explicitly remove a node: its registry entry goes, and its spec
    /// is deleted from the store.
    pub fn deregister(&mut self, request: &Deregister) -> (r: Result<(), ReplyError>)
        requires
            old(self).wf(),
        ensures
            final(self).wf(),
            final(self).deadline_ms == old(self).deadline_ms,
            request@.id.len() == 0 ==> (r matches Err(e) && e.kind
                == ReplyErrorKind::MissingArgument && *final(self) == *old(self)),
            request@.id.len() > 0 && !old(self).registry.nodes.has_key(request@.id) ==> (r matches
                Err(e) && e.kind == ReplyErrorKind::NotFound && *final(self) == *old(self)),
            request@.id.len() > 0 && old(self).registry.nodes.has_key(request@.id) ==> {
                &&& (r is Ok <==> old(self).store.writable())
                &&& (r is Err ==> *final(self) == *old(self))
                &&& (r matches Err(e) ==> e.kind == ReplyErrorKind::Aborted || e.kind
                    == ReplyErrorKind::Unavailable)
                &&& (r is Ok ==> {
                    &&& !final(self).registry.nodes.has_key(request@.id)
                    &&& !final(self).store.node_specs.has_key(request@.id)
                    &&& forall|k: Seq<char>| k != request@.id ==> #[trigger] final(self).registry.nodes.spec_get(k) == old(self).registry.nodes.spec_get(k)
                    &&& forall|k: Seq<char>| k != request@.id ==> #[trigger] final(self).store.node_specs.spec_get(k) == old(self).store.node_specs.spec_get(k)
                    &&& final(self).registry == (Registry {
                        nodes: final(self).registry.nodes,
                        ..old(self).registry
                    })
                    &&& final(self).store == (Store {
                        node_specs: final(self).store.node_specs,
                        ..old(self).store
                    })
                })
            },
    {
        if request.id.as_str().is_empty() {
            return Err(ReplyError::missing_argument(ResourceKind::Node, "id"));
        }
        match self.registry.nodes.find_index(&request.id) {
            Some(_) => {
                proof {
                    assert(old(self).registry.nodes.has_key(request@.id));
                }
            },
            None => {
                return Err(
                    ReplyError::new(
                        ReplyErrorKind::NotFound,
                        ResourceKind::Node,
                        String::from_str("node is not registered"),
                    ),
                );
            },
        }
        match self.store.delete_node_spec(&request.id) {
            Ok(()) => {},
            Err(e) => {
                return Err(e);
            },
        }
        let _ = self.registry.nodes.remove_key(&request.id);
        Ok(())
    }

    /// Run the watchdog over every node: an online node whose deadline
    /// has elapsed at `now` goes `Offline`; every other entry is kept.
    pub fn poll_nodes(&mut self, now: u64)
        requires
            old(self).wf(),
        ensures
            final(self).wf(),
            final(self).deadline_ms == old(self).deadline_ms,
            final(self).store == old(self).store,
            final(self).registry == (Registry {
                nodes: final(self).registry.nodes,
                ..old(self).registry
            }),
            final(self).registry.nodes.entries@.len() == old(self).registry.nodes.entries@.len(),
            forall|i: int| 0 <= i < old(self).registry.nodes.entries@.len() ==> final(self).registry.nodes.entries@[i]@ == (#[trigger] old(self).registry.nodes.entries@[i]@).watchdog_step(now, old(self).deadline_ms),
    {
        let deadline = self.deadline_ms;
        let n = self.registry.nodes.entries.len();
        let mut i: usize = 0;
        while i < n
            invariant
                n == self.registry.nodes.entries@.len(),
                i <= n,
                self.deadline_ms == old(self).deadline_ms,
                self.store == old(self).store,
                deadline == old(self).deadline_ms,
                self.registry == (Registry {
                    nodes: self.registry.nodes,
                    ..old(self).registry
                }),
                old(self).registry.nodes.entries@.len() == n,
                forall|j: int| i <= j < n ==> self.registry.nodes.entries@[j] == old(self).registry.nodes.entries@[j],
                forall|j: int| 0 <= j < i ==> self.registry.nodes.entries@[j]@ == (#[trigger] old(self).registry.nodes.entries@[j]@).watchdog_step(now, deadline),
            decreases n - i,
        {
            let expired = self.registry.nodes.entries[i].expired(now, deadline);
            if expired {
                let mut e2 = self.registry.nodes.entries[i].clone();
                e2.status = NodeStatus::Offline;
                proof {
                    assert(e2@ =~= old(self).registry.nodes.entries@[i as int]@.watchdog_step(
                        now,
                        deadline,
                    ));
                }
                self.registry.nodes.entries.set(i, e2);
            }
            i = i + 1;
        }
        proof {
            assert forall|a: int, b: int|
                0 <= a < b < self.registry.nodes.entries@.len() implies NodeEntry::key_of(
                self.registry.nodes.entries@[a]@,
            ) != NodeEntry::key_of(self.registry.nodes.entries@[b]@) by {
                assert(NodeEntry::key_of(self.registry.nodes.entries@[a]@) == NodeEntry::key_of(
                    old(self).registry.nodes.entries@[a]@,
                ));
                assert(NodeEntry::key_of(self.registry.nodes.entries@[b]@) == NodeEntry::key_of(
                    old(self).registry.nodes.entries@[b]@,
                ));
            }
        }
    }

    /// Create a nexus.
    ///
    /// A valid request on a known node and a fresh identifier records a
    /// `Creating` spec with a pending `Create` operation, persists it,
    /// and then commits or rolls back on the data-plane outcome.  On
    /// success the spec is `Created(Online)` in cache and store and the
    /// returned nexus is cached as observed state; on a data-plane
    /// failure the spec stays `Creating` with the operation cleared and
    /// the data-plane error is returned; on a store failure the pending
    /// spec stays cached for the reconciler.
    pub fn create_nexus(
        &mut self,
        request: &CreateNexus,
        outcome: &Result<crate::transport::Nexus, ReplyError>,
    ) -> (r: Result<crate::transport::Nexus, ReplyError>)
        requires
            old(self).wf(),
        ensures
            final(self).wf(),
            nexus_tables_framed(*final(self), *old(self)),
            request@.uuid.len() == 0 ==> (r matches Err(e) && e.kind
                == ReplyErrorKind::MissingArgument && *final(self) == *old(self)),
            request@.uuid.len() > 0 && !old(self).registry.nodes.has_key(request@.node) ==> (r
                matches Err(e) && e.kind == ReplyErrorKind::NotFound && e.resource
                == ResourceKind::Node && *final(self) == *old(self)),
            request@.uuid.len() > 0 && old(self).registry.nodes.has_key(request@.node) && old(self).registry.nexus_specs.has_key(request@.uuid) ==> (r matches Err(e) && e.kind
                == ReplyErrorKind::AlreadyExists && *final(self) == *old(self)),
            request@.uuid.len() > 0 && old(self).registry.nodes.has_key(request@.node) && !old(self).registry.nexus_specs.has_key(request@.uuid) ==> {
                let pending = NexusSpecView::from_request(request@).started(
                    NexusOperationView::Create,
                );
                let created = (NexusSpecView {
                    spec_status: SpecStatus::Created(NexusStatus::Online),
                    ..NexusSpecView::from_request(request@)
                });
                let rolled = NexusSpecView::from_request(request@);
                &&& nexus_records_framed_except(*final(self), *old(self), request@.uuid)
                &&& (!old(self).store.writable() ==> (r matches Err(e) && (e.kind
                    == ReplyErrorKind::Aborted || e.kind == ReplyErrorKind::Unavailable) && final(self).registry.nexus_specs.spec_get(request@.uuid) == Some(pending) && final(self).store == old(self).store && final(self).registry.nexus_states == old(self).registry.nexus_states))
                &&& (old(self).store.writable() ==> {
                    &&& (outcome matches Ok(n) ==> (r matches Ok(rn) && rn@ == n@ && final(self).registry.nexus_specs.spec_get(request@.uuid) == Some(created) && final(self).store.nexus_specs.spec_get(request@.uuid) == Some(created) && final(self).registry.nexus_states.spec_get(n@.uuid) == Some(
                        NexusStateView { nexus: n@ },
                    ) && (forall|k: Seq<char>| k != n@.uuid ==> #[trigger] final(self).registry.nexus_states.spec_get(k) == old(self).registry.nexus_states
                        .spec_get(k))))
                    &&& (outcome matches Err(e) ==> (r matches Err(re) && re.kind == e.kind
                        && re.resource == e.resource && final(self).registry.nexus_specs.spec_get(
                        request@.uuid,
                    ) == Some(rolled) && final(self).store.nexus_specs.spec_get(request@.uuid)
                        == Some(rolled) && final(self).registry.nexus_states == old(self).registry.nexus_states))
                })
            },
    {
        if request.uuid.as_str().is_empty() {
            return Err(ReplyError::missing_argument(ResourceKind::Nexus, "uuid"));
        }
        match self.registry.nodes.find_index(&request.node) {
            Some(i) => {
                proof {
                    assert(old(self).registry.nodes.has_key(request@.node));
                }
            },
            None => {
                return Err(
                    ReplyError::new(
                        ReplyErrorKind::NotFound,
                        ResourceKind::Node,
                        String::from_str("node is not registered"),
                    ),
                );
            },
        }
        match self.registry.nexus_specs.find_index(&request.uuid) {
            Some(i) => {
                proof {
                    assert(old(self).registry.nexus_specs.has_key(request@.uuid));
                }
                return Err(
                    ReplyError::new(
                        ReplyErrorKind::AlreadyExists,
                        ResourceKind::Nexus,
                        String::from_str("nexus already exists"),
                    ),
                );
            },
            None => {},
        }
        let mut nexus_spec = NexusSpec::from_request(request);
        match nexus_spec.start_op(NexusOperation::Create) {
            Ok(()) => {},
            Err(e) => {
                return Err(e);
            },
        }
        self.registry.nexus_specs.insert(nexus_spec.clone());
        match self.store.put_nexus_spec(&nexus_spec) {
            Ok(()) => {},
            Err(e) => {
                return Err(e);
            },
        }
        match outcome {
            Ok(nexus) => {
                nexus_spec.set_op_result(true);
                nexus_spec.commit_op();
                proof {
                    assert(nexus_spec@ =~= (NexusSpecView {
                        spec_status: SpecStatus::Created(NexusStatus::Online),
                        ..NexusSpecView::from_request(request@)
                    }));
                }
                self.registry.nexus_specs.insert(nexus_spec.clone());
                match self.store.put_nexus_spec(&nexus_spec) {
                    Ok(()) => {},
                    Err(e) => {
                        return Err(e);
                    },
                }
                self.registry.nexus_states.insert(NexusState { nexus: nexus.clone() });
                Ok(nexus.clone())
            },
            Err(e) => {
                nexus_spec.set_op_result(false);
                nexus_spec.commit_op();
                proof {
                    assert(nexus_spec@ =~= NexusSpecView::from_request(request@));
                }
                self.registry.nexus_specs.insert(nexus_spec.clone());
                let _ = self.store.put_nexus_spec(&nexus_spec);
                Err(e.clone())
            },
        }
    }

    /// Destroy a nexus.
    ///
    /// The nexus must exist and have no operation in flight.  The
    /// pending `Destroy` operation is persisted, then committed or
    /// rolled back on the data-plane outcome.  On success the spec is
    /// tombstoned `Deleted` (kept for garbage collection) and the
    /// observed state entry is dropped.
    pub fn destroy_nexus(
        &mut self,
        request: &DestroyNexus,
        outcome: &Result<(), ReplyError>,
    ) -> (r: Result<(), ReplyError>)
        requires
            old(self).wf(),
        ensures
            final(self).wf(),
            nexus_tables_framed(*final(self), *old(self)),
            !old(self).registry.nexus_specs.has_key(request@.uuid) ==> (r matches Err(e) && e.kind
                == ReplyErrorKind::NotFound && *final(self) == *old(self)),
            old(self).registry.nexus_specs.has_key(request@.uuid) ==> {
                let prior = old(self).registry.nexus_specs.spec_get(request@.uuid)->Some_0;
                &&& (prior.operation is Some ==> (r matches Err(e) && e.kind
                    == ReplyErrorKind::Conflict && *final(self) == *old(self)))
                &&& (prior.operation is None ==> {
                    let pending = prior.started(NexusOperationView::Destroy);
                    let done = (NexusSpecView { spec_status: SpecStatus::Deleted, ..prior });
                    &&& nexus_records_framed_except(*final(self), *old(self), request@.uuid)
                    &&& (!old(self).store.writable() ==> (r matches Err(e) && (e.kind
                        == ReplyErrorKind::Aborted || e.kind == ReplyErrorKind::Unavailable)
                        && final(self).registry.nexus_specs.spec_get(request@.uuid) == Some(
                        pending,
                    ) && final(self).store == old(self).store && final(self).registry.nexus_states
                        == old(self).registry.nexus_states))
                    &&& (old(self).store.writable() ==> {
                        &&& (outcome is Ok ==> (r is Ok && final(self).registry.nexus_specs.spec_get(request@.uuid) == Some(done) && final(self).store.nexus_specs.spec_get(request@.uuid) == Some(done) && !final(self).registry.nexus_states.has_key(request@.uuid) && (forall|k: Seq<char>|
                            k != request@.uuid ==> #[trigger] final(self).registry.nexus_states.spec_get(k) == old(self).registry.nexus_states.spec_get(k))))
                        &&& (outcome matches Err(e) ==> (r matches Err(re) && re.kind == e.kind
                            && re.resource == e.resource && final(self).registry.nexus_specs.spec_get(request@.uuid) == Some(prior) && final(self).store.nexus_specs.spec_get(request@.uuid) == Some(prior) && final(self).registry.nexus_states == old(self).registry.nexus_states))
                    })
                })
            },
    {
        let uuid = &request.uuid;
        let mut nexus_spec = match self.registry.nexus_specs.get_cloned(uuid) {
            Some(s) => s,
            None => {
                return Err(
                    ReplyError::new(
                        ReplyErrorKind::NotFound,
                        ResourceKind::Nexus,
                        String::from_str("nexus does not exist"),
                    ),
                );
            },
        };
        match nexus_spec.start_op(NexusOperation::Destroy) {
            Ok(()) => {},
            Err(e) => {
                return Err(e);
            },
        }
        self.registry.nexus_specs.insert(nexus_spec.clone());
        match self.store.put_nexus_spec(&nexus_spec) {
            Ok(()) => {},
            Err(e) => {
                return Err(e);
            },
        }
        match outcome {
            Ok(()) => {
                nexus_spec.set_op_result(true);
                nexus_spec.commit_op();
                proof {
                    let prior = old(self).registry.nexus_specs.spec_get(request@.uuid)->Some_0;
                    assert(nexus_spec@ =~= (NexusSpecView {
                        spec_status: SpecStatus::Deleted,
                        ..prior
                    }));
                }
                self.registry.nexus_specs.insert(nexus_spec.clone());
                match self.store.put_nexus_spec(&nexus_spec) {
                    Ok(()) => {},
                    Err(e) => {
                        return Err(e);
                    },
                }
                let _ = self.registry.nexus_states.remove_key(uuid);
                Ok(())
            },
            Err(e) => {
                nexus_spec.set_op_result(false);
                nexus_spec.commit_op();
                proof {
                    let prior = old(self).registry.nexus_specs.spec_get(request@.uuid)->Some_0;
                    assert(nexus_spec@ =~= prior);
                }
                self.registry.nexus_specs.insert(nexus_spec.clone());
                let _ = self.store.put_nexus_spec(&nexus_spec);
                Err(e.clone())
            },
        }
    }

    /// Share a nexus over the given protocol.
    ///
    /// The nexus must exist, have no operation in flight, and not be
    /// shared already.  On success the caller receives the URI the data
    /// plane returned and the spec records the protocol.
    pub fn share_nexus(
        &mut self,
        uuid: &crate::transport::NexusId,
        protocol: crate::transport::NexusShareProtocol,
        outcome: &Result<String, ReplyError>,
    ) -> (r: Result<String, ReplyError>)
        requires
            old(self).wf(),
        ensures
            final(self).wf(),
            nexus_tables_framed(*final(self), *old(self)),
            final(self).registry.nexus_states == old(self).registry.nexus_states,
            !old(self).registry.nexus_specs.has_key(uuid@) ==> (r matches Err(e) && e.kind
                == ReplyErrorKind::NotFound && *final(self) == *old(self)),
            old(self).registry.nexus_specs.has_key(uuid@) ==> {
                let prior = old(self).registry.nexus_specs.spec_get(uuid@)->Some_0;
                &&& (prior.operation is Some ==> (r matches Err(e) && e.kind
                    == ReplyErrorKind::Conflict && *final(self) == *old(self)))
                &&& (prior.operation is None && prior.share != crate::transport::Protocol::Off
                    ==> (r matches Err(e) && e.kind == ReplyErrorKind::PreconditionFailed
                    && *final(self) == *old(self)))
                &&& (prior.operation is None && prior.share == crate::transport::Protocol::Off
                    ==> {
                    let pending = prior.started(NexusOperationView::Share(protocol));
                    let done = (NexusSpecView { share: protocol.to_protocol(), ..prior });
                    &&& nexus_records_framed_except(*final(self), *old(self), uuid@)
                    &&& (!old(self).store.writable() ==> (r matches Err(e) && (e.kind
                        == ReplyErrorKind::Aborted || e.kind == ReplyErrorKind::Unavailable)
                        && final(self).registry.nexus_specs.spec_get(uuid@) == Some(pending)
                        && final(self).store == old(self).store))
                    &&& (old(self).store.writable() ==> {
                        &&& (outcome matches Ok(v) ==> (r matches Ok(rv) && rv@ == v@ && final(self).registry.nexus_specs.spec_get(uuid@) == Some(done) && final(self).store.nexus_specs.spec_get(uuid@) == Some(done)))
                        &&& (outcome matches Err(e) ==> (r matches Err(re) && re.kind == e.kind
                            && re.resource == e.resource && final(self).registry.nexus_specs.spec_get(uuid@) == Some(prior) && final(self).store.nexus_specs.spec_get(uuid@) == Some(prior)))
                    })
                })
            },
    {
        let mut nexus_spec = match self.registry.nexus_specs.get_cloned(uuid) {
            Some(s) => s,
            None => {
                return Err(
                    ReplyError::new(
                        ReplyErrorKind::NotFound,
                        ResourceKind::Nexus,
                        String::from_str("nexus does not exist"),
                    ),
                );
            },
        };
        if nexus_spec.pending_op() {
            return Err(ReplyError::op_in_progress(ResourceKind::Nexus));
        }
        if !matches!(nexus_spec.share, crate::transport::Protocol::Off) {
            return Err(
                ReplyError::new(
                    ReplyErrorKind::PreconditionFailed,
                    ResourceKind::Nexus,
                    String::from_str("nexus is already shared"),
                ),
            );
        }
        match nexus_spec.start_op(NexusOperation::Share(protocol)) {
            Ok(()) => {},
            Err(e) => {
                return Err(e);
            },
        }
        self.registry.nexus_specs.insert(nexus_spec.clone());
        match self.store.put_nexus_spec(&nexus_spec) {
            Ok(()) => {},
            Err(e) => {
                return Err(e);
            },
        }
        match outcome {
            Ok(device_uri) => {
                nexus_spec.set_op_result(true);
                nexus_spec.commit_op();
                proof {
                    let prior = old(self).registry.nexus_specs.spec_get(uuid@)->Some_0;
                    assert(nexus_spec@ =~= (NexusSpecView {
                        share: protocol.to_protocol(),
                        ..prior
                    }));
                }
                self.registry.nexus_specs.insert(nexus_spec.clone());
                match self.store.put_nexus_spec(&nexus_spec) {
                    Ok(()) => {},
                    Err(e) => {
                        return Err(e);
                    },
                }
                Ok(device_uri.clone())
            },
            Err(e) => {
                nexus_spec.set_op_result(false);
                nexus_spec.commit_op();
                proof {
                    let prior = old(self).registry.nexus_specs.spec_get(uuid@)->Some_0;
                    assert(nexus_spec@ =~= prior);
                }
                self.registry.nexus_specs.insert(nexus_spec.clone());
                let _ = self.store.put_nexus_spec(&nexus_spec);
                Err(e.clone())
            },
        }
    }

    /// Stop sharing a nexus.
    ///
    /// The nexus must exist, have no operation in flight, and be
    /// shared.  On success the spec's share protocol is cleared.
    pub fn unshare_nexus(
        &mut self,
        uuid: &crate::transport::NexusId,
        outcome: &Result<(), ReplyError>,
    ) -> (r: Result<(), ReplyError>)
        requires
            old(self).wf(),
        ensures
            final(self).wf(),
            nexus_tables_framed(*final(self), *old(self)),
            final(self).registry.nexus_states == old(self).registry.nexus_states,
            !old(self).registry.nexus_specs.has_key(uuid@) ==> (r matches Err(e) && e.kind
                == ReplyErrorKind::NotFound && *final(self) == *old(self)),
            old(self).registry.nexus_specs.has_key(uuid@) ==> {
                let prior = old(self).registry.nexus_specs.spec_get(uuid@)->Some_0;
                &&& (prior.operation is Some ==> (r matches Err(e) && e.kind
                    == ReplyErrorKind::Conflict && *final(self) == *old(self)))
                &&& (prior.operation is None && prior.share == crate::transport::Protocol::Off
                    ==> (r matches Err(e) && e.kind == ReplyErrorKind::PreconditionFailed
                    && *final(self) == *old(self)))
                &&& (prior.operation is None && prior.share != crate::transport::Protocol::Off
                    ==> {
                    let pending = prior.started(NexusOperationView::Unshare);
                    let done = (NexusSpecView {
                        share: crate::transport::Protocol::Off,
                        ..prior
                    });
                    &&& nexus_records_framed_except(*final(self), *old(self), uuid@)
                    &&& (!old(self).store.writable() ==> (r matches Err(e) && (e.kind
                        == ReplyErrorKind::Aborted || e.kind == ReplyErrorKind::Unavailable)
                        && final(self).registry.nexus_specs.spec_get(uuid@) == Some(pending)
                        && final(self).store == old(self).store))
                    &&& (old(self).store.writable() ==> {
                        &&& (outcome is Ok ==> (r is Ok && final(self).registry.nexus_specs.spec_get(uuid@) == Some(done) && final(self).store.nexus_specs.spec_get(uuid@) == Some(done)))
                        &&& (outcome matches Err(e) ==> (r matches Err(re) && re.kind == e.kind
                            && re.resource == e.resource && final(self).registry.nexus_specs.spec_get(uuid@) == Some(prior) && final(self).store.nexus_specs.spec_get(uuid@) == Some(prior)))
                    })
                })
            },
    {
        let mut nexus_spec = match self.registry.nexus_specs.get_cloned(uuid) {
            Some(s) => s,
            None => {
                return Err(
                    ReplyError::new(
                        ReplyErrorKind::NotFound,
                        ResourceKind::Nexus,
                        String::from_str("nexus does not exist"),
                    ),
                );
            },
        };
        if nexus_spec.pending_op() {
            return Err(ReplyError::op_in_progress(ResourceKind::Nexus));
        }
        if matches!(nexus_spec.share, crate::transport::Protocol::Off) {
            return Err(
                ReplyError::new(
                    ReplyErrorKind::PreconditionFailed,
                    ResourceKind::Nexus,
                    String::from_str("nexus is not shared"),
                ),
            );
        }
        match nexus_spec.start_op(NexusOperation::Unshare) {
            Ok(()) => {},
            Err(e) => {
                return Err(e);
            },
        }
        self.registry.nexus_specs.insert(nexus_spec.clone());
        match self.store.put_nexus_spec(&nexus_spec) {
            Ok(()) => {},
            Err(e) => {
                return Err(e);
            },
        }
        match outcome {
            Ok(()) => {
                nexus_spec.set_op_result(true);
                nexus_spec.commit_op();
                proof {
                    let prior = old(self).registry.nexus_specs.spec_get(uuid@)->Some_0;
                    assert(nexus_spec@ =~= (NexusSpecView {
                        share: crate::transport::Protocol::Off,
                        ..prior
                    }));
                }
                self.registry.nexus_specs.insert(nexus_spec.clone());
                match self.store.put_nexus_spec(&nexus_spec) {
                    Ok(()) => {},
                    Err(e) => {
                        return Err(e);
                    },
                }
                Ok(())
            },
            Err(e) => {
                nexus_spec.set_op_result(false);
                nexus_spec.commit_op();
                proof {
                    let prior = old(self).registry.nexus_specs.spec_get(uuid@)->Some_0;
                    assert(nexus_spec@ =~= prior);
                }
                self.registry.nexus_specs.insert(nexus_spec.clone());
                let _ = self.store.put_nexus_spec(&nexus_spec);
                Err(e.clone())
            },
        }
    }

    /// Shut a nexus down.
    ///
    /// The nexus must exist, have no operation in flight, and have
    /// been created: only a created spec may move to
    /// `Created(Shutdown)`, so a spec still `Creating` leaves that
    /// status only by committing its `Create`.
    pub fn shutdown_nexus(
        &mut self,
        uuid: &crate::transport::NexusId,
        outcome: &Result<(), ReplyError>,
    ) -> (r: Result<(), ReplyError>)
        requires
            old(self).wf(),
        ensures
            final(self).wf(),
            nexus_tables_framed(*final(self), *old(self)),
            final(self).registry.nexus_states == old(self).registry.nexus_states,
            !old(self).registry.nexus_specs.has_key(uuid@) ==> (r matches Err(e) && e.kind
                == ReplyErrorKind::NotFound && *final(self) == *old(self)),
            old(self).registry.nexus_specs.has_key(uuid@) ==> {
                let prior = old(self).registry.nexus_specs.spec_get(uuid@)->Some_0;
                &&& (prior.operation is Some ==> (r matches Err(e) && e.kind
                    == ReplyErrorKind::Conflict && *final(self) == *old(self)))
                &&& (prior.operation is None && !prior.spec_status.is_created() ==> (r matches
                    Err(e) && e.kind == ReplyErrorKind::PreconditionFailed && *final(self)
                    == *old(self)))
                &&& (prior.operation is None && prior.spec_status.is_created() ==> {
                    let pending = prior.started(NexusOperationView::Shutdown);
                    let done = (NexusSpecView {
                        spec_status: SpecStatus::Created(NexusStatus::Shutdown),
                        ..prior
                    });
                    &&& nexus_records_framed_except(*final(self), *old(self), uuid@)
                    &&& (!old(self).store.writable() ==> (r matches Err(e) && (e.kind
                        == ReplyErrorKind::Aborted || e.kind == ReplyErrorKind::Unavailable)
                        && final(self).registry.nexus_specs.spec_get(uuid@) == Some(pending)
                        && final(self).store == old(self).store))
                    &&& (old(self).store.writable() ==> {
                        &&& (outcome is Ok ==> (r is Ok && final(self).registry.nexus_specs.spec_get(uuid@) == Some(done) && final(self).store.nexus_specs.spec_get(uuid@) == Some(done)))
                        &&& (outcome matches Err(e) ==> (r matches Err(re) && re.kind == e.kind
                            && re.resource == e.resource && final(self).registry.nexus_specs.spec_get(uuid@) == Some(prior) && final(self).store.nexus_specs.spec_get(uuid@) == Some(prior)))
                    })
                })
            },
    {
        let mut nexus_spec = match self.registry.nexus_specs.get_cloned(uuid) {
            Some(s) => s,
            None => {
                return Err(
                    ReplyError::new(
                        ReplyErrorKind::NotFound,
                        ResourceKind::Nexus,
                        String::from_str("nexus does not exist"),
                    ),
                );
            },
        };
        if nexus_spec.pending_op() {
            return Err(ReplyError::op_in_progress(ResourceKind::Nexus));
        }
        if !matches!(nexus_spec.spec_status, SpecStatus::Created(_)) {
            return Err(
                ReplyError::new(
                    ReplyErrorKind::PreconditionFailed,
                    ResourceKind::Nexus,
                    String::from_str("nexus has not been created"),
                ),
            );
        }
        match nexus_spec.start_op(NexusOperation::Shutdown) {
            Ok(()) => {},
            Err(e) => {
                return Err(e);
            },
        }
        self.registry.nexus_specs.insert(nexus_spec.clone());
        match self.store.put_nexus_spec(&nexus_spec) {
            Ok(()) => {},
            Err(e) => {
                return Err(e);
            },
        }
        match outcome {
            Ok(()) => {
                nexus_spec.set_op_result(true);
                nexus_spec.commit_op();
                proof {
                    let prior = old(self).registry.nexus_specs.spec_get(uuid@)->Some_0;
                    assert(nexus_spec@ =~= (NexusSpecView {
                        spec_status: SpecStatus::Created(NexusStatus::Shutdown),
                        ..prior
                    }));
                }
                self.registry.nexus_specs.insert(nexus_spec.clone());
                match self.store.put_nexus_spec(&nexus_spec) {
                    Ok(()) => {},
                    Err(e) => {
                        return Err(e);
                    },
                }
                Ok(())
            },
            Err(e) => {
                nexus_spec.set_op_result(false);
                nexus_spec.commit_op();
                proof {
                    let prior = old(self).registry.nexus_specs.spec_get(uuid@)->Some_0;
                    assert(nexus_spec@ =~= prior);
                }
                self.registry.nexus_specs.insert(nexus_spec.clone());
                let _ = self.store.put_nexus_spec(&nexus_spec);
                Err(e.clone())
            },
        }
    }

    /// Add a child to a nexus.
    ///
    /// The nexus must exist, have no operation in flight, and not hold
    /// the child already.  On success the child is appended to the
    /// spec's list — the list changes in one step, at commit.
    pub fn add_nexus_child(
        &mut self,
        uuid: &crate::transport::NexusId,
        child: &crate::nexus_child::NexusChild,
        outcome: &Result<crate::transport::Child, ReplyError>,
    ) -> (r: Result<crate::transport::Child, ReplyError>)
        requires
            old(self).wf(),
        ensures
            final(self).wf(),
            nexus_tables_framed(*final(self), *old(self)),
            final(self).registry.nexus_states == old(self).registry.nexus_states,
            !old(self).registry.nexus_specs.has_key(uuid@) ==> (r matches Err(e) && e.kind
                == ReplyErrorKind::NotFound && *final(self) == *old(self)),
            old(self).registry.nexus_specs.has_key(uuid@) ==> {
                let prior = old(self).registry.nexus_specs.spec_get(uuid@)->Some_0;
                &&& (prior.operation is Some ==> (r matches Err(e) && e.kind
                    == ReplyErrorKind::Conflict && *final(self) == *old(self)))
                &&& (prior.operation is None && prior.children.contains(child@) ==> (r matches
                    Err(e) && e.kind == ReplyErrorKind::AlreadyExists && *final(self) == *old(self)))
                &&& (prior.operation is None && !prior.children.contains(child@) ==> {
                    let pending = prior.started(NexusOperationView::AddChild(child@));
                    let done = (NexusSpecView {
                        children: prior.children.push(child@),
                        ..prior
                    });
                    &&& nexus_records_framed_except(*final(self), *old(self), uuid@)
                    &&& (!old(self).store.writable() ==> (r matches Err(e) && (e.kind
                        == ReplyErrorKind::Aborted || e.kind == ReplyErrorKind::Unavailable)
                        && final(self).registry.nexus_specs.spec_get(uuid@) == Some(pending)
                        && final(self).store == old(self).store))
                    &&& (old(self).store.writable() ==> {
                        &&& (outcome matches Ok(c) ==> (r matches Ok(rc) && rc@ == c@ && final(self).registry.nexus_specs.spec_get(uuid@) == Some(done) && final(self).store.nexus_specs.spec_get(uuid@) == Some(done)))
                        &&& (outcome matches Err(e) ==> (r matches Err(re) && re.kind == e.kind
                            && re.resource == e.resource && final(self).registry.nexus_specs.spec_get(uuid@) == Some(prior) && final(self).store.nexus_specs.spec_get(uuid@) == Some(prior)))
                    })
                })
            },
    {
        let mut nexus_spec = match self.registry.nexus_specs.get_cloned(uuid) {
            Some(s) => s,
            None => {
                return Err(
                    ReplyError::new(
                        ReplyErrorKind::NotFound,
                        ResourceKind::Nexus,
                        String::from_str("nexus does not exist"),
                    ),
                );
            },
        };
        if nexus_spec.pending_op() {
            return Err(ReplyError::op_in_progress(ResourceKind::Nexus));
        }
        if crate::nexus_child::contains_child(&nexus_spec.children, child) {
            return Err(
                ReplyError::new(
                    ReplyErrorKind::AlreadyExists,
                    ResourceKind::Child,
                    String::from_str("child is already part of the nexus"),
                ),
            );
        }
        match nexus_spec.start_op(NexusOperation::AddChild(child.clone())) {
            Ok(()) => {},
            Err(e) => {
                return Err(e);
            },
        }
        self.registry.nexus_specs.insert(nexus_spec.clone());
        match self.store.put_nexus_spec(&nexus_spec) {
            Ok(()) => {},
            Err(e) => {
                return Err(e);
            },
        }
        match outcome {
            Ok(child_state) => {
                nexus_spec.set_op_result(true);
                nexus_spec.commit_op();
                proof {
                    let prior = old(self).registry.nexus_specs.spec_get(uuid@)->Some_0;
                    assert(nexus_spec@.children =~= prior.children.push(child@));
                    assert(nexus_spec@ =~= (NexusSpecView {
                        children: prior.children.push(child@),
                        ..prior
                    }));
                }
                self.registry.nexus_specs.insert(nexus_spec.clone());
                match self.store.put_nexus_spec(&nexus_spec) {
                    Ok(()) => {},
                    Err(e) => {
                        return Err(e);
                    },
                }
                Ok(child_state.clone())
            },
            Err(e) => {
                nexus_spec.set_op_result(false);
                nexus_spec.commit_op();
                proof {
                    let prior = old(self).registry.nexus_specs.spec_get(uuid@)->Some_0;
                    assert(nexus_spec@ =~= prior);
                }
                self.registry.nexus_specs.insert(nexus_spec.clone());
                let _ = self.store.put_nexus_spec(&nexus_spec);
                Err(e.clone())
            },
        }
    }

    /// Remove a child from a nexus.
    ///
    /// The nexus must exist, have no operation in flight, and hold the
    /// child.  On success every entry reading as the child leaves the
    /// spec's list — the list changes in one step, at commit.
    pub fn remove_nexus_child(
        &mut self,
        uuid: &crate::transport::NexusId,
        child: &crate::nexus_child::NexusChild,
        outcome: &Result<(), ReplyError>,
    ) -> (r: Result<(), ReplyError>)
        requires
            old(self).wf(),
        ensures
            final(self).wf(),
            nexus_tables_framed(*final(self), *old(self)),
            final(self).registry.nexus_states == old(self).registry.nexus_states,
            !old(self).registry.nexus_specs.has_key(uuid@) ==> (r matches Err(e) && e.kind
                == ReplyErrorKind::NotFound && *final(self) == *old(self)),
            old(self).registry.nexus_specs.has_key(uuid@) ==> {
                let prior = old(self).registry.nexus_specs.spec_get(uuid@)->Some_0;
                &&& (prior.operation is Some ==> (r matches Err(e) && e.kind
                    == ReplyErrorKind::Conflict && *final(self) == *old(self)))
                &&& (prior.operation is None && !prior.children.contains(child@) ==> (r matches
                    Err(e) && e.kind == ReplyErrorKind::NotFound && e.resource
                    == ResourceKind::Child && *final(self) == *old(self)))
                &&& (prior.operation is None && prior.children.contains(child@) ==> {
                    let pending = prior.started(NexusOperationView::RemoveChild(child@));
                    let done = (NexusSpecView {
                        children: prior.children.filter(crate::nexus::keeps_other_children(
                            child@,
                        )),
                        ..prior
                    });
                    &&& nexus_records_framed_except(*final(self), *old(self), uuid@)
                    &&& (!old(self).store.writable() ==> (r matches Err(e) && (e.kind
                        == ReplyErrorKind::Aborted || e.kind == ReplyErrorKind::Unavailable)
                        && final(self).registry.nexus_specs.spec_get(uuid@) == Some(pending)
                        && final(self).store == old(self).store))
                    &&& (old(self).store.writable() ==> {
                        &&& (outcome is Ok ==> (r is Ok && final(self).registry.nexus_specs.spec_get(uuid@) == Some(done) && final(self).store.nexus_specs.spec_get(uuid@) == Some(done)))
                        &&& (outcome matches Err(e) ==> (r matches Err(re) && re.kind == e.kind
                            && re.resource == e.resource && final(self).registry.nexus_specs.spec_get(uuid@) == Some(prior) && final(self).store.nexus_specs.spec_get(uuid@) == Some(prior)))
                    })
                })
            },
    {
        let mut nexus_spec = match self.registry.nexus_specs.get_cloned(uuid) {
            Some(s) => s,
            None => {
                return Err(
                    ReplyError::new(
                        ReplyErrorKind::NotFound,
                        ResourceKind::Nexus,
                        String::from_str("nexus does not exist"),
                    ),
                );
            },
        };
        if nexus_spec.pending_op() {
            return Err(ReplyError::op_in_progress(ResourceKind::Nexus));
        }
        if !crate::nexus_child::contains_child(&nexus_spec.children, child) {
            return Err(
                ReplyError::new(
                    ReplyErrorKind::NotFound,
                    ResourceKind::Child,
                    String::from_str("child is not part of the nexus"),
                ),
            );
        }
        match nexus_spec.start_op(NexusOperation::RemoveChild(child.clone())) {
            Ok(()) => {},
            Err(e) => {
                return Err(e);
            },
        }
        self.registry.nexus_specs.insert(nexus_spec.clone());
        match self.store.put_nexus_spec(&nexus_spec) {
            Ok(()) => {},
            Err(e) => {
                return Err(e);
            },
        }
        match outcome {
            Ok(()) => {
                nexus_spec.set_op_result(true);
                nexus_spec.commit_op();
                proof {
                    let prior = old(self).registry.nexus_specs.spec_get(uuid@)->Some_0;
                    assert(nexus_spec@ =~= (NexusSpecView {
                        children: prior.children.filter(crate::nexus::keeps_other_children(
                            child@,
                        )),
                        ..prior
                    }));
                }
                self.registry.nexus_specs.insert(nexus_spec.clone());
                match self.store.put_nexus_spec(&nexus_spec) {
                    Ok(()) => {},
                    Err(e) => {
                        return Err(e);
                    },
                }
                Ok(())
            },
            Err(e) => {
                nexus_spec.set_op_result(false);
                nexus_spec.commit_op();
                proof {
                    let prior = old(self).registry.nexus_specs.spec_get(uuid@)->Some_0;
                    assert(nexus_spec@ =~= prior);
                }
                self.registry.nexus_specs.insert(nexus_spec.clone());
                let _ = self.store.put_nexus_spec(&nexus_spec);
                Err(e.clone())
            },
        }
    }

    /// Clear a nexus's owning volume.
    ///
    /// The owner field is cleared in one step and persisted; clearing
    /// an absent owner is a no-op, so the call is idempotent.
    pub fn disown_nexus(&mut self, uuid: &crate::transport::NexusId) -> (r: Result<
        (),
        ReplyError,
    >)
        requires
            old(self).wf(),
        ensures
            final(self).wf(),
            nexus_tables_framed(*final(self), *old(self)),
            final(self).registry.nexus_states == old(self).registry.nexus_states,
            !old(self).registry.nexus_specs.has_key(uuid@) ==> (r matches Err(e) && e.kind
                == ReplyErrorKind::NotFound && *final(self) == *old(self)),
            old(self).registry.nexus_specs.has_key(uuid@) ==> {
                let prior = old(self).registry.nexus_specs.spec_get(uuid@)->Some_0;
                let done = (NexusSpecView { owner: None, ..prior });
                &&& nexus_records_framed_except(*final(self), *old(self), uuid@)
                &&& (r is Ok <==> old(self).store.writable())
                &&& (r is Err ==> *final(self) == *old(self))
                &&& (r matches Err(e) ==> e.kind == ReplyErrorKind::Aborted || e.kind
                    == ReplyErrorKind::Unavailable)
                &&& (r is Ok ==> final(self).registry.nexus_specs.spec_get(uuid@) == Some(done)
                    && final(self).store.nexus_specs.spec_get(uuid@) == Some(done))
            },
    {
        let mut nexus_spec = match self.registry.nexus_specs.get_cloned(uuid) {
            Some(s) => s,
            None => {
                return Err(
                    ReplyError::new(
                        ReplyErrorKind::NotFound,
                        ResourceKind::Nexus,
                        String::from_str("nexus does not exist"),
                    ),
                );
            },
        };
        nexus_spec.disowned_by_volume();
        match self.store.put_nexus_spec(&nexus_spec) {
            Ok(()) => {},
            Err(e) => {
                return Err(e);
            },
        }
        self.registry.nexus_specs.insert(nexus_spec);
        Ok(())
    }

    /// Refresh the state cache with a nexus a node reports: the entry
    /// under the nexus identifier is replaced with the observation.
    pub fn observe_nexus(&mut self, nexus: crate::transport::Nexus)
        requires
            old(self).wf(),
        ensures
            final(self).wf(),
            final(self).deadline_ms == old(self).deadline_ms,
            final(self).store == old(self).store,
            final(self).registry == (Registry {
                nexus_states: final(self).registry.nexus_states,
                ..old(self).registry
            }),
            final(self).registry.nexus_states.spec_get(nexus@.uuid) == Some(
                NexusStateView { nexus: nexus@ },
            ),
            forall|k: Seq<char>| k != nexus@.uuid ==> #[trigger] final(self).registry.nexus_states.spec_get(k) == old(self).registry.nexus_states.spec_get(k),
    {
        self.registry.nexus_states.insert(NexusState { nexus });
    }

    /// Refresh the state cache with a pool a node reports.
    pub fn observe_pool(&mut self, pool: Pool)
        requires
            old(self).wf(),
        ensures
            final(self).wf(),
            final(self).deadline_ms == old(self).deadline_ms,
            final(self).store == old(self).store,
            final(self).registry == (Registry {
                pool_states: final(self).registry.pool_states,
                ..old(self).registry
            }),
            final(self).registry.pool_states.spec_get(pool@.id) == Some(pool@),
            forall|k: Seq<char>| k != pool@.id ==> #[trigger] final(self).registry.pool_states.spec_get(k) == old(self).registry.pool_states.spec_get(k),
    {
        self.registry.pool_states.insert(pool);
    }

    /// Refresh the state cache with a replica a node reports.
    pub fn observe_replica(&mut self, replica: Replica)
        requires
            old(self).wf(),
        ensures
            final(self).wf(),
            final(self).deadline_ms == old(self).deadline_ms,
            final(self).store == old(self).store,
            final(self).registry == (Registry {
                replica_states: final(self).registry.replica_states,
                ..old(self).registry
            }),
            final(self).registry.replica_states.spec_get(replica@.uuid) == Some(replica@),
            forall|k: Seq<char>| k != replica@.uuid ==> #[trigger] final(self).registry.replica_states.spec_get(k) == old(self).registry.replica_states.spec_get(
                k,
            ),
    {
        self.registry.replica_states.insert(replica);
    }

    /// Both projections of one nexus: its desired configuration and,
    /// when one has been observed, its current runtime status.
    pub fn get_nexus(&self, uuid: &crate::transport::NexusId) -> (r: Option<crate::nexus::Nexus>)
        requires
            self.wf(),
        ensures
            r is Some <==> self.registry.nexus_specs.has_key(uuid@),
            r matches Some(n) ==> n.spec@ == self.registry.nexus_specs.spec_get(uuid@)->Some_0
                && n.status == (match self.registry.nexus_states.spec_get(uuid@) {
                Some(st) => Some(st.nexus.status),
                None => None,
            }),
    {
        let nexus_spec = match self.registry.nexus_specs.get_cloned(uuid) {
            Some(s) => s,
            None => {
                return None;
            },
        };
        let status = match self.registry.nexus_states.get(uuid) {
            Some(st) => Some(st.nexus.status),
            None => None,
        };
        Some(crate::nexus::Nexus { status, spec: nexus_spec })
    }

    /// Owned snapshots of the observed nexuses the filter selects.
    pub fn get_nexuses(&self, filter: &Filter) -> (r: Vec<crate::transport::Nexus>)
        ensures
            r@.map_values(|n: crate::transport::Nexus| n@) == self.registry.nexus_states.entries@
                .map_values(|x: NexusState| x@).filter(crate::registry::nexus_selected(filter@))
                .map_values(crate::registry::nexus_projection()),
    {
        self.registry.get_nexuses(filter)
    }

    /// Owned snapshots of the nodes the filter selects.
    pub fn get_nodes(&self, filter: &Filter) -> (r: Vec<Node>)
        ensures
            r@.map_values(|n: Node| n@) == self.registry.nodes.entries@.map_values(
                |e: NodeEntry| e@,
            ).filter(crate::registry::node_selected(filter@)).map_values(
                crate::registry::node_projection(),
            ),
    {
        self.registry.get_nodes(filter)
    }

    /// Whether some desired replica lives on the pool.
    pub fn pool_in_use(&self, id: &crate::transport::PoolId) -> (r: bool)
        ensures
            r == exists|i: int|
                0 <= i < self.registry.replica_specs.entries@.len() && (#[trigger] self.registry
                    .replica_specs.entries@[i]@).pool == id@,
    {
        let mut i: usize = 0;
        while i < self.registry.replica_specs.entries.len()
            invariant
                i <= self.registry.replica_specs.entries@.len(),
                forall|j: int| 0 <= j < i ==> (#[trigger] self.registry.replica_specs.entries@[j]@)
                    .pool != id@,
            decreases self.registry.replica_specs.entries@.len() - i,
        {
            if self.registry.replica_specs.entries[i].pool == *id {
                proof {
                    assert((self.registry.replica_specs.entries@[i as int]@).pool == id@);
                }
                return true;
            }
            i = i + 1;
        }
        false
    }

    /// Whether some desired nexus that is not tombstoned holds the
    /// replica as a child: such a membership persists.
    pub fn replica_owned_by_nexus(&self, uuid: &crate::transport::ReplicaId) -> (r: bool)
        ensures
            r == exists|i: int|
                0 <= i < self.registry.nexus_specs.entries@.len() && nexus_holds_replica(
                    #[trigger] self.registry.nexus_specs.entries@[i]@,
                    uuid@,
                ),
    {
        let mut i: usize = 0;
        while i < self.registry.nexus_specs.entries.len()
            invariant
                i <= self.registry.nexus_specs.entries@.len(),
                forall|j: int| 0 <= j < i ==> !nexus_holds_replica(
                    #[trigger] self.registry.nexus_specs.entries@[j]@,
                    uuid@,
                ),
            decreases self.registry.nexus_specs.entries@.len() - i,
        {
            let entry = &self.registry.nexus_specs.entries[i];
            if !matches!(entry.spec_status, SpecStatus::Deleted) && entry.contains_replica(uuid) {
                return true;
            }
            i = i + 1;
        }
        false
    }

    /// Create a pool.
    ///
    /// A valid request on a known node and a fresh identifier records a
    /// `Creating` spec with a pending `Create` operation, persists it,
    /// and commits or rolls back on the data-plane outcome, exactly as
    /// a nexus creation does.
    pub fn create_pool(
        &mut self,
        request: &CreatePool,
        outcome: &Result<Pool, ReplyError>,
    ) -> (r: Result<Pool, ReplyError>)
        requires
            old(self).wf(),
        ensures
            final(self).wf(),
            pool_tables_framed(*final(self), *old(self)),
            request@.id.len() == 0 ==> (r matches Err(e) && e.kind
                == ReplyErrorKind::MissingArgument && *final(self) == *old(self)),
            request@.id.len() > 0 && !old(self).registry.nodes.has_key(request@.node) ==> (r
                matches Err(e) && e.kind == ReplyErrorKind::NotFound && e.resource
                == ResourceKind::Node && *final(self) == *old(self)),
            request@.id.len() > 0 && old(self).registry.nodes.has_key(request@.node) && old(self).registry.pool_specs.has_key(request@.id) ==> (r matches Err(e) && e.kind
                == ReplyErrorKind::AlreadyExists && *final(self) == *old(self)),
            request@.id.len() > 0 && old(self).registry.nodes.has_key(request@.node) && !old(self).registry.pool_specs.has_key(request@.id) ==> {
                let pending = PoolSpecView::from_request(request@).started(PoolOperation::Create);
                let created = (PoolSpecView {
                    spec_status: SpecStatus::Created(PoolStatus::Online),
                    ..PoolSpecView::from_request(request@)
                });
                let rolled = PoolSpecView::from_request(request@);
                &&& pool_records_framed_except(*final(self), *old(self), request@.id)
                &&& (!old(self).store.writable() ==> (r matches Err(e) && (e.kind
                    == ReplyErrorKind::Aborted || e.kind == ReplyErrorKind::Unavailable)
                    && final(self).registry.pool_specs.spec_get(request@.id) == Some(pending)
                    && final(self).store == old(self).store && final(self).registry.pool_states
                    == old(self).registry.pool_states))
                &&& (old(self).store.writable() ==> {
                    &&& (outcome matches Ok(p) ==> (r matches Ok(rp) && rp@ == p@ && final(self).registry.pool_specs.spec_get(request@.id) == Some(created) && final(self).store.pool_specs.spec_get(request@.id) == Some(created) && final(self).registry.pool_states.spec_get(p@.id) == Some(p@)))
                    &&& (outcome matches Err(e) ==> (r matches Err(re) && re.kind == e.kind
                        && re.resource == e.resource && final(self).registry.pool_specs.spec_get(request@.id) == Some(rolled) && final(self).store.pool_specs.spec_get(request@.id) == Some(rolled) && final(self).registry.pool_states == old(self).registry.pool_states))
                })
            },
    {
        if request.id.as_str().is_empty() {
            return Err(ReplyError::missing_argument(ResourceKind::Pool, "id"));
        }
        match self.registry.nodes.find_index(&request.node) {
            Some(_) => {
                proof {
                    assert(old(self).registry.nodes.has_key(request@.node));
                }
            },
            None => {
                return Err(
                    ReplyError::new(
                        ReplyErrorKind::NotFound,
                        ResourceKind::Node,
                        String::from_str("node is not registered"),
                    ),
                );
            },
        }
        match self.registry.pool_specs.find_index(&request.id) {
            Some(_) => {
                proof {
                    assert(old(self).registry.pool_specs.has_key(request@.id));
                }
                return Err(
                    ReplyError::new(
                        ReplyErrorKind::AlreadyExists,
                        ResourceKind::Pool,
                        String::from_str("pool already exists"),
                    ),
                );
            },
            None => {},
        }
        let mut pool_spec = PoolSpec::from_request(request);
        match pool_spec.start_op(PoolOperation::Create) {
            Ok(()) => {},
            Err(e) => {
                return Err(e);
            },
        }
        self.registry.pool_specs.insert(pool_spec.clone());
        match self.store.put_pool_spec(&pool_spec) {
            Ok(()) => {},
            Err(e) => {
                return Err(e);
            },
        }
        match outcome {
            Ok(pool) => {
                pool_spec.set_op_result(true);
                pool_spec.commit_op();
                proof {
                    assert(pool_spec@ =~= (PoolSpecView {
                        spec_status: SpecStatus::Created(PoolStatus::Online),
                        ..PoolSpecView::from_request(request@)
                    }));
                }
                self.registry.pool_specs.insert(pool_spec.clone());
                match self.store.put_pool_spec(&pool_spec) {
                    Ok(()) => {},
                    Err(e) => {
                        return Err(e);
                    },
                }
                self.registry.pool_states.insert(pool.clone());
                Ok(pool.clone())
            },
            Err(e) => {
                pool_spec.set_op_result(false);
                pool_spec.commit_op();
                proof {
                    assert(pool_spec@ =~= PoolSpecView::from_request(request@));
                }
                self.registry.pool_specs.insert(pool_spec.clone());
                let _ = self.store.put_pool_spec(&pool_spec);
                Err(e.clone())
            },
        }
    }

    /// Destroy a pool.
    ///
    /// The pool must exist, have no operation in flight, and hold no
    /// desired replica.  On success the spec is tombstoned `Deleted`
    /// and the observed state entry is dropped.
    pub fn destroy_pool(
        &mut self,
        request: &DestroyPool,
        outcome: &Result<(), ReplyError>,
    ) -> (r: Result<(), ReplyError>)
        requires
            old(self).wf(),
        ensures
            final(self).wf(),
            pool_tables_framed(*final(self), *old(self)),
            !old(self).registry.pool_specs.has_key(request@.id) ==> (r matches Err(e) && e.kind
                == ReplyErrorKind::NotFound && *final(self) == *old(self)),
            old(self).registry.pool_specs.has_key(request@.id) && (exists|i: int|
                0 <= i < old(self).registry.replica_specs.entries@.len() && (#[trigger] old(self).registry.replica_specs.entries@[i]@).pool == request@.id) ==> (r matches Err(e)
                && e.kind == ReplyErrorKind::PreconditionFailed && *final(self) == *old(self)),
            old(self).registry.pool_specs.has_key(request@.id) && !(exists|i: int|
                0 <= i < old(self).registry.replica_specs.entries@.len() && (#[trigger] old(self).registry.replica_specs.entries@[i]@).pool == request@.id) ==> {
                let prior = old(self).registry.pool_specs.spec_get(request@.id)->Some_0;
                &&& (prior.operation is Some ==> (r matches Err(e) && e.kind
                    == ReplyErrorKind::Conflict && *final(self) == *old(self)))
                &&& (prior.operation is None ==> {
                    let pending = prior.started(PoolOperation::Destroy);
                    let done = (PoolSpecView { spec_status: SpecStatus::Deleted, ..prior });
                    &&& pool_records_framed_except(*final(self), *old(self), request@.id)
                    &&& (!old(self).store.writable() ==> (r matches Err(e) && (e.kind
                        == ReplyErrorKind::Aborted || e.kind == ReplyErrorKind::Unavailable)
                        && final(self).registry.pool_specs.spec_get(request@.id) == Some(pending)
                        && final(self).store == old(self).store && final(self).registry.pool_states == old(self).registry.pool_states))
                    &&& (old(self).store.writable() ==> {
                        &&& (outcome is Ok ==> (r is Ok && final(self).registry.pool_specs.spec_get(request@.id) == Some(done) && final(self).store.pool_specs.spec_get(request@.id) == Some(done) && !final(self).registry.pool_states.has_key(request@.id)))
                        &&& (outcome matches Err(e) ==> (r matches Err(re) && re.kind == e.kind
                            && re.resource == e.resource && final(self).registry.pool_specs.spec_get(request@.id) == Some(prior) && final(self).store.pool_specs.spec_get(request@.id) == Some(prior) && final(self).registry.pool_states == old(self).registry.pool_states))
                    })
                })
            },
    {
        let mut pool_spec = match self.registry.pool_specs.get_cloned(&request.id) {
            Some(s) => s,
            None => {
                return Err(
                    ReplyError::new(
                        ReplyErrorKind::NotFound,
                        ResourceKind::Pool,
                        String::from_str("pool does not exist"),
                    ),
                );
            },
        };
        if self.pool_in_use(&request.id) {
            return Err(
                ReplyError::new(
                    ReplyErrorKind::PreconditionFailed,
                    ResourceKind::Pool,
                    String::from_str("pool still hosts replicas"),
                ),
            );
        }
        match pool_spec.start_op(PoolOperation::Destroy) {
            Ok(()) => {},
            Err(e) => {
                return Err(e);
            },
        }
        self.registry.pool_specs.insert(pool_spec.clone());
        match self.store.put_pool_spec(&pool_spec) {
            Ok(()) => {},
            Err(e) => {
                return Err(e);
            },
        }
        match outcome {
            Ok(()) => {
                pool_spec.set_op_result(true);
                pool_spec.commit_op();
                proof {
                    let prior = old(self).registry.pool_specs.spec_get(request@.id)->Some_0;
                    assert(pool_spec@ =~= (PoolSpecView {
                        spec_status: SpecStatus::Deleted,
                        ..prior
                    }));
                }
                self.registry.pool_specs.insert(pool_spec.clone());
                match self.store.put_pool_spec(&pool_spec) {
                    Ok(()) => {},
                    Err(e) => {
                        return Err(e);
                    },
                }
                let _ = self.registry.pool_states.remove_key(&request.id);
                Ok(())
            },
            Err(e) => {
                pool_spec.set_op_result(false);
                pool_spec.commit_op();
                proof {
                    let prior = old(self).registry.pool_specs.spec_get(request@.id)->Some_0;
                    assert(pool_spec@ =~= prior);
                }
                self.registry.pool_specs.insert(pool_spec.clone());
                let _ = self.store.put_pool_spec(&pool_spec);
                Err(e.clone())
            },
        }
    }

    /// Owned snapshots of the observed pools the filter selects.
    pub fn get_pools(&self, filter: &Filter) -> (r: Vec<Pool>)
        ensures
            r@.map_values(|p: Pool| p@) == self.registry.pool_states.entries@.map_values(
                |p: Pool| p@,
            ).filter(crate::registry::pool_selected(filter@)),
    {
        self.registry.get_pools(filter)
    }

    /// Create a replica.
    ///
    /// A valid request on a known node and an existing pool with a
    /// fresh identifier follows the same pending-persist-commit path as
    /// every other creation.
    pub fn create_replica(
        &mut self,
        request: &CreateReplica,
        outcome: &Result<Replica, ReplyError>,
    ) -> (r: Result<Replica, ReplyError>)
        requires
            old(self).wf(),
        ensures
            final(self).wf(),
            replica_tables_framed(*final(self), *old(self)),
            request@.uuid.len() == 0 ==> (r matches Err(e) && e.kind
                == ReplyErrorKind::MissingArgument && *final(self) == *old(self)),
            request@.uuid.len() > 0 && !old(self).registry.nodes.has_key(request@.node) ==> (r
                matches Err(e) && e.kind == ReplyErrorKind::NotFound && e.resource
                == ResourceKind::Node && *final(self) == *old(self)),
            request@.uuid.len() > 0 && old(self).registry.nodes.has_key(request@.node) && !old(self).registry.pool_specs.has_key(request@.pool) ==> (r matches Err(e) && e.kind
                == ReplyErrorKind::NotFound && e.resource == ResourceKind::Pool && *final(self)
                == *old(self)),
            request@.uuid.len() > 0 && old(self).registry.nodes.has_key(request@.node) && old(self).registry.pool_specs.has_key(request@.pool) && old(self).registry.replica_specs.has_key(request@.uuid) ==> (r matches Err(e) && e.kind
                == ReplyErrorKind::AlreadyExists && *final(self) == *old(self)),
            request@.uuid.len() > 0 && old(self).registry.nodes.has_key(request@.node) && old(self).registry.pool_specs.has_key(request@.pool) && !old(self).registry.replica_specs.has_key(request@.uuid) ==> {
                let pending = ReplicaSpecView::from_request(request@).started(
                    ReplicaOperation::Create,
                );
                let created = (ReplicaSpecView {
                    spec_status: SpecStatus::Created(ReplicaStatus::Online),
                    ..ReplicaSpecView::from_request(request@)
                });
                let rolled = ReplicaSpecView::from_request(request@);
                &&& replica_records_framed_except(*final(self), *old(self), request@.uuid)
                &&& (!old(self).store.writable() ==> (r matches Err(e) && (e.kind
                    == ReplyErrorKind::Aborted || e.kind == ReplyErrorKind::Unavailable)
                    && final(self).registry.replica_specs.spec_get(request@.uuid) == Some(pending)
                    && final(self).store == old(self).store && final(self).registry.replica_states == old(self).registry.replica_states))
                &&& (old(self).store.writable() ==> {
                    &&& (outcome matches Ok(rep) ==> (r matches Ok(rr) && rr@ == rep@ && final(self).registry.replica_specs.spec_get(request@.uuid) == Some(created) && final(self).store.replica_specs.spec_get(request@.uuid) == Some(created) && final(self).registry.replica_states.spec_get(rep@.uuid) == Some(rep@)))
                    &&& (outcome matches Err(e) ==> (r matches Err(re) && re.kind == e.kind
                        && re.resource == e.resource && final(self).registry.replica_specs.spec_get(request@.uuid) == Some(rolled) && final(self).store.replica_specs.spec_get(request@.uuid) == Some(rolled) && final(self).registry.replica_states == old(self).registry.replica_states))
                })
            },
    {
        if request.uuid.as_str().is_empty() {
            return Err(ReplyError::missing_argument(ResourceKind::Replica, "uuid"));
        }
        match self.registry.nodes.find_index(&request.node) {
            Some(_) => {
                proof {
                    assert(old(self).registry.nodes.has_key(request@.node));
                }
            },
            None => {
                return Err(
                    ReplyError::new(
                        ReplyErrorKind::NotFound,
                        ResourceKind::Node,
                        String::from_str("node is not registered"),
                    ),
                );
            },
        }
        match self.registry.pool_specs.find_index(&request.pool) {
            Some(_) => {
                proof {
                    assert(old(self).registry.pool_specs.has_key(request@.pool));
                }
            },
            None => {
                return Err(
                    ReplyError::new(
                        ReplyErrorKind::NotFound,
                        ResourceKind::Pool,
                        String::from_str("pool does not exist"),
                    ),
                );
            },
        }
        match self.registry.replica_specs.find_index(&request.uuid) {
            Some(_) => {
                proof {
                    assert(old(self).registry.replica_specs.has_key(request@.uuid));
                }
                return Err(
                    ReplyError::new(
                        ReplyErrorKind::AlreadyExists,
                        ResourceKind::Replica,
                        String::from_str("replica already exists"),
                    ),
                );
            },
            None => {},
        }
        let mut replica_spec = ReplicaSpec::from_request(request);
        match replica_spec.start_op(ReplicaOperation::Create) {
            Ok(()) => {},
            Err(e) => {
                return Err(e);
            },
        }
        self.registry.replica_specs.insert(replica_spec.clone());
        match self.store.put_replica_spec(&replica_spec) {
            Ok(()) => {},
            Err(e) => {
                return Err(e);
            },
        }
        match outcome {
            Ok(rep) => {
                replica_spec.set_op_result(true);
                replica_spec.commit_op();
                proof {
                    assert(replica_spec@ =~= (ReplicaSpecView {
                        spec_status: SpecStatus::Created(ReplicaStatus::Online),
                        ..ReplicaSpecView::from_request(request@)
                    }));
                }
                self.registry.replica_specs.insert(replica_spec.clone());
                match self.store.put_replica_spec(&replica_spec) {
                    Ok(()) => {},
                    Err(e) => {
                        return Err(e);
                    },
                }
                self.registry.replica_states.insert(rep.clone());
                Ok(rep.clone())
            },
            Err(e) => {
                replica_spec.set_op_result(false);
                replica_spec.commit_op();
                proof {
                    assert(replica_spec@ =~= ReplicaSpecView::from_request(request@));
                }
                self.registry.replica_specs.insert(replica_spec.clone());
                let _ = self.store.put_replica_spec(&replica_spec);
                Err(e.clone())
            },
        }
    }

    /// Destroy a replica.
    ///
    /// The replica must exist, have no operation in flight, and not be
    /// a child of any desired nexus: a replica owned by a nexus cannot
    /// be destroyed while the membership persists.
    pub fn destroy_replica(
        &mut self,
        uuid: &crate::transport::ReplicaId,
        outcome: &Result<(), ReplyError>,
    ) -> (r: Result<(), ReplyError>)
        requires
            old(self).wf(),
        ensures
            final(self).wf(),
            replica_tables_framed(*final(self), *old(self)),
            !old(self).registry.replica_specs.has_key(uuid@) ==> (r matches Err(e) && e.kind
                == ReplyErrorKind::NotFound && *final(self) == *old(self)),
            old(self).registry.replica_specs.has_key(uuid@) && (exists|i: int|
                0 <= i < old(self).registry.nexus_specs.entries@.len() && nexus_holds_replica(
                    #[trigger] old(self).registry.nexus_specs.entries@[i]@,
                    uuid@,
                )) ==> (r matches Err(e) && e.kind == ReplyErrorKind::PreconditionFailed && *final(self) == *old(self)),
            old(self).registry.replica_specs.has_key(uuid@) && !(exists|i: int|
                0 <= i < old(self).registry.nexus_specs.entries@.len() && nexus_holds_replica(
                    #[trigger] old(self).registry.nexus_specs.entries@[i]@,
                    uuid@,
                )) ==> {
                let prior = old(self).registry.replica_specs.spec_get(uuid@)->Some_0;
                &&& (prior.operation is Some ==> (r matches Err(e) && e.kind
                    == ReplyErrorKind::Conflict && *final(self) == *old(self)))
                &&& (prior.operation is None ==> {
                    let pending = prior.started(ReplicaOperation::Destroy);
                    let done = (ReplicaSpecView { spec_status: SpecStatus::Deleted, ..prior });
                    &&& replica_records_framed_except(*final(self), *old(self), uuid@)
                    &&& (!old(self).store.writable() ==> (r matches Err(e) && (e.kind
                        == ReplyErrorKind::Aborted || e.kind == ReplyErrorKind::Unavailable)
                        && final(self).registry.replica_specs.spec_get(uuid@) == Some(pending)
                        && final(self).store == old(self).store && final(self).registry.replica_states == old(self).registry.replica_states))
                    &&& (old(self).store.writable() ==> {
                        &&& (outcome is Ok ==> (r is Ok && final(self).registry.replica_specs.spec_get(uuid@) == Some(done) && final(self).store.replica_specs.spec_get(uuid@) == Some(done) && !final(self).registry.replica_states.has_key(uuid@)))
                        &&& (outcome matches Err(e) ==> (r matches Err(re) && re.kind == e.kind
                            && re.resource == e.resource && final(self).registry.replica_specs.spec_get(uuid@) == Some(prior) && final(self).store.replica_specs.spec_get(uuid@) == Some(prior) && final(self).registry.replica_states == old(self).registry.replica_states))
                    })
                })
            },
    {
        let mut replica_spec = match self.registry.replica_specs.get_cloned(uuid) {
            Some(s) => s,
            None => {
                return Err(
                    ReplyError::new(
                        ReplyErrorKind::NotFound,
                        ResourceKind::Replica,
                        String::from_str("replica does not exist"),
                    ),
                );
            },
        };
        if self.replica_owned_by_nexus(uuid) {
            return Err(
                ReplyError::new(
                    ReplyErrorKind::PreconditionFailed,
                    ResourceKind::Replica,
                    String::from_str("replica is still a nexus child"),
                ),
            );
        }
        match replica_spec.start_op(ReplicaOperation::Destroy) {
            Ok(()) => {},
            Err(e) => {
                return Err(e);
            },
        }
        self.registry.replica_specs.insert(replica_spec.clone());
        match self.store.put_replica_spec(&replica_spec) {
            Ok(()) => {},
            Err(e) => {
                return Err(e);
            },
        }
        match outcome {
            Ok(()) => {
                replica_spec.set_op_result(true);
                replica_spec.commit_op();
                proof {
                    let prior = old(self).registry.replica_specs.spec_get(uuid@)->Some_0;
                    assert(replica_spec@ =~= (ReplicaSpecView {
                        spec_status: SpecStatus::Deleted,
                        ..prior
                    }));
                }
                self.registry.replica_specs.insert(replica_spec.clone());
                match self.store.put_replica_spec(&replica_spec) {
                    Ok(()) => {},
                    Err(e) => {
                        return Err(e);
                    },
                }
                let _ = self.registry.replica_states.remove_key(uuid);
                Ok(())
            },
            Err(e) => {
                replica_spec.set_op_result(false);
                replica_spec.commit_op();
                proof {
                    let prior = old(self).registry.replica_specs.spec_get(uuid@)->Some_0;
                    assert(replica_spec@ =~= prior);
                }
                self.registry.replica_specs.insert(replica_spec.clone());
                let _ = self.store.put_replica_spec(&replica_spec);
                Err(e.clone())
            },
        }
    }

    /// Share a replica over the given protocol.
    ///
    /// The replica must exist, have no operation in flight, and not be
    /// shared; the protocol must name an actual protocol.  On success
    /// the caller receives the URI the data plane returned.
    pub fn share_replica(
        &mut self,
        uuid: &crate::transport::ReplicaId,
        protocol: Protocol,
        outcome: &Result<String, ReplyError>,
    ) -> (r: Result<String, ReplyError>)
        requires
            old(self).wf(),
        ensures
            final(self).wf(),
            replica_tables_framed(*final(self), *old(self)),
            final(self).registry.replica_states == old(self).registry.replica_states,
            protocol == Protocol::Off ==> (r matches Err(e) && e.kind
                == ReplyErrorKind::InvalidArgument && *final(self) == *old(self)),
            protocol != Protocol::Off && !old(self).registry.replica_specs.has_key(uuid@) ==> (r
                matches Err(e) && e.kind == ReplyErrorKind::NotFound && *final(self) == *old(self)),
            protocol != Protocol::Off && old(self).registry.replica_specs.has_key(uuid@) ==> {
                let prior = old(self).registry.replica_specs.spec_get(uuid@)->Some_0;
                &&& (prior.operation is Some ==> (r matches Err(e) && e.kind
                    == ReplyErrorKind::Conflict && *final(self) == *old(self)))
                &&& (prior.operation is None && prior.share != Protocol::Off ==> (r matches Err(e)
                    && e.kind == ReplyErrorKind::PreconditionFailed && *final(self) == *old(self)))
                &&& (prior.operation is None && prior.share == Protocol::Off ==> {
                    let pending = prior.started(ReplicaOperation::Share(protocol));
                    let done = (ReplicaSpecView { share: protocol, ..prior });
                    &&& replica_records_framed_except(*final(self), *old(self), uuid@)
                    &&& (!old(self).store.writable() ==> (r matches Err(e) && (e.kind
                        == ReplyErrorKind::Aborted || e.kind == ReplyErrorKind::Unavailable)
                        && final(self).registry.replica_specs.spec_get(uuid@) == Some(pending)
                        && final(self).store == old(self).store))
                    &&& (old(self).store.writable() ==> {
                        &&& (outcome matches Ok(v) ==> (r matches Ok(rv) && rv@ == v@ && final(self).registry.replica_specs.spec_get(uuid@) == Some(done) && final(self).store.replica_specs.spec_get(uuid@) == Some(done)))
                        &&& (outcome matches Err(e) ==> (r matches Err(re) && re.kind == e.kind
                            && re.resource == e.resource && final(self).registry.replica_specs.spec_get(uuid@) == Some(prior) && final(self).store.replica_specs.spec_get(uuid@) == Some(prior)))
                    })
                })
            },
    {
        if matches!(protocol, Protocol::Off) {
            return Err(
                ReplyError::new(
                    ReplyErrorKind::InvalidArgument,
                    ResourceKind::Replica,
                    String::from_str("a share protocol is required"),
                ),
            );
        }
        let mut replica_spec = match self.registry.replica_specs.get_cloned(uuid) {
            Some(s) => s,
            None => {
                return Err(
                    ReplyError::new(
                        ReplyErrorKind::NotFound,
                        ResourceKind::Replica,
                        String::from_str("replica does not exist"),
                    ),
                );
            },
        };
        if replica_spec.pending_op() {
            return Err(ReplyError::op_in_progress(ResourceKind::Replica));
        }
        if !matches!(replica_spec.share, Protocol::Off) {
            return Err(
                ReplyError::new(
                    ReplyErrorKind::PreconditionFailed,
                    ResourceKind::Replica,
                    String::from_str("replica is already shared"),
                ),
            );
        }
        match replica_spec.start_op(ReplicaOperation::Share(protocol)) {
            Ok(()) => {},
            Err(e) => {
                return Err(e);
            },
        }
        self.registry.replica_specs.insert(replica_spec.clone());
        match self.store.put_replica_spec(&replica_spec) {
            Ok(()) => {},
            Err(e) => {
                return Err(e);
            },
        }
        match outcome {
            Ok(uri) => {
                replica_spec.set_op_result(true);
                replica_spec.commit_op();
                proof {
                    let prior = old(self).registry.replica_specs.spec_get(uuid@)->Some_0;
                    assert(replica_spec@ =~= (ReplicaSpecView { share: protocol, ..prior }));
                }
                self.registry.replica_specs.insert(replica_spec.clone());
                match self.store.put_replica_spec(&replica_spec) {
                    Ok(()) => {},
                    Err(e) => {
                        return Err(e);
                    },
                }
                Ok(uri.clone())
            },
            Err(e) => {
                replica_spec.set_op_result(false);
                replica_spec.commit_op();
                proof {
                    let prior = old(self).registry.replica_specs.spec_get(uuid@)->Some_0;
                    assert(replica_spec@ =~= prior);
                }
                self.registry.replica_specs.insert(replica_spec.clone());
                let _ = self.store.put_replica_spec(&replica_spec);
                Err(e.clone())
            },
        }
    }

    /// Stop sharing a replica.
    ///
    /// The replica must exist, have no operation in flight, and be
    /// shared.
    pub fn unshare_replica(
        &mut self,
        uuid: &crate::transport::ReplicaId,
        outcome: &Result<(), ReplyError>,
    ) -> (r: Result<(), ReplyError>)
        requires
            old(self).wf(),
        ensures
            final(self).wf(),
            replica_tables_framed(*final(self), *old(self)),
            final(self).registry.replica_states == old(self).registry.replica_states,
            !old(self).registry.replica_specs.has_key(uuid@) ==> (r matches Err(e) && e.kind
                == ReplyErrorKind::NotFound && *final(self) == *old(self)),
            old(self).registry.replica_specs.has_key(uuid@) ==> {
                let prior = old(self).registry.replica_specs.spec_get(uuid@)->Some_0;
                &&& (prior.operation is Some ==> (r matches Err(e) && e.kind
                    == ReplyErrorKind::Conflict && *final(self) == *old(self)))
                &&& (prior.operation is None && prior.share == Protocol::Off ==> (r matches Err(e)
                    && e.kind == ReplyErrorKind::PreconditionFailed && *final(self) == *old(self)))
                &&& (prior.operation is None && prior.share != Protocol::Off ==> {
                    let pending = prior.started(ReplicaOperation::Unshare);
                    let done = (ReplicaSpecView { share: Protocol::Off, ..prior });
                    &&& replica_records_framed_except(*final(self), *old(self), uuid@)
                    &&& (!old(self).store.writable() ==> (r matches Err(e) && (e.kind
                        == ReplyErrorKind::Aborted || e.kind == ReplyErrorKind::Unavailable)
                        && final(self).registry.replica_specs.spec_get(uuid@) == Some(pending)
                        && final(self).store == old(self).store))
                    &&& (old(self).store.writable() ==> {
                        &&& (outcome is Ok ==> (r is Ok && final(self).registry.replica_specs.spec_get(uuid@) == Some(done) && final(self).store.replica_specs.spec_get(uuid@) == Some(done)))
                        &&& (outcome matches Err(e) ==> (r matches Err(re) && re.kind == e.kind
                            && re.resource == e.resource && final(self).registry.replica_specs.spec_get(uuid@) == Some(prior) && final(self).store.replica_specs.spec_get(uuid@) == Some(prior)))
                    })
                })
            },
    {
        let mut replica_spec = match self.registry.replica_specs.get_cloned(uuid) {
            Some(s) => s,
            None => {
                return Err(
                    ReplyError::new(
                        ReplyErrorKind::NotFound,
                        ResourceKind::Replica,
                        String::from_str("replica does not exist"),
                    ),
                );
            },
        };
        if replica_spec.pending_op() {
            return Err(ReplyError::op_in_progress(ResourceKind::Replica));
        }
        if matches!(replica_spec.share, Protocol::Off) {
            return Err(
                ReplyError::new(
                    ReplyErrorKind::PreconditionFailed,
                    ResourceKind::Replica,
                    String::from_str("replica is not shared"),
                ),
            );
        }
        match replica_spec.start_op(ReplicaOperation::Unshare) {
            Ok(()) => {},
            Err(e) => {
                return Err(e);
            },
        }
        self.registry.replica_specs.insert(replica_spec.clone());
        match self.store.put_replica_spec(&replica_spec) {
            Ok(()) => {},
            Err(e) => {
                return Err(e);
            },
        }
        match outcome {
            Ok(()) => {
                replica_spec.set_op_result(true);
                replica_spec.commit_op();
                proof {
                    let prior = old(self).registry.replica_specs.spec_get(uuid@)->Some_0;
                    assert(replica_spec@ =~= (ReplicaSpecView {
                        share: Protocol::Off,
                        ..prior
                    }));
                }
                self.registry.replica_specs.insert(replica_spec.clone());
                match self.store.put_replica_spec(&replica_spec) {
                    Ok(()) => {},
                    Err(e) => {
                        return Err(e);
                    },
                }
                Ok(())
            },
            Err(e) => {
                replica_spec.set_op_result(false);
                replica_spec.commit_op();
                proof {
                    let prior = old(self).registry.replica_specs.spec_get(uuid@)->Some_0;
                    assert(replica_spec@ =~= prior);
                }
                self.registry.replica_specs.insert(replica_spec.clone());
                let _ = self.store.put_replica_spec(&replica_spec);
                Err(e.clone())
            },
        }
    }

    /// Owned snapshots of the observed replicas the filter selects.
    pub fn get_replicas(&self, filter: &Filter) -> (r: Vec<Replica>)
        ensures
            r@.map_values(|x: Replica| x@) == self.registry.replica_states.entries@.map_values(
                |x: Replica| x@,
            ).filter(crate::registry::replica_selected(filter@)),
    {
        self.registry.get_replicas(filter)
    }
}

} // verus!
