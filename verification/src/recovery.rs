//! Crash recovery: rehydrating the registry from the store, and
//! resolving the operation a crash left recorded on a spec.
//!
//! A new leader rebuilds its spec caches from the store.  State caches
//! start empty and are refilled from node polls; nodes are `Unknown`
//! until they register again.  A spec recovered with an operation
//! still recorded is re-driven: if the data plane already performed
//! the operation it is committed, otherwise it is rolled back — either
//! way the record is cleared and the result persisted.

use vstd::prelude::*;
use crate::errors::{ReplyError, ReplyErrorKind, ResourceKind};
use crate::nexus::NexusSpecView;
use crate::node::{NodeEntry, NodeEntryView};
use crate::pool::PoolSpecView;
use crate::registry::Registry;
use crate::replica::ReplicaSpecView;
use crate::service::{
    nexus_records_framed_except, nexus_tables_framed, pool_records_framed_except,
    pool_tables_framed, replica_records_framed_except, replica_tables_framed, Service,
};
use crate::store::Store;
use crate::table::{ResourceTable, Storable};
use crate::transport::{NexusId, NodeStatus, PoolId, ReplicaId};

verus! {

/// The spec a recovered pending pool operation resolves to.
pub open spec fn resolved_pool_spec(prior: PoolSpecView, performed: bool) -> PoolSpecView {
    match prior.operation {
        Some(st) => {
            let apply = st.result == Some(true) || (st.result is None && performed);
            if apply {
                prior.apply_op(st.operation).cleared()
            } else {
                prior.cleared()
            }
        },
        None => prior,
    }
}

/// The spec a recovered pending replica operation resolves to.
pub open spec fn resolved_replica_spec(prior: ReplicaSpecView, performed: bool) -> ReplicaSpecView {
    match prior.operation {
        Some(st) => {
            let apply = st.result == Some(true) || (st.result is None && performed);
            if apply {
                prior.apply_op(st.operation).cleared()
            } else {
                prior.cleared()
            }
        },
        None => prior,
    }
}

/// The spec a recovered pending operation resolves to: the recorded
/// outcome decides; with no recorded outcome, whether the data plane
/// shows the operation performed decides.
pub open spec fn resolved_nexus_spec(prior: NexusSpecView, performed: bool) -> NexusSpecView {
    match prior.operation {
        Some(st) => {
            let apply = st.result == Some(true) || (st.result is None && performed);
            if apply {
                prior.apply_op(st.operation).cleared()
            } else {
                prior.cleared()
            }
        },
        None => prior,
    }
}

impl Service {
    /// Rebuild a service from the store after a restart.
    ///
    /// Every spec cache reads exactly as the store's records; state
    /// caches are empty; every stored node is `Unknown` until it
    /// registers again.
    pub fn from_store(store: Store, deadline_ms: u64) -> (r: Service)
        requires
            store.wf(),
        ensures
            r.wf(),
            r.deadline_ms == deadline_ms,
            r.store == store,
            forall|k: Seq<char>| #[trigger] r.registry.nexus_specs.spec_get(k)
                == store.nexus_specs.spec_get(k),
            forall|k: Seq<char>| (#[trigger] r.registry.nexus_specs.has_key(k)
                <==> store.nexus_specs.has_key(k)),
            forall|k: Seq<char>| #[trigger] r.registry.pool_specs.spec_get(k)
                == store.pool_specs.spec_get(k),
            forall|k: Seq<char>| #[trigger] r.registry.replica_specs.spec_get(k)
                == store.replica_specs.spec_get(k),
            forall|k: Seq<char>| #[trigger] r.registry.volume_specs.spec_get(k)
                == store.volume_specs.spec_get(k),
            r.registry.nodes.entries@.len() == store.node_specs.entries@.len(),
            forall|i: int| 0 <= i < store.node_specs.entries@.len() ==> #[trigger] r.registry
                .nodes.entries@[i]@ == (NodeEntryView {
                spec: store.node_specs.entries@[i]@,
                status: NodeStatus::Unknown,
                last_seen: 0,
            }),
            r.registry.nexus_states.entries@.len() == 0,
            r.registry.pool_states.entries@.len() == 0,
            r.registry.replica_states.entries@.len() == 0,
    {
        let mut nodes: ResourceTable<NodeEntry> = ResourceTable { entries: Vec::new() };
        let mut i: usize = 0;
        while i < store.node_specs.entries.len()
            invariant
                i <= store.node_specs.entries@.len(),
                nodes.entries@.len() == i,
                forall|j: int| 0 <= j < i ==> #[trigger] nodes.entries@[j]@ == (NodeEntryView {
                    spec: store.node_specs.entries@[j]@,
                    status: NodeStatus::Unknown,
                    last_seen: 0,
                }),
            decreases store.node_specs.entries@.len() - i,
        {
            let entry = NodeEntry {
                spec: store.node_specs.entries[i].duplicate(),
                status: NodeStatus::Unknown,
                last_seen: 0,
            };
            nodes.entries.push(entry);
            i = i + 1;
        }
        proof {
            assert forall|a: int, b: int|
                0 <= a < b < nodes.entries@.len() implies NodeEntry::key_of(nodes.entries@[a]@)
                != NodeEntry::key_of(nodes.entries@[b]@) by {
                assert(NodeEntry::key_of(nodes.entries@[a]@) == crate::transport::NodeSpec::key_of(
                    store.node_specs.entries@[a]@,
                ));
                assert(NodeEntry::key_of(nodes.entries@[b]@) == crate::transport::NodeSpec::key_of(
                    store.node_specs.entries@[b]@,
                ));
            }
        }
        let registry = Registry {
            nodes,
            pool_specs: store.pool_specs.clone_table(),
            pool_states: ResourceTable::new(),
            replica_specs: store.replica_specs.clone_table(),
            replica_states: ResourceTable::new(),
            nexus_specs: store.nexus_specs.clone_table(),
            nexus_states: ResourceTable::new(),
            volume_specs: store.volume_specs.clone_table(),
        };
        Service { registry, store, deadline_ms }
    }

    /// Resolve the operation a crash left recorded on a nexus spec.
    ///
    /// `performed` reports what the data plane shows: whether the
    /// recorded operation's effect is already present.  A recorded
    /// outcome wins over `performed`.  The operation is committed or
    /// rolled back accordingly, the record is cleared, and the spec is
    /// persisted; a spec with nothing recorded is left as it is.
    pub fn resolve_pending_nexus(
        &mut self,
        uuid: &NexusId,
        performed: bool,
    ) -> (r: Result<(), ReplyError>)
        requires
            old(self).wf(),
        ensures
            final(self).wf(),
            nexus_tables_framed(*final(self), *old(self)),
            final(self).registry.nexus_states == old(self).registry.nexus_states,
            !old(self).registry.nexus_specs.has_key(uuid@) ==> (r matches Err(e) && e.kind
                == ReplyErrorKind::NotFound && *final(self) == *old(self)),
            old(self).registry.nexus_specs.has_key(uuid@) ==> {
                let prior = old(self).registry.nexus_specs.spec_get(uuid@)->Some_0;
                &&& (prior.operation is None ==> (r is Ok && *final(self) == *old(self)))
                &&& (prior.operation is Some ==> {
                    let done = resolved_nexus_spec(prior, performed);
                    &&& nexus_records_framed_except(*final(self), *old(self), uuid@)
                    &&& (r is Ok <==> old(self).store.writable())
                    &&& (r is Err ==> *final(self) == *old(self))
                    &&& (r matches Err(e) ==> e.kind == ReplyErrorKind::Aborted || e.kind
                        == ReplyErrorKind::Unavailable)
                    &&& (r is Ok ==> final(self).registry.nexus_specs.spec_get(uuid@) == Some(
                        done,
                    ) && final(self).store.nexus_specs.spec_get(uuid@) == Some(done))
                })
            },
    {
        let mut nexus_spec = match self.registry.nexus_specs.get_cloned(uuid) {
            Some(s) => s,
            None => {
                return Err(
                    ReplyError::new(
                        ReplyErrorKind::NotFound,
                        ResourceKind::Nexus,
                        String::from_str("nexus does not exist"),
                    ),
                );
            },
        };
        if !nexus_spec.pending_op() {
            return Ok(());
        }
        let has_result = match &nexus_spec.operation {
            Some(st) => st.result.is_some(),
            None => false,
        };
        if !has_result {
            nexus_spec.set_op_result(performed);
        }
        nexus_spec.commit_op();
        proof {
            let prior = old(self).registry.nexus_specs.spec_get(uuid@)->Some_0;
            assert(nexus_spec@ =~= resolved_nexus_spec(prior, performed));
        }
        match self.store.put_nexus_spec(&nexus_spec) {
            Ok(()) => {},
            Err(e) => {
                return Err(e);
            },
        }
        self.registry.nexus_specs.insert(nexus_spec);
        Ok(())
    }

    /// Resolve the operation a crash left recorded on a pool spec, as
    /// [`Self::resolve_pending_nexus`] does for a nexus.
    pub fn resolve_pending_pool(
        &mut self,
        id: &PoolId,
        performed: bool,
    ) -> (r: Result<(), ReplyError>)
        requires
            old(self).wf(),
        ensures
            final(self).wf(),
            pool_tables_framed(*final(self), *old(self)),
            final(self).registry.pool_states == old(self).registry.pool_states,
            !old(self).registry.pool_specs.has_key(id@) ==> (r matches Err(e) && e.kind
                == ReplyErrorKind::NotFound && *final(self) == *old(self)),
            old(self).registry.pool_specs.has_key(id@) ==> {
                let prior = old(self).registry.pool_specs.spec_get(id@)->Some_0;
                &&& (prior.operation is None ==> (r is Ok && *final(self) == *old(self)))
                &&& (prior.operation is Some ==> {
                    let done = resolved_pool_spec(prior, performed);
                    &&& pool_records_framed_except(*final(self), *old(self), id@)
                    &&& (r is Ok <==> old(self).store.writable())
                    &&& (r is Err ==> *final(self) == *old(self))
                    &&& (r matches Err(e) ==> e.kind == ReplyErrorKind::Aborted || e.kind
                        == ReplyErrorKind::Unavailable)
                    &&& (r is Ok ==> final(self).registry.pool_specs.spec_get(id@) == Some(done)
                        && final(self).store.pool_specs.spec_get(id@) == Some(done))
                })
            },
    {
        let mut pool_spec = match self.registry.pool_specs.get_cloned(id) {
            Some(s) => s,
            None => {
                return Err(
                    ReplyError::new(
                        ReplyErrorKind::NotFound,
                        ResourceKind::Pool,
                        String::from_str("pool does not exist"),
                    ),
                );
            },
        };
        if !pool_spec.pending_op() {
            return Ok(());
        }
        let has_result = match &pool_spec.operation {
            Some(st) => st.result.is_some(),
            None => false,
        };
        if !has_result {
            pool_spec.set_op_result(performed);
        }
        pool_spec.commit_op();
        proof {
            let prior = old(self).registry.pool_specs.spec_get(id@)->Some_0;
            assert(pool_spec@ =~= resolved_pool_spec(prior, performed));
        }
        match self.store.put_pool_spec(&pool_spec) {
            Ok(()) => {},
            Err(e) => {
                return Err(e);
            },
        }
        self.registry.pool_specs.insert(pool_spec);
        Ok(())
    }

    /// Resolve the operation a crash left recorded on a replica spec,
    /// as [`Self::resolve_pending_nexus`] does for a nexus.
    pub fn resolve_pending_replica(
        &mut self,
        uuid: &ReplicaId,
        performed: bool,
    ) -> (r: Result<(), ReplyError>)
        requires
            old(self).wf(),
        ensures
            final(self).wf(),
            replica_tables_framed(*final(self), *old(self)),
            final(self).registry.replica_states == old(self).registry.replica_states,
            !old(self).registry.replica_specs.has_key(uuid@) ==> (r matches Err(e) && e.kind
                == ReplyErrorKind::NotFound && *final(self) == *old(self)),
            old(self).registry.replica_specs.has_key(uuid@) ==> {
                let prior = old(self).registry.replica_specs.spec_get(uuid@)->Some_0;
                &&& (prior.operation is None ==> (r is Ok && *final(self) == *old(self)))
                &&& (prior.operation is Some ==> {
                    let done = resolved_replica_spec(prior, performed);
                    &&& replica_records_framed_except(*final(self), *old(self), uuid@)
                    &&& (r is Ok <==> old(self).store.writable())
                    &&& (r is Err ==> *final(self) == *old(self))
                    &&& (r matches Err(e) ==> e.kind == ReplyErrorKind::Aborted || e.kind
                        == ReplyErrorKind::Unavailable)
                    &&& (r is Ok ==> final(self).registry.replica_specs.spec_get(uuid@) == Some(
                        done,
                    ) && final(self).store.replica_specs.spec_get(uuid@) == Some(done))
                })
            },
    {
        let mut replica_spec = match self.registry.replica_specs.get_cloned(uuid) {
            Some(s) => s,
            None => {
                return Err(
                    ReplyError::new(
                        ReplyErrorKind::NotFound,
                        ResourceKind::Replica,
                        String::from_str("replica does not exist"),
                    ),
                );
            },
        };
        if !replica_spec.pending_op() {
            return Ok(());
        }
        let has_result = match &replica_spec.operation {
            Some(st) => st.result.is_some(),
            None => false,
        };
        if !has_result {
            replica_spec.set_op_result(performed);
        }
        replica_spec.commit_op();
        proof {
            let prior = old(self).registry.replica_specs.spec_get(uuid@)->Some_0;
            assert(replica_spec@ =~= resolved_replica_spec(prior, performed));
        }
        match self.store.put_replica_spec(&replica_spec) {
            Ok(()) => {},
            Err(e) => {
                return Err(e);
            },
        }
        self.registry.replica_specs.insert(replica_spec);
        Ok(())
    }
}

} // verus!
