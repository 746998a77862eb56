//! The reconciler's decision logic: compare every spec with its
//! observed state and decide the next compensating step.
//!
//! The decisions are pure; carrying a step out means calling the same
//! service operations a client would, with the data-plane outcome in
//! hand.  One pass walks the kinds in a fixed order — pools, replicas,
//! nexuses — and skips nothing: a resource with nothing to do yields
//! `Idle`.

use vstd::prelude::*;
use crate::errors::{ReplyError, ReplyErrorKind, ResourceKind};
use crate::nexus::{NexusSpec, NexusSpecView, NexusState, NexusStateView};
use crate::pool::{PoolSpec, PoolSpecView};
use crate::replica::{ReplicaSpec, ReplicaSpecView};
use crate::registry::Registry;
use crate::service::{nexus_tables_framed, pool_tables_framed, replica_tables_framed, Service};
use crate::store::SpecStatus;
use crate::transport::{
    Child, ChildState, ChildUri, ChildView, NexusId, NexusStatus, NexusView, NodeStatus, PoolId,
    ReplicaId,
};

verus! {

/// The next compensating step for one resource.
#[derive(Debug)]
pub enum ReconcileAction {
    /// Spec and state agree; nothing to do.
    Idle,
    /// An operation is still recorded: resolve it first.
    ResolvePending,
    /// The spec awaits creation: issue `Create` to the data plane.
    IssueCreate,
    /// Creation has failed too often: give up and raise an alarm.
    Alarm,
    /// Replace the faulted child reached through the URI.
    ReplaceChild(ChildUri),
    /// The spec is tombstoned and nothing remains observed: delete the
    /// record.
    GarbageCollect,
    /// The hosting node is offline: flag the observation unknown, and
    /// leave the spec untouched.
    MarkUnknown,
}

/// Mathematical mirror of [`ReconcileAction`].
pub enum ReconcileActionView {
    Idle,
    ResolvePending,
    IssueCreate,
    Alarm,
    ReplaceChild(Seq<char>),
    GarbageCollect,
    MarkUnknown,
}

impl View for ReconcileAction {
    type V = ReconcileActionView;

    open spec fn view(&self) -> ReconcileActionView {
        match self {
            ReconcileAction::Idle => ReconcileActionView::Idle,
            ReconcileAction::ResolvePending => ReconcileActionView::ResolvePending,
            ReconcileAction::IssueCreate => ReconcileActionView::IssueCreate,
            ReconcileAction::Alarm => ReconcileActionView::Alarm,
            ReconcileAction::ReplaceChild(u) => ReconcileActionView::ReplaceChild(u@),
            ReconcileAction::GarbageCollect => ReconcileActionView::GarbageCollect,
            ReconcileAction::MarkUnknown => ReconcileActionView::MarkUnknown,
        }
    }
}

/// One planned step: the resource it concerns and what to do.
#[derive(Debug)]
pub struct ReconcileItem {
    /// The kind of the resource.
    pub kind: ResourceKind,
    /// The resource's identifier.
    pub id: String,
    /// The step to take.
    pub action: ReconcileAction,
}

/// Mathematical mirror of [`ReconcileItem`].
#[verifier::ext_equal]
pub struct ReconcileItemView {
    pub kind: ResourceKind,
    pub id: Seq<char>,
    pub action: ReconcileActionView,
}

impl View for ReconcileItem {
    type V = ReconcileItemView;

    open spec fn view(&self) -> ReconcileItemView {
        ReconcileItemView { kind: self.kind, id: self.id@, action: self.action@ }
    }
}

/// The URI of the first faulted child at or after position `i`.
pub open spec fn first_faulted_from(s: Seq<ChildView>, i: int) -> Option<Seq<char>>
    decreases s.len() - i,
{
    if i < 0 || i >= s.len() {
        None
    } else if s[i].state == ChildState::Faulted {
        Some(s[i].uri)
    } else {
        first_faulted_from(s, i + 1)
    }
}

/// The URI of the first faulted child, if any.
pub open spec fn first_faulted(s: Seq<ChildView>) -> Option<Seq<char>> {
    first_faulted_from(s, 0)
}

/// The URI of the first faulted child of an observed child list.
pub fn first_faulted_uri(children: &Vec<Child>) -> (r: Option<ChildUri>)
    ensures
        match r {
            Some(u) => first_faulted(children@.map_values(|c: Child| c@)) == Some(u@),
            None => first_faulted(children@.map_values(|c: Child| c@)) is None,
        },
{
    let ghost s = children@.map_values(|c: Child| c@);
    let mut i: usize = 0;
    while i < children.len()
        invariant
            i <= children@.len(),
            s == children@.map_values(|c: Child| c@),
            first_faulted(s) == first_faulted_from(s, i as int),
        decreases children@.len() - i,
    {
        if matches!(children[i].state, ChildState::Faulted) {
            proof {
                assert(s[i as int] == children@[i as int]@);
                assert(first_faulted_from(s, i as int) == Some(s[i as int].uri));
            }
            return Some(children[i].uri.clone());
        }
        proof {
            assert(s[i as int] == children@[i as int]@);
            assert(first_faulted_from(s, i as int) == first_faulted_from(s, i + 1 as int));
        }
        i = i + 1;
    }
    None
}

/// What the reconciler decides for a nexus: resolve a leftover
/// operation first; drive a pending creation, or give up after too
/// many attempts; garbage-collect a quiesced tombstone; flag the
/// observation of a nexus whose node is offline; replace the first
/// faulted child of a faulted nexus; otherwise rest.
pub open spec fn nexus_action(
    nexus_spec: NexusSpecView,
    state: Option<NexusView>,
    node_status: NodeStatus,
    attempts: u32,
    max_attempts: u32,
) -> ReconcileActionView {
    if nexus_spec.operation is Some {
        ReconcileActionView::ResolvePending
    } else if nexus_spec.spec_status == SpecStatus::<NexusStatus>::Creating && state is None {
        if attempts >= max_attempts {
            ReconcileActionView::Alarm
        } else {
            ReconcileActionView::IssueCreate
        }
    } else if nexus_spec.spec_status is Deleted && state is None {
        ReconcileActionView::GarbageCollect
    } else if node_status == NodeStatus::Offline {
        ReconcileActionView::MarkUnknown
    } else if nexus_spec.spec_status == SpecStatus::Created(NexusStatus::Online) && (
    state matches Some(st) && st.status == NexusStatus::Faulted) {
        match first_faulted((state->Some_0).children) {
            Some(uri) => ReconcileActionView::ReplaceChild(uri),
            None => ReconcileActionView::Idle,
        }
    } else {
        ReconcileActionView::Idle
    }
}

/// What the reconciler decides for a pool.
pub open spec fn pool_action(
    pool_spec: PoolSpecView,
    has_state: bool,
) -> ReconcileActionView {
    if pool_spec.operation is Some {
        ReconcileActionView::ResolvePending
    } else if pool_spec.spec_status is Creating && !has_state {
        ReconcileActionView::IssueCreate
    } else if pool_spec.spec_status is Deleted && !has_state {
        ReconcileActionView::GarbageCollect
    } else {
        ReconcileActionView::Idle
    }
}

/// What the reconciler decides for a replica.
pub open spec fn replica_action(
    replica_spec: ReplicaSpecView,
    has_state: bool,
) -> ReconcileActionView {
    if replica_spec.operation is Some {
        ReconcileActionView::ResolvePending
    } else if replica_spec.spec_status is Creating && !has_state {
        ReconcileActionView::IssueCreate
    } else if replica_spec.spec_status is Deleted && !has_state {
        ReconcileActionView::GarbageCollect
    } else {
        ReconcileActionView::Idle
    }
}

/// The liveness of the node carrying the identifier, `Unknown` when
/// the node is not registered.
pub open spec fn node_status_of(reg: Registry, id: Seq<char>) -> NodeStatus {
    match reg.nodes.spec_get(id) {
        Some(e) => e.status,
        None => NodeStatus::Unknown,
    }
}

/// The observed nexus filed under the identifier, if any.
pub open spec fn nexus_state_of(reg: Registry, uuid: Seq<char>) -> Option<NexusView> {
    match reg.nexus_states.spec_get(uuid) {
        Some(s) => Some(s.nexus),
        None => None,
    }
}

/// What a whole pass decides for the nexus filed at position `i`.
pub open spec fn planned_nexus_item(
    reg: Registry,
    i: int,
    attempts: u32,
    max_attempts: u32,
) -> ReconcileItemView {
    let sv = reg.nexus_specs.entries[i]@;
    ReconcileItemView {
        kind: ResourceKind::Nexus,
        id: sv.uuid,
        action: nexus_action(
            sv,
            nexus_state_of(reg, sv.uuid),
            node_status_of(reg, sv.node),
            attempts,
            max_attempts,
        ),
    }
}

/// What a whole pass decides for the pool filed at position `i`.
pub open spec fn planned_pool_item(reg: Registry, i: int) -> ReconcileItemView {
    let sv = reg.pool_specs.entries[i]@;
    ReconcileItemView {
        kind: ResourceKind::Pool,
        id: sv.id,
        action: pool_action(sv, reg.pool_states.has_key(sv.id)),
    }
}

/// What a whole pass decides for the replica filed at position `i`.
pub open spec fn planned_replica_item(reg: Registry, i: int) -> ReconcileItemView {
    let sv = reg.replica_specs.entries[i]@;
    ReconcileItemView {
        kind: ResourceKind::Replica,
        id: sv.uuid,
        action: replica_action(sv, reg.replica_states.has_key(sv.uuid)),
    }
}

impl Service {
    /// Decide one pass over every pool, replica and nexus, in that
    /// order.  `attempts` is the number of creation attempts this pass
    /// follows; past `max_attempts` a pending creation raises an alarm
    /// instead of another attempt.
    pub fn reconcile_plan(&self, attempts: u32, max_attempts: u32) -> (r: Vec<ReconcileItem>)
        requires
            self.wf(),
        ensures
            r@.len() == self.registry.pool_specs.entries@.len()
                + self.registry.replica_specs.entries@.len()
                + self.registry.nexus_specs.entries@.len(),
            forall|i: int| 0 <= i < self.registry.pool_specs.entries@.len() ==> #[trigger] r@[i]@
                == planned_pool_item(self.registry, i),
            forall|i: int| 0 <= i < self.registry.replica_specs.entries@.len() ==> #[trigger] r@[i
                + self.registry.pool_specs.entries@.len()]@ == planned_replica_item(
                self.registry,
                i,
            ),
            forall|i: int| 0 <= i < self.registry.nexus_specs.entries@.len() ==> #[trigger] r@[i
                + self.registry.pool_specs.entries@.len()
                + self.registry.replica_specs.entries@.len()]@ == planned_nexus_item(
                self.registry,
                i,
                attempts,
                max_attempts,
            ),
    {
        let mut out: Vec<ReconcileItem> = Vec::new();
        let mut i: usize = 0;
        while i < self.registry.pool_specs.entries.len()
            invariant
                self.wf(),
                i <= self.registry.pool_specs.entries@.len(),
                out@.len() == i,
                forall|j: int| 0 <= j < i ==> #[trigger] out@[j]@ == planned_pool_item(
                    self.registry,
                    j,
                ),
            decreases self.registry.pool_specs.entries@.len() - i,
        {
            let p = &self.registry.pool_specs.entries[i];
            let has_state = match self.registry.pool_states.find_index(&p.id) {
                Some(_) => {
                    proof {
                        assert(self.registry.pool_states.has_key(p@.id));
                    }
                    true
                },
                None => false,
            };
            let action = if p.pending_op() {
                ReconcileAction::ResolvePending
            } else if matches!(p.spec_status, SpecStatus::Creating) && !has_state {
                ReconcileAction::IssueCreate
            } else if matches!(p.spec_status, SpecStatus::Deleted) && !has_state {
                ReconcileAction::GarbageCollect
            } else {
                ReconcileAction::Idle
            };
            out.push(ReconcileItem { kind: ResourceKind::Pool, id: p.id.clone(), action });
            i = i + 1;
        }
        let pools_len = out.len();
        let mut i: usize = 0;
        while i < self.registry.replica_specs.entries.len()
            invariant
                self.wf(),
                i <= self.registry.replica_specs.entries@.len(),
                pools_len == self.registry.pool_specs.entries@.len(),
                out@.len() == pools_len + i,
                forall|j: int| 0 <= j < pools_len ==> #[trigger] out@[j]@ == planned_pool_item(
                    self.registry,
                    j,
                ),
                forall|j: int| 0 <= j < i ==> #[trigger] out@[j + pools_len]@
                    == planned_replica_item(self.registry, j),
            decreases self.registry.replica_specs.entries@.len() - i,
        {
            let p = &self.registry.replica_specs.entries[i];
            let has_state = match self.registry.replica_states.find_index(&p.uuid) {
                Some(_) => {
                    proof {
                        assert(self.registry.replica_states.has_key(p@.uuid));
                    }
                    true
                },
                None => false,
            };
            let action = if p.pending_op() {
                ReconcileAction::ResolvePending
            } else if matches!(p.spec_status, SpecStatus::Creating) && !has_state {
                ReconcileAction::IssueCreate
            } else if matches!(p.spec_status, SpecStatus::Deleted) && !has_state {
                ReconcileAction::GarbageCollect
            } else {
                ReconcileAction::Idle
            };
            out.push(ReconcileItem { kind: ResourceKind::Replica, id: p.uuid.clone(), action });
            i = i + 1;
        }
        let prefix_len = out.len();
        let mut i: usize = 0;
        while i < self.registry.nexus_specs.entries.len()
            invariant
                self.wf(),
                i <= self.registry.nexus_specs.entries@.len(),
                pools_len == self.registry.pool_specs.entries@.len(),
                prefix_len == self.registry.pool_specs.entries@.len()
                    + self.registry.replica_specs.entries@.len(),
                out@.len() == prefix_len + i,
                forall|j: int| 0 <= j < pools_len ==> #[trigger] out@[j]@ == planned_pool_item(
                    self.registry,
                    j,
                ),
                forall|j: int| 0 <= j < prefix_len - pools_len ==> #[trigger] out@[j + pools_len]@
                    == planned_replica_item(self.registry, j),
                forall|j: int| 0 <= j < i ==> #[trigger] out@[j + prefix_len]@
                    == planned_nexus_item(self.registry, j, attempts, max_attempts),
            decreases self.registry.nexus_specs.entries@.len() - i,
        {
            let p = &self.registry.nexus_specs.entries[i];
            let state = self.registry.nexus_states.get(&p.uuid);
            let node_status = match self.registry.nodes.get(&p.node) {
                Some(e) => e.status,
                None => NodeStatus::Unknown,
            };
            let action = self.decide_nexus(p, state, node_status, attempts, max_attempts);
            proof {
                assert(match state {
                    Some(st) => nexus_state_of(self.registry, p@.uuid) == Some(st@.nexus),
                    None => nexus_state_of(self.registry, p@.uuid) is None,
                });
                assert(node_status == node_status_of(self.registry, p@.node));
            }
            out.push(ReconcileItem { kind: ResourceKind::Nexus, id: p.uuid.clone(), action });
            i = i + 1;
        }
        proof {
            let len1 = self.registry.pool_specs.entries@.len() as int;
            let len2 = self.registry.replica_specs.entries@.len() as int;
            let len3 = self.registry.nexus_specs.entries@.len() as int;
            assert(out@.len() == len1 + len2 + len3);
            assert forall|j: int| 0 <= j < len2 implies #[trigger] out@[j
                + self.registry.pool_specs.entries@.len()]@ == planned_replica_item(
                self.registry,
                j,
            ) by {
                assert(out@[j + (pools_len as int)]@ == planned_replica_item(self.registry, j));
            }
            assert forall|j: int| 0 <= j < len3 implies #[trigger] out@[j
                + self.registry.pool_specs.entries@.len()
                + self.registry.replica_specs.entries@.len()]@ == planned_nexus_item(
                self.registry,
                j,
                attempts,
                max_attempts,
            ) by {
                assert(out@[j + (prefix_len as int)]@ == planned_nexus_item(
                    self.registry,
                    j,
                    attempts,
                    max_attempts,
                ));
            }
        }
        out
    }

    /// Decide the next step for one nexus.
    fn decide_nexus(
        &self,
        nexus_spec: &NexusSpec,
        state: Option<&NexusState>,
        node_status: NodeStatus,
        attempts: u32,
        max_attempts: u32,
    ) -> (r: ReconcileAction)
        ensures
            r@ == nexus_action(
                nexus_spec@,
                match state {
                    Some(s) => Some(s@.nexus),
                    None => None,
                },
                node_status,
                attempts,
                max_attempts,
            ),
    {
        if nexus_spec.pending_op() {
            return ReconcileAction::ResolvePending;
        }
        let state_absent = state.is_none();
        if matches!(nexus_spec.spec_status, SpecStatus::Creating) && state_absent {
            if attempts >= max_attempts {
                return ReconcileAction::Alarm;
            }
            return ReconcileAction::IssueCreate;
        }
        if matches!(nexus_spec.spec_status, SpecStatus::Deleted) && state_absent {
            return ReconcileAction::GarbageCollect;
        }
        if matches!(node_status, NodeStatus::Offline) {
            return ReconcileAction::MarkUnknown;
        }
        if matches!(nexus_spec.spec_status, SpecStatus::Created(NexusStatus::Online)) {
            match state {
                Some(st) => {
                    if matches!(st.nexus.status, NexusStatus::Faulted) {
                        match first_faulted_uri(&st.nexus.children) {
                            Some(uri) => {
                                return ReconcileAction::ReplaceChild(uri);
                            },
                            None => {
                                return ReconcileAction::Idle;
                            },
                        }
                    }
                },
                None => {},
            }
        }
        ReconcileAction::Idle
    }

    /// Flag the observation of a nexus unknown: its node is offline,
    /// so the cached state can no longer be trusted.  The spec is not
    /// mutated and nothing is persisted.
    pub fn mark_nexus_unknown(&mut self, uuid: &NexusId) -> (r: Result<(), ReplyError>)
        requires
            old(self).wf(),
        ensures
            final(self).wf(),
            final(self).deadline_ms == old(self).deadline_ms,
            final(self).store == old(self).store,
            final(self).registry == (Registry {
                nexus_states: final(self).registry.nexus_states,
                ..old(self).registry
            }),
            !old(self).registry.nexus_states.has_key(uuid@) ==> (r matches Err(e) && e.kind
                == ReplyErrorKind::NotFound && *final(self) == *old(self)),
            old(self).registry.nexus_states.has_key(uuid@) ==> {
                let prior = old(self).registry.nexus_states.spec_get(uuid@)->Some_0;
                &&& r is Ok
                &&& final(self).registry.nexus_states.spec_get(uuid@) == Some(
                    NexusStateView {
                        nexus: crate::transport::NexusView {
                            status: NexusStatus::Unknown,
                            ..prior.nexus
                        },
                    },
                )
                &&& forall|k: Seq<char>| k != uuid@ ==> #[trigger] final(self).registry.nexus_states.spec_get(k) == old(self).registry.nexus_states.spec_get(k)
            },
    {
        let mut state = match self.registry.nexus_states.get_cloned(uuid) {
            Some(s) => s,
            None => {
                return Err(
                    ReplyError::new(
                        ReplyErrorKind::NotFound,
                        ResourceKind::Nexus,
                        String::from_str("nexus has not been observed"),
                    ),
                );
            },
        };
        state.nexus.status = NexusStatus::Unknown;
        proof {
            let prior = old(self).registry.nexus_states.spec_get(uuid@)->Some_0;
            assert(state@ =~= (NexusStateView {
                nexus: crate::transport::NexusView {
                    status: NexusStatus::Unknown,
                    ..prior.nexus
                },
            }));
        }
        self.registry.nexus_states.insert(state);
        Ok(())
    }

    /// Garbage-collect a tombstoned nexus: only a spec already
    /// `Deleted` with nothing left observed is deleted from the store
    /// and dropped from the cache.
    pub fn gc_nexus(&mut self, uuid: &NexusId) -> (r: Result<(), ReplyError>)
        requires
            old(self).wf(),
        ensures
            final(self).wf(),
            nexus_tables_framed(*final(self), *old(self)),
            final(self).registry.nexus_states == old(self).registry.nexus_states,
            !old(self).registry.nexus_specs.has_key(uuid@) ==> (r matches Err(e) && e.kind
                == ReplyErrorKind::NotFound && *final(self) == *old(self)),
            old(self).registry.nexus_specs.has_key(uuid@) ==> {
                let prior = old(self).registry.nexus_specs.spec_get(uuid@)->Some_0;
                &&& (!(prior.spec_status is Deleted) || old(self).registry.nexus_states.has_key(
                    uuid@,
                ) ==> (r matches Err(e) && e.kind == ReplyErrorKind::PreconditionFailed && *final(self) == *old(self)))
                &&& (prior.spec_status is Deleted && !old(self).registry.nexus_states.has_key(
                    uuid@,
                ) ==> {
                    &&& (r is Ok <==> old(self).store.writable())
                    &&& (r is Err ==> *final(self) == *old(self))
                    &&& (r matches Err(e) ==> e.kind == ReplyErrorKind::Aborted || e.kind
                        == ReplyErrorKind::Unavailable)
                    &&& (r is Ok ==> !final(self).registry.nexus_specs.has_key(uuid@) && !final(self).store.nexus_specs.has_key(uuid@) && crate::service::nexus_records_framed_except(
                        *final(self),
                        *old(self),
                        uuid@,
                    ))
                })
            },
    {
        let prior = match self.registry.nexus_specs.get_cloned(uuid) {
            Some(s) => s,
            None => {
                return Err(
                    ReplyError::new(
                        ReplyErrorKind::NotFound,
                        ResourceKind::Nexus,
                        String::from_str("nexus does not exist"),
                    ),
                );
            },
        };
        let quiesced = match self.registry.nexus_states.find_index(uuid) {
            Some(_) => {
                proof {
                    assert(old(self).registry.nexus_states.has_key(uuid@));
                }
                false
            },
            None => true,
        };
        if !matches!(prior.spec_status, SpecStatus::Deleted) || !quiesced {
            return Err(
                ReplyError::new(
                    ReplyErrorKind::PreconditionFailed,
                    ResourceKind::Nexus,
                    String::from_str("nexus is not quiesced"),
                ),
            );
        }
        match self.store.delete_nexus_spec(uuid) {
            Ok(()) => {},
            Err(e) => {
                return Err(e);
            },
        }
        let _ = self.registry.nexus_specs.remove_key(uuid);
        Ok(())
    }

    /// Garbage-collect a tombstoned pool, as [`Self::gc_nexus`] does
    /// for a nexus.
    pub fn gc_pool(&mut self, id: &PoolId) -> (r: Result<(), ReplyError>)
        requires
            old(self).wf(),
        ensures
            final(self).wf(),
            pool_tables_framed(*final(self), *old(self)),
            final(self).registry.pool_states == old(self).registry.pool_states,
            !old(self).registry.pool_specs.has_key(id@) ==> (r matches Err(e) && e.kind
                == ReplyErrorKind::NotFound && *final(self) == *old(self)),
            old(self).registry.pool_specs.has_key(id@) ==> {
                let prior = old(self).registry.pool_specs.spec_get(id@)->Some_0;
                &&& (!(prior.spec_status is Deleted) || old(self).registry.pool_states.has_key(id@)
                    ==> (r matches Err(e) && e.kind == ReplyErrorKind::PreconditionFailed
                    && *final(self) == *old(self)))
                &&& (prior.spec_status is Deleted && !old(self).registry.pool_states.has_key(id@)
                    ==> {
                    &&& (r is Ok <==> old(self).store.writable())
                    &&& (r is Err ==> *final(self) == *old(self))
                    &&& (r matches Err(e) ==> e.kind == ReplyErrorKind::Aborted || e.kind
                        == ReplyErrorKind::Unavailable)
                    &&& (r is Ok ==> !final(self).registry.pool_specs.has_key(id@) && !final(self).store.pool_specs.has_key(id@) && crate::service::pool_records_framed_except(
                        *final(self),
                        *old(self),
                        id@,
                    ))
                })
            },
    {
        let prior = match self.registry.pool_specs.get_cloned(id) {
            Some(s) => s,
            None => {
                return Err(
                    ReplyError::new(
                        ReplyErrorKind::NotFound,
                        ResourceKind::Pool,
                        String::from_str("pool does not exist"),
                    ),
                );
            },
        };
        let quiesced = match self.registry.pool_states.find_index(id) {
            Some(_) => {
                proof {
                    assert(old(self).registry.pool_states.has_key(id@));
                }
                false
            },
            None => true,
        };
        if !matches!(prior.spec_status, SpecStatus::Deleted) || !quiesced {
            return Err(
                ReplyError::new(
                    ReplyErrorKind::PreconditionFailed,
                    ResourceKind::Pool,
                    String::from_str("pool is not quiesced"),
                ),
            );
        }
        match self.store.delete_pool_spec(id) {
            Ok(()) => {},
            Err(e) => {
                return Err(e);
            },
        }
        let _ = self.registry.pool_specs.remove_key(id);
        Ok(())
    }

    /// Garbage-collect a tombstoned replica, as [`Self::gc_nexus`]
    /// does for a nexus.
    pub fn gc_replica(&mut self, uuid: &ReplicaId) -> (r: Result<(), ReplyError>)
        requires
            old(self).wf(),
        ensures
            final(self).wf(),
            replica_tables_framed(*final(self), *old(self)),
            final(self).registry.replica_states == old(self).registry.replica_states,
            !old(self).registry.replica_specs.has_key(uuid@) ==> (r matches Err(e) && e.kind
                == ReplyErrorKind::NotFound && *final(self) == *old(self)),
            old(self).registry.replica_specs.has_key(uuid@) ==> {
                let prior = old(self).registry.replica_specs.spec_get(uuid@)->Some_0;
                &&& (!(prior.spec_status is Deleted) || old(self).registry.replica_states.has_key(
                    uuid@,
                ) ==> (r matches Err(e) && e.kind == ReplyErrorKind::PreconditionFailed && *final(self) == *old(self)))
                &&& (prior.spec_status is Deleted && !old(self).registry.replica_states.has_key(
                    uuid@,
                ) ==> {
                    &&& (r is Ok <==> old(self).store.writable())
                    &&& (r is Err ==> *final(self) == *old(self))
                    &&& (r matches Err(e) ==> e.kind == ReplyErrorKind::Aborted || e.kind
                        == ReplyErrorKind::Unavailable)
                    &&& (r is Ok ==> !final(self).registry.replica_specs.has_key(uuid@) && !final(self).store.replica_specs.has_key(uuid@)
                        && crate::service::replica_records_framed_except(
                        *final(self),
                        *old(self),
                        uuid@,
                    ))
                })
            },
    {
        let prior = match self.registry.replica_specs.get_cloned(uuid) {
            Some(s) => s,
            None => {
                return Err(
                    ReplyError::new(
                        ReplyErrorKind::NotFound,
                        ResourceKind::Replica,
                        String::from_str("replica does not exist"),
                    ),
                );
            },
        };
        let quiesced = match self.registry.replica_states.find_index(uuid) {
            Some(_) => {
                proof {
                    assert(old(self).registry.replica_states.has_key(uuid@));
                }
                false
            },
            None => true,
        };
        if !matches!(prior.spec_status, SpecStatus::Deleted) || !quiesced {
            return Err(
                ReplyError::new(
                    ReplyErrorKind::PreconditionFailed,
                    ResourceKind::Replica,
                    String::from_str("replica is not quiesced"),
                ),
            );
        }
        match self.store.delete_replica_spec(uuid) {
            Ok(()) => {},
            Err(e) => {
                return Err(e);
            },
        }
        let _ = self.registry.replica_specs.remove_key(uuid);
        Ok(())
    }
}

} // verus!
