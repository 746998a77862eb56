//! Persistent-store projection: lifecycle status of a spec, the kinds of
//! records the store holds, the per-resource operation sequencer slot,
//! and the store model itself.
//!
//! The store model keeps one table per record kind, mirroring the
//! hierarchical `{kind}/{uuid}` key layout.  Writes succeed only while
//! the cluster leader lease is held and the store answers: losing the
//! lease is fatal (`Aborted`), a timeout surfaces as `Unavailable` and
//! leaves the caller's pending operation for the reconciler.

use vstd::prelude::*;
use crate::errors::{ReplyError, ReplyErrorKind};
use crate::table::{ResourceTable, Storable};

verus! {

/// Position of a spec in the resource lifecycle.
///
/// The runtime sub-status carried by `Created` is meaningful only in that
/// variant.
#[derive(Clone, Copy, Debug, PartialEq, Eq, Structural)]
pub enum SpecStatus<T> {
    /// Accepted but not yet created on the data plane.
    Creating,
    /// Created; carries the runtime status last committed.
    Created(T),
    /// Deletion requested but not yet committed.
    Deleting,
    /// Tombstoned; awaiting garbage collection.
    Deleted,
}

impl<T> SpecStatus<T> {
    /// Whether the spec has been created.
    pub open spec fn is_created(self) -> bool {
        self matches SpecStatus::Created(_)
    }

    /// Whether the spec is tombstoned.
    pub open spec fn is_deleted(self) -> bool {
        self matches SpecStatus::Deleted
    }
}

/// The kinds of records the persistent store holds, the first component
/// of every store key.
#[derive(Clone, Copy, Debug, PartialEq, Eq, Structural)]
pub enum StorableObjectType {
    NodeSpec,
    PoolSpec,
    ReplicaSpec,
    NexusSpec,
    NexusState,
    VolumeSpec,
}

/// Per-resource serialization slot: the single gate through which both
/// client calls and the reconciler mutate a spec.
#[derive(Debug)]
pub struct OperationSequence {
    /// Identifier of the resource the slot guards.
    pub uuid: String,
    /// Whether some task currently holds the slot.
    pub busy: bool,
}

/// Mathematical mirror of [`OperationSequence`].
#[verifier::ext_equal]
pub struct OperationSequenceView {
    pub uuid: Seq<char>,
    pub busy: bool,
}

impl View for OperationSequence {
    type V = OperationSequenceView;

    open spec fn view(&self) -> OperationSequenceView {
        OperationSequenceView { uuid: self.uuid@, busy: self.busy }
    }
}

impl Clone for OperationSequence {
    /// A copy of a sequencer slot reads the same as its original.
    fn clone(&self) -> (r: OperationSequence)
        ensures
            r@ == self@,
    {
        OperationSequence { uuid: self.uuid.clone(), busy: self.busy }
    }
}

impl OperationSequence {
    /// A free sequencer slot for the given resource.
    pub fn new(uuid: String) -> (r: OperationSequence)
        ensures
            r@.uuid == uuid@,
            !r@.busy,
    {
        OperationSequence { uuid, busy: false }
    }

    /// Try to take the slot without blocking: succeeds exactly when the
    /// slot was free, and leaves it held.
    pub fn try_acquire(&mut self) -> (r: bool)
        ensures
            r == !old(self)@.busy,
            final(self)@.uuid == old(self)@.uuid,
            final(self)@.busy,
    {
        let was_free = !self.busy;
        self.busy = true;
        was_free
    }

    /// Release the slot.
    pub fn release(&mut self)
        ensures
            final(self)@.uuid == old(self)@.uuid,
            !final(self)@.busy,
    {
        self.busy = false;
    }
}

/// Model of the persistent key-value store: one table per record kind,
/// guarded by the cluster leader lease and the store's reachability.
pub struct Store {
    /// Whether this process still holds the cluster leader lease.
    pub lease_held: bool,
    /// Whether the store answers within its timeout.
    pub online: bool,
    /// Node specs, filed under `NodeSpec/{id}`.
    pub node_specs: ResourceTable<crate::transport::NodeSpec>,
    /// Pool specs, filed under `PoolSpec/{id}`.
    pub pool_specs: ResourceTable<crate::pool::PoolSpec>,
    /// Replica specs, filed under `ReplicaSpec/{uuid}`.
    pub replica_specs: ResourceTable<crate::replica::ReplicaSpec>,
    /// Nexus specs, filed under `NexusSpec/{uuid}`.
    pub nexus_specs: ResourceTable<crate::nexus::NexusSpec>,
    /// Volume specs, filed under `VolumeSpec/{uuid}`.
    pub volume_specs: ResourceTable<crate::volume::VolumeSpec>,
}

impl Store {
    /// Well-formed: every table files at most one record per key.
    pub open spec fn wf(self) -> bool {
        &&& self.node_specs.wf()
        &&& self.pool_specs.wf()
        &&& self.replica_specs.wf()
        &&& self.nexus_specs.wf()
        &&& self.volume_specs.wf()
    }

    /// Whether writes can currently succeed.
    pub open spec fn writable(self) -> bool {
        self.lease_held && self.online
    }

    /// An empty store whose lease is held and which answers.
    pub fn new() -> (r: Store)
        ensures
            r.wf(),
            r.lease_held,
            r.online,
            r.node_specs.entries@.len() == 0,
            r.pool_specs.entries@.len() == 0,
            r.replica_specs.entries@.len() == 0,
            r.nexus_specs.entries@.len() == 0,
            r.volume_specs.entries@.len() == 0,
    {
        Store {
            lease_held: true,
            online: true,
            node_specs: ResourceTable::new(),
            pool_specs: ResourceTable::new(),
            replica_specs: ResourceTable::new(),
            nexus_specs: ResourceTable::new(),
            volume_specs: ResourceTable::new(),
        }
    }

    /// Model the lease being evicted by another process.
    pub fn revoke_lease(&mut self)
        ensures
            *final(self) == (Store { lease_held: false, ..*old(self) }),
    {
        self.lease_held = false;
    }

    /// Model the store becoming reachable or unreachable.
    pub fn set_online(&mut self, online: bool)
        ensures
            *final(self) == (Store { online, ..*old(self) }),
    {
        self.online = online;
    }

    /// The error a failed write reports: losing the lease is fatal,
    /// anything else is a timeout the reconciler will retry.
    fn write_error(&self) -> (r: ReplyError)
        requires
            !self.writable(),
        ensures
            !self.lease_held ==> r.kind == ReplyErrorKind::Aborted,
            self.lease_held ==> r.kind == ReplyErrorKind::Unavailable,
    {
        if !self.lease_held {
            ReplyError::lease_lost()
        } else {
            ReplyError::store_unavailable()
        }
    }

    /// Persist a node spec under its key, replacing any prior record.
    pub fn put_node_spec(&mut self, s: &crate::transport::NodeSpec) -> (r: Result<(), ReplyError>)
        requires
            old(self).wf(),
        ensures
            final(self).wf(),
            r is Ok <==> old(self).writable(),
            !old(self).writable() ==> *final(self) == *old(self),
            r matches Err(e) ==> e.kind == (if !old(self).lease_held {
                ReplyErrorKind::Aborted
            } else {
                ReplyErrorKind::Unavailable
            }),
            old(self).writable() ==> {
                &&& final(self).node_specs.spec_get(s@.id) == Some(s@)
                &&& final(self).node_specs.has_key(s@.id)
                &&& forall|k: Seq<char>| k != s@.id ==> #[trigger] final(self).node_specs.spec_get(k)
                    == old(self).node_specs.spec_get(k)
                &&& forall|k: Seq<char>| k != s@.id ==> (#[trigger] final(self).node_specs.has_key(k)
                    <==> old(self).node_specs.has_key(k))
                &&& *final(self) == (Store { node_specs: final(self).node_specs, ..*old(self) })
            },
    {
        if !self.lease_held || !self.online {
            Err(self.write_error())
        } else {
            self.node_specs.insert(s.clone());
            Ok(())
        }
    }

    /// Delete the node spec filed under the key, if any.
    pub fn delete_node_spec(&mut self, key: &String) -> (r: Result<(), ReplyError>)
        requires
            old(self).wf(),
        ensures
            final(self).wf(),
            r is Ok <==> old(self).writable(),
            !old(self).writable() ==> *final(self) == *old(self),
            r matches Err(e) ==> e.kind == (if !old(self).lease_held {
                ReplyErrorKind::Aborted
            } else {
                ReplyErrorKind::Unavailable
            }),
            old(self).writable() ==> {
                &&& !final(self).node_specs.has_key(key@)
                &&& forall|k: Seq<char>| k != key@ ==> #[trigger] final(self).node_specs.spec_get(k)
                    == old(self).node_specs.spec_get(k)
                &&& forall|k: Seq<char>| k != key@ ==> (#[trigger] final(self).node_specs.has_key(k)
                    <==> old(self).node_specs.has_key(k))
                &&& *final(self) == (Store { node_specs: final(self).node_specs, ..*old(self) })
            },
    {
        if !self.lease_held || !self.online {
            Err(self.write_error())
        } else {
            let _ = self.node_specs.remove_key(key);
            Ok(())
        }
    }

    /// Persist a pool spec under its key, replacing any prior record.
    pub fn put_pool_spec(&mut self, s: &crate::pool::PoolSpec) -> (r: Result<(), ReplyError>)
        requires
            old(self).wf(),
        ensures
            final(self).wf(),
            r is Ok <==> old(self).writable(),
            !old(self).writable() ==> *final(self) == *old(self),
            r matches Err(e) ==> e.kind == (if !old(self).lease_held {
                ReplyErrorKind::Aborted
            } else {
                ReplyErrorKind::Unavailable
            }),
            old(self).writable() ==> {
                &&& final(self).pool_specs.spec_get(s@.id) == Some(s@)
                &&& final(self).pool_specs.has_key(s@.id)
                &&& forall|k: Seq<char>| k != s@.id ==> #[trigger] final(self).pool_specs.spec_get(k)
                    == old(self).pool_specs.spec_get(k)
                &&& forall|k: Seq<char>| k != s@.id ==> (#[trigger] final(self).pool_specs.has_key(k)
                    <==> old(self).pool_specs.has_key(k))
                &&& *final(self) == (Store { pool_specs: final(self).pool_specs, ..*old(self) })
            },
    {
        if !self.lease_held || !self.online {
            Err(self.write_error())
        } else {
            self.pool_specs.insert(s.clone());
            Ok(())
        }
    }

    /// Delete the pool spec filed under the key, if any.
    pub fn delete_pool_spec(&mut self, key: &String) -> (r: Result<(), ReplyError>)
        requires
            old(self).wf(),
        ensures
            final(self).wf(),
            r is Ok <==> old(self).writable(),
            !old(self).writable() ==> *final(self) == *old(self),
            r matches Err(e) ==> e.kind == (if !old(self).lease_held {
                ReplyErrorKind::Aborted
            } else {
                ReplyErrorKind::Unavailable
            }),
            old(self).writable() ==> {
                &&& !final(self).pool_specs.has_key(key@)
                &&& forall|k: Seq<char>| k != key@ ==> #[trigger] final(self).pool_specs.spec_get(k)
                    == old(self).pool_specs.spec_get(k)
                &&& forall|k: Seq<char>| k != key@ ==> (#[trigger] final(self).pool_specs.has_key(k)
                    <==> old(self).pool_specs.has_key(k))
                &&& *final(self) == (Store { pool_specs: final(self).pool_specs, ..*old(self) })
            },
    {
        if !self.lease_held || !self.online {
            Err(self.write_error())
        } else {
            let _ = self.pool_specs.remove_key(key);
            Ok(())
        }
    }

    /// Persist a replica spec under its key, replacing any prior record.
    pub fn put_replica_spec(&mut self, s: &crate::replica::ReplicaSpec) -> (r: Result<(), ReplyError>)
        requires
            old(self).wf(),
        ensures
            final(self).wf(),
            r is Ok <==> old(self).writable(),
            !old(self).writable() ==> *final(self) == *old(self),
            r matches Err(e) ==> e.kind == (if !old(self).lease_held {
                ReplyErrorKind::Aborted
            } else {
                ReplyErrorKind::Unavailable
            }),
            old(self).writable() ==> {
                &&& final(self).replica_specs.spec_get(s@.uuid) == Some(s@)
                &&& final(self).replica_specs.has_key(s@.uuid)
                &&& forall|k: Seq<char>| k != s@.uuid ==> #[trigger] final(self).replica_specs.spec_get(k)
                    == old(self).replica_specs.spec_get(k)
                &&& forall|k: Seq<char>| k != s@.uuid ==> (#[trigger] final(self).replica_specs.has_key(k)
                    <==> old(self).replica_specs.has_key(k))
                &&& *final(self) == (Store { replica_specs: final(self).replica_specs, ..*old(self) })
            },
    {
        if !self.lease_held || !self.online {
            Err(self.write_error())
        } else {
            self.replica_specs.insert(s.clone());
            Ok(())
        }
    }

    /// Delete the replica spec filed under the key, if any.
    pub fn delete_replica_spec(&mut self, key: &String) -> (r: Result<(), ReplyError>)
        requires
            old(self).wf(),
        ensures
            final(self).wf(),
            r is Ok <==> old(self).writable(),
            !old(self).writable() ==> *final(self) == *old(self),
            r matches Err(e) ==> e.kind == (if !old(self).lease_held {
                ReplyErrorKind::Aborted
            } else {
                ReplyErrorKind::Unavailable
            }),
            old(self).writable() ==> {
                &&& !final(self).replica_specs.has_key(key@)
                &&& forall|k: Seq<char>| k != key@ ==> #[trigger] final(self).replica_specs.spec_get(k)
                    == old(self).replica_specs.spec_get(k)
                &&& forall|k: Seq<char>| k != key@ ==> (#[trigger] final(self).replica_specs.has_key(k)
                    <==> old(self).replica_specs.has_key(k))
                &&& *final(self) == (Store { replica_specs: final(self).replica_specs, ..*old(self) })
            },
    {
        if !self.lease_held || !self.online {
            Err(self.write_error())
        } else {
            let _ = self.replica_specs.remove_key(key);
            Ok(())
        }
    }

    /// Persist a nexus spec under its key, replacing any prior record.
    pub fn put_nexus_spec(&mut self, s: &crate::nexus::NexusSpec) -> (r: Result<(), ReplyError>)
        requires
            old(self).wf(),
        ensures
            final(self).wf(),
            r is Ok <==> old(self).writable(),
            !old(self).writable() ==> *final(self) == *old(self),
            r matches Err(e) ==> e.kind == (if !old(self).lease_held {
                ReplyErrorKind::Aborted
            } else {
                ReplyErrorKind::Unavailable
            }),
            old(self).writable() ==> {
                &&& final(self).nexus_specs.spec_get(s@.uuid) == Some(s@)
                &&& final(self).nexus_specs.has_key(s@.uuid)
                &&& forall|k: Seq<char>| k != s@.uuid ==> #[trigger] final(self).nexus_specs.spec_get(k)
                    == old(self).nexus_specs.spec_get(k)
                &&& forall|k: Seq<char>| k != s@.uuid ==> (#[trigger] final(self).nexus_specs.has_key(k)
                    <==> old(self).nexus_specs.has_key(k))
                &&& *final(self) == (Store { nexus_specs: final(self).nexus_specs, ..*old(self) })
            },
    {
        if !self.lease_held || !self.online {
            Err(self.write_error())
        } else {
            self.nexus_specs.insert(s.clone());
            Ok(())
        }
    }

    /// Delete the nexus spec filed under the key, if any.
    pub fn delete_nexus_spec(&mut self, key: &String) -> (r: Result<(), ReplyError>)
        requires
            old(self).wf(),
        ensures
            final(self).wf(),
            r is Ok <==> old(self).writable(),
            !old(self).writable() ==> *final(self) == *old(self),
            r matches Err(e) ==> e.kind == (if !old(self).lease_held {
                ReplyErrorKind::Aborted
            } else {
                ReplyErrorKind::Unavailable
            }),
            old(self).writable() ==> {
                &&& !final(self).nexus_specs.has_key(key@)
                &&& forall|k: Seq<char>| k != key@ ==> #[trigger] final(self).nexus_specs.spec_get(k)
                    == old(self).nexus_specs.spec_get(k)
                &&& forall|k: Seq<char>| k != key@ ==> (#[trigger] final(self).nexus_specs.has_key(k)
                    <==> old(self).nexus_specs.has_key(k))
                &&& *final(self) == (Store { nexus_specs: final(self).nexus_specs, ..*old(self) })
            },
    {
        if !self.lease_held || !self.online {
            Err(self.write_error())
        } else {
            let _ = self.nexus_specs.remove_key(key);
            Ok(())
        }
    }

    /// Persist a volume spec under its key, replacing any prior record.
    pub fn put_volume_spec(&mut self, s: &crate::volume::VolumeSpec) -> (r: Result<(), ReplyError>)
        requires
            old(self).wf(),
        ensures
            final(self).wf(),
            r is Ok <==> old(self).writable(),
            !old(self).writable() ==> *final(self) == *old(self),
            r matches Err(e) ==> e.kind == (if !old(self).lease_held {
                ReplyErrorKind::Aborted
            } else {
                ReplyErrorKind::Unavailable
            }),
            old(self).writable() ==> {
                &&& final(self).volume_specs.spec_get(s@.uuid) == Some(s@)
                &&& final(self).volume_specs.has_key(s@.uuid)
                &&& forall|k: Seq<char>| k != s@.uuid ==> #[trigger] final(self).volume_specs.spec_get(k)
                    == old(self).volume_specs.spec_get(k)
                &&& forall|k: Seq<char>| k != s@.uuid ==> (#[trigger] final(self).volume_specs.has_key(k)
                    <==> old(self).volume_specs.has_key(k))
                &&& *final(self) == (Store { volume_specs: final(self).volume_specs, ..*old(self) })
            },
    {
        if !self.lease_held || !self.online {
            Err(self.write_error())
        } else {
            self.volume_specs.insert(s.clone());
            Ok(())
        }
    }

    /// Delete the volume spec filed under the key, if any.
    pub fn delete_volume_spec(&mut self, key: &String) -> (r: Result<(), ReplyError>)
        requires
            old(self).wf(),
        ensures
            final(self).wf(),
            r is Ok <==> old(self).writable(),
            !old(self).writable() ==> *final(self) == *old(self),
            r matches Err(e) ==> e.kind == (if !old(self).lease_held {
                ReplyErrorKind::Aborted
            } else {
                ReplyErrorKind::Unavailable
            }),
            old(self).writable() ==> {
                &&& !final(self).volume_specs.has_key(key@)
                &&& forall|k: Seq<char>| k != key@ ==> #[trigger] final(self).volume_specs.spec_get(k)
                    == old(self).volume_specs.spec_get(k)
                &&& forall|k: Seq<char>| k != key@ ==> (#[trigger] final(self).volume_specs.has_key(k)
                    <==> old(self).volume_specs.has_key(k))
                &&& *final(self) == (Store { volume_specs: final(self).volume_specs, ..*old(self) })
            },
    {
        if !self.lease_held || !self.online {
            Err(self.write_error())
        } else {
            let _ = self.volume_specs.remove_key(key);
            Ok(())
        }
    }
}

impl Storable for crate::transport::NodeSpec {
    /// Node specs are filed under the node identifier.
    open spec fn key_of(v: crate::transport::NodeSpecView) -> Seq<char> {
        v.id
    }

    fn table_key(&self) -> (r: String)
        ensures
            r@ == Self::key_of(self@),
    {
        self.id.clone()
    }

    fn duplicate(&self) -> (r: crate::transport::NodeSpec)
        ensures
            r@ == self@,
    {
        self.clone()
    }
}

} // verus!
