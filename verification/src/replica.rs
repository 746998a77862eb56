//! Desired configuration of a replica, and who owns it.

use vstd::prelude::*;
use crate::errors::{ReplyError, ReplyErrorKind, ResourceKind};
use crate::store::{OperationSequence, OperationSequenceView, SpecStatus};
use crate::table::Storable;
use crate::transport::{
    clone_opt_string, clone_strings, NexusId, NodeId, PoolId, Protocol, ReplicaId, ReplicaStatus,
    VolumeId,
};

verus! {

/// Who owns a replica: at most one volume, and the nexuses it is a
/// child of.  A replica with owners cannot be destroyed.
#[derive(Debug)]
pub struct ReplicaOwners {
    /// The owning volume, if any.
    pub volume: Option<VolumeId>,
    /// The nexuses holding the replica as a child.
    pub nexuses: Vec<NexusId>,
}

/// Mathematical mirror of [`ReplicaOwners`].
#[verifier::ext_equal]
pub struct ReplicaOwnersView {
    pub volume: Option<Seq<char>>,
    pub nexuses: Seq<Seq<char>>,
}

impl View for ReplicaOwners {
    type V = ReplicaOwnersView;

    open spec fn view(&self) -> ReplicaOwnersView {
        ReplicaOwnersView {
            volume: match self.volume {
                Some(ref v) => Some(v@),
                None => None,
            },
            nexuses: self.nexuses@.map_values(|n: NodeId| n@),
        }
    }
}

impl Clone for ReplicaOwners {
    /// A copy of the owner set reads the same as its original.
    fn clone(&self) -> (r: ReplicaOwners)
        ensures
            r@ == self@,
    {
        let r = ReplicaOwners {
            volume: clone_opt_string(&self.volume),
            nexuses: clone_strings(&self.nexuses),
        };
        proof {
            assert(r@ =~= self@);
        }
        r
    }
}

impl ReplicaOwnersView {
    /// Whether nobody owns the replica.
    pub open spec fn is_orphan(self) -> bool {
        self.volume is None && self.nexuses.len() == 0
    }
}

impl ReplicaOwners {
    /// An ownerless replica.
    pub fn none() -> (r: ReplicaOwners)
        ensures
            r@.is_orphan(),
    {
        ReplicaOwners { volume: None, nexuses: Vec::new() }
    }

    /// Whether nobody owns the replica.
    pub fn is_orphan(&self) -> (r: bool)
        ensures
            r == self@.is_orphan(),
    {
        self.volume.is_none() && self.nexuses.len() == 0
    }

    /// Record a nexus as owner.
    pub fn add_nexus(&mut self, nexus: &NexusId)
        ensures
            final(self)@.volume == old(self)@.volume,
            final(self)@.nexuses == old(self)@.nexuses.push(nexus@),
    {
        self.nexuses.push(nexus.clone());
        proof {
            assert(self@.nexuses =~= old(self)@.nexuses.push(nexus@));
        }
    }

    /// Forget a nexus as owner; every entry reading as the nexus goes.
    pub fn remove_nexus(&mut self, nexus: &NexusId)
        ensures
            final(self)@.volume == old(self)@.volume,
            final(self)@.nexuses == old(self)@.nexuses.filter(keeps_other_ids(nexus@)),
    {
        let mut out: Vec<NexusId> = Vec::new();
        let ghost s = self.nexuses@.map_values(|n: NodeId| n@);
        let ghost pred = keeps_other_ids(nexus@);
        let mut i: usize = 0;
        proof {
            reveal(Seq::filter);
        }
        while i < self.nexuses.len()
            invariant
                i <= self.nexuses@.len(),
                s == self.nexuses@.map_values(|n: NodeId| n@),
                pred == keeps_other_ids(nexus@),
                out@.map_values(|n: NodeId| n@) == s.subrange(0, i as int).filter(pred),
            decreases self.nexuses@.len() - i,
        {
            let ghost prefix = s.subrange(0, i as int);
            let ghost next = s.subrange(0, i + 1 as int);
            proof {
                assert(next.drop_last() =~= prefix);
                assert(next.last() == s[i as int]);
                reveal(Seq::filter);
                assert(next.filter(pred) == if pred(s[i as int]) {
                    prefix.filter(pred).push(s[i as int])
                } else {
                    prefix.filter(pred)
                });
            }
            if !(self.nexuses[i] == *nexus) {
                out.push(self.nexuses[i].clone());
                proof {
                    assert(out@.map_values(|n: NodeId| n@) =~= prefix.filter(pred).push(
                        s[i as int],
                    ));
                }
            }
            i = i + 1;
        }
        proof {
            assert(s.subrange(0, s.len() as int) =~= s);
        }
        self.nexuses = out;
    }
}

/// The predicate keeping every identifier other than the given one.
pub open spec fn keeps_other_ids(id: Seq<char>) -> spec_fn(Seq<char>) -> bool {
    |x: Seq<char>| x != id
}

/// The operations a replica spec can have in flight.
#[derive(Clone, Copy, Debug, PartialEq, Eq, Structural)]
pub enum ReplicaOperation {
    Create,
    Destroy,
    Share(Protocol),
    Unshare,
}

/// Record of the one operation in flight on a replica spec.
#[derive(Clone, Copy, Debug, PartialEq, Eq, Structural)]
pub struct ReplicaOperationState {
    /// The operation that was started.
    pub operation: ReplicaOperation,
    /// The recorded data-plane outcome, once one arrived.
    pub result: Option<bool>,
}

/// Status of a replica spec.
pub type ReplicaSpecStatus = SpecStatus<ReplicaStatus>;

/// Desired configuration of a replica.
#[derive(Debug)]
pub struct ReplicaSpec {
    /// Unique identifier of the replica.
    pub uuid: ReplicaId,
    /// Pool providing the replica's space.
    pub pool: PoolId,
    /// Size of the replica in bytes.
    pub size: u64,
    /// Desired share protocol.
    pub share: Protocol,
    /// Thin provisioning.
    pub thin: bool,
    /// Position of the spec in the resource lifecycle.
    pub spec_status: ReplicaSpecStatus,
    /// Managed by the control plane.
    pub managed: bool,
    /// Who owns the replica.
    pub owners: ReplicaOwners,
    /// Per-resource serialization slot.
    pub sequencer: OperationSequence,
    /// Record of the operation in flight, if any.
    pub operation: Option<ReplicaOperationState>,
}

/// Mathematical mirror of [`ReplicaSpec`].
#[verifier::ext_equal]
pub struct ReplicaSpecView {
    pub uuid: Seq<char>,
    pub pool: Seq<char>,
    pub size: u64,
    pub share: Protocol,
    pub thin: bool,
    pub spec_status: ReplicaSpecStatus,
    pub managed: bool,
    pub owners: ReplicaOwnersView,
    pub sequencer: OperationSequenceView,
    pub operation: Option<ReplicaOperationState>,
}

impl View for ReplicaSpec {
    type V = ReplicaSpecView;

    open spec fn view(&self) -> ReplicaSpecView {
        ReplicaSpecView {
            uuid: self.uuid@,
            pool: self.pool@,
            size: self.size,
            share: self.share,
            thin: self.thin,
            spec_status: self.spec_status,
            managed: self.managed,
            owners: self.owners@,
            sequencer: self.sequencer@,
            operation: self.operation,
        }
    }
}

impl Clone for ReplicaSpec {
    /// A copy of a replica spec reads the same as its original.
    fn clone(&self) -> (r: ReplicaSpec)
        ensures
            r@ == self@,
    {
        let r = ReplicaSpec {
            uuid: self.uuid.clone(),
            pool: self.pool.clone(),
            size: self.size,
            share: self.share,
            thin: self.thin,
            spec_status: self.spec_status,
            managed: self.managed,
            owners: self.owners.clone(),
            sequencer: self.sequencer.clone(),
            operation: self.operation,
        };
        proof {
            assert(r@ =~= self@);
        }
        r
    }
}

/// Request to create a replica.
#[derive(Debug)]
pub struct CreateReplica {
    /// Node which should host the replica.
    pub node: NodeId,
    /// Unique identifier for the new replica.
    pub uuid: ReplicaId,
    /// Pool providing the replica's space.
    pub pool: PoolId,
    /// Size of the replica in bytes.
    pub size: u64,
    /// Thin provisioning.
    pub thin: bool,
    /// Share protocol to start with.
    pub share: Protocol,
    /// Managed by the control plane.
    pub managed: bool,
}

/// Mathematical mirror of [`CreateReplica`].
#[verifier::ext_equal]
pub struct CreateReplicaView {
    pub node: Seq<char>,
    pub uuid: Seq<char>,
    pub pool: Seq<char>,
    pub size: u64,
    pub thin: bool,
    pub share: Protocol,
    pub managed: bool,
}

impl View for CreateReplica {
    type V = CreateReplicaView;

    open spec fn view(&self) -> CreateReplicaView {
        CreateReplicaView {
            node: self.node@,
            uuid: self.uuid@,
            pool: self.pool@,
            size: self.size,
            thin: self.thin,
            share: self.share,
            managed: self.managed,
        }
    }
}

impl Clone for CreateReplica {
    /// A copy of a creation request reads the same as its original.
    fn clone(&self) -> (r: CreateReplica)
        ensures
            r@ == self@,
    {
        CreateReplica {
            node: self.node.clone(),
            uuid: self.uuid.clone(),
            pool: self.pool.clone(),
            size: self.size,
            thin: self.thin,
            share: self.share,
            managed: self.managed,
        }
    }
}

impl ReplicaSpecView {
    /// The spec a fresh creation request gives rise to.
    pub open spec fn from_request(req: CreateReplicaView) -> ReplicaSpecView {
        ReplicaSpecView {
            uuid: req.uuid,
            pool: req.pool,
            size: req.size,
            share: req.share,
            thin: req.thin,
            spec_status: SpecStatus::Creating,
            managed: req.managed,
            owners: ReplicaOwnersView { volume: None, nexuses: Seq::empty() },
            sequencer: OperationSequenceView { uuid: req.uuid, busy: false },
            operation: None,
        }
    }

    /// Whether an operation is in flight.
    pub open spec fn pending_op(self) -> bool {
        self.operation is Some
    }

    /// The spec with an operation freshly recorded and no outcome yet.
    pub open spec fn started(self, op: ReplicaOperation) -> ReplicaSpecView {
        ReplicaSpecView {
            operation: Some(ReplicaOperationState { operation: op, result: None }),
            ..self
        }
    }

    /// The spec with the data-plane outcome recorded, when an operation
    /// is in flight; unchanged otherwise.
    pub open spec fn with_result(self, result: bool) -> ReplicaSpecView {
        match self.operation {
            Some(st) => ReplicaSpecView {
                operation: Some(
                    ReplicaOperationState { operation: st.operation, result: Some(result) },
                ),
                ..self
            },
            None => self,
        }
    }

    /// The spec with its operation record cleared.
    pub open spec fn cleared(self) -> ReplicaSpecView {
        ReplicaSpecView { operation: None, ..self }
    }

    /// The effect of a committed operation on the spec.
    pub open spec fn apply_op(self, op: ReplicaOperation) -> ReplicaSpecView {
        match op {
            ReplicaOperation::Create => ReplicaSpecView {
                spec_status: SpecStatus::Created(ReplicaStatus::Online),
                ..self
            },
            ReplicaOperation::Destroy => ReplicaSpecView {
                spec_status: SpecStatus::Deleted,
                ..self
            },
            ReplicaOperation::Share(p) => ReplicaSpecView { share: p, ..self },
            ReplicaOperation::Unshare => ReplicaSpecView { share: Protocol::Off, ..self },
        }
    }

    /// The spec a commit results in.
    pub open spec fn committed(self) -> ReplicaSpecView {
        match self.operation {
            Some(st) => if st.result == Some(true) {
                self.apply_op(st.operation).cleared()
            } else {
                self.cleared()
            },
            None => self.cleared(),
        }
    }
}

impl ReplicaSpec {
    /// The spec a fresh creation request gives rise to.
    pub fn from_request(request: &CreateReplica) -> (r: ReplicaSpec)
        ensures
            r@ == ReplicaSpecView::from_request(request@),
    {
        let r = ReplicaSpec {
            uuid: request.uuid.clone(),
            pool: request.pool.clone(),
            size: request.size,
            share: request.share,
            thin: request.thin,
            spec_status: SpecStatus::Creating,
            managed: request.managed,
            owners: ReplicaOwners::none(),
            sequencer: OperationSequence::new(request.uuid.clone()),
            operation: None,
        };
        proof {
            assert(r@.owners =~= ReplicaOwnersView { volume: None, nexuses: Seq::empty() });
            assert(r@ =~= ReplicaSpecView::from_request(request@));
        }
        r
    }

    /// Whether an operation is in flight.
    pub fn pending_op(&self) -> (r: bool)
        ensures
            r == self@.pending_op(),
    {
        self.operation.is_some()
    }

    /// Record an operation, unless one is already in flight.
    pub fn start_op(&mut self, operation: ReplicaOperation) -> (r: Result<(), ReplyError>)
        ensures
            r is Ok <==> old(self)@.operation is None,
            r is Ok ==> final(self)@ == old(self)@.started(operation),
            r is Err ==> final(self)@ == old(self)@,
            r matches Err(e) ==> e.kind == ReplyErrorKind::Conflict && e.resource
                == ResourceKind::Replica,
    {
        if self.operation.is_some() {
            Err(ReplyError::op_in_progress(ResourceKind::Replica))
        } else {
            self.operation = Some(ReplicaOperationState { operation, result: None });
            proof {
                assert(self@ =~= old(self)@.started(operation));
            }
            Ok(())
        }
    }

    /// Record the data-plane outcome of the operation in flight.
    pub fn set_op_result(&mut self, result: bool)
        ensures
            final(self)@ == old(self)@.with_result(result),
    {
        match &mut self.operation {
            Some(op) => {
                op.result = Some(result);
            },
            None => {},
        }
        proof {
            assert(self@ =~= old(self)@.with_result(result));
        }
    }

    /// Commit the operation in flight: apply its effect exactly when the
    /// recorded outcome is success, and clear the record either way.
    pub fn commit_op(&mut self)
        ensures
            final(self)@ == old(self)@.committed(),
    {
        match self.operation {
            Some(st) => {
                match st.result {
                    Some(true) => {
                        match st.operation {
                            ReplicaOperation::Create => {
                                self.spec_status = SpecStatus::Created(ReplicaStatus::Online);
                            },
                            ReplicaOperation::Destroy => {
                                self.spec_status = SpecStatus::Deleted;
                            },
                            ReplicaOperation::Share(p) => {
                                self.share = p;
                            },
                            ReplicaOperation::Unshare => {
                                self.share = Protocol::Off;
                            },
                        }
                    },
                    _ => {},
                }
            },
            None => {},
        }
        self.operation = None;
        proof {
            assert(self@ =~= old(self)@.committed());
        }
    }

    /// Unconditionally clear the operation record; used on recovery.
    pub fn clear_op(&mut self)
        ensures
            final(self)@ == old(self)@.cleared(),
    {
        self.operation = None;
        proof {
            assert(self@ =~= old(self)@.cleared());
        }
    }
}

impl Storable for ReplicaSpec {
    /// Replica specs are filed under the replica identifier.
    open spec fn key_of(v: ReplicaSpecView) -> Seq<char> {
        v.uuid
    }

    fn table_key(&self) -> (r: String)
        ensures
            r@ == Self::key_of(self@),
    {
        self.uuid.clone()
    }

    fn duplicate(&self) -> (r: ReplicaSpec)
        ensures
            r@ == self@,
    {
        self.clone()
    }
}

} // verus!
