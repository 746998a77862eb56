//! Desired configuration of a volume: the user-facing object binding a
//! nexus to a replication policy.

use vstd::prelude::*;
use crate::errors::{ReplyError, ReplyErrorKind, ResourceKind};
use crate::store::{OperationSequence, OperationSequenceView, SpecStatus};
use crate::table::Storable;
use crate::transport::{clone_opt_string, NexusId, VolumeId};

verus! {

/// Runtime status of a volume.
#[derive(Clone, Copy, Debug, PartialEq, Eq, Structural)]
pub enum VolumeStatus {
    Unknown,
    Online,
    Degraded,
    Faulted,
}

/// Replication policy of a volume.
#[derive(Clone, Copy, Debug, PartialEq, Eq, Structural)]
pub struct VolumePolicy {
    /// Whether faulted children are replaced automatically.
    pub self_heal: bool,
}

/// The operations a volume spec can have in flight.
#[derive(Clone, Copy, Debug, PartialEq, Eq, Structural)]
pub enum VolumeOperation {
    Create,
    Destroy,
}

/// Record of the one operation in flight on a volume spec.
#[derive(Clone, Copy, Debug, PartialEq, Eq, Structural)]
pub struct VolumeOperationState {
    /// The operation that was started.
    pub operation: VolumeOperation,
    /// The recorded data-plane outcome, once one arrived.
    pub result: Option<bool>,
}

/// Status of a volume spec.
pub type VolumeSpecStatus = SpecStatus<VolumeStatus>;

/// Desired configuration of a volume.
#[derive(Debug)]
pub struct VolumeSpec {
    /// Unique identifier of the volume.
    pub uuid: VolumeId,
    /// How many replicas the volume should keep.
    pub num_replicas: u8,
    /// Replication policy.
    pub policy: VolumePolicy,
    /// The nexus currently serving the volume, if any.
    pub target_nexus: Option<NexusId>,
    /// Position of the spec in the resource lifecycle.
    pub spec_status: VolumeSpecStatus,
    /// Per-resource serialization slot.
    pub sequencer: OperationSequence,
    /// Record of the operation in flight, if any.
    pub operation: Option<VolumeOperationState>,
}

/// Mathematical mirror of [`VolumeSpec`].
#[verifier::ext_equal]
pub struct VolumeSpecView {
    pub uuid: Seq<char>,
    pub num_replicas: u8,
    pub policy: VolumePolicy,
    pub target_nexus: Option<Seq<char>>,
    pub spec_status: VolumeSpecStatus,
    pub sequencer: OperationSequenceView,
    pub operation: Option<VolumeOperationState>,
}

impl View for VolumeSpec {
    type V = VolumeSpecView;

    open spec fn view(&self) -> VolumeSpecView {
        VolumeSpecView {
            uuid: self.uuid@,
            num_replicas: self.num_replicas,
            policy: self.policy,
            target_nexus: match self.target_nexus {
                Some(ref n) => Some(n@),
                None => None,
            },
            spec_status: self.spec_status,
            sequencer: self.sequencer@,
            operation: self.operation,
        }
    }
}

impl Clone for VolumeSpec {
    /// A copy of a volume spec reads the same as its original.
    fn clone(&self) -> (r: VolumeSpec)
        ensures
            r@ == self@,
    {
        let r = VolumeSpec {
            uuid: self.uuid.clone(),
            num_replicas: self.num_replicas,
            policy: self.policy,
            target_nexus: clone_opt_string(&self.target_nexus),
            spec_status: self.spec_status,
            sequencer: self.sequencer.clone(),
            operation: self.operation,
        };
        proof {
            assert(r@ =~= self@);
        }
        r
    }
}

impl VolumeSpecView {
    /// Whether an operation is in flight.
    pub open spec fn pending_op(self) -> bool {
        self.operation is Some
    }

    /// The spec with an operation freshly recorded and no outcome yet.
    pub open spec fn started(self, op: VolumeOperation) -> VolumeSpecView {
        VolumeSpecView {
            operation: Some(VolumeOperationState { operation: op, result: None }),
            ..self
        }
    }

    /// The spec with the data-plane outcome recorded, when an operation
    /// is in flight; unchanged otherwise.
    pub open spec fn with_result(self, result: bool) -> VolumeSpecView {
        match self.operation {
            Some(st) => VolumeSpecView {
                operation: Some(
                    VolumeOperationState { operation: st.operation, result: Some(result) },
                ),
                ..self
            },
            None => self,
        }
    }

    /// The spec with its operation record cleared.
    pub open spec fn cleared(self) -> VolumeSpecView {
        VolumeSpecView { operation: None, ..self }
    }

    /// The effect of a committed operation on the spec.
    pub open spec fn apply_op(self, op: VolumeOperation) -> VolumeSpecView {
        match op {
            VolumeOperation::Create => VolumeSpecView {
                spec_status: SpecStatus::Created(VolumeStatus::Online),
                ..self
            },
            VolumeOperation::Destroy => VolumeSpecView {
                spec_status: SpecStatus::Deleted,
                ..self
            },
        }
    }

    /// The spec a commit results in.
    pub open spec fn committed(self) -> VolumeSpecView {
        match self.operation {
            Some(st) => if st.result == Some(true) {
                self.apply_op(st.operation).cleared()
            } else {
                self.cleared()
            },
            None => self.cleared(),
        }
    }
}

impl VolumeSpec {
    /// A fresh volume spec: status `Creating`, no target nexus, no
    /// operation in flight.
    pub fn new(uuid: VolumeId, num_replicas: u8, policy: VolumePolicy) -> (r: VolumeSpec)
        ensures
            r@.uuid == uuid@,
            r@.num_replicas == num_replicas,
            r@.policy == policy,
            r@.target_nexus is None,
            r@.spec_status == VolumeSpecStatus::Creating,
            r@.operation is None,
            !r@.sequencer.busy,
    {
        let sequencer = OperationSequence::new(uuid.clone());
        VolumeSpec {
            uuid,
            num_replicas,
            policy,
            target_nexus: None,
            spec_status: SpecStatus::Creating,
            sequencer,
            operation: None,
        }
    }

    /// Whether an operation is in flight.
    pub fn pending_op(&self) -> (r: bool)
        ensures
            r == self@.pending_op(),
    {
        self.operation.is_some()
    }

    /// Record an operation, unless one is already in flight.
    pub fn start_op(&mut self, operation: VolumeOperation) -> (r: Result<(), ReplyError>)
        ensures
            r is Ok <==> old(self)@.operation is None,
            r is Ok ==> final(self)@ == old(self)@.started(operation),
            r is Err ==> final(self)@ == old(self)@,
            r matches Err(e) ==> e.kind == ReplyErrorKind::Conflict && e.resource
                == ResourceKind::Volume,
    {
        if self.operation.is_some() {
            Err(ReplyError::op_in_progress(ResourceKind::Volume))
        } else {
            self.operation = Some(VolumeOperationState { operation, result: None });
            proof {
                assert(self@ =~= old(self)@.started(operation));
            }
            Ok(())
        }
    }

    /// Record the data-plane outcome of the operation in flight.
    pub fn set_op_result(&mut self, result: bool)
        ensures
            final(self)@ == old(self)@.with_result(result),
    {
        match &mut self.operation {
            Some(op) => {
                op.result = Some(result);
            },
            None => {},
        }
        proof {
            assert(self@ =~= old(self)@.with_result(result));
        }
    }

    /// Commit the operation in flight: apply its effect exactly when the
    /// recorded outcome is success, and clear the record either way.
    pub fn commit_op(&mut self)
        ensures
            final(self)@ == old(self)@.committed(),
    {
        match self.operation {
            Some(st) => {
                match st.result {
                    Some(true) => {
                        match st.operation {
                            VolumeOperation::Create => {
                                self.spec_status = SpecStatus::Created(VolumeStatus::Online);
                            },
                            VolumeOperation::Destroy => {
                                self.spec_status = SpecStatus::Deleted;
                            },
                        }
                    },
                    _ => {},
                }
            },
            None => {},
        }
        self.operation = None;
        proof {
            assert(self@ =~= old(self)@.committed());
        }
    }

    /// Unconditionally clear the operation record; used on recovery.
    pub fn clear_op(&mut self)
        ensures
            final(self)@ == old(self)@.cleared(),
    {
        self.operation = None;
        proof {
            assert(self@ =~= old(self)@.cleared());
        }
    }
}

impl Storable for VolumeSpec {
    /// Volume specs are filed under the volume identifier.
    open spec fn key_of(v: VolumeSpecView) -> Seq<char> {
        v.uuid
    }

    fn table_key(&self) -> (r: String)
        ensures
            r@ == Self::key_of(self@),
    {
        self.uuid.clone()
    }

    fn duplicate(&self) -> (r: VolumeSpec)
        ensures
            r@ == self@,
    {
        self.clone()
    }
}

} // verus!
