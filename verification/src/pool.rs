//! Desired configuration of a storage pool.

use vstd::prelude::*;
use crate::errors::{ReplyError, ReplyErrorKind, ResourceKind};
use crate::store::{OperationSequence, OperationSequenceView, SpecStatus};
use crate::table::Storable;
use crate::transport::{
    clone_strings, CreatePool, CreatePoolView, NodeId, PoolId, PoolStatus,
};

verus! {

/// The operations a pool spec can have in flight.
#[derive(Clone, Copy, Debug, PartialEq, Eq, Structural)]
pub enum PoolOperation {
    Create,
    Destroy,
}

/// Record of the one operation in flight on a pool spec.
#[derive(Clone, Copy, Debug, PartialEq, Eq, Structural)]
pub struct PoolOperationState {
    /// The operation that was started.
    pub operation: PoolOperation,
    /// The recorded data-plane outcome, once one arrived.
    pub result: Option<bool>,
}

/// Status of a pool spec.
pub type PoolSpecStatus = SpecStatus<PoolStatus>;

/// Desired configuration of a storage pool.
#[derive(Debug)]
pub struct PoolSpec {
    /// Node which should host the pool.
    pub node: NodeId,
    /// Identifier of the pool.
    pub id: PoolId,
    /// Backing disks.
    pub disks: Vec<String>,
    /// Position of the spec in the resource lifecycle.
    pub spec_status: PoolSpecStatus,
    /// Per-resource serialization slot.
    pub sequencer: OperationSequence,
    /// Record of the operation in flight, if any.
    pub operation: Option<PoolOperationState>,
}

/// Mathematical mirror of [`PoolSpec`].
#[verifier::ext_equal]
pub struct PoolSpecView {
    pub node: Seq<char>,
    pub id: Seq<char>,
    pub disks: Seq<Seq<char>>,
    pub spec_status: PoolSpecStatus,
    pub sequencer: OperationSequenceView,
    pub operation: Option<PoolOperationState>,
}

impl View for PoolSpec {
    type V = PoolSpecView;

    open spec fn view(&self) -> PoolSpecView {
        PoolSpecView {
            node: self.node@,
            id: self.id@,
            disks: self.disks@.map_values(|d: String| d@),
            spec_status: self.spec_status,
            sequencer: self.sequencer@,
            operation: self.operation,
        }
    }
}

impl Clone for PoolSpec {
    /// A copy of a pool spec reads the same as its original.
    fn clone(&self) -> (r: PoolSpec)
        ensures
            r@ == self@,
    {
        let r = PoolSpec {
            node: self.node.clone(),
            id: self.id.clone(),
            disks: clone_strings(&self.disks),
            spec_status: self.spec_status,
            sequencer: self.sequencer.clone(),
            operation: self.operation,
        };
        proof {
            assert(r@ =~= self@);
        }
        r
    }
}

impl PoolSpecView {
    /// The spec a fresh creation request gives rise to.
    pub open spec fn from_request(req: CreatePoolView) -> PoolSpecView {
        PoolSpecView {
            node: req.node,
            id: req.id,
            disks: req.disks,
            spec_status: SpecStatus::Creating,
            sequencer: OperationSequenceView { uuid: req.id, busy: false },
            operation: None,
        }
    }

    /// Whether an operation is in flight.
    pub open spec fn pending_op(self) -> bool {
        self.operation is Some
    }

    /// The spec with an operation freshly recorded and no outcome yet.
    pub open spec fn started(self, op: PoolOperation) -> PoolSpecView {
        PoolSpecView {
            operation: Some(PoolOperationState { operation: op, result: None }),
            ..self
        }
    }

    /// The spec with the data-plane outcome recorded, when an operation
    /// is in flight; unchanged otherwise.
    pub open spec fn with_result(self, result: bool) -> PoolSpecView {
        match self.operation {
            Some(st) => PoolSpecView {
                operation: Some(PoolOperationState { operation: st.operation, result: Some(result) }),
                ..self
            },
            None => self,
        }
    }

    /// The spec with its operation record cleared.
    pub open spec fn cleared(self) -> PoolSpecView {
        PoolSpecView { operation: None, ..self }
    }

    /// The effect of a committed operation on the spec.
    pub open spec fn apply_op(self, op: PoolOperation) -> PoolSpecView {
        match op {
            PoolOperation::Create => PoolSpecView {
                spec_status: SpecStatus::Created(PoolStatus::Online),
                ..self
            },
            PoolOperation::Destroy => PoolSpecView { spec_status: SpecStatus::Deleted, ..self },
        }
    }

    /// The spec a commit results in.
    pub open spec fn committed(self) -> PoolSpecView {
        match self.operation {
            Some(st) => if st.result == Some(true) {
                self.apply_op(st.operation).cleared()
            } else {
                self.cleared()
            },
            None => self.cleared(),
        }
    }
}

impl PoolSpec {
    /// The spec a fresh creation request gives rise to.
    pub fn from_request(request: &CreatePool) -> (r: PoolSpec)
        ensures
            r@ == PoolSpecView::from_request(request@),
    {
        let r = PoolSpec {
            node: request.node.clone(),
            id: request.id.clone(),
            disks: clone_strings(&request.disks),
            spec_status: SpecStatus::Creating,
            sequencer: OperationSequence::new(request.id.clone()),
            operation: None,
        };
        proof {
            assert(r@ =~= PoolSpecView::from_request(request@));
        }
        r
    }

    /// Whether an operation is in flight.
    pub fn pending_op(&self) -> (r: bool)
        ensures
            r == self@.pending_op(),
    {
        self.operation.is_some()
    }

    /// Record an operation, unless one is already in flight.
    pub fn start_op(&mut self, operation: PoolOperation) -> (r: Result<(), ReplyError>)
        ensures
            r is Ok <==> old(self)@.operation is None,
            r is Ok ==> final(self)@ == old(self)@.started(operation),
            r is Err ==> final(self)@ == old(self)@,
            r matches Err(e) ==> e.kind == ReplyErrorKind::Conflict && e.resource
                == ResourceKind::Pool,
    {
        if self.operation.is_some() {
            Err(ReplyError::op_in_progress(ResourceKind::Pool))
        } else {
            self.operation = Some(PoolOperationState { operation, result: None });
            proof {
                assert(self@ =~= old(self)@.started(operation));
            }
            Ok(())
        }
    }

    /// Record the data-plane outcome of the operation in flight.
    pub fn set_op_result(&mut self, result: bool)
        ensures
            final(self)@ == old(self)@.with_result(result),
    {
        match &mut self.operation {
            Some(op) => {
                op.result = Some(result);
            },
            None => {},
        }
        proof {
            assert(self@ =~= old(self)@.with_result(result));
        }
    }

    /// Commit the operation in flight: apply its effect exactly when the
    /// recorded outcome is success, and clear the record either way.
    pub fn commit_op(&mut self)
        ensures
            final(self)@ == old(self)@.committed(),
    {
        match self.operation {
            Some(st) => {
                match st.result {
                    Some(true) => {
                        match st.operation {
                            PoolOperation::Create => {
                                self.spec_status = SpecStatus::Created(PoolStatus::Online);
                            },
                            PoolOperation::Destroy => {
                                self.spec_status = SpecStatus::Deleted;
                            },
                        }
                    },
                    _ => {},
                }
            },
            None => {},
        }
        self.operation = None;
        proof {
            assert(self@ =~= old(self)@.committed());
        }
    }

    /// Unconditionally clear the operation record; used on recovery.
    pub fn clear_op(&mut self)
        ensures
            final(self)@ == old(self)@.cleared(),
    {
        self.operation = None;
        proof {
            assert(self@ =~= old(self)@.cleared());
        }
    }

    /// The observed pool this spec expects, before anything is reported.
    pub fn to_runtime(&self) -> (r: crate::transport::Pool)
        ensures
            r@.node == self@.node,
            r@.id == self@.id,
            r@.disks == self@.disks,
            r@.status == PoolStatus::Unknown,
    {
        let r = crate::transport::Pool {
            node: self.node.clone(),
            id: self.id.clone(),
            disks: clone_strings(&self.disks),
            status: PoolStatus::Unknown,
        };
        r
    }
}

impl Storable for PoolSpec {
    /// Pool specs are filed under the pool identifier.
    open spec fn key_of(v: PoolSpecView) -> Seq<char> {
        v.id
    }

    fn table_key(&self) -> (r: String)
        ensures
            r@ == Self::key_of(self@),
    {
        self.id.clone()
    }

    fn duplicate(&self) -> (r: PoolSpec)
        ensures
            r@ == self@,
    {
        self.clone()
    }
}

} // verus!
