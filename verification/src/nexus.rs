//! Desired configuration of a nexus, its pending-operation record, and
//! the store keys under which both projections are filed.
//!
//! A `NexusSpec` is mutated only through its operation transaction:
//! `start_op` records the single pending operation, `set_op_result`
//! records the data-plane outcome, and `commit_op` applies the effect
//! exactly when the recorded outcome is success, clearing the record
//! either way.

use vstd::prelude::*;
use crate::errors::{ReplyError, ReplyErrorKind, ResourceKind};
use crate::nexus_child::{children_equal, NexusChild, NexusChildView};
use crate::store::{OperationSequence, OperationSequenceView, SpecStatus, StorableObjectType};
use crate::table::Storable;
use crate::transport::{
    clone_children, clone_opt_string, opt_string_equal, Child, ChildState, ChildStateReason,
    ChildUri, CreateNexus, CreateNexusView, DestroyNexus, NexusId, NexusNvmfConfig,
    NexusShareProtocol, NexusStatus, NexusView, NodeId, Protocol, ReplicaId, VolumeId,
};

verus! {

/// Reference to a managed replica used as a nexus child: the replica's
/// unique identifier together with the URI it is shared on.
#[derive(Debug)]
pub struct ReplicaUri {
    uuid: ReplicaId,
    share_uri: ChildUri,
}

/// Mathematical mirror of [`ReplicaUri`].
#[verifier::ext_equal]
pub struct ReplicaUriView {
    pub uuid: Seq<char>,
    pub share_uri: Seq<char>,
}

impl View for ReplicaUri {
    type V = ReplicaUriView;

    closed spec fn view(&self) -> ReplicaUriView {
        ReplicaUriView { uuid: self.uuid@, share_uri: self.share_uri@ }
    }
}

impl ReplicaUri {
    /// Build a replica reference from the replica's identifier and its
    /// share URI.
    pub fn new(uuid: &ReplicaId, share_uri: &ChildUri) -> (r: ReplicaUri)
        ensures
            r@.uuid == uuid@,
            r@.share_uri == share_uri@,
    {
        ReplicaUri { uuid: uuid.clone(), share_uri: share_uri.clone() }
    }

    /// The replica's unique identifier.
    pub fn uuid(&self) -> (r: &ReplicaId)
        ensures
            r@ == self@.uuid,
    {
        &self.uuid
    }

    /// The URI the replica is shared on.
    pub fn uri(&self) -> (r: &ChildUri)
        ensures
            r@ == self@.share_uri,
    {
        &self.share_uri
    }
}

impl Clone for ReplicaUri {
    /// A copy of a replica reference reads the same as its original.
    fn clone(&self) -> (r: ReplicaUri)
        ensures
            r@ == self@,
    {
        ReplicaUri { uuid: self.uuid.clone(), share_uri: self.share_uri.clone() }
    }
}

impl PartialEq for ReplicaUri {
    /// Replica references are equal when identifier and URI read the same.
    fn eq(&self, other: &ReplicaUri) -> (r: bool) {
        self.uuid == other.uuid && self.share_uri == other.share_uri
    }
}

impl vstd::std_specs::cmp::PartialEqSpecImpl for ReplicaUri {
    open spec fn obeys_eq_spec() -> bool {
        true
    }

    open spec fn eq_spec(&self, other: &ReplicaUri) -> bool {
        self@ == other@
    }
}

/// The operations a nexus spec can have in flight.
#[derive(Debug)]
pub enum NexusOperation {
    Create,
    Destroy,
    Shutdown,
    Share(NexusShareProtocol),
    Unshare,
    AddChild(NexusChild),
    RemoveChild(NexusChild),
}

/// Mathematical mirror of [`NexusOperation`].
#[verifier::ext_equal]
pub enum NexusOperationView {
    Create,
    Destroy,
    Shutdown,
    Share(NexusShareProtocol),
    Unshare,
    AddChild(NexusChildView),
    RemoveChild(NexusChildView),
}

impl View for NexusOperation {
    type V = NexusOperationView;

    open spec fn view(&self) -> NexusOperationView {
        match self {
            NexusOperation::Create => NexusOperationView::Create,
            NexusOperation::Destroy => NexusOperationView::Destroy,
            NexusOperation::Shutdown => NexusOperationView::Shutdown,
            NexusOperation::Share(p) => NexusOperationView::Share(*p),
            NexusOperation::Unshare => NexusOperationView::Unshare,
            NexusOperation::AddChild(c) => NexusOperationView::AddChild(c@),
            NexusOperation::RemoveChild(c) => NexusOperationView::RemoveChild(c@),
        }
    }
}

impl Clone for NexusOperation {
    /// A copy of an operation reads the same as its original.
    fn clone(&self) -> (r: NexusOperation)
        ensures
            r@ == self@,
    {
        match self {
            NexusOperation::Create => NexusOperation::Create,
            NexusOperation::Destroy => NexusOperation::Destroy,
            NexusOperation::Shutdown => NexusOperation::Shutdown,
            NexusOperation::Share(p) => NexusOperation::Share(*p),
            NexusOperation::Unshare => NexusOperation::Unshare,
            NexusOperation::AddChild(c) => NexusOperation::AddChild(c.clone()),
            NexusOperation::RemoveChild(c) => NexusOperation::RemoveChild(c.clone()),
        }
    }
}

/// Record of the one operation in flight on a nexus spec.
#[derive(Debug)]
pub struct NexusOperationState {
    /// The operation that was started.
    pub operation: NexusOperation,
    /// The recorded data-plane outcome, once one arrived.
    pub result: Option<bool>,
}

/// Mathematical mirror of [`NexusOperationState`].
#[verifier::ext_equal]
pub struct NexusOperationStateView {
    pub operation: NexusOperationView,
    pub result: Option<bool>,
}

impl View for NexusOperationState {
    type V = NexusOperationStateView;

    open spec fn view(&self) -> NexusOperationStateView {
        NexusOperationStateView { operation: self.operation@, result: self.result }
    }
}

impl Clone for NexusOperationState {
    /// A copy of an operation record reads the same as its original.
    fn clone(&self) -> (r: NexusOperationState)
        ensures
            r@ == self@,
    {
        NexusOperationState { operation: self.operation.clone(), result: self.result }
    }
}

/// Status of a nexus spec.
pub type NexusSpecStatus = SpecStatus<NexusStatus>;

/// Desired configuration of a nexus.
#[derive(Debug)]
pub struct NexusSpec {
    /// Unique identifier of the nexus.
    pub uuid: NexusId,
    /// Name of the nexus.
    pub name: String,
    /// Node which should host the nexus.
    pub node: NodeId,
    /// Desired children.
    pub children: Vec<NexusChild>,
    /// Size of the nexus in bytes.
    pub size: u64,
    /// Position of the spec in the resource lifecycle.
    pub spec_status: NexusSpecStatus,
    /// Desired share protocol.
    pub share: Protocol,
    /// Managed by the control plane.
    pub managed: bool,
    /// Volume which owns the nexus, if any.
    pub owner: Option<VolumeId>,
    /// Per-resource serialization slot.
    pub sequencer: OperationSequence,
    /// Record of the operation in flight, if any.
    pub operation: Option<NexusOperationState>,
    /// NVMf configuration of the target, if any.
    pub nvmf_config: Option<NexusNvmfConfig>,
}

/// Mathematical mirror of [`NexusSpec`].
#[verifier::ext_equal]
pub struct NexusSpecView {
    pub uuid: Seq<char>,
    pub name: Seq<char>,
    pub node: Seq<char>,
    pub children: Seq<NexusChildView>,
    pub size: u64,
    pub spec_status: NexusSpecStatus,
    pub share: Protocol,
    pub managed: bool,
    pub owner: Option<Seq<char>>,
    pub sequencer: OperationSequenceView,
    pub operation: Option<NexusOperationStateView>,
    pub nvmf_config: Option<NexusNvmfConfig>,
}

impl View for NexusSpec {
    type V = NexusSpecView;

    open spec fn view(&self) -> NexusSpecView {
        NexusSpecView {
            uuid: self.uuid@,
            name: self.name@,
            node: self.node@,
            children: self.children@.map_values(|c: NexusChild| c@),
            size: self.size,
            spec_status: self.spec_status,
            share: self.share,
            managed: self.managed,
            owner: match self.owner {
                Some(ref o) => Some(o@),
                None => None,
            },
            sequencer: self.sequencer@,
            operation: match self.operation {
                Some(ref o) => Some(o@),
                None => None,
            },
            nvmf_config: self.nvmf_config,
        }
    }
}

impl Clone for NexusSpec {
    /// A copy of a nexus spec reads the same as its original.
    fn clone(&self) -> (r: NexusSpec)
        ensures
            r@ == self@,
    {
        let r = NexusSpec {
            uuid: self.uuid.clone(),
            name: self.name.clone(),
            node: self.node.clone(),
            children: clone_children(&self.children),
            size: self.size,
            spec_status: self.spec_status,
            share: self.share,
            managed: self.managed,
            owner: clone_opt_string(&self.owner),
            sequencer: self.sequencer.clone(),
            operation: match &self.operation {
                Some(o) => Some(o.clone()),
                None => None,
            },
            nvmf_config: self.nvmf_config,
        };
        proof {
            assert(r@ =~= self@);
        }
        r
    }
}

/// The predicate keeping every child other than the given one.
pub open spec fn keeps_other_children(c: NexusChildView) -> spec_fn(NexusChildView) -> bool {
    |x: NexusChildView| x != c
}

impl NexusSpecView {
    /// The spec a fresh creation request gives rise to.
    pub open spec fn from_request(req: CreateNexusView) -> NexusSpecView {
        NexusSpecView {
            uuid: req.uuid,
            name: req.nexus_name(),
            node: req.node,
            children: req.children,
            size: req.size,
            spec_status: SpecStatus::Creating,
            share: Protocol::Off,
            managed: req.managed,
            owner: req.owner,
            sequencer: OperationSequenceView { uuid: req.uuid, busy: false },
            operation: None,
            nvmf_config: req.config,
        }
    }

    /// Whether an operation is in flight.
    pub open spec fn pending_op(self) -> bool {
        self.operation is Some
    }

    /// The spec with an operation freshly recorded and no outcome yet.
    pub open spec fn started(self, op: NexusOperationView) -> NexusSpecView {
        NexusSpecView {
            operation: Some(NexusOperationStateView { operation: op, result: None }),
            ..self
        }
    }

    /// The spec with the data-plane outcome recorded, when an operation
    /// is in flight; unchanged otherwise.
    pub open spec fn with_result(self, result: bool) -> NexusSpecView {
        match self.operation {
            Some(st) => NexusSpecView {
                operation: Some(
                    NexusOperationStateView { operation: st.operation, result: Some(result) },
                ),
                ..self
            },
            None => self,
        }
    }

    /// The spec with its operation record cleared.
    pub open spec fn cleared(self) -> NexusSpecView {
        NexusSpecView { operation: None, ..self }
    }

    /// The effect of a committed operation on the spec.
    pub open spec fn apply_op(self, op: NexusOperationView) -> NexusSpecView {
        match op {
            NexusOperationView::Create => NexusSpecView {
                spec_status: SpecStatus::Created(NexusStatus::Online),
                ..self
            },
            NexusOperationView::Destroy => NexusSpecView {
                spec_status: SpecStatus::Deleted,
                ..self
            },
            NexusOperationView::Shutdown => NexusSpecView {
                spec_status: SpecStatus::Created(NexusStatus::Shutdown),
                ..self
            },
            NexusOperationView::Share(p) => NexusSpecView { share: p.to_protocol(), ..self },
            NexusOperationView::Unshare => NexusSpecView { share: Protocol::Off, ..self },
            NexusOperationView::AddChild(c) => NexusSpecView {
                children: self.children.push(c),
                ..self
            },
            NexusOperationView::RemoveChild(c) => NexusSpecView {
                children: self.children.filter(keeps_other_children(c)),
                ..self
            },
        }
    }

    /// The spec a commit results in: the recorded operation's effect when
    /// its outcome is success, no effect otherwise; the record is cleared
    /// either way.
    pub open spec fn committed(self) -> NexusSpecView {
        match self.operation {
            Some(st) => if st.result == Some(true) {
                self.apply_op(st.operation).cleared()
            } else {
                self.cleared()
            },
            None => self.cleared(),
        }
    }

    /// Whether one of the children is the given replica.
    pub open spec fn contains_replica(self, uuid: Seq<char>) -> bool {
        exists|i: int|
            0 <= i < self.children.len() && ((#[trigger] self.children[i]) matches
                NexusChildView::Replica(r) && r.uuid == uuid)
    }

    /// Whether the spec has been shut down.
    pub open spec fn is_shutdown(self) -> bool {
        self.spec_status == SpecStatus::Created(NexusStatus::Shutdown)
    }

    /// Whether the spec describes what the creation request asked for:
    /// every field the request fixes reads the same, no operation is in
    /// flight, and the nexus is not shared.
    pub open spec fn matches_request(self, req: CreateNexusView) -> bool {
        &&& self.uuid == req.uuid
        &&& self.name == req.nexus_name()
        &&& self.node == req.node
        &&& self.children == req.children
        &&& self.size == req.size
        &&& self.share == Protocol::Off
        &&& self.managed == req.managed
        &&& self.owner == req.owner
        &&& self.operation is None
        &&& self.nvmf_config == req.config
    }

    /// Whether an observed nexus agrees with the spec: same node, same
    /// share protocol, and the same children by URI, in order.
    pub open spec fn matches_state(self, state: NexusView) -> bool {
        &&& self.share == state.share
        &&& self.node == state.node
        &&& self.children.len() == state.children.len()
        &&& forall|i: int|
            0 <= i < self.children.len() ==> (#[trigger] self.children[i]).uri()
                == state.children[i].uri
    }

    /// The runtime projection of the spec, before anything is observed.
    pub open spec fn runtime(self) -> NexusView {
        NexusView {
            node: self.node,
            name: self.name,
            uuid: self.uuid,
            size: self.size,
            status: NexusStatus::Unknown,
            children: self.children.map_values(
                |c: NexusChildView| crate::transport::ChildView {
                    uri: c.uri(),
                    state: ChildState::Unknown,
                    rebuild_progress: None,
                    state_reason: ChildStateReason::Unknown,
                },
            ),
            device_uri: Seq::empty(),
            rebuilds: 0,
            share: self.share,
        }
    }

    /// The creation request that would re-create this spec.
    pub open spec fn create_request(self) -> CreateNexusView {
        CreateNexusView {
            node: self.node,
            uuid: self.uuid,
            name: None,
            size: self.size,
            children: self.children,
            managed: self.managed,
            owner: self.owner,
            config: None,
        }
    }
}

/// Remove every child that reads the same as the given one.
fn remove_child(children: &Vec<NexusChild>, child: &NexusChild) -> (r: Vec<NexusChild>)
    ensures
        r@.map_values(|c: NexusChild| c@) == children@.map_values(|c: NexusChild| c@).filter(
            keeps_other_children(child@),
        ),
{
    let ghost s = children@.map_values(|c: NexusChild| c@);
    let ghost pred = keeps_other_children(child@);
    let mut out: Vec<NexusChild> = Vec::new();
    let mut i: usize = 0;
    proof {
        assert(s.subrange(0, 0).filter(pred) =~= Seq::<NexusChildView>::empty().filter(pred));
        reveal(Seq::filter);
    }
    while i < children.len()
        invariant
            i <= children@.len(),
            s == children@.map_values(|c: NexusChild| c@),
            pred == keeps_other_children(child@),
            out@.map_values(|c: NexusChild| c@) == s.subrange(0, i as int).filter(pred),
        decreases children@.len() - i,
    {
        let ghost prefix = s.subrange(0, i as int);
        let ghost next = s.subrange(0, i + 1 as int);
        proof {
            assert(next.drop_last() =~= prefix);
            assert(next.last() == s[i as int]);
            reveal(Seq::filter);
            assert(next.filter(pred) == if pred(s[i as int]) {
                prefix.filter(pred).push(s[i as int])
            } else {
                prefix.filter(pred)
            });
        }
        let keep = !(children[i] == *child);
        if keep {
            out.push(children[i].clone());
            proof {
                assert(out@.map_values(|c: NexusChild| c@) =~= prefix.filter(pred).push(
                    s[i as int],
                ));
            }
        }
        i = i + 1;
    }
    proof {
        assert(s.subrange(0, s.len() as int) =~= s);
    }
    out
}

impl NexusSpec {
    /// The spec a fresh creation request gives rise to: status
    /// `Creating`, not shared, no operation in flight, a free sequencer
    /// slot keyed by the nexus identifier.
    pub fn from_request(request: &CreateNexus) -> (r: NexusSpec)
        ensures
            r@ == NexusSpecView::from_request(request@),
    {
        let r = NexusSpec {
            uuid: request.uuid.clone(),
            name: request.name(),
            node: request.node.clone(),
            children: clone_children(&request.children),
            size: request.size,
            spec_status: SpecStatus::Creating,
            share: Protocol::Off,
            managed: request.managed,
            owner: clone_opt_string(&request.owner),
            sequencer: OperationSequence::new(request.uuid.clone()),
            operation: None,
            nvmf_config: request.config,
        };
        proof {
            assert(r@ =~= NexusSpecView::from_request(request@));
        }
        r
    }

    /// Whether one of the children is the given replica.
    pub fn contains_replica(&self, uuid: &ReplicaId) -> (r: bool)
        ensures
            r == self@.contains_replica(uuid@),
    {
        let mut i: usize = 0;
        while i < self.children.len()
            invariant
                i <= self.children@.len(),
                forall|j: int|
                    0 <= j < i ==> !((#[trigger] self.children@[j]@) matches
                        NexusChildView::Replica(r) && r.uuid == uuid@),
            decreases self.children@.len() - i,
        {
            match &self.children[i] {
                NexusChild::Replica(replica) => {
                    if *replica.uuid() == *uuid {
                        proof {
                            assert(self@.children[i as int] matches NexusChildView::Replica(r)
                                && r.uuid == uuid@);
                        }
                        return true;
                    }
                },
                NexusChild::Uri(_) => {},
            }
            i = i + 1;
        }
        proof {
            assert forall|i: int| 0 <= i < self@.children.len() implies !((
            #[trigger] self@.children[i]) matches NexusChildView::Replica(r) && r.uuid
                == uuid@) by {
                assert(self@.children[i] == self.children@[i]@);
            }
        }
        false
    }

    /// Clear the owning volume; clearing an absent owner is a no-op.
    pub fn disowned_by_volume(&mut self)
        ensures
            final(self)@ == (NexusSpecView { owner: None, ..old(self)@ }),
    {
        self.owner = None;
        proof {
            assert(self@ =~= NexusSpecView { owner: None, ..old(self)@ });
        }
    }

    /// Whether the spec has been shut down.
    pub fn is_shutdown(&self) -> (r: bool)
        ensures
            r == self@.is_shutdown(),
    {
        matches!(self.spec_status, SpecStatus::Created(NexusStatus::Shutdown))
    }

    /// Whether an operation is in flight.
    pub fn pending_op(&self) -> (r: bool)
        ensures
            r == self@.pending_op(),
    {
        self.operation.is_some()
    }

    /// Record an operation, unless one is already in flight: at most one
    /// operation is pending on a spec at any time.
    pub fn start_op(&mut self, operation: NexusOperation) -> (r: Result<(), ReplyError>)
        ensures
            r is Ok <==> old(self)@.operation is None,
            r is Ok ==> final(self)@ == old(self)@.started(operation@),
            r is Err ==> final(self)@ == old(self)@,
            r matches Err(e) ==> e.kind == ReplyErrorKind::Conflict && e.resource
                == ResourceKind::Nexus,
    {
        if self.operation.is_some() {
            Err(ReplyError::op_in_progress(ResourceKind::Nexus))
        } else {
            self.operation = Some(NexusOperationState { operation, result: None });
            proof {
                assert(self@ =~= old(self)@.started(operation@));
            }
            Ok(())
        }
    }

    /// Record the data-plane outcome of the operation in flight.
    pub fn set_op_result(&mut self, result: bool)
        ensures
            final(self)@ == old(self)@.with_result(result),
    {
        match &mut self.operation {
            Some(op) => {
                op.result = Some(result);
            },
            None => {},
        }
        proof {
            assert(self@ =~= old(self)@.with_result(result));
        }
    }

    /// Commit the operation in flight: apply its effect exactly when the
    /// recorded outcome is success, and clear the record either way.
    pub fn commit_op(&mut self)
        ensures
            final(self)@ == old(self)@.committed(),
    {
        let pending = match &self.operation {
            Some(st) => Some(st.clone()),
            None => None,
        };
        match pending {
            Some(st) => {
                match st.result {
                    Some(true) => {
                        match st.operation {
                            NexusOperation::Destroy => {
                                self.spec_status = SpecStatus::Deleted;
                            },
                            NexusOperation::Create => {
                                self.spec_status = SpecStatus::Created(NexusStatus::Online);
                            },
                            NexusOperation::Share(share) => {
                                self.share = Protocol::from(share);
                            },
                            NexusOperation::Unshare => {
                                self.share = Protocol::Off;
                            },
                            NexusOperation::Shutdown => {
                                self.spec_status = SpecStatus::Created(NexusStatus::Shutdown);
                            },
                            NexusOperation::AddChild(c) => {
                                self.children.push(c);
                            },
                            NexusOperation::RemoveChild(c) => {
                                let filtered = remove_child(&self.children, &c);
                                self.children = filtered;
                            },
                        }
                    },
                    _ => {},
                }
            },
            None => {},
        }
        self.operation = None;
        proof {
            let b = old(self)@;
            match b.operation {
                Some(st) => {
                    if st.result == Some(true) {
                        match st.operation {
                            NexusOperationView::AddChild(c) => {
                                assert(self@.children =~= b.apply_op(st.operation).children);
                                assert(self@ =~= b.committed());
                            },
                            NexusOperationView::RemoveChild(c) => {
                                assert(self@.children == b.children.filter(
                                    keeps_other_children(c),
                                ));
                                assert(self@ =~= b.committed());
                            },
                            _ => {
                                assert(self@ =~= b.committed());
                            },
                        }
                    } else {
                        assert(self@ =~= b.committed());
                    }
                },
                None => {
                    assert(self@ =~= b.committed());
                },
            }
        }
    }

    /// Unconditionally clear the operation record; used on recovery.
    pub fn clear_op(&mut self)
        ensures
            final(self)@ == old(self)@.cleared(),
    {
        self.operation = None;
        proof {
            assert(self@ =~= old(self)@.cleared());
        }
    }

    /// Whether the spec describes what the creation request asked for.
    pub fn matches_request(&self, request: &CreateNexus) -> (r: bool)
        ensures
            r == self@.matches_request(request@),
    {
        let name = request.name();
        self.uuid == request.uuid && self.name == name && self.node == request.node
            && children_equal(&self.children, &request.children) && self.size == request.size
            && matches!(self.share, Protocol::Off) && self.managed == request.managed
            && opt_string_equal(&self.owner, &request.owner) && self.operation.is_none() && (
        match (&self.nvmf_config, &request.config) {
            (Some(a), Some(b)) => a.min_cntlid == b.min_cntlid && a.max_cntlid == b.max_cntlid
                && a.resv_key == b.resv_key,
            (None, None) => true,
            _ => false,
        })
    }

    /// Whether an observed nexus agrees with the spec.
    pub fn matches_state(&self, state: &crate::transport::Nexus) -> (r: bool)
        ensures
            r == self@.matches_state(state@),
    {
        if !(matches!((self.share, state.share), (Protocol::Off, Protocol::Off) | (
        Protocol::Nvmf,
        Protocol::Nvmf,
        ))) {
            return false;
        }
        if !(self.node == state.node) {
            return false;
        }
        if self.children.len() != state.children.len() {
            return false;
        }
        let mut i: usize = 0;
        while i < self.children.len()
            invariant
                i <= self.children@.len(),
                self.children@.len() == state.children@.len(),
                forall|j: int| 0 <= j < i ==> (#[trigger] self.children@[j]@).uri()
                    == state.children@[j]@.uri,
            decreases self.children@.len() - i,
        {
            let uri = self.children[i].uri();
            if !(uri == state.children[i].uri) {
                proof {
                    assert(self@.children[i as int] == self.children@[i as int]@);
                    assert(state@.children[i as int] == state.children@[i as int]@);
                }
                return false;
            }
            i = i + 1;
        }
        proof {
            assert forall|j: int| 0 <= j < self@.children.len() implies (
            #[trigger] self@.children[j]).uri() == state@.children[j].uri by {
                assert(self@.children[j] == self.children@[j]@);
                assert(state@.children[j] == state.children@[j]@);
            }
        }
        true
    }

    /// The runtime projection of the spec, before anything is observed.
    pub fn to_runtime(&self) -> (r: crate::transport::Nexus)
        ensures
            r@ == self@.runtime(),
    {
        let mut children: Vec<Child> = Vec::new();
        let mut i: usize = 0;
        while i < self.children.len()
            invariant
                i <= self.children@.len(),
                children@.len() == i,
                forall|j: int| 0 <= j < i ==> children@[j]@ == (crate::transport::ChildView {
                    uri: (#[trigger] self.children@[j]@).uri(),
                    state: ChildState::Unknown,
                    rebuild_progress: None,
                    state_reason: ChildStateReason::Unknown,
                }),
            decreases self.children@.len() - i,
        {
            let uri = self.children[i].uri();
            children.push(
                Child {
                    uri,
                    state: ChildState::Unknown,
                    rebuild_progress: None,
                    state_reason: ChildStateReason::Unknown,
                },
            );
            i = i + 1;
        }
        let r = crate::transport::Nexus {
            node: self.node.clone(),
            name: self.name.clone(),
            uuid: self.uuid.clone(),
            size: self.size,
            status: NexusStatus::Unknown,
            children,
            device_uri: String::new(),
            rebuilds: 0,
            share: self.share,
        };
        proof {
            assert(r@.children =~= self@.runtime().children);
            assert(r@ =~= self@.runtime());
        }
        r
    }

    /// The creation request that would re-create this spec.
    pub fn create_request(&self) -> (r: CreateNexus)
        ensures
            r@ == self@.create_request(),
    {
        let r = CreateNexus::new(
            &self.node,
            &self.uuid,
            self.size,
            &self.children,
            self.managed,
            self.owner.as_ref(),
            None,
        );
        proof {
            assert(r@ =~= self@.create_request());
        }
        r
    }

    /// The destroy request for this spec.
    pub fn destroy_request(&self) -> (r: DestroyNexus)
        ensures
            r@.node == self@.node,
            r@.uuid == self@.uuid,
    {
        DestroyNexus::new(self.node.clone(), self.uuid.clone())
    }

    /// The store key of this spec.
    pub fn key(&self) -> (r: NexusSpecKey)
        ensures
            r@ == self@.uuid,
    {
        NexusSpecKey::new(&self.uuid)
    }
}

impl Storable for NexusSpec {
    /// Nexus specs are filed under the nexus identifier.
    open spec fn key_of(v: NexusSpecView) -> Seq<char> {
        v.uuid
    }

    fn table_key(&self) -> (r: String)
        ensures
            r@ == Self::key_of(self@),
    {
        self.uuid.clone()
    }

    fn duplicate(&self) -> (r: NexusSpec)
        ensures
            r@ == self@,
    {
        self.clone()
    }
}

/// Nexus information: the desired configuration together with the
/// current runtime status, if one has been observed.
#[derive(Debug)]
pub struct Nexus {
    /// Current status of the nexus.
    pub status: Option<NexusStatus>,
    /// Desired nexus configuration.
    pub spec: NexusSpec,
}

/// Mathematical mirror of [`Nexus`].
#[verifier::ext_equal]
pub struct StoredNexusView {
    pub status: Option<NexusStatus>,
    pub spec: NexusSpecView,
}

impl View for Nexus {
    type V = StoredNexusView;

    open spec fn view(&self) -> StoredNexusView {
        StoredNexusView {
            status: self.status,
            spec: self.spec@,
        }
    }
}

/// Runtime state of a nexus, as refreshed from its node.
#[derive(Debug)]
pub struct NexusState {
    /// The observed nexus.
    pub nexus: crate::transport::Nexus,
}

/// Mathematical mirror of [`NexusState`].
#[verifier::ext_equal]
pub struct NexusStateView {
    pub nexus: NexusView,
}

impl View for NexusState {
    type V = NexusStateView;

    open spec fn view(&self) -> NexusStateView {
        NexusStateView { nexus: self.nexus@ }
    }
}

impl Clone for NexusState {
    /// A copy of a nexus state reads the same as its original.
    fn clone(&self) -> (r: NexusState)
        ensures
            r@ == self@,
    {
        NexusState { nexus: self.nexus.clone() }
    }
}

impl From<crate::transport::Nexus> for NexusState {
    /// Wrap an observed nexus as the cached state entry.
    fn from(nexus: crate::transport::Nexus) -> (r: NexusState) {
        NexusState { nexus }
    }
}

impl vstd::std_specs::convert::FromSpecImpl<crate::transport::Nexus> for NexusState {
    open spec fn obeys_from_spec() -> bool {
        true
    }

    open spec fn from_spec(nexus: crate::transport::Nexus) -> NexusState {
        NexusState { nexus }
    }
}

impl Storable for NexusState {
    /// Nexus states are filed under the nexus identifier.
    open spec fn key_of(v: NexusStateView) -> Seq<char> {
        v.nexus.uuid
    }

    fn table_key(&self) -> (r: String)
        ensures
            r@ == Self::key_of(self@),
    {
        self.nexus.uuid.clone()
    }

    fn duplicate(&self) -> (r: NexusState)
        ensures
            r@ == self@,
    {
        self.clone()
    }
}

/// Key under which the store files a nexus spec.
#[derive(Debug)]
pub struct NexusSpecKey(NexusId);

impl View for NexusSpecKey {
    type V = Seq<char>;

    closed spec fn view(&self) -> Seq<char> {
        self.0@
    }
}

impl NexusSpecKey {
    /// The spec key of the given nexus.
    pub fn new(id: &NexusId) -> (r: NexusSpecKey)
        ensures
            r@ == id@,
    {
        NexusSpecKey(id.clone())
    }

    /// The kind component of the key.
    pub fn key_type(&self) -> (r: StorableObjectType)
        ensures
            r == StorableObjectType::NexusSpec,
    {
        StorableObjectType::NexusSpec
    }

    /// The identifier component of the key.
    pub fn key_uuid(&self) -> (r: String)
        ensures
            r@ == self@,
    {
        self.0.clone()
    }
}

/// Key under which the store files a nexus state.
#[derive(Debug)]
pub struct NexusStateKey(NexusId);

impl View for NexusStateKey {
    type V = Seq<char>;

    closed spec fn view(&self) -> Seq<char> {
        self.0@
    }
}

impl NexusStateKey {
    /// The state key of the given nexus.
    pub fn new(id: &NexusId) -> (r: NexusStateKey)
        ensures
            r@ == id@,
    {
        NexusStateKey(id.clone())
    }

    /// The kind component of the key.
    pub fn key_type(&self) -> (r: StorableObjectType)
        ensures
            r == StorableObjectType::NexusState,
    {
        StorableObjectType::NexusState
    }

    /// The identifier component of the key.
    pub fn key_uuid(&self) -> (r: String)
        ensures
            r@ == self@,
    {
        self.0.clone()
    }
}

impl NexusState {
    /// The store key of this state.
    pub fn key(&self) -> (r: NexusStateKey)
        ensures
            r@ == self@.nexus.uuid,
    {
        NexusStateKey::new(&self.nexus.uuid)
    }
}

} // verus!
