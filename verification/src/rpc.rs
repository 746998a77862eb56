//! Wire-level messages and the exact conversions between them and the
//! typed model.
//!
//! These mirror the gRPC message shapes: enumerations travel as raw
//! integers, identifiers as plain strings, and every incoming message
//! is validated field by field before it becomes a typed value.  The
//! transports that move these messages live outside the library.

use vstd::prelude::*;
use crate::errors::{ReplyError, ReplyErrorKind, ResourceKind};
use crate::transport::{
    Child, ChildState, ChildStateReason, ChildView, Deregister, Filter, FilterView, Nexus,
    NexusStatus, NexusView, Node, Pool, Protocol, Register, Replica,
};
use crate::nexus::NexusSpecStatus;
use crate::store::SpecStatus;

verus! {

/// The protocol a raw wire value names.
pub open spec fn protocol_of_i32(i: i32) -> Option<Protocol> {
    if i == 0 {
        Some(Protocol::Off)
    } else if i == 1 {
        Some(Protocol::Nvmf)
    } else {
        None
    }
}

/// Decode a protocol from its wire value.
pub fn protocol_from_i32(i: i32) -> (r: Option<Protocol>)
    ensures
        r == protocol_of_i32(i),
{
    if i == 0 {
        Some(Protocol::Off)
    } else if i == 1 {
        Some(Protocol::Nvmf)
    } else {
        None
    }
}

/// The wire value of a protocol.
pub fn protocol_to_i32(p: Protocol) -> (r: i32)
    ensures
        protocol_of_i32(r) == Some(p),
{
    match p {
        Protocol::Off => 0,
        Protocol::Nvmf => 1,
    }
}

/// The nexus status a raw wire value names.
pub open spec fn nexus_status_of_i32(i: i32) -> Option<NexusStatus> {
    if i == 0 {
        Some(NexusStatus::Unknown)
    } else if i == 1 {
        Some(NexusStatus::Online)
    } else if i == 2 {
        Some(NexusStatus::Degraded)
    } else if i == 3 {
        Some(NexusStatus::Faulted)
    } else if i == 4 {
        Some(NexusStatus::Shutdown)
    } else {
        None
    }
}

/// Decode a nexus status from its wire value.
pub fn nexus_status_from_i32(i: i32) -> (r: Option<NexusStatus>)
    ensures
        r == nexus_status_of_i32(i),
{
    if i == 0 {
        Some(NexusStatus::Unknown)
    } else if i == 1 {
        Some(NexusStatus::Online)
    } else if i == 2 {
        Some(NexusStatus::Degraded)
    } else if i == 3 {
        Some(NexusStatus::Faulted)
    } else if i == 4 {
        Some(NexusStatus::Shutdown)
    } else {
        None
    }
}

/// The wire value of a nexus status.
pub fn nexus_status_to_i32(s: NexusStatus) -> (r: i32)
    ensures
        nexus_status_of_i32(r) == Some(s),
{
    match s {
        NexusStatus::Unknown => 0,
        NexusStatus::Online => 1,
        NexusStatus::Degraded => 2,
        NexusStatus::Faulted => 3,
        NexusStatus::Shutdown => 4,
    }
}

/// The child state a raw wire value names.
pub open spec fn child_state_of_i32(i: i32) -> Option<ChildState> {
    if i == 0 {
        Some(ChildState::Unknown)
    } else if i == 1 {
        Some(ChildState::Online)
    } else if i == 2 {
        Some(ChildState::Degraded)
    } else if i == 3 {
        Some(ChildState::Faulted)
    } else {
        None
    }
}

/// Decode a child state from its wire value.
pub fn child_state_from_i32(i: i32) -> (r: Option<ChildState>)
    ensures
        r == child_state_of_i32(i),
{
    if i == 0 {
        Some(ChildState::Unknown)
    } else if i == 1 {
        Some(ChildState::Online)
    } else if i == 2 {
        Some(ChildState::Degraded)
    } else if i == 3 {
        Some(ChildState::Faulted)
    } else {
        None
    }
}

/// The wire value of a child state.
pub fn child_state_to_i32(s: ChildState) -> (r: i32)
    ensures
        child_state_of_i32(r) == Some(s),
{
    match s {
        ChildState::Unknown => 0,
        ChildState::Online => 1,
        ChildState::Degraded => 2,
        ChildState::Faulted => 3,
    }
}

/// Lifecycle status of a spec as it travels on the wire, without the
/// runtime sub-status.
#[derive(Clone, Copy, Debug, PartialEq, Eq, Structural)]
pub enum WireSpecStatus {
    Creating,
    Created,
    Deleting,
    Deleted,
}

/// Widen a wire status into a nexus spec status; a created spec comes
/// back with an unknown runtime status.
pub fn nexus_spec_status_from_wire(s: WireSpecStatus) -> (r: NexusSpecStatus)
    ensures
        r == match s {
            WireSpecStatus::Creating => NexusSpecStatus::Creating,
            WireSpecStatus::Created => NexusSpecStatus::Created(NexusStatus::Unknown),
            WireSpecStatus::Deleting => NexusSpecStatus::Deleting,
            WireSpecStatus::Deleted => NexusSpecStatus::Deleted,
        },
{
    match s {
        WireSpecStatus::Creating => SpecStatus::Creating,
        WireSpecStatus::Created => SpecStatus::Created(NexusStatus::Unknown),
        WireSpecStatus::Deleting => SpecStatus::Deleting,
        WireSpecStatus::Deleted => SpecStatus::Deleted,
    }
}

/// Narrow a nexus spec status onto the wire, dropping the runtime
/// sub-status.
pub fn nexus_spec_status_to_wire(s: &NexusSpecStatus) -> (r: WireSpecStatus)
    ensures
        r == match *s {
            NexusSpecStatus::Creating => WireSpecStatus::Creating,
            NexusSpecStatus::Created(_) => WireSpecStatus::Created,
            NexusSpecStatus::Deleting => WireSpecStatus::Deleting,
            NexusSpecStatus::Deleted => WireSpecStatus::Deleted,
        },
{
    match s {
        SpecStatus::Creating => WireSpecStatus::Creating,
        SpecStatus::Created(_) => WireSpecStatus::Created,
        SpecStatus::Deleting => WireSpecStatus::Deleting,
        SpecStatus::Deleted => WireSpecStatus::Deleted,
    }
}

/// A nexus child as it travels on the wire.
#[derive(Debug)]
pub struct WireChild {
    /// URI through which the child is reached.
    pub uri: String,
    /// Raw state value.
    pub state: i32,
    /// Rebuild progress, when a rebuild is running.
    pub rebuild_progress: Option<u32>,
}

/// Whether a wire child decodes.
pub open spec fn wire_child_ok(c: WireChild) -> bool {
    &&& child_state_of_i32(c.state) is Some
    &&& match c.rebuild_progress {
        Some(p) => p <= 255,
        None => true,
    }
}

/// The typed child a wire child decodes to.
pub open spec fn wire_child_value(c: WireChild) -> ChildView {
    ChildView {
        uri: c.uri@,
        state: child_state_of_i32(c.state)->Some_0,
        rebuild_progress: match c.rebuild_progress {
            Some(p) => Some(p as u8),
            None => None,
        },
        state_reason: ChildStateReason::Unknown,
    }
}

/// Decode a wire child, rejecting an unknown state value or an
/// out-of-range rebuild progress.
pub fn child_from_wire(c: &WireChild) -> (r: Result<Child, ReplyError>)
    ensures
        r is Ok <==> wire_child_ok(*c),
        r matches Ok(child) ==> child@ == wire_child_value(*c),
        r matches Err(e) ==> e.kind == ReplyErrorKind::InvalidArgument && e.resource
            == ResourceKind::Nexus,
{
    let state = match child_state_from_i32(c.state) {
        Some(s) => s,
        None => {
            return Err(ReplyError::unwrap_err(ResourceKind::Nexus));
        },
    };
    let rebuild_progress = match c.rebuild_progress {
        Some(p) => {
            if p <= 255 {
                Some(p as u8)
            } else {
                return Err(ReplyError::unwrap_err(ResourceKind::Nexus));
            }
        },
        None => None,
    };
    Ok(
        Child {
            uri: c.uri.clone(),
            state,
            rebuild_progress,
            state_reason: ChildStateReason::Unknown,
        },
    )
}

/// Put a typed child on the wire.
pub fn child_to_wire(c: &Child) -> (r: WireChild)
    ensures
        r.uri@ == c@.uri,
        child_state_of_i32(r.state) == Some(c@.state),
        r.rebuild_progress == match c@.rebuild_progress {
            Some(p) => Some(p as u32),
            None => None::<u32>,
        },
{
    WireChild {
        uri: c.uri.clone(),
        state: child_state_to_i32(c.state),
        rebuild_progress: match c.rebuild_progress {
            Some(p) => Some(p as u32),
            None => None,
        },
    }
}

/// A nexus as it travels on the wire.
#[derive(Debug)]
pub struct WireNexus {
    /// Node on which the nexus lives.
    pub node_id: String,
    /// Name of the nexus.
    pub name: String,
    /// Unique identifier; a message without one is rejected.
    pub uuid: Option<String>,
    /// Size of the nexus in bytes.
    pub size: u64,
    /// Observed children.
    pub children: Vec<WireChild>,
    /// URI of the exposed device.
    pub device_uri: String,
    /// Number of rebuilds in progress.
    pub rebuilds: u32,
    /// Raw share protocol value.
    pub share: i32,
    /// Raw status value.
    pub status: i32,
}

/// Whether a wire nexus decodes.
pub open spec fn wire_nexus_ok(w: WireNexus) -> bool {
    &&& w.uuid is Some
    &&& nexus_status_of_i32(w.status) is Some
    &&& protocol_of_i32(w.share) is Some
    &&& forall|i: int| 0 <= i < w.children@.len() ==> wire_child_ok(#[trigger] w.children@[i])
}

/// The typed nexus a wire nexus decodes to.
pub open spec fn wire_nexus_value(w: WireNexus) -> NexusView {
    NexusView {
        node: w.node_id@,
        name: w.name@,
        uuid: (w.uuid->Some_0)@,
        size: w.size,
        status: nexus_status_of_i32(w.status)->Some_0,
        children: w.children@.map_values(|c: WireChild| wire_child_value(c)),
        device_uri: w.device_uri@,
        rebuilds: w.rebuilds,
        share: protocol_of_i32(w.share)->Some_0,
    }
}

/// Decode a wire nexus: the identifier must be present, status and
/// share must name known values, and every child must decode.
pub fn nexus_from_wire(w: &WireNexus) -> (r: Result<Nexus, ReplyError>)
    ensures
        r is Ok <==> wire_nexus_ok(*w),
        r matches Ok(n) ==> n@ == wire_nexus_value(*w),
        r matches Err(e) ==> e.kind == ReplyErrorKind::InvalidArgument && e.resource
            == ResourceKind::Nexus,
{
    let uuid = match &w.uuid {
        Some(u) => u.clone(),
        None => {
            return Err(ReplyError::unwrap_err(ResourceKind::Nexus));
        },
    };
    let status = match nexus_status_from_i32(w.status) {
        Some(s) => s,
        None => {
            return Err(ReplyError::unwrap_err(ResourceKind::Nexus));
        },
    };
    let share = match protocol_from_i32(w.share) {
        Some(s) => s,
        None => {
            return Err(ReplyError::unwrap_err(ResourceKind::Nexus));
        },
    };
    let mut children: Vec<Child> = Vec::new();
    let mut i: usize = 0;
    while i < w.children.len()
        invariant
            i <= w.children@.len(),
            children@.len() == i,
            forall|j: int| 0 <= j < i ==> wire_child_ok(#[trigger] w.children@[j]),
            forall|j: int| 0 <= j < i ==> children@[j]@ == wire_child_value(
                #[trigger] w.children@[j],
            ),
        decreases w.children@.len() - i,
    {
        match child_from_wire(&w.children[i]) {
            Ok(child) => {
                children.push(child);
            },
            Err(e) => {
                return Err(e);
            },
        }
        i = i + 1;
    }
    let r = Nexus {
        node: w.node_id.clone(),
        name: w.name.clone(),
        uuid,
        size: w.size,
        status,
        children,
        device_uri: w.device_uri.clone(),
        rebuilds: w.rebuilds,
        share,
    };
    proof {
        assert(r@.children =~= wire_nexus_value(*w).children);
        assert(r@ =~= wire_nexus_value(*w));
    }
    Ok(r)
}

/// Put a typed nexus on the wire.
pub fn nexus_to_wire(n: &Nexus) -> (r: WireNexus)
    ensures
        r.node_id@ == n@.node,
        r.name@ == n@.name,
        r.uuid matches Some(u) && u@ == n@.uuid,
        r.size == n@.size,
        r.children@.len() == n@.children.len(),
        forall|i: int| 0 <= i < n@.children.len() ==> wire_child_ok(#[trigger] r.children@[i])
            && wire_child_value(r.children@[i]) == n@.children[i],
        r.device_uri@ == n@.device_uri,
        r.rebuilds == n@.rebuilds,
        protocol_of_i32(r.share) == Some(n@.share),
        nexus_status_of_i32(r.status) == Some(n@.status),
    {
    let mut children: Vec<WireChild> = Vec::new();
    let mut i: usize = 0;
    while i < n.children.len()
        invariant
            i <= n.children@.len(),
            children@.len() == i,
            forall|j: int| 0 <= j < i ==> wire_child_ok(#[trigger] children@[j])
                && wire_child_value(children@[j]) == n.children@[j]@,
        decreases n.children@.len() - i,
    {
        let c = &n.children[i];
        let wc = child_to_wire(c);
        proof {
            assert(wire_child_value(wc) =~= c@);
        }
        children.push(wc);
        i = i + 1;
    }
    proof {
        assert forall|i: int| 0 <= i < n@.children.len() implies wire_child_ok(
            #[trigger] children@[i],
        ) && wire_child_value(children@[i]) == n@.children[i] by {
            assert(n@.children[i] == n.children@[i]@);
        }
    }
    WireNexus {
        node_id: n.node.clone(),
        name: n.name.clone(),
        uuid: Some(n.uuid.clone()),
        size: n.size,
        children,
        device_uri: n.device_uri.clone(),
        rebuilds: n.rebuilds,
        share: protocol_to_i32(n.share),
        status: nexus_status_to_i32(n.status),
    }
}

/// Node registration as it travels on the wire.
#[derive(Debug)]
pub struct WireRegisterRequest {
    /// Identifier of the registering node.
    pub id: String,
    /// gRPC endpoint the node serves on.
    pub grpc_endpoint: String,
}

/// Node removal as it travels on the wire.
#[derive(Debug)]
pub struct WireDeregisterRequest {
    /// Identifier of the node to remove.
    pub id: String,
}

/// Decode a wire registration.
pub fn register_from_wire(w: &WireRegisterRequest) -> (r: Register)
    ensures
        r@.id == w.id@,
        r@.grpc_endpoint == w.grpc_endpoint@,
{
    Register { id: w.id.clone(), grpc_endpoint: w.grpc_endpoint.clone() }
}

/// Put a registration on the wire.
pub fn register_to_wire(r: &Register) -> (w: WireRegisterRequest)
    ensures
        w.id@ == r@.id,
        w.grpc_endpoint@ == r@.grpc_endpoint,
{
    WireRegisterRequest { id: r.id.clone(), grpc_endpoint: r.grpc_endpoint.clone() }
}

/// Decode a wire deregistration.
pub fn deregister_from_wire(w: &WireDeregisterRequest) -> (r: Deregister)
    ensures
        r@.id == w.id@,
{
    Deregister { id: w.id.clone() }
}

/// Put a deregistration on the wire.
pub fn deregister_to_wire(r: &Deregister) -> (w: WireDeregisterRequest)
    ensures
        w.id@ == r@.id,
{
    WireDeregisterRequest { id: r.id.clone() }
}

/// Node selection as it travels on the wire.
#[derive(Debug)]
pub struct WireNodeFilter {
    pub node_id: String,
}

/// Pool selection as it travels on the wire.
#[derive(Debug)]
pub struct WirePoolFilter {
    pub pool_id: String,
}

/// Node-and-pool selection as it travels on the wire.
#[derive(Debug)]
pub struct WireNodePoolFilter {
    pub node_id: String,
    pub pool_id: String,
}

/// Replica selection as it travels on the wire.
#[derive(Debug)]
pub struct WireReplicaFilter {
    pub replica_id: String,
}

/// Volume selection as it travels on the wire.
#[derive(Debug)]
pub struct WireVolumeFilter {
    pub volume_id: String,
}

/// The selections a replica read request can carry.
#[derive(Debug)]
pub enum WireReplicasFilter {
    Node(WireNodeFilter),
    Pool(WirePoolFilter),
    NodePool(WireNodePoolFilter),
    NodePoolReplica(WireNodePoolFilter, WireReplicaFilter),
    NodeReplica(WireNodeFilter, WireReplicaFilter),
    PoolReplica(WirePoolFilter, WireReplicaFilter),
    Replica(WireReplicaFilter),
    Volume(WireVolumeFilter),
}

/// A replica read request as it travels on the wire.
#[derive(Debug)]
pub struct GetReplicasRequest {
    /// The selection; absent means everything.
    pub filter: Option<WireReplicasFilter>,
}

/// The wire request a typed filter becomes.
pub open spec fn replicas_request_of(f: FilterView, r: GetReplicasRequest) -> bool {
    match f {
        FilterView::Node(n) => r.filter matches Some(WireReplicasFilter::Node(x)) && x.node_id@
            == n,
        FilterView::Pool(p) => r.filter matches Some(WireReplicasFilter::Pool(x)) && x.pool_id@
            == p,
        FilterView::NodePool(n, p) => r.filter matches Some(WireReplicasFilter::NodePool(x))
            && x.node_id@ == n && x.pool_id@ == p,
        FilterView::NodePoolReplica(n, p, u) => r.filter matches Some(
            WireReplicasFilter::NodePoolReplica(x, y),
        ) && x.node_id@ == n && x.pool_id@ == p && y.replica_id@ == u,
        FilterView::NodeReplica(n, u) => r.filter matches Some(
            WireReplicasFilter::NodeReplica(x, y),
        ) && x.node_id@ == n && y.replica_id@ == u,
        FilterView::PoolReplica(p, u) => r.filter matches Some(
            WireReplicasFilter::PoolReplica(x, y),
        ) && x.pool_id@ == p && y.replica_id@ == u,
        FilterView::Replica(u) => r.filter matches Some(WireReplicasFilter::Replica(x))
            && x.replica_id@ == u,
        FilterView::Volume(v) => r.filter matches Some(WireReplicasFilter::Volume(x))
            && x.volume_id@ == v,
        _ => r.filter is None,
    }
}

/// Build the wire request a replica read with this filter sends: each
/// selection becomes its wire shape; any selection replicas cannot be
/// read by asks for everything.
pub fn get_replicas_request(filter: &Filter) -> (r: GetReplicasRequest)
    ensures
        replicas_request_of(filter@, r),
{
    match filter {
        Filter::Node(id) => GetReplicasRequest {
            filter: Some(WireReplicasFilter::Node(WireNodeFilter { node_id: id.clone() })),
        },
        Filter::Pool(id) => GetReplicasRequest {
            filter: Some(WireReplicasFilter::Pool(WirePoolFilter { pool_id: id.clone() })),
        },
        Filter::NodePool(node_id, pool_id) => GetReplicasRequest {
            filter: Some(
                WireReplicasFilter::NodePool(
                    WireNodePoolFilter { node_id: node_id.clone(), pool_id: pool_id.clone() },
                ),
            ),
        },
        Filter::NodePoolReplica(node_id, pool_id, replica_id) => GetReplicasRequest {
            filter: Some(
                WireReplicasFilter::NodePoolReplica(
                    WireNodePoolFilter { node_id: node_id.clone(), pool_id: pool_id.clone() },
                    WireReplicaFilter { replica_id: replica_id.clone() },
                ),
            ),
        },
        Filter::NodeReplica(node_id, replica_id) => GetReplicasRequest {
            filter: Some(
                WireReplicasFilter::NodeReplica(
                    WireNodeFilter { node_id: node_id.clone() },
                    WireReplicaFilter { replica_id: replica_id.clone() },
                ),
            ),
        },
        Filter::PoolReplica(pool_id, replica_id) => GetReplicasRequest {
            filter: Some(
                WireReplicasFilter::PoolReplica(
                    WirePoolFilter { pool_id: pool_id.clone() },
                    WireReplicaFilter { replica_id: replica_id.clone() },
                ),
            ),
        },
        Filter::Replica(replica_id) => GetReplicasRequest {
            filter: Some(
                WireReplicasFilter::Replica(WireReplicaFilter { replica_id: replica_id.clone() }),
            ),
        },
        Filter::Volume(volume_id) => GetReplicasRequest {
            filter: Some(
                WireReplicasFilter::Volume(WireVolumeFilter { volume_id: volume_id.clone() }),
            ),
        },
        _ => GetReplicasRequest { filter: None },
    }
}

/// The selections a node read request can carry.
#[derive(Debug)]
pub enum WireNodesFilter {
    Node(WireNodeFilter),
}

/// A node read request as it travels on the wire.
#[derive(Debug)]
pub struct GetNodesRequest {
    /// The selection; absent means everything.
    pub filter: Option<WireNodesFilter>,
}

/// Build the wire request a node read with this filter sends: only a
/// node selection travels; anything else asks for everything.
pub fn get_nodes_request(filter: &Filter) -> (r: GetNodesRequest)
    ensures
        match filter@ {
            FilterView::Node(n) => r.filter matches Some(WireNodesFilter::Node(x)) && x.node_id@
                == n,
            _ => r.filter is None,
        },
{
    match filter {
        Filter::Node(id) => GetNodesRequest {
            filter: Some(WireNodesFilter::Node(WireNodeFilter { node_id: id.clone() })),
        },
        _ => GetNodesRequest { filter: None },
    }
}

/// The typed filter a node read request asks for.
pub fn nodes_request_filter(r: &GetNodesRequest) -> (f: Filter)
    ensures
        match &r.filter {
            Some(WireNodesFilter::Node(x)) => f@ == FilterView::Node(x.node_id@),
            None => f@ == FilterView::All,
        },
{
    match &r.filter {
        Some(WireNodesFilter::Node(x)) => Filter::Node(x.node_id.clone()),
        None => Filter::default(),
    }
}

/// The selections a pool read request can carry.
#[derive(Debug)]
pub enum WirePoolsFilter {
    Node(WireNodeFilter),
    Pool(WirePoolFilter),
    NodePool(WireNodePoolFilter),
}

/// A pool read request as it travels on the wire.
#[derive(Debug)]
pub struct GetPoolsRequest {
    /// The selection; absent means everything.
    pub filter: Option<WirePoolsFilter>,
}

/// The typed filter a pool read request asks for.
pub fn pools_request_filter(r: &GetPoolsRequest) -> (f: Filter)
    ensures
        match &r.filter {
            Some(WirePoolsFilter::Node(x)) => f@ == FilterView::Node(x.node_id@),
            Some(WirePoolsFilter::Pool(x)) => f@ == FilterView::Pool(x.pool_id@),
            Some(WirePoolsFilter::NodePool(x)) => f@ == FilterView::NodePool(
                x.node_id@,
                x.pool_id@,
            ),
            None => f@ == FilterView::All,
        },
{
    match &r.filter {
        Some(WirePoolsFilter::Node(x)) => Filter::Node(x.node_id.clone()),
        Some(WirePoolsFilter::Pool(x)) => Filter::Pool(x.pool_id.clone()),
        Some(WirePoolsFilter::NodePool(x)) => Filter::NodePool(
            x.node_id.clone(),
            x.pool_id.clone(),
        ),
        None => Filter::default(),
    }
}

/// What a node read sends back.
#[derive(Debug)]
pub enum GetNodesReplyKind {
    Nodes(Vec<Node>),
    Error(ReplyError),
}

/// A node read reply as it travels on the wire.
#[derive(Debug)]
pub struct GetNodesReply {
    /// The payload; a reply without one is malformed.
    pub reply: Option<GetNodesReplyKind>,
}

/// Unpack a node read reply: the listed nodes, the carried error, or
/// — for an empty reply — a malformed-response error on the node kind.
pub fn interpret_nodes_reply(reply: GetNodesReply) -> (r: Result<Vec<Node>, ReplyError>)
    ensures
        match reply.reply {
            Some(GetNodesReplyKind::Nodes(nodes)) => r matches Ok(v) && v == nodes,
            Some(GetNodesReplyKind::Error(e)) => r matches Err(re) && re == e,
            None => r matches Err(re) && re.kind == ReplyErrorKind::Internal && re.resource
                == ResourceKind::Node,
        },
{
    match reply.reply {
        Some(GetNodesReplyKind::Nodes(nodes)) => Ok(nodes),
        Some(GetNodesReplyKind::Error(e)) => Err(e),
        None => Err(ReplyError::invalid_response(ResourceKind::Node)),
    }
}

/// What a replica read sends back.
#[derive(Debug)]
pub enum GetReplicasReplyKind {
    Replicas(Vec<Replica>),
    Error(ReplyError),
}

/// A replica read reply as it travels on the wire.
#[derive(Debug)]
pub struct GetReplicasReply {
    /// The payload; a reply without one is malformed.
    pub reply: Option<GetReplicasReplyKind>,
}

/// Unpack a replica read reply.
pub fn interpret_replicas_reply(reply: GetReplicasReply) -> (r: Result<Vec<Replica>, ReplyError>)
    ensures
        match reply.reply {
            Some(GetReplicasReplyKind::Replicas(v)) => r matches Ok(rv) && rv == v,
            Some(GetReplicasReplyKind::Error(e)) => r matches Err(re) && re == e,
            None => r matches Err(re) && re.kind == ReplyErrorKind::Internal && re.resource
                == ResourceKind::Replica,
        },
{
    match reply.reply {
        Some(GetReplicasReplyKind::Replicas(v)) => Ok(v),
        Some(GetReplicasReplyKind::Error(e)) => Err(e),
        None => Err(ReplyError::invalid_response(ResourceKind::Replica)),
    }
}

/// What a replica creation sends back.
#[derive(Debug)]
pub enum CreateReplicaReplyKind {
    Replica(Replica),
    Error(ReplyError),
}

/// A replica creation reply as it travels on the wire.
#[derive(Debug)]
pub struct CreateReplicaReply {
    /// The payload; a reply without one is malformed.
    pub reply: Option<CreateReplicaReplyKind>,
}

/// Unpack a replica creation reply.
pub fn interpret_create_replica_reply(reply: CreateReplicaReply) -> (r: Result<
    Replica,
    ReplyError,
>)
    ensures
        match reply.reply {
            Some(CreateReplicaReplyKind::Replica(v)) => r matches Ok(rv) && rv == v,
            Some(CreateReplicaReplyKind::Error(e)) => r matches Err(re) && re == e,
            None => r matches Err(re) && re.kind == ReplyErrorKind::Internal && re.resource
                == ResourceKind::Replica,
        },
{
    match reply.reply {
        Some(CreateReplicaReplyKind::Replica(v)) => Ok(v),
        Some(CreateReplicaReplyKind::Error(e)) => Err(e),
        None => Err(ReplyError::invalid_response(ResourceKind::Replica)),
    }
}

/// What a replica share sends back.
#[derive(Debug)]
pub enum ShareReplicaReplyKind {
    Response(String),
    Error(ReplyError),
}

/// A replica share reply as it travels on the wire.
#[derive(Debug)]
pub struct ShareReplicaReply {
    /// The payload; a reply without one is malformed.
    pub reply: Option<ShareReplicaReplyKind>,
}

/// Unpack a replica share reply.
pub fn interpret_share_replica_reply(reply: ShareReplicaReply) -> (r: Result<String, ReplyError>)
    ensures
        match reply.reply {
            Some(ShareReplicaReplyKind::Response(v)) => r matches Ok(rv) && rv == v,
            Some(ShareReplicaReplyKind::Error(e)) => r matches Err(re) && re == e,
            None => r matches Err(re) && re.kind == ReplyErrorKind::Internal && re.resource
                == ResourceKind::Replica,
        },
{
    match reply.reply {
        Some(ShareReplicaReplyKind::Response(v)) => Ok(v),
        Some(ShareReplicaReplyKind::Error(e)) => Err(e),
        None => Err(ReplyError::invalid_response(ResourceKind::Replica)),
    }
}

/// A reply that carries only an optional error.
#[derive(Debug)]
pub struct ErrorOnlyReply {
    /// The carried error, if the call failed.
    pub error: Option<ReplyError>,
}

/// Unpack a reply that carries only an optional error.
pub fn interpret_error_only_reply(reply: ErrorOnlyReply) -> (r: Result<(), ReplyError>)
    ensures
        match reply.error {
            Some(e) => r matches Err(re) && re == e,
            None => r is Ok,
        },
{
    match reply.error {
        Some(e) => Err(e),
        None => Ok(()),
    }
}

/// What a pool read sends back.
#[derive(Debug)]
pub enum GetPoolsReplyKind {
    Pools(Vec<Pool>),
    Error(ReplyError),
}

/// A pool read reply as it travels on the wire.
#[derive(Debug)]
pub struct GetPoolsReply {
    /// The payload; a reply without one is malformed.
    pub reply: Option<GetPoolsReplyKind>,
}

/// What a pool creation sends back.
#[derive(Debug)]
pub enum CreatePoolReplyKind {
    Pool(Pool),
    Error(ReplyError),
}

/// A pool creation reply as it travels on the wire.
#[derive(Debug)]
pub struct CreatePoolReply {
    /// The payload; a reply without one is malformed.
    pub reply: Option<CreatePoolReplyKind>,
}

/// A pool creation request as it travels on the wire.
#[derive(Debug)]
pub struct CreatePoolRequest {
    /// Node which should host the pool.
    pub node_id: String,
    /// Identifier for the new pool.
    pub pool_id: String,
    /// Backing disks.
    pub disks: Vec<String>,
}

/// A pool destruction request as it travels on the wire.
#[derive(Debug)]
pub struct DestroyPoolRequest {
    /// Node hosting the pool.
    pub node_id: String,
    /// Identifier of the pool to destroy.
    pub pool_id: String,
}

/// A replica creation request as it travels on the wire.
#[derive(Debug)]
pub struct CreateReplicaRequest {
    /// Node which should host the replica.
    pub node_id: String,
    /// Unique identifier for the new replica.
    pub replica_id: String,
    /// Pool providing the replica's space.
    pub pool_id: String,
    /// Size of the replica in bytes.
    pub size: u64,
    /// Thin provisioning.
    pub thin: bool,
    /// Raw share protocol value.
    pub share: i32,
    /// Managed by the control plane.
    pub managed: bool,
}

/// Build the wire request a replica creation sends.
pub fn create_replica_request(req: &crate::replica::CreateReplica) -> (r: CreateReplicaRequest)
    ensures
        r.node_id@ == req@.node,
        r.replica_id@ == req@.uuid,
        r.pool_id@ == req@.pool,
        r.size == req@.size,
        r.thin == req@.thin,
        protocol_of_i32(r.share) == Some(req@.share),
        r.managed == req@.managed,
{
    CreateReplicaRequest {
        node_id: req.node.clone(),
        replica_id: req.uuid.clone(),
        pool_id: req.pool.clone(),
        size: req.size,
        thin: req.thin,
        share: protocol_to_i32(req.share),
        managed: req.managed,
    }
}

/// A replica destruction request as it travels on the wire.
#[derive(Debug)]
pub struct DestroyReplicaRequest {
    /// Node hosting the replica.
    pub node_id: String,
    /// Pool providing the replica's space.
    pub pool_id: String,
    /// Unique identifier of the replica to destroy.
    pub replica_id: String,
}

/// Build the wire request a replica destruction sends.
pub fn destroy_replica_request(
    node: &crate::transport::NodeId,
    pool: &crate::transport::PoolId,
    uuid: &crate::transport::ReplicaId,
) -> (r: DestroyReplicaRequest)
    ensures
        r.node_id@ == node@,
        r.pool_id@ == pool@,
        r.replica_id@ == uuid@,
{
    DestroyReplicaRequest {
        node_id: node.clone(),
        pool_id: pool.clone(),
        replica_id: uuid.clone(),
    }
}

/// A replica share request as it travels on the wire.
#[derive(Debug)]
pub struct ShareReplicaRequest {
    /// Node hosting the replica.
    pub node_id: String,
    /// Pool providing the replica's space.
    pub pool_id: String,
    /// Unique identifier of the replica to share.
    pub replica_id: String,
    /// Raw share protocol value.
    pub share: i32,
}

/// Build the wire request a replica share sends.
pub fn share_replica_request(
    node: &crate::transport::NodeId,
    pool: &crate::transport::PoolId,
    uuid: &crate::transport::ReplicaId,
    protocol: Protocol,
) -> (r: ShareReplicaRequest)
    ensures
        r.node_id@ == node@,
        r.pool_id@ == pool@,
        r.replica_id@ == uuid@,
        protocol_of_i32(r.share) == Some(protocol),
{
    ShareReplicaRequest {
        node_id: node.clone(),
        pool_id: pool.clone(),
        replica_id: uuid.clone(),
        share: protocol_to_i32(protocol),
    }
}

/// A replica unshare request as it travels on the wire.
#[derive(Debug)]
pub struct UnshareReplicaRequest {
    /// Node hosting the replica.
    pub node_id: String,
    /// Pool providing the replica's space.
    pub pool_id: String,
    /// Unique identifier of the replica to unshare.
    pub replica_id: String,
}

/// Build the wire request a replica unshare sends.
pub fn unshare_replica_request(
    node: &crate::transport::NodeId,
    pool: &crate::transport::PoolId,
    uuid: &crate::transport::ReplicaId,
) -> (r: UnshareReplicaRequest)
    ensures
        r.node_id@ == node@,
        r.pool_id@ == pool@,
        r.replica_id@ == uuid@,
{
    UnshareReplicaRequest {
        node_id: node.clone(),
        pool_id: pool.clone(),
        replica_id: uuid.clone(),
    }
}

/// A liveness probe reply.
#[derive(Debug)]
pub struct ProbeResponse {
    /// Whether the service is ready.
    pub ready: bool,
}

/// The timeout a data-plane request runs under: the caller's own
/// timeout when the request context carries one, the client's base
/// timeout otherwise.
pub fn request_timeout_ms(context_timeout: Option<u64>, base_timeout: u64) -> (r: u64)
    ensures
        r == match context_timeout {
            Some(t) => t,
            None => base_timeout,
        },
{
    match context_timeout {
        Some(t) => t,
        None => base_timeout,
    }
}

} // verus!
