//! Typed requests, runtime states and identifiers exchanged with the
//! data plane and with clients.
//!
//! Each compound type carries a `View` onto a mathematical mirror whose
//! string fields are character sequences; contracts are stated over those
//! views.  `Clone` implementations are written by hand so that callers
//! know a copy reads the same as its original.

use vstd::prelude::*;
use crate::nexus_child::{NexusChild, NexusChildView};

verus! {

/// Identifier of a data-plane node.
pub type NodeId = String;

/// Unique identifier of a nexus.
pub type NexusId = String;

/// Unique identifier of a replica.
pub type ReplicaId = String;

/// Identifier of a storage pool.
pub type PoolId = String;

/// Unique identifier of a volume.
pub type VolumeId = String;

/// URI through which a nexus child is reached.
pub type ChildUri = String;

/// Copy a string list, preserving what it reads as.
pub fn clone_strings(v: &Vec<String>) -> (r: Vec<String>)
    ensures
        r@.map_values(|s: String| s@) == v@.map_values(|s: String| s@),
{
    let mut out: Vec<String> = Vec::new();
    let mut i: usize = 0;
    while i < v.len()
        invariant
            i <= v@.len(),
            out@.len() == i,
            forall|j: int| 0 <= j < i ==> out@[j]@ == v@[j]@,
        decreases v@.len() - i,
    {
        out.push(v[i].clone());
        i = i + 1;
    }
    proof {
        assert(out@.map_values(|s: String| s@) =~= v@.map_values(|s: String| s@));
    }
    out
}

/// Copy an optional string, preserving what it reads as.
pub fn clone_opt_string(v: &Option<String>) -> (r: Option<String>)
    ensures
        match v {
            Some(s) => r matches Some(rs) && rs@ == s@,
            None => r is None,
        },
{
    match v {
        Some(s) => Some(s.clone()),
        None => None,
    }
}

/// Whether two optional strings read the same.
pub fn opt_string_equal(a: &Option<String>, b: &Option<String>) -> (r: bool)
    ensures
        r == (match (a, b) {
            (Some(x), Some(y)) => x@ == y@,
            (None, None) => true,
            _ => false,
        }),
{
    match (a, b) {
        (Some(x), Some(y)) => *x == *y,
        (None, None) => true,
        _ => false,
    }
}

/// Copy a child list, preserving its view.
pub fn clone_children(children: &Vec<NexusChild>) -> (r: Vec<NexusChild>)
    ensures
        r@.map_values(|c: NexusChild| c@) == children@.map_values(|c: NexusChild| c@),
{
    let mut out: Vec<NexusChild> = Vec::new();
    let mut i: usize = 0;
    while i < children.len()
        invariant
            i <= children@.len(),
            out@.len() == i,
            forall|j: int| 0 <= j < i ==> out@[j]@ == children@[j]@,
        decreases children@.len() - i,
    {
        out.push(children[i].clone());
        i = i + 1;
    }
    proof {
        assert(out@.map_values(|c: NexusChild| c@) =~= children@.map_values(
            |c: NexusChild| c@,
        ));
    }
    out
}

/// Share protocol of a resource.
#[derive(Clone, Copy, Debug, PartialEq, Eq, Structural)]
pub enum Protocol {
    Off,
    Nvmf,
}

/// Protocols over which a nexus can be shared.
#[derive(Clone, Copy, Debug, PartialEq, Eq, Structural)]
pub enum NexusShareProtocol {
    Nvmf,
}

impl NexusShareProtocol {
    /// The protocol a share over this nexus protocol results in.
    pub open spec fn to_protocol(self) -> Protocol {
        Protocol::Nvmf
    }
}

impl From<NexusShareProtocol> for Protocol {
    /// Widen a nexus share protocol into the general protocol set.
    fn from(p: NexusShareProtocol) -> (r: Protocol) {
        match p {
            NexusShareProtocol::Nvmf => Protocol::Nvmf,
        }
    }
}

impl vstd::std_specs::convert::FromSpecImpl<NexusShareProtocol> for Protocol {
    open spec fn obeys_from_spec() -> bool {
        true
    }

    open spec fn from_spec(p: NexusShareProtocol) -> Protocol {
        Protocol::Nvmf
    }
}

/// Runtime status of a nexus.
#[derive(Clone, Copy, Debug, PartialEq, Eq, Structural)]
pub enum NexusStatus {
    Unknown,
    Online,
    Degraded,
    Faulted,
    Shutdown,
}

impl Default for NexusStatus {
    /// The status of a nexus nothing has been observed about.
    fn default() -> (r: NexusStatus)
        ensures
            r == NexusStatus::Unknown,
    {
        NexusStatus::Unknown
    }
}

/// Runtime status of a nexus child.
#[derive(Clone, Copy, Debug, PartialEq, Eq, Structural)]
pub enum ChildState {
    Unknown,
    Online,
    Degraded,
    Faulted,
}

/// Why a child is in its present state.
#[derive(Clone, Copy, Debug, PartialEq, Eq, Structural)]
pub enum ChildStateReason {
    Unknown,
}

/// Liveness of a data-plane node as judged by the registration watchdog.
#[derive(Clone, Copy, Debug, PartialEq, Eq, Structural)]
pub enum NodeStatus {
    Unknown,
    Online,
    Offline,
}

/// Runtime state of one child of a nexus.
#[derive(Debug)]
pub struct Child {
    /// URI through which the child is reached.
    pub uri: ChildUri,
    /// Observed state of the child.
    pub state: ChildState,
    /// Rebuild progress, in percent, when a rebuild is running.
    pub rebuild_progress: Option<u8>,
    /// Why the child is in its present state.
    pub state_reason: ChildStateReason,
}

/// Mathematical mirror of [`Child`].
#[verifier::ext_equal]
pub struct ChildView {
    pub uri: Seq<char>,
    pub state: ChildState,
    pub rebuild_progress: Option<u8>,
    pub state_reason: ChildStateReason,
}

impl View for Child {
    type V = ChildView;

    open spec fn view(&self) -> ChildView {
        ChildView {
            uri: self.uri@,
            state: self.state,
            rebuild_progress: self.rebuild_progress,
            state_reason: self.state_reason,
        }
    }
}

impl Clone for Child {
    /// A copy of a child state reads the same as its original.
    fn clone(&self) -> (r: Child)
        ensures
            r@ == self@,
    {
        Child {
            uri: self.uri.clone(),
            state: self.state,
            rebuild_progress: self.rebuild_progress,
            state_reason: self.state_reason,
        }
    }
}

/// Copy a child-state list, preserving its view.
pub fn clone_child_states(children: &Vec<Child>) -> (r: Vec<Child>)
    ensures
        r@.map_values(|c: Child| c@) == children@.map_values(|c: Child| c@),
{
    let mut out: Vec<Child> = Vec::new();
    let mut i: usize = 0;
    while i < children.len()
        invariant
            i <= children@.len(),
            out@.len() == i,
            forall|j: int| 0 <= j < i ==> out@[j]@ == children@[j]@,
        decreases children@.len() - i,
    {
        out.push(children[i].clone());
        i = i + 1;
    }
    proof {
        assert(out@.map_values(|c: Child| c@) =~= children@.map_values(|c: Child| c@));
    }
    out
}

/// NVMf configuration of a nexus target.
#[derive(Clone, Copy, Debug, PartialEq, Eq, Structural)]
pub struct NexusNvmfConfig {
    /// Smallest controller id the target may hand out.
    pub min_cntlid: u16,
    /// Largest controller id the target may hand out.
    pub max_cntlid: u16,
    /// Reservation key of the current holder.
    pub resv_key: u64,
}

/// Runtime state of a nexus as a node reports it.
#[derive(Debug)]
pub struct Nexus {
    /// Node on which the nexus lives.
    pub node: NodeId,
    /// Name of the nexus.
    pub name: String,
    /// Unique identifier of the nexus.
    pub uuid: NexusId,
    /// Size of the nexus in bytes.
    pub size: u64,
    /// Observed status of the nexus.
    pub status: NexusStatus,
    /// Observed children.
    pub children: Vec<Child>,
    /// URI of the exposed device.
    pub device_uri: String,
    /// Number of rebuilds in progress.
    pub rebuilds: u32,
    /// Protocol over which the nexus is shared.
    pub share: Protocol,
}

/// Mathematical mirror of [`Nexus`].
#[verifier::ext_equal]
pub struct NexusView {
    pub node: Seq<char>,
    pub name: Seq<char>,
    pub uuid: Seq<char>,
    pub size: u64,
    pub status: NexusStatus,
    pub children: Seq<ChildView>,
    pub device_uri: Seq<char>,
    pub rebuilds: u32,
    pub share: Protocol,
}

impl View for Nexus {
    type V = NexusView;

    open spec fn view(&self) -> NexusView {
        NexusView {
            node: self.node@,
            name: self.name@,
            uuid: self.uuid@,
            size: self.size,
            status: self.status,
            children: self.children@.map_values(|c: Child| c@),
            device_uri: self.device_uri@,
            rebuilds: self.rebuilds,
            share: self.share,
        }
    }
}

impl Clone for Nexus {
    /// A copy of a nexus state reads the same as its original.
    fn clone(&self) -> (r: Nexus)
        ensures
            r@ == self@,
    {
        let r = Nexus {
            node: self.node.clone(),
            name: self.name.clone(),
            uuid: self.uuid.clone(),
            size: self.size,
            status: self.status,
            children: clone_child_states(&self.children),
            device_uri: self.device_uri.clone(),
            rebuilds: self.rebuilds,
            share: self.share,
        };
        proof {
            assert(r@ =~= self@);
        }
        r
    }
}

/// Request to create a nexus.
#[derive(Debug)]
pub struct CreateNexus {
    /// Node which should host the nexus.
    pub node: NodeId,
    /// Unique identifier for the new nexus.
    pub uuid: NexusId,
    /// Name of the nexus; the uuid when absent.
    pub name: Option<String>,
    /// Size of the nexus in bytes.
    pub size: u64,
    /// Children to aggregate.
    pub children: Vec<NexusChild>,
    /// Managed by the control plane.
    pub managed: bool,
    /// Volume which owns the nexus, if any.
    pub owner: Option<VolumeId>,
    /// NVMf configuration of the target, if any.
    pub config: Option<NexusNvmfConfig>,
}

/// Mathematical mirror of [`CreateNexus`].
#[verifier::ext_equal]
pub struct CreateNexusView {
    pub node: Seq<char>,
    pub uuid: Seq<char>,
    pub name: Option<Seq<char>>,
    pub size: u64,
    pub children: Seq<NexusChildView>,
    pub managed: bool,
    pub owner: Option<Seq<char>>,
    pub config: Option<NexusNvmfConfig>,
}

impl View for CreateNexus {
    type V = CreateNexusView;

    open spec fn view(&self) -> CreateNexusView {
        CreateNexusView {
            node: self.node@,
            uuid: self.uuid@,
            name: match self.name {
                Some(ref n) => Some(n@),
                None => None,
            },
            size: self.size,
            children: self.children@.map_values(|c: NexusChild| c@),
            managed: self.managed,
            owner: match self.owner {
                Some(ref o) => Some(o@),
                None => None,
            },
            config: self.config,
        }
    }
}

impl Clone for CreateNexus {
    /// A copy of a creation request reads the same as its original.
    fn clone(&self) -> (r: CreateNexus)
        ensures
            r@ == self@,
    {
        let r = CreateNexus {
            node: self.node.clone(),
            uuid: self.uuid.clone(),
            name: clone_opt_string(&self.name),
            size: self.size,
            children: clone_children(&self.children),
            managed: self.managed,
            owner: clone_opt_string(&self.owner),
            config: self.config,
        };
        proof {
            assert(r@ =~= self@);
        }
        r
    }
}

impl CreateNexusView {
    /// The name the created nexus will carry: the explicit name, or the uuid.
    pub open spec fn nexus_name(self) -> Seq<char> {
        match self.name {
            Some(n) => n,
            None => self.uuid,
        }
    }
}

impl CreateNexus {
    /// Assemble a creation request from its parts.
    pub fn new(
        node: &NodeId,
        uuid: &NexusId,
        size: u64,
        children: &Vec<NexusChild>,
        managed: bool,
        owner: Option<&VolumeId>,
        config: Option<NexusNvmfConfig>,
    ) -> (r: CreateNexus)
        ensures
            r@.node == node@,
            r@.uuid == uuid@,
            r@.name is None,
            r@.size == size,
            r@.children == children@.map_values(|c: NexusChild| c@),
            r@.managed == managed,
            r@.owner == match owner {
                Some(o) => Some::<Seq<char>>(o@),
                None => None::<Seq<char>>,
            },
            r@.config == config,
    {
        CreateNexus {
            node: node.clone(),
            uuid: uuid.clone(),
            name: None,
            size,
            children: clone_children(children),
            managed,
            owner: match owner {
                Some(o) => Some(o.clone()),
                None => None,
            },
            config,
        }
    }

    /// The name the created nexus will carry: the explicit name, or the uuid.
    pub fn name(&self) -> (r: String)
        ensures
            r@ == self@.nexus_name(),
    {
        match &self.name {
            Some(n) => n.clone(),
            None => self.uuid.clone(),
        }
    }
}

/// Request to destroy a nexus.
#[derive(Debug)]
pub struct DestroyNexus {
    /// Node hosting the nexus.
    pub node: NodeId,
    /// Unique identifier of the nexus to destroy.
    pub uuid: NexusId,
}

/// Mathematical mirror of [`DestroyNexus`].
#[verifier::ext_equal]
pub struct DestroyNexusView {
    pub node: Seq<char>,
    pub uuid: Seq<char>,
}

impl View for DestroyNexus {
    type V = DestroyNexusView;

    open spec fn view(&self) -> DestroyNexusView {
        DestroyNexusView { node: self.node@, uuid: self.uuid@ }
    }
}

impl Clone for DestroyNexus {
    /// A copy of a destroy request reads the same as its original.
    fn clone(&self) -> (r: DestroyNexus)
        ensures
            r@ == self@,
    {
        DestroyNexus { node: self.node.clone(), uuid: self.uuid.clone() }
    }
}

impl DestroyNexus {
    /// Assemble a destroy request from its parts.
    pub fn new(node: NodeId, uuid: NexusId) -> (r: DestroyNexus)
        ensures
            r@.node == node@,
            r@.uuid == uuid@,
    {
        DestroyNexus { node, uuid }
    }
}

/// Node registration heartbeat.
#[derive(Debug)]
pub struct Register {
    /// Identifier of the registering node.
    pub id: NodeId,
    /// gRPC endpoint the node serves on.
    pub grpc_endpoint: String,
}

/// Mathematical mirror of [`Register`].
#[verifier::ext_equal]
pub struct RegisterView {
    pub id: Seq<char>,
    pub grpc_endpoint: Seq<char>,
}

impl View for Register {
    type V = RegisterView;

    open spec fn view(&self) -> RegisterView {
        RegisterView { id: self.id@, grpc_endpoint: self.grpc_endpoint@ }
    }
}

impl Clone for Register {
    /// A copy of a registration reads the same as its original.
    fn clone(&self) -> (r: Register)
        ensures
            r@ == self@,
    {
        Register { id: self.id.clone(), grpc_endpoint: self.grpc_endpoint.clone() }
    }
}

/// Explicit node removal.
#[derive(Debug)]
pub struct Deregister {
    /// Identifier of the node to remove.
    pub id: NodeId,
}

/// Mathematical mirror of [`Deregister`].
#[verifier::ext_equal]
pub struct DeregisterView {
    pub id: Seq<char>,
}

impl View for Deregister {
    type V = DeregisterView;

    open spec fn view(&self) -> DeregisterView {
        DeregisterView { id: self.id@ }
    }
}

impl Clone for Deregister {
    /// A copy of a deregistration reads the same as its original.
    fn clone(&self) -> (r: Deregister)
        ensures
            r@ == self@,
    {
        Deregister { id: self.id.clone() }
    }
}

/// Selection of resources for a read request.
#[derive(Debug)]
pub enum Filter {
    /// All resources of the kind.
    All,
    /// Resources hosted on the node.
    Node(NodeId),
    /// Resources belonging to the pool.
    Pool(PoolId),
    /// Resources of the pool on the node.
    NodePool(NodeId, PoolId),
    /// The replica on the node.
    NodeReplica(NodeId, ReplicaId),
    /// The replica of the pool on the node.
    NodePoolReplica(NodeId, PoolId, ReplicaId),
    /// The replica of the pool.
    PoolReplica(PoolId, ReplicaId),
    /// The replica.
    Replica(ReplicaId),
    /// Resources owned by the volume.
    Volume(VolumeId),
    /// The nexus.
    Nexus(NexusId),
}

/// Mathematical mirror of [`Filter`].
pub enum FilterView {
    All,
    Node(Seq<char>),
    Pool(Seq<char>),
    NodePool(Seq<char>, Seq<char>),
    NodeReplica(Seq<char>, Seq<char>),
    NodePoolReplica(Seq<char>, Seq<char>, Seq<char>),
    PoolReplica(Seq<char>, Seq<char>),
    Replica(Seq<char>),
    Volume(Seq<char>),
    Nexus(Seq<char>),
}

impl View for Filter {
    type V = FilterView;

    open spec fn view(&self) -> FilterView {
        match self {
            Filter::All => FilterView::All,
            Filter::Node(n) => FilterView::Node(n@),
            Filter::Pool(p) => FilterView::Pool(p@),
            Filter::NodePool(n, p) => FilterView::NodePool(n@, p@),
            Filter::NodeReplica(n, r) => FilterView::NodeReplica(n@, r@),
            Filter::NodePoolReplica(n, p, r) => FilterView::NodePoolReplica(n@, p@, r@),
            Filter::PoolReplica(p, r) => FilterView::PoolReplica(p@, r@),
            Filter::Replica(r) => FilterView::Replica(r@),
            Filter::Volume(v) => FilterView::Volume(v@),
            Filter::Nexus(n) => FilterView::Nexus(n@),
        }
    }
}

impl Clone for Filter {
    /// A copy of a filter reads the same as its original.
    fn clone(&self) -> (r: Filter)
        ensures
            r@ == self@,
    {
        match self {
            Filter::All => Filter::All,
            Filter::Node(n) => Filter::Node(n.clone()),
            Filter::Pool(p) => Filter::Pool(p.clone()),
            Filter::NodePool(n, p) => Filter::NodePool(n.clone(), p.clone()),
            Filter::NodeReplica(n, r) => Filter::NodeReplica(n.clone(), r.clone()),
            Filter::NodePoolReplica(n, p, r) => Filter::NodePoolReplica(
                n.clone(),
                p.clone(),
                r.clone(),
            ),
            Filter::PoolReplica(p, r) => Filter::PoolReplica(p.clone(), r.clone()),
            Filter::Replica(r) => Filter::Replica(r.clone()),
            Filter::Volume(v) => Filter::Volume(v.clone()),
            Filter::Nexus(n) => Filter::Nexus(n.clone()),
        }
    }
}

impl Default for Filter {
    /// The filter that selects everything.
    fn default() -> (r: Filter)
        ensures
            r@ == FilterView::All,
    {
        Filter::All
    }
}

/// Runtime status of a pool.
#[derive(Clone, Copy, Debug, PartialEq, Eq, Structural)]
pub enum PoolStatus {
    Unknown,
    Online,
    Degraded,
    Faulted,
}

/// Runtime state of a storage pool.
#[derive(Debug)]
pub struct Pool {
    /// Node hosting the pool.
    pub node: NodeId,
    /// Identifier of the pool.
    pub id: PoolId,
    /// Backing disks.
    pub disks: Vec<String>,
    /// Observed status of the pool.
    pub status: PoolStatus,
}

/// Mathematical mirror of [`Pool`].
#[verifier::ext_equal]
pub struct PoolView {
    pub node: Seq<char>,
    pub id: Seq<char>,
    pub disks: Seq<Seq<char>>,
    pub status: PoolStatus,
}

impl View for Pool {
    type V = PoolView;

    open spec fn view(&self) -> PoolView {
        PoolView {
            node: self.node@,
            id: self.id@,
            disks: self.disks@.map_values(|d: String| d@),
            status: self.status,
        }
    }
}

impl Clone for Pool {
    /// A copy of a pool state reads the same as its original.
    fn clone(&self) -> (r: Pool)
        ensures
            r@ == self@,
    {
        let r = Pool {
            node: self.node.clone(),
            id: self.id.clone(),
            disks: clone_strings(&self.disks),
            status: self.status,
        };
        proof {
            assert(r@ =~= self@);
        }
        r
    }
}

/// Request to create a pool.
#[derive(Debug)]
pub struct CreatePool {
    /// Node which should host the pool.
    pub node: NodeId,
    /// Identifier for the new pool.
    pub id: PoolId,
    /// Backing disks.
    pub disks: Vec<String>,
}

/// Mathematical mirror of [`CreatePool`].
#[verifier::ext_equal]
pub struct CreatePoolView {
    pub node: Seq<char>,
    pub id: Seq<char>,
    pub disks: Seq<Seq<char>>,
}

impl View for CreatePool {
    type V = CreatePoolView;

    open spec fn view(&self) -> CreatePoolView {
        CreatePoolView {
            node: self.node@,
            id: self.id@,
            disks: self.disks@.map_values(|d: String| d@),
        }
    }
}

impl Clone for CreatePool {
    /// A copy of a pool creation request reads the same as its original.
    fn clone(&self) -> (r: CreatePool)
        ensures
            r@ == self@,
    {
        let r = CreatePool {
            node: self.node.clone(),
            id: self.id.clone(),
            disks: clone_strings(&self.disks),
        };
        proof {
            assert(r@ =~= self@);
        }
        r
    }
}

/// Request to destroy a pool.
#[derive(Debug)]
pub struct DestroyPool {
    /// Node hosting the pool.
    pub node: NodeId,
    /// Identifier of the pool to destroy.
    pub id: PoolId,
}

/// Mathematical mirror of [`DestroyPool`].
#[verifier::ext_equal]
pub struct DestroyPoolView {
    pub node: Seq<char>,
    pub id: Seq<char>,
}

impl View for DestroyPool {
    type V = DestroyPoolView;

    open spec fn view(&self) -> DestroyPoolView {
        DestroyPoolView { node: self.node@, id: self.id@ }
    }
}

impl Clone for DestroyPool {
    /// A copy of a pool destroy request reads the same as its original.
    fn clone(&self) -> (r: DestroyPool)
        ensures
            r@ == self@,
    {
        DestroyPool { node: self.node.clone(), id: self.id.clone() }
    }
}

/// Runtime status of a replica.
#[derive(Clone, Copy, Debug, PartialEq, Eq, Structural)]
pub enum ReplicaStatus {
    Unknown,
    Online,
    Degraded,
    Faulted,
}

/// Runtime state of a replica.
#[derive(Debug)]
pub struct Replica {
    /// Node hosting the replica.
    pub node: NodeId,
    /// Unique identifier of the replica.
    pub uuid: ReplicaId,
    /// Pool providing the replica's space.
    pub pool: PoolId,
    /// Size of the replica in bytes.
    pub size: u64,
    /// Protocol over which the replica is shared.
    pub share: Protocol,
    /// Thin provisioning.
    pub thin: bool,
    /// URI through which the replica is reached.
    pub uri: String,
    /// Observed status of the replica.
    pub status: ReplicaStatus,
}

/// Mathematical mirror of [`Replica`].
#[verifier::ext_equal]
pub struct ReplicaView {
    pub node: Seq<char>,
    pub uuid: Seq<char>,
    pub pool: Seq<char>,
    pub size: u64,
    pub share: Protocol,
    pub thin: bool,
    pub uri: Seq<char>,
    pub status: ReplicaStatus,
}

impl View for Replica {
    type V = ReplicaView;

    open spec fn view(&self) -> ReplicaView {
        ReplicaView {
            node: self.node@,
            uuid: self.uuid@,
            pool: self.pool@,
            size: self.size,
            share: self.share,
            thin: self.thin,
            uri: self.uri@,
            status: self.status,
        }
    }
}

impl Clone for Replica {
    /// A copy of a replica state reads the same as its original.
    fn clone(&self) -> (r: Replica)
        ensures
            r@ == self@,
    {
        Replica {
            node: self.node.clone(),
            uuid: self.uuid.clone(),
            pool: self.pool.clone(),
            size: self.size,
            share: self.share,
            thin: self.thin,
            uri: self.uri.clone(),
            status: self.status,
        }
    }
}

/// Desired configuration of a data-plane node.
#[derive(Debug)]
pub struct NodeSpec {
    /// Identifier of the node.
    pub id: NodeId,
    /// gRPC endpoint the node serves on.
    pub grpc_endpoint: String,
    /// Labels attached to the node.
    pub labels: Vec<String>,
}

/// Mathematical mirror of [`NodeSpec`].
#[verifier::ext_equal]
pub struct NodeSpecView {
    pub id: Seq<char>,
    pub grpc_endpoint: Seq<char>,
    pub labels: Seq<Seq<char>>,
}

impl View for NodeSpec {
    type V = NodeSpecView;

    open spec fn view(&self) -> NodeSpecView {
        NodeSpecView {
            id: self.id@,
            grpc_endpoint: self.grpc_endpoint@,
            labels: self.labels@.map_values(|l: String| l@),
        }
    }
}

impl Clone for NodeSpec {
    /// A copy of a node spec reads the same as its original.
    fn clone(&self) -> (r: NodeSpec)
        ensures
            r@ == self@,
    {
        let r = NodeSpec {
            id: self.id.clone(),
            grpc_endpoint: self.grpc_endpoint.clone(),
            labels: clone_strings(&self.labels),
        };
        proof {
            assert(r@ =~= self@);
        }
        r
    }
}

/// Observed runtime condition of a data-plane node.
#[derive(Debug)]
pub struct NodeState {
    /// Identifier of the node.
    pub id: NodeId,
    /// gRPC endpoint the node last registered with.
    pub grpc_endpoint: String,
    /// Liveness of the node.
    pub status: NodeStatus,
}

/// Mathematical mirror of [`NodeState`].
#[verifier::ext_equal]
pub struct NodeStateView {
    pub id: Seq<char>,
    pub grpc_endpoint: Seq<char>,
    pub status: NodeStatus,
}

impl View for NodeState {
    type V = NodeStateView;

    open spec fn view(&self) -> NodeStateView {
        NodeStateView {
            id: self.id@,
            grpc_endpoint: self.grpc_endpoint@,
            status: self.status,
        }
    }
}

impl Clone for NodeState {
    /// A copy of a node state reads the same as its original.
    fn clone(&self) -> (r: NodeState)
        ensures
            r@ == self@,
    {
        NodeState {
            id: self.id.clone(),
            grpc_endpoint: self.grpc_endpoint.clone(),
            status: self.status,
        }
    }
}

/// A node as served to clients: desired and observed projections together.
#[derive(Debug)]
pub struct Node {
    /// Identifier of the node.
    pub id: NodeId,
    /// Desired configuration, when one is stored.
    pub spec: Option<NodeSpec>,
    /// Observed condition, when the node has been seen.
    pub state: Option<NodeState>,
}

/// Mathematical mirror of [`Node`].
#[verifier::ext_equal]
pub struct NodeView {
    pub id: Seq<char>,
    pub spec: Option<NodeSpecView>,
    pub state: Option<NodeStateView>,
}

impl View for Node {
    type V = NodeView;

    open spec fn view(&self) -> NodeView {
        NodeView {
            id: self.id@,
            spec: match self.spec {
                Some(ref s) => Some(s@),
                None => None,
            },
            state: match self.state {
                Some(ref s) => Some(s@),
                None => None,
            },
        }
    }
}

impl Clone for Node {
    /// A copy of a node reads the same as its original.
    fn clone(&self) -> (r: Node)
        ensures
            r@ == self@,
    {
        Node {
            id: self.id.clone(),
            spec: match &self.spec {
                Some(s) => Some(s.clone()),
                None => None,
            },
            state: match &self.state {
                Some(s) => Some(s.clone()),
                None => None,
            },
        }
    }
}

impl Node {
    /// Assemble a node from its projections.
    pub fn new(id: NodeId, desired: Option<NodeSpec>, observed: Option<NodeState>) -> (r: Node)
        ensures
            r@.id == id@,
            r@.spec == match desired {
                Some(s) => Some(s@),
                None => None::<NodeSpecView>,
            },
            r@.state == match observed {
                Some(s) => Some(s@),
                None => None::<NodeStateView>,
            },
    {
        Node { id, spec: desired, state: observed }
    }
}

} // verus!
