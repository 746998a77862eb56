//! Typed request dispatchers: the servers the gRPC transports hand
//! requests to.
//!
//! Each server owns the core service, validates and converts the wire
//! request, calls the service, and wraps the outcome back into the
//! wire reply, translating internal errors to the wire taxonomy.  The
//! dispatchers hold no sequencer themselves; all serialization happens
//! in the service.

use vstd::prelude::*;
use crate::errors::{ReplyError, ReplyErrorKind};
use crate::pool::{PoolSpecView};
use crate::rpc::{
    CreatePoolReply, CreatePoolReplyKind, CreatePoolRequest, DestroyPoolRequest, ErrorOnlyReply,
    GetNodesReply, GetNodesReplyKind, GetNodesRequest, GetPoolsReply, GetPoolsReplyKind,
    GetPoolsRequest, ProbeResponse, WireDeregisterRequest, WireNodesFilter, WirePoolsFilter,
    WireRegisterRequest,
};
use crate::service::{
    pool_records_framed_except, pool_tables_framed, register_rejected, register_valid,
    register_writes_store, registered_node_entry, Service,
};
use crate::store::SpecStatus;
use crate::table::Storable;
use crate::transport::{
    CreatePool, CreatePoolView, Deregister, DestroyPool, FilterView, Node, Pool, PoolStatus,
    RegisterView,
};

verus! {

/// The typed filter a node read request asks for.
pub open spec fn nodes_request_filter_view(r: GetNodesRequest) -> FilterView {
    match r.filter {
        Some(WireNodesFilter::Node(x)) => FilterView::Node(x.node_id@),
        None => FilterView::All,
    }
}

/// The typed filter a pool read request asks for.
pub open spec fn pools_request_filter_view(r: GetPoolsRequest) -> FilterView {
    match r.filter {
        Some(WirePoolsFilter::Node(x)) => FilterView::Node(x.node_id@),
        Some(WirePoolsFilter::Pool(x)) => FilterView::Pool(x.pool_id@),
        Some(WirePoolsFilter::NodePool(x)) => FilterView::NodePool(x.node_id@, x.pool_id@),
        None => FilterView::All,
    }
}

/// The typed pool creation a wire request asks for.
pub open spec fn create_pool_view(r: CreatePoolRequest) -> CreatePoolView {
    CreatePoolView {
        node: r.node_id@,
        id: r.pool_id@,
        disks: r.disks@.map_values(|d: String| d@),
    }
}

/// The handle a gRPC transport mounts to serve node reads.
pub struct NodeGrpcServer {
    /// The dispatcher behind the mounted service.
    pub inner: NodeServer,
}

/// The handle a gRPC transport mounts to serve pool operations.
pub struct PoolGrpcServer {
    /// The dispatcher behind the mounted service.
    pub inner: PoolServer,
}

/// gRPC node server: answers node reads out of the registry.
pub struct NodeServer {
    /// The service which executes the operations.
    pub service: Service,
}

impl NodeServer {
    /// A node server over the given service.
    pub fn new(service: Service) -> (r: NodeServer)
        ensures
            r.service == service,
    {
        NodeServer { service }
    }

    /// Wrap the dispatcher into the handle a transport mounts.
    pub fn into_grpc_server(self) -> (r: NodeGrpcServer)
        ensures
            r.inner == self,
    {
        NodeGrpcServer { inner: self }
    }

    /// Answer a node read: the nodes the requested selection picks,
    /// with an absent selection meaning every node.
    pub fn get_nodes(&self, request: &GetNodesRequest) -> (r: GetNodesReply)
        ensures
            r.reply matches Some(GetNodesReplyKind::Nodes(nodes)) && nodes@.map_values(
                |n: Node| n@,
            ) == self.service.registry.nodes.entries@.map_values(
                |e: crate::node::NodeEntry| e@,
            ).filter(crate::registry::node_selected(nodes_request_filter_view(*request)))
                .map_values(crate::registry::node_projection()),
    {
        let filter = crate::rpc::nodes_request_filter(request);
        let nodes = self.service.get_nodes(&filter);
        GetNodesReply { reply: Some(GetNodesReplyKind::Nodes(nodes)) }
    }
}

/// gRPC pool server: drives pool operations through the service.
pub struct PoolServer {
    /// The service which executes the operations.
    pub service: Service,
}

impl PoolServer {
    /// A pool server over the given service.
    pub fn new(service: Service) -> (r: PoolServer)
        ensures
            r.service == service,
    {
        PoolServer { service }
    }

    /// Wrap the dispatcher into the handle a transport mounts.
    pub fn into_grpc_server(self) -> (r: PoolGrpcServer)
        ensures
            r.inner == self,
    {
        PoolGrpcServer { inner: self }
    }

    /// Create a pool and wrap the outcome into the wire reply; the
    /// service transition is exactly that of
    /// [`Service::create_pool`] on the converted request.
    pub fn create_pool(
        &mut self,
        request: &CreatePoolRequest,
        outcome: &Result<Pool, ReplyError>,
    ) -> (r: CreatePoolReply)
        requires
            old(self).service.wf(),
        ensures
            final(self).service.wf(),
            pool_tables_framed(final(self).service, old(self).service),
            r.reply is Some,
            ({
                let req = create_pool_view(*request);
                &&& (req.id.len() == 0 ==> (r.reply matches Some(CreatePoolReplyKind::Error(e))
                    && e.kind == ReplyErrorKind::MissingArgument && final(self).service == old(self).service))
                &&& (req.id.len() > 0 && !old(self).service.registry.nodes.has_key(req.node) ==> (
                r.reply matches Some(CreatePoolReplyKind::Error(e)) && e.kind
                    == ReplyErrorKind::NotFound && final(self).service == old(self).service))
                &&& (req.id.len() > 0 && old(self).service.registry.nodes.has_key(req.node)
                    && old(self).service.registry.pool_specs.has_key(req.id) ==> (r.reply matches
                    Some(CreatePoolReplyKind::Error(e)) && e.kind == ReplyErrorKind::AlreadyExists
                    && final(self).service == old(self).service))
                &&& (req.id.len() > 0 && old(self).service.registry.nodes.has_key(req.node)
                    && !old(self).service.registry.pool_specs.has_key(req.id) ==> {
                    let created = (PoolSpecView {
                        spec_status: SpecStatus::Created(PoolStatus::Online),
                        ..PoolSpecView::from_request(req)
                    });
                    &&& pool_records_framed_except(final(self).service, old(self).service, req.id)
                    &&& (old(self).service.store.writable() ==> {
                        &&& (outcome matches Ok(p) ==> (r.reply matches Some(
                            CreatePoolReplyKind::Pool(rp),
                        ) && rp@ == p@ && final(self).service.registry.pool_specs.spec_get(req.id)
                            == Some(created) && final(self).service.store.pool_specs.spec_get(
                            req.id,
                        ) == Some(created)))
                        &&& (outcome matches Err(e) ==> (r.reply matches Some(
                            CreatePoolReplyKind::Error(re),
                        ) && re.kind == e.kind && final(self).service.registry.pool_specs.spec_get(req.id) == Some(
                            PoolSpecView::from_request(req),
                        )))
                    })
                    &&& (!old(self).service.store.writable() ==> (r.reply matches Some(
                        CreatePoolReplyKind::Error(e),
                    ) && (e.kind == ReplyErrorKind::Aborted || e.kind
                        == ReplyErrorKind::Unavailable)))
                })
            }),
    {
        let typed = CreatePool {
            node: request.node_id.clone(),
            id: request.pool_id.clone(),
            disks: crate::transport::clone_strings(&request.disks),
        };
        proof {
            assert(typed@ =~= create_pool_view(*request));
        }
        match self.service.create_pool(&typed, outcome) {
            Ok(pool) => CreatePoolReply { reply: Some(CreatePoolReplyKind::Pool(pool)) },
            Err(e) => CreatePoolReply { reply: Some(CreatePoolReplyKind::Error(e)) },
        }
    }

    /// Destroy a pool and wrap the outcome into the wire reply; the
    /// service transition is exactly that of [`Service::destroy_pool`].
    pub fn destroy_pool(
        &mut self,
        request: &DestroyPoolRequest,
        outcome: &Result<(), ReplyError>,
    ) -> (r: ErrorOnlyReply)
        requires
            old(self).service.wf(),
        ensures
            final(self).service.wf(),
            pool_tables_framed(final(self).service, old(self).service),
            !old(self).service.registry.pool_specs.has_key(request.pool_id@) ==> (r.error matches
                Some(e) && e.kind == ReplyErrorKind::NotFound && final(self).service == old(self).service),
            old(self).service.registry.pool_specs.has_key(request.pool_id@) && (exists|i: int|
                0 <= i < old(self).service.registry.replica_specs.entries@.len() && (
                #[trigger] old(self).service.registry.replica_specs.entries@[i]@).pool
                    == request.pool_id@) ==> (r.error matches Some(e) && e.kind
                == ReplyErrorKind::PreconditionFailed && final(self).service == old(self).service),
            old(self).service.registry.pool_specs.has_key(request.pool_id@) && !(exists|i: int|
                0 <= i < old(self).service.registry.replica_specs.entries@.len() && (
                #[trigger] old(self).service.registry.replica_specs.entries@[i]@).pool
                    == request.pool_id@) ==> {
                let prior = old(self).service.registry.pool_specs.spec_get(
                    request.pool_id@,
                )->Some_0;
                &&& (prior.operation is Some ==> (r.error matches Some(e) && e.kind
                    == ReplyErrorKind::Conflict && final(self).service == old(self).service))
                &&& (prior.operation is None && !old(self).service.store.writable() ==> (r.error
                    matches Some(e) && (e.kind == ReplyErrorKind::Aborted || e.kind
                    == ReplyErrorKind::Unavailable)))
                &&& (prior.operation is None && old(self).service.store.writable() ==> {
                    &&& (outcome is Ok ==> (r.error is None && (final(self).service.registry.pool_specs.spec_get(request.pool_id@) matches Some(s)
                        && s.spec_status is Deleted) && !final(self).service.registry.pool_states.has_key(request.pool_id@)))
                    &&& (outcome matches Err(e) ==> (r.error matches Some(re) && re.kind == e.kind
                        && final(self).service.registry.pool_specs.spec_get(request.pool_id@)
                        == Some(prior)))
                })
            },
    {
        match self.service.destroy_pool(
            &DestroyPool { node: request.node_id.clone(), id: request.pool_id.clone() },
            outcome,
        ) {
            Ok(()) => ErrorOnlyReply { error: None },
            Err(e) => ErrorOnlyReply { error: Some(e) },
        }
    }

    /// Answer a pool read: the pools the requested selection picks.
    pub fn get_pools(&self, request: &GetPoolsRequest) -> (r: GetPoolsReply)
        ensures
            r.reply matches Some(GetPoolsReplyKind::Pools(pools)) && pools@.map_values(
                |p: Pool| p@,
            ) == self.service.registry.pool_states.entries@.map_values(|p: Pool| p@).filter(
                crate::registry::pool_selected(pools_request_filter_view(*request)),
            ),
    {
        let filter = crate::rpc::pools_request_filter(request);
        let pools = self.service.get_pools(&filter);
        GetPoolsReply { reply: Some(GetPoolsReplyKind::Pools(pools)) }
    }
}

/// gRPC registration server: drives the node registry.
pub struct RegistrationServer {
    /// The service which executes the operations.
    pub service: Service,
}

impl RegistrationServer {
    /// A registration server over the given service.
    pub fn new(service: Service) -> (r: RegistrationServer)
        ensures
            r.service == service,
    {
        RegistrationServer { service }
    }

    /// Handle a registration heartbeat; the service transition is
    /// exactly that of [`Service::register`], and any failure is
    /// reported as aborted, as the wire protocol requires.
    pub fn register(
        &mut self,
        request: &WireRegisterRequest,
        now: u64,
    ) -> (r: Result<(), ReplyError>)
        requires
            old(self).service.wf(),
        ensures
            final(self).service.wf(),
            r matches Err(e) ==> e.kind == ReplyErrorKind::Aborted,
            ({
                let req = RegisterView { id: request.id@, grpc_endpoint: request.grpc_endpoint@ };
                let prior = old(self).service.registry.nodes.spec_get(req.id);
                &&& (r is Ok <==> (register_valid(req) && !register_rejected(
                    prior,
                    req,
                    now,
                    old(self).service.deadline_ms,
                ) && (!register_writes_store(prior, req) || old(self).service.store.writable())))
                &&& (r is Ok ==> final(self).service.registry.nodes.spec_get(req.id) == Some(
                    registered_node_entry(prior, req, now),
                ))
                &&& (r is Err ==> final(self).service == old(self).service)
            }),
    {
        let typed = crate::rpc::register_from_wire(request);
        match self.service.register(&typed, now) {
            Ok(()) => Ok(()),
            Err(_) => Err(
                ReplyError::new(
                    ReplyErrorKind::Aborted,
                    crate::errors::ResourceKind::Node,
                    String::from_str("registration failed"),
                ),
            ),
        }
    }

    /// Handle an explicit node removal; the service transition is
    /// exactly that of [`Service::deregister`].
    pub fn deregister(&mut self, request: &WireDeregisterRequest) -> (r: Result<(), ReplyError>)
        requires
            old(self).service.wf(),
        ensures
            final(self).service.wf(),
            r matches Err(e) ==> e.kind == ReplyErrorKind::Aborted,
            r is Ok <==> (request.id@.len() > 0 && old(self).service.registry.nodes.has_key(
                request.id@,
            ) && old(self).service.store.writable()),
            r is Ok ==> !final(self).service.registry.nodes.has_key(request.id@) && !final(self).service.store.node_specs.has_key(request.id@),
            r is Err ==> final(self).service == old(self).service,
    {
        let typed = Deregister { id: request.id.clone() };
        match self.service.deregister(&typed) {
            Ok(()) => Ok(()),
            Err(_) => Err(
                ReplyError::new(
                    ReplyErrorKind::Aborted,
                    crate::errors::ResourceKind::Node,
                    String::from_str("deregistration failed"),
                ),
            ),
        }
    }

    /// Liveness probe: the service is ready once it is constructed.
    pub fn probe(&self) -> (r: ProbeResponse)
        ensures
            r.ready,
    {
        ProbeResponse { ready: self.service.probe() }
    }
}

} // verus!
