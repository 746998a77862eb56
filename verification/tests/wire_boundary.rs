//! The wire boundary: decoding and encoding messages, filter
//! conversions, reply interpretation, and the dispatchers.

use core_agent::dispatch::{NodeServer, PoolServer, RegistrationServer};
use core_agent::errors::{ReplyError, ReplyErrorKind, ResourceKind};
use core_agent::replica::CreateReplica;
use core_agent::rpc::{
    child_from_wire, child_state_from_i32, child_state_to_i32, create_replica_request,
    deregister_from_wire, deregister_to_wire, destroy_replica_request, get_nodes_request,
    get_replicas_request, interpret_error_only_reply, share_replica_request,
    unshare_replica_request,
    interpret_nodes_reply, interpret_replicas_reply, nexus_from_wire, nexus_spec_status_from_wire,
    nexus_spec_status_to_wire, nexus_status_from_i32, nexus_status_to_i32, nexus_to_wire,
    pools_request_filter, protocol_from_i32, register_from_wire, register_to_wire,
    request_timeout_ms,
    CreatePoolReplyKind, CreatePoolRequest, ErrorOnlyReply, GetNodesReply, GetNodesReplyKind,
    GetNodesRequest, GetPoolsReplyKind, GetPoolsRequest, GetReplicasReply, GetReplicasReplyKind,
    WireChild, WireDeregisterRequest, WireNexus, WireNodeFilter, WireNodesFilter,
    WirePoolsFilter, WireRegisterRequest, WireReplicasFilter, WireSpecStatus,
};
use core_agent::nexus::NexusSpecStatus;
use core_agent::service::Service;
use core_agent::store::SpecStatus;
use core_agent::transport::{
    ChildState, Deregister, Filter, NexusStatus, Pool, PoolStatus, Protocol, Register,
};

fn wire_nexus() -> WireNexus {
    WireNexus {
        node_id: "node-a".to_string(),
        name: "n1".to_string(),
        uuid: Some("n1".to_string()),
        size: 1024,
        children: vec![WireChild {
            uri: "nvmf://a/r1".to_string(),
            state: 1,
            rebuild_progress: Some(42),
        }],
        device_uri: "nvmf://a/n1".to_string(),
        rebuilds: 1,
        share: 1,
        status: 2,
    }
}

#[test]
fn wire_nexus_decodes() {
    let n = nexus_from_wire(&wire_nexus()).unwrap();
    assert_eq!(n.node, "node-a");
    assert_eq!(n.uuid, "n1");
    assert_eq!(n.status, NexusStatus::Degraded);
    assert_eq!(n.share, Protocol::Nvmf);
    assert_eq!(n.children.len(), 1);
    assert_eq!(n.children[0].state, ChildState::Online);
    assert_eq!(n.children[0].rebuild_progress, Some(42));
}

#[test]
fn wire_nexus_rejects_bad_fields() {
    let mut w = wire_nexus();
    w.uuid = None;
    let err = nexus_from_wire(&w).unwrap_err();
    assert_eq!(err.kind, ReplyErrorKind::InvalidArgument);
    assert_eq!(err.resource, ResourceKind::Nexus);

    let mut w = wire_nexus();
    w.status = 9;
    assert!(nexus_from_wire(&w).is_err());

    let mut w = wire_nexus();
    w.share = -1;
    assert!(nexus_from_wire(&w).is_err());

    let mut w = wire_nexus();
    w.children[0].state = 7;
    assert!(nexus_from_wire(&w).is_err());

    let mut w = wire_nexus();
    w.children[0].rebuild_progress = Some(300);
    let err = nexus_from_wire(&w).unwrap_err();
    assert_eq!(err.kind, ReplyErrorKind::InvalidArgument);
}

#[test]
fn wire_nexus_round_trip() {
    let n = nexus_from_wire(&wire_nexus()).unwrap();
    let w = nexus_to_wire(&n);
    let back = nexus_from_wire(&w).unwrap();
    assert_eq!(back.uuid, n.uuid);
    assert_eq!(back.status, n.status);
    assert_eq!(back.share, n.share);
    assert_eq!(back.children.len(), n.children.len());
    assert_eq!(back.children[0].uri, n.children[0].uri);
}

#[test]
fn enum_wire_values() {
    for s in [
        NexusStatus::Unknown,
        NexusStatus::Online,
        NexusStatus::Degraded,
        NexusStatus::Faulted,
        NexusStatus::Shutdown,
    ] {
        assert_eq!(nexus_status_from_i32(nexus_status_to_i32(s)), Some(s));
    }
    assert_eq!(nexus_status_from_i32(5), None);
    for s in [
        ChildState::Unknown,
        ChildState::Online,
        ChildState::Degraded,
        ChildState::Faulted,
    ] {
        assert_eq!(child_state_from_i32(child_state_to_i32(s)), Some(s));
    }
    assert_eq!(child_state_from_i32(-2), None);
    assert_eq!(protocol_from_i32(0), Some(Protocol::Off));
    assert_eq!(protocol_from_i32(1), Some(Protocol::Nvmf));
    assert_eq!(protocol_from_i32(2), None);

    assert_eq!(
        nexus_spec_status_from_wire(WireSpecStatus::Created),
        NexusSpecStatus::Created(NexusStatus::Unknown)
    );
    assert_eq!(nexus_spec_status_from_wire(WireSpecStatus::Creating), SpecStatus::Creating);
    assert_eq!(
        nexus_spec_status_to_wire(&SpecStatus::Created(NexusStatus::Faulted)),
        WireSpecStatus::Created
    );
    assert_eq!(nexus_spec_status_to_wire(&SpecStatus::Deleting), WireSpecStatus::Deleting);
    assert_eq!(nexus_spec_status_to_wire(&SpecStatus::Deleted), WireSpecStatus::Deleted);
}

#[test]
fn replica_request_carries_each_filter() {
    let n = |s: &str| s.to_string();
    let r = get_replicas_request(&Filter::Node(n("a")));
    assert!(matches!(r.filter, Some(WireReplicasFilter::Node(ref x)) if x.node_id == "a"));
    let r = get_replicas_request(&Filter::Pool(n("p")));
    assert!(matches!(r.filter, Some(WireReplicasFilter::Pool(ref x)) if x.pool_id == "p"));
    let r = get_replicas_request(&Filter::NodePool(n("a"), n("p")));
    assert!(matches!(r.filter, Some(WireReplicasFilter::NodePool(ref x))
        if x.node_id == "a" && x.pool_id == "p"));
    let r = get_replicas_request(&Filter::NodePoolReplica(n("a"), n("p"), n("r")));
    assert!(matches!(r.filter, Some(WireReplicasFilter::NodePoolReplica(ref x, ref y))
        if x.node_id == "a" && x.pool_id == "p" && y.replica_id == "r"));
    let r = get_replicas_request(&Filter::NodeReplica(n("a"), n("r")));
    assert!(matches!(r.filter, Some(WireReplicasFilter::NodeReplica(ref x, ref y))
        if x.node_id == "a" && y.replica_id == "r"));
    let r = get_replicas_request(&Filter::PoolReplica(n("p"), n("r")));
    assert!(matches!(r.filter, Some(WireReplicasFilter::PoolReplica(ref x, ref y))
        if x.pool_id == "p" && y.replica_id == "r"));
    let r = get_replicas_request(&Filter::Replica(n("r")));
    assert!(matches!(r.filter, Some(WireReplicasFilter::Replica(ref x)) if x.replica_id == "r"));
    let r = get_replicas_request(&Filter::Volume(n("v")));
    assert!(matches!(r.filter, Some(WireReplicasFilter::Volume(ref x)) if x.volume_id == "v"));
    let r = get_replicas_request(&Filter::All);
    assert!(r.filter.is_none());
    let r = get_replicas_request(&Filter::Nexus(n("x")));
    assert!(r.filter.is_none());

    let r = get_nodes_request(&Filter::Node(n("a")));
    assert!(matches!(r.filter, Some(WireNodesFilter::Node(ref x)) if x.node_id == "a"));
    let r = get_nodes_request(&Filter::Pool(n("p")));
    assert!(r.filter.is_none());
}

#[test]
fn pool_request_filters_decode() {
    let f = pools_request_filter(&GetPoolsRequest { filter: None });
    assert!(matches!(f, Filter::All));
    let f = pools_request_filter(&GetPoolsRequest {
        filter: Some(WirePoolsFilter::Node(WireNodeFilter { node_id: "a".to_string() })),
    });
    assert!(matches!(f, Filter::Node(ref x) if x == "a"));
}

#[test]
fn reply_interpretation() {
    let ok = GetReplicasReply { reply: Some(GetReplicasReplyKind::Replicas(vec![])) };
    assert!(interpret_replicas_reply(ok).unwrap().is_empty());

    let err = GetReplicasReply {
        reply: Some(GetReplicasReplyKind::Error(ReplyError::new(
            ReplyErrorKind::NotFound,
            ResourceKind::Replica,
            "gone".to_string(),
        ))),
    };
    assert_eq!(interpret_replicas_reply(err).unwrap_err().kind, ReplyErrorKind::NotFound);

    let empty = GetReplicasReply { reply: None };
    let e = interpret_replicas_reply(empty).unwrap_err();
    assert_eq!(e.kind, ReplyErrorKind::Internal);
    assert_eq!(e.resource, ResourceKind::Replica);

    let nodes_reply = GetNodesReply { reply: None };
    let e = interpret_nodes_reply(nodes_reply).unwrap_err();
    assert_eq!(e.kind, ReplyErrorKind::Internal);
    assert_eq!(e.resource, ResourceKind::Node);

    assert!(interpret_error_only_reply(ErrorOnlyReply { error: None }).is_ok());
    let e = interpret_error_only_reply(ErrorOnlyReply {
        error: Some(ReplyError::new(
            ReplyErrorKind::Timeout,
            ResourceKind::Pool,
            "late".to_string(),
        )),
    })
    .unwrap_err();
    assert_eq!(e.kind, ReplyErrorKind::Timeout);
}

#[test]
fn replica_mutation_requests_carry_their_fields() {
    let req = CreateReplica {
        node: "node-a".to_string(),
        uuid: "r1".to_string(),
        pool: "p1".to_string(),
        size: 512,
        thin: true,
        share: Protocol::Nvmf,
        managed: true,
    };
    let w = create_replica_request(&req);
    assert_eq!(w.node_id, "node-a");
    assert_eq!(w.replica_id, "r1");
    assert_eq!(w.pool_id, "p1");
    assert_eq!(w.size, 512);
    assert!(w.thin);
    assert_eq!(protocol_from_i32(w.share), Some(Protocol::Nvmf));
    assert!(w.managed);

    let n = |s: &str| s.to_string();
    let w = destroy_replica_request(&n("node-a"), &n("p1"), &n("r1"));
    assert_eq!(w.node_id, "node-a");
    assert_eq!(w.pool_id, "p1");
    assert_eq!(w.replica_id, "r1");

    let w = share_replica_request(&n("node-a"), &n("p1"), &n("r1"), Protocol::Nvmf);
    assert_eq!(w.replica_id, "r1");
    assert_eq!(protocol_from_i32(w.share), Some(Protocol::Nvmf));

    let w = unshare_replica_request(&n("node-a"), &n("p1"), &n("r1"));
    assert_eq!(w.replica_id, "r1");
}

#[test]
fn request_timeouts_prefer_the_context() {
    assert_eq!(request_timeout_ms(Some(1_500), 5_000), 1_500);
    assert_eq!(request_timeout_ms(None, 5_000), 5_000);
}

#[test]
fn registration_conversions() {
    let w = WireRegisterRequest { id: "n".to_string(), grpc_endpoint: "n:1".to_string() };
    let typed = register_from_wire(&w);
    assert_eq!(typed.id, "n");
    assert_eq!(typed.grpc_endpoint, "n:1");
    let back = register_to_wire(&typed);
    assert_eq!(back.id, "n");

    let w = WireDeregisterRequest { id: "n".to_string() };
    let typed = deregister_from_wire(&w);
    assert_eq!(typed.id, "n");
    assert_eq!(deregister_to_wire(&Deregister { id: "m".to_string() }).id, "m");
}

#[test]
fn node_server_answers_reads() {
    let mut service = Service::new(2_000);
    service
        .register(
            &Register { id: "node-a".to_string(), grpc_endpoint: "a:1".to_string() },
            1_000,
        )
        .unwrap();
    let server = NodeServer::new(service);
    let reply = server.get_nodes(&GetNodesRequest { filter: None });
    match reply.reply {
        Some(GetNodesReplyKind::Nodes(nodes)) => {
            assert_eq!(nodes.len(), 1);
            assert_eq!(nodes[0].id, "node-a");
        },
        _ => panic!("expected a node listing"),
    }
    let reply = server.get_nodes(&GetNodesRequest {
        filter: Some(WireNodesFilter::Node(WireNodeFilter { node_id: "ghost".to_string() })),
    });
    match reply.reply {
        Some(GetNodesReplyKind::Nodes(nodes)) => assert!(nodes.is_empty()),
        _ => panic!("expected a node listing"),
    }
}

#[test]
fn pool_server_drives_service() {
    let mut service = Service::new(2_000);
    service
        .register(
            &Register { id: "node-a".to_string(), grpc_endpoint: "a:1".to_string() },
            1_000,
        )
        .unwrap();
    let mut server = PoolServer::new(service);
    let request = CreatePoolRequest {
        node_id: "node-a".to_string(),
        pool_id: "p1".to_string(),
        disks: vec!["/dev/sda".to_string()],
    };
    let outcome = Ok(Pool {
        node: "node-a".to_string(),
        id: "p1".to_string(),
        disks: vec!["/dev/sda".to_string()],
        status: PoolStatus::Online,
    });
    let reply = server.create_pool(&request, &outcome);
    assert!(matches!(reply.reply, Some(CreatePoolReplyKind::Pool(ref p)) if p.id == "p1"));

    let reply = server.create_pool(&request, &outcome);
    assert!(matches!(reply.reply, Some(CreatePoolReplyKind::Error(ref e))
        if e.kind == ReplyErrorKind::AlreadyExists));

    let listing = server.get_pools(&GetPoolsRequest { filter: None });
    match listing.reply {
        Some(GetPoolsReplyKind::Pools(pools)) => assert_eq!(pools.len(), 1),
        _ => panic!("expected a pool listing"),
    }

    let destroy = core_agent::rpc::DestroyPoolRequest {
        node_id: "node-a".to_string(),
        pool_id: "p1".to_string(),
    };
    let reply = server.destroy_pool(&destroy, &Ok(()));
    assert!(reply.error.is_none());
}

#[test]
fn servers_mount_as_grpc_handles() {
    let node_server = NodeServer::new(Service::new(2_000));
    let mounted = node_server.into_grpc_server();
    let reply = mounted.inner.get_nodes(&GetNodesRequest { filter: None });
    assert!(matches!(reply.reply, Some(GetNodesReplyKind::Nodes(ref nodes)) if nodes.is_empty()));

    let pool_server = PoolServer::new(Service::new(2_000));
    let mounted = pool_server.into_grpc_server();
    let listing = mounted.inner.get_pools(&GetPoolsRequest { filter: None });
    assert!(matches!(listing.reply, Some(GetPoolsReplyKind::Pools(ref pools)) if pools.is_empty()));
}

#[test]
fn registration_server_round_trip() {
    let service = Service::new(2_000);
    let mut server = RegistrationServer::new(service);
    server
        .register(
            &WireRegisterRequest { id: "node-a".to_string(), grpc_endpoint: "a:1".to_string() },
            1_000,
        )
        .unwrap();
    assert!(server.probe().ready);

    // Every failure surfaces as aborted on the wire.
    let err = server
        .register(
            &WireRegisterRequest { id: String::new(), grpc_endpoint: "a:1".to_string() },
            1_000,
        )
        .unwrap_err();
    assert_eq!(err.kind, ReplyErrorKind::Aborted);

    server.deregister(&WireDeregisterRequest { id: "node-a".to_string() }).unwrap();
    let err = server
        .deregister(&WireDeregisterRequest { id: "node-a".to_string() })
        .unwrap_err();
    assert_eq!(err.kind, ReplyErrorKind::Aborted);
}

#[test]
fn filter_views_cover_every_variant() {
    let n = |s: &str| s.to_string();
    let filters = vec![
        Filter::All,
        Filter::Node(n("a")),
        Filter::Pool(n("p")),
        Filter::NodePool(n("a"), n("p")),
        Filter::NodeReplica(n("a"), n("r")),
        Filter::NodePoolReplica(n("a"), n("p"), n("r")),
        Filter::PoolReplica(n("p"), n("r")),
        Filter::Replica(n("r")),
        Filter::Volume(n("v")),
        Filter::Nexus(n("x")),
    ];
    // Every filter clones to an equal-reading value.
    for f in &filters {
        let c = f.clone();
        assert_eq!(format!("{:?}", c), format!("{:?}", f));
    }
}
