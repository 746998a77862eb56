//! Pool and replica lifecycles, ownership integrity, and filtered
//! reads across every filter variant.

use core_agent::errors::{ReplyError, ReplyErrorKind, ResourceKind};
use core_agent::nexus::ReplicaUri;
use core_agent::nexus_child::NexusChild;
use core_agent::replica::CreateReplica;
use core_agent::service::Service;
use core_agent::store::SpecStatus;
use core_agent::transport::{
    Child, ChildState, ChildStateReason, CreateNexus, CreatePool, DestroyNexus, DestroyPool,
    Filter, Nexus, NexusStatus, Pool, PoolStatus, Protocol, Register, Replica, ReplicaStatus,
};

fn register_node(service: &mut Service, id: &str) {
    let req = Register { id: id.to_string(), grpc_endpoint: format!("{}:10124", id) };
    service.register(&req, 1_000).unwrap();
}

fn pool_request(node: &str, id: &str) -> CreatePool {
    CreatePool {
        node: node.to_string(),
        id: id.to_string(),
        disks: vec!["/dev/sda".to_string()],
    }
}

fn observed_pool(node: &str, id: &str) -> Pool {
    Pool {
        node: node.to_string(),
        id: id.to_string(),
        disks: vec!["/dev/sda".to_string()],
        status: PoolStatus::Online,
    }
}

fn replica_request(node: &str, pool: &str, uuid: &str) -> CreateReplica {
    CreateReplica {
        node: node.to_string(),
        uuid: uuid.to_string(),
        pool: pool.to_string(),
        size: 512,
        thin: false,
        share: Protocol::Off,
        managed: true,
    }
}

fn observed_replica(node: &str, pool: &str, uuid: &str) -> Replica {
    Replica {
        node: node.to_string(),
        uuid: uuid.to_string(),
        pool: pool.to_string(),
        size: 512,
        share: Protocol::Off,
        thin: false,
        uri: format!("bdev:///{}", uuid),
        status: ReplicaStatus::Online,
    }
}

fn setup_pool_and_replica(service: &mut Service) {
    register_node(service, "node-a");
    service
        .create_pool(&pool_request("node-a", "p1"), &Ok(observed_pool("node-a", "p1")))
        .unwrap();
    service
        .create_replica(
            &replica_request("node-a", "p1", "r1"),
            &Ok(observed_replica("node-a", "p1", "r1")),
        )
        .unwrap();
}

#[test]
fn pool_lifecycle() {
    let mut service = Service::new(2_000);
    register_node(&mut service, "node-a");

    let created = service
        .create_pool(&pool_request("node-a", "p1"), &Ok(observed_pool("node-a", "p1")))
        .unwrap();
    assert_eq!(created.status, PoolStatus::Online);
    let spec = service.registry.pool_specs.get_cloned(&"p1".to_string()).unwrap();
    assert!(matches!(spec.spec_status, SpecStatus::Created(PoolStatus::Online)));

    let err = service
        .create_pool(&pool_request("node-a", "p1"), &Ok(observed_pool("node-a", "p1")))
        .unwrap_err();
    assert_eq!(err.kind, ReplyErrorKind::AlreadyExists);

    service
        .destroy_pool(
            &DestroyPool { node: "node-a".to_string(), id: "p1".to_string() },
            &Ok(()),
        )
        .unwrap();
    let spec = service.registry.pool_specs.get_cloned(&"p1".to_string()).unwrap();
    assert!(matches!(spec.spec_status, SpecStatus::Deleted));
    assert_eq!(service.get_pools(&Filter::All).len(), 0);
}

#[test]
fn pool_destroy_refused_while_hosting_replicas() {
    let mut service = Service::new(2_000);
    setup_pool_and_replica(&mut service);

    let err = service
        .destroy_pool(
            &DestroyPool { node: "node-a".to_string(), id: "p1".to_string() },
            &Ok(()),
        )
        .unwrap_err();
    assert_eq!(err.kind, ReplyErrorKind::PreconditionFailed);
    assert_eq!(err.resource, ResourceKind::Pool);
}

#[test]
fn replica_lifecycle_and_share() {
    let mut service = Service::new(2_000);
    setup_pool_and_replica(&mut service);

    let uuid = "r1".to_string();
    let uri = service
        .share_replica(&uuid, Protocol::Nvmf, &Ok("nvmf://a/r1".to_string()))
        .unwrap();
    assert_eq!(uri, "nvmf://a/r1");
    let spec = service.registry.replica_specs.get_cloned(&uuid).unwrap();
    assert_eq!(spec.share, Protocol::Nvmf);

    let err = service
        .share_replica(&uuid, Protocol::Off, &Ok(String::new()))
        .unwrap_err();
    assert_eq!(err.kind, ReplyErrorKind::InvalidArgument);

    service.unshare_replica(&uuid, &Ok(())).unwrap();
    let spec = service.registry.replica_specs.get_cloned(&uuid).unwrap();
    assert_eq!(spec.share, Protocol::Off);

    service.destroy_replica(&uuid, &Ok(())).unwrap();
    let spec = service.registry.replica_specs.get_cloned(&uuid).unwrap();
    assert!(matches!(spec.spec_status, SpecStatus::Deleted));
    assert_eq!(service.get_replicas(&Filter::All).len(), 0);
}

#[test]
fn replica_owned_by_nexus_cannot_be_destroyed() {
    // A replica that is a child of a nexus spec cannot go while the
    // membership persists.
    let mut service = Service::new(2_000);
    setup_pool_and_replica(&mut service);

    let request = CreateNexus {
        node: "node-a".to_string(),
        uuid: "n1".to_string(),
        name: None,
        size: 512,
        children: vec![NexusChild::Replica(ReplicaUri::new(
            &"r1".to_string(),
            &"nvmf://a/r1".to_string(),
        ))],
        managed: true,
        owner: None,
        config: None,
    };
    let outcome = Ok(Nexus {
        node: "node-a".to_string(),
        name: "n1".to_string(),
        uuid: "n1".to_string(),
        size: 512,
        status: NexusStatus::Online,
        children: vec![Child {
            uri: "nvmf://a/r1".to_string(),
            state: ChildState::Online,
            rebuild_progress: None,
            state_reason: ChildStateReason::Unknown,
        }],
        device_uri: String::new(),
        rebuilds: 0,
        share: Protocol::Off,
    });
    service.create_nexus(&request, &outcome).unwrap();

    let err = service.destroy_replica(&"r1".to_string(), &Ok(())).unwrap_err();
    assert_eq!(err.kind, ReplyErrorKind::PreconditionFailed);
    assert_eq!(err.resource, ResourceKind::Replica);

    // Once the nexus is gone, the replica may go too.
    service
        .destroy_nexus(&DestroyNexus::new("node-a".to_string(), "n1".to_string()), &Ok(()))
        .unwrap();
    service.destroy_replica(&"r1".to_string(), &Ok(())).unwrap();
}

#[test]
fn replica_filters_are_total() {
    let mut service = Service::new(2_000);
    setup_pool_and_replica(&mut service);
    register_node(&mut service, "node-b");
    service
        .create_pool(&pool_request("node-b", "p2"), &Ok(observed_pool("node-b", "p2")))
        .unwrap();
    service
        .create_replica(
            &replica_request("node-b", "p2", "r2"),
            &Ok(observed_replica("node-b", "p2", "r2")),
        )
        .unwrap();

    let n = |s: &str| s.to_string();
    assert_eq!(service.get_replicas(&Filter::All).len(), 2);
    assert_eq!(service.get_replicas(&Filter::Node(n("node-a"))).len(), 1);
    assert_eq!(service.get_replicas(&Filter::Pool(n("p2"))).len(), 1);
    assert_eq!(service.get_replicas(&Filter::NodePool(n("node-a"), n("p1"))).len(), 1);
    assert_eq!(service.get_replicas(&Filter::NodePool(n("node-a"), n("p2"))).len(), 0);
    assert_eq!(
        service.get_replicas(&Filter::NodePoolReplica(n("node-b"), n("p2"), n("r2"))).len(),
        1
    );
    assert_eq!(service.get_replicas(&Filter::NodeReplica(n("node-a"), n("r1"))).len(), 1);
    assert_eq!(service.get_replicas(&Filter::PoolReplica(n("p1"), n("r1"))).len(), 1);
    assert_eq!(service.get_replicas(&Filter::Replica(n("r2"))).len(), 1);
    // Selections replicas cannot be read by are well-defined and empty.
    assert_eq!(service.get_replicas(&Filter::Volume(n("v1"))).len(), 0);
    assert_eq!(service.get_replicas(&Filter::Nexus(n("n1"))).len(), 0);

    // Pool reads across their variants.
    assert_eq!(service.get_pools(&Filter::All).len(), 2);
    assert_eq!(service.get_pools(&Filter::Node(n("node-b"))).len(), 1);
    assert_eq!(service.get_pools(&Filter::Pool(n("p1"))).len(), 1);
    assert_eq!(service.get_pools(&Filter::NodePool(n("node-b"), n("p2"))).len(), 1);
    assert_eq!(service.get_pools(&Filter::Replica(n("r1"))).len(), 0);
}

#[test]
fn replica_create_requires_pool_and_node() {
    let mut service = Service::new(2_000);
    register_node(&mut service, "node-a");

    let err = service
        .create_replica(
            &replica_request("node-a", "p1", "r1"),
            &Ok(observed_replica("node-a", "p1", "r1")),
        )
        .unwrap_err();
    assert_eq!(err.kind, ReplyErrorKind::NotFound);
    assert_eq!(err.resource, ResourceKind::Pool);

    service
        .create_pool(&pool_request("node-a", "p1"), &Ok(observed_pool("node-a", "p1")))
        .unwrap();
    let err = service
        .create_replica(
            &replica_request("node-z", "p1", "r1"),
            &Ok(observed_replica("node-z", "p1", "r1")),
        )
        .unwrap_err();
    assert_eq!(err.kind, ReplyErrorKind::NotFound);
    assert_eq!(err.resource, ResourceKind::Node);

    let mut bad = replica_request("node-a", "p1", "r1");
    bad.uuid = String::new();
    let err = service
        .create_replica(&bad, &Ok(observed_replica("node-a", "p1", "r1")))
        .unwrap_err();
    assert_eq!(err.kind, ReplyErrorKind::MissingArgument);

    // A data-plane failure rolls the replica spec back to Creating.
    let failure: Result<Replica, ReplyError> = Err(ReplyError::new(
        ReplyErrorKind::Unavailable,
        ResourceKind::Replica,
        "node refused".to_string(),
    ));
    let err = service.create_replica(&replica_request("node-a", "p1", "r1"), &failure).unwrap_err();
    assert_eq!(err.kind, ReplyErrorKind::Unavailable);
    let spec = service.registry.replica_specs.get_cloned(&"r1".to_string()).unwrap();
    assert!(matches!(spec.spec_status, SpecStatus::Creating));
}
