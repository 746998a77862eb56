//! Unit checks of the data model: volume transactions, replica
//! ownership bookkeeping, projections, and request round-trips.

use core_agent::nexus::{NexusSpec, NexusState, ReplicaUri};
use core_agent::nexus_child::NexusChild;
use core_agent::replica::ReplicaOwners;
use core_agent::pool::PoolSpec;
use core_agent::service::Service;
use core_agent::store::{SpecStatus, Store};
use core_agent::transport::{
    Child, ChildState, ChildStateReason, CreateNexus, CreatePool, Filter, Nexus, NexusStatus,
    PoolStatus, Protocol, Register, Replica, ReplicaStatus,
};
use core_agent::volume::{VolumeOperation, VolumePolicy, VolumeSpec, VolumeStatus};

#[test]
fn volume_spec_transaction() {
    let mut volume = VolumeSpec::new("v1".to_string(), 2, VolumePolicy { self_heal: true });
    assert!(matches!(volume.spec_status, SpecStatus::Creating));
    assert!(!volume.pending_op());

    volume.start_op(VolumeOperation::Create).unwrap();
    let err = volume.start_op(VolumeOperation::Destroy).unwrap_err();
    assert_eq!(err.kind, core_agent::errors::ReplyErrorKind::Conflict);
    volume.set_op_result(true);
    volume.commit_op();
    assert!(matches!(volume.spec_status, SpecStatus::Created(VolumeStatus::Online)));

    volume.start_op(VolumeOperation::Destroy).unwrap();
    volume.set_op_result(false);
    volume.commit_op();
    // The failed destroy rolls back: the volume stays created.
    assert!(matches!(volume.spec_status, SpecStatus::Created(VolumeStatus::Online)));

    volume.start_op(VolumeOperation::Destroy).unwrap();
    volume.clear_op();
    assert!(!volume.pending_op());
}

#[test]
fn volume_specs_survive_restart() {
    let mut store = Store::new();
    let volume = VolumeSpec::new("v1".to_string(), 3, VolumePolicy { self_heal: false });
    store.put_volume_spec(&volume).unwrap();

    let service = Service::from_store(store, 2_000);
    let recovered = service.registry.volume_specs.get_cloned(&"v1".to_string()).unwrap();
    assert_eq!(recovered.uuid, "v1");
    assert_eq!(recovered.num_replicas, 3);

    let mut store = service.store;
    store.delete_volume_spec(&"v1".to_string()).unwrap();
    let service = Service::from_store(store, 2_000);
    assert!(service.registry.volume_specs.get_cloned(&"v1".to_string()).is_none());
}

#[test]
fn replica_owner_bookkeeping() {
    let mut owners = ReplicaOwners::none();
    assert!(owners.is_orphan());
    owners.add_nexus(&"n1".to_string());
    owners.add_nexus(&"n2".to_string());
    assert!(!owners.is_orphan());
    owners.remove_nexus(&"n1".to_string());
    assert_eq!(owners.nexuses.len(), 1);
    owners.remove_nexus(&"n2".to_string());
    assert!(owners.is_orphan());
    // Removing an absent owner is a no-op.
    owners.remove_nexus(&"n2".to_string());
    assert!(owners.is_orphan());
}

#[test]
fn pool_spec_projection() {
    let request = CreatePool {
        node: "node-a".to_string(),
        id: "p1".to_string(),
        disks: vec!["/dev/sda".to_string(), "/dev/sdb".to_string()],
    };
    let pool_spec = PoolSpec::from_request(&request);
    assert!(matches!(pool_spec.spec_status, SpecStatus::Creating));
    let runtime = pool_spec.to_runtime();
    assert_eq!(runtime.node, "node-a");
    assert_eq!(runtime.id, "p1");
    assert_eq!(runtime.disks, vec!["/dev/sda".to_string(), "/dev/sdb".to_string()]);
    assert_eq!(runtime.status, PoolStatus::Unknown);
}

#[test]
fn nexus_request_round_trips() {
    let request = CreateNexus {
        node: "node-a".to_string(),
        uuid: "n1".to_string(),
        name: None,
        size: 4096,
        children: vec![NexusChild::Replica(ReplicaUri::new(
            &"r1".to_string(),
            &"nvmf://a/r1".to_string(),
        ))],
        managed: true,
        owner: Some("v1".to_string()),
        config: None,
    };
    let nexus_spec = NexusSpec::from_request(&request);
    // The name defaults to the identifier when the request names none.
    assert_eq!(nexus_spec.name, "n1");

    // The request rebuilt from the spec describes the same nexus.
    let rebuilt = nexus_spec.create_request();
    assert!(nexus_spec.matches_request(&rebuilt));

    let destroy = nexus_spec.destroy_request();
    assert_eq!(destroy.node, "node-a");
    assert_eq!(destroy.uuid, "n1");
}

#[test]
fn node_polls_refresh_state_caches() {
    let mut service = Service::new(2_000);
    service
        .register(
            &Register { id: "node-a".to_string(), grpc_endpoint: "a:1".to_string() },
            1_000,
        )
        .unwrap();

    service.observe_pool(core_agent::transport::Pool {
        node: "node-a".to_string(),
        id: "p1".to_string(),
        disks: vec![],
        status: PoolStatus::Degraded,
    });
    service.observe_replica(Replica {
        node: "node-a".to_string(),
        uuid: "r1".to_string(),
        pool: "p1".to_string(),
        size: 512,
        share: Protocol::Off,
        thin: true,
        uri: "bdev:///r1".to_string(),
        status: ReplicaStatus::Online,
    });
    service.observe_nexus(Nexus {
        node: "node-a".to_string(),
        name: "n1".to_string(),
        uuid: "n1".to_string(),
        size: 4096,
        status: NexusStatus::Online,
        children: vec![],
        device_uri: String::new(),
        rebuilds: 0,
        share: Protocol::Off,
    });

    assert_eq!(service.get_pools(&Filter::All).len(), 1);
    assert_eq!(service.get_pools(&Filter::All)[0].status, PoolStatus::Degraded);
    assert_eq!(service.get_replicas(&Filter::Pool("p1".to_string())).len(), 1);
    assert_eq!(service.get_nexuses(&Filter::Nexus("n1".to_string())).len(), 1);

    // A later poll replaces the observation wholesale.
    service.observe_pool(core_agent::transport::Pool {
        node: "node-a".to_string(),
        id: "p1".to_string(),
        disks: vec![],
        status: PoolStatus::Online,
    });
    assert_eq!(service.get_pools(&Filter::All).len(), 1);
    assert_eq!(service.get_pools(&Filter::All)[0].status, PoolStatus::Online);
}

#[test]
fn hosts_acl_sentinel_disables_the_list() {
    let acl = vec!["nqn-a".to_string(), "none".to_string(), "nqn-b".to_string()];
    assert!(core_agent::service::effective_hosts_acl(acl).is_empty());

    let acl = vec!["nqn-a".to_string(), "nqn-b".to_string()];
    let kept = core_agent::service::effective_hosts_acl(acl);
    assert_eq!(kept, vec!["nqn-a".to_string(), "nqn-b".to_string()]);

    assert!(core_agent::service::effective_hosts_acl(Vec::new()).is_empty());
}

#[test]
fn observed_nexus_becomes_cached_state() {
    let nexus = Nexus {
        node: "node-a".to_string(),
        name: "n1".to_string(),
        uuid: "n1".to_string(),
        size: 4096,
        status: NexusStatus::Degraded,
        children: vec![Child {
            uri: "nvmf://a/r1".to_string(),
            state: ChildState::Degraded,
            rebuild_progress: Some(10),
            state_reason: ChildStateReason::Unknown,
        }],
        device_uri: "nvmf://a/n1".to_string(),
        rebuilds: 1,
        share: Protocol::Nvmf,
    };
    let state = NexusState::from(nexus);
    assert_eq!(state.nexus.uuid, "n1");
    assert_eq!(state.nexus.status, NexusStatus::Degraded);
    assert_eq!(state.key().key_uuid(), "n1");
}
