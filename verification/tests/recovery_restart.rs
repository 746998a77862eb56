//! Crash-restart scenarios: durability of committed specs, replay of
//! recorded operations, and loss of the store lease.

use core_agent::errors::{ReplyError, ReplyErrorKind, ResourceKind};
use core_agent::nexus::{NexusOperation, ReplicaUri};
use core_agent::nexus_child::NexusChild;
use core_agent::service::Service;
use core_agent::store::SpecStatus;
use core_agent::transport::{
    Child, ChildState, ChildStateReason, CreateNexus, Filter, Nexus, NexusStatus, NodeStatus,
    Protocol, Register,
};

fn register_node(service: &mut Service, id: &str) {
    let req = Register { id: id.to_string(), grpc_endpoint: format!("{}:10124", id) };
    service.register(&req, 1_000).unwrap();
}

fn create_request(node: &str, uuid: &str) -> CreateNexus {
    CreateNexus {
        node: node.to_string(),
        uuid: uuid.to_string(),
        name: None,
        size: 1024,
        children: vec![NexusChild::Uri("nvmf://a/r1".to_string())],
        managed: true,
        owner: None,
        config: None,
    }
}

fn observed(node: &str, uuid: &str) -> Nexus {
    Nexus {
        node: node.to_string(),
        name: uuid.to_string(),
        uuid: uuid.to_string(),
        size: 1024,
        status: NexusStatus::Online,
        children: vec![Child {
            uri: "nvmf://a/r1".to_string(),
            state: ChildState::Online,
            rebuild_progress: None,
            state_reason: ChildStateReason::Unknown,
        }],
        device_uri: String::new(),
        rebuilds: 0,
        share: Protocol::Off,
    }
}

#[test]
fn durability_across_restart() {
    // After a successful create returns, a crash-restart observes the
    // spec as Created.
    let mut service = Service::new(2_000);
    register_node(&mut service, "node-a");
    let request = create_request("node-a", "n1");
    service.create_nexus(&request, &Ok(observed("node-a", "n1"))).unwrap();

    let restarted = Service::from_store(service.store, 2_000);
    let spec = restarted.registry.nexus_specs.get_cloned(&"n1".to_string()).unwrap();
    assert!(matches!(spec.spec_status, SpecStatus::Created(NexusStatus::Online)));
    assert!(spec.operation.is_none());

    // State caches start empty; the durable node spec survives, and
    // the node carries no observed state until it registers again.
    assert_eq!(restarted.get_nexuses(&Filter::All).len(), 0);
    let nodes = restarted.get_nodes(&Filter::All);
    assert_eq!(nodes.len(), 1);
    assert_eq!(nodes[0].id, "node-a");
    assert_eq!(nodes[0].spec.as_ref().unwrap().grpc_endpoint, "node-a:10124");
    assert!(nodes[0].state.is_none());

    // Its first registration brings the observed projection back.
    let mut restarted = restarted;
    restarted
        .register(
            &Register {
                id: "node-a".to_string(),
                grpc_endpoint: "node-a:10124".to_string(),
            },
            5_000,
        )
        .unwrap();
    let nodes = restarted.get_nodes(&Filter::All);
    assert_eq!(nodes[0].state.as_ref().unwrap().status, NodeStatus::Online);
}

#[test]
fn crash_restart_pending_add_child() {
    // A crash with AddChild recorded and no outcome: on restart the
    // reconciler either completes the add or rolls it back; the
    // children never hold a duplicate.
    let mut service = Service::new(2_000);
    register_node(&mut service, "node-a");
    let request = create_request("node-a", "n1");
    service.create_nexus(&request, &Ok(observed("node-a", "n1"))).unwrap();

    // Record the pending operation and persist it, as the op path does
    // right before the data-plane call; then "crash".
    let extra = NexusChild::Replica(ReplicaUri::new(
        &"r3".to_string(),
        &"nvmf://a/r3".to_string(),
    ));
    let mut spec = service.registry.nexus_specs.get_cloned(&"n1".to_string()).unwrap();
    spec.start_op(NexusOperation::AddChild(extra)).unwrap();
    service.store.put_nexus_spec(&spec).unwrap();

    // Restart; the recovered spec still carries the operation.
    let mut restarted = Service::from_store(service.store, 2_000);
    let recovered = restarted.registry.nexus_specs.get_cloned(&"n1".to_string()).unwrap();
    assert!(recovered.pending_op());

    // The data plane already performed the add: the commit applies it
    // exactly once.
    restarted.resolve_pending_nexus(&"n1".to_string(), true).unwrap();
    let done = restarted.registry.nexus_specs.get_cloned(&"n1".to_string()).unwrap();
    assert!(done.operation.is_none());
    assert_eq!(done.children.len(), 2);
    assert!(done.contains_replica(&"r3".to_string()));

    // Resolving again changes nothing: the record is gone.
    restarted.resolve_pending_nexus(&"n1".to_string(), true).unwrap();
    let again = restarted.registry.nexus_specs.get_cloned(&"n1".to_string()).unwrap();
    assert_eq!(again.children.len(), 2);

    // The other branch: the data plane never performed the add; the
    // operation rolls back and the children are untouched.
    let mut spec = again.clone();
    spec.start_op(NexusOperation::RemoveChild(NexusChild::Replica(ReplicaUri::new(
        &"r3".to_string(),
        &"nvmf://a/r3".to_string(),
    ))))
    .unwrap();
    restarted.store.put_nexus_spec(&spec).unwrap();
    let mut second = Service::from_store(restarted.store, 2_000);
    second.resolve_pending_nexus(&"n1".to_string(), false).unwrap();
    let rolled = second.registry.nexus_specs.get_cloned(&"n1".to_string()).unwrap();
    assert!(rolled.operation.is_none());
    assert_eq!(rolled.children.len(), 2);
    assert!(rolled.contains_replica(&"r3".to_string()));
}

#[test]
fn lease_loss_is_fatal() {
    // Losing the cluster lease makes every write fail as Aborted; the
    // process must give up leadership (exit) on that kind.
    let mut service = Service::new(2_000);
    register_node(&mut service, "node-a");
    service.store.revoke_lease();

    let request = create_request("node-a", "n1");
    let err = service.create_nexus(&request, &Ok(observed("node-a", "n1"))).unwrap_err();
    assert_eq!(err.kind, ReplyErrorKind::Aborted);

    let err = service
        .register(
            &Register { id: "node-b".to_string(), grpc_endpoint: "b:1".to_string() },
            2_000,
        )
        .unwrap_err();
    assert_eq!(err.kind, ReplyErrorKind::Aborted);
}

#[test]
fn store_outage_leaves_slot_occupied() {
    // A store timeout surfaces as Unavailable and leaves the pending
    // operation recorded for the reconciler.
    let mut service = Service::new(2_000);
    register_node(&mut service, "node-a");
    let request = create_request("node-a", "n1");
    service.store.set_online(false);
    let err = service.create_nexus(&request, &Ok(observed("node-a", "n1"))).unwrap_err();
    assert_eq!(err.kind, ReplyErrorKind::Unavailable);

    let cached = service.registry.nexus_specs.get_cloned(&"n1".to_string()).unwrap();
    assert!(cached.pending_op());
    assert!(matches!(cached.spec_status, SpecStatus::Creating));

    // The store comes back; resolving the slot completes the create.
    service.store.set_online(true);
    service.resolve_pending_nexus(&"n1".to_string(), true).unwrap();
    let done = service.registry.nexus_specs.get_cloned(&"n1".to_string()).unwrap();
    assert!(matches!(done.spec_status, SpecStatus::Created(NexusStatus::Online)));
}

#[test]
fn replay_with_recorded_outcome_ignores_data_plane() {
    // A recorded outcome wins over whatever the data plane reports.
    let mut service = Service::new(2_000);
    register_node(&mut service, "node-a");
    let request = create_request("node-a", "n1");
    service.create_nexus(&request, &Ok(observed("node-a", "n1"))).unwrap();

    let mut spec = service.registry.nexus_specs.get_cloned(&"n1".to_string()).unwrap();
    spec.start_op(NexusOperation::Shutdown).unwrap();
    spec.set_op_result(false);
    service.store.put_nexus_spec(&spec).unwrap();

    let mut restarted = Service::from_store(service.store, 2_000);
    // The data plane claims the shutdown happened, but the recorded
    // failure decides: the operation rolls back.
    restarted.resolve_pending_nexus(&"n1".to_string(), true).unwrap();
    let done = restarted.registry.nexus_specs.get_cloned(&"n1".to_string()).unwrap();
    assert!(matches!(done.spec_status, SpecStatus::Created(NexusStatus::Online)));

    let missing: Result<(), ReplyError> = restarted.resolve_pending_nexus(&"ghost".to_string(), true);
    let err = missing.unwrap_err();
    assert_eq!(err.kind, ReplyErrorKind::NotFound);
    assert_eq!(err.resource, ResourceKind::Nexus);
}
