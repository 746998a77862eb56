//! Lifecycle scenarios: create and destroy a nexus, operation
//! conflicts, share and unshare, and the commit-effect table.

use core_agent::errors::{ReplyError, ReplyErrorKind, ResourceKind};
use core_agent::nexus::{NexusOperation, NexusSpec, ReplicaUri};
use core_agent::nexus_child::NexusChild;
use core_agent::service::Service;
use core_agent::store::SpecStatus;
use core_agent::transport::{
    Child, ChildState, ChildStateReason, CreateNexus, DestroyNexus, Filter, Nexus,
    NexusShareProtocol, NexusStatus, Protocol, Register,
};

fn register_node(service: &mut Service, id: &str) {
    let req = Register {
        id: id.to_string(),
        grpc_endpoint: format!("{}:10124", id),
    };
    service.register(&req, 1_000).unwrap();
}

fn replica_child(uuid: &str, uri: &str) -> NexusChild {
    NexusChild::Replica(ReplicaUri::new(&uuid.to_string(), &uri.to_string()))
}

fn observed_nexus(node: &str, uuid: &str, size: u64, children: &[&str]) -> Nexus {
    Nexus {
        node: node.to_string(),
        name: uuid.to_string(),
        uuid: uuid.to_string(),
        size,
        status: NexusStatus::Online,
        children: children
            .iter()
            .map(|u| Child {
                uri: u.to_string(),
                state: ChildState::Online,
                rebuild_progress: None,
                state_reason: ChildStateReason::Unknown,
            })
            .collect(),
        device_uri: String::new(),
        rebuilds: 0,
        share: Protocol::Off,
    }
}

fn create_request(node: &str, uuid: &str, size: u64) -> CreateNexus {
    CreateNexus {
        node: node.to_string(),
        uuid: uuid.to_string(),
        name: None,
        size,
        children: vec![
            replica_child("r1", "nvmf://a/r1"),
            replica_child("r2", "nvmf://a/r2"),
        ],
        managed: true,
        owner: None,
        config: None,
    }
}

#[test]
fn create_destroy_nexus() {
    let mut service = Service::new(10_000);
    register_node(&mut service, "node-a");

    let request = create_request("node-a", "n1", 1 << 30);
    let outcome = Ok(observed_nexus("node-a", "n1", 1 << 30, &["nvmf://a/r1", "nvmf://a/r2"]));
    let created = service.create_nexus(&request, &outcome).unwrap();
    assert_eq!(created.status, NexusStatus::Online);

    let listed = service.get_nexuses(&Filter::Node("node-a".to_string()));
    assert_eq!(listed.len(), 1);
    assert_eq!(listed[0].uuid, "n1");

    let spec = service
        .registry
        .nexus_specs
        .get_cloned(&"n1".to_string())
        .unwrap();
    assert!(matches!(spec.spec_status, SpecStatus::Created(NexusStatus::Online)));
    assert!(spec.operation.is_none());

    let destroy = DestroyNexus::new("node-a".to_string(), "n1".to_string());
    service.destroy_nexus(&destroy, &Ok(())).unwrap();
    let listed = service.get_nexuses(&Filter::Node("node-a".to_string()));
    assert_eq!(listed.len(), 0);
    let spec = service
        .registry
        .nexus_specs
        .get_cloned(&"n1".to_string())
        .unwrap();
    assert!(matches!(spec.spec_status, SpecStatus::Deleted));
}

#[test]
fn create_rejects_duplicates_and_unknown_nodes() {
    let mut service = Service::new(10_000);
    register_node(&mut service, "node-a");
    let request = create_request("node-b", "n1", 1024);
    let outcome = Ok(observed_nexus("node-b", "n1", 1024, &[]));
    let err = service.create_nexus(&request, &outcome).unwrap_err();
    assert_eq!(err.kind, ReplyErrorKind::NotFound);
    assert_eq!(err.resource, ResourceKind::Node);

    let request = create_request("node-a", "n1", 1024);
    let outcome = Ok(observed_nexus("node-a", "n1", 1024, &[]));
    service.create_nexus(&request, &outcome).unwrap();
    let err = service.create_nexus(&request, &outcome).unwrap_err();
    assert_eq!(err.kind, ReplyErrorKind::AlreadyExists);

    let empty = CreateNexus {
        uuid: String::new(),
        ..create_request("node-a", "n2", 1024)
    };
    let err = service.create_nexus(&empty, &outcome).unwrap_err();
    assert_eq!(err.kind, ReplyErrorKind::MissingArgument);
}

#[test]
fn create_rollback_on_data_plane_failure() {
    let mut service = Service::new(10_000);
    register_node(&mut service, "node-a");
    let request = create_request("node-a", "n1", 1024);
    let failure: Result<Nexus, ReplyError> = Err(ReplyError::new(
        ReplyErrorKind::Unavailable,
        ResourceKind::Nexus,
        "node refused".to_string(),
    ));
    let err = service.create_nexus(&request, &failure).unwrap_err();
    assert_eq!(err.kind, ReplyErrorKind::Unavailable);

    // The spec is not `Created`: it stays `Creating` for the reconciler.
    let spec = service
        .registry
        .nexus_specs
        .get_cloned(&"n1".to_string())
        .unwrap();
    assert!(matches!(spec.spec_status, SpecStatus::Creating));
    assert!(spec.operation.is_none());
    assert_eq!(service.get_nexuses(&Filter::All).len(), 0);
}

#[test]
fn op_conflict() {
    // Begin a share on the spec; a second operation is refused until
    // the first commits; a retried unshare then succeeds.
    let request = create_request("node-a", "n1", 1024);
    let mut spec = NexusSpec::from_request(&request);
    spec.set_op_result(true);
    spec.commit_op(); // no operation recorded: stays as it was
    assert!(spec.operation.is_none());

    spec.start_op(NexusOperation::Share(NexusShareProtocol::Nvmf)).unwrap();
    let err = spec.start_op(NexusOperation::Unshare).unwrap_err();
    assert_eq!(err.kind, ReplyErrorKind::Conflict);
    assert_eq!(err.resource, ResourceKind::Nexus);

    spec.set_op_result(true);
    spec.commit_op();
    assert_eq!(spec.share, Protocol::Nvmf);

    spec.start_op(NexusOperation::Unshare).unwrap();
    spec.set_op_result(true);
    spec.commit_op();
    assert_eq!(spec.share, Protocol::Off);
}

#[test]
fn share_unshare_nexus() {
    let mut service = Service::new(10_000);
    register_node(&mut service, "node-a");
    let request = create_request("node-a", "n1", 1024);
    let outcome = Ok(observed_nexus("node-a", "n1", 1024, &[]));
    service.create_nexus(&request, &outcome).unwrap();

    let uuid = "n1".to_string();
    let uri = service
        .share_nexus(&uuid, NexusShareProtocol::Nvmf, &Ok("nvmf://a/n1".to_string()))
        .unwrap();
    assert_eq!(uri, "nvmf://a/n1");
    let spec = service.registry.nexus_specs.get_cloned(&uuid).unwrap();
    assert_eq!(spec.share, Protocol::Nvmf);

    // Sharing an already-shared nexus is refused.
    let err = service
        .share_nexus(&uuid, NexusShareProtocol::Nvmf, &Ok(String::new()))
        .unwrap_err();
    assert_eq!(err.kind, ReplyErrorKind::PreconditionFailed);

    service.unshare_nexus(&uuid, &Ok(())).unwrap();
    let spec = service.registry.nexus_specs.get_cloned(&uuid).unwrap();
    assert_eq!(spec.share, Protocol::Off);

    let err = service.unshare_nexus(&uuid, &Ok(())).unwrap_err();
    assert_eq!(err.kind, ReplyErrorKind::PreconditionFailed);
}

#[test]
fn shutdown_requires_a_created_nexus() {
    let mut service = Service::new(10_000);
    register_node(&mut service, "node-a");
    let request = create_request("node-a", "n1", 1024);
    let failure: Result<Nexus, ReplyError> = Err(ReplyError::new(
        ReplyErrorKind::Unavailable,
        ResourceKind::Nexus,
        "node refused".to_string(),
    ));
    service.create_nexus(&request, &failure).unwrap_err();

    // The spec is still Creating: it may not move to Created(Shutdown).
    let err = service.shutdown_nexus(&"n1".to_string(), &Ok(())).unwrap_err();
    assert_eq!(err.kind, ReplyErrorKind::PreconditionFailed);
    let spec = service.registry.nexus_specs.get_cloned(&"n1".to_string()).unwrap();
    assert!(matches!(spec.spec_status, SpecStatus::Creating));

    // Once created, the shutdown goes through.
    let mut service = Service::new(10_000);
    register_node(&mut service, "node-a");
    let outcome = Ok(observed_nexus("node-a", "n1", 1024, &[]));
    service.create_nexus(&create_request("node-a", "n1", 1024), &outcome).unwrap();
    service.shutdown_nexus(&"n1".to_string(), &Ok(())).unwrap();
    let spec = service.registry.nexus_specs.get_cloned(&"n1".to_string()).unwrap();
    assert!(spec.is_shutdown());
}

#[test]
fn add_remove_child() {
    let mut service = Service::new(10_000);
    register_node(&mut service, "node-a");
    let request = create_request("node-a", "n1", 1024);
    let outcome = Ok(observed_nexus("node-a", "n1", 1024, &[]));
    service.create_nexus(&request, &outcome).unwrap();

    let uuid = "n1".to_string();
    let child = replica_child("r3", "nvmf://a/r3");
    let observed_child = Child {
        uri: "nvmf://a/r3".to_string(),
        state: ChildState::Degraded,
        rebuild_progress: Some(0),
        state_reason: ChildStateReason::Unknown,
    };
    let added = service
        .add_nexus_child(&uuid, &child, &Ok(observed_child))
        .unwrap();
    assert_eq!(added.uri, "nvmf://a/r3");
    let spec = service.registry.nexus_specs.get_cloned(&uuid).unwrap();
    assert_eq!(spec.children.len(), 3);
    assert!(spec.contains_replica(&"r3".to_string()));

    // Adding the same child again is refused.
    let err = service
        .add_nexus_child(&uuid, &replica_child("r3", "nvmf://a/r3"), &Ok(Child {
            uri: "nvmf://a/r3".to_string(),
            state: ChildState::Online,
            rebuild_progress: None,
            state_reason: ChildStateReason::Unknown,
        }))
        .unwrap_err();
    assert_eq!(err.kind, ReplyErrorKind::AlreadyExists);

    service
        .remove_nexus_child(&uuid, &replica_child("r3", "nvmf://a/r3"), &Ok(()))
        .unwrap();
    let spec = service.registry.nexus_specs.get_cloned(&uuid).unwrap();
    assert_eq!(spec.children.len(), 2);
    assert!(!spec.contains_replica(&"r3".to_string()));

    let err = service
        .remove_nexus_child(&uuid, &replica_child("r3", "nvmf://a/r3"), &Ok(()))
        .unwrap_err();
    assert_eq!(err.kind, ReplyErrorKind::NotFound);
    assert_eq!(err.resource, ResourceKind::Child);
}

#[test]
fn commit_effects() {
    // The commit-effect table, one operation at a time.
    let request = create_request("node-a", "n1", 1024);

    let mut spec = NexusSpec::from_request(&request);
    spec.start_op(NexusOperation::Create).unwrap();
    spec.set_op_result(true);
    spec.commit_op();
    assert!(matches!(spec.spec_status, SpecStatus::Created(NexusStatus::Online)));

    spec.start_op(NexusOperation::Shutdown).unwrap();
    spec.set_op_result(true);
    spec.commit_op();
    assert!(matches!(spec.spec_status, SpecStatus::Created(NexusStatus::Shutdown)));
    assert!(spec.is_shutdown());

    spec.start_op(NexusOperation::Share(NexusShareProtocol::Nvmf)).unwrap();
    spec.set_op_result(true);
    spec.commit_op();
    assert_eq!(spec.share, Protocol::Nvmf);

    spec.start_op(NexusOperation::Unshare).unwrap();
    spec.set_op_result(true);
    spec.commit_op();
    assert_eq!(spec.share, Protocol::Off);

    let extra = replica_child("r9", "nvmf://a/r9");
    spec.start_op(NexusOperation::AddChild(extra)).unwrap();
    spec.set_op_result(true);
    spec.commit_op();
    assert_eq!(spec.children.len(), 3);

    spec.start_op(NexusOperation::RemoveChild(replica_child("r9", "nvmf://a/r9")))
        .unwrap();
    spec.set_op_result(true);
    spec.commit_op();
    assert_eq!(spec.children.len(), 2);

    spec.start_op(NexusOperation::Destroy).unwrap();
    spec.set_op_result(true);
    spec.commit_op();
    assert!(matches!(spec.spec_status, SpecStatus::Deleted));

    // A failed outcome rolls back without applying.
    let mut spec = NexusSpec::from_request(&request);
    spec.start_op(NexusOperation::Create).unwrap();
    spec.set_op_result(false);
    spec.commit_op();
    assert!(matches!(spec.spec_status, SpecStatus::Creating));
    assert!(spec.operation.is_none());
}

#[test]
fn volume_disown() {
    let mut service = Service::new(10_000);
    register_node(&mut service, "node-a");
    let mut request = create_request("node-a", "n1", 1024);
    request.owner = Some("v1".to_string());
    let outcome = Ok(observed_nexus("node-a", "n1", 1024, &[]));
    service.create_nexus(&request, &outcome).unwrap();

    let uuid = "n1".to_string();
    let spec = service.registry.nexus_specs.get_cloned(&uuid).unwrap();
    assert_eq!(spec.owner, Some("v1".to_string()));

    service.disown_nexus(&uuid).unwrap();
    let spec = service.registry.nexus_specs.get_cloned(&uuid).unwrap();
    assert!(spec.owner.is_none());

    // A repeated disown is a no-op.
    service.disown_nexus(&uuid).unwrap();
    let spec = service.registry.nexus_specs.get_cloned(&uuid).unwrap();
    assert!(spec.owner.is_none());

    // Disowning directly on a spec behaves the same way.
    let mut spec = NexusSpec::from_request(&request);
    spec.disowned_by_volume();
    assert!(spec.owner.is_none());
    spec.disowned_by_volume();
    assert!(spec.owner.is_none());
}

#[test]
fn spec_matches_request_and_state() {
    let request = create_request("node-a", "n1", 1024);
    let spec = NexusSpec::from_request(&request);
    assert!(spec.matches_request(&request));

    let other = create_request("node-a", "n2", 1024);
    assert!(!spec.matches_request(&other));

    let state = spec.to_runtime();
    assert!(spec.matches_state(&state));
    assert_eq!(state.status, NexusStatus::Unknown);
    assert_eq!(state.children.len(), 2);
    assert_eq!(state.children[0].uri, "nvmf://a/r1");

    let observed = observed_nexus("node-b", "n1", 1024, &["nvmf://a/r1", "nvmf://a/r2"]);
    assert!(!spec.matches_state(&observed));
}
