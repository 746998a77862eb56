//! Reconciler decisions: the policy table, the fixed walking order,
//! and garbage collection of quiesced tombstones.

use core_agent::errors::{ReplyError, ReplyErrorKind, ResourceKind};
use core_agent::ha::ClusterAgentSvc;
use core_agent::nexus::{NexusOperation, NexusSpec, NexusSpecKey, NexusState, NexusStateKey, ReplicaUri};
use core_agent::store::{OperationSequence, StorableObjectType};
use core_agent::reconciler::ReconcileAction;
use core_agent::service::Service;
use core_agent::store::SpecStatus;
use core_agent::transport::{
    Child, ChildState, ChildStateReason, CreateNexus, CreatePool, DestroyNexus, Nexus,
    NexusStatus, Pool, PoolStatus, Protocol, Register,
};
use core_agent::nexus_child::NexusChild;

fn register_node(service: &mut Service, id: &str) {
    let req = Register { id: id.to_string(), grpc_endpoint: format!("{}:10124", id) };
    service.register(&req, 1_000).unwrap();
}

fn create_request(node: &str, uuid: &str) -> CreateNexus {
    CreateNexus {
        node: node.to_string(),
        uuid: uuid.to_string(),
        name: None,
        size: 1024,
        children: vec![NexusChild::Uri("nvmf://a/r1".to_string())],
        managed: true,
        owner: None,
        config: None,
    }
}

fn observed(node: &str, uuid: &str, status: NexusStatus, child_state: ChildState) -> Nexus {
    Nexus {
        node: node.to_string(),
        name: uuid.to_string(),
        uuid: uuid.to_string(),
        size: 1024,
        status,
        children: vec![Child {
            uri: "nvmf://a/r1".to_string(),
            state: child_state,
            rebuild_progress: None,
            state_reason: ChildStateReason::Unknown,
        }],
        device_uri: String::new(),
        rebuilds: 0,
        share: Protocol::Off,
    }
}

#[test]
fn plan_walks_pools_then_replicas_then_nexuses() {
    let mut service = Service::new(2_000);
    register_node(&mut service, "node-a");
    // A pool spec stuck in Creating with no observed pool.
    service
        .create_pool(
            &CreatePool {
                node: "node-a".to_string(),
                id: "p1".to_string(),
                disks: vec![],
            },
            &Err(core_agent::errors::ReplyError::new(
                ReplyErrorKind::Unavailable,
                ResourceKind::Pool,
                "down".to_string(),
            )),
        )
        .unwrap_err();
    // A healthy nexus.
    service
        .create_nexus(
            &create_request("node-a", "n1"),
            &Ok(observed("node-a", "n1", NexusStatus::Online, ChildState::Online)),
        )
        .unwrap();

    // A nexus spec stuck in Creating with no observed nexus.
    service
        .create_nexus(
            &create_request("node-a", "n2"),
            &Err(core_agent::errors::ReplyError::new(
                ReplyErrorKind::Unavailable,
                ResourceKind::Nexus,
                "down".to_string(),
            )),
        )
        .unwrap_err();

    let plan = service.reconcile_plan(0, 3);
    assert_eq!(plan.len(), 3);
    assert_eq!(plan[0].kind, ResourceKind::Pool);
    assert_eq!(plan[0].id, "p1");
    assert!(matches!(plan[0].action, ReconcileAction::IssueCreate));
    assert_eq!(plan[1].kind, ResourceKind::Nexus);
    assert_eq!(plan[1].id, "n1");
    assert!(matches!(plan[1].action, ReconcileAction::Idle));
    assert_eq!(plan[2].id, "n2");
    assert!(matches!(plan[2].action, ReconcileAction::IssueCreate));

    // Past the attempt budget, a pending nexus creation raises an
    // alarm instead of another attempt.
    let plan = service.reconcile_plan(3, 3);
    assert!(matches!(plan[2].action, ReconcileAction::Alarm));
}

#[test]
fn faulted_child_triggers_replacement() {
    let mut service = Service::new(2_000);
    register_node(&mut service, "node-a");
    service
        .create_nexus(
            &create_request("node-a", "n1"),
            &Ok(observed("node-a", "n1", NexusStatus::Online, ChildState::Online)),
        )
        .unwrap();
    // The node now reports the nexus faulted with a faulted child.
    service.registry.nexus_states.insert(NexusState {
        nexus: observed("node-a", "n1", NexusStatus::Faulted, ChildState::Faulted),
    });

    let plan = service.reconcile_plan(0, 3);
    assert_eq!(plan.len(), 1);
    match &plan[0].action {
        ReconcileAction::ReplaceChild(uri) => assert_eq!(uri, "nvmf://a/r1"),
        other => panic!("expected a child replacement, got {:?}", other),
    }
}

#[test]
fn offline_node_marks_observation_unknown() {
    let mut service = Service::new(2_000);
    register_node(&mut service, "node-a");
    service
        .create_nexus(
            &create_request("node-a", "n1"),
            &Ok(observed("node-a", "n1", NexusStatus::Online, ChildState::Online)),
        )
        .unwrap();
    // The node goes silent past its deadline.
    service.poll_nodes(10_000);
    let plan = service.reconcile_plan(0, 3);
    assert_eq!(plan.len(), 1);
    assert!(matches!(plan[0].action, ReconcileAction::MarkUnknown));
}

#[test]
fn marking_unknown_touches_state_not_spec() {
    let mut service = Service::new(2_000);
    register_node(&mut service, "node-a");
    service
        .create_nexus(
            &create_request("node-a", "n1"),
            &Ok(observed("node-a", "n1", NexusStatus::Online, ChildState::Online)),
        )
        .unwrap();
    service.mark_nexus_unknown(&"n1".to_string()).unwrap();

    let state = service.registry.nexus_states.get_cloned(&"n1".to_string()).unwrap();
    assert_eq!(state.nexus.status, NexusStatus::Unknown);
    let spec = service.registry.nexus_specs.get_cloned(&"n1".to_string()).unwrap();
    assert!(matches!(spec.spec_status, SpecStatus::Created(NexusStatus::Online)));

    let err = service.mark_nexus_unknown(&"ghost".to_string()).unwrap_err();
    assert_eq!(err.kind, ReplyErrorKind::NotFound);
}

#[test]
fn child_list_untouched_until_commit() {
    // An observer reading the spec never sees the list mid-mutation:
    // recording the operation and its outcome leave the list as it
    // was; the commit changes it in one step.
    let mut spec = NexusSpec::from_request(&create_request("node-a", "n1"));
    let before = spec.children.len();
    spec.start_op(NexusOperation::AddChild(NexusChild::Uri("nvmf://a/r2".to_string())))
        .unwrap();
    assert_eq!(spec.children.len(), before);
    spec.set_op_result(true);
    assert_eq!(spec.children.len(), before);
    spec.commit_op();
    assert_eq!(spec.children.len(), before + 1);
}

#[test]
fn pending_operation_resolves_first() {
    let mut service = Service::new(2_000);
    register_node(&mut service, "node-a");
    service
        .create_nexus(
            &create_request("node-a", "n1"),
            &Ok(observed("node-a", "n1", NexusStatus::Online, ChildState::Online)),
        )
        .unwrap();
    let mut spec = service.registry.nexus_specs.get_cloned(&"n1".to_string()).unwrap();
    spec.start_op(NexusOperation::Shutdown).unwrap();
    service.registry.nexus_specs.insert(spec);

    let plan = service.reconcile_plan(0, 3);
    assert!(matches!(plan[0].action, ReconcileAction::ResolvePending));

    // While the slot is occupied, every further operation is refused.
    let err = service
        .destroy_nexus(&DestroyNexus::new("node-a".to_string(), "n1".to_string()), &Ok(()))
        .unwrap_err();
    assert_eq!(err.kind, ReplyErrorKind::Conflict);

    // Both projections of the nexus read together.
    let info = service.get_nexus(&"n1".to_string()).unwrap();
    assert!(info.spec.pending_op());
    assert_eq!(info.status, Some(NexusStatus::Online));
    assert!(service.get_nexus(&"ghost".to_string()).is_none());
}

#[test]
fn garbage_collection_of_quiesced_tombstones() {
    let mut service = Service::new(2_000);
    register_node(&mut service, "node-a");
    service
        .create_nexus(
            &create_request("node-a", "n1"),
            &Ok(observed("node-a", "n1", NexusStatus::Online, ChildState::Online)),
        )
        .unwrap();

    // The reconciler may not delete a spec that is not tombstoned.
    let err = service.gc_nexus(&"n1".to_string()).unwrap_err();
    assert_eq!(err.kind, ReplyErrorKind::PreconditionFailed);

    service
        .destroy_nexus(&DestroyNexus::new("node-a".to_string(), "n1".to_string()), &Ok(()))
        .unwrap();
    let plan = service.reconcile_plan(0, 3);
    assert!(matches!(plan[0].action, ReconcileAction::GarbageCollect));

    service.gc_nexus(&"n1".to_string()).unwrap();
    assert!(service.registry.nexus_specs.get_cloned(&"n1".to_string()).is_none());

    let err = service.gc_nexus(&"n1".to_string()).unwrap_err();
    assert_eq!(err.kind, ReplyErrorKind::NotFound);
}

#[test]
fn pool_tombstone_collects() {
    let mut service = Service::new(2_000);
    register_node(&mut service, "node-a");
    service
        .create_pool(
            &CreatePool { node: "node-a".to_string(), id: "p1".to_string(), disks: vec![] },
            &Ok(Pool {
                node: "node-a".to_string(),
                id: "p1".to_string(),
                disks: vec![],
                status: PoolStatus::Online,
            }),
        )
        .unwrap();
    service
        .destroy_pool(
            &core_agent::transport::DestroyPool {
                node: "node-a".to_string(),
                id: "p1".to_string(),
            },
            &Ok(()),
        )
        .unwrap();
    let plan = service.reconcile_plan(0, 3);
    assert!(matches!(plan[0].action, ReconcileAction::GarbageCollect));
    service.gc_pool(&"p1".to_string()).unwrap();
    assert!(!service.store.pool_specs.entries.iter().any(|p| p.id == "p1"));
}

#[test]
fn sequencer_slot() {
    let mut slot = OperationSequence::new("n1".to_string());
    assert!(slot.try_acquire());
    assert!(!slot.try_acquire());
    slot.release();
    assert!(slot.try_acquire());
}

#[test]
fn store_keys() {
    let key = NexusSpecKey::new(&"n1".to_string());
    assert_eq!(key.key_type(), StorableObjectType::NexusSpec);
    assert_eq!(key.key_uuid(), "n1");
    let key = NexusStateKey::new(&"n1".to_string());
    assert_eq!(key.key_type(), StorableObjectType::NexusState);
    assert_eq!(key.key_uuid(), "n1");

    let spec = NexusSpec::from_request(&create_request("node-a", "n9"));
    assert_eq!(spec.key().key_uuid(), "n9");
    assert!(matches!(spec.spec_status, SpecStatus::Creating));
}

#[test]
fn replica_uri_accessors() {
    let uri = ReplicaUri::new(&"r1".to_string(), &"nvmf://a/r1".to_string());
    assert_eq!(uri.uuid().as_str(), "r1");
    assert_eq!(uri.uri().as_str(), "nvmf://a/r1");
    let copy = uri.clone();
    assert!(copy == uri);
}

#[test]
fn cluster_agent_validation() {
    let svc = ClusterAgentSvc::new();
    assert!(svc.register("node-1", "10.1.0.1:50052").is_ok());
    let err = svc.register("", "10.1.0.1:50052").unwrap_err();
    assert_eq!(err.kind, ReplyErrorKind::MissingArgument);
    let err = svc.register("node-1", "").unwrap_err();
    assert_eq!(err.kind, ReplyErrorKind::MissingArgument);
    let err = svc.report_failed_nvme_paths().unwrap_err();
    assert_eq!(err.kind, ReplyErrorKind::Unimplemented);
    assert!(err.message_string().contains("not yet implemented"));
}

#[test]
fn error_constructors() {
    assert_eq!(ReplyError::lease_lost().kind, ReplyErrorKind::Aborted);
    assert_eq!(ReplyError::store_unavailable().kind, ReplyErrorKind::Unavailable);
    assert_eq!(ReplyError::op_in_progress(ResourceKind::Nexus).kind, ReplyErrorKind::Conflict);
    assert_eq!(ReplyError::invalid_response(ResourceKind::Pool).kind, ReplyErrorKind::Internal);
    assert_eq!(
        ReplyError::unwrap_err(ResourceKind::Nexus).kind,
        ReplyErrorKind::InvalidArgument
    );
    assert_eq!(ReplyError::tonic_reply_error().kind, ReplyErrorKind::Internal);
    assert_eq!(
        ReplyError::missing_argument(ResourceKind::Node, "id").kind,
        ReplyErrorKind::MissingArgument
    );
    assert_eq!(ReplyError::unimplemented("later".to_string()).kind, ReplyErrorKind::Unimplemented);
}
