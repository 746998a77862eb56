//! Node registration, the watchdog deadline, and node reads.

use core_agent::errors::ReplyErrorKind;
use core_agent::service::Service;
use core_agent::transport::{Deregister, Filter, NodeStatus, Register};

fn heartbeat(id: &str, endpoint: &str) -> Register {
    Register { id: id.to_string(), grpc_endpoint: endpoint.to_string() }
}

#[test]
fn node() {
    // A registered node shows Online; silence for the deadline takes
    // it Offline; a new heartbeat brings it back Online; stopping it
    // for good removes the observed state.
    let deadline = 2_000;
    let mut service = Service::new(deadline);
    let endpoint = format!("{}:10124", "node-1");
    service.register(&heartbeat("node-1", &endpoint), 1_000).unwrap();

    let nodes = service.get_nodes(&Filter::All);
    assert_eq!(nodes.len(), 1);
    let node = &nodes[0];
    assert_eq!(node.id, "node-1");
    assert_eq!(node.spec.as_ref().unwrap().grpc_endpoint, endpoint);
    assert_eq!(node.state.as_ref().unwrap().status, NodeStatus::Online);

    // Before the deadline the node stays online.
    service.poll_nodes(2_500);
    let nodes = service.get_nodes(&Filter::All);
    assert_eq!(nodes[0].state.as_ref().unwrap().status, NodeStatus::Online);

    // Past the deadline the watchdog takes it offline.
    service.poll_nodes(1_000 + deadline);
    let nodes = service.get_nodes(&Filter::All);
    assert_eq!(nodes.len(), 1);
    assert_eq!(nodes[0].state.as_ref().unwrap().status, NodeStatus::Offline);

    // A new heartbeat brings it back within one tick.
    service.register(&heartbeat("node-1", &endpoint), 4_000).unwrap();
    let nodes = service.get_nodes(&Filter::All);
    assert_eq!(nodes[0].state.as_ref().unwrap().status, NodeStatus::Online);

    // Deregistration tombstones the node.
    service.deregister(&Deregister { id: "node-1".to_string() }).unwrap();
    assert_eq!(service.get_nodes(&Filter::All).len(), 0);
}

#[test]
fn register_validation_and_conflicts() {
    let mut service = Service::new(2_000);

    let err = service.register(&heartbeat("", "a:1"), 0).unwrap_err();
    assert_eq!(err.kind, ReplyErrorKind::MissingArgument);
    let err = service.register(&heartbeat("node-1", ""), 0).unwrap_err();
    assert_eq!(err.kind, ReplyErrorKind::MissingArgument);

    service.register(&heartbeat("node-1", "a:1"), 1_000).unwrap();

    // A live node cannot re-register under another endpoint.
    let err = service.register(&heartbeat("node-1", "b:1"), 1_500).unwrap_err();
    assert_eq!(err.kind, ReplyErrorKind::PreconditionFailed);

    // Once the deadline has passed, the endpoint may change.
    service.register(&heartbeat("node-1", "b:1"), 4_000).unwrap();
    let nodes = service.get_nodes(&Filter::Node("node-1".to_string()));
    assert_eq!(nodes[0].spec.as_ref().unwrap().grpc_endpoint, "b:1");

    // The same endpoint is always a plain heartbeat.
    service.register(&heartbeat("node-1", "b:1"), 4_500).unwrap();
}

#[test]
fn deregister_unknown_node() {
    let mut service = Service::new(2_000);
    let err = service.deregister(&Deregister { id: "ghost".to_string() }).unwrap_err();
    assert_eq!(err.kind, ReplyErrorKind::NotFound);
    let err = service.deregister(&Deregister { id: String::new() }).unwrap_err();
    assert_eq!(err.kind, ReplyErrorKind::MissingArgument);
}

#[test]
fn node_filters() {
    let mut service = Service::new(2_000);
    service.register(&heartbeat("node-1", "a:1"), 0).unwrap();
    service.register(&heartbeat("node-2", "b:1"), 0).unwrap();

    assert_eq!(service.get_nodes(&Filter::All).len(), 2);
    let one = service.get_nodes(&Filter::Node("node-2".to_string()));
    assert_eq!(one.len(), 1);
    assert_eq!(one[0].id, "node-2");
    // A filter that does not select nodes yields an empty, well-defined
    // result.
    assert_eq!(service.get_nodes(&Filter::Pool("p".to_string())).len(), 0);
    assert_eq!(service.get_nodes(&Filter::Node("ghost".to_string())).len(), 0);
}

#[test]
fn probe_ready() {
    let service = Service::new(2_000);
    assert!(service.probe());
}
