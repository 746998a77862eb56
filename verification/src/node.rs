//! Node registry entries and the registration watchdog.
//!
//! A node self-registers periodically.  Each registration stamps the
//! entry with the time it was seen; if no registration arrives for the
//! configured deadline, the watchdog moves the node to `Offline`.  A
//! later registration moves it back to `Online`.

use vstd::prelude::*;
use crate::table::Storable;
use crate::transport::{Node, NodeSpec, NodeSpecView, NodeState, NodeStateView, NodeStatus, NodeView};

verus! {

/// One node as the registry tracks it: its spec, its liveness, and when
/// it last registered.
#[derive(Debug)]
pub struct NodeEntry {
    /// Desired configuration of the node.
    pub spec: NodeSpec,
    /// Liveness as judged by the watchdog.
    pub status: NodeStatus,
    /// When the node last registered, in milliseconds.
    pub last_seen: u64,
}

/// Mathematical mirror of [`NodeEntry`].
#[verifier::ext_equal]
pub struct NodeEntryView {
    pub spec: NodeSpecView,
    pub status: NodeStatus,
    pub last_seen: u64,
}

impl View for NodeEntry {
    type V = NodeEntryView;

    open spec fn view(&self) -> NodeEntryView {
        NodeEntryView { spec: self.spec@, status: self.status, last_seen: self.last_seen }
    }
}

impl Clone for NodeEntry {
    /// A copy of a node entry reads the same as its original.
    fn clone(&self) -> (r: NodeEntry)
        ensures
            r@ == self@,
    {
        let r = NodeEntry {
            spec: self.spec.clone(),
            status: self.status,
            last_seen: self.last_seen,
        };
        proof {
            assert(r@ =~= self@);
        }
        r
    }
}

impl NodeEntryView {
    /// Whether the watchdog deadline has elapsed for an online node.
    pub open spec fn expired(self, now: u64, deadline: u64) -> bool {
        self.status == NodeStatus::Online && now >= self.last_seen + deadline
    }

    /// The entry after one watchdog check at time `now`.
    pub open spec fn watchdog_step(self, now: u64, deadline: u64) -> NodeEntryView {
        if self.expired(now, deadline) {
            NodeEntryView { status: NodeStatus::Offline, ..self }
        } else {
            self
        }
    }

    /// The entry after a registration at time `now`.
    pub open spec fn registered(self, endpoint: Seq<char>, now: u64) -> NodeEntryView {
        NodeEntryView {
            spec: NodeSpecView { grpc_endpoint: endpoint, ..self.spec },
            status: NodeStatus::Online,
            last_seen: now,
        }
    }

    /// The node served to clients: the durable spec always; an
    /// observed projection only once the node's liveness has actually
    /// been judged.  An entry rehydrated from the store is `Unknown`
    /// and carries no observed state until its first registration.
    pub open spec fn to_node(self) -> NodeView {
        NodeView {
            id: self.spec.id,
            spec: Some(self.spec),
            state: if self.status == NodeStatus::Unknown {
                None
            } else {
                Some(
                    NodeStateView {
                        id: self.spec.id,
                        grpc_endpoint: self.spec.grpc_endpoint,
                        status: self.status,
                    },
                )
            },
        }
    }
}

impl NodeEntry {
    /// Whether the watchdog deadline has elapsed for an online node.
    pub fn expired(&self, now: u64, deadline: u64) -> (r: bool)
        ensures
            r == self@.expired(now, deadline),
    {
        matches!(self.status, NodeStatus::Online) && now >= self.last_seen && now - self.last_seen
            >= deadline
    }

    /// The node served to clients.
    pub fn to_node(&self) -> (r: Node)
        ensures
            r@ == self@.to_node(),
    {
        let state = if matches!(self.status, NodeStatus::Unknown) {
            None
        } else {
            Some(
                NodeState {
                    id: self.spec.id.clone(),
                    grpc_endpoint: self.spec.grpc_endpoint.clone(),
                    status: self.status,
                },
            )
        };
        let r = Node { id: self.spec.id.clone(), spec: Some(self.spec.clone()), state };
        proof {
            assert(r@ =~= self@.to_node());
        }
        r
    }
}

impl Storable for NodeEntry {
    /// Node entries are filed under the node identifier.
    open spec fn key_of(v: NodeEntryView) -> Seq<char> {
        v.spec.id
    }

    fn table_key(&self) -> (r: String)
        ensures
            r@ == Self::key_of(self@),
    {
        self.spec.id.clone()
    }

    fn duplicate(&self) -> (r: NodeEntry)
        ensures
            r@ == self@,
    {
        self.clone()
    }
}

} // verus!
