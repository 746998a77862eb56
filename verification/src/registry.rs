//! In-memory registry: the authoritative cache of desired specs and the
//! volatile cache of observed states, with filtered lookups.
//!
//! Lookups return owned snapshots; no reference into the cache leaks.
//! Every filter variant yields a well-defined, possibly empty, result:
//! a filter that does not apply to a kind selects nothing of that kind.

use vstd::prelude::*;
use crate::nexus::{NexusSpec, NexusState, NexusStateView};
use crate::node::{NodeEntry, NodeEntryView};
use crate::pool::PoolSpec;
use crate::replica::ReplicaSpec;
use crate::table::{ResourceTable, Storable};
use crate::transport::{
    Filter, FilterView, Node, NodeView, Pool, PoolView, Replica, ReplicaView,
};
use crate::volume::VolumeSpec;

verus! {

impl Storable for Pool {
    /// Observed pools are filed under the pool identifier.
    open spec fn key_of(v: PoolView) -> Seq<char> {
        v.id
    }

    fn table_key(&self) -> (r: String)
        ensures
            r@ == Self::key_of(self@),
    {
        self.id.clone()
    }

    fn duplicate(&self) -> (r: Pool)
        ensures
            r@ == self@,
    {
        self.clone()
    }
}

impl Storable for Replica {
    /// Observed replicas are filed under the replica identifier.
    open spec fn key_of(v: ReplicaView) -> Seq<char> {
        v.uuid
    }

    fn table_key(&self) -> (r: String)
        ensures
            r@ == Self::key_of(self@),
    {
        self.uuid.clone()
    }

    fn duplicate(&self) -> (r: Replica)
        ensures
            r@ == self@,
    {
        self.clone()
    }
}

/// Whether a node entry is selected by a filter.
pub open spec fn node_matches(f: FilterView, e: NodeEntryView) -> bool {
    match f {
        FilterView::All => true,
        FilterView::Node(id) => e.spec.id == id,
        _ => false,
    }
}

/// The node-entry predicate of a filter.
pub open spec fn node_selected(f: FilterView) -> spec_fn(NodeEntryView) -> bool {
    |e: NodeEntryView| node_matches(f, e)
}

/// The projection from a registry node entry to the node served out.
pub open spec fn node_projection() -> spec_fn(NodeEntryView) -> NodeView {
    |e: NodeEntryView| e.to_node()
}

/// Whether an observed pool is selected by a filter.
pub open spec fn pool_matches(f: FilterView, p: PoolView) -> bool {
    match f {
        FilterView::All => true,
        FilterView::Node(n) => p.node == n,
        FilterView::Pool(i) => p.id == i,
        FilterView::NodePool(n, i) => p.node == n && p.id == i,
        _ => false,
    }
}

/// The pool predicate of a filter.
pub open spec fn pool_selected(f: FilterView) -> spec_fn(PoolView) -> bool {
    |p: PoolView| pool_matches(f, p)
}

/// Whether an observed replica is selected by a filter.
pub open spec fn replica_matches(f: FilterView, r: ReplicaView) -> bool {
    match f {
        FilterView::All => true,
        FilterView::Node(n) => r.node == n,
        FilterView::Pool(p) => r.pool == p,
        FilterView::NodePool(n, p) => r.node == n && r.pool == p,
        FilterView::NodeReplica(n, u) => r.node == n && r.uuid == u,
        FilterView::NodePoolReplica(n, p, u) => r.node == n && r.pool == p && r.uuid == u,
        FilterView::PoolReplica(p, u) => r.pool == p && r.uuid == u,
        FilterView::Replica(u) => r.uuid == u,
        _ => false,
    }
}

/// The replica predicate of a filter.
pub open spec fn replica_selected(f: FilterView) -> spec_fn(ReplicaView) -> bool {
    |r: ReplicaView| replica_matches(f, r)
}

/// Whether an observed nexus is selected by a filter.
pub open spec fn nexus_matches(f: FilterView, s: NexusStateView) -> bool {
    match f {
        FilterView::All => true,
        FilterView::Node(n) => s.nexus.node == n,
        FilterView::Nexus(u) => s.nexus.uuid == u,
        _ => false,
    }
}

/// The nexus-state predicate of a filter.
pub open spec fn nexus_selected(f: FilterView) -> spec_fn(NexusStateView) -> bool {
    |s: NexusStateView| nexus_matches(f, s)
}

/// The projection from a cached nexus state to the nexus served out.
pub open spec fn nexus_projection() -> spec_fn(NexusStateView) -> crate::transport::NexusView {
    |s: NexusStateView| s.nexus
}

/// The in-memory registry: spec caches rehydrated from the store, state
/// caches refreshed from the nodes.
pub struct Registry {
    /// Known nodes, their liveness and registration times.
    pub nodes: ResourceTable<NodeEntry>,
    /// Desired pools.
    pub pool_specs: ResourceTable<PoolSpec>,
    /// Observed pools.
    pub pool_states: ResourceTable<Pool>,
    /// Desired replicas.
    pub replica_specs: ResourceTable<ReplicaSpec>,
    /// Observed replicas.
    pub replica_states: ResourceTable<Replica>,
    /// Desired nexuses.
    pub nexus_specs: ResourceTable<NexusSpec>,
    /// Observed nexuses.
    pub nexus_states: ResourceTable<NexusState>,
    /// Desired volumes.
    pub volume_specs: ResourceTable<VolumeSpec>,
}

impl Registry {
    /// Well-formed: every table files at most one entry per key.
    pub open spec fn wf(self) -> bool {
        &&& self.nodes.wf()
        &&& self.pool_specs.wf()
        &&& self.pool_states.wf()
        &&& self.replica_specs.wf()
        &&& self.replica_states.wf()
        &&& self.nexus_specs.wf()
        &&& self.nexus_states.wf()
        &&& self.volume_specs.wf()
    }

    /// An empty registry.
    pub fn new() -> (r: Registry)
        ensures
            r.wf(),
            r.nodes.entries@.len() == 0,
            r.pool_specs.entries@.len() == 0,
            r.pool_states.entries@.len() == 0,
            r.replica_specs.entries@.len() == 0,
            r.replica_states.entries@.len() == 0,
            r.nexus_specs.entries@.len() == 0,
            r.nexus_states.entries@.len() == 0,
            r.volume_specs.entries@.len() == 0,
    {
        Registry {
            nodes: ResourceTable::new(),
            pool_specs: ResourceTable::new(),
            pool_states: ResourceTable::new(),
            replica_specs: ResourceTable::new(),
            replica_states: ResourceTable::new(),
            nexus_specs: ResourceTable::new(),
            nexus_states: ResourceTable::new(),
            volume_specs: ResourceTable::new(),
        }
    }

    /// Owned snapshots of the nodes the filter selects, in table order,
    /// each carrying both its spec and its observed state.
    pub fn get_nodes(&self, filter: &Filter) -> (r: Vec<Node>)
        ensures
            r@.map_values(|n: Node| n@) == self.nodes.entries@.map_values(
                |e: NodeEntry| e@,
            ).filter(node_selected(filter@)).map_values(node_projection()),
    {
        let ghost s = self.nodes.entries@.map_values(|e: NodeEntry| e@);
        let ghost sel = node_selected(filter@);
        let ghost proj = node_projection();
        let mut out: Vec<Node> = Vec::new();
        let mut i: usize = 0;
        proof {
            reveal(Seq::filter);
        }
        while i < self.nodes.entries.len()
            invariant
                i <= self.nodes.entries@.len(),
                s == self.nodes.entries@.map_values(|e: NodeEntry| e@),
                sel == node_selected(filter@),
                proj == node_projection(),
                out@.map_values(|n: Node| n@) == s.subrange(0, i as int).filter(sel).map_values(
                    proj,
                ),
            decreases self.nodes.entries@.len() - i,
        {
            let ghost prefix = s.subrange(0, i as int);
            let ghost next = s.subrange(0, i + 1 as int);
            proof {
                assert(next.drop_last() =~= prefix);
                assert(next.last() == s[i as int]);
                reveal(Seq::filter);
                assert(next.filter(sel) == if sel(s[i as int]) {
                    prefix.filter(sel).push(s[i as int])
                } else {
                    prefix.filter(sel)
                });
            }
            let e = &self.nodes.entries[i];
            let selected = match filter {
                Filter::All => true,
                Filter::Node(id) => e.spec.id == *id,
                _ => false,
            };
            proof {
                assert(selected == sel(s[i as int]));
            }
            if selected {
                out.push(e.to_node());
                proof {
                    assert(out@.map_values(|n: Node| n@) =~= prefix.filter(sel).map_values(
                        proj,
                    ).push(proj(s[i as int])));
                    assert(next.filter(sel).map_values(proj) =~= prefix.filter(sel).map_values(
                        proj,
                    ).push(proj(s[i as int])));
                }
            }
            i = i + 1;
        }
        proof {
            assert(s.subrange(0, s.len() as int) =~= s);
        }
        out
    }

    /// Owned snapshots of the observed pools the filter selects, in
    /// table order.
    pub fn get_pools(&self, filter: &Filter) -> (r: Vec<Pool>)
        ensures
            r@.map_values(|p: Pool| p@) == self.pool_states.entries@.map_values(
                |p: Pool| p@,
            ).filter(pool_selected(filter@)),
    {
        let ghost s = self.pool_states.entries@.map_values(|p: Pool| p@);
        let ghost sel = pool_selected(filter@);
        let mut out: Vec<Pool> = Vec::new();
        let mut i: usize = 0;
        proof {
            reveal(Seq::filter);
        }
        while i < self.pool_states.entries.len()
            invariant
                i <= self.pool_states.entries@.len(),
                s == self.pool_states.entries@.map_values(|p: Pool| p@),
                sel == pool_selected(filter@),
                out@.map_values(|p: Pool| p@) == s.subrange(0, i as int).filter(sel),
            decreases self.pool_states.entries@.len() - i,
        {
            let ghost prefix = s.subrange(0, i as int);
            let ghost next = s.subrange(0, i + 1 as int);
            proof {
                assert(next.drop_last() =~= prefix);
                assert(next.last() == s[i as int]);
                reveal(Seq::filter);
                assert(next.filter(sel) == if sel(s[i as int]) {
                    prefix.filter(sel).push(s[i as int])
                } else {
                    prefix.filter(sel)
                });
            }
            let p = &self.pool_states.entries[i];
            let selected = match filter {
                Filter::All => true,
                Filter::Node(n) => p.node == *n,
                Filter::Pool(id) => p.id == *id,
                Filter::NodePool(n, id) => p.node == *n && p.id == *id,
                _ => false,
            };
            proof {
                assert(selected == sel(s[i as int]));
            }
            if selected {
                out.push(p.clone());
                proof {
                    assert(out@.map_values(|x: Pool| x@) =~= prefix.filter(sel).push(
                        s[i as int],
                    ));
                }
            }
            i = i + 1;
        }
        proof {
            assert(s.subrange(0, s.len() as int) =~= s);
        }
        out
    }

    /// Owned snapshots of the observed replicas the filter selects, in
    /// table order.
    pub fn get_replicas(&self, filter: &Filter) -> (r: Vec<Replica>)
        ensures
            r@.map_values(|x: Replica| x@) == self.replica_states.entries@.map_values(
                |x: Replica| x@,
            ).filter(replica_selected(filter@)),
    {
        let ghost s = self.replica_states.entries@.map_values(|x: Replica| x@);
        let ghost sel = replica_selected(filter@);
        let mut out: Vec<Replica> = Vec::new();
        let mut i: usize = 0;
        proof {
            reveal(Seq::filter);
        }
        while i < self.replica_states.entries.len()
            invariant
                i <= self.replica_states.entries@.len(),
                s == self.replica_states.entries@.map_values(|x: Replica| x@),
                sel == replica_selected(filter@),
                out@.map_values(|x: Replica| x@) == s.subrange(0, i as int).filter(sel),
            decreases self.replica_states.entries@.len() - i,
        {
            let ghost prefix = s.subrange(0, i as int);
            let ghost next = s.subrange(0, i + 1 as int);
            proof {
                assert(next.drop_last() =~= prefix);
                assert(next.last() == s[i as int]);
                reveal(Seq::filter);
                assert(next.filter(sel) == if sel(s[i as int]) {
                    prefix.filter(sel).push(s[i as int])
                } else {
                    prefix.filter(sel)
                });
            }
            let x = &self.replica_states.entries[i];
            let selected = match filter {
                Filter::All => true,
                Filter::Node(n) => x.node == *n,
                Filter::Pool(p) => x.pool == *p,
                Filter::NodePool(n, p) => x.node == *n && x.pool == *p,
                Filter::NodeReplica(n, u) => x.node == *n && x.uuid == *u,
                Filter::NodePoolReplica(n, p, u) => x.node == *n && x.pool == *p && x.uuid == *u,
                Filter::PoolReplica(p, u) => x.pool == *p && x.uuid == *u,
                Filter::Replica(u) => x.uuid == *u,
                _ => false,
            };
            proof {
                assert(selected == sel(s[i as int]));
            }
            if selected {
                out.push(x.clone());
                proof {
                    assert(out@.map_values(|y: Replica| y@) =~= prefix.filter(sel).push(
                        s[i as int],
                    ));
                }
            }
            i = i + 1;
        }
        proof {
            assert(s.subrange(0, s.len() as int) =~= s);
        }
        out
    }

    /// Owned snapshots of the observed nexuses the filter selects, in
    /// table order.
    pub fn get_nexuses(&self, filter: &Filter) -> (r: Vec<crate::transport::Nexus>)
        ensures
            r@.map_values(|n: crate::transport::Nexus| n@) == self.nexus_states.entries@
                .map_values(|x: NexusState| x@).filter(nexus_selected(filter@)).map_values(
                nexus_projection(),
            ),
    {
        let ghost s = self.nexus_states.entries@.map_values(|x: NexusState| x@);
        let ghost sel = nexus_selected(filter@);
        let ghost proj = nexus_projection();
        let mut out: Vec<crate::transport::Nexus> = Vec::new();
        let mut i: usize = 0;
        proof {
            reveal(Seq::filter);
        }
        while i < self.nexus_states.entries.len()
            invariant
                i <= self.nexus_states.entries@.len(),
                s == self.nexus_states.entries@.map_values(|x: NexusState| x@),
                sel == nexus_selected(filter@),
                proj == nexus_projection(),
                out@.map_values(|n: crate::transport::Nexus| n@) == s.subrange(0, i as int).filter(
                    sel,
                ).map_values(proj),
            decreases self.nexus_states.entries@.len() - i,
        {
            let ghost prefix = s.subrange(0, i as int);
            let ghost next = s.subrange(0, i + 1 as int);
            proof {
                assert(next.drop_last() =~= prefix);
                assert(next.last() == s[i as int]);
                reveal(Seq::filter);
                assert(next.filter(sel) == if sel(s[i as int]) {
                    prefix.filter(sel).push(s[i as int])
                } else {
                    prefix.filter(sel)
                });
            }
            let x = &self.nexus_states.entries[i];
            let selected = match filter {
                Filter::All => true,
                Filter::Node(n) => x.nexus.node == *n,
                Filter::Nexus(u) => x.nexus.uuid == *u,
                _ => false,
            };
            proof {
                assert(selected == sel(s[i as int]));
            }
            if selected {
                out.push(x.nexus.clone());
                proof {
                    assert(out@.map_values(|n: crate::transport::Nexus| n@) =~= prefix.filter(
                        sel,
                    ).map_values(proj).push(proj(s[i as int])));
                    assert(next.filter(sel).map_values(proj) =~= prefix.filter(sel).map_values(
                        proj,
                    ).push(proj(s[i as int])));
                }
            }
            i = i + 1;
        }
        proof {
            assert(s.subrange(0, s.len() as int) =~= s);
        }
        out
    }
}

} // verus!
