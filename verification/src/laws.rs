//! Laws of the operation transaction, the watchdog and the filters,
//! proved once and for all over the mathematical models the contracts
//! speak of.

use vstd::prelude::*;
use crate::nexus::{NexusOperationStateView, NexusOperationView, NexusSpecView};
use crate::nexus_child::NexusChildView;
use crate::node::NodeEntryView;
use crate::recovery::resolved_nexus_spec;
use crate::store::SpecStatus;
use crate::transport::{CreateNexusView, NexusStatus, NodeStatus};

verus! {

/// Single-flight: recording an operation occupies the spec's one slot,
/// the slot stays occupied while the outcome is recorded, and only a
/// commit clears it.  The exec `start_op` refuses a second operation
/// exactly while the slot is occupied.
pub proof fn lemma_single_flight(s: NexusSpecView, op: NexusOperationView, result: bool)
    requires
        s.operation is None,
    ensures
        s.started(op).operation is Some,
        s.started(op).with_result(result).operation is Some,
        s.started(op).with_result(result).committed().operation is None,
{
}

/// Durability of creation: committing a successful `Create` recorded
/// on a fresh spec leaves the spec `Created(Online)` with no operation
/// in flight — the value `create_nexus` persists before returning
/// success, and the value `from_store` rehydrates after a restart.
pub proof fn lemma_create_commit(req: CreateNexusView)
    ensures
        NexusSpecView::from_request(req).started(NexusOperationView::Create).with_result(
            true,
        ).committed() == (NexusSpecView {
            spec_status: SpecStatus::Created(NexusStatus::Online),
            ..NexusSpecView::from_request(req)
        }),
{
    assert(NexusSpecView::from_request(req).started(NexusOperationView::Create).with_result(
        true,
    ).committed() =~= (NexusSpecView {
        spec_status: SpecStatus::Created(NexusStatus::Online),
        ..NexusSpecView::from_request(req)
    }));
}

/// Rollback: committing a failed `Create` recorded on a fresh spec
/// returns the spec unchanged — still `Creating`, never `Created` —
/// and leaves it for the reconciler.
pub proof fn lemma_create_rollback(req: CreateNexusView)
    ensures
        NexusSpecView::from_request(req).started(NexusOperationView::Create).with_result(
            false,
        ).committed() == NexusSpecView::from_request(req),
        !NexusSpecView::from_request(req).started(NexusOperationView::Create).with_result(
            false,
        ).committed().spec_status.is_created(),
{
    assert(NexusSpecView::from_request(req).started(NexusOperationView::Create).with_result(
        false,
    ).committed() =~= NexusSpecView::from_request(req));
}

/// Idempotent replay: a recorded outcome decides the resolution
/// whatever the data plane reports afterwards, and resolving a spec a
/// second time changes nothing.
pub proof fn lemma_replay_idempotent(s: NexusSpecView, p1: bool, p2: bool)
    ensures
        (s.operation matches Some(st) && st.result is Some) ==> resolved_nexus_spec(s, p1)
            == resolved_nexus_spec(s, p2),
        resolved_nexus_spec(resolved_nexus_spec(s, p1), p2) == resolved_nexus_spec(s, p1),
{
    match s.operation {
        Some(st) => {
            assert(resolved_nexus_spec(s, p1).operation is None);
        },
        None => {},
    }
}

/// Replayed addition never duplicates: however a recorded `AddChild`
/// is resolved, the children either gain the child once or stay as
/// they were.
pub proof fn lemma_add_child_no_duplicate(s: NexusSpecView, c: NexusChildView, performed: bool)
    requires
        s.operation == Some(
            NexusOperationStateView { operation: NexusOperationView::AddChild(c), result: None },
        ),
    ensures
        resolved_nexus_spec(s, performed).children == s.children.push(c)
            || resolved_nexus_spec(s, performed).children == s.children,
{
}

/// Child-list atomicity: recording an operation, recording its
/// outcome, and clearing the record never touch the children; only a
/// commit changes the list, in one step.
pub proof fn lemma_child_list_atomic(s: NexusSpecView, op: NexusOperationView, result: bool)
    ensures
        s.started(op).children == s.children,
        s.with_result(result).children == s.children,
        s.cleared().children == s.children,
{
}

/// Liveness: a registration leaves a node `Online`; an online node
/// whose deadline has elapsed goes `Offline` at the next watchdog
/// check, and one whose deadline has not elapsed is untouched; a node
/// the watchdog took offline returns `Online` on its next
/// registration.
pub proof fn lemma_watchdog_liveness(
    e: NodeEntryView,
    endpoint: Seq<char>,
    now1: u64,
    now2: u64,
    deadline: u64,
)
    ensures
        e.registered(endpoint, now1).status == NodeStatus::Online,
        e.status == NodeStatus::Online && now2 >= e.last_seen + deadline ==> e.watchdog_step(
            now2,
            deadline,
        ).status == NodeStatus::Offline,
        !e.expired(now2, deadline) ==> e.watchdog_step(now2, deadline) == e,
        e.watchdog_step(now2, deadline).registered(endpoint, now1).status == NodeStatus::Online,
{
}

/// Filter totality: every filter value yields a well-defined
/// selection — never more entries than the table holds, every
/// selected entry matches, and every matching entry is selected.
/// Each lookup's own contract fixes the selection predicate of its
/// kind.
pub proof fn lemma_filter_totality<A>(entries: Seq<A>, pred: spec_fn(A) -> bool)
    ensures
        entries.filter(pred).len() <= entries.len(),
        forall|i: int| 0 <= i < entries.filter(pred).len() ==> pred(
            #[trigger] entries.filter(pred)[i],
        ),
        forall|i: int| 0 <= i < entries.len() && pred(#[trigger] entries[i])
            ==> entries.filter(pred).contains(entries[i]),
{
    entries.lemma_filter_len(pred);
    assert forall|i: int| 0 <= i < entries.filter(pred).len() implies pred(
        #[trigger] entries.filter(pred)[i],
    ) by {
        entries.lemma_filter_pred(pred, i);
    }
    assert forall|i: int| 0 <= i < entries.len() && pred(#[trigger] entries[i]) implies entries
        .filter(pred).contains(entries[i]) by {
        entries.lemma_filter_contains(pred, i);
    }
}

} // verus!
