//! A child of a nexus: either a replica the control plane manages, or a
//! raw URI supplied by the user.

use vstd::prelude::*;
use crate::nexus::{ReplicaUri, ReplicaUriView};
use crate::transport::ChildUri;

verus! {

/// One child of a nexus.
#[derive(Debug)]
pub enum NexusChild {
    /// A managed replica, pinpointed by its unique identifier.
    Replica(ReplicaUri),
    /// An unmanaged device referred to only by its URI.
    Uri(ChildUri),
}

/// Mathematical mirror of [`NexusChild`].
pub enum NexusChildView {
    Replica(ReplicaUriView),
    Uri(Seq<char>),
}

impl View for NexusChild {
    type V = NexusChildView;

    open spec fn view(&self) -> NexusChildView {
        match self {
            NexusChild::Replica(r) => NexusChildView::Replica(r@),
            NexusChild::Uri(u) => NexusChildView::Uri(u@),
        }
    }
}

impl NexusChildView {
    /// The URI through which the child is reached.
    pub open spec fn uri(self) -> Seq<char> {
        match self {
            NexusChildView::Replica(r) => r.share_uri,
            NexusChildView::Uri(u) => u,
        }
    }
}

impl NexusChild {
    /// The URI through which the child is reached.
    pub fn uri(&self) -> (r: ChildUri)
        ensures
            r@ == self@.uri(),
    {
        match self {
            NexusChild::Replica(r) => r.uri().clone(),
            NexusChild::Uri(u) => u.clone(),
        }
    }

}

impl Clone for NexusChild {
    /// A copy of a child reads the same as its original.
    fn clone(&self) -> (r: NexusChild)
        ensures
            r@ == self@,
    {
        match self {
            NexusChild::Replica(u) => NexusChild::Replica(u.clone()),
            NexusChild::Uri(u) => NexusChild::Uri(u.clone()),
        }
    }
}

/// Whether some child of the list reads the same as the given one.
pub fn contains_child(children: &Vec<NexusChild>, c: &NexusChild) -> (r: bool)
    ensures
        r == children@.map_values(|x: NexusChild| x@).contains(c@),
{
    let ghost s = children@.map_values(|x: NexusChild| x@);
    let mut i: usize = 0;
    while i < children.len()
        invariant
            i <= children@.len(),
            s == children@.map_values(|x: NexusChild| x@),
            forall|j: int| 0 <= j < i ==> s[j] != c@,
        decreases children@.len() - i,
    {
        if children[i] == *c {
            proof {
                assert(s[i as int] == c@);
            }
            return true;
        }
        i = i + 1;
    }
    proof {
        assert(forall|j: int| 0 <= j < s.len() ==> s[j] != c@);
    }
    false
}

/// Whether two child lists read the same.
pub fn children_equal(a: &Vec<NexusChild>, b: &Vec<NexusChild>) -> (r: bool)
    ensures
        r == (a@.map_values(|c: NexusChild| c@) == b@.map_values(|c: NexusChild| c@)),
{
    let ghost av = a@.map_values(|c: NexusChild| c@);
    let ghost bv = b@.map_values(|c: NexusChild| c@);
    if a.len() != b.len() {
        proof {
            assert(av.len() != bv.len());
        }
        return false;
    }
    let mut i: usize = 0;
    while i < a.len()
        invariant
            a@.len() == b@.len(),
            i <= a@.len(),
            av == a@.map_values(|c: NexusChild| c@),
            bv == b@.map_values(|c: NexusChild| c@),
            forall|j: int| 0 <= j < i ==> a@[j]@ == b@[j]@,
        decreases a@.len() - i,
    {
        if !(a[i] == b[i]) {
            proof {
                assert(av[i as int] == a@[i as int]@);
                assert(bv[i as int] == b@[i as int]@);
            }
            return false;
        }
        i = i + 1;
    }
    proof {
        assert(av =~= bv);
    }
    true
}

impl PartialEq for NexusChild {
    /// Children are equal when they are the same kind and their fields read
    /// the same.
    fn eq(&self, other: &NexusChild) -> (r: bool) {
        match (self, other) {
            (NexusChild::Replica(a), NexusChild::Replica(b)) => *a == *b,
            (NexusChild::Uri(a), NexusChild::Uri(b)) => *a == *b,
            _ => false,
        }
    }
}

impl vstd::std_specs::cmp::PartialEqSpecImpl for NexusChild {
    open spec fn obeys_eq_spec() -> bool {
        true
    }

    open spec fn eq_spec(&self, other: &NexusChild) -> bool {
        self@ == other@
    }
}

} // verus!
