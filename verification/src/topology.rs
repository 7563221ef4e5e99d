//! Topology generation.
//!
//! Given N, the builder allocates N pairwise-distinct listen addresses of
//! one transport kind, and for node i the default full-mesh bootstrap set:
//! every address except address i. A caller-supplied filter may thin that
//! set to build other topologies (star, chain, partial mesh); whatever it
//! picks, a node's own address never ends up in its bootstrap set.

use vstd::prelude::*;

use crate::address::{NodeAddress, Transport};

verus! {

/// Relies on rand::random: a value drawn from the standard distribution.
/// Nothing is promised of a random draw.
pub assume_specification<T>[ rand::random::<T> ]() -> (r: T)
    where
        rand::distributions::Standard: rand::distributions::Distribution<T>,
;

/// Draws the routing number the allocation of one swarm's addresses starts
/// from; distinct invocations are free to start elsewhere.
pub fn fresh_route_base() -> u64 {
    rand::random::<u64>()
}

/// The routing number allocation actually starts from: the requested base,
/// moved to zero when `base + n` would not fit in a `u64`, so that one
/// invocation's routes never collide by wrapping.
pub open spec fn effective_base(base: u64, n: nat) -> int {
    if n == 0 {
        base as int
    } else if base + n - 1 <= u64::MAX {
        base as int
    } else {
        0
    }
}

/// No address appears twice in the sequence.
pub open spec fn pairwise_distinct(s: Seq<NodeAddress>) -> bool {
    forall|i: int, j: int| 0 <= i < j < s.len() ==> s[i] != s[j]
}

/// Allocates `n` listen addresses of one transport kind, collision-free
/// within this invocation: address i gets routing number base' + i.
pub fn generate_addresses(kind: Transport, base: u64, n: usize) -> (addrs: Vec<NodeAddress>)
    ensures
        addrs@.len() == n,
        forall|i: int|
            0 <= i < n ==> addrs@[i] == (NodeAddress {
                transport: kind,
                route: (effective_base(base, n as nat) + i) as u64,
            }),
        pairwise_distinct(addrs@),
{
    let eff: u64 = if n == 0 {
        base
    } else if base <= u64::MAX - ((n - 1) as u64) {
        base
    } else {
        0
    };
    assert(eff == effective_base(base, n as nat));
    let mut addrs: Vec<NodeAddress> = Vec::new();
    let mut k: usize = 0;
    while k < n
        invariant
            k <= n,
            eff == effective_base(base, n as nat),
            n != 0 ==> eff + n - 1 <= u64::MAX,
            addrs@.len() == k,
            forall|i: int|
                0 <= i < k ==> addrs@[i] == (NodeAddress { transport: kind, route: (eff + i) as u64 }),
        decreases n - k,
    {
        addrs.push(NodeAddress { transport: kind, route: eff + (k as u64) });
        k = k + 1;
    }
    assert forall|i: int, j: int| 0 <= i < j < addrs@.len() implies addrs@[i] != addrs@[j] by {
        assert(addrs@[i].route == eff + i);
        assert(addrs@[j].route == eff + j);
    }
    addrs
}

/// The default bootstrap set of node i under full mesh: every address
/// except address i, in order.
pub open spec fn mesh_without(addrs: Seq<NodeAddress>, i: int) -> Seq<NodeAddress> {
    addrs.subrange(0, i) + addrs.subrange(i + 1, addrs.len() as int)
}

/// Builds the full-mesh bootstrap set of node i.
pub fn mesh_excluding(addrs: &Vec<NodeAddress>, i: usize) -> (bs: Vec<NodeAddress>)
    requires
        i < addrs@.len(),
    ensures
        bs@ == mesh_without(addrs@, i as int),
        bs@.len() == addrs@.len() - 1,
{
    let n = addrs.len();
    let mut bs: Vec<NodeAddress> = Vec::new();
    let mut j: usize = 0;
    while j < n
        invariant
            j <= n,
            n == addrs@.len(),
            i < n,
            j <= i ==> bs@ == addrs@.subrange(0, j as int),
            j > i ==> bs@ == addrs@.subrange(0, i as int) + addrs@.subrange((i as int) + 1, j as int),
        decreases n - j,
    {
        if j != i {
            bs.push(addrs[j]);
        }
        proof {
            let jj = j as int;
            if jj + 1 <= i {
                assert(bs@ =~= addrs@.subrange(0, jj + 1));
            } else if jj == i {
                assert(bs@ =~= addrs@.subrange(0, i as int) + addrs@.subrange(
                    (i as int) + 1,
                    jj + 1,
                ));
            } else {
                assert(bs@ =~= addrs@.subrange(0, i as int) + addrs@.subrange(
                    (i as int) + 1,
                    jj + 1,
                ));
            }
        }
        j = j + 1;
    }
    proof {
        assert(bs@ =~= mesh_without(addrs@, i as int));
    }
    bs
}

/// Under full mesh, node i's bootstrap set has exactly N - 1 members, and
/// its own address is not one of them.
pub proof fn lemma_full_mesh_topology(addrs: Seq<NodeAddress>, i: int)
    requires
        0 <= i < addrs.len(),
        pairwise_distinct(addrs),
    ensures
        mesh_without(addrs, i).len() == addrs.len() - 1,
        !mesh_without(addrs, i).contains(addrs[i]),
{
    let mesh = mesh_without(addrs, i);
    assert forall|k: int| 0 <= k < mesh.len() implies mesh[k] != addrs[i] by {
        if k < i {
            assert(mesh[k] == addrs[k]);
        } else {
            assert(mesh[k] == addrs[k + 1]);
        }
    }
}

/// Whatever subset of node i's full-mesh candidates a filter picks, node
/// i's own address is not among the picks.
pub proof fn lemma_filtered_excludes_own(addrs: Seq<NodeAddress>, i: int, picked: Seq<NodeAddress>)
    requires
        0 <= i < addrs.len(),
        pairwise_distinct(addrs),
        forall|k: int| 0 <= k < picked.len() ==> mesh_without(addrs, i).contains(picked[k]),
    ensures
        !picked.contains(addrs[i]),
{
    lemma_full_mesh_topology(addrs, i);
    assert forall|k: int| 0 <= k < picked.len() implies picked[k] != addrs[i] by {
        assert(mesh_without(addrs, i).contains(picked[k]));
    }
}

/// A topology strategy: picks each node's bootstrap set from its full-mesh
/// candidates. The pick is a function of the strategy and the candidates
/// (`picks`), so launchers can say which set each node was handed; a
/// strategy may drop candidates but never invent an address.
pub trait BootstrapFilter {
    /// The bootstrap set this strategy picks from the given candidates.
    spec fn picks(&self, candidates: Seq<NodeAddress>) -> Seq<NodeAddress>;

    fn select(&self, candidates: Vec<NodeAddress>) -> (r: Vec<NodeAddress>)
        ensures
            r@ == self.picks(candidates@),
            forall|k: int| 0 <= k < r@.len() ==> candidates@.contains(r@[k]),
    ;
}

/// The default strategy: keep every candidate, a full mesh.
pub struct FullMesh;

impl BootstrapFilter for FullMesh {
    open spec fn picks(&self, candidates: Seq<NodeAddress>) -> Seq<NodeAddress> {
        candidates
    }

    fn select(&self, candidates: Vec<NodeAddress>) -> (r: Vec<NodeAddress>)
        ensures
            r@ == candidates@,
            forall|k: int| 0 <= k < r@.len() ==> candidates@.contains(r@[k]),
    {
        let r = candidates;
        proof {
            assert forall|k: int| 0 <= k < r@.len() implies r@.contains(r@[k]) by {
                assert(r@[k] == r@[k]);
            }
        }
        r
    }
}

/// A thinned strategy: each node bootstraps off only the first of its
/// full-mesh candidates, a chain-like topology with an expectation of one
/// per node (zero for a swarm of one).
pub struct FirstCandidate;

impl BootstrapFilter for FirstCandidate {
    open spec fn picks(&self, candidates: Seq<NodeAddress>) -> Seq<NodeAddress> {
        if candidates.len() <= 1 {
            candidates
        } else {
            candidates.subrange(0, 1)
        }
    }

    fn select(&self, candidates: Vec<NodeAddress>) -> (r: Vec<NodeAddress>)
        ensures
            r@ == self.picks(candidates@),
            forall|k: int| 0 <= k < r@.len() ==> candidates@.contains(r@[k]),
    {
        let mut r = candidates;
        let ghost before = r@;
        r.truncate(1);
        proof {
            if before.len() <= 1 {
                assert(r@ =~= before);
            }
            assert forall|k: int| 0 <= k < r@.len() implies before.contains(r@[k]) by {
                assert(r@[k] == before[k]);
            }
        }
        r
    }
}

} // verus!
