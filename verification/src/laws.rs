//! Ring laws: what the peer state machine guarantees.
//!
//! These proof functions state, over the same spec functions that the
//! executable operations are verified against, the properties a ring of
//! peers relies on: ownership of the full ring without a predecessor,
//! the shape of a ring at rest, idempotence of stabilization on such a
//! ring, and that a value put at its owner is what a lookup returns.

use vstd::prelude::*;

use crate::node::{notified_predecessor, stabilized_successor, FindStep, Neighbor, Node};
use crate::routing::id::{id_of_bytes, Identifier};

verus! {

/// A peer with no predecessor claims the full ring: it owns every
/// identifier, so it answers every lookup and put locally.
pub proof fn lemma_full_ring_ownership(peer: Node, id: Identifier)
    requires
        peer.predecessor is None,
    ensures
        peer.spec_contains_id(id),
        peer.spec_find_successor(id) == FindStep::Found(peer.spec_self_neighbor()),
{
}

/// A singleton peer that has come to record itself as its own
/// predecessor still owns every identifier: the arc from a point back
/// to itself is the full ring.
pub proof fn lemma_singleton_owns_all(peer: Node, id: Identifier)
    requires
        peer.predecessor matches Some(p) && p.id == peer.id,
    ensures
        peer.spec_contains_id(id),
{
}

/// Stabilization does not move the successor of a peer whose successor
/// already reports that peer itself as predecessor: on a ring at rest
/// the round adopts nothing.
pub proof fn lemma_stabilize_idempotent(peer: Node, candidate: Neighbor)
    requires
        candidate.id == peer.id,
    ensures
        stabilized_successor(peer, Some(candidate)) == peer.successor,
{
}

/// The notification a peer sends on a ring at rest is ignored by its
/// successor: a hint whose identifier equals the current predecessor's
/// changes nothing.
pub proof fn lemma_notify_stable_noop(peer: Node, other: Neighbor)
    requires
        peer.predecessor matches Some(p) && p.id == other.id,
    ensures
        notified_predecessor(peer, other) == peer.predecessor,
{
}

/// A ring of peers at rest: identifiers are pairwise distinct, every
/// peer's successor is the next peer around the ring, every peer's
/// predecessor is the previous one, and nobody is crashed.
pub open spec fn stable_ring(peers: Seq<Node>) -> bool {
    &&& peers.len() >= 1
    &&& forall|i: int, j: int| 0 <= i < j < peers.len() ==> peers[i].id != peers[j].id
    &&& forall|i: int|
        0 <= i < peers.len() ==> peers[i].successor == peers[(i + 1) % (
        peers.len() as int)].spec_self_neighbor()
    &&& forall|i: int|
        0 <= i < peers.len() ==> peers[i].predecessor == Some(
            peers[(i + peers.len() - 1) % (peers.len() as int)].spec_self_neighbor(),
        )
    &&& forall|i: int| 0 <= i < peers.len() ==> !peers[i].sim_crash_state
}

/// On a ring at rest, one stabilization round at any peer changes no
/// state: the candidate the successor reports is the peer itself, it is
/// not adopted, and the notification the peer then sends is ignored by
/// the successor.
pub proof fn lemma_stable_ring_stabilize_noop(peers: Seq<Node>, i: int)
    requires
        stable_ring(peers),
        0 <= i < peers.len(),
    ensures
        ({
            let n = peers.len() as int;
            let succ = peers[(i + 1) % n];
            &&& succ.predecessor == Some(peers[i].spec_self_neighbor())
            &&& stabilized_successor(peers[i], succ.predecessor) == peers[i].successor
            &&& notified_predecessor(succ, peers[i].spec_self_neighbor()) == succ.predecessor
        }),
{
    let n = peers.len() as int;
    let j = (i + 1) % n;
    assert(0 <= j < n) by {
        vstd::arithmetic::div_mod::lemma_mod_bound(i + 1, n);
    }
    assert((j + n - 1) % n == i) by {
        if i + 1 < n {
            vstd::arithmetic::div_mod::lemma_small_mod((i + 1) as nat, n as nat);
            assert(j == i + 1);
            vstd::arithmetic::div_mod::lemma_mod_multiples_vanish(1, i, n);
            vstd::arithmetic::div_mod::lemma_small_mod(i as nat, n as nat);
            assert((j + n - 1) % n == (n * 1 + i) % n);
        } else {
            assert(i == n - 1);
            vstd::arithmetic::div_mod::lemma_mod_self_0(n);
            assert(j == 0);
            vstd::arithmetic::div_mod::lemma_small_mod((n - 1) as nat, n as nat);
        }
    }
    lemma_stabilize_idempotent(peers[i], peers[i].spec_self_neighbor());
    lemma_notify_stable_noop(peers[j], peers[i].spec_self_neighbor());
}

/// The index reached after `k` hops along successor pointers from
/// `start`, on a ring laid out as a sequence.
pub open spec fn walk(peers: Seq<Node>, start: int, k: nat) -> int
    decreases k,
{
    if k == 0 {
        start
    } else {
        (walk(peers, start, (k - 1) as nat) + 1) % (peers.len() as int)
    }
}

/// On a ring at rest the successor walk is the ring order: `k` hops
/// from `start` land on peer `(start + k) mod n`, and each hop follows
/// exactly the stored successor pointer.
pub proof fn lemma_ring_walk(peers: Seq<Node>, start: int, k: nat)
    requires
        stable_ring(peers),
        0 <= start < peers.len(),
    ensures
        walk(peers, start, k) == (start + k) % (peers.len() as int),
        0 <= walk(peers, start, k) < peers.len(),
        peers[walk(peers, start, k)].successor == peers[walk(peers, start, k + 1
        )].spec_self_neighbor(),
    decreases k,
{
    let n = peers.len() as int;
    if k == 0 {
        vstd::arithmetic::div_mod::lemma_small_mod(start as nat, n as nat);
    } else {
        lemma_ring_walk(peers, start, (k - 1) as nat);
        let prev = start + k - 1;
        vstd::arithmetic::div_mod::lemma_add_mod_noop_right(1, prev, n);
        assert((1 + prev % n) % n == (1 + prev) % n);
    }
    vstd::arithmetic::div_mod::lemma_mod_bound(start + k, n);
}

/// On a ring at rest the successor walk from any peer visits every
/// peer exactly once before returning to its start: hops within the
/// first lap land on pairwise different peers, and the `n`-th hop is
/// home again.
pub proof fn lemma_ring_walk_visits_all(peers: Seq<Node>, start: int, k1: nat, k2: nat)
    requires
        stable_ring(peers),
        0 <= start < peers.len(),
        k1 < k2 <= peers.len(),
    ensures
        k2 < peers.len() ==> walk(peers, start, k1) != walk(peers, start, k2),
        walk(peers, start, peers.len() as nat) == start,
{
    let n = peers.len() as int;
    lemma_ring_walk(peers, start, k1);
    lemma_ring_walk(peers, start, k2);
    lemma_ring_walk(peers, start, peers.len() as nat);
    vstd::arithmetic::div_mod::lemma_mod_multiples_vanish(1, start, n);
    vstd::arithmetic::div_mod::lemma_small_mod(start as nat, n as nat);
    assert(walk(peers, start, peers.len() as nat) == start);
    if k2 < peers.len() {
        let a = start + k1;
        let b = start + k2;
        if a % n == b % n {
            vstd::arithmetic::div_mod::lemma_fundamental_div_mod(a, n);
            vstd::arithmetic::div_mod::lemma_fundamental_div_mod(b, n);
            let qa = a / n;
            let qb = b / n;
            assert(b - a == (qb - qa) * n) by (nonlinear_arith)
                requires
                    a == qa * n + a % n,
                    b == qb * n + b % n,
                    a % n == b % n,
            ;
            assert(false) by (nonlinear_arith)
                requires
                    b - a == (qb - qa) * n,
                    0 < b - a < n,
            ;
        }
    }
}

/// The ring predecessor of peer `i` in a ring at rest: the previous
/// peer of the sequence, cyclically.
pub proof fn lemma_ring_predecessor(peers: Seq<Node>, i: int)
    requires
        stable_ring(peers),
        0 <= i < peers.len(),
    ensures
        peers[i].predecessor == Some(
            peers[if i == 0 {
                peers.len() - 1
            } else {
                i - 1
            }].spec_self_neighbor(),
        ),
{
    let n = peers.len() as int;
    if i == 0 {
        vstd::arithmetic::div_mod::lemma_small_mod((n - 1) as nat, n as nat);
    } else {
        vstd::arithmetic::div_mod::lemma_mod_multiples_vanish(1, i - 1, n);
        vstd::arithmetic::div_mod::lemma_small_mod((i - 1) as nat, n as nat);
        assert((i + n - 1) % n == (n * 1 + (i - 1)) % n);
    }
}

/// The peers of a ring, laid out in increasing identifier order.
pub open spec fn sorted_by_id(peers: Seq<Node>) -> bool {
    forall|i: int, j: int| 0 <= i < j < peers.len() ==> peers[i].id.0 < peers[j].id.0
}

/// Some peer of the arc above `lo` owns an identifier that lies beyond
/// `lo`'s own identifier but within the last peer's.
proof fn lemma_find_arc(peers: Seq<Node>, id: Identifier, lo: int)
    requires
        stable_ring(peers),
        sorted_by_id(peers),
        0 <= lo < peers.len() - 1,
        peers[lo].id.0 < id.0,
        id.0 <= peers[peers.len() - 1].id.0,
    ensures
        exists|k: int|
            lo < k < peers.len() && peers[k - 1].id.0 < id.0 && id.0 <= #[trigger] peers[k].id.0,
    decreases peers.len() - lo,
{
    if id.0 <= peers[lo + 1].id.0 {
        assert(peers[lo + 1 - 1].id.0 < id.0 && id.0 <= peers[lo + 1].id.0);
    } else {
        lemma_find_arc(peers, id, lo + 1);
    }
}

/// The ownership invariant: on a ring at rest, laid out in increasing
/// identifier order, every identifier is owned by exactly one peer —
/// the arcs `(predecessor, peer]` tile the whole ring.
pub proof fn lemma_unique_owner(peers: Seq<Node>, id: Identifier)
    requires
        stable_ring(peers),
        sorted_by_id(peers),
    ensures
        exists|i: int| 0 <= i < peers.len() && peers[i].spec_contains_id(id),
        forall|i: int, j: int|
            0 <= i < peers.len() && 0 <= j < peers.len() && peers[i].spec_contains_id(id)
                && peers[j].spec_contains_id(id) ==> i == j,
{
    let n = peers.len() as int;
    assert forall|i: int| 0 <= i < n implies peers[i].predecessor == Some(
        peers[if i == 0 {
            n - 1
        } else {
            i - 1
        }].spec_self_neighbor(),
    ) by {
        lemma_ring_predecessor(peers, i);
    }
    if n == 1 {
        assert(peers[0].spec_contains_id(id));
    } else {
        // existence: the wrap arc of peer 0, or some ascending arc
        if id.0 <= peers[0].id.0 || id.0 > peers[n - 1].id.0 {
            assert(peers[0].spec_contains_id(id));
        } else {
            lemma_find_arc(peers, id, 0);
            let k = choose|k: int|
                0 < k < n && peers[k - 1].id.0 < id.0 && id.0 <= #[trigger] peers[k].id.0;
            assert(peers[k].spec_contains_id(id));
        }
        // uniqueness: the arcs are pairwise disjoint
        assert forall|i: int, j: int|
            0 <= i < n && 0 <= j < n && peers[i].spec_contains_id(id)
                && peers[j].spec_contains_id(id) implies i == j by {
            if i != j {
                let (a, b) = if i < j {
                    (i, j)
                } else {
                    (j, i)
                };
                if a == 0 {
                    // the wrap arc against an ascending arc
                    assert(peers[b - 1].id.0 < id.0 && id.0 <= peers[b].id.0);
                    assert(id.0 > peers[n - 1].id.0 || id.0 <= peers[0].id.0);
                } else {
                    // two ascending arcs: the lower ends before the upper begins
                    assert(id.0 <= peers[a].id.0);
                    assert(peers[b - 1].id.0 < id.0);
                    assert(peers[a].id.0 <= peers[b - 1].id.0);
                }
            }
        }
    }
}

/// A put of a key at its owner followed by a lookup of the same key at
/// that owner returns the value just put: the owner still owns the key
/// (put does not move ring pointers), so the lookup is local, and the
/// store holds the value under the key.
pub proof fn lemma_put_then_lookup(pre: Node, post: Node, key: Seq<u8>, value: Seq<u8>)
    requires
        pre.spec_contains_id(id_of_bytes(key)),
        post.id == pre.id,
        post.predecessor == pre.predecessor,
        post.store@ == pre.store@.insert(key, value),
    ensures
        post.spec_contains_id(id_of_bytes(key)),
        post.store@.contains_key(key),
        post.store@[key] == value,
{
}

/// Two puts of the same key: the later value is what a lookup returns.
pub proof fn lemma_put_put_lookup(m: Map<Seq<u8>, Seq<u8>>, key: Seq<u8>, v1: Seq<u8>, v2: Seq<u8>)
    ensures
        m.insert(key, v1).insert(key, v2).contains_key(key),
        m.insert(key, v1).insert(key, v2)[key] == v2,
{
}

} // verus!

