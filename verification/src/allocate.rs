//! The brick allocator.
//!
//! A pure mapping from (peers, available mount paths, existing topology,
//! replication factor) to an ordered brick list, or a typed refusal.  It is
//! deterministic on purpose: several nodes recompute the same allocation
//! independently and must agree on it without communicating.
//!
//! The algorithm: drop every peer that already owns a brick of the existing
//! volume; refuse with `WaitForMorePeers` while fewer candidates than the
//! replication factor remain; otherwise truncate the candidate list to the
//! largest multiple of the replication factor (dropped peers are simply left
//! for a later cycle) and pair every path with every candidate, paths outer,
//! peers inner.

use vstd::prelude::*;

use crate::peer::Peer;
use crate::volume::{owns_brick, spec_owns_brick, Brick, Volume};

verus! {

/// Result of one allocation decision.
///
/// `WaitForMorePeers` is not an error: it asks the caller to retry on a
/// later lifecycle event.  `InvalidConfig` is a hard refusal.
#[derive(Debug, PartialEq)]
pub enum AllocationOutcome {
    /// The ordered brick list to hand to the control plane.
    Allocated(Vec<Brick>),
    /// Too few candidate peers for the replication factor; retry later.
    WaitForMorePeers,
    /// The configuration cannot be satisfied at all.
    InvalidConfig(String),
}

/// The peers of `peers`, in order, that own no brick of `bricks`.
pub open spec fn spec_new_peers(peers: Seq<Peer>, bricks: Seq<Brick>) -> Seq<Peer>
    decreases peers.len(),
{
    if peers.len() == 0 {
        Seq::empty()
    } else {
        let rest = spec_new_peers(peers.drop_last(), bricks);
        if spec_owns_brick(bricks, peers.last().uuid) {
            rest
        } else {
            rest.push(peers.last())
        }
    }
}

/// The Cartesian product of paths and peers, paths outer, peers inner:
/// entry `i` pairs path `i / |peers|` with peer `i % |peers|`.
pub open spec fn spec_brick_product(paths: Seq<String>, peers: Seq<Peer>) -> Seq<Brick> {
    Seq::new(
        paths.len() * peers.len(),
        |i: int|
            Brick {
                peer: peers[i % (peers.len() as int)],
                path: paths[i / (peers.len() as int)],
            },
    )
}

/// The candidate peers of one allocation round: all peers for a new
/// volume, only the peers without an existing brick when growing one.
pub open spec fn spec_candidates(peers: Seq<Peer>, volume: Option<Volume>) -> Seq<Peer> {
    match volume {
        Option::None => peers,
        Option::Some(v) => spec_new_peers(peers, v.bricks@),
    }
}

/// How many of `n` candidates one round uses: the largest multiple of
/// `replicas` not above `n`.
pub open spec fn spec_usable_count(n: int, replicas: int) -> int {
    n - (n % replicas)
}

/// The brick list of a successful allocation round.
pub open spec fn spec_allocated_bricks(
    peers: Seq<Peer>,
    paths: Seq<String>,
    volume: Option<Volume>,
    replicas: int,
) -> Seq<Brick> {
    let cands = spec_candidates(peers, volume);
    spec_brick_product(paths, cands.take(spec_usable_count(cands.len() as int, replicas)))
}

/// The peers of `peers`, in their input order, that do not yet serve a
/// brick of `volume_info`.  Growing a volume only ever adds bricks on
/// these.
pub fn find_new_peers(peers: &Vec<Peer>, volume_info: &Volume) -> (new_peers: Vec<Peer>)
    ensures
        new_peers@ == spec_new_peers(peers@, volume_info.bricks@),
{
    let mut new_peers: Vec<Peer> = Vec::new();
    let mut i: usize = 0;
    while i < peers.len()
        invariant
            i <= peers.len(),
            new_peers@ == spec_new_peers(peers@.take(i as int), volume_info.bricks@),
        decreases peers.len() - i,
    {
        proof {
            assert(peers@.take(i + 1).drop_last() =~= peers@.take(i as int));
            assert(peers@.take(i + 1).last() == peers@[i as int]);
        }
        if !owns_brick(&volume_info.bricks, peers[i].uuid) {
            new_peers.push(peers[i].clone());
        }
        i = i + 1;
    }
    proof {
        assert(peers@.take(peers@.len() as int) =~= peers@);
    }
    new_peers
}

/// Pair every path with every peer, paths outer, peers inner, in a fixed
/// order, so that each path's replica copies land on distinct peers.
pub fn brick_and_server_cartesian_product(peers: &Vec<Peer>, paths: &Vec<String>) -> (product:
    Vec<Brick>)
    ensures
        product@ == spec_brick_product(paths@, peers@),
{
    let ghost n = peers@.len() as int;
    let mut product: Vec<Brick> = Vec::new();
    let mut p: usize = 0;
    while p < paths.len()
        invariant
            p <= paths.len(),
            n == peers@.len(),
            product@.len() == p * peers@.len(),
            forall|k: int|
                0 <= k < product@.len() ==> product@[k] == (Brick {
                    peer: peers@[k % n],
                    path: paths@[k / n],
                }),
        decreases paths.len() - p,
    {
        let mut q: usize = 0;
        while q < peers.len()
            invariant
                p < paths.len(),
                q <= peers.len(),
                n == peers@.len(),
                product@.len() == p * peers@.len() + q,
                forall|k: int|
                    0 <= k < product@.len() ==> product@[k] == (Brick {
                        peer: peers@[k % n],
                        path: paths@[k / n],
                    }),
            decreases peers.len() - q,
        {
            proof {
                assert((p * n + q) % n == q && (p * n + q) / n == p) by (nonlinear_arith)
                    requires
                        0 <= p,
                        0 <= q < n,
                ;
            }
            product.push(Brick { peer: peers[q].clone(), path: paths[p].clone() });
            q = q + 1;
        }
        proof {
            assert(p * n + n == (p + 1) * n) by (nonlinear_arith);
        }
        p = p + 1;
    }
    proof {
        assert(product@ =~= spec_brick_product(paths@, peers@)) by {
            assert(product@.len() == paths@.len() * peers@.len());
        }
    }
    product
}

/// One allocation decision.
///
/// Pure: the outcome is a function of the arguments alone, so every node
/// that sees the same peers, paths and topology computes the same brick
/// list, in the same order.
pub fn allocate(
    peers: &Vec<Peer>,
    paths: &Vec<String>,
    volume: Option<&Volume>,
    replicas: usize,
) -> (outcome: AllocationOutcome)
    ensures
        outcome is InvalidConfig <==> replicas == 0,
        outcome matches AllocationOutcome::InvalidConfig(reason) ==> reason@
            == "replication factor must be at least 1"@,
        replicas > 0 ==> {
            let cands = spec_candidates(peers@, spec_opt_volume(volume));
            &&& (outcome is WaitForMorePeers <==> cands.len() < replicas)
            &&& cands.len() >= replicas ==> (outcome matches AllocationOutcome::Allocated(bricks)
                && bricks@ == spec_allocated_bricks(
                peers@,
                paths@,
                spec_opt_volume(volume),
                replicas as int,
            ))
        },
{
    if replicas == 0 {
        return AllocationOutcome::InvalidConfig(
            String::from_str("replication factor must be at least 1"),
        );
    }
    let mut candidates: Vec<Peer> = match volume {
        Option::Some(v) => find_new_peers(peers, v),
        Option::None => clone_peers(peers),
    };
    if candidates.len() < replicas {
        return AllocationOutcome::WaitForMorePeers;
    }
    let count = candidates.len() - (candidates.len() % replicas);
    candidates.truncate(count);
    proof {
        let cands = spec_candidates(peers@, spec_opt_volume(volume));
        assert(candidates@ =~= cands.take(spec_usable_count(cands.len() as int, replicas as int)));
    }
    AllocationOutcome::Allocated(brick_and_server_cartesian_product(&candidates, paths))
}

/// Every peer that the differential peer list keeps is free of existing
/// bricks, and was taken from the input list.
pub proof fn lemma_new_peers_own_nothing(peers: Seq<Peer>, bricks: Seq<Brick>)
    ensures
        forall|j: int|
            0 <= j < spec_new_peers(peers, bricks).len() ==> !spec_owns_brick(
                bricks,
                #[trigger] spec_new_peers(peers, bricks)[j].uuid,
            ),
        forall|j: int|
            0 <= j < spec_new_peers(peers, bricks).len() ==> peers.contains(
                #[trigger] spec_new_peers(peers, bricks)[j],
            ),
    decreases peers.len(),
{
    if peers.len() > 0 {
        lemma_new_peers_own_nothing(peers.drop_last(), bricks);
        assert(forall|j: int|
            0 <= j < peers.drop_last().len() ==> peers.contains(#[trigger] peers.drop_last()[j]));
    }
}

/// Brick count of a successful allocation round: the number of paths times
/// the number of candidates kept, which is the candidate count rounded down
/// to a multiple of the replication factor; the brick count is therefore
/// itself a multiple of the replication factor.
pub proof fn lemma_allocated_brick_count(
    peers: Seq<Peer>,
    paths: Seq<String>,
    volume: Option<Volume>,
    replicas: int,
)
    requires
        replicas >= 1,
    ensures
        ({
            let n = spec_candidates(peers, volume).len() as int;
            spec_allocated_bricks(peers, paths, volume, replicas).len() == paths.len() * (n - n
                % replicas)
        }),
        (spec_allocated_bricks(peers, paths, volume, replicas).len() as int) % replicas == 0,
{
    let cands = spec_candidates(peers, volume);
    let n = cands.len() as int;
    let k = spec_usable_count(n, replicas);
    lemma_usable_count_bounds(n, replicas);
    assert(cands.take(k).len() == k);
    let total = spec_allocated_bricks(peers, paths, volume, replicas).len() as int;
    assert(total == paths.len() * k);
    vstd::arithmetic::div_mod::lemma_fundamental_div_mod(n, replicas);
    let quotient = n / replicas;
    assert(k == quotient * replicas);
    assert(total == (paths.len() * quotient) * replicas) by (nonlinear_arith)
        requires
            k == quotient * replicas,
            total == paths.len() * k,
    ;
    vstd::arithmetic::div_mod::lemma_mod_multiples_basic(paths.len() * quotient, replicas);
}

/// The usable candidate count lies between zero and the candidate count.
pub proof fn lemma_usable_count_bounds(n: int, replicas: int)
    requires
        n >= 0,
        replicas >= 1,
    ensures
        0 <= spec_usable_count(n, replicas) <= n,
{
    vstd::arithmetic::div_mod::lemma_mod_bound(n, replicas);
    vstd::arithmetic::div_mod::lemma_mod_decreases(n as nat, replicas as nat);
}

/// Growing a volume never assigns a brick to a peer that already owns one:
/// every brick of the allocation names a peer with no brick in the existing
/// topology.
pub proof fn lemma_allocate_avoids_existing_owners(
    peers: Seq<Peer>,
    paths: Seq<String>,
    volume: Volume,
    replicas: int,
)
    requires
        replicas >= 1,
    ensures
        forall|i: int|
            0 <= i < spec_allocated_bricks(peers, paths, Some(volume), replicas).len()
                ==> !spec_owns_brick(
                volume.bricks@,
                #[trigger] spec_allocated_bricks(peers, paths, Some(volume), replicas)[i].peer.uuid,
            ),
{
    let cands = spec_candidates(peers, Some(volume));
    let k = spec_usable_count(cands.len() as int, replicas);
    let kept = cands.take(k);
    let bricks = spec_allocated_bricks(peers, paths, Some(volume), replicas);
    lemma_new_peers_own_nothing(peers, volume.bricks@);
    assert forall|i: int| 0 <= i < bricks.len() implies !spec_owns_brick(
        volume.bricks@,
        #[trigger] bricks[i].peer.uuid,
    ) by {
        lemma_usable_count_bounds(cands.len() as int, replicas);
        assert(kept.len() == k);
        let n = kept.len() as int;
        assert(bricks.len() == paths.len() * n);
        assert(n > 0) by {
            if n == 0 {
                assert(paths.len() * 0 == 0);
            }
        }
        assert(bricks[i].peer == kept[i % n]);
        assert(0 <= i % n < n);
        assert(kept[i % n] == spec_new_peers(peers, volume.bricks@)[i % n]);
    }
}

/// No two entries of `peers` share an identity.
pub open spec fn spec_distinct_peers(peers: Seq<Peer>) -> bool {
    forall|i: int, j: int| 0 <= i < j < peers.len() ==> peers[i].uuid != peers[j].uuid
}

/// The differential peer list keeps peer identities distinct.
pub proof fn lemma_new_peers_distinct(peers: Seq<Peer>, bricks: Seq<Brick>)
    requires
        spec_distinct_peers(peers),
    ensures
        spec_distinct_peers(spec_new_peers(peers, bricks)),
    decreases peers.len(),
{
    if peers.len() > 0 {
        let shorter = peers.drop_last();
        lemma_new_peers_distinct(shorter, bricks);
        lemma_new_peers_own_nothing(shorter, bricks);
        let rest = spec_new_peers(shorter, bricks);
        if !spec_owns_brick(bricks, peers.last().uuid) {
            assert forall|i: int, j: int|
                0 <= i < j < rest.push(peers.last()).len() implies rest.push(peers.last())[i].uuid
                != rest.push(peers.last())[j].uuid by {
                if j == rest.len() {
                    assert(shorter.contains(rest[i]));
                    let at = choose|at: int| 0 <= at < shorter.len() && shorter[at] == rest[i];
                    assert(peers[at].uuid != peers.last().uuid);
                }
            }
        }
    }
}

/// No peer is assigned the same path twice: for distinct peers and
/// distinct paths, no two bricks of an allocation agree on both the
/// owning identity and the path.
pub proof fn lemma_allocate_no_repeated_assignment(
    peers: Seq<Peer>,
    paths: Seq<String>,
    volume: Option<Volume>,
    replicas: int,
)
    requires
        replicas >= 1,
        spec_distinct_peers(peers),
        forall|i: int, j: int| 0 <= i < j < paths.len() ==> paths[i]@ != paths[j]@,
    ensures
        ({
            let bricks = spec_allocated_bricks(peers, paths, volume, replicas);
            forall|i: int, j: int|
                0 <= i < j < bricks.len() ==> !(bricks[i].peer.uuid == bricks[j].peer.uuid
                    && bricks[i].path@ == bricks[j].path@)
        }),
{
    let cands = spec_candidates(peers, volume);
    if volume is Some {
        lemma_new_peers_distinct(peers, volume.unwrap().bricks@);
    }
    assert(spec_distinct_peers(cands));
    let k = spec_usable_count(cands.len() as int, replicas);
    lemma_usable_count_bounds(cands.len() as int, replicas);
    let kept = cands.take(k);
    let bricks = spec_allocated_bricks(peers, paths, volume, replicas);
    assert forall|i: int, j: int|
        0 <= i < j < bricks.len() implies !(bricks[i].peer.uuid == bricks[j].peer.uuid
        && bricks[i].path@ == bricks[j].path@) by {
        let n = kept.len() as int;
        assert(bricks.len() == paths.len() * n);
        assert(n > 0) by {
            if n == 0 {
                assert(paths.len() * 0 == 0);
            }
        }
        vstd::arithmetic::div_mod::lemma_fundamental_div_mod(i, n);
        vstd::arithmetic::div_mod::lemma_fundamental_div_mod(j, n);
        assert(0 <= i % n < n && 0 <= j % n < n);
        assert(i / n < paths.len() && j / n < paths.len()) by (nonlinear_arith)
            requires
                n > 0,
                0 <= i < paths.len() * n,
                0 <= j < paths.len() * n,
        ;
        assert(0 <= i / n && 0 <= j / n) by (nonlinear_arith)
            requires
                n > 0,
                0 <= i,
                0 <= j,
        ;
        if i / n == j / n {
            assert(i % n != j % n);
            assert(kept[i % n].uuid != kept[j % n].uuid);
        } else {
            assert(paths[i / n]@ != paths[j / n]@);
        }
    }
}

/// Determinism: the allocator's brick list is a function of its inputs
/// alone, so any two lists allocated from equal inputs are equal, entry for
/// entry and in the same order.  Nodes that share a view of the cluster
/// therefore agree on the allocation without communicating.
pub proof fn lemma_allocate_deterministic(
    peers: Seq<Peer>,
    paths: Seq<String>,
    volume: Option<Volume>,
    replicas: int,
    first: Seq<Brick>,
    second: Seq<Brick>,
)
    requires
        first == spec_allocated_bricks(peers, paths, volume, replicas),
        second == spec_allocated_bricks(peers, paths, volume, replicas),
    ensures
        first == second,
{
}

/// The topology an optional reference stands for.
pub open spec fn spec_opt_volume(volume: Option<&Volume>) -> Option<Volume> {
    match volume {
        Option::None => Option::None,
        Option::Some(v) => Option::Some(*v),
    }
}

/// An element-exact copy of a peer list.
fn clone_peers(peers: &Vec<Peer>) -> (cloned: Vec<Peer>)
    ensures
        cloned@ == peers@,
{
    let mut cloned: Vec<Peer> = Vec::new();
    let mut i: usize = 0;
    while i < peers.len()
        invariant
            i <= peers.len(),
            cloned@ == peers@.take(i as int),
        decreases peers.len() - i,
    {
        cloned.push(peers[i].clone());
        proof {
            assert(cloned@ =~= peers@.take(i + 1));
        }
        i = i + 1;
    }
    proof {
        assert(peers@.take(peers@.len() as int) =~= peers@);
    }
    cloned
}

} // verus!
