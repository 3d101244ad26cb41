//! Rolling-upgrade coordination.
//!
//! Upgrades are serialized across the cluster without a leader: every node
//! derives the same rollout order by sorting the identities of the current
//! volume's brick owners, then waits for its predecessor to finish before
//! upgrading itself.  Durable markers (a start and a done marker per peer
//! and version) are the only coordination medium; a predecessor whose start
//! marker is older than ten minutes is treated as dead and skipped.  The
//! marker store, the clock and the sleeps belong to the caller: this module
//! decides, from what the caller observed, what to do next.

use vstd::prelude::*;

use vstd::relations::{sorted_by, total_ordering};
use vstd::multiset::Multiset;
use vstd::seq_lib::lemma_sorted_unique;

use crate::volume::Brick;

verus! {

/// Ascending order on peer identities; the one rollout order every node
/// agrees on.
pub open spec fn uuid_order() -> spec_fn(u128, u128) -> bool {
    |a: u128, b: u128| a <= b
}

/// Ascending identity order is total, so sorting by it has one answer.
pub proof fn lemma_uuid_order_total()
    ensures
        total_ordering(uuid_order()),
{
}

/// The identities of the owners of `bricks`, one entry per brick, in brick
/// order.  A peer that serves several bricks appears several times.
pub open spec fn spec_owner_ids(bricks: Seq<Brick>) -> Seq<u128> {
    bricks.map_values(|b: Brick| b.peer.uuid)
}

/// The agreed rollout order: the brick owners' identities, ascending.
pub open spec fn spec_rollout_order(bricks: Seq<Brick>) -> Seq<u128> {
    spec_owner_ids(bricks).sort_by(uuid_order())
}

/// Index of a least element of a non-empty identity list.
fn min_index(ids: &Vec<u128>) -> (at: usize)
    requires
        ids@.len() > 0,
    ensures
        at < ids@.len(),
        forall|j: int| 0 <= j < ids@.len() ==> ids@[at as int] <= ids@[j],
{
    let mut at: usize = 0;
    let mut i: usize = 1;
    while i < ids.len()
        invariant
            at < i <= ids@.len(),
            forall|j: int| 0 <= j < i ==> ids@[at as int] <= ids@[j],
        decreases ids@.len() - i,
    {
        if ids[i] < ids[at] {
            at = i;
        }
        i = i + 1;
    }
    at
}

/// Compute the rollout order from the current volume's bricks: the owners'
/// identities sorted ascending.  Every node computes the same order from
/// the same topology, so no election is needed to agree on who goes first.
pub fn rollout_order(bricks: &Vec<Brick>) -> (order: Vec<u128>)
    ensures
        order@ == spec_rollout_order(bricks@),
        sorted_by(order@, uuid_order()),
        order@.to_multiset() == spec_owner_ids(bricks@).to_multiset(),
{
    let mut ids: Vec<u128> = Vec::new();
    let mut i: usize = 0;
    while i < bricks.len()
        invariant
            i <= bricks@.len(),
            ids@ == spec_owner_ids(bricks@.take(i as int)),
        decreases bricks@.len() - i,
    {
        ids.push(bricks[i].peer.uuid);
        proof {
            assert(ids@ =~= spec_owner_ids(bricks@.take(i + 1)));
        }
        i = i + 1;
    }
    proof {
        assert(bricks@.take(bricks@.len() as int) =~= bricks@);
        broadcast use vstd::seq_lib::group_to_multiset_ensures;
        broadcast use vstd::multiset::group_multiset_axioms;

        assert(Seq::<u128>::empty().to_multiset() =~= Multiset::<u128>::empty());
    }
    let ghost all = spec_owner_ids(bricks@);
    let mut order: Vec<u128> = Vec::new();
    while ids.len() > 0
        invariant
            order@.to_multiset().add(ids@.to_multiset()) =~= all.to_multiset(),
            sorted_by(order@, uuid_order()),
            forall|a: int, b: int|
                0 <= a < order@.len() && 0 <= b < ids@.len() ==> order@[a] <= ids@[b],
        decreases ids@.len(),
    {
        let at = min_index(&ids);
        let ghost ids_before = ids@;
        let ghost order_before = order@;
        let least = ids.remove(at);
        order.push(least);
        proof {
            broadcast use vstd::seq_lib::group_to_multiset_ensures;
            broadcast use vstd::multiset::group_multiset_axioms;

            assert(order@.to_multiset() =~= order_before.to_multiset().insert(least));
            assert(ids@.to_multiset() =~= ids_before.to_multiset().remove(least));
            assert(order@.to_multiset().add(ids@.to_multiset()) =~= all.to_multiset());
            assert(sorted_by(order@, uuid_order()));
        }
    }
    proof {
        broadcast use vstd::seq_lib::group_to_multiset_ensures;
        broadcast use vstd::multiset::group_multiset_axioms;

        assert(ids@.to_multiset() =~= Multiset::<u128>::empty());
        assert(order@.to_multiset().add(ids@.to_multiset()) =~= order@.to_multiset());
        lemma_uuid_order_total();
        all.lemma_sort_by_ensures(uuid_order());
        lemma_sorted_unique(order@, all.sort_by(uuid_order()), uuid_order());
    }
    order
}

/// Rollout order is a pure agreement: two nodes that observe the same
/// collection of brick owners — even reported in different brick orders —
/// derive exactly the same rollout order, with no communication.
pub proof fn lemma_rollout_order_agreement(first: Seq<Brick>, second: Seq<Brick>)
    requires
        spec_owner_ids(first).to_multiset() == spec_owner_ids(second).to_multiset(),
    ensures
        spec_rollout_order(first) == spec_rollout_order(second),
{
    lemma_uuid_order_total();
    spec_owner_ids(first).lemma_sort_by_ensures(uuid_order());
    spec_owner_ids(second).lemma_sort_by_ensures(uuid_order());
    lemma_sorted_unique(spec_rollout_order(first), spec_rollout_order(second), uuid_order());
}

/// Position of this node in the rollout order: the first index holding its
/// identity, or `None` when the node serves no brick of the volume.
pub fn rollout_position(order: &Vec<u128>, my_uuid: u128) -> (position: Option<usize>)
    ensures
        match position {
            Some(at) => at < order@.len() && order@[at as int] == my_uuid && forall|j: int|
                0 <= j < at ==> order@[j] != my_uuid,
            None => !order@.contains(my_uuid),
        },
{
    let mut i: usize = 0;
    while i < order.len()
        invariant
            i <= order@.len(),
            forall|j: int| 0 <= j < i ==> order@[j] != my_uuid,
        decreases order@.len() - i,
    {
        if order[i] == my_uuid {
            return Some(i);
        }
        i = i + 1;
    }
    None
}

/// `at` is the first index of `my` in `order`.
pub open spec fn spec_first_position(order: Seq<u128>, my: u128, at: int) -> bool {
    &&& 0 <= at < order.len()
    &&& order[at] == my
    &&& forall|j: int| 0 <= j < at ==> order[j] != my
}

/// What a node does once the rollout order is known.
#[derive(Debug, PartialEq)]
pub enum RolloutStep {
    /// This node is first in the order: upgrade right away.
    RollFirst,
    /// Wait until the peer with this identity has finished, then upgrade.
    WaitOnPredecessor { predecessor: u128 },
}

/// Plan this node's part of a rolling upgrade from the current volume
/// topology.
///
/// The node first in the agreed order upgrades immediately; every other
/// node first waits on the identity just before its own first position.  A
/// node that owns no brick of the volume cannot place itself in the order
/// and fails, performing nothing.
pub fn roll_cluster(my_uuid: u128, volume_bricks: &Vec<Brick>) -> (step: Result<
    RolloutStep,
    String,
>)
    ensures
        ({
            let order = spec_rollout_order(volume_bricks@);
            match step {
                Ok(RolloutStep::RollFirst) => order.len() > 0 && order[0] == my_uuid,
                Ok(RolloutStep::WaitOnPredecessor { predecessor }) => exists|at: int|
                    #[trigger] spec_first_position(order, my_uuid, at) && at > 0 && predecessor
                        == order[at - 1],
                Err(_) => !order.contains(my_uuid),
            }
        }),
{
    let order = rollout_order(volume_bricks);
    match rollout_position(&order, my_uuid) {
        Some(at) => {
            if at == 0 {
                Ok(RolloutStep::RollFirst)
            } else {
                proof {
                    assert(spec_first_position(spec_rollout_order(volume_bricks@), my_uuid, at as int));
                }
                Ok(RolloutStep::WaitOnPredecessor { predecessor: order[at - 1] })
            }
        }
        None => Err(String::from_str("unable to determine upgrade position")),
    }
}

/// The canonical hyphenated text form of a peer identity.
pub uninterp spec fn uuid_str_of(id: u128) -> Seq<char>;

/// Relies on uuid's hyphenated `Display`: thirty-six characters — five
/// groups of lowercase hexadecimal digits separated by dashes — and a
/// function of the identity alone.
#[verifier::external_body]
pub(crate) fn uuid_to_string(id: u128) -> (formatted: String)
    ensures
        formatted@ == uuid_str_of(id),
        formatted@.len() == 36,
{
    uuid::Uuid::from_u128(id).hyphenated().to_string()
}

/// The identity a textual UUID stands for, or `None` for text that is no
/// UUID.
pub uninterp spec fn uuid_of(text: Seq<char>) -> Option<u128>;

/// Relies on uuid's parser: reads the textual UUID forms into the
/// 128-bit identity; a function of the text alone.
#[verifier::external_body]
fn parse_uuid(text: &str) -> (id: Option<u128>)
    ensures
        id == uuid_of(text@),
{
    uuid::Uuid::parse_str(text).ok().map(|parsed| parsed.as_u128())
}

/// Read this node's own identity from the first line of the local
/// daemon's info file, which carries `UUID=<identity>`.
pub fn get_local_uuid(first_line: &str) -> (id: Result<u128, String>)
    ensures
        ({
            let parts = crate::text::spec_split(first_line@, '=');
            match id {
                Ok(found) => crate::text::spec_contains_seq(first_line@, "UUID"@) && parts.len()
                    >= 2 && uuid_of(crate::text::spec_trim(parts[1])) == Some(found),
                Err(_) => !crate::text::spec_contains_seq(first_line@, "UUID"@) || parts.len() < 2
                    || uuid_of(crate::text::spec_trim(parts[1])) is None,
            }
        }),
{
    if !crate::text::str_contains(first_line, "UUID") {
        return Err(String::from_str("unable to find UUID"));
    }
    let parts = crate::text::split_on(first_line, '=');
    if parts.len() < 2 {
        return Err(String::from_str("unable to find UUID"));
    }
    let trimmed = crate::text::str_trim(parts[1].as_str());
    match parse_uuid(trimmed) {
        Some(found) => Ok(found),
        None => Err(String::from_str("unable to parse UUID")),
    }
}

/// The durable marker keys that bracket this node's own upgrade to
/// `version`: the caller writes the first (start) marker with the
/// current time, performs the local upgrade — stop the service, install
/// the target version, restart, refresh status — and only then writes
/// the second (done) marker, so that a done marker never appears without
/// its start marker.
pub fn lock_and_roll(my_uuid: u128, version: &str) -> (markers: (String, String))
    ensures
        markers.0@ == uuid_str_of(my_uuid) + "_"@ + version@ + "_start"@,
        markers.1@ == uuid_str_of(my_uuid) + "_"@ + version@ + "_done"@,
{
    (upgrade_start_key(my_uuid, version), upgrade_done_key(my_uuid, version))
}

/// The durable marker key under which a peer announces that it started
/// upgrading to `version`.
pub fn upgrade_start_key(peer: u128, version: &str) -> (key: String)
    ensures
        key@ == uuid_str_of(peer) + "_"@ + version@ + "_start"@,
{
    let mut key = uuid_to_string(peer);
    key.append("_");
    key.append(version);
    key.append("_start");
    key
}

/// The durable marker key under which a peer announces that it finished
/// upgrading to `version`.
pub fn upgrade_done_key(peer: u128, version: &str) -> (key: String)
    ensures
        key@ == uuid_str_of(peer) + "_"@ + version@ + "_done"@,
{
    let mut key = uuid_to_string(peer);
    key.append("_");
    key.append(version);
    key.append("_done");
    key
}

/// Relies on rand's `random_range`: a draw from the half-open range, of
/// which nothing but the bounds is promised; an empty range would make
/// the draw panic and is kept out.
#[verifier::external_body]
fn random_in_range(low: u64, high: u64) -> (drawn: u64)
    requires
        low < high,
    ensures
        low <= drawn < high,
{
    rand::random_range(low..high)
}

/// How long to pause before polling the predecessor's markers again: a
/// randomized five to under thirty seconds, so that concurrent pollers
/// spread out.
pub fn backoff_secs() -> (secs: u64)
    ensures
        5 <= secs < 30,
{
    random_in_range(5, 30)
}

/// Age in seconds past which a predecessor's start marker means the
/// predecessor is dead and the rollout moves on without it.
pub const PREDECESSOR_DEAD_SECS: i64 = 600;

/// What one poll of the predecessor's markers tells this node to do.
#[derive(Clone, Copy, Debug, PartialEq, Eq, Structural)]
pub enum PredecessorPoll {
    /// The predecessor finished, or is dead: proceed with the upgrade.
    Proceed,
    /// The predecessor is mid-upgrade: back off for a randomized pause,
    /// then poll again.
    Backoff,
    /// The predecessor has not started yet: keep polling.
    PollAgain,
}

/// The predecessor's start marker is old enough to call the predecessor
/// dead.
pub open spec fn spec_predecessor_dead(started_at: int, now: int) -> bool {
    now - started_at > PREDECESSOR_DEAD_SECS
}

/// Decide, from one observation of the predecessor's durable markers,
/// whether this node may proceed with its own upgrade.
///
/// Proceed exactly when the predecessor's done marker exists, or when its
/// start marker is older than the dead-peer threshold — whichever the
/// caller observes first.  While a fresh start marker stands, back off and
/// poll again; while no start marker is visible at all, the predecessor
/// has not begun, so just keep polling.  Timestamps are seconds on a
/// shared clock; the dead-peer override assumes the cluster's clocks agree
/// to within the threshold.
pub fn wait_on_previous_node(done_exists: bool, started_at: Option<i64>, now: i64) -> (poll:
    PredecessorPoll)
    ensures
        poll is Proceed <==> (done_exists || (started_at matches Some(s)
            && spec_predecessor_dead(s as int, now as int))),
        poll is Backoff <==> (!done_exists && (started_at matches Some(s)
            && !spec_predecessor_dead(s as int, now as int))),
        poll is PollAgain <==> (!done_exists && started_at is None),
{
    if done_exists {
        return PredecessorPoll::Proceed;
    }
    match started_at {
        Some(s) => {
            if (now as i128) - (s as i128) > PREDECESSOR_DEAD_SECS as i128 {
                PredecessorPoll::Proceed
            } else {
                PredecessorPoll::Backoff
            }
        }
        None => PredecessorPoll::PollAgain,
    }
}

} // verus!
