//! Cluster membership snapshots.
//!
//! A `Peer` is one member node as the storage control plane reports it: a
//! stable identity (a 128-bit UUID value), an address, and a join status.
//! Snapshots are read-only: the caller fetches a fresh list for every
//! decision and hands it in as a plain value.

use vstd::prelude::*;

verus! {

/// Join status of a cluster member, as reported by the storage control
/// plane.
#[derive(Clone, Copy, Debug, PartialEq, Eq, Structural)]
pub enum State {
    /// The peer is reachable but has not finished joining.
    Connected,
    /// The peer has fully joined the cluster.
    PeerInCluster,
    /// The peer is currently unreachable.
    Disconnected,
    /// Any other status the control plane may report.
    Unknown,
}

/// One cluster member: identity, address, and join status.
#[derive(Debug, PartialEq)]
pub struct Peer {
    /// Stable, totally ordered identity of the node.
    pub uuid: u128,
    /// Hostname or address under which the node is reachable.
    pub hostname: String,
    /// Join status at the time the snapshot was taken.
    pub status: State,
}

impl Clone for Peer {
    fn clone(&self) -> (cloned: Self)
        ensures
            cloned == *self,
    {
        Peer { uuid: self.uuid, hostname: self.hostname.clone(), status: self.status }
    }
}

/// Every peer of the snapshot reports that it has fully joined.
pub open spec fn all_peers_in_cluster(peers: Seq<Peer>) -> bool {
    forall|i: int| 0 <= i < peers.len() ==> peers[i].status is PeerInCluster
}

/// A membership snapshot is ready when it was fetched successfully and every
/// peer in it reports `PeerInCluster`; a failed fetch counts as not ready.
pub open spec fn spec_peers_ready(peers: Result<Vec<Peer>, String>) -> bool {
    match peers {
        Ok(list) => all_peers_in_cluster(list@),
        Err(_) => false,
    }
}

/// Decide whether the cluster has reached quorum: the fetch succeeded and
/// every known peer is `PeerInCluster`.  A fetch error is treated as "not
/// ready", never as a fatal condition.
#[verifier::loop_isolation(false)]
pub fn peers_are_ready(peers: Result<Vec<Peer>, String>) -> (ready: bool)
    ensures
        ready == spec_peers_ready(peers),
{
    match peers {
        Ok(list) => {
            let mut i: usize = 0;
            while i < list.len()
                invariant
                    i <= list.len(),
                    forall|j: int| 0 <= j < i ==> list@[j].status is PeerInCluster,
                decreases list.len() - i,
            {
                if !(list[i].status == State::PeerInCluster) {
                    return false;
                }
                i = i + 1;
            }
            true
        }
        Err(_) => false,
    }
}

/// Some known peer is reachable under `hostname`.
pub open spec fn spec_known_host(peers: Seq<Peer>, hostname: Seq<char>) -> bool {
    exists|i: int| 0 <= i < peers.len() && peers[i].hostname@ == hostname
}

/// The unit addresses, trimmed and in order, that no known peer answers
/// to yet.
pub open spec fn spec_units_to_probe(peers: Seq<Peer>, units: Seq<Seq<char>>) -> Seq<Seq<char>>
    decreases units.len(),
{
    if units.len() == 0 {
        Seq::empty()
    } else {
        let rest = spec_units_to_probe(peers, units.drop_last());
        let trimmed = crate::text::spec_trim(units.last());
        if spec_known_host(peers, trimmed) {
            rest
        } else {
            rest.push(trimmed)
        }
    }
}

/// Decide whether some known peer is reachable under `hostname`.
pub fn known_host(peers: &Vec<Peer>, hostname: &str) -> (known: bool)
    ensures
        known == spec_known_host(peers@, hostname@),
{
    let mut i: usize = 0;
    while i < peers.len()
        invariant
            i <= peers@.len(),
            forall|j: int| 0 <= j < i ==> peers@[j].hostname@ != hostname@,
        decreases peers@.len() - i,
    {
        if crate::text::str_eq(peers[i].hostname.as_str(), hostname) {
            return true;
        }
        i = i + 1;
    }
    false
}

/// The related units that still need to be probed into the cluster: the
/// trimmed private addresses, in order, of every unit no existing peer
/// already answers to.  Issuing the probes is the caller's work.
#[verifier::loop_isolation(false)]
pub fn probe_in_units(existing_peers: &Vec<Peer>, related_units: &Vec<String>) -> (to_probe: Vec<
    String,
>)
    ensures
        crate::text::spec_str_views(to_probe@) == spec_units_to_probe(
            existing_peers@,
            crate::text::spec_str_views(related_units@),
        ),
{
    let ghost unit_views = crate::text::spec_str_views(related_units@);
    let mut to_probe: Vec<String> = Vec::new();
    let mut i: usize = 0;
    while i < related_units.len()
        invariant
            i <= related_units@.len(),
            crate::text::spec_str_views(to_probe@) =~~= spec_units_to_probe(
                existing_peers@,
                unit_views.take(i as int),
            ),
        decreases related_units@.len() - i,
    {
        proof {
            assert(unit_views.take(i + 1).drop_last() =~= unit_views.take(i as int));
        }
        let trimmed = crate::text::str_trim(related_units[i].as_str());
        if !known_host(existing_peers, trimmed) {
            to_probe.push(String::from_str(trimmed));
        }
        proof {
            assert(crate::text::spec_str_views(to_probe@) =~~= spec_units_to_probe(
                existing_peers@,
                unit_views.take(i + 1),
            ));
        }
        i = i + 1;
    }
    proof {
        assert(unit_views.take(related_units@.len() as int) =~= unit_views);
    }
    to_probe
}

} // verus!
