//! The quorum gate: wait until every known peer has joined.
//!
//! Before any cluster-mutating operation the coordinator polls membership
//! until every peer reports `PeerInCluster`, bounded by a fixed ceiling of
//! 600 one-second polls (about ten minutes).  Sleeping and fetching are the
//! caller's work; this module only counts polls and decides, from each
//! snapshot, whether to proceed, keep waiting, or give up.

use vstd::prelude::*;

use crate::peer::{spec_peers_ready, peers_are_ready, Peer};

verus! {

/// How many unmet polls are tolerated before the wait times out.
pub const QUORUM_POLL_CEILING: u64 = 600;

/// Outcome of one poll of the quorum gate.
#[derive(Clone, Copy, Debug, PartialEq, Eq, Structural)]
pub enum QuorumPoll {
    /// Every peer in the snapshot has joined: the caller may proceed.
    Ready,
    /// Quorum is not reached yet: sleep one second and poll again.
    Wait,
    /// The ceiling has passed without quorum: give up with a timeout.
    TimedOut,
}

/// The poll counter of the quorum wait, advanced once per unmet snapshot.
pub struct QuorumGate {
    /// Number of unmet polls seen so far.
    pub polls: u64,
}

/// Poll counter value after feeding one snapshot to a gate at `polls`.
pub open spec fn spec_quorum_next(polls: u64, ready: bool) -> u64 {
    if ready || polls >= QUORUM_POLL_CEILING {
        polls
    } else {
        (polls + 1) as u64
    }
}

/// Outcome of feeding one snapshot to a gate at `polls`.
pub open spec fn spec_quorum_poll(polls: u64, ready: bool) -> QuorumPoll {
    if ready {
        QuorumPoll::Ready
    } else if polls >= QUORUM_POLL_CEILING {
        QuorumPoll::TimedOut
    } else {
        QuorumPoll::Wait
    }
}

impl QuorumGate {
    /// A fresh gate that has seen no polls.
    pub fn new() -> (gate: QuorumGate)
        ensures
            gate.polls == 0,
    {
        QuorumGate { polls: 0 }
    }

    /// Feed one membership snapshot to the poll counter.
    ///
    /// Succeeds exactly when every peer of the snapshot is `PeerInCluster`
    /// (a failed fetch counts as not ready); otherwise the unmet poll is
    /// counted, and once the ceiling of unmet polls has passed a timeout
    /// is reported instead of asking for another round.
    pub fn step(&mut self, peers: Result<Vec<Peer>, String>) -> (poll: QuorumPoll)
        ensures
            poll == spec_quorum_poll(old(self).polls, spec_peers_ready(peers)),
            final(self).polls == spec_quorum_next(old(self).polls, spec_peers_ready(peers)),
            poll is Ready <==> spec_peers_ready(peers),
    {
        if peers_are_ready(peers) {
            QuorumPoll::Ready
        } else if self.polls >= QUORUM_POLL_CEILING {
            QuorumPoll::TimedOut
        } else {
            self.polls = self.polls + 1;
            QuorumPoll::Wait
        }
    }
}

/// Poll counter after `k` consecutive unmet polls from `polls`.
pub open spec fn spec_quorum_after(polls: u64, k: nat) -> u64
    decreases k,
{
    if k == 0 {
        polls
    } else {
        spec_quorum_next(spec_quorum_after(polls, (k - 1) as nat), false)
    }
}

/// The quorum wait never lasts forever: a fresh counter that is fed
/// nothing but unmet snapshots reports `Wait` on every poll up to the
/// ceiling, and `TimedOut` on every poll past it.
pub proof fn lemma_quorum_gate_times_out(k: nat)
    ensures
        spec_quorum_after(0, k) == if k >= QUORUM_POLL_CEILING {
            QUORUM_POLL_CEILING as int
        } else {
            k as int
        },
        k >= QUORUM_POLL_CEILING ==> spec_quorum_poll(spec_quorum_after(0, k), false)
            is TimedOut,
        k < QUORUM_POLL_CEILING ==> spec_quorum_poll(spec_quorum_after(0, k), false) is Wait,
    decreases k,
{
    if k > 0 {
        lemma_quorum_gate_times_out((k - 1) as nat);
    }
}

} // verus!
