//! The topology controller's decisions.
//!
//! One lifecycle event at a time, the controller decides whether to create
//! the volume, grow it, wait, or fail, and with which bricks.  Waiting for
//! more peers is deliberately not an error: the next lifecycle event is the
//! retry mechanism.  Control-plane calls themselves are the caller's work;
//! what stands here is every decision that picks them.

use vstd::prelude::*;

use crate::allocate::{
    allocate, spec_allocated_bricks, spec_candidates, AllocationOutcome,
};
use crate::peer::Peer;
use crate::volume::{Brick, Volume, VolumeType};

verus! {

/// The control-plane call that creates a volume of the configured shape,
/// with the counts to pass along.
#[derive(Clone, Copy, Debug, PartialEq, Eq, Structural)]
pub enum VolumeCreateCommand {
    /// Create a plain distributed volume.
    Distributed,
    /// Create a striped volume over this many stripes.
    Striped { stripe: usize },
    /// Create a replicated volume with this many replicas.
    Replicated { replicas: usize },
    /// Create a striped and replicated volume.
    StripedReplicated { stripe: usize, replicas: usize },
    /// Create a dispersed (erasure-coded) volume.
    Erasure { disperse: usize, redundancy: usize },
}

/// The command a volume shape maps to.  Only a plain replicated volume
/// honours the configured replica count; the other shapes keep the fixed
/// counts the coordinator has always used.  A distributed-dispersed volume
/// spreads over one disperse unit less than it has bricks.
pub open spec fn spec_create_command(
    cluster_type: VolumeType,
    replicas: int,
    brick_count: int,
) -> VolumeCreateCommand {
    match cluster_type {
        VolumeType::Distribute => VolumeCreateCommand::Distributed,
        VolumeType::Stripe => VolumeCreateCommand::Striped { stripe: 3 },
        VolumeType::Replicate => VolumeCreateCommand::Replicated { replicas: replicas as usize },
        VolumeType::StripedAndReplicate => VolumeCreateCommand::StripedReplicated {
            stripe: 3,
            replicas: 3,
        },
        VolumeType::Disperse => VolumeCreateCommand::Erasure { disperse: 3, redundancy: 1 },
        VolumeType::DistributedAndStripe => VolumeCreateCommand::Striped { stripe: 3 },
        VolumeType::DistributedAndReplicate => VolumeCreateCommand::Replicated { replicas: 3 },
        VolumeType::DistributedAndStripedAndReplicate => VolumeCreateCommand::StripedReplicated {
            stripe: 3,
            replicas: 3,
        },
        VolumeType::DistributedAndDisperse => VolumeCreateCommand::Erasure {
            disperse: (brick_count - 1) as usize,
            redundancy: 1,
        },
    }
}

/// Pick the create command for a volume shape and a brick list of
/// `brick_count` entries.  A distributed-dispersed volume needs at least
/// one brick, since it disperses over one unit less than it has bricks.
pub fn create_volume_command(
    cluster_type: VolumeType,
    replicas: usize,
    brick_count: usize,
) -> (command: VolumeCreateCommand)
    requires
        cluster_type is DistributedAndDisperse ==> brick_count >= 1,
    ensures
        command == spec_create_command(cluster_type, replicas as int, brick_count as int),
{
    match cluster_type {
        VolumeType::Distribute => VolumeCreateCommand::Distributed,
        VolumeType::Stripe => VolumeCreateCommand::Striped { stripe: 3 },
        VolumeType::Replicate => VolumeCreateCommand::Replicated { replicas },
        VolumeType::StripedAndReplicate => VolumeCreateCommand::StripedReplicated {
            stripe: 3,
            replicas: 3,
        },
        VolumeType::Disperse => VolumeCreateCommand::Erasure { disperse: 3, redundancy: 1 },
        VolumeType::DistributedAndStripe => VolumeCreateCommand::Striped { stripe: 3 },
        VolumeType::DistributedAndReplicate => VolumeCreateCommand::Replicated { replicas: 3 },
        VolumeType::DistributedAndStripedAndReplicate => VolumeCreateCommand::StripedReplicated {
            stripe: 3,
            replicas: 3,
        },
        VolumeType::DistributedAndDisperse => VolumeCreateCommand::Erasure {
            disperse: brick_count - 1,
            redundancy: 1,
        },
    }
}

/// Decision of one volume-creation round.
#[derive(Debug, PartialEq)]
pub enum CreatePlan {
    /// Issue this create command over these bricks, then start the volume.
    Create { command: VolumeCreateCommand, bricks: Vec<Brick> },
    /// Too few peers for the replication factor; report "waiting" and let
    /// the next lifecycle event retry.  Not an error.
    WaitForMorePeers,
    /// The configuration cannot be satisfied; surface a hard failure.
    InvalidConfig(String),
}

/// Decide one volume-creation round: allocate bricks over all peers and
/// pick the create command for the configured shape.
///
/// The caller waits for full quorum before acting on `Create`,
/// and issues the command followed by a volume start; any control-plane
/// failure is surfaced, not retried here.
pub fn create_volume(
    cluster_type: VolumeType,
    peers: &Vec<Peer>,
    paths: &Vec<String>,
    replicas: usize,
) -> (plan: CreatePlan)
    requires
        cluster_type is DistributedAndDisperse ==> paths@.len() >= 1,
    ensures
        plan is InvalidConfig <==> replicas == 0,
        plan matches CreatePlan::InvalidConfig(reason) ==> reason@
            == "replication factor must be at least 1"@,
        replicas > 0 ==> (plan is WaitForMorePeers <==> peers@.len() < replicas),
        replicas > 0 && peers@.len() >= replicas ==> (plan matches CreatePlan::Create {
            command,
            bricks,
        } && bricks@ == spec_allocated_bricks(peers@, paths@, Option::None, replicas as int)
            && command == spec_create_command(
            cluster_type,
            replicas as int,
            bricks@.len() as int,
        )),
{
    match allocate(peers, paths, Option::None, replicas) {
        AllocationOutcome::Allocated(bricks) => {
            proof {
                if cluster_type is DistributedAndDisperse {
                    crate::allocate::lemma_allocated_brick_count(
                        peers@,
                        paths@,
                        Option::None,
                        replicas as int,
                    );
                    let n = peers@.len() as int;
                    let k = n - n % (replicas as int);
                    assert(k >= 1) by {
                        vstd::arithmetic::div_mod::lemma_mod_bound(n, replicas as int);
                    }
                    assert(bricks@.len() == paths@.len() * k);
                    assert(paths@.len() * k >= 1 * 1) by (nonlinear_arith)
                        requires
                            paths@.len() >= 1,
                            k >= 1,
                    ;
                }
            }
            let command = create_volume_command(cluster_type, replicas, bricks.len());
            CreatePlan::Create { command, bricks }
        }
        AllocationOutcome::WaitForMorePeers => CreatePlan::WaitForMorePeers,
        AllocationOutcome::InvalidConfig(reason) => CreatePlan::InvalidConfig(reason),
    }
}

/// Decision of one volume-expansion round.
#[derive(Debug, PartialEq)]
pub enum ExpandPlan {
    /// Add exactly these bricks to the volume.
    AddBricks(Vec<Brick>),
    /// No full replica set of new peers yet; report "waiting" and let the
    /// next lifecycle event retry.  Not an error.
    WaitForMorePeers,
    /// The configuration cannot be satisfied; surface a hard failure.
    InvalidConfig(String),
}

/// Decide one volume-expansion round: allocate bricks over the peers that
/// do not yet serve the volume.  Expansion does not require full quorum.
pub fn expand_volume(peers: &Vec<Peer>, paths: &Vec<String>, volume: &Volume, replicas: usize) -> (
    plan: ExpandPlan)
    ensures
        plan is InvalidConfig <==> replicas == 0,
        plan matches ExpandPlan::InvalidConfig(reason) ==> reason@
            == "replication factor must be at least 1"@,
        replicas > 0 ==> {
            let cands = spec_candidates(peers@, Option::Some(*volume));
            &&& (plan is WaitForMorePeers <==> cands.len() < replicas)
            &&& cands.len() >= replicas ==> (plan matches ExpandPlan::AddBricks(bricks) && bricks@
                == spec_allocated_bricks(
                peers@,
                paths@,
                Option::Some(*volume),
                replicas as int,
            ))
        },
{
    match allocate(peers, paths, Option::Some(volume), replicas) {
        AllocationOutcome::Allocated(bricks) => ExpandPlan::AddBricks(bricks),
        AllocationOutcome::WaitForMorePeers => ExpandPlan::WaitForMorePeers,
        AllocationOutcome::InvalidConfig(reason) => ExpandPlan::InvalidConfig(reason),
    }
}

/// Decision of one volume-shrink round.
#[derive(Debug, PartialEq)]
pub enum ShrinkPlan {
    /// Remove exactly these bricks from the volume.
    RemoveBricks(Vec<Brick>),
    /// The departing peer contributes no full replica set; nothing to
    /// remove on this event.
    WaitForMorePeers,
    /// The configuration cannot be satisfied; surface a hard failure.
    InvalidConfig(String),
}

/// Decide one volume-shrink round for a departing peer: the bricks to
/// remove are allocated over the departing peer alone, against the
/// current topology.
pub fn shrink_volume(peer: &Peer, paths: &Vec<String>, volume: &Volume, replicas: usize) -> (plan:
    ShrinkPlan)
    ensures
        plan is InvalidConfig <==> replicas == 0,
        plan matches ShrinkPlan::InvalidConfig(reason) ==> reason@
            == "replication factor must be at least 1"@,
        replicas > 0 ==> {
            let cands = spec_candidates(seq![*peer], Option::Some(*volume));
            &&& (plan is WaitForMorePeers <==> cands.len() < replicas)
            &&& cands.len() >= replicas ==> (plan matches ShrinkPlan::RemoveBricks(bricks)
                && bricks@ == spec_allocated_bricks(
                seq![*peer],
                paths@,
                Option::Some(*volume),
                replicas as int,
            ))
        },
{
    let mut departing: Vec<Peer> = Vec::new();
    departing.push(peer.clone());
    proof {
        assert(departing@ =~= seq![*peer]);
    }
    match allocate(&departing, paths, Option::Some(volume), replicas) {
        AllocationOutcome::Allocated(bricks) => ShrinkPlan::RemoveBricks(bricks),
        AllocationOutcome::WaitForMorePeers => ShrinkPlan::WaitForMorePeers,
        AllocationOutcome::InvalidConfig(reason) => ShrinkPlan::InvalidConfig(reason),
    }
}

/// The split-brain policies the control plane accepts for the
/// favourite-child setting.
pub open spec fn spec_splitbrain_policy_ok(policy: Seq<char>) -> bool {
    policy == "ctime"@ || policy == "none"@ || policy == "majority"@ || policy == "mtime"@
        || policy == "size"@
}

/// The (option, value) pairs of one owned settings list.
pub open spec fn spec_setting_views(settings: Seq<(String, String)>) -> Seq<
    (Seq<char>, Seq<char>),
> {
    settings.map_values(|pair: (String, String)| (pair.0@, pair.1@))
}

/// The options applied right after a volume starts: legacy NFS stays on,
/// the diagnostics counters run with a five-second FOP sample, a
/// thirty-second stats dump and a one-hour DNS cache, parallel and
/// read-ahead directory reading are on with a twenty-mebibyte cache, and
/// a configured split-brain policy is set when it names a known policy.
pub open spec fn spec_volume_start_settings(policy: Option<Seq<char>>) -> Seq<
    (Seq<char>, Seq<char>),
> {
    let base = seq![
        ("nfs.disable"@, "off"@),
        ("diagnostics.latency-measurement"@, "on"@),
        ("diagnostics.count-fop-hits"@, "on"@),
        ("diagnostics.fop-sample-interval"@, "5"@),
        ("diagnostics.stats-dump-interval"@, "30"@),
        ("diagnostics.stats-dnscache-ttl-sec"@, "3600"@),
        ("performance.parallel-readdir"@, "on"@),
        ("performance.readdir-ahead"@, "on"@),
        ("performance.readdir-ahead-cache-limit"@, "20971520"@),
    ];
    match policy {
        Option::Some(name) => if spec_splitbrain_policy_ok(name) {
            base.push(("cluster.favorite-child-policy"@, name))
        } else {
            base
        },
        Option::None => base,
    }
}

/// The volume options to apply once the volume has started, as (option,
/// value) pairs in application order.  A configured split-brain policy
/// that names no known policy is reported and skipped, never an error.
pub fn volume_start_settings(splitbrain_policy: Option<&str>) -> (settings: Vec<(String, String)>)
    ensures
        spec_setting_views(settings@) == spec_volume_start_settings(
            match splitbrain_policy {
                Some(name) => Some(name@),
                None => None,
            },
        ),
{
    let mut settings: Vec<(String, String)> = Vec::new();
    settings.push((String::from_str("nfs.disable"), String::from_str("off")));
    settings.push((String::from_str("diagnostics.latency-measurement"), String::from_str("on")));
    settings.push((String::from_str("diagnostics.count-fop-hits"), String::from_str("on")));
    settings.push((String::from_str("diagnostics.fop-sample-interval"), String::from_str("5")));
    settings.push((String::from_str("diagnostics.stats-dump-interval"), String::from_str("30")));
    settings.push(
        (String::from_str("diagnostics.stats-dnscache-ttl-sec"), String::from_str("3600")),
    );
    settings.push((String::from_str("performance.parallel-readdir"), String::from_str("on")));
    settings.push((String::from_str("performance.readdir-ahead"), String::from_str("on")));
    settings.push(
        (String::from_str("performance.readdir-ahead-cache-limit"), String::from_str("20971520")),
    );
    if let Some(name) = splitbrain_policy {
        let known = crate::text::str_eq(name, "ctime") || crate::text::str_eq(name, "none")
            || crate::text::str_eq(name, "majority") || crate::text::str_eq(name, "mtime")
            || crate::text::str_eq(name, "size");
        if known {
            settings.push(
                (String::from_str("cluster.favorite-child-policy"), String::from_str(name)),
            );
        }
    }
    proof {
        assert(spec_setting_views(settings@) =~~= spec_volume_start_settings(
            match splitbrain_policy {
                Some(name) => Some(name@),
                None => None,
            },
        ));
    }
    settings
}

/// What a node does on a "server changed" lifecycle event.
#[derive(Clone, Copy, Debug, PartialEq, Eq, Structural)]
pub enum ServerChangedAction {
    /// Leader, volume exists: probe new peers and run an expansion round.
    LeaderExpand,
    /// Leader, no volume yet: pass the quorum gate, then run a creation
    /// round.
    LeaderCreate,
    /// Non-leader, and the leader has marked the volume started: mount it.
    NonLeaderMount,
    /// Non-leader, volume not started yet: nothing to do on this event.
    NonLeaderWait,
}

/// Route a "server changed" event: only the elected leader mutates the
/// topology; everyone else at most mounts the volume the leader has
/// already started.
pub fn server_changed(leader: bool, volume_exists: bool, volume_started: bool) -> (action:
    ServerChangedAction)
    ensures
        action is LeaderExpand <==> (leader && volume_exists),
        action is LeaderCreate <==> (leader && !volume_exists),
        action is NonLeaderMount <==> (!leader && volume_started),
        action is NonLeaderWait <==> (!leader && !volume_started),
{
    if leader {
        if volume_exists {
            ServerChangedAction::LeaderExpand
        } else {
            ServerChangedAction::LeaderCreate
        }
    } else {
        if volume_started {
            ServerChangedAction::NonLeaderMount
        } else {
            ServerChangedAction::NonLeaderWait
        }
    }
}

} // verus!
