//! The volume topology model.
//!
//! A `Brick` is one storage unit a peer contributes to a volume: the owning
//! peer together with a local filesystem path.  A `Volume` is the topology
//! the control plane reports before every allocation decision; "no volume
//! yet" is represented by `Option::None` at the call sites.

use vstd::prelude::*;

use crate::peer::Peer;
use crate::text::str_eq;

verus! {

/// Shape of a volume, as the cluster configuration names it.
#[derive(Clone, Copy, Debug, PartialEq, Eq, Structural)]
pub enum VolumeType {
    Distribute,
    Stripe,
    Replicate,
    StripedAndReplicate,
    Disperse,
    DistributedAndStripe,
    DistributedAndReplicate,
    DistributedAndStripedAndReplicate,
    DistributedAndDisperse,
}

/// Transport a volume speaks.
#[derive(Clone, Copy, Debug, PartialEq, Eq, Structural)]
pub enum Transport {
    Tcp,
    Rdma,
    TcpAndRdma,
}

/// One storage unit contributed to a volume: an owning peer and the local
/// path it serves.  Never mutated after construction.
#[derive(Debug, PartialEq)]
pub struct Brick {
    /// The peer that owns this brick.
    pub peer: Peer,
    /// Local filesystem path of the brick on that peer.
    pub path: String,
}

impl Clone for Brick {
    fn clone(&self) -> (cloned: Self)
        ensures
            cloned == *self,
    {
        Brick { peer: self.peer.clone(), path: self.path.clone() }
    }
}

/// Topology of an existing volume, as read back from the control plane.
#[derive(Debug, PartialEq)]
pub struct Volume {
    /// Name under which the volume was created.
    pub name: String,
    /// Shape of the volume.
    pub vol_type: VolumeType,
    /// Identity the control plane assigned to the volume.
    pub id: u128,
    /// Status string the control plane reports.
    pub status: String,
    /// Transport of the volume.
    pub transport: Transport,
    /// The bricks the volume is currently built from, in creation order.
    pub bricks: Vec<Brick>,
}

impl VolumeType {
    /// Reads a volume type from its configured name; any unknown name falls
    /// back to `Replicate`, the safest default shape.
    pub fn from_str(vol_type: &str) -> (parsed: VolumeType)
        ensures
            parsed == spec_volume_type_from_str(vol_type@),
    {
        if str_eq(vol_type, "Distribute") {
            VolumeType::Distribute
        } else if str_eq(vol_type, "Stripe") {
            VolumeType::Stripe
        } else if str_eq(vol_type, "Replicate") {
            VolumeType::Replicate
        } else if str_eq(vol_type, "Striped-Replicate") {
            VolumeType::StripedAndReplicate
        } else if str_eq(vol_type, "Disperse") {
            VolumeType::Disperse
        } else if str_eq(vol_type, "Distributed-Stripe") {
            VolumeType::DistributedAndStripe
        } else if str_eq(vol_type, "Distributed-Replicate") {
            VolumeType::DistributedAndReplicate
        } else if str_eq(vol_type, "Distributed-Striped-Replicate") {
            VolumeType::DistributedAndStripedAndReplicate
        } else if str_eq(vol_type, "Distributed-Disperse") {
            VolumeType::DistributedAndDisperse
        } else {
            VolumeType::Replicate
        }
    }
}

/// The volume type a configured name stands for.
pub open spec fn spec_volume_type_from_str(name: Seq<char>) -> VolumeType {
    if name == "Distribute"@ {
        VolumeType::Distribute
    } else if name == "Stripe"@ {
        VolumeType::Stripe
    } else if name == "Replicate"@ {
        VolumeType::Replicate
    } else if name == "Striped-Replicate"@ {
        VolumeType::StripedAndReplicate
    } else if name == "Disperse"@ {
        VolumeType::Disperse
    } else if name == "Distributed-Stripe"@ {
        VolumeType::DistributedAndStripe
    } else if name == "Distributed-Replicate"@ {
        VolumeType::DistributedAndReplicate
    } else if name == "Distributed-Striped-Replicate"@ {
        VolumeType::DistributedAndStripedAndReplicate
    } else if name == "Distributed-Disperse"@ {
        VolumeType::DistributedAndDisperse
    } else {
        VolumeType::Replicate
    }
}

/// Some brick of `bricks` is owned by the peer with identity `uuid`.
pub open spec fn spec_owns_brick(bricks: Seq<Brick>, uuid: u128) -> bool {
    exists|i: int| 0 <= i < bricks.len() && bricks[i].peer.uuid == uuid
}

/// Decide whether the peer with identity `uuid` already owns one of
/// `bricks`.
pub fn owns_brick(bricks: &Vec<Brick>, uuid: u128) -> (owns: bool)
    ensures
        owns == spec_owns_brick(bricks@, uuid),
{
    let mut i: usize = 0;
    while i < bricks.len()
        invariant
            i <= bricks.len(),
            forall|j: int| 0 <= j < i ==> bricks@[j].peer.uuid != uuid,
        decreases bricks.len() - i,
    {
        if bricks[i].peer.uuid == uuid {
            return true;
        }
        i = i + 1;
    }
    false
}

} // verus!
