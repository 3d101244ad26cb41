use gluster_coord::peer::{Peer, State};
use gluster_coord::topology::{
    create_volume, create_volume_command, expand_volume, server_changed, CreatePlan, ExpandPlan,
    ServerChangedAction, VolumeCreateCommand,
};
use gluster_coord::volume::{Brick, Transport, Volume, VolumeType};
use uuid::Uuid;

fn new_peer() -> Peer {
    Peer {
        uuid: Uuid::new_v4().as_u128(),
        hostname: format!("host-{}", Uuid::new_v4()),
        status: State::PeerInCluster,
    }
}

fn volume_with_bricks(bricks: Vec<Brick>) -> Volume {
    Volume {
        name: "test".to_string(),
        vol_type: VolumeType::Replicate,
        id: Uuid::new_v4().as_u128(),
        status: "online".to_string(),
        transport: Transport::Tcp,
        bricks,
    }
}

#[test]
fn test_volume_type_from_str() {
    assert_eq!(VolumeType::from_str("Replicate"), VolumeType::Replicate);
    assert_eq!(VolumeType::from_str("Distributed-Disperse"), VolumeType::DistributedAndDisperse);
    assert_eq!(VolumeType::from_str("whatever"), VolumeType::Replicate);
}

#[test]
fn test_create_volume_command_table() {
    assert_eq!(
        create_volume_command(VolumeType::Distribute, 2, 6),
        VolumeCreateCommand::Distributed
    );
    assert_eq!(
        create_volume_command(VolumeType::Replicate, 2, 6),
        VolumeCreateCommand::Replicated { replicas: 2 }
    );
    assert_eq!(
        create_volume_command(VolumeType::Stripe, 2, 6),
        VolumeCreateCommand::Striped { stripe: 3 }
    );
    assert_eq!(
        create_volume_command(VolumeType::DistributedAndReplicate, 2, 6),
        VolumeCreateCommand::Replicated { replicas: 3 }
    );
    assert_eq!(
        create_volume_command(VolumeType::DistributedAndDisperse, 2, 6),
        VolumeCreateCommand::Erasure { disperse: 5, redundancy: 1 }
    );
}

#[test]
fn test_create_volume_plan() {
    let peers = vec![new_peer(), new_peer(), new_peer()];
    let paths = vec!["/mnt/brick1".to_string()];
    match create_volume(VolumeType::Replicate, &peers, &paths, 3) {
        CreatePlan::Create { command, bricks } => {
            assert_eq!(command, VolumeCreateCommand::Replicated { replicas: 3 });
            assert_eq!(bricks.len(), 3);
        }
        other => panic!("expected a create plan, got {:?}", other),
    }
}

#[test]
fn test_create_volume_waits_for_peers() {
    let peers = vec![new_peer()];
    let paths = vec!["/mnt/brick1".to_string()];
    assert_eq!(create_volume(VolumeType::Replicate, &peers, &paths, 3), CreatePlan::WaitForMorePeers);
}

#[test]
fn test_create_volume_refuses_zero_replicas() {
    let peers = vec![new_peer()];
    let paths = vec!["/mnt/brick1".to_string()];
    assert!(matches!(
        create_volume(VolumeType::Replicate, &peers, &paths, 0),
        CreatePlan::InvalidConfig(_)
    ));
}

#[test]
fn test_expand_volume_adds_new_peers_only() {
    let old_peer = new_peer();
    let new_a = new_peer();
    let new_b = new_peer();
    let peers = vec![old_peer.clone(), new_a.clone(), new_b.clone()];
    let volume = volume_with_bricks(vec![Brick {
        peer: old_peer.clone(),
        path: "/mnt/brick1".to_string(),
    }]);
    let paths = vec!["/mnt/brick1".to_string()];
    match expand_volume(&peers, &paths, &volume, 2) {
        ExpandPlan::AddBricks(bricks) => {
            assert_eq!(bricks.len(), 2);
            assert!(bricks.iter().all(|b| b.peer.uuid != old_peer.uuid));
        }
        other => panic!("expected an expansion, got {:?}", other),
    }
}

#[test]
fn test_expand_volume_waits_without_new_peers() {
    let old_peer = new_peer();
    let peers = vec![old_peer.clone()];
    let volume = volume_with_bricks(vec![Brick {
        peer: old_peer.clone(),
        path: "/mnt/brick1".to_string(),
    }]);
    let paths = vec!["/mnt/brick1".to_string()];
    assert_eq!(expand_volume(&peers, &paths, &volume, 2), ExpandPlan::WaitForMorePeers);
}

#[test]
fn test_server_changed_routing() {
    assert_eq!(server_changed(true, true, false), ServerChangedAction::LeaderExpand);
    assert_eq!(server_changed(true, false, false), ServerChangedAction::LeaderCreate);
    assert_eq!(server_changed(false, true, true), ServerChangedAction::NonLeaderMount);
    assert_eq!(server_changed(false, true, false), ServerChangedAction::NonLeaderWait);
}
