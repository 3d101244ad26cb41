use gluster_coord::allocate::{
    allocate, brick_and_server_cartesian_product, find_new_peers, AllocationOutcome,
};
use gluster_coord::peer::{peers_are_ready, Peer, State};
use gluster_coord::volume::{Brick, Transport, Volume, VolumeType};
use uuid::Uuid;

fn new_peer(status: State) -> Peer {
    Peer {
        uuid: Uuid::new_v4().as_u128(),
        hostname: format!("host-{}", Uuid::new_v4()),
        status,
    }
}

fn test_volume(bricks: Vec<Brick>) -> Volume {
    Volume {
        name: "Test".to_string(),
        vol_type: VolumeType::Replicate,
        id: Uuid::new_v4().as_u128(),
        status: "online".to_string(),
        transport: Transport::Tcp,
        bricks,
    }
}

#[test]
fn test_all_peers_are_ready() {
    let peers: Vec<Peer> = vec![new_peer(State::PeerInCluster), new_peer(State::PeerInCluster)];
    let ready = peers_are_ready(Ok(peers));
    println!("Peers are ready: {}", ready);
    assert!(ready);
}

#[test]
fn test_some_peers_are_ready() {
    let peers: Vec<Peer> = vec![new_peer(State::Connected), new_peer(State::PeerInCluster)];
    let ready = peers_are_ready(Ok(peers));
    println!("Some peers are ready: {}", ready);
    assert_eq!(ready, false);
}

#[test]
fn test_failed_fetch_is_not_ready() {
    assert_eq!(peers_are_ready(Err("transport endpoint not connected".to_string())), false);
}

#[test]
fn test_find_new_peers() {
    let peer1 = new_peer(State::PeerInCluster);
    let peer2 = new_peer(State::PeerInCluster);

    // peer1 and peer2 are in the cluster but only peer1 is actually serving a brick.
    // find_new_peers should return peer2 as a new peer
    let peers: Vec<Peer> = vec![peer1.clone(), peer2.clone()];
    let existing_brick = Brick {
        peer: peer1,
        path: "/mnt/brick1".to_string(),
    };

    let volume_info = test_volume(vec![existing_brick]);
    let new_peers = find_new_peers(&peers, &volume_info);
    assert_eq!(new_peers, vec![peer2]);
}

#[test]
fn test_cartesian_product() {
    let peer1 = new_peer(State::PeerInCluster);
    let peer2 = new_peer(State::PeerInCluster);
    let peers = vec![peer1.clone(), peer2.clone()];
    let paths = vec!["/mnt/brick1".to_string(), "/mnt/brick2".to_string()];
    let result = brick_and_server_cartesian_product(&peers, &paths);
    println!("brick_and_server_cartesian_product: {:?}", result);
    assert_eq!(
        result,
        vec![
            Brick {
                peer: peer1.clone(),
                path: "/mnt/brick1".to_string(),
            },
            Brick {
                peer: peer2.clone(),
                path: "/mnt/brick1".to_string(),
            },
            Brick {
                peer: peer1.clone(),
                path: "/mnt/brick2".to_string(),
            },
            Brick {
                peer: peer2.clone(),
                path: "/mnt/brick2".to_string(),
            }
        ]
    );
}

// Three peers, replication factor three, one shared path, no existing
// volume: exactly three bricks, one per peer, on the shared path.
#[test]
fn test_allocate_three_way_replica() {
    let peers = vec![
        new_peer(State::PeerInCluster),
        new_peer(State::PeerInCluster),
        new_peer(State::PeerInCluster),
    ];
    let paths = vec!["/mnt/brick1".to_string()];
    match allocate(&peers, &paths, None, 3) {
        AllocationOutcome::Allocated(bricks) => {
            assert_eq!(bricks.len(), 3);
            for (i, brick) in bricks.iter().enumerate() {
                assert_eq!(brick.peer, peers[i]);
                assert_eq!(brick.path, "/mnt/brick1");
            }
        }
        other => panic!("expected an allocation, got {:?}", other),
    }
}

// An existing volume with one brick owned by peer A, new peer set
// {A, B, C}, replication factor two: the differential peer set is
// {B, C} and the allocation holds one brick per supplied path for each.
#[test]
fn test_allocate_expansion_skips_existing_owner() {
    let peer_a = new_peer(State::PeerInCluster);
    let peer_b = new_peer(State::PeerInCluster);
    let peer_c = new_peer(State::PeerInCluster);
    let peers = vec![peer_a.clone(), peer_b.clone(), peer_c.clone()];
    let volume = test_volume(vec![Brick {
        peer: peer_a.clone(),
        path: "/mnt/brick1".to_string(),
    }]);
    let paths = vec!["/mnt/brick1".to_string()];
    match allocate(&peers, &paths, Some(&volume), 2) {
        AllocationOutcome::Allocated(bricks) => {
            assert_eq!(bricks.len(), 2);
            assert_eq!(bricks[0].peer, peer_b);
            assert_eq!(bricks[1].peer, peer_c);
            for brick in &bricks {
                assert!(brick.peer.uuid != peer_a.uuid);
            }
        }
        other => panic!("expected an allocation, got {:?}", other),
    }
}

#[test]
fn test_allocate_waits_below_replica_count() {
    let peers = vec![new_peer(State::PeerInCluster), new_peer(State::PeerInCluster)];
    let paths = vec!["/mnt/brick1".to_string()];
    let outcome = allocate(&peers, &paths, None, 3);
    assert_eq!(outcome, AllocationOutcome::WaitForMorePeers);
}

#[test]
fn test_allocate_refuses_zero_replicas() {
    let peers = vec![new_peer(State::PeerInCluster)];
    let paths = vec!["/mnt/brick1".to_string()];
    match allocate(&peers, &paths, None, 0) {
        AllocationOutcome::InvalidConfig(reason) => {
            assert_eq!(reason, "replication factor must be at least 1");
        }
        other => panic!("expected a refusal, got {:?}", other),
    }
}

// The truncation policy: five peers at replication factor two keep the
// first four, and the brick count is paths x kept peers.
#[test]
fn test_allocate_truncates_leftover_peers() {
    let peers: Vec<Peer> = (0..5).map(|_| new_peer(State::PeerInCluster)).collect();
    let paths = vec!["/mnt/brick1".to_string(), "/mnt/brick2".to_string()];
    match allocate(&peers, &paths, None, 2) {
        AllocationOutcome::Allocated(bricks) => {
            assert_eq!(bricks.len(), 8);
            for brick in &bricks {
                assert!(brick.peer.uuid != peers[4].uuid);
            }
        }
        other => panic!("expected an allocation, got {:?}", other),
    }
}

// Determinism: two calls over identical inputs yield identical brick
// lists, entry for entry.
#[test]
fn test_allocate_is_reproducible() {
    let peers: Vec<Peer> = (0..4).map(|_| new_peer(State::PeerInCluster)).collect();
    let paths = vec!["/mnt/a".to_string(), "/mnt/b".to_string()];
    let first = allocate(&peers, &paths, None, 2);
    let second = allocate(&peers, &paths, None, 2);
    assert_eq!(first, second);
}
