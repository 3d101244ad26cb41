use gluster_coord::block::{
    initialization_filesystem, mount_device, Device, Filesystem, FilesystemType, MediaType,
    MetadataProfile,
};
use gluster_coord::ctdb::{get_cluster_networks, IpAddress, IpNetwork, NetworkInterface};
use gluster_coord::lifecycle::{candidate_package_version, create_sysctl, installed_package_version};
use gluster_coord::metrics::collect_metrics;
use gluster_coord::peer::{probe_in_units, Peer, State};
use gluster_coord::topology::{shrink_volume, volume_start_settings, ShrinkPlan};
use gluster_coord::volume::{Brick, Transport, Volume, VolumeType};
use uuid::Uuid;

#[test]
fn test_mount_device_by_uuid() {
    let id = Uuid::parse_str("30602134-698f-4e53-8503-163e175aea85").unwrap();
    let device = Device {
        id: Some(id.as_u128()),
        name: "sdb".to_string(),
        media_type: MediaType::Rotational,
        capacity: 1_000_000,
        fs_type: FilesystemType::Xfs,
    };
    let (program, args) = mount_device(&device, "/mnt/sdb");
    assert_eq!(program, "mount");
    assert_eq!(
        args,
        vec![
            "-U".to_string(),
            format!("{}", id.hyphenated()),
            "/mnt/sdb".to_string(),
        ]
    );
}

#[test]
fn test_mount_device_by_node() {
    let device = Device {
        id: None,
        name: "sdc".to_string(),
        media_type: MediaType::SolidState,
        capacity: 1_000_000,
        fs_type: FilesystemType::Ext4,
    };
    let (program, args) = mount_device(&device, "/mnt/sdc");
    assert_eq!(program, "mount");
    assert_eq!(args, vec!["/dev/sdc".to_string(), "/mnt/sdc".to_string()]);
}

#[test]
fn test_initialization_filesystem_table() {
    assert_eq!(
        initialization_filesystem(FilesystemType::Xfs),
        Filesystem::Xfs {
            block_size: None,
            inode_size: None,
            stripe_size: None,
            stripe_width: None,
            force: true,
        }
    );
    assert_eq!(
        initialization_filesystem(FilesystemType::Btrfs),
        Filesystem::Btrfs {
            metadata_profile: MetadataProfile::Single,
            leaf_size: 0,
            node_size: 0,
        }
    );
    assert_eq!(
        initialization_filesystem(FilesystemType::Unknown),
        initialization_filesystem(FilesystemType::Xfs)
    );
}

#[test]
fn test_volume_start_settings() {
    let settings = volume_start_settings(None);
    assert_eq!(settings.len(), 9);
    assert_eq!(settings[0], ("nfs.disable".to_string(), "off".to_string()));
    assert_eq!(
        settings[8],
        ("performance.readdir-ahead-cache-limit".to_string(), "20971520".to_string())
    );

    let with_policy = volume_start_settings(Some("size"));
    assert_eq!(with_policy.len(), 10);
    assert_eq!(
        with_policy[9],
        ("cluster.favorite-child-policy".to_string(), "size".to_string())
    );

    // An unknown policy is skipped, not an error.
    assert_eq!(volume_start_settings(Some("newest")).len(), 9);
}

#[test]
fn test_shrink_volume_removes_departing_bricks() {
    let departing = Peer {
        uuid: 42,
        hostname: "host-42".to_string(),
        status: State::PeerInCluster,
    };
    let volume = Volume {
        name: "test".to_string(),
        vol_type: VolumeType::Replicate,
        id: 7,
        status: "online".to_string(),
        transport: Transport::Tcp,
        bricks: Vec::new(),
    };
    let paths = vec!["/mnt/brick1".to_string()];
    match shrink_volume(&departing, &paths, &volume, 1) {
        ShrinkPlan::RemoveBricks(bricks) => {
            assert_eq!(bricks.len(), 1);
            assert_eq!(bricks[0].peer.uuid, 42);
            assert_eq!(bricks[0].path, "/mnt/brick1");
        }
        other => panic!("expected bricks to remove, got {:?}", other),
    }
}

#[test]
fn test_shrink_volume_waits_when_peer_already_serves() {
    let departing = Peer {
        uuid: 42,
        hostname: "host-42".to_string(),
        status: State::PeerInCluster,
    };
    let volume = Volume {
        name: "test".to_string(),
        vol_type: VolumeType::Replicate,
        id: 7,
        status: "online".to_string(),
        transport: Transport::Tcp,
        bricks: vec![Brick {
            peer: departing.clone(),
            path: "/mnt/brick1".to_string(),
        }],
    };
    let paths = vec!["/mnt/brick1".to_string()];
    assert_eq!(
        shrink_volume(&departing, &paths, &volume, 1),
        ShrinkPlan::WaitForMorePeers
    );
}

#[test]
fn test_probe_in_units_skips_known_hosts() {
    let peers = vec![Peer {
        uuid: 1,
        hostname: "10.0.0.1".to_string(),
        status: State::PeerInCluster,
    }];
    let units = vec![
        " 10.0.0.1 ".to_string(),
        "10.0.0.2\n".to_string(),
        "10.0.0.3".to_string(),
    ];
    let to_probe = probe_in_units(&peers, &units);
    assert_eq!(to_probe, vec!["10.0.0.2".to_string(), "10.0.0.3".to_string()]);
}

#[test]
fn test_installed_package_version() {
    let report = "Package: glusterfs-server\nStatus: install ok installed\nVersion 3.10.1-1\nSection: admin\n";
    assert_eq!(installed_package_version(report), Ok("3.10.1-1".to_string()));
    assert!(installed_package_version("Package: glusterfs-server\n").is_err());
    assert!(installed_package_version("Version 3.10.1 extra\n").is_err());
}

#[test]
fn test_candidate_package_version() {
    let report = "glusterfs-server:\n  Installed: 3.7.6-1\n  Candidate: 3.10.1-1\n";
    assert_eq!(candidate_package_version(report), Ok("3.10.1-1".to_string()));
    assert!(candidate_package_version("glusterfs-server:\n").is_err());
}

#[test]
fn test_create_sysctl() {
    let pairs = vec![
        ("kernel.max_pid".to_string(), "1337".to_string()),
        ("vm.swappiness".to_string(), "10".to_string()),
    ];
    assert_eq!(create_sysctl(&pairs), "kernel.max_pid=1337\nvm.swappiness=10\n");
    assert_eq!(create_sysctl(&Vec::new()), "");
}

#[test]
fn test_collect_metrics() {
    // 1024 used blocks of 1 MiB each are exactly one gibibyte.
    assert_eq!(collect_metrics(2048, 1_048_576, 1024), 1);
    assert_eq!(collect_metrics(2048, 1_048_576, 2048), 0);
    // Rounds down below a full gibibyte.
    assert_eq!(collect_metrics(1023, 1_048_576, 0), 0);
}

#[test]
fn test_get_cluster_networks() {
    let interfaces = vec![
        NetworkInterface {
            name: "eth0".to_string(),
            ips: vec![IpAddress::V4((192 << 24) | (168 << 16) | (1 << 8) | 2)],
        },
        NetworkInterface {
            name: "eth1".to_string(),
            ips: vec![IpAddress::V4((10 << 24) | 7)],
        },
    ];
    let networks = get_cluster_networks("192.168.1.50/24 10.0.0.99/8", &interfaces).unwrap();
    assert_eq!(networks.len(), 2);
    assert_eq!(networks[0].interface, "eth0");
    assert_eq!(
        networks[0].cidr,
        IpNetwork::V4 { addr: (192 << 24) | (168 << 16) | (1 << 8) | 50, prefix: 24 }
    );
    assert_eq!(networks[1].interface, "eth1");

    // An address no interface serves is refused.
    assert!(get_cluster_networks("172.16.0.1/12", &interfaces).is_err());
    // Text that parses as no network is refused.
    assert!(get_cluster_networks("not-a-network", &interfaces).is_err());
    // An empty configuration resolves to nothing.
    assert!(get_cluster_networks("", &interfaces).unwrap().is_empty());
}
