use gluster_coord::block::{
    format_block_device, get_manual_bricks, next_power_of_two, scan_devices, weekly_defrag,
    BrickDevice, DeviceProbe, Filesystem, FilesystemType, MetadataProfile, Scheduler,
};

fn probe(dev_path: &str, is_block_device: bool, initialized: bool) -> DeviceProbe {
    DeviceProbe {
        dev_path: dev_path.to_string(),
        is_block_device,
        initialized,
    }
}

#[test]
fn test_filesystem_type_round_trip() {
    assert_eq!(FilesystemType::from_str("xfs"), FilesystemType::Xfs);
    assert_eq!(FilesystemType::from_str("btrfs"), FilesystemType::Btrfs);
    assert_eq!(FilesystemType::from_str("vfat"), FilesystemType::Unknown);
    assert_eq!(FilesystemType::Ext4.to_str(), "ext4");
    assert_eq!(FilesystemType::Zfs.to_string(), "zfs".to_string());
}

#[test]
fn test_metadata_profile_to_string() {
    assert_eq!(MetadataProfile::Raid10.to_string(), "raid10".to_string());
    assert_eq!(MetadataProfile::Single.to_string(), "single".to_string());
}

#[test]
fn test_scheduler_from_str() {
    assert_eq!(Scheduler::from_str("deadline"), Ok(Scheduler::Deadline));
    assert!(Scheduler::from_str("fifo").is_err());
    assert_eq!(Scheduler::Noop.to_str(), "noop");
}

#[test]
fn test_filesystem_defaults() {
    assert_eq!(
        Filesystem::new(" xfs "),
        Filesystem::Xfs {
            stripe_size: None,
            stripe_width: None,
            block_size: None,
            inode_size: Some(512),
            force: false,
        }
    );
    assert_eq!(
        Filesystem::new("btrfs"),
        Filesystem::Btrfs {
            metadata_profile: MetadataProfile::Single,
            leaf_size: 32768,
            node_size: 32768,
        }
    );
    // Unknown names fall back to plain xfs.
    assert_eq!(
        Filesystem::new("reiserfs"),
        Filesystem::Xfs {
            stripe_size: None,
            stripe_width: None,
            block_size: None,
            inode_size: None,
            force: false,
        }
    );
}

#[test]
fn test_next_power_of_two() {
    assert_eq!(next_power_of_two(0), 1);
    assert_eq!(next_power_of_two(1), 1);
    assert_eq!(next_power_of_two(3), 4);
    assert_eq!(next_power_of_two(4096), 4096);
    assert_eq!(next_power_of_two(4097), 8192);
}

#[test]
fn test_format_block_device_xfs() {
    let device = BrickDevice {
        is_block_device: true,
        initialized: false,
        mount_path: "/mnt/sdb".to_string(),
        dev_path: "/dev/sdb".to_string(),
    };
    let filesystem = Filesystem::Xfs {
        block_size: Some(3000),
        inode_size: Some(512),
        stripe_size: None,
        stripe_width: None,
        force: true,
    };
    let command = format_block_device(&device, &filesystem).unwrap();
    assert_eq!(command.program, "/sbin/mkfs.xfs");
    assert_eq!(
        command.args,
        vec!["-i", "size=512", "-f", "-b", "size=4096", "/dev/sdb"]
    );
    assert!(command.post_setup_commands.is_empty());
}

#[test]
fn test_format_block_device_btrfs() {
    let device = BrickDevice {
        is_block_device: true,
        initialized: false,
        mount_path: "/mnt/sdc".to_string(),
        dev_path: "/dev/sdc".to_string(),
    };
    let filesystem = Filesystem::Btrfs {
        metadata_profile: MetadataProfile::Single,
        leaf_size: 32768,
        node_size: 32768,
    };
    let command = format_block_device(&device, &filesystem).unwrap();
    assert_eq!(command.program, "mkfs.btrfs");
    assert_eq!(
        command.args,
        vec!["-m", "single", "-l", "32768", "-n", "32768", "/dev/sdc"]
    );
}

#[test]
fn test_format_block_device_ext4() {
    let device = BrickDevice {
        is_block_device: true,
        initialized: false,
        mount_path: "/mnt/sdd".to_string(),
        dev_path: "/dev/sdd".to_string(),
    };
    let filesystem = Filesystem::Ext4 {
        inode_size: Some(512),
        reserved_blocks_percentage: 0,
        stride: Some(128),
        stripe_width: None,
    };
    let command = format_block_device(&device, &filesystem).unwrap();
    assert_eq!(command.program, "mkfs.ext4");
    assert_eq!(
        command.args,
        vec!["-m", "0", "-I", "512", "-E", "stride=128", "/dev/sdd"]
    );
}

#[test]
fn test_format_block_device_zfs() {
    let device = BrickDevice {
        is_block_device: true,
        initialized: false,
        mount_path: "/mnt/sde".to_string(),
        dev_path: "/dev/sde".to_string(),
    };
    let filesystem = Filesystem::Zfs {
        block_size: Some(8192),
        compression: Some(true),
    };
    let command = format_block_device(&device, &filesystem).unwrap();
    assert_eq!(command.program, "/sbin/zpool");
    assert_eq!(
        command.args,
        vec!["create", "-f", "-m", "/mnt/sde", "sde", "/dev/sde"]
    );
    let rendered: Vec<(String, Vec<String>)> = command.post_setup_commands;
    assert_eq!(rendered.len(), 4);
    assert_eq!(rendered[0].0, "/sbin/zfs");
    assert_eq!(rendered[0].1, vec!["set", "recordsize=8192", "sde"]);
    assert_eq!(rendered[1].1, vec!["set", "compression=on", "sde"]);
    assert_eq!(rendered[2].1, vec!["set", "acltype=posixacl", "sde"]);
    assert_eq!(rendered[3].1, vec!["set", "atime=off", "sde"]);
}

#[test]
fn test_format_block_device_zfs_needs_device_name() {
    let device = BrickDevice {
        is_block_device: true,
        initialized: false,
        mount_path: "/mnt/".to_string(),
        dev_path: "/dev/".to_string(),
    };
    let filesystem = Filesystem::Zfs { block_size: None, compression: None };
    assert!(format_block_device(&device, &filesystem).is_err());
}

#[test]
fn test_get_manual_bricks_splits_config() {
    let paths = get_manual_bricks("/dev/sdb  /dev/sdc ");
    assert_eq!(paths, vec!["/dev/sdb".to_string(), "/dev/sdc".to_string()]);
    assert!(get_manual_bricks("").is_empty());
}

#[test]
fn test_scan_devices_skips_non_block_devices() {
    let probes = vec![
        probe("/dev/sdb", true, false),
        probe("/dev/sdc", false, false),
        probe("/dev/", true, true),
        probe("/dev/sdd", true, true),
    ];
    let bricks = scan_devices(&probes);
    assert_eq!(
        bricks,
        vec![
            BrickDevice {
                is_block_device: true,
                initialized: false,
                mount_path: "/mnt/sdb".to_string(),
                dev_path: "/dev/sdb".to_string(),
            },
            BrickDevice {
                is_block_device: true,
                initialized: true,
                mount_path: "/mnt/sdd".to_string(),
                dev_path: "/dev/sdd".to_string(),
            },
        ]
    );
}

#[test]
fn test_weekly_defrag() {
    let crontab = "0 0 * * 0 xfs_fsr /mnt/old\n\n0 1 * * 1 touch /tmp/heartbeat\n";
    let content = weekly_defrag("/mnt/old", &FilesystemType::Ext4, "0 2 * * 2", crontab);
    // The stale entry for the mount is replaced by the fresh job.
    assert_eq!(
        content,
        "0 1 * * 1 touch /tmp/heartbeat\n0 2 * * 2 e4defrag /mnt/old\n"
    );
    // A mount without an entry is simply appended.
    let content = weekly_defrag("/mnt/new", &FilesystemType::Btrfs, "0 3 * * 3", crontab);
    assert_eq!(
        content,
        "0 0 * * 0 xfs_fsr /mnt/old\n0 1 * * 1 touch /tmp/heartbeat\n0 3 * * 3 btrfs filesystem defragment -r /mnt/new\n"
    );
}
