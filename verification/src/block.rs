//! Block-device and filesystem modelling.
//!
//! The coordinator formats and mounts block devices before contributing
//! them to a volume.  The decisions live here: which filesystem a
//! configured name stands for, which defaults each filesystem gets, and
//! the exact formatting command line for a device.  Running the commands,
//! probing udev and mounting are the caller's work.

use vstd::prelude::*;

use crate::text::{
    spec_dec, spec_last_segment, spec_nonempty_parts, spec_trim, str_eq, str_trim, u64_to_dec,
};

verus! {

/// Metadata layout a btrfs filesystem is created with.
#[derive(Clone, Copy, Debug, PartialEq, Eq, Structural)]
pub enum MetadataProfile {
    Raid0,
    Raid1,
    Raid5,
    Raid6,
    Raid10,
    Single,
    Dup,
}

impl MetadataProfile {
    /// The profile name as the formatting tool expects it.
    pub fn to_string(self) -> (s: String)
        ensures
            s@ == spec_metadata_profile_str(self),
    {
        match self {
            MetadataProfile::Raid0 => String::from_str("raid0"),
            MetadataProfile::Raid1 => String::from_str("raid1"),
            MetadataProfile::Raid5 => String::from_str("raid5"),
            MetadataProfile::Raid6 => String::from_str("raid6"),
            MetadataProfile::Raid10 => String::from_str("raid10"),
            MetadataProfile::Single => String::from_str("single"),
            MetadataProfile::Dup => String::from_str("dup"),
        }
    }
}

/// The name each metadata profile renders to.
pub open spec fn spec_metadata_profile_str(profile: MetadataProfile) -> Seq<char> {
    match profile {
        MetadataProfile::Raid0 => "raid0"@,
        MetadataProfile::Raid1 => "raid1"@,
        MetadataProfile::Raid5 => "raid5"@,
        MetadataProfile::Raid6 => "raid6"@,
        MetadataProfile::Raid10 => "raid10"@,
        MetadataProfile::Single => "single"@,
        MetadataProfile::Dup => "dup"@,
    }
}

/// An I/O scheduler a block device can be set to.
#[derive(Clone, Copy, Debug, PartialEq, Eq, Structural)]
pub enum Scheduler {
    /// Try to balance latency and throughput.
    Cfq,
    /// Latency is most important.
    Deadline,
    /// Throughput is most important.
    Noop,
}

impl Scheduler {
    /// The scheduler's kernel name.
    pub fn to_str(self) -> (s: &'static str)
        ensures
            (self is Cfq ==> s@ == "cfq"@) && (self is Deadline ==> s@ == "deadline"@) && (self
                is Noop ==> s@ == "noop"@),
    {
        match self {
            Scheduler::Cfq => "cfq",
            Scheduler::Deadline => "deadline",
            Scheduler::Noop => "noop",
        }
    }

    /// Read a scheduler from its kernel name; unknown names are refused.
    pub fn from_str(s: &str) -> (parsed: Result<Scheduler, String>)
        ensures
            parsed matches Ok(v) ==> ((v is Cfq <==> s@ == "cfq"@) && (v is Deadline <==> s@
                == "deadline"@) && (v is Noop <==> s@ == "noop"@)),
            parsed is Err <==> (s@ != "cfq"@ && s@ != "deadline"@ && s@ != "noop"@),
    {
        proof {
            reveal_strlit("cfq");
            reveal_strlit("deadline");
            reveal_strlit("noop");
            assert("cfq"@.len() == 3 && "deadline"@.len() == 8 && "noop"@.len() == 4);
        }
        if str_eq(s, "cfq") {
            Ok(Scheduler::Cfq)
        } else if str_eq(s, "deadline") {
            Ok(Scheduler::Deadline)
        } else if str_eq(s, "noop") {
            Ok(Scheduler::Noop)
        } else {
            Err(String::from_str("unknown scheduler"))
        }
    }
}

/// What kind of medium a device is.
#[derive(Clone, Copy, Debug, PartialEq, Eq, Structural)]
pub enum MediaType {
    SolidState,
    Rotational,
    Loopback,
    Unknown,
}

/// The filesystems the coordinator knows how to set up.
#[derive(Clone, Copy, Debug, PartialEq, Eq, Structural)]
pub enum FilesystemType {
    Btrfs,
    Ext2,
    Ext3,
    Ext4,
    Xfs,
    Zfs,
    Unknown,
}

/// The filesystem type a configured name stands for; anything else is
/// `Unknown`.
pub open spec fn spec_filesystem_type_from_str(name: Seq<char>) -> FilesystemType {
    if name == "btrfs"@ {
        FilesystemType::Btrfs
    } else if name == "ext2"@ {
        FilesystemType::Ext2
    } else if name == "ext3"@ {
        FilesystemType::Ext3
    } else if name == "ext4"@ {
        FilesystemType::Ext4
    } else if name == "xfs"@ {
        FilesystemType::Xfs
    } else if name == "zfs"@ {
        FilesystemType::Zfs
    } else {
        FilesystemType::Unknown
    }
}

/// The name each filesystem type renders to.
pub open spec fn spec_filesystem_type_str(fs: FilesystemType) -> Seq<char> {
    match fs {
        FilesystemType::Btrfs => "btrfs"@,
        FilesystemType::Ext2 => "ext2"@,
        FilesystemType::Ext3 => "ext3"@,
        FilesystemType::Ext4 => "ext4"@,
        FilesystemType::Xfs => "xfs"@,
        FilesystemType::Zfs => "zfs"@,
        FilesystemType::Unknown => "unknown"@,
    }
}

impl FilesystemType {
    /// Read a filesystem type from its configured name.
    pub fn from_str(fs_type: &str) -> (parsed: FilesystemType)
        ensures
            parsed == spec_filesystem_type_from_str(fs_type@),
    {
        if str_eq(fs_type, "btrfs") {
            FilesystemType::Btrfs
        } else if str_eq(fs_type, "ext2") {
            FilesystemType::Ext2
        } else if str_eq(fs_type, "ext3") {
            FilesystemType::Ext3
        } else if str_eq(fs_type, "ext4") {
            FilesystemType::Ext4
        } else if str_eq(fs_type, "xfs") {
            FilesystemType::Xfs
        } else if str_eq(fs_type, "zfs") {
            FilesystemType::Zfs
        } else {
            FilesystemType::Unknown
        }
    }

    /// The filesystem's name, borrowed.
    pub fn to_str(&self) -> (s: &'static str)
        ensures
            s@ == spec_filesystem_type_str(*self),
    {
        match self {
            FilesystemType::Btrfs => "btrfs",
            FilesystemType::Ext2 => "ext2",
            FilesystemType::Ext3 => "ext3",
            FilesystemType::Ext4 => "ext4",
            FilesystemType::Xfs => "xfs",
            FilesystemType::Zfs => "zfs",
            FilesystemType::Unknown => "unknown",
        }
    }

    /// The filesystem's name, owned.
    pub fn to_string(&self) -> (s: String)
        ensures
            s@ == spec_filesystem_type_str(*self),
    {
        String::from_str(self.to_str())
    }
}

/// One candidate brick device on this node, as configuration and earlier
/// initialization rounds left it.
#[derive(Debug, PartialEq)]
pub struct BrickDevice {
    /// The device was confirmed to be a block device.
    pub is_block_device: bool,
    /// The device was already formatted and mounted by an earlier round.
    pub initialized: bool,
    /// Where the device is, or will be, mounted.
    pub mount_path: String,
    /// The device node path.
    pub dev_path: String,
}

impl Clone for BrickDevice {
    fn clone(&self) -> (cloned: Self)
        ensures
            cloned == *self,
    {
        BrickDevice {
            is_block_device: self.is_block_device,
            initialized: self.initialized,
            mount_path: self.mount_path.clone(),
            dev_path: self.dev_path.clone(),
        }
    }
}

/// A filesystem together with the settings it is created with.
#[derive(Clone, Copy, Debug, PartialEq, Eq, Structural)]
pub enum Filesystem {
    Btrfs { metadata_profile: MetadataProfile, leaf_size: u64, node_size: u64 },
    Ext4 {
        inode_size: Option<u64>,
        reserved_blocks_percentage: u8,
        stride: Option<u64>,
        stripe_width: Option<u64>,
    },
    Xfs {
        /// Must be a power of two; rounded up to one otherwise.
        block_size: Option<u64>,
        inode_size: Option<u64>,
        /// RAID controller's stripe size in bytes.
        stripe_size: Option<u64>,
        /// Number of data disks.
        stripe_width: Option<u64>,
        force: bool,
    },
    Zfs {
        /// Any power of two from 512 bytes to 128 kibibytes.
        block_size: Option<u64>,
        /// Enable compression on the volume.
        compression: Option<bool>,
    },
}

impl Filesystem {
    /// The default creation settings for a filesystem name; unknown names
    /// fall back to plain xfs.
    pub fn new(name: &str) -> (fs: Filesystem)
        ensures
            fs == spec_filesystem_defaults(spec_trim(name@)),
    {
        let name = str_trim(name);
        if str_eq(name, "zfs") {
            Filesystem::Zfs { block_size: None, compression: None }
        } else if str_eq(name, "xfs") {
            Filesystem::Xfs {
                stripe_size: None,
                stripe_width: None,
                block_size: None,
                inode_size: Some(512),
                force: false,
            }
        } else if str_eq(name, "btrfs") {
            Filesystem::Btrfs {
                metadata_profile: MetadataProfile::Single,
                leaf_size: 32768,
                node_size: 32768,
            }
        } else if str_eq(name, "ext4") {
            Filesystem::Ext4 {
                inode_size: Some(512),
                reserved_blocks_percentage: 0,
                stride: None,
                stripe_width: None,
            }
        } else {
            Filesystem::Xfs {
                stripe_size: None,
                stripe_width: None,
                block_size: None,
                inode_size: None,
                force: false,
            }
        }
    }
}

/// `p` is a power of two.
pub open spec fn spec_is_pow2(p: int) -> bool
    decreases p,
{
    if p <= 0 {
        false
    } else if p == 1 {
        true
    } else {
        p % 2 == 0 && spec_is_pow2(p / 2)
    }
}

/// The smallest power of two not below `n` (1 for `n <= 1`).
pub open spec fn spec_next_pow2(n: int) -> int
    decreases n,
{
    if n <= 1 {
        1
    } else {
        2 * spec_next_pow2((n + 1) / 2)
    }
}

/// `spec_next_pow2` is a power of two, reaches `n`, and overshoots it by
/// less than a factor of two.
pub proof fn lemma_next_pow2_bounds(n: int)
    requires
        n >= 1,
    ensures
        spec_is_pow2(spec_next_pow2(n)),
        spec_next_pow2(n) >= n,
        spec_next_pow2(n) < 2 * n,
    decreases n,
{
    if n > 1 {
        let half = (n + 1) / 2;
        lemma_next_pow2_bounds(half);
        let p = spec_next_pow2(half);
        if 2 * p == n {
            assert(n % 2 == 1 ==> false) by {
                assert(2 * p == n);
            }
        }
    }
}

/// Round `n` up to the nearest power of two; block sizes handed to the
/// formatting tools must be powers of two.
pub fn next_power_of_two(n: u64) -> (p: u64)
    requires
        n <= 0x8000_0000_0000_0000,
    ensures
        p as int == spec_next_pow2(n as int),
    decreases n,
{
    if n <= 1 {
        1
    } else {
        let half = (n + 1) / 2;
        let rounded = next_power_of_two(half);
        proof {
            lemma_next_pow2_bounds(half as int);
        }
        2 * rounded
    }
}

/// The default creation settings each filesystem name stands for.
pub open spec fn spec_filesystem_defaults(name: Seq<char>) -> Filesystem {
    if name == "zfs"@ {
        Filesystem::Zfs { block_size: None, compression: None }
    } else if name == "xfs"@ {
        Filesystem::Xfs {
            stripe_size: None,
            stripe_width: None,
            block_size: None,
            inode_size: Some(512u64),
            force: false,
        }
    } else if name == "btrfs"@ {
        Filesystem::Btrfs {
            metadata_profile: MetadataProfile::Single,
            leaf_size: 32768u64,
            node_size: 32768u64,
        }
    } else if name == "ext4"@ {
        Filesystem::Ext4 {
            inode_size: Some(512u64),
            reserved_blocks_percentage: 0u8,
            stride: None,
            stripe_width: None,
        }
    } else {
        Filesystem::Xfs {
            stripe_size: None,
            stripe_width: None,
            block_size: None,
            inode_size: None,
            force: false,
        }
    }
}

/// What probing one configured device path found out.  Probing itself —
/// asking udev whether the path is a block device, and the unit store
/// whether an earlier round already initialized it — is the caller's
/// work.
#[derive(Debug, PartialEq)]
pub struct DeviceProbe {
    /// The configured device path.
    pub dev_path: String,
    /// The path turned out to be a block device.
    pub is_block_device: bool,
    /// The device was formatted and mounted by an earlier round.
    pub initialized: bool,
}

impl Clone for DeviceProbe {
    fn clone(&self) -> (cloned: Self)
        ensures
            cloned == *self,
    {
        DeviceProbe {
            dev_path: self.dev_path.clone(),
            is_block_device: self.is_block_device,
            initialized: self.initialized,
        }
    }
}

/// The fields of a brick device, views taken: whether it is a block
/// device, whether it is initialized, its mount path, its device path.
pub open spec fn spec_brick_device_views(devices: Seq<BrickDevice>) -> Seq<
    (bool, bool, Seq<char>, Seq<char>),
> {
    devices.map_values(
        |d: BrickDevice| (d.is_block_device, d.initialized, d.mount_path@, d.dev_path@),
    )
}

/// The usable brick devices a probe list yields, in order and by views:
/// probes of paths that are no block device, or that name no device
/// file, yield none; the rest mount under `/mnt/`, named after their
/// device file.
pub open spec fn spec_scanned_views(probes: Seq<DeviceProbe>) -> Seq<
    (bool, bool, Seq<char>, Seq<char>),
>
    decreases probes.len(),
{
    if probes.len() == 0 {
        Seq::empty()
    } else {
        let rest = spec_scanned_views(probes.drop_last());
        let probe = probes.last();
        let name = spec_last_segment(probe.dev_path@, '/');
        if probe.is_block_device && name.len() > 0 {
            rest.push((true, probe.initialized, "/mnt/"@ + name, probe.dev_path@))
        } else {
            rest
        }
    }
}

/// Turn probe results into brick devices: paths that are no block
/// device, or that name no device file, are skipped; the rest will
/// mount under `/mnt/`, named after their device file.
#[verifier::loop_isolation(false)]
pub fn scan_devices(probes: &Vec<DeviceProbe>) -> (bricks: Vec<BrickDevice>)
    ensures
        spec_brick_device_views(bricks@) == spec_scanned_views(probes@),
{
    let mut bricks: Vec<BrickDevice> = Vec::new();
    let mut i: usize = 0;
    while i < probes.len()
        invariant
            i <= probes@.len(),
            spec_brick_device_views(bricks@) =~~= spec_scanned_views(probes@.take(i as int)),
        decreases probes@.len() - i,
    {
        proof {
            assert(probes@.take(i + 1).drop_last() =~= probes@.take(i as int));
        }
        let probe = &probes[i];
        let name = crate::text::last_segment(probe.dev_path.as_str(), '/');
        if probe.is_block_device && name.as_str().unicode_len() > 0 {
            let mut mount_path = String::from_str("/mnt/");
            mount_path.append(name.as_str());
            bricks.push(
                BrickDevice {
                    is_block_device: true,
                    initialized: probe.initialized,
                    mount_path,
                    dev_path: probe.dev_path.clone(),
                },
            );
        }
        proof {
            assert(spec_brick_device_views(bricks@) =~~= spec_scanned_views(probes@.take(i + 1)));
        }
        i = i + 1;
    }
    proof {
        assert(probes@.take(probes@.len() as int) =~= probes@);
    }
    bricks
}

/// What is known about a block device once it has been probed: its
/// filesystem identity, if one is set, its device name, and what medium
/// and filesystem it carries.
#[derive(Debug, PartialEq)]
pub struct Device {
    /// The filesystem identity, when the device carries one.
    pub id: Option<u128>,
    /// The device name under `/dev`.
    pub name: String,
    /// What medium the device is.
    pub media_type: MediaType,
    /// Capacity in bytes.
    pub capacity: u64,
    /// The filesystem found on the device.
    pub fs_type: FilesystemType,
}

/// The arguments of the mount invocation for `device` at `mount_point`:
/// by filesystem identity when one is known, by device node otherwise.
pub open spec fn spec_mount_args(device: Device, mount_point: Seq<char>) -> Seq<Seq<char>> {
    match device.id {
        Option::Some(id) => seq!["-U"@, crate::upgrade::uuid_str_of(id), mount_point],
        Option::None => seq!["/dev/"@ + device.name@, mount_point],
    }
}

/// Build the mount invocation for a formatted device: mount by
/// filesystem identity when one is known, else by device node, at
/// `mount_point`.  Running it is the caller's work.
pub fn mount_device(device: &Device, mount_point: &str) -> (command: (String, Vec<String>))
    ensures
        command.0@ == "mount"@,
        spec_arg_views(command.1@) == spec_mount_args(*device, mount_point@),
{
    let mut args: Vec<String> = Vec::new();
    match device.id {
        Some(id) => {
            args.push(String::from_str("-U"));
            args.push(crate::upgrade::uuid_to_string(id));
        },
        None => {
            let mut node = String::from_str("/dev/");
            node.append(device.name.as_str());
            args.push(node);
        },
    }
    args.push(String::from_str(mount_point));
    proof {
        assert(spec_arg_views(args@) =~~= spec_mount_args(*device, mount_point@));
    }
    (String::from_str("mount"), args)
}

/// The creation settings each filesystem type gets when a new device is
/// initialized: xfs formats forced with its tuning knobs left on, ext4
/// reserves no blocks, btrfs keeps single metadata with default node
/// sizes, zfs takes its defaults, and anything unrecognized is formatted
/// as forced xfs.
pub open spec fn spec_initialization_filesystem(filesystem_type: FilesystemType) -> Filesystem {
    match filesystem_type {
        FilesystemType::Xfs => Filesystem::Xfs {
            block_size: None,
            inode_size: None,
            stripe_size: None,
            stripe_width: None,
            force: true,
        },
        FilesystemType::Ext4 => Filesystem::Ext4 {
            inode_size: None,
            reserved_blocks_percentage: 0u8,
            stride: None,
            stripe_width: None,
        },
        FilesystemType::Btrfs => Filesystem::Btrfs {
            metadata_profile: MetadataProfile::Single,
            leaf_size: 0u64,
            node_size: 0u64,
        },
        FilesystemType::Zfs => Filesystem::Zfs { block_size: None, compression: None },
        _ => Filesystem::Xfs {
            block_size: None,
            inode_size: None,
            stripe_size: None,
            stripe_width: None,
            force: true,
        },
    }
}

/// Pick the creation settings for a new device from the configured
/// filesystem type; `format_block_device` turns them into the command.
pub fn initialization_filesystem(filesystem_type: FilesystemType) -> (fs: Filesystem)
    ensures
        fs == spec_initialization_filesystem(filesystem_type),
{
    match filesystem_type {
        FilesystemType::Xfs => Filesystem::Xfs {
            block_size: None,
            inode_size: None,
            stripe_size: None,
            stripe_width: None,
            force: true,
        },
        FilesystemType::Ext4 => Filesystem::Ext4 {
            inode_size: None,
            reserved_blocks_percentage: 0,
            stride: None,
            stripe_width: None,
        },
        FilesystemType::Btrfs => Filesystem::Btrfs {
            metadata_profile: MetadataProfile::Single,
            leaf_size: 0,
            node_size: 0,
        },
        FilesystemType::Zfs => Filesystem::Zfs { block_size: None, compression: None },
        _ => Filesystem::Xfs {
            block_size: None,
            inode_size: None,
            stripe_size: None,
            stripe_width: None,
            force: true,
        },
    }
}

/// The manually configured brick devices: the space-separated device
/// paths of the `brick_devices` configuration value, empty entries
/// dropped.  The caller probes each path and hands the probe results to
/// `scan_devices`.
#[verifier::loop_isolation(false)]
pub fn get_manual_bricks(brick_devices_config: &str) -> (device_paths: Vec<String>)
    ensures
        crate::text::spec_str_views(device_paths@) == spec_nonempty_parts(
            crate::text::spec_split(brick_devices_config@, ' '),
        ),
{
    let parts = crate::text::split_on(brick_devices_config, ' ');
    let mut device_paths: Vec<String> = Vec::new();
    let mut i: usize = 0;
    while i < parts.len()
        invariant
            i <= parts@.len(),
            crate::text::spec_str_views(device_paths@) =~~= spec_nonempty_parts(
                crate::text::spec_str_views(parts@).take(i as int),
            ),
        decreases parts@.len() - i,
    {
        proof {
            assert(crate::text::spec_str_views(parts@).take(i + 1).drop_last()
                =~= crate::text::spec_str_views(parts@).take(i as int));
        }
        if parts[i].as_str().unicode_len() > 0 {
            device_paths.push(parts[i].clone());
        }
        proof {
            assert(crate::text::spec_str_views(device_paths@) =~~= spec_nonempty_parts(
                crate::text::spec_str_views(parts@).take(i + 1),
            ));
        }
        i = i + 1;
    }
    proof {
        assert(crate::text::spec_str_views(parts@).take(parts@.len() as int)
            =~= crate::text::spec_str_views(parts@));
    }
    device_paths
}

/// The defragmentation command for a filesystem; filesystems without
/// one get an empty command.
pub open spec fn spec_defrag_command(fs_type: FilesystemType) -> Seq<char> {
    match fs_type {
        FilesystemType::Ext4 => "e4defrag"@,
        FilesystemType::Btrfs => "btrfs filesystem defragment -r"@,
        FilesystemType::Xfs => "xfs_fsr"@,
        _ => Seq::empty(),
    }
}

/// The existing crontab entries: its lines, with blank lines dropped.
pub open spec fn spec_crontab_jobs(content: Seq<char>) -> Seq<Seq<char>> {
    spec_keep_nonblank(crate::text::spec_split(content, '\n'))
}

/// The entries of `lines` whose text is not all whitespace, in order.
pub open spec fn spec_keep_nonblank(lines: Seq<Seq<char>>) -> Seq<Seq<char>>
    decreases lines.len(),
{
    if lines.len() == 0 {
        Seq::empty()
    } else {
        let rest = spec_keep_nonblank(lines.drop_last());
        if spec_trim(lines.last()).len() > 0 {
            rest.push(lines.last())
        } else {
            rest
        }
    }
}

/// `lines` without its first entry containing `needle`; all of `lines`
/// when no entry contains it.
pub open spec fn spec_drop_first_containing(lines: Seq<Seq<char>>, needle: Seq<char>) -> Seq<
    Seq<char>,
>
    decreases lines.len(),
{
    if lines.len() == 0 {
        lines
    } else if crate::text::spec_contains_seq(lines.first(), needle) {
        lines.drop_first()
    } else {
        seq![lines.first()] + spec_drop_first_containing(lines.drop_first(), needle)
    }
}

/// Dropping the first entry containing `needle` splices the list around
/// the first match, and keeps the list whole when nothing matches.
proof fn lemma_drop_first_containing_at(lines: Seq<Seq<char>>, needle: Seq<char>, at: int)
    requires
        0 <= at <= lines.len(),
        forall|j: int|
            0 <= j < at ==> !crate::text::spec_contains_seq(#[trigger] lines[j], needle),
        at < lines.len() ==> crate::text::spec_contains_seq(lines[at], needle),
    ensures
        spec_drop_first_containing(lines, needle) == if at < lines.len() {
            lines.take(at) + lines.skip(at + 1)
        } else {
            lines
        },
    decreases lines.len(),
{
    if lines.len() == 0 {
    } else if crate::text::spec_contains_seq(lines.first(), needle) {
        assert(at == 0);
        assert(lines.drop_first() =~= lines.take(0) + lines.skip(1));
    } else {
        assert(at >= 1);
        lemma_drop_first_containing_at(lines.drop_first(), needle, at - 1);
        if at < lines.len() {
            assert(lines.drop_first().take(at - 1) =~= lines.take(at).drop_first());
            assert(lines.drop_first().skip(at) =~= lines.skip(at + 1));
            assert(seq![lines.first()] + (lines.take(at).drop_first() + lines.skip(at + 1))
                =~= lines.take(at) + lines.skip(at + 1));
        } else {
            assert(seq![lines.first()] + lines.drop_first() =~= lines);
        }
    }
}

/// The crontab line of the weekly defragmentation job: the schedule,
/// the filesystem's defragmentation command, and the mount to walk.
pub open spec fn spec_defrag_job(
    mount: Seq<char>,
    fs_type: FilesystemType,
    interval: Seq<char>,
) -> Seq<char> {
    interval + " "@ + spec_defrag_command(fs_type) + " "@ + mount
}

/// The rewritten crontab: the existing non-blank entries with the first
/// mention of `mount` replaced — dropped, and the fresh job appended —
/// each entry on its own line.
pub open spec fn spec_weekly_defrag(
    mount: Seq<char>,
    fs_type: FilesystemType,
    interval: Seq<char>,
    crontab: Seq<char>,
) -> Seq<char> {
    let jobs = spec_drop_first_containing(spec_crontab_jobs(crontab), mount).push(
        spec_defrag_job(mount, fs_type, interval),
    );
    crate::text::spec_join(jobs, "\n"@) + "\n"@
}

/// Schedule the weekly defragmentation of `mount`: rewrite the crontab
/// text so that its first entry mentioning the mount is replaced by a
/// fresh job line.  Reading and writing the crontab is the caller's
/// work.
#[verifier::loop_isolation(false)]
pub fn weekly_defrag(mount: &str, fs_type: &FilesystemType, interval: &str, crontab: &str) -> (
    content: String)
    ensures
        content@ == spec_weekly_defrag(mount@, *fs_type, interval@, crontab@),
{
    let parts = crate::text::split_on(crontab, '\n');
    let ghost part_views = crate::text::spec_str_views(parts@);
    let mut jobs: Vec<String> = Vec::new();
    let mut i: usize = 0;
    while i < parts.len()
        invariant
            i <= parts@.len(),
            crate::text::spec_str_views(jobs@) =~~= spec_keep_nonblank(
                part_views.take(i as int),
            ),
        decreases parts@.len() - i,
    {
        proof {
            assert(part_views.take(i + 1).drop_last() =~= part_views.take(i as int));
        }
        if crate::text::str_trim(parts[i].as_str()).unicode_len() > 0 {
            jobs.push(parts[i].clone());
        }
        proof {
            assert(crate::text::spec_str_views(jobs@) =~~= spec_keep_nonblank(
                part_views.take(i + 1),
            ));
        }
        i = i + 1;
    }
    proof {
        assert(part_views.take(parts@.len() as int) =~= part_views);
    }
    let ghost job_views = spec_crontab_jobs(crontab@);

    let mut at: usize = 0;
    while at < jobs.len() && !crate::text::str_contains(jobs[at].as_str(), mount)
        invariant
            at <= jobs@.len(),
            crate::text::spec_str_views(jobs@) == job_views,
            forall|j: int|
                0 <= j < at ==> !crate::text::spec_contains_seq(#[trigger] job_views[j], mount@),
        decreases jobs@.len() - at,
    {
        at = at + 1;
    }
    proof {
        lemma_drop_first_containing_at(job_views, mount@, at as int);
    }
    let mut kept: Vec<String> = Vec::new();
    let mut k: usize = 0;
    while k < jobs.len()
        invariant
            k <= jobs@.len(),
            at <= jobs@.len(),
            crate::text::spec_str_views(jobs@) == job_views,
            crate::text::spec_str_views(kept@) =~~= if k <= at {
                job_views.take(k as int)
            } else {
                job_views.take(at as int) + job_views.subrange(at + 1, k as int)
            },
        decreases jobs@.len() - k,
    {
        let ghost kept_before = crate::text::spec_str_views(kept@);
        if k != at {
            kept.push(jobs[k].clone());
            proof {
                assert(crate::text::spec_str_views(kept@) =~~= kept_before.push(
                    job_views[k as int],
                ));
            }
        }
        proof {
            if k < at {
                assert(crate::text::spec_str_views(kept@) =~~= job_views.take(k + 1));
            } else if k == at {
                assert(job_views.take(at as int) + job_views.subrange(at + 1, k + 1)
                    =~~= job_views.take(at as int));
            } else {
                assert(job_views.take(at as int) + job_views.subrange(at + 1, k + 1) =~~= (
                job_views.take(at as int) + job_views.subrange(at + 1, k as int)).push(
                    job_views[k as int],
                ));
            }
        }
        k = k + 1;
    }
    proof {
        if at < jobs@.len() {
            assert(job_views.subrange(at + 1, job_views.len() as int) =~= job_views.skip(
                at + 1,
            ));
            assert(crate::text::spec_str_views(kept@) =~~= spec_drop_first_containing(
                job_views,
                mount@,
            ));
        } else {
            assert(job_views.take(at as int) =~= job_views);
            assert(crate::text::spec_str_views(kept@) =~~= spec_drop_first_containing(
                job_views,
                mount@,
            ));
        }
    }
    let mut job = String::from_str(interval);
    job.append(" ");
    job.append(defrag_command(fs_type));
    job.append(" ");
    job.append(mount);
    kept.push(job);
    proof {
        assert(crate::text::spec_str_views(kept@) =~~= spec_drop_first_containing(
            job_views,
            mount@,
        ).push(spec_defrag_job(mount@, *fs_type, interval@)));
    }
    let mut content = crate::text::join_with(&kept, "\n");
    content.append("\n");
    content
}

/// The defragmentation tool invocation for a filesystem type.
fn defrag_command(fs_type: &FilesystemType) -> (command: &'static str)
    ensures
        command@ == spec_defrag_command(*fs_type),
{
    proof {
        reveal_strlit("");
        assert(""@ =~= Seq::<char>::empty());
    }
    match fs_type {
        FilesystemType::Ext4 => "e4defrag",
        FilesystemType::Btrfs => "btrfs filesystem defragment -r",
        FilesystemType::Xfs => "xfs_fsr",
        _ => "",
    }
}

/// The views of a list of owned arguments.
pub open spec fn spec_arg_views(args: Seq<String>) -> Seq<Seq<char>> {
    args.map_values(|a: String| a@)
}

/// The views of a list of follow-up commands.
pub open spec fn spec_command_views(commands: Seq<(String, Vec<String>)>) -> Seq<
    (Seq<char>, Seq<Seq<char>>),
> {
    commands.map_values(|c: (String, Vec<String>)| (c.0@, spec_arg_views(c.1@)))
}

/// The program that formats a device with the given filesystem.
pub open spec fn spec_format_program(fs: Filesystem) -> Seq<char> {
    match fs {
        Filesystem::Btrfs { .. } => "mkfs.btrfs"@,
        Filesystem::Ext4 { .. } => "mkfs.ext4"@,
        Filesystem::Xfs { .. } => "/sbin/mkfs.xfs"@,
        Filesystem::Zfs { .. } => "/sbin/zpool"@,
    }
}

/// The exact argument list that formats the device at `dev_path` with the
/// given filesystem.  Optional settings contribute their arguments only
/// when set; block sizes are rounded up to powers of two.
pub open spec fn spec_format_args(fs: Filesystem, dev_path: Seq<char>) -> Seq<Seq<char>> {
    match fs {
        Filesystem::Btrfs { metadata_profile, leaf_size, node_size } => seq![
            "-m"@,
            spec_metadata_profile_str(metadata_profile),
            "-l"@,
            spec_dec(leaf_size as int),
            "-n"@,
            spec_dec(node_size as int),
            dev_path,
        ],
        Filesystem::Xfs { block_size, inode_size, stripe_size, stripe_width, force } => {
            let inode_args: Seq<Seq<char>> = match inode_size {
                Option::Some(size) => seq!["-i"@, "size="@ + spec_dec(size as int)],
                Option::None => Seq::empty(),
            };
            let force_args: Seq<Seq<char>> = if force {
                seq!["-f"@]
            } else {
                Seq::empty()
            };
            let block_args: Seq<Seq<char>> = match block_size {
                Option::Some(size) => seq![
                    "-b"@,
                    "size="@ + spec_dec(spec_next_pow2(size as int)),
                ],
                Option::None => Seq::empty(),
            };
            let stripe_args: Seq<Seq<char>> = match (stripe_size, stripe_width) {
                (Option::Some(size), Option::Some(width)) => seq![
                    "-d"@,
                    "su="@ + spec_dec(size as int),
                    "sw="@ + spec_dec(width as int),
                ],
                _ => Seq::empty(),
            };
            inode_args + force_args + block_args + stripe_args + seq![dev_path]
        },
        Filesystem::Ext4 { inode_size, reserved_blocks_percentage, stride, stripe_width } => {
            let inode_args: Seq<Seq<char>> = match inode_size {
                Option::Some(size) => seq!["-I"@, spec_dec(size as int)],
                Option::None => Seq::empty(),
            };
            let stride_args: Seq<Seq<char>> = match stride {
                Option::Some(count) => seq!["-E"@, "stride="@ + spec_dec(count as int)],
                Option::None => Seq::empty(),
            };
            let width_args: Seq<Seq<char>> = match stripe_width {
                Option::Some(width) => seq!["-E"@, "stripe_width="@ + spec_dec(width as int)],
                Option::None => Seq::empty(),
            };
            seq!["-m"@, spec_dec(reserved_blocks_percentage as int)] + inode_args + stride_args
                + width_args + seq![dev_path]
        },
        Filesystem::Zfs { .. } => {
            let name = spec_last_segment(dev_path, '/');
            seq!["create"@, "-f"@, "-m"@, "/mnt/"@ + name, name, dev_path]
        },
    }
}

/// The settings applied to a zfs pool once it has been created; the other
/// filesystems need no follow-up.
pub open spec fn spec_format_post(fs: Filesystem, dev_path: Seq<char>) -> Seq<
    (Seq<char>, Seq<Seq<char>>),
> {
    match fs {
        Filesystem::Zfs { block_size, compression } => {
            let name = spec_last_segment(dev_path, '/');
            let record_cmds: Seq<(Seq<char>, Seq<Seq<char>>)> = match block_size {
                Option::Some(size) => seq![
                    (
                        "/sbin/zfs"@,
                        seq![
                            "set"@,
                            "recordsize="@ + spec_dec(spec_next_pow2(size as int)),
                            name,
                        ],
                    ),
                ],
                Option::None => Seq::empty(),
            };
            let compression_cmds: Seq<(Seq<char>, Seq<Seq<char>>)> = if compression is Some {
                seq![("/sbin/zfs"@, seq!["set"@, "compression=on"@, name])]
            } else {
                Seq::empty()
            };
            record_cmds + compression_cmds + seq![
                ("/sbin/zfs"@, seq!["set"@, "acltype=posixacl"@, name]),
                ("/sbin/zfs"@, seq!["set"@, "atime=off"@, name]),
            ]
        },
        _ => Seq::empty(),
    }
}

/// The formatting work for one device: the program to spawn with its
/// arguments, and settings to apply once the program has finished.
#[derive(Debug, PartialEq)]
pub struct FormatCommand {
    /// The formatting program to spawn.
    pub program: String,
    /// Its arguments, in order.
    pub args: Vec<String>,
    /// Commands to run after the program succeeded, in order.
    pub post_setup_commands: Vec<(String, Vec<String>)>,
}

/// Build the exact command that formats `brick_device` with `filesystem`,
/// together with the follow-up settings the filesystem needs.  Spawning
/// the command, installing missing tools and waiting for the child are
/// the caller's work.  Fails only for a zfs device whose path names no
/// device file, since the pool is named after the device.
pub fn format_block_device(brick_device: &BrickDevice, filesystem: &Filesystem) -> (cmd: Result<
    FormatCommand,
    String,
>)
    requires
        *filesystem matches Filesystem::Xfs { block_size: Some(size), .. } ==> size
            <= 0x8000_0000_0000_0000,
        *filesystem matches Filesystem::Zfs { block_size: Some(size), .. } ==> size
            <= 0x8000_0000_0000_0000,
    ensures
        cmd is Err <==> (filesystem is Zfs && spec_last_segment(brick_device.dev_path@, '/').len()
            == 0),
        cmd matches Ok(c) ==> {
            &&& c.program@ == spec_format_program(*filesystem)
            &&& spec_arg_views(c.args@) == spec_format_args(*filesystem, brick_device.dev_path@)
            &&& spec_command_views(c.post_setup_commands@) == spec_format_post(
                *filesystem,
                brick_device.dev_path@,
            )
        },
{
    match filesystem {
        Filesystem::Btrfs { metadata_profile, leaf_size, node_size } => {
            let mut args: Vec<String> = Vec::new();
            args.push(String::from_str("-m"));
            args.push(metadata_profile.to_string());
            args.push(String::from_str("-l"));
            args.push(u64_to_dec(*leaf_size));
            args.push(String::from_str("-n"));
            args.push(u64_to_dec(*node_size));
            args.push(brick_device.dev_path.clone());
            proof {
                assert(spec_arg_views(args@) =~~= spec_format_args(
                    *filesystem,
                    brick_device.dev_path@,
                ));
                assert(spec_command_views(Seq::<(String, Vec<String>)>::empty()) =~~= Seq::<
                    (Seq<char>, Seq<Seq<char>>),
                >::empty());
            }
            Ok(
                FormatCommand {
                    program: String::from_str("mkfs.btrfs"),
                    args,
                    post_setup_commands: Vec::new(),
                },
            )
        },
        Filesystem::Xfs { block_size, inode_size, stripe_size, stripe_width, force } => {
            let mut args: Vec<String> = Vec::new();
            if let Some(size) = inode_size {
                args.push(String::from_str("-i"));
                let mut size_arg = String::from_str("size=");
                size_arg.append(u64_to_dec(*size).as_str());
                args.push(size_arg);
            }
            if *force {
                args.push(String::from_str("-f"));
            }
            if let Some(size) = block_size {
                let rounded = next_power_of_two(*size);
                args.push(String::from_str("-b"));
                let mut size_arg = String::from_str("size=");
                size_arg.append(u64_to_dec(rounded).as_str());
                args.push(size_arg);
            }
            if stripe_size.is_some() && stripe_width.is_some() {
                let size = (*stripe_size).unwrap();
                let width = (*stripe_width).unwrap();
                args.push(String::from_str("-d"));
                let mut size_arg = String::from_str("su=");
                size_arg.append(u64_to_dec(size).as_str());
                args.push(size_arg);
                let mut width_arg = String::from_str("sw=");
                width_arg.append(u64_to_dec(width).as_str());
                args.push(width_arg);
            }
            args.push(brick_device.dev_path.clone());
            proof {
                assert(spec_arg_views(args@) =~~= spec_format_args(
                    *filesystem,
                    brick_device.dev_path@,
                ));
                assert(spec_command_views(Seq::<(String, Vec<String>)>::empty()) =~~= Seq::<
                    (Seq<char>, Seq<Seq<char>>),
                >::empty());
            }
            Ok(
                FormatCommand {
                    program: String::from_str("/sbin/mkfs.xfs"),
                    args,
                    post_setup_commands: Vec::new(),
                },
            )
        },
        Filesystem::Ext4 { inode_size, reserved_blocks_percentage, stride, stripe_width } => {
            let mut args: Vec<String> = Vec::new();
            args.push(String::from_str("-m"));
            args.push(u64_to_dec((*reserved_blocks_percentage) as u64));
            if let Some(size) = inode_size {
                args.push(String::from_str("-I"));
                args.push(u64_to_dec(*size));
            }
            if let Some(count) = stride {
                args.push(String::from_str("-E"));
                let mut stride_arg = String::from_str("stride=");
                stride_arg.append(u64_to_dec(*count).as_str());
                args.push(stride_arg);
            }
            if let Some(width) = stripe_width {
                args.push(String::from_str("-E"));
                let mut width_arg = String::from_str("stripe_width=");
                width_arg.append(u64_to_dec(*width).as_str());
                args.push(width_arg);
            }
            args.push(brick_device.dev_path.clone());
            proof {
                assert(spec_arg_views(args@) =~~= spec_format_args(
                    *filesystem,
                    brick_device.dev_path@,
                ));
                assert(spec_command_views(Seq::<(String, Vec<String>)>::empty()) =~~= Seq::<
                    (Seq<char>, Seq<Seq<char>>),
                >::empty());
            }
            Ok(
                FormatCommand {
                    program: String::from_str("mkfs.ext4"),
                    args,
                    post_setup_commands: Vec::new(),
                },
            )
        },
        Filesystem::Zfs { block_size, compression } => {
            let name = crate::text::last_segment(brick_device.dev_path.as_str(), '/');
            if name.as_str().unicode_len() == 0 {
                return Err(String::from_str("unable to determine device file name"));
            }
            let mut args: Vec<String> = Vec::new();
            args.push(String::from_str("create"));
            args.push(String::from_str("-f"));
            args.push(String::from_str("-m"));
            let mut mount_arg = String::from_str("/mnt/");
            mount_arg.append(name.as_str());
            args.push(mount_arg);
            args.push(name.clone());
            args.push(brick_device.dev_path.clone());
            let mut post: Vec<(String, Vec<String>)> = Vec::new();
            if let Some(size) = block_size {
                let rounded = next_power_of_two(*size);
                let mut record_arg = String::from_str("recordsize=");
                record_arg.append(u64_to_dec(rounded).as_str());
                let mut record_args: Vec<String> = Vec::new();
                record_args.push(String::from_str("set"));
                record_args.push(record_arg);
                record_args.push(name.clone());
                post.push((String::from_str("/sbin/zfs"), record_args));
            }
            if compression.is_some() {
                let mut compression_args: Vec<String> = Vec::new();
                compression_args.push(String::from_str("set"));
                compression_args.push(String::from_str("compression=on"));
                compression_args.push(name.clone());
                post.push((String::from_str("/sbin/zfs"), compression_args));
            }
            let mut acl_args: Vec<String> = Vec::new();
            acl_args.push(String::from_str("set"));
            acl_args.push(String::from_str("acltype=posixacl"));
            acl_args.push(name.clone());
            post.push((String::from_str("/sbin/zfs"), acl_args));
            let mut atime_args: Vec<String> = Vec::new();
            atime_args.push(String::from_str("set"));
            atime_args.push(String::from_str("atime=off"));
            atime_args.push(name.clone());
            post.push((String::from_str("/sbin/zfs"), atime_args));
            proof {
                assert(spec_arg_views(args@) =~~= spec_format_args(
                    *filesystem,
                    brick_device.dev_path@,
                ));
                assert(spec_command_views(post@) =~~= spec_format_post(
                    *filesystem,
                    brick_device.dev_path@,
                ));
            }
            Ok(
                FormatCommand {
                    program: String::from_str("/sbin/zpool"),
                    args,
                    post_setup_commands: post,
                },
            )
        },
    }
}

} // verus!
