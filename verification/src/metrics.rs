//! The disk-usage metric.
//!
//! The coordinator reports how many gibibytes of the cluster mount are in
//! use.  Reading the filesystem statistics is the caller's work; the
//! arithmetic on the reported block counts stands here.

use vstd::prelude::*;

verus! {

/// The used space of the cluster mount in gibibytes, from its
/// filesystem statistics: used blocks times block size, scaled down.
pub fn collect_metrics(total_blocks: u64, block_size: u64, free_blocks: u64) -> (gb_used: u128)
    requires
        free_blocks <= total_blocks,
    ensures
        gb_used == ((total_blocks - free_blocks) * block_size as int) / 0x4000_0000,
{
    let used_blocks = total_blocks - free_blocks;
    proof {
        assert((used_blocks as int) * (block_size as int) <= 0xffff_ffff_ffff_ffff
            * 0xffff_ffff_ffff_ffff) by (nonlinear_arith)
            requires
                0 <= used_blocks as int <= 0xffff_ffff_ffff_ffff,
                0 <= block_size as int <= 0xffff_ffff_ffff_ffff,
        ;
    }
    let used_space = (used_blocks as u128) * (block_size as u128);
    used_space / 0x4000_0000u128
}

} // verus!
