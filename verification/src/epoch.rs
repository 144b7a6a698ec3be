//! Decoding of the compact epoch field and the block-time estimates derived
//! from it.
//!
//! The node protocol packs an epoch position into one 64-bit field: bits
//! 0-23 hold the epoch number, bits 24-39 the position of the tip block
//! within the epoch, bits 40-55 the number of blocks in the epoch.

use vstd::prelude::*;

verus! {

/// Epoch number: bits 0-23 of the compact field.
pub open spec fn epoch_number_of(field: u64) -> u64 {
    field & 0xff_ffff
}

/// Position of the tip block within its epoch: bits 24-39 of the compact field.
pub open spec fn epoch_block_of(field: u64) -> u64 {
    (field >> 24) & 0xffff
}

/// Number of blocks in the epoch: bits 40-55 of the compact field.
pub open spec fn epoch_block_count_of(field: u64) -> u64 {
    (field >> 40) & 0xffff
}

/// The compact field that holds the given epoch position.
pub open spec fn epoch_field_of(epoch: u64, epoch_block: u64, epoch_block_count: u64) -> u64 {
    epoch | (epoch_block << 24) | (epoch_block_count << 40)
}

/// Unpacks a compact epoch field into `(epoch, epoch_block, epoch_block_count)`.
pub fn extract_epoch(epoch_field: u64) -> (r: (u64, u64, u64))
    ensures
        r.0 == epoch_number_of(epoch_field),
        r.1 == epoch_block_of(epoch_field),
        r.2 == epoch_block_count_of(epoch_field),
        r.0 < 0x100_0000,
        r.1 < 0x1_0000,
        r.2 < 0x1_0000,
{
    proof {
        assert(epoch_number_of(epoch_field) < 0x100_0000
            && epoch_block_of(epoch_field) < 0x1_0000
            && epoch_block_count_of(epoch_field) < 0x1_0000) by (bit_vector);
    }
    let epoch = epoch_field & 0xffffff;
    let epoch_block = (epoch_field >> 24) & 0xffff;
    let epoch_block_count = (epoch_field >> 40) & 0xffff;
    (epoch, epoch_block, epoch_block_count)
}

/// Packs an epoch position into the compact field the node protocol uses.
pub fn pack_epoch(epoch: u64, epoch_block: u64, epoch_block_count: u64) -> (r: u64)
    requires
        epoch < 0x100_0000,
        epoch_block < 0x1_0000,
        epoch_block_count < 0x1_0000,
    ensures
        r == epoch_field_of(epoch, epoch_block, epoch_block_count),
{
    epoch | (epoch_block << 24) | (epoch_block_count << 40)
}

/// Unpacking inverts packing: on values that fit the three bit ranges, the
/// compact field built from `(e, b, n)` decodes back to exactly `(e, b, n)`.
pub proof fn lemma_epoch_pack_unpack(epoch: u64, epoch_block: u64, epoch_block_count: u64)
    requires
        epoch < 0x100_0000,
        epoch_block < 0x1_0000,
        epoch_block_count < 0x1_0000,
    ensures
        epoch_number_of(epoch_field_of(epoch, epoch_block, epoch_block_count)) == epoch,
        epoch_block_of(epoch_field_of(epoch, epoch_block, epoch_block_count)) == epoch_block,
        epoch_block_count_of(epoch_field_of(epoch, epoch_block, epoch_block_count))
            == epoch_block_count,
{
    assert(epoch < 0x100_0000 && epoch_block < 0x1_0000 && epoch_block_count < 0x1_0000 ==> {
        let f = epoch | (epoch_block << 24) | (epoch_block_count << 40);
        &&& f & 0xff_ffff == epoch
        &&& (f >> 24) & 0xffff == epoch_block
        &&& (f >> 40) & 0xffff == epoch_block_count
    }) by (bit_vector);
}

/// Timing estimates derived from the tip header and the first header of the
/// current epoch, both in milliseconds.
#[derive(Clone, Copy, PartialEq, Eq, Structural, Debug)]
pub struct EpochTiming {
    /// Average time between two consecutive blocks of the current epoch.
    pub average_block_time_ms: u64,
    /// Estimated time until the current epoch completes.
    pub estimated_epoch_time_ms: u64,
}

/// Height of the first block of the current epoch: the tip height minus the
/// position of the tip within the epoch. `None` when the field claims a
/// position larger than the chain height.
pub fn epoch_start_height(tip_height: u64, epoch_block: u64) -> (r: Option<u64>)
    ensures
        epoch_block <= tip_height ==> r == Some((tip_height - epoch_block) as u64),
        epoch_block > tip_height ==> r is None,
{
    if epoch_block <= tip_height {
        Some(tip_height - epoch_block)
    } else {
        None
    }
}

/// Average block time and estimated epoch completion time, from the tip
/// timestamp, the timestamp of the first block of the epoch, and the epoch
/// position `(epoch_block, epoch_block_count)`.
///
/// On the first block of an epoch (`epoch_block == 0`) no average exists and
/// the result is `None` rather than a division by zero.
pub fn epoch_timing(
    tip_timestamp_ms: u64,
    epoch_start_timestamp_ms: u64,
    epoch_block: u64,
    epoch_block_count: u64,
) -> (r: Option<EpochTiming>)
    requires
        epoch_start_timestamp_ms <= tip_timestamp_ms,
        tip_timestamp_ms - epoch_start_timestamp_ms < 0x1_0000_0000_0000,
        epoch_block <= epoch_block_count,
        epoch_block_count < 0x1_0000,
    ensures
        r is None <==> epoch_block == 0,
        r is Some ==> {
            let t = r->Some_0;
            &&& t.average_block_time_ms == (tip_timestamp_ms - epoch_start_timestamp_ms) as u64
                / epoch_block
            &&& t.estimated_epoch_time_ms == t.average_block_time_ms * (epoch_block_count
                - epoch_block)
        },
{
    if epoch_block == 0 {
        return None;
    }
    let diff_ms = tip_timestamp_ms - epoch_start_timestamp_ms;
    let average_block_time_ms = diff_ms / epoch_block;
    let remaining = epoch_block_count - epoch_block;
    proof {
        assert(average_block_time_ms * remaining < 0x1_0000_0000_0000 * 0x1_0000)
            by (nonlinear_arith)
            requires
                average_block_time_ms < 0x1_0000_0000_0000,
                remaining < 0x1_0000,
        ;
    }
    Some(EpochTiming {
        average_block_time_ms,
        estimated_epoch_time_ms: average_block_time_ms * remaining,
    })
}

} // verus!
