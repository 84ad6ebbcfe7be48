//! Disk layout arithmetic for the MBR test disk tooling.
//!
//! The tooling itself reads and writes disk images; only the layout
//! computation lives here, on plain values.

use vstd::prelude::*;

verus! {

/// Bytes per disk sector.
pub const SECTOR_SIZE: u64 = 512;

/// The byte range a partition covers, from its starting logical block
/// address and its sector count: start byte and one-past-the-end byte.
pub fn get_partition_byte_range(starting_lba: u32, sectors: u32) -> (r: (u64, u64))
    ensures
        r.0 == starting_lba * SECTOR_SIZE,
        r.1 == r.0 + sectors * SECTOR_SIZE,
{
    let partition_start_byte = starting_lba as u64 * SECTOR_SIZE;
    let partition_num_bytes = sectors as u64 * SECTOR_SIZE;
    (partition_start_byte, partition_start_byte + partition_num_bytes)
}

} // verus!
