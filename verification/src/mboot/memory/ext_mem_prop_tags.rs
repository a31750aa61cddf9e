//! Flag bits of the first word of an external-memory attributes reply: each
//! says that the attribute of that name is present.
use vstd::prelude::*;

verus! {

/// The start address is present.
pub const START_ADDRESS: u32 = 0x0000_0001;

/// The size in KiB is present.
pub const SIZE_IN_KBYTES: u32 = 0x0000_0002;

/// The page size is present.
pub const PAGE_SIZE: u32 = 0x0000_0004;

/// The sector size is present.
pub const SECTOR_SIZE: u32 = 0x0000_0008;

/// The block size is present.
pub const BLOCK_SIZE: u32 = 0x0000_0010;

} // verus!
