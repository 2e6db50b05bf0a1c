//! Block device related types.

use neotron_ffi::FfiString;
use vstd::prelude::*;

verus! {

/// The types of block device we support.
#[non_exhaustive]
#[derive(Debug, Copy, Clone, PartialEq, Eq, Structural)]
pub enum DeviceType {
    /// An *SD* Card
    SecureDigitalCard,
    /// A Hard Drive
    HardDiskDrive,
    /// A floppy disk in a floppy disk drive
    FloppyDiskDrive,
    /// A compact flash card
    CompactFlashCard,
}

/// Information about a block device.
#[derive(Clone, PartialEq, Eq, Debug)]
pub struct DeviceInfo {
    /// Some human-readable name for this block device (e.g. `SdCard0` or
    /// `CF1`)
    pub name: FfiString<'static>,
    /// The kind of block device this is.
    pub device_type: DeviceType,
    /// The size of an addressable block, in bytes.
    pub block_size: u32,
    /// The total number of addressable blocks.
    pub num_blocks: u64,
    /// Can this device be ejected?
    pub ejectable: bool,
    /// Can this device be removed?
    pub removable: bool,
    /// Does this have media in it right now?
    pub media_present: bool,
    /// Is this media read-only?
    pub read_only: bool,
}

/// Uniquely represents a block on a block device.
#[derive(Copy, Clone, PartialOrd, Ord, PartialEq, Eq, Debug, Structural)]
pub struct BlockIdx(pub u64);

} // verus!
