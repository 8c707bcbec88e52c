//! The requests that the kernel's array driver takes, as plain values.

use vstd::prelude::*;

verus! {

/// Major number of the array driver's devices.
pub const MD_MAJOR: u32 = 9;

/// Bit of a member's state that marks it active.
pub const MD_DISK_ACTIVE: u32 = 1;

/// Bit of a member's state that marks it in sync.
pub const MD_DISK_SYNC: u32 = 2;

/// State of a member that is active and in sync: both bits set.
pub const DISK_STATE_ACTIVE_SYNC: i32 = (1 << MD_DISK_SYNC) | (1 << MD_DISK_ACTIVE);

/// Mode of the device node through which an array is reached: a block
/// device that owner and group may read and write.
pub const NODE_MODE: u32 = 0x61b0;

/// The array descriptor of the "set array info" call.
#[derive(Debug, Clone, Copy, PartialEq, Eq, Structural)]
pub struct KernelArrayInfo {
    pub major_version: i32,
    pub minor_version: i32,
    pub patch_version: i32,
    pub ctime: u32,
    pub level: i32,
    pub size: i32,
    pub nr_disks: i32,
    pub raid_disks: i32,
    pub md_minor: i32,
    pub not_persistent: i32,
    pub utime: u32,
    pub state: i32,
    pub active_disks: i32,
    pub working_disks: i32,
    pub failed_disks: i32,
    pub spare_disks: i32,
    pub layout: i32,
    pub chunk_size: i32,
}

/// The member descriptor of the "add new disk" call.
#[derive(Debug, Clone, Copy, PartialEq, Eq, Structural)]
pub struct KernelDiskInfo {
    pub number: i32,
    pub major: i32,
    pub minor: i32,
    pub raid_disk: i32,
    pub state: i32,
}

/// The device node to create for reaching an array.
#[derive(Debug, Clone, Copy, PartialEq, Eq, Structural)]
pub struct NodeRequest {
    /// File mode of the node.
    pub mode: u32,
    /// Device number of the array.
    pub dev: u64,
}

/// The low 32 bits of a number, read as a signed integer in two's
/// complement: what the kernel sees of a wider or unsigned field.
pub open spec fn low_i32(x: u64) -> i32 {
    let low = x % 0x1_0000_0000;
    if low < 0x8000_0000 {
        low as i32
    } else {
        (low - 0x1_0000_0000) as i32
    }
}

/// Cuts a number down to the signed 32 bits of a kernel field.
pub fn to_kernel_int(x: u64) -> (r: i32)
    ensures
        r == low_i32(x),
{
    let low: u64 = x % 0x1_0000_0000;
    if low < 0x8000_0000 {
        low as i32
    } else {
        let above: i32 = (low - 0x8000_0000) as i32;
        above - 0x7fff_ffff - 1
    }
}

} // verus!
