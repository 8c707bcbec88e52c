//! What kind of file a path names, told from the mode bits of its metadata,
//! and where the size of a member is to be had.

use crate::error::{KernelStep, RaidError};
use vstd::prelude::*;

verus! {

/// The bits of a file mode that give the type of the file.
pub const S_IFMT: u32 = 0xf000;

/// The file type of a block device.
pub const S_IFBLK: u32 = 0x6000;

/// The file type of a regular file.
pub const S_IFREG: u32 = 0x8000;

/// The kinds of file that the probe tells apart.
#[derive(Debug, Clone, Copy, PartialEq, Eq, Structural)]
pub enum FileKind {
    BlockDevice,
    /// Accepted in place of a block device where only a size is asked for.
    RegularFile,
    Other,
}

/// Where the size of a member comes from.
#[derive(Debug, Clone, Copy, PartialEq, Eq, Structural)]
pub enum SizeSource {
    /// A regular file: its length in bytes, as the metadata gave it.
    FileLength(u64),
    /// A block device: its size in bytes has to be asked of the device.
    DeviceQuery,
}

/// The kind of file that a mode stands for.
pub open spec fn kind_of(mode: u32) -> FileKind {
    if mode & S_IFMT == S_IFBLK {
        FileKind::BlockDevice
    } else if mode & S_IFMT == S_IFREG {
        FileKind::RegularFile
    } else {
        FileKind::Other
    }
}

/// Tells the kind of a file from its mode.
pub fn classify(mode: u32) -> (r: FileKind)
    ensures
        r == kind_of(mode),
{
    let file_type = mode & S_IFMT;
    if file_type == S_IFBLK {
        FileKind::BlockDevice
    } else if file_type == S_IFREG {
        FileKind::RegularFile
    } else {
        FileKind::Other
    }
}

/// Whether a mode is that of a block device.
pub fn is_block(mode: u32) -> (r: bool)
    ensures
        r == (mode & S_IFMT == S_IFBLK),
        r == (kind_of(mode) == FileKind::BlockDevice),
{
    mode & S_IFMT == S_IFBLK
}

/// Where the size of the file with this mode and length is to be had. A
/// file that is neither regular nor a block device has no size to offer.
pub fn get_size(mode: u32, len: u64) -> (r: Result<SizeSource, RaidError>)
    ensures
        r == match kind_of(mode) {
            FileKind::RegularFile => Ok::<SizeSource, RaidError>(SizeSource::FileLength(len)),
            FileKind::BlockDevice => Ok::<SizeSource, RaidError>(SizeSource::DeviceQuery),
            FileKind::Other => Err::<SizeSource, RaidError>(RaidError::DeviceTypeInvalid),
        },
{
    match classify(mode) {
        FileKind::RegularFile => Ok(SizeSource::FileLength(len)),
        FileKind::BlockDevice => Ok(SizeSource::DeviceQuery),
        FileKind::Other => Err(RaidError::DeviceTypeInvalid),
    }
}

/// What the size query of a block device amounts to: the size that the
/// device gave where the kernel answered with zero, and the failed call with
/// its code where it answered with anything else.
pub fn size_answer(code: i32, size: u64) -> (r: Result<u64, RaidError>)
    ensures
        r == if code == 0 {
            Ok::<u64, RaidError>(size)
        } else {
            Err::<u64, RaidError>(
                RaidError::KernelCallFailed { step: KernelStep::GetSize, errno: code },
            )
        },
{
    if code == 0 {
        Ok(size)
    } else {
        Err(RaidError::KernelCallFailed { step: KernelStep::GetSize, errno: code })
    }
}

} // verus!
