//! Metadata of Linux software RAID arrays in the version-1.2 on-disk format:
//! a byte-exact codec for the superblock kept on every member device, and the
//! decisions of the protocol that assembles member devices into a running array.

pub mod array_info;
pub mod array_state_info;
pub mod assemble;
pub mod block;
pub mod checksum;
pub mod create;
pub mod device_info;
pub mod devnum;
pub mod error;
pub mod feature_bit4;
pub mod ident;
pub mod ioctl;
pub mod le;
pub mod raw;
pub mod roundtrip;
pub mod superblock;
pub mod text;
pub mod time;

pub use array_info::{instant_to_arrayinfo_format, ArrayInfo, ArrayLayout, ArrayLevel, CreationTime};
pub use array_state_info::ArrayStateInfo;
pub use assemble::{
    assemble_array, assembly_step, AssemblyAction, AssemblyEvent, AssemblyState, DiskMeta,
};
pub use block::{get_size, is_block, size_answer, FileKind, SizeSource};
pub use device_info::DeviceInfo;
pub use error::{KernelStep, RaidError};
pub use feature_bit4::FeatureBit4;
pub use ioctl::{KernelArrayInfo, KernelDiskInfo, NodeRequest};
pub use superblock::MdpSuperblock1;
pub use text::str_to_bytes;
