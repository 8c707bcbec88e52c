//! The ways in which reading, building or assembling an array can fail.

use vstd::prelude::*;

verus! {

/// A call into the kernel's array driver.
#[derive(Clone, Copy, Debug, PartialEq, Eq, Structural)]
pub enum KernelStep {
    /// Stop whatever array the handle still holds.
    StopArray,
    /// Hand over the array descriptor.
    SetArrayInfo,
    /// Hand over the descriptor of one member.
    AddNewDisk,
    /// Start the array.
    RunArray,
    /// Ask a block device for its size in bytes.
    GetSize,
}

/// Why an operation was given up.
#[derive(Clone, Copy, Debug, PartialEq, Eq, Structural)]
pub enum RaidError {
    /// The bytes are no superblock: wrong magic number, wrong major version,
    /// or fewer bytes than the record needs.
    FormatInvalid,
    /// The path names neither a regular file nor a block device, or names a
    /// regular file where a block device is required.
    DeviceTypeInvalid,
    /// The members' superblocks do not carry one array identifier.
    ArrayMismatch,
    /// The kernel answered a call with a nonzero error code.
    KernelCallFailed { step: KernelStep, errno: i32 },
    /// The device node through which the array is reached could not be
    /// created, opened or removed.
    ResourceSetupFailed,
    /// Host name, colon and array name together are longer than the name
    /// field.
    NameTooLong,
    /// The stored name is not UTF-8.
    NameNotUtf8,
    /// An assembly was told of something that answers no action it is
    /// waiting for.
    UnexpectedEvent,
}

impl KernelStep {
    /// The name under which the step appears in messages.
    pub fn name(&self) -> (r: &'static str)
        ensures
            r@ == match *self {
                KernelStep::StopArray => "stop_array"@,
                KernelStep::SetArrayInfo => "set_array_info"@,
                KernelStep::AddNewDisk => "add_new_disk"@,
                KernelStep::RunArray => "run_array"@,
                KernelStep::GetSize => "blkgetsize64"@,
            },
    {
        match self {
            KernelStep::StopArray => "stop_array",
            KernelStep::SetArrayInfo => "set_array_info",
            KernelStep::AddNewDisk => "add_new_disk",
            KernelStep::RunArray => "run_array",
            KernelStep::GetSize => "blkgetsize64",
        }
    }
}

impl RaidError {
    /// A one-line description of the failure, without the error code.
    pub fn message(&self) -> (r: &'static str)
        ensures
            r@ == match *self {
                RaidError::FormatInvalid => "invalid superblock format"@,
                RaidError::DeviceTypeInvalid => "not a file and not a block device"@,
                RaidError::ArrayMismatch => "disks do not belong to the same array"@,
                RaidError::KernelCallFailed { step, errno } => "kernel call failed"@,
                RaidError::ResourceSetupFailed => "cannot set up the device node"@,
                RaidError::NameTooLong => "host:name must fit in 32 bytes"@,
                RaidError::NameNotUtf8 => "stored name is not UTF-8"@,
                RaidError::UnexpectedEvent => "event answers no pending action"@,
            },
    {
        match self {
            RaidError::FormatInvalid => "invalid superblock format",
            RaidError::DeviceTypeInvalid => "not a file and not a block device",
            RaidError::ArrayMismatch => "disks do not belong to the same array",
            RaidError::KernelCallFailed { .. } => "kernel call failed",
            RaidError::ResourceSetupFailed => "cannot set up the device node",
            RaidError::NameTooLong => "host:name must fit in 32 bytes",
            RaidError::NameNotUtf8 => "stored name is not UTF-8",
            RaidError::UnexpectedEvent => "event answers no pending action",
        }
    }
}

} // verus!
