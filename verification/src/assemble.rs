//! Assembling an array from its members: what is checked before the kernel
//! is touched, which requests the kernel is sent, and in which order.
//!
//! Nothing here calls the kernel. The caller reads the members, performs
//! each action that it is handed, and reports back what came of it.

use crate::block::{is_block, kind_of, FileKind};
use crate::devnum::{
    dev_major, dev_minor, dev_number, lemma_dev_number_parts, major_of, make_dev, minor_of,
};
use crate::error::{KernelStep, RaidError};
use crate::ioctl::{
    low_i32, to_kernel_int, KernelArrayInfo, KernelDiskInfo, NodeRequest, DISK_STATE_ACTIVE_SYNC,
    MD_MAJOR, NODE_MODE,
};
use crate::superblock::{decodable, MdpSuperblock1, SuperblockView};
use vstd::prelude::*;

verus! {

/// Byte offset of the superblock on a member.
pub const SUPERBLOCK_OFFSET: u64 = 0x1000;

/// Members that one array can be assembled from at most: their positions
/// are handed to the kernel as signed 32-bit integers.
pub const MAX_MEMBERS: usize = 0x7fff_ffff;

/// What is known of one member: its superblock and its device number.
#[derive(Debug, Clone)]
pub struct DiskMeta {
    pub superblock: MdpSuperblock1,
    pub major: u32,
    pub minor: u32,
}

impl DiskMeta {
    /// Takes in one candidate member: `mode` and `rdev` are the file mode
    /// and device number from its metadata, `block` the bytes read at
    /// `SUPERBLOCK_OFFSET`. A member has to be a block device, and its
    /// block has to hold a superblock.
    pub fn from_device(mode: u32, rdev: u64, block: &[u8]) -> (r: Result<DiskMeta, RaidError>)
        ensures
            r is Ok <==> kind_of(mode) == FileKind::BlockDevice && decodable(block@),
            r matches Ok(meta) ==> {
                &&& meta.superblock@ == SuperblockView::from_bytes(block@)
                &&& meta.major == dev_major(rdev)
                &&& meta.minor == dev_minor(rdev)
            },
            r matches Err(e) ==> e == (if kind_of(mode) == FileKind::BlockDevice {
                RaidError::FormatInvalid
            } else {
                RaidError::DeviceTypeInvalid
            }),
    {
        if !is_block(mode) {
            return Err(RaidError::DeviceTypeInvalid);
        }
        let major = major_of(rdev);
        let minor = minor_of(rdev);
        match MdpSuperblock1::from_bytes(block) {
            Ok(superblock) => Ok(DiskMeta { superblock, major, minor }),
            Err(e) => Err(e),
        }
    }
}

/// Where an assembly stands.
#[derive(Debug, Clone, Copy, PartialEq, Eq, Structural)]
pub enum AssemblyState {
    /// The members are being read; `assemble_array` ends this state.
    Reading,
    /// The members belong to one array.
    Validated,
    /// The handle on the array is open.
    HandleAcquired,
    /// The kernel has the array descriptor.
    InfoSet,
    /// The kernel has this many members.
    DisksAdded(usize),
    /// The array runs.
    Running,
    /// The assembly was given up.
    Failed,
}

/// What the caller reports back.
#[derive(Debug, Clone, Copy, PartialEq, Eq, Structural)]
pub enum AssemblyEvent {
    /// The device node was created, opened and removed again.
    HandleAcquired,
    /// The device node could not be created, opened or removed.
    HandleFailed,
    /// The kernel answered the call `step` with `code`.
    Returned { step: KernelStep, code: i32 },
}

/// What the caller is to do next.
#[derive(Debug, Clone, Copy, PartialEq, Eq, Structural)]
pub enum AssemblyAction {
    /// Create the device node, open it for reading and writing, remove the
    /// node, and keep the handle.
    AcquireHandle(NodeRequest),
    /// Stop whatever the handle still holds. The answer decides nothing.
    StopArray,
    /// Hand the kernel the array descriptor.
    SetArrayInfo(KernelArrayInfo),
    /// Hand the kernel the descriptor of one member.
    AddNewDisk(KernelDiskInfo),
    /// Start the array.
    RunArray,
    /// The array runs; nothing is left to do.
    Done,
    /// Give up with this error.
    Abort(RaidError),
}

/// Whether every member carries the array identifier of the first.
pub open spec fn same_array(members: Seq<DiskMeta>) -> bool {
    forall|i: int|
        0 <= i < members.len() ==> (#[trigger] members[i]).superblock.array_info.set_uuid@
            == members[0].superblock.array_info.set_uuid@
}

/// The device node of the array with the minor number `md_dev_num`.
pub open spec fn node_request(md_dev_num: u32) -> NodeRequest {
    NodeRequest { mode: NODE_MODE, dev: dev_number(MD_MAJOR, md_dev_num) }
}

/// The array descriptor for a set of members: format version 1.2.0, every
/// member counted as present, active and working, none as failed or spare,
/// and the geometry of the first member's superblock.
pub open spec fn array_info_request(members: Seq<DiskMeta>) -> KernelArrayInfo {
    let first = members[0].superblock.array_info;
    KernelArrayInfo {
        major_version: 1,
        minor_version: 2,
        patch_version: 0,
        ctime: 0,
        level: low_i32(first.level as u64),
        size: low_i32(first.size),
        nr_disks: members.len() as i32,
        raid_disks: low_i32(first.raid_disks as u64),
        md_minor: 0,
        not_persistent: 0,
        utime: 0,
        state: 0,
        active_disks: members.len() as i32,
        working_disks: members.len() as i32,
        failed_disks: 0,
        spare_disks: 0,
        layout: low_i32(first.layout as u64),
        chunk_size: low_i32(first.chunksize as u64),
    }
}

/// The descriptor of the member at position `i`: its device number, its
/// position as slot and as index in the array, active and in sync.
pub open spec fn disk_request(members: Seq<DiskMeta>, i: int) -> KernelDiskInfo {
    KernelDiskInfo {
        number: i as i32,
        major: low_i32(members[i].major as u64),
        minor: low_i32(members[i].minor as u64),
        raid_disk: i as i32,
        state: DISK_STATE_ACTIVE_SYNC,
    }
}

/// Where the assembly stands once `added` members are with the kernel, and
/// what comes next: the next member in the order given, or the start of the
/// array after the last.
pub open spec fn after_disks(members: Seq<DiskMeta>, added: int) -> (AssemblyState, AssemblyAction) {
    (
        AssemblyState::DisksAdded(added as usize),
        if added < members.len() {
            AssemblyAction::AddNewDisk(disk_request(members, added))
        } else {
            AssemblyAction::RunArray
        },
    )
}

/// The end of an assembly on a call that the kernel refused.
pub open spec fn call_failed(step: KernelStep, code: i32) -> (AssemblyState, AssemblyAction) {
    (
        AssemblyState::Failed,
        AssemblyAction::Abort(RaidError::KernelCallFailed { step, errno: code }),
    )
}

/// The first move of an assembly, made when all members are read: with one
/// array identifier on all of them the handle is acquired next; with any
/// other the assembly ends before the kernel is touched.
pub open spec fn first_move(members: Seq<DiskMeta>, md_dev_num: u32) -> (
    AssemblyState,
    AssemblyAction,
) {
    if same_array(members) {
        (AssemblyState::Validated, AssemblyAction::AcquireHandle(node_request(md_dev_num)))
    } else {
        (AssemblyState::Failed, AssemblyAction::Abort(RaidError::ArrayMismatch))
    }
}

/// Whether `event` answers the action that is pending in `state`.
pub open spec fn expected(members: Seq<DiskMeta>, state: AssemblyState, event: AssemblyEvent) -> bool {
    match (state, event) {
        (AssemblyState::Validated, AssemblyEvent::HandleAcquired) => true,
        (AssemblyState::Validated, AssemblyEvent::HandleFailed) => true,
        (AssemblyState::HandleAcquired, AssemblyEvent::Returned { step, code }) => step
            == KernelStep::StopArray || step == KernelStep::SetArrayInfo,
        (AssemblyState::InfoSet, AssemblyEvent::Returned { step, code }) => step
            == KernelStep::AddNewDisk,
        (AssemblyState::DisksAdded(added), AssemblyEvent::Returned { step, code }) => if added
            < members.len() {
            step == KernelStep::AddNewDisk
        } else {
            added == members.len() && step == KernelStep::RunArray
        },
        _ => false,
    }
}

/// The end of an assembly on an event that answers no pending action.
pub open spec fn out_of_order() -> (AssemblyState, AssemblyAction) {
    (AssemblyState::Failed, AssemblyAction::Abort(RaidError::UnexpectedEvent))
}

/// The next state and the next action.
///
/// The answer to the stop is ignored, whatever it is. Any other call that
/// the kernel answers with a nonzero code ends the assembly with that call
/// and code; nothing is undone. An event that is not expected ends it too.
pub open spec fn next_move(members: Seq<DiskMeta>, state: AssemblyState, event: AssemblyEvent) -> (
    AssemblyState,
    AssemblyAction,
) {
    if !expected(members, state, event) {
        out_of_order()
    } else {
        match (state, event) {
            (AssemblyState::Validated, AssemblyEvent::HandleAcquired) => (
                AssemblyState::HandleAcquired,
                AssemblyAction::StopArray,
            ),
            (AssemblyState::Validated, AssemblyEvent::HandleFailed) => (
                AssemblyState::Failed,
                AssemblyAction::Abort(RaidError::ResourceSetupFailed),
            ),
            (AssemblyState::HandleAcquired, AssemblyEvent::Returned { step, code }) => if step
                == KernelStep::StopArray {
                (
                    AssemblyState::HandleAcquired,
                    AssemblyAction::SetArrayInfo(array_info_request(members)),
                )
            } else if code == 0 {
                (AssemblyState::InfoSet, AssemblyAction::AddNewDisk(disk_request(members, 0)))
            } else {
                call_failed(step, code)
            },
            (AssemblyState::InfoSet, AssemblyEvent::Returned { step, code }) => if code == 0 {
                after_disks(members, 1)
            } else {
                call_failed(step, code)
            },
            (AssemblyState::DisksAdded(added), AssemblyEvent::Returned { step, code }) => if code
                != 0 {
                call_failed(step, code)
            } else if step == KernelStep::AddNewDisk {
                after_disks(members, added + 1)
            } else {
                (AssemblyState::Running, AssemblyAction::Done)
            },
            _ => out_of_order(),
        }
    }
}

/// Whether an action reaches the kernel or the device node.
pub open spec fn touches_kernel(action: AssemblyAction) -> bool {
    !(action is Done || action is Abort)
}

/// Members with different array identifiers are refused before anything
/// reaches the kernel: the first move ends the assembly as a mismatch, and
/// whatever is reported afterwards, the assembly stays ended and asks for
/// nothing.
pub proof fn lemma_mismatch_touches_nothing(
    members: Seq<DiskMeta>,
    md_dev_num: u32,
    i: int,
    event: AssemblyEvent,
)
    requires
        0 <= i < members.len(),
        members[i].superblock.array_info.set_uuid@ != members[0].superblock.array_info.set_uuid@,
    ensures
        first_move(members, md_dev_num) == (
            AssemblyState::Failed,
            AssemblyAction::Abort(RaidError::ArrayMismatch),
        ),
        !touches_kernel(first_move(members, md_dev_num).1),
        next_move(members, AssemblyState::Failed, event).0 == AssemblyState::Failed,
        !touches_kernel(next_move(members, AssemblyState::Failed, event).1),
{
}

/// Whether two identifiers are the same.
fn same_id(a: &[u8; 16], b: &[u8; 16]) -> (r: bool)
    ensures
        r == (a@ == b@),
{
    let mut i: usize = 0;
    while i < 16
        invariant
            i <= 16,
            forall|j: int| 0 <= j < i ==> a@[j] == b@[j],
        decreases 16 - i,
    {
        if a[i] != b[i] {
            return false;
        }
        i = i + 1;
    }
    assert(a@ =~= b@);
    true
}

/// Checks that every member carries the array identifier of the first.
pub fn belong_together(members: &Vec<DiskMeta>) -> (r: bool)
    ensures
        r == same_array(members@),
{
    let mut i: usize = 0;
    while i < members.len()
        invariant
            i <= members.len(),
            forall|j: int|
                0 <= j < i ==> (#[trigger] members@[j]).superblock.array_info.set_uuid@
                    == members@[0].superblock.array_info.set_uuid@,
        decreases members.len() - i,
    {
        if !same_id(
            &members[i].superblock.array_info.set_uuid,
            &members[0].superblock.array_info.set_uuid,
        ) {
            return false;
        }
        i = i + 1;
    }
    true
}

/// Builds the array descriptor for a set of members.
pub fn array_info_for(members: &Vec<DiskMeta>) -> (r: KernelArrayInfo)
    requires
        0 < members.len() <= MAX_MEMBERS,
    ensures
        r == array_info_request(members@),
{
    let first = &members[0].superblock.array_info;
    let count: i32 = members.len() as i32;
    KernelArrayInfo {
        major_version: 1,
        minor_version: 2,
        patch_version: 0,
        ctime: 0,
        level: to_kernel_int(first.level as u64),
        size: to_kernel_int(first.size),
        nr_disks: count,
        raid_disks: to_kernel_int(first.raid_disks as u64),
        md_minor: 0,
        not_persistent: 0,
        utime: 0,
        state: 0,
        active_disks: count,
        working_disks: count,
        failed_disks: 0,
        spare_disks: 0,
        layout: to_kernel_int(first.layout as u64),
        chunk_size: to_kernel_int(first.chunksize as u64),
    }
}

/// Builds the descriptor of the member at position `i`.
pub fn disk_info_for(members: &Vec<DiskMeta>, i: usize) -> (r: KernelDiskInfo)
    requires
        i < members.len() <= MAX_MEMBERS,
    ensures
        r == disk_request(members@, i as int),
{
    KernelDiskInfo {
        number: i as i32,
        major: to_kernel_int(members[i].major as u64),
        minor: to_kernel_int(members[i].minor as u64),
        raid_disk: i as i32,
        state: DISK_STATE_ACTIVE_SYNC,
    }
}

/// Where the assembly stands with `added` members handed over.
fn with_disks(members: &Vec<DiskMeta>, added: usize) -> (r: (AssemblyState, AssemblyAction))
    requires
        added <= members.len() <= MAX_MEMBERS,
    ensures
        r == after_disks(members@, added as int),
{
    if added < members.len() {
        (AssemblyState::DisksAdded(added), AssemblyAction::AddNewDisk(disk_info_for(members, added)))
    } else {
        (AssemblyState::DisksAdded(added), AssemblyAction::RunArray)
    }
}

/// Opens the assembly of the members, which were read in this order, into
/// the array with the minor number `md_dev_num`.
///
/// Members of one array lead to the request for the handle; members of
/// different arrays end the assembly at once. The device node that is asked
/// for is that of the array: its major number is the driver's, its minor
/// number `md_dev_num`.
pub fn assemble_array(members: &Vec<DiskMeta>, md_dev_num: u32) -> (r: (
    AssemblyState,
    AssemblyAction,
))
    requires
        0 < members.len() <= MAX_MEMBERS,
    ensures
        r == first_move(members@, md_dev_num),
        r.1 matches AssemblyAction::AcquireHandle(node) ==> dev_major(node.dev) == MD_MAJOR
            && dev_minor(node.dev) == md_dev_num,
{
    if belong_together(members) {
        let node = NodeRequest { mode: NODE_MODE, dev: make_dev(MD_MAJOR, md_dev_num) };
        proof {
            lemma_dev_number_parts(MD_MAJOR, md_dev_num);
        }
        (AssemblyState::Validated, AssemblyAction::AcquireHandle(node))
    } else {
        (AssemblyState::Failed, AssemblyAction::Abort(RaidError::ArrayMismatch))
    }
}

/// Takes the assembly one step on: from the state it is in and what the
/// caller reports, to the state it is in next and what the caller is to do.
pub fn assembly_step(members: &Vec<DiskMeta>, state: AssemblyState, event: AssemblyEvent) -> (r: (
    AssemblyState,
    AssemblyAction,
))
    requires
        0 < members.len() <= MAX_MEMBERS,
    ensures
        r == next_move(members@, state, event),
{
    let failed = (AssemblyState::Failed, AssemblyAction::Abort(RaidError::UnexpectedEvent));
    match (state, event) {
        (AssemblyState::Validated, AssemblyEvent::HandleAcquired) => (
            AssemblyState::HandleAcquired,
            AssemblyAction::StopArray,
        ),
        (AssemblyState::Validated, AssemblyEvent::HandleFailed) => (
            AssemblyState::Failed,
            AssemblyAction::Abort(RaidError::ResourceSetupFailed),
        ),
        (AssemblyState::HandleAcquired, AssemblyEvent::Returned { step, code }) => match step {
            KernelStep::StopArray => (
                AssemblyState::HandleAcquired,
                AssemblyAction::SetArrayInfo(array_info_for(members)),
            ),
            KernelStep::SetArrayInfo => if code == 0 {
                (AssemblyState::InfoSet, AssemblyAction::AddNewDisk(disk_info_for(members, 0)))
            } else {
                (
                    AssemblyState::Failed,
                    AssemblyAction::Abort(RaidError::KernelCallFailed { step, errno: code }),
                )
            },
            _ => failed,
        },
        (AssemblyState::InfoSet, AssemblyEvent::Returned { step, code }) => match step {
            KernelStep::AddNewDisk => if code == 0 {
                with_disks(members, 1)
            } else {
                (
                    AssemblyState::Failed,
                    AssemblyAction::Abort(RaidError::KernelCallFailed { step, errno: code }),
                )
            },
            _ => failed,
        },
        (AssemblyState::DisksAdded(added), AssemblyEvent::Returned { step, code }) => {
            let pending = if added < members.len() {
                KernelStep::AddNewDisk
            } else {
                KernelStep::RunArray
            };
            if added > members.len() || step != pending {
                failed
            } else if code != 0 {
                (
                    AssemblyState::Failed,
                    AssemblyAction::Abort(RaidError::KernelCallFailed { step, errno: code }),
                )
            } else if added < members.len() {
                with_disks(members, added + 1)
            } else {
                (AssemblyState::Running, AssemblyAction::Done)
            }
        },
        _ => failed,
    }
}

} // verus!
