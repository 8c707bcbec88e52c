use device_mapper::block::classify;
use device_mapper::ioctl::to_kernel_int;
use device_mapper::{
    assemble_array, assembly_step, get_size, is_block, size_answer, ArrayLevel, AssemblyAction, AssemblyEvent,
    AssemblyState, CreationTime, DeviceInfo, DiskMeta, FileKind, KernelArrayInfo, KernelDiskInfo,
    KernelStep, MdpSuperblock1, NodeRequest, RaidError, SizeSource,
};
use uuid::Uuid;

const BLOCK_DEVICE: u32 = 0o060660;
const REGULAR_FILE: u32 = 0o100644;
const DIRECTORY: u32 = 0o040755;

fn member(array: u128, position: u32) -> MdpSuperblock1 {
    let device = DeviceInfo::new(20480, position, Some(Uuid::from_u128(0xd0 + position as u128)));
    MdpSuperblock1::new(
        "worklaptop",
        "0",
        Some(Uuid::from_u128(array)),
        CreationTime { seconds: 1_723_541_683, micros: 0 },
        10 * 1024 * 1024,
        512,
        3,
        device,
        ArrayLevel::Raid1,
    )
    .unwrap()
}

fn disk(array: u128, position: u32, major: u32, minor: u32) -> DiskMeta {
    DiskMeta { superblock: member(array, position), major, minor }
}

fn three_members() -> Vec<DiskMeta> {
    vec![disk(0xa, 0, 7, 1), disk(0xa, 1, 7, 8), disk(0xa, 2, 259, 300)]
}

fn returned(step: KernelStep, code: i32) -> AssemblyEvent {
    AssemblyEvent::Returned { step, code }
}

fn kernel_failure(step: KernelStep, errno: i32) -> (AssemblyState, AssemblyAction) {
    (
        AssemblyState::Failed,
        AssemblyAction::Abort(RaidError::KernelCallFailed { step, errno }),
    )
}

#[test]
fn modes_are_told_apart() {
    assert_eq!(classify(BLOCK_DEVICE), FileKind::BlockDevice);
    assert_eq!(classify(REGULAR_FILE), FileKind::RegularFile);
    assert_eq!(classify(DIRECTORY), FileKind::Other);
    assert_eq!(classify(0o020620), FileKind::Other); // character device
    assert!(is_block(BLOCK_DEVICE));
    assert!(!is_block(REGULAR_FILE));
    assert!(!is_block(DIRECTORY));
}

#[test]
fn size_comes_from_the_length_or_from_the_device() {
    assert_eq!(get_size(REGULAR_FILE, 10_485_760), Ok(SizeSource::FileLength(10_485_760)));
    assert_eq!(get_size(BLOCK_DEVICE, 0), Ok(SizeSource::DeviceQuery));
    assert_eq!(get_size(DIRECTORY, 4096), Err(RaidError::DeviceTypeInvalid));
}

#[test]
fn a_refused_size_query_is_an_error() {
    assert_eq!(size_answer(0, 10_485_760), Ok(10_485_760));
    assert_eq!(size_answer(0, 0), Ok(0));
    assert_eq!(
        size_answer(-1, 10_485_760),
        Err(RaidError::KernelCallFailed { step: KernelStep::GetSize, errno: -1 })
    );
    assert_eq!(
        size_answer(25, 0),
        Err(RaidError::KernelCallFailed { step: KernelStep::GetSize, errno: 25 })
    );
}

#[test]
fn a_member_is_taken_in_from_a_block_device() {
    let block = member(0xa, 0).as_bytes();
    // device 7:1, and a device whose numbers need the high bits
    let meta = DiskMeta::from_device(BLOCK_DEVICE, 0x0701, &block).unwrap();
    assert_eq!((meta.major, meta.minor), (7, 1));
    assert_eq!(meta.superblock.as_bytes(), block);
    let rdev = libc::makedev(0x12345, 0x6789a);
    let meta = DiskMeta::from_device(BLOCK_DEVICE, rdev, &block).unwrap();
    assert_eq!((meta.major, meta.minor), (0x12345, 0x6789a));
}

#[test]
fn a_member_has_to_be_a_block_device_with_a_superblock() {
    let block = member(0xa, 0).as_bytes();
    assert_eq!(
        DiskMeta::from_device(REGULAR_FILE, 0x0701, &block).unwrap_err(),
        RaidError::DeviceTypeInvalid
    );
    assert_eq!(
        DiskMeta::from_device(DIRECTORY, 0x0701, &[]).unwrap_err(),
        RaidError::DeviceTypeInvalid
    );
    assert_eq!(
        DiskMeta::from_device(BLOCK_DEVICE, 0x0701, &[0u8; 4096]).unwrap_err(),
        RaidError::FormatInvalid
    );
}

#[test]
fn kernel_fields_keep_the_low_32_bits() {
    assert_eq!(to_kernel_int(0), 0);
    assert_eq!(to_kernel_int(18432), 18432);
    assert_eq!(to_kernel_int(0x7fff_ffff), i32::MAX);
    assert_eq!(to_kernel_int(0x8000_0000), i32::MIN);
    assert_eq!(to_kernel_int(0xffff_ffff), -1);
    assert_eq!(to_kernel_int(0xffff_fffc), -4);
    assert_eq!(to_kernel_int(0x1_0000_0005), 5);
    assert_eq!(to_kernel_int(u64::MAX), -1);
}

#[test]
fn members_of_different_arrays_are_refused() {
    let members = vec![disk(0xa, 0, 7, 1), disk(0xb, 1, 7, 8)];
    assert_eq!(
        assemble_array(&members, 123),
        (AssemblyState::Failed, AssemblyAction::Abort(RaidError::ArrayMismatch))
    );
    let members = vec![disk(0xa, 0, 7, 1), disk(0xa, 1, 7, 8), disk(0xc, 2, 7, 9)];
    assert_eq!(
        assemble_array(&members, 123),
        (AssemblyState::Failed, AssemblyAction::Abort(RaidError::ArrayMismatch))
    );
}

#[test]
fn members_of_one_array_lead_to_the_device_node() {
    let expected = (
        AssemblyState::Validated,
        AssemblyAction::AcquireHandle(NodeRequest { mode: 0o060660, dev: (9 << 8) | 123 }),
    );
    assert_eq!(assemble_array(&three_members(), 123), expected);
    assert_eq!(assemble_array(&vec![disk(0xa, 0, 7, 1)], 123), expected);
    // a minor number that needs more than the low eight bits
    assert_eq!(
        assemble_array(&three_members(), 0x1234),
        (
            AssemblyState::Validated,
            AssemblyAction::AcquireHandle(NodeRequest {
                mode: 0o060660,
                dev: libc::makedev(9, 0x1234),
            })
        )
    );
    assert_eq!(libc::makedev(9, 0x1234), 0x0120_0934);
}

#[test]
fn an_assembly_runs_through_its_steps_in_order() {
    let members = three_members();
    let (state, action) = assembly_step(&members, AssemblyState::Validated, AssemblyEvent::HandleAcquired);
    assert_eq!((state, action), (AssemblyState::HandleAcquired, AssemblyAction::StopArray));

    // the answer to the stop decides nothing
    let info = KernelArrayInfo {
        major_version: 1,
        minor_version: 2,
        patch_version: 0,
        ctime: 0,
        level: 1,
        size: 18432,
        nr_disks: 3,
        raid_disks: 3,
        md_minor: 0,
        not_persistent: 0,
        utime: 0,
        state: 0,
        active_disks: 3,
        working_disks: 3,
        failed_disks: 0,
        spare_disks: 0,
        layout: 0,
        chunk_size: 0,
    };
    for code in [0, -1, 19] {
        assert_eq!(
            assembly_step(&members, state, returned(KernelStep::StopArray, code)),
            (AssemblyState::HandleAcquired, AssemblyAction::SetArrayInfo(info))
        );
    }

    let first = KernelDiskInfo { number: 0, major: 7, minor: 1, raid_disk: 0, state: 6 };
    let second = KernelDiskInfo { number: 1, major: 7, minor: 8, raid_disk: 1, state: 6 };
    let third = KernelDiskInfo { number: 2, major: 259, minor: 300, raid_disk: 2, state: 6 };
    assert_eq!(
        assembly_step(&members, state, returned(KernelStep::SetArrayInfo, 0)),
        (AssemblyState::InfoSet, AssemblyAction::AddNewDisk(first))
    );
    assert_eq!(
        assembly_step(&members, AssemblyState::InfoSet, returned(KernelStep::AddNewDisk, 0)),
        (AssemblyState::DisksAdded(1), AssemblyAction::AddNewDisk(second))
    );
    assert_eq!(
        assembly_step(&members, AssemblyState::DisksAdded(1), returned(KernelStep::AddNewDisk, 0)),
        (AssemblyState::DisksAdded(2), AssemblyAction::AddNewDisk(third))
    );
    assert_eq!(
        assembly_step(&members, AssemblyState::DisksAdded(2), returned(KernelStep::AddNewDisk, 0)),
        (AssemblyState::DisksAdded(3), AssemblyAction::RunArray)
    );
    assert_eq!(
        assembly_step(&members, AssemblyState::DisksAdded(3), returned(KernelStep::RunArray, 0)),
        (AssemblyState::Running, AssemblyAction::Done)
    );
}

#[test]
fn an_assembly_of_one_member_runs_after_that_member() {
    let members = vec![disk(0xa, 0, 8, 16)];
    assert_eq!(
        assembly_step(&members, AssemblyState::InfoSet, returned(KernelStep::AddNewDisk, 0)),
        (AssemblyState::DisksAdded(1), AssemblyAction::RunArray)
    );
}

#[test]
fn the_array_descriptor_takes_its_geometry_from_the_first_member() {
    let mut members = three_members();
    members[0].superblock.array_info.level = 0xffff_ffff;
    members[0].superblock.array_info.layout = 2;
    members[0].superblock.array_info.size = 0x1_0000_0010;
    members[0].superblock.array_info.raid_disks = 5;
    members[0].superblock.array_info.chunksize = 1024;
    members[1].superblock.array_info.level = 5;
    members[1].superblock.array_info.size = 1;
    let (_, action) = assembly_step(
        &members,
        AssemblyState::HandleAcquired,
        returned(KernelStep::StopArray, 0),
    );
    match action {
        AssemblyAction::SetArrayInfo(info) => {
            assert_eq!(
                (info.major_version, info.minor_version, info.patch_version),
                (1, 2, 0)
            );
            assert_eq!((info.level, info.layout, info.size), (-1, 2, 0x10));
            assert_eq!((info.raid_disks, info.chunk_size), (5, 1024));
            assert_eq!((info.nr_disks, info.active_disks, info.working_disks), (3, 3, 3));
            assert_eq!((info.failed_disks, info.spare_disks), (0, 0));
        }
        other => panic!("unexpected action {:?}", other),
    }
}

#[test]
fn a_failed_handle_ends_the_assembly() {
    assert_eq!(
        assembly_step(&three_members(), AssemblyState::Validated, AssemblyEvent::HandleFailed),
        (AssemblyState::Failed, AssemblyAction::Abort(RaidError::ResourceSetupFailed))
    );
}

#[test]
fn a_refused_call_ends_the_assembly_with_its_step_and_code() {
    let members = three_members();
    assert_eq!(
        assembly_step(&members, AssemblyState::HandleAcquired, returned(KernelStep::SetArrayInfo, 16)),
        kernel_failure(KernelStep::SetArrayInfo, 16)
    );
    assert_eq!(
        assembly_step(&members, AssemblyState::InfoSet, returned(KernelStep::AddNewDisk, 22)),
        kernel_failure(KernelStep::AddNewDisk, 22)
    );
    assert_eq!(
        assembly_step(&members, AssemblyState::DisksAdded(2), returned(KernelStep::AddNewDisk, -5)),
        kernel_failure(KernelStep::AddNewDisk, -5)
    );
    assert_eq!(
        assembly_step(&members, AssemblyState::DisksAdded(3), returned(KernelStep::RunArray, 5)),
        kernel_failure(KernelStep::RunArray, 5)
    );
}

#[test]
fn an_event_out_of_turn_ends_the_assembly() {
    let members = three_members();
    let out_of_order = (
        AssemblyState::Failed,
        AssemblyAction::Abort(RaidError::UnexpectedEvent),
    );
    let cases = [
        (AssemblyState::Reading, AssemblyEvent::HandleAcquired),
        (AssemblyState::Validated, returned(KernelStep::StopArray, 0)),
        (AssemblyState::HandleAcquired, AssemblyEvent::HandleAcquired),
        (AssemblyState::HandleAcquired, returned(KernelStep::AddNewDisk, 0)),
        (AssemblyState::HandleAcquired, returned(KernelStep::RunArray, 0)),
        (AssemblyState::InfoSet, returned(KernelStep::RunArray, 0)),
        (AssemblyState::InfoSet, returned(KernelStep::SetArrayInfo, 0)),
        (AssemblyState::DisksAdded(2), returned(KernelStep::RunArray, 0)),
        (AssemblyState::DisksAdded(3), returned(KernelStep::AddNewDisk, 0)),
        (AssemblyState::DisksAdded(4), returned(KernelStep::RunArray, 0)),
        (AssemblyState::DisksAdded(usize::MAX), returned(KernelStep::AddNewDisk, 0)),
        (AssemblyState::Running, returned(KernelStep::RunArray, 0)),
        (AssemblyState::Failed, AssemblyEvent::HandleAcquired),
        (AssemblyState::Failed, returned(KernelStep::StopArray, 0)),
        (AssemblyState::HandleAcquired, returned(KernelStep::GetSize, 0)),
        (AssemblyState::InfoSet, returned(KernelStep::GetSize, 0)),
        (AssemblyState::DisksAdded(1), returned(KernelStep::GetSize, 0)),
        (AssemblyState::DisksAdded(3), returned(KernelStep::GetSize, 0)),
    ];
    for (state, event) in cases {
        assert_eq!(assembly_step(&members, state, event), out_of_order);
    }
}

#[test]
fn steps_and_errors_have_their_words() {
    assert_eq!(KernelStep::StopArray.name(), "stop_array");
    assert_eq!(KernelStep::SetArrayInfo.name(), "set_array_info");
    assert_eq!(KernelStep::AddNewDisk.name(), "add_new_disk");
    assert_eq!(KernelStep::RunArray.name(), "run_array");
    assert_eq!(RaidError::ArrayMismatch.message(), "disks do not belong to the same array");
    assert_eq!(RaidError::DeviceTypeInvalid.message(), "not a file and not a block device");
    assert_eq!(KernelStep::GetSize.name(), "blkgetsize64");
    assert_eq!(RaidError::NameTooLong.message(), "host:name must fit in 32 bytes");
    assert_eq!(
        RaidError::KernelCallFailed { step: KernelStep::RunArray, errno: 5 }.message(),
        "kernel call failed"
    );
}
