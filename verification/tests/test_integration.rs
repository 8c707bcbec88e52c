use device_mapper::{
    assemble_array, AssemblyAction, AssemblyState, DiskMeta, MdpSuperblock1, NodeRequest, RaidError,
};
use uuid::Uuid;

const CREATED: u64 = 1_723_541_683; // 2024-08-13 09:34:43 UTC

fn put(buf: &mut [u8], at: usize, bytes: &[u8]) {
    buf[at..at + bytes.len()].copy_from_slice(bytes);
}

/// The first 8 KiB of a member of a two-disk RAID1 array named
/// "worklaptop:0": 4 KiB of nothing, then the superblock.
fn member_image(device_uuid: [u8; 16], dev_number: u32, sb_csum: u32) -> Vec<u8> {
    let mut buf = vec![0u8; 4096 + MdpSuperblock1::MAX_SIZE];
    let sb = &mut buf[0x1000..];
    // array information
    put(sb, 0, &0xa92b4efcu32.to_le_bytes());
    put(sb, 4, &1u32.to_le_bytes());
    put(sb, 8, &0u32.to_le_bytes());
    put(
        sb,
        16,
        &[
            0x24, 0xd6, 0x84, 0xdd, 0xbc, 0x67, 0x60, 0xfc, 0xa5, 0xd3, 0xa4, 0x9f, 0x59, 0x2b,
            0x1b, 0x42,
        ],
    );
    put(sb, 32, b"worklaptop:0");
    put(sb, 64, &CREATED.to_le_bytes());
    put(sb, 72, &1u32.to_le_bytes());
    put(sb, 76, &0u32.to_le_bytes());
    put(sb, 80, &18432u64.to_le_bytes());
    put(sb, 88, &0u32.to_le_bytes());
    put(sb, 92, &2u32.to_le_bytes());
    // device information
    put(sb, 128, &2048u64.to_le_bytes());
    put(sb, 136, &18432u64.to_le_bytes());
    put(sb, 144, &8u64.to_le_bytes());
    put(sb, 152, &0u64.to_le_bytes());
    put(sb, 160, &dev_number.to_le_bytes());
    put(sb, 168, &device_uuid);
    put(sb, 186, &8u16.to_le_bytes());
    put(sb, 188, &16u32.to_le_bytes());
    // array state
    put(sb, 192, &CREATED.to_le_bytes());
    put(sb, 200, &16u64.to_le_bytes());
    put(sb, 208, &u64::MAX.to_le_bytes());
    put(sb, 216, &sb_csum.to_le_bytes());
    put(sb, 220, &128u32.to_le_bytes());
    // roles
    put(sb, 256, &0u16.to_le_bytes());
    put(sb, 258, &1u16.to_le_bytes());
    for slot in 2..128 {
        put(sb, 256 + 2 * slot, &0xffffu16.to_le_bytes());
    }
    buf
}

/// The superblock of a member, which is known by the path of the image it
/// was taken from.
fn read_superblock(path: &str) -> MdpSuperblock1 {
    let buf = match path {
        "tests/testdata/r1_d1.gz" => member_image(
            [
                0x20, 0x1e, 0x03, 0xcf, 0x42, 0x05, 0xc8, 0xbf, 0xe7, 0x14, 0x52, 0xf8, 0x68, 0xf6,
                0xb6, 0xcd,
            ],
            0,
            0x9741e5f7,
        ),
        "tests/testdata/r1_d2.gz" => member_image(
            [
                0xfc, 0x9b, 0x08, 0x76, 0x92, 0x5c, 0x37, 0x29, 0x5f, 0x47, 0x97, 0x1a, 0xf9, 0xce,
                0x24, 0xfc,
            ],
            1,
            0xf869c62b,
        ),
        _ => panic!("no such member"),
    };
    let sb = MdpSuperblock1::from_bytes(&buf[0x1000..]).unwrap();
    sb
}

#[test]
fn test_raid1_device_1() {
    let sb = read_superblock("tests/testdata/r1_d1.gz");
    assert_eq!(sb.array_info.name().unwrap(), "worklaptop:0");
    let fm = sb.array_info.feature_map;
    let level = sb.array_info.level;
    let dev_size = sb.array_info.size;
    let disks = sb.array_info.raid_disks;
    assert_eq!(fm, 0);
    assert_eq!(level, 1);
    assert_eq!(dev_size, 18432); // in 512b sectors
    assert_eq!(disks, 2);

    assert_eq!(sb.array_state_info.sb_csum, 0x9741e5f7);
    assert_eq!(
        sb.array_info.uuid(),
        Uuid::parse_str("24d684dd-bc67-60fc-a5d3-a49f592b1b42").unwrap()
    );

    assert_eq!(
        sb.device_info.uuid(),
        Uuid::parse_str("201e03cf-4205-c8bf-e714-52f868f6b6cd").unwrap()
    );
    assert_eq!(sb.calculate_sb_csum(), 0x9741e5f7);
}

#[test]
fn test_raid1_device_2() {
    let sb = read_superblock("tests/testdata/r1_d2.gz");
    assert_eq!(sb.array_info.name().unwrap(), "worklaptop:0");
    assert_eq!(
        sb.array_info.uuid(),
        Uuid::parse_str("24d684dd-bc67-60fc-a5d3-a49f592b1b42").unwrap()
    );

    assert_eq!(
        sb.device_info.uuid(),
        Uuid::parse_str("fc9b0876-925c-3729-5f47-971af9ce24fc").unwrap()
    );
    assert_eq!(sb.calculate_sb_csum(), 0xf869c62b);
}

#[test]
fn test_array_info_consistency() {
    let sb1 = read_superblock("tests/testdata/r1_d1.gz");
    let sb2 = read_superblock("tests/testdata/r1_d2.gz");

    assert_eq!(sb1.array_info.name(), sb2.array_info.name());
    assert_eq!(sb1.array_info.uuid(), sb2.array_info.uuid());
}

#[test]
fn test_device_info_differences() {
    let sb1 = read_superblock("tests/testdata/r1_d1.gz");
    let sb2 = read_superblock("tests/testdata/r1_d2.gz");

    assert_ne!(sb1.device_info.uuid(), sb2.device_info.uuid());
    assert_ne!(sb1.array_state_info.sb_csum, sb2.array_state_info.sb_csum);
}

#[test]
fn test_creation_time() {
    let sb = read_superblock("tests/testdata/r1_d1.gz");
    let creation_time = sb.array_info.creation().unwrap();

    assert_eq!(
        creation_time.format("%Y-%m-%d %H:%M:%S").to_string(),
        "2024-08-13 09:34:43"
    );
}

#[test]
fn test_feature_map() {
    let sb = read_superblock("tests/testdata/r1_d1.gz");
    let fm = sb.array_info.feature_map;
    assert_eq!(fm, 0);
}

#[test]
fn test_array_size() {
    let sb = read_superblock("tests/testdata/r1_d1.gz");
    let size = sb.array_info.size;
    assert_eq!(size, 18432); // 9.00 MiB in 512b sectors
}

#[test]
fn test_events_count() {
    let sb1 = read_superblock("tests/testdata/r1_d1.gz");
    let sb2 = read_superblock("tests/testdata/r1_d2.gz");

    assert_eq!(sb1.array_state_info.events, 16);
    assert_eq!(sb2.array_state_info.events, 16);
}

#[test]
fn test_members_of_the_array_are_assembled_together() {
    let sb1 = read_superblock("tests/testdata/r1_d1.gz");
    let sb2 = read_superblock("tests/testdata/r1_d2.gz");
    assert!(sb1.checksum_ok());
    assert!(sb2.checksum_ok());
    assert_eq!(sb1.device_info.dev_number, 0);
    assert_eq!(sb2.device_info.dev_number, 1);

    let members = vec![
        DiskMeta { superblock: sb1, major: 7, minor: 1 },
        DiskMeta { superblock: sb2, major: 7, minor: 8 },
    ];
    assert_eq!(
        assemble_array(&members, 0),
        (
            AssemblyState::Validated,
            AssemblyAction::AcquireHandle(NodeRequest { mode: 0o060660, dev: 0x900 })
        )
    );
}

#[test]
fn test_a_member_of_another_array_is_refused() {
    let sb1 = read_superblock("tests/testdata/r1_d1.gz");
    let mut sb2 = read_superblock("tests/testdata/r1_d2.gz");
    sb2.array_info.set_uuid[15] ^= 1;
    let members = vec![
        DiskMeta { superblock: sb1, major: 7, minor: 1 },
        DiskMeta { superblock: sb2, major: 7, minor: 8 },
    ];
    assert_eq!(
        assemble_array(&members, 0),
        (AssemblyState::Failed, AssemblyAction::Abort(RaidError::ArrayMismatch))
    );
}
