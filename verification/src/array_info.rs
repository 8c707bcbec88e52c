//! The first hundred bytes of a superblock: which array this is and how it is
//! laid out.

use crate::error::RaidError;
use crate::ident::uuid_bytes;
use crate::le::{
    le_u32, le_u64, lemma_bytes_of_le_u32, lemma_bytes_of_le_u64, lemma_le_u32_of_bytes,
    lemma_le_u64_of_bytes, push_u32_le, push_u64_le, read_u32_le, read_u64_le, u32_le, u64_le,
};
use crate::raw::{lemma_join, push_all, take_array, to_array};
use crate::text::{bytes_until_nul, name_field, str_to_bytes, until_nul};
use crate::time::{datetime_at, datetime_from_timestamp};
use vstd::prelude::*;
use vstd::std_specs::convert::FromSpecImpl;
use vstd::utf8::*;

verus! {

/// The number that opens every superblock.
pub const SUPERBLOCK_MAGIC: u32 = 0xa92b4efc;

/// The only major version of the format that is read or written.
pub const MAJOR_VERSION: u32 = 1;

/// Bytes at the start of a member that the array leaves unused: one MiB.
pub const RESERVED_BYTES: u64 = 0x10_0000;

/// How the members of an array are combined.
#[derive(Debug, Clone, Copy)]
pub enum ArrayLevel {
    Linear,
    Raid0,
    Raid1,
    Raid4,
    Raid5,
    Raid6,
    Raid10,
    Multipath,
}

impl ArrayLevel {
    /// The number that stands for the level on disk. The two levels that the
    /// driver numbers -1 and -4 are stored in two's complement.
    pub open spec fn code(self) -> u32 {
        match self {
            ArrayLevel::Linear => 0xffff_ffff,
            ArrayLevel::Raid0 => 0,
            ArrayLevel::Raid1 => 1,
            ArrayLevel::Raid4 => 4,
            ArrayLevel::Raid5 => 5,
            ArrayLevel::Raid6 => 6,
            ArrayLevel::Raid10 => 10,
            ArrayLevel::Multipath => 0xffff_fffc,
        }
    }
}

impl From<ArrayLevel> for u32 {
    fn from(level: ArrayLevel) -> (r: u32) {
        match level {
            ArrayLevel::Linear => 0xffff_ffff,
            ArrayLevel::Raid0 => 0,
            ArrayLevel::Raid1 => 1,
            ArrayLevel::Raid4 => 4,
            ArrayLevel::Raid5 => 5,
            ArrayLevel::Raid6 => 6,
            ArrayLevel::Raid10 => 10,
            ArrayLevel::Multipath => 0xffff_fffc,
        }
    }
}

impl FromSpecImpl<ArrayLevel> for u32 {
    open spec fn obeys_from_spec() -> bool {
        true
    }

    open spec fn from_spec(level: ArrayLevel) -> u32 {
        level.code()
    }
}

/// How parity is placed in a parity array.
#[derive(Debug, Clone, Copy)]
pub enum ArrayLayout {
    LeftAsymmetric,
    RightAsymmetric,
    LeftSymmetric,
    RightSymmetric,
}

impl ArrayLayout {
    /// The number that stands for the layout on disk.
    pub open spec fn code(self) -> u32 {
        match self {
            ArrayLayout::LeftAsymmetric => 0,
            ArrayLayout::RightAsymmetric => 1,
            ArrayLayout::LeftSymmetric => 2,
            ArrayLayout::RightSymmetric => 3,
        }
    }
}

impl From<ArrayLayout> for u32 {
    fn from(layout: ArrayLayout) -> (r: u32) {
        match layout {
            ArrayLayout::LeftAsymmetric => 0,
            ArrayLayout::RightAsymmetric => 1,
            ArrayLayout::LeftSymmetric => 2,
            ArrayLayout::RightSymmetric => 3,
        }
    }
}

impl FromSpecImpl<ArrayLayout> for u32 {
    open spec fn obeys_from_spec() -> bool {
        true
    }

    open spec fn from_spec(layout: ArrayLayout) -> u32 {
        layout.code()
    }
}

/// A creation time as the superblock can hold it: whole seconds since
/// 1970-01-01 00:00:00 UTC, and microseconds within the second.
#[derive(Debug, Clone, Copy, PartialEq, Eq, Structural)]
pub struct CreationTime {
    pub seconds: u64,
    pub micros: u32,
}

/// The creation-time field: the low 40 bits hold the seconds, the high 24
/// bits the microseconds. What does not fit its part is cut off.
pub open spec fn ctime_field(t: CreationTime) -> u64 {
    (t.seconds % 0x100_0000_0000 + (t.micros % 0x100_0000) * 0x100_0000_0000) as u64
}

/// The creation time that a creation-time field holds.
pub open spec fn ctime_parts(ctime: u64) -> CreationTime {
    CreationTime { seconds: ctime % 0x100_0000_0000, micros: (ctime / 0x100_0000_0000) as u32 }
}

/// A creation time that fits the field is read back from it unchanged.
pub proof fn lemma_ctime_parts_of_field(t: CreationTime)
    ensures
        ctime_parts(ctime_field(t)) == (CreationTime {
            seconds: t.seconds % 0x100_0000_0000,
            micros: t.micros % 0x100_0000,
        }),
        t.seconds < 0x100_0000_0000 && t.micros < 0x100_0000 ==> ctime_parts(ctime_field(t)) == t,
{
}

/// Packs a creation time into the form the superblock stores.
pub fn instant_to_arrayinfo_format(t: CreationTime) -> (r: u64)
    ensures
        r == ctime_field(t),
{
    let seconds: u64 = t.seconds % 0x100_0000_0000;
    let micros: u64 = (t.micros % 0x100_0000) as u64;
    seconds + micros * 0x100_0000_0000
}

/// The calendar time of a creation-time field: none where the microseconds,
/// counted in nanoseconds, do not fit 32 bits, and none where `chrono` has no
/// such time.
pub open spec fn creation_of(ctime: u64) -> Option<chrono::NaiveDateTime> {
    let t = ctime_parts(ctime);
    if t.micros * 1000 <= u32::MAX {
        datetime_at(t.seconds as i64, (t.micros * 1000) as u32)
    } else {
        None
    }
}

/// Array identity and geometry, as stored at offset 0.
#[derive(Debug, Clone, Copy)]
pub struct ArrayInfo {
    pub magic: u32,
    pub major_version: u32,
    pub feature_map: u32,
    pub pad0: u32,
    /// Identifier of the array, the same on every member.
    pub set_uuid: [u8; 16],
    /// Name of the array, zero-padded.
    pub set_name: [u8; 32],
    /// Creation time, see `ctime_field`.
    pub ctime: u64,
    pub level: u32,
    pub layout: u32,
    /// Used size of each member, in sectors.
    pub size: u64,
    /// Chunk size, in sectors.
    pub chunksize: u32,
    pub raid_disks: u32,
    /// Offset of the write-intent bitmap, or of the partial parity log.
    pub bitmap_offset: u32,
}

/// The mathematical content of an `ArrayInfo`.
pub ghost struct ArrayInfoView {
    pub magic: u32,
    pub major_version: u32,
    pub feature_map: u32,
    pub pad0: u32,
    pub set_uuid: Seq<u8>,
    pub set_name: Seq<u8>,
    pub ctime: u64,
    pub level: u32,
    pub layout: u32,
    pub size: u64,
    pub chunksize: u32,
    pub raid_disks: u32,
    pub bitmap_offset: u32,
}

impl View for ArrayInfo {
    type V = ArrayInfoView;

    open spec fn view(&self) -> ArrayInfoView {
        ArrayInfoView {
            magic: self.magic,
            major_version: self.major_version,
            feature_map: self.feature_map,
            pad0: self.pad0,
            set_uuid: self.set_uuid@,
            set_name: self.set_name@,
            ctime: self.ctime,
            level: self.level,
            layout: self.layout,
            size: self.size,
            chunksize: self.chunksize,
            raid_disks: self.raid_disks,
            bitmap_offset: self.bitmap_offset,
        }
    }
}

impl ArrayInfoView {
    /// The two byte fields have their widths.
    pub open spec fn wf(self) -> bool {
        self.set_uuid.len() == 16 && self.set_name.len() == 32
    }

    /// Magic number and major version are the ones this format has.
    pub open spec fn format_ok(self) -> bool {
        self.magic == SUPERBLOCK_MAGIC && self.major_version == MAJOR_VERSION
    }

    /// The record as it lies on disk: the fields in order, integers
    /// little-endian, without padding.
    pub open spec fn to_bytes(self) -> Seq<u8> {
        u32_le(self.magic) + u32_le(self.major_version) + u32_le(self.feature_map) + u32_le(
            self.pad0,
        ) + self.set_uuid + self.set_name + u64_le(self.ctime) + u32_le(self.level) + u32_le(
            self.layout,
        ) + u64_le(self.size) + u32_le(self.chunksize) + u32_le(self.raid_disks) + u32_le(
            self.bitmap_offset,
        )
    }

    /// The record that a hundred bytes spell.
    pub open spec fn from_bytes(b: Seq<u8>) -> ArrayInfoView {
        ArrayInfoView {
            magic: le_u32(b.subrange(0, 4)),
            major_version: le_u32(b.subrange(4, 8)),
            feature_map: le_u32(b.subrange(8, 12)),
            pad0: le_u32(b.subrange(12, 16)),
            set_uuid: b.subrange(16, 32),
            set_name: b.subrange(32, 64),
            ctime: le_u64(b.subrange(64, 72)),
            level: le_u32(b.subrange(72, 76)),
            layout: le_u32(b.subrange(76, 80)),
            size: le_u64(b.subrange(80, 88)),
            chunksize: le_u32(b.subrange(88, 92)),
            raid_disks: le_u32(b.subrange(92, 96)),
            bitmap_offset: le_u32(b.subrange(96, 100)),
        }
    }

    /// The record is a hundred bytes long.
    pub proof fn lemma_to_bytes_len(self)
        requires
            self.wf(),
        ensures
            self.to_bytes().len() == 100,
    {
        lemma_le_u32_of_bytes(self.magic);
        lemma_le_u32_of_bytes(self.major_version);
        lemma_le_u32_of_bytes(self.feature_map);
        lemma_le_u32_of_bytes(self.pad0);
        lemma_le_u64_of_bytes(self.ctime);
        lemma_le_u32_of_bytes(self.level);
        lemma_le_u32_of_bytes(self.layout);
        lemma_le_u64_of_bytes(self.size);
        lemma_le_u32_of_bytes(self.chunksize);
        lemma_le_u32_of_bytes(self.raid_disks);
        lemma_le_u32_of_bytes(self.bitmap_offset);
    }

    /// Reading a record back from its bytes gives the record.
    pub proof fn lemma_from_to_bytes(self)
        requires
            self.wf(),
        ensures
            ArrayInfoView::from_bytes(self.to_bytes()) == self,
    {
        let b = self.to_bytes();
        self.lemma_to_bytes_len();
        lemma_le_u32_of_bytes(self.magic);
        lemma_le_u32_of_bytes(self.major_version);
        lemma_le_u32_of_bytes(self.feature_map);
        lemma_le_u32_of_bytes(self.pad0);
        lemma_le_u64_of_bytes(self.ctime);
        lemma_le_u32_of_bytes(self.level);
        lemma_le_u32_of_bytes(self.layout);
        lemma_le_u64_of_bytes(self.size);
        lemma_le_u32_of_bytes(self.chunksize);
        lemma_le_u32_of_bytes(self.raid_disks);
        lemma_le_u32_of_bytes(self.bitmap_offset);
        assert(b.subrange(0, 4) =~= u32_le(self.magic));
        assert(b.subrange(4, 8) =~= u32_le(self.major_version));
        assert(b.subrange(8, 12) =~= u32_le(self.feature_map));
        assert(b.subrange(12, 16) =~= u32_le(self.pad0));
        assert(b.subrange(16, 32) =~= self.set_uuid);
        assert(b.subrange(32, 64) =~= self.set_name);
        assert(b.subrange(64, 72) =~= u64_le(self.ctime));
        assert(b.subrange(72, 76) =~= u32_le(self.level));
        assert(b.subrange(76, 80) =~= u32_le(self.layout));
        assert(b.subrange(80, 88) =~= u64_le(self.size));
        assert(b.subrange(88, 92) =~= u32_le(self.chunksize));
        assert(b.subrange(92, 96) =~= u32_le(self.raid_disks));
        assert(b.subrange(96, 100) =~= u32_le(self.bitmap_offset));
    }

    /// Writing out the record read from a hundred bytes gives the bytes.
    pub proof fn lemma_to_from_bytes(b: Seq<u8>)
        requires
            b.len() == 100,
        ensures
            ArrayInfoView::from_bytes(b).wf(),
            ArrayInfoView::from_bytes(b).to_bytes() == b,
    {
        lemma_bytes_of_le_u32(b.subrange(0, 4));
        lemma_bytes_of_le_u32(b.subrange(4, 8));
        lemma_bytes_of_le_u32(b.subrange(8, 12));
        lemma_bytes_of_le_u32(b.subrange(12, 16));
        lemma_bytes_of_le_u64(b.subrange(64, 72));
        lemma_bytes_of_le_u32(b.subrange(72, 76));
        lemma_bytes_of_le_u32(b.subrange(76, 80));
        lemma_bytes_of_le_u64(b.subrange(80, 88));
        lemma_bytes_of_le_u32(b.subrange(88, 92));
        lemma_bytes_of_le_u32(b.subrange(92, 96));
        lemma_bytes_of_le_u32(b.subrange(96, 100));
        lemma_join(b, 4, 8);
        lemma_join(b, 8, 12);
        lemma_join(b, 12, 16);
        lemma_join(b, 16, 32);
        lemma_join(b, 32, 64);
        lemma_join(b, 64, 72);
        lemma_join(b, 72, 76);
        lemma_join(b, 76, 80);
        lemma_join(b, 80, 88);
        lemma_join(b, 88, 92);
        lemma_join(b, 92, 96);
        lemma_join(b, 96, 100);
        assert(b.subrange(0, 100) =~= b);
    }
}

impl ArrayInfoView {
    /// The record of a new array: current format, no features, no chunking,
    /// the name zero-padded, and as size what is left of each member behind
    /// the reserved first MiB, counted in sectors.
    pub open spec fn fresh(
        set_uuid: Seq<u8>,
        name: Seq<u8>,
        ctime: CreationTime,
        level: u32,
        layout: u32,
        size_bytes: u64,
        sector_size: u64,
        raid_disks: u32,
    ) -> ArrayInfoView {
        ArrayInfoView {
            magic: SUPERBLOCK_MAGIC,
            major_version: MAJOR_VERSION,
            feature_map: 0,
            pad0: 0,
            set_uuid,
            set_name: name_field(name),
            ctime: ctime_field(ctime),
            level,
            layout,
            size: ((size_bytes - RESERVED_BYTES) / (sector_size as int)) as u64,
            chunksize: 0,
            raid_disks,
            bitmap_offset: 0,
        }
    }
}

impl ArrayInfo {
    /// The record of a new array named `name`. `size_bytes` is the size of
    /// the smallest member and `sector_size` the size of a sector, both in
    /// bytes.
    pub fn new(
        uuid: uuid::Uuid,
        name: &str,
        ctime: CreationTime,
        level: ArrayLevel,
        layout: ArrayLayout,
        size_bytes: u64,
        sector_size: u64,
        raid_disks: u32,
    ) -> (r: ArrayInfo)
        requires
            sector_size > 0,
            size_bytes >= RESERVED_BYTES,
        ensures
            r@ == ArrayInfoView::fresh(
                uuid_bytes(uuid),
                encode_utf8(name@),
                ctime,
                level.code(),
                layout.code(),
                size_bytes,
                sector_size,
                raid_disks,
            ),
    {
        ArrayInfo {
            magic: SUPERBLOCK_MAGIC,
            major_version: MAJOR_VERSION,
            feature_map: 0,
            pad0: 0,
            set_uuid: uuid.into_bytes(),
            set_name: str_to_bytes(name),
            ctime: instant_to_arrayinfo_format(ctime),
            level: u32::from(level),
            layout: u32::from(layout),
            size: (size_bytes - RESERVED_BYTES) / sector_size,
            chunksize: 0,
            raid_disks,
            bitmap_offset: 0,
        }
    }

    /// The creation time as the record stores it.
    pub fn creation_time(&self) -> (r: CreationTime)
        ensures
            r == ctime_parts(self.ctime),
    {
        CreationTime {
            seconds: self.ctime % 0x100_0000_0000,
            micros: (self.ctime / 0x100_0000_0000) as u32,
        }
    }

    /// The creation time as a calendar time in UTC. There is none where the
    /// stored microseconds, counted in nanoseconds, do not fit 32 bits, or
    /// where the calendar has no such time; a count of microseconds under a
    /// second always has one.
    pub fn creation(&self) -> (r: Option<chrono::NaiveDateTime>)
        ensures
            r == creation_of(self.ctime),
            ctime_parts(self.ctime).micros < 1_000_000 ==> r is Some,
    {
        let t = self.creation_time();
        if t.micros <= 4_294_967 {
            datetime_from_timestamp(t.seconds as i64, t.micros * 1000)
        } else {
            None
        }
    }

    /// The name of the array: the name field up to its first zero byte, read
    /// as UTF-8.
    pub fn name(&self) -> (r: Result<String, RaidError>)
        ensures
            r is Ok <==> valid_utf8(until_nul(self.set_name@)),
            r matches Ok(s) ==> s@ == decode_utf8(until_nul(self.set_name@)),
            r matches Err(e) ==> e == RaidError::NameNotUtf8,
    {
        let text = bytes_until_nul(self.set_name.as_slice());
        match String::from_utf8(text) {
            Ok(s) => {
                proof {
                    encode_utf8_decode_utf8(s@);
                }
                Ok(s)
            },
            Err(_) => Err(RaidError::NameNotUtf8),
        }
    }

    /// The identifier of the array.
    pub fn uuid(&self) -> (r: uuid::Uuid)
        ensures
            uuid_bytes(r) == self.set_uuid@,
    {
        uuid::Uuid::from_bytes(self.set_uuid)
    }

    /// The record as it lies on disk.
    pub fn as_bytes(&self) -> (r: [u8; 100])
        ensures
            r@ == self@.to_bytes(),
    {
        let mut out: Vec<u8> = Vec::new();
        push_u32_le(&mut out, self.magic);
        push_u32_le(&mut out, self.major_version);
        push_u32_le(&mut out, self.feature_map);
        push_u32_le(&mut out, self.pad0);
        push_all(&mut out, self.set_uuid.as_slice());
        push_all(&mut out, self.set_name.as_slice());
        push_u64_le(&mut out, self.ctime);
        push_u32_le(&mut out, self.level);
        push_u32_le(&mut out, self.layout);
        push_u64_le(&mut out, self.size);
        push_u32_le(&mut out, self.chunksize);
        push_u32_le(&mut out, self.raid_disks);
        push_u32_le(&mut out, self.bitmap_offset);
        proof {
            assert(Seq::<u8>::empty() + u32_le(self.magic) =~= u32_le(self.magic));
            self@.lemma_to_bytes_len();
        }
        to_array(&out)
    }

    /// Reads the record from its hundred bytes. Any bytes spell a record;
    /// one with another magic number or major version is refused.
    pub fn from_bytes(buf: &[u8; 100]) -> (r: Result<ArrayInfo, RaidError>)
        ensures
            r is Ok <==> ArrayInfoView::from_bytes(buf@).format_ok(),
            r matches Ok(info) ==> info@ == ArrayInfoView::from_bytes(buf@),
            r matches Err(e) ==> e == RaidError::FormatInvalid,
    {
        let b = buf.as_slice();
        let info = ArrayInfo {
            magic: read_u32_le(b, 0),
            major_version: read_u32_le(b, 4),
            feature_map: read_u32_le(b, 8),
            pad0: read_u32_le(b, 12),
            set_uuid: take_array(b, 16),
            set_name: take_array(b, 32),
            ctime: read_u64_le(b, 64),
            level: read_u32_le(b, 72),
            layout: read_u32_le(b, 76),
            size: read_u64_le(b, 80),
            chunksize: read_u32_le(b, 88),
            raid_disks: read_u32_le(b, 92),
            bitmap_offset: read_u32_le(b, 96),
        };
        if info.magic != SUPERBLOCK_MAGIC {
            return Err(RaidError::FormatInvalid);
        }
        if info.major_version != MAJOR_VERSION {
            return Err(RaidError::FormatInvalid);
        }
        Ok(info)
    }
}

} // verus!
