//! Bytes 128 to 191 of a superblock: what this member is within the array.

use crate::error::RaidError;
use crate::ident::uuid_bytes;
use crate::le::{
    le_u16, le_u32, le_u64, lemma_bytes_of_le_u16, lemma_bytes_of_le_u32, lemma_bytes_of_le_u64,
    lemma_le_u16_of_bytes, lemma_le_u32_of_bytes, lemma_le_u64_of_bytes, push_u16_le, push_u32_le,
    push_u64_le, read_u16_le, read_u32_le, read_u64_le, u16_le, u32_le, u64_le,
};
use crate::raw::{lemma_join, push_all, take_array, to_array};
use uuid::Uuid;
use vstd::prelude::*;

verus! {

/// Sectors at the start of a member that hold no array data: one MiB of
/// 512-byte sectors.
pub const DATA_OFFSET_SECTORS: u64 = 0x800;

/// Sector of the member at which its superblock lies: byte offset 0x1000.
pub const SUPER_OFFSET_SECTORS: u64 = 0x8;

/// Sectors set aside for the log of bad blocks.
pub const BBLOG_SIZE_SECTORS: u16 = 8;

/// Sector, counted from the superblock, at which the log of bad blocks lies.
pub const BBLOG_OFFSET_SECTORS: u32 = 16;

/// Identity and role of one member, as stored at offset 128.
#[derive(Debug, Clone, Copy)]
pub struct DeviceInfo {
    /// Sector at which array data starts.
    pub data_offset: u64,
    /// Sectors that hold array data.
    pub data_size: u64,
    /// Sector at which this superblock lies.
    pub super_offset: u64,
    /// Sectors before this one are in sync while the member recovers.
    pub recovery_offset: u64,
    /// Number of the member, an index into the table of roles.
    pub dev_number: u32,
    /// Read errors that were corrected by a rewrite.
    pub cnt_corrected_read: u32,
    /// Identifier of the member; no two members of an array share one.
    pub device_uuid: [u8; 16],
    pub devflags: u8,
    pub bblog_shift: u8,
    pub bblog_size: u16,
    pub bblog_offset: u32,
}

/// The mathematical content of a `DeviceInfo`.
pub ghost struct DeviceInfoView {
    pub data_offset: u64,
    pub data_size: u64,
    pub super_offset: u64,
    pub recovery_offset: u64,
    pub dev_number: u32,
    pub cnt_corrected_read: u32,
    pub device_uuid: Seq<u8>,
    pub devflags: u8,
    pub bblog_shift: u8,
    pub bblog_size: u16,
    pub bblog_offset: u32,
}

impl View for DeviceInfo {
    type V = DeviceInfoView;

    open spec fn view(&self) -> DeviceInfoView {
        DeviceInfoView {
            data_offset: self.data_offset,
            data_size: self.data_size,
            super_offset: self.super_offset,
            recovery_offset: self.recovery_offset,
            dev_number: self.dev_number,
            cnt_corrected_read: self.cnt_corrected_read,
            device_uuid: self.device_uuid@,
            devflags: self.devflags,
            bblog_shift: self.bblog_shift,
            bblog_size: self.bblog_size,
            bblog_offset: self.bblog_offset,
        }
    }
}

impl DeviceInfoView {
    /// The identifier has its width.
    pub open spec fn wf(self) -> bool {
        self.device_uuid.len() == 16
    }

    /// The record as it lies on disk: the fields in order, integers
    /// little-endian, without padding.
    pub open spec fn to_bytes(self) -> Seq<u8> {
        u64_le(self.data_offset) + u64_le(self.data_size) + u64_le(self.super_offset) + u64_le(
            self.recovery_offset,
        ) + u32_le(self.dev_number) + u32_le(self.cnt_corrected_read) + self.device_uuid
            + seq![self.devflags] + seq![self.bblog_shift] + u16_le(self.bblog_size) + u32_le(
            self.bblog_offset,
        )
    }

    /// The record that sixty-four bytes spell.
    pub open spec fn from_bytes(b: Seq<u8>) -> DeviceInfoView {
        DeviceInfoView {
            data_offset: le_u64(b.subrange(0, 8)),
            data_size: le_u64(b.subrange(8, 16)),
            super_offset: le_u64(b.subrange(16, 24)),
            recovery_offset: le_u64(b.subrange(24, 32)),
            dev_number: le_u32(b.subrange(32, 36)),
            cnt_corrected_read: le_u32(b.subrange(36, 40)),
            device_uuid: b.subrange(40, 56),
            devflags: b[56],
            bblog_shift: b[57],
            bblog_size: le_u16(b.subrange(58, 60)),
            bblog_offset: le_u32(b.subrange(60, 64)),
        }
    }

    /// The record of a member that joins a new array: data behind the first
    /// MiB, the superblock at sector 8, nothing to recover, and room for a
    /// log of bad blocks. `device_size` is the size of the member in sectors.
    pub open spec fn fresh(device_size: u64, dev_number: u32, device_uuid: Seq<u8>) -> DeviceInfoView {
        DeviceInfoView {
            data_offset: DATA_OFFSET_SECTORS,
            data_size: (device_size - DATA_OFFSET_SECTORS) as u64,
            super_offset: SUPER_OFFSET_SECTORS,
            recovery_offset: 0,
            dev_number,
            cnt_corrected_read: 0,
            device_uuid,
            devflags: 0,
            bblog_shift: 0,
            bblog_size: BBLOG_SIZE_SECTORS,
            bblog_offset: BBLOG_OFFSET_SECTORS,
        }
    }

    /// The record is sixty-four bytes long.
    pub proof fn lemma_to_bytes_len(self)
        requires
            self.wf(),
        ensures
            self.to_bytes().len() == 64,
    {
        lemma_le_u64_of_bytes(self.data_offset);
        lemma_le_u64_of_bytes(self.data_size);
        lemma_le_u64_of_bytes(self.super_offset);
        lemma_le_u64_of_bytes(self.recovery_offset);
        lemma_le_u32_of_bytes(self.dev_number);
        lemma_le_u32_of_bytes(self.cnt_corrected_read);
        lemma_le_u16_of_bytes(self.bblog_size);
        lemma_le_u32_of_bytes(self.bblog_offset);
    }

    /// Reading a record back from its bytes gives the record.
    pub proof fn lemma_from_to_bytes(self)
        requires
            self.wf(),
        ensures
            DeviceInfoView::from_bytes(self.to_bytes()) == self,
    {
        let b = self.to_bytes();
        self.lemma_to_bytes_len();
        lemma_le_u64_of_bytes(self.data_offset);
        lemma_le_u64_of_bytes(self.data_size);
        lemma_le_u64_of_bytes(self.super_offset);
        lemma_le_u64_of_bytes(self.recovery_offset);
        lemma_le_u32_of_bytes(self.dev_number);
        lemma_le_u32_of_bytes(self.cnt_corrected_read);
        lemma_le_u16_of_bytes(self.bblog_size);
        lemma_le_u32_of_bytes(self.bblog_offset);
        assert(b.subrange(0, 8) =~= u64_le(self.data_offset));
        assert(b.subrange(8, 16) =~= u64_le(self.data_size));
        assert(b.subrange(16, 24) =~= u64_le(self.super_offset));
        assert(b.subrange(24, 32) =~= u64_le(self.recovery_offset));
        assert(b.subrange(32, 36) =~= u32_le(self.dev_number));
        assert(b.subrange(36, 40) =~= u32_le(self.cnt_corrected_read));
        assert(b.subrange(40, 56) =~= self.device_uuid);
        assert(b[56] == self.devflags);
        assert(b[57] == self.bblog_shift);
        assert(b.subrange(58, 60) =~= u16_le(self.bblog_size));
        assert(b.subrange(60, 64) =~= u32_le(self.bblog_offset));
    }

    /// Writing out the record read from sixty-four bytes gives the bytes.
    pub proof fn lemma_to_from_bytes(b: Seq<u8>)
        requires
            b.len() == 64,
        ensures
            DeviceInfoView::from_bytes(b).wf(),
            DeviceInfoView::from_bytes(b).to_bytes() == b,
    {
        lemma_bytes_of_le_u64(b.subrange(0, 8));
        lemma_bytes_of_le_u64(b.subrange(8, 16));
        lemma_bytes_of_le_u64(b.subrange(16, 24));
        lemma_bytes_of_le_u64(b.subrange(24, 32));
        lemma_bytes_of_le_u32(b.subrange(32, 36));
        lemma_bytes_of_le_u32(b.subrange(36, 40));
        lemma_bytes_of_le_u16(b.subrange(58, 60));
        lemma_bytes_of_le_u32(b.subrange(60, 64));
        assert(seq![b[56]] =~= b.subrange(56, 57));
        assert(seq![b[57]] =~= b.subrange(57, 58));
        lemma_join(b, 8, 16);
        lemma_join(b, 16, 24);
        lemma_join(b, 24, 32);
        lemma_join(b, 32, 36);
        lemma_join(b, 36, 40);
        lemma_join(b, 40, 56);
        lemma_join(b, 56, 57);
        lemma_join(b, 57, 58);
        lemma_join(b, 58, 60);
        lemma_join(b, 60, 64);
        assert(b.subrange(0, 64) =~= b);
    }
}

impl DeviceInfo {
    /// The record of a member of `device_size` sectors that joins a new
    /// array under the identifier `device_uuid`.
    pub fn with_uuid(device_size: u64, dev_number: u32, device_uuid: Uuid) -> (r: DeviceInfo)
        requires
            device_size >= DATA_OFFSET_SECTORS,
        ensures
            r@ == DeviceInfoView::fresh(device_size, dev_number, uuid_bytes(device_uuid)),
            r@.wf(),
    {
        DeviceInfo {
            data_offset: DATA_OFFSET_SECTORS,
            data_size: device_size - DATA_OFFSET_SECTORS,
            super_offset: SUPER_OFFSET_SECTORS,
            recovery_offset: 0,
            dev_number,
            cnt_corrected_read: 0,
            device_uuid: device_uuid.into_bytes(),
            devflags: 0,
            bblog_shift: 0,
            bblog_size: BBLOG_SIZE_SECTORS,
            bblog_offset: BBLOG_OFFSET_SECTORS,
        }
    }

    /// The record of a member of `device_size` sectors that joins a new
    /// array. Without an identifier the member gets a random one; every
    /// other field is the same whichever identifier it is.
    pub fn new(device_size: u64, dev_number: u32, device_uuid: Option<Uuid>) -> (r: DeviceInfo)
        requires
            device_size >= DATA_OFFSET_SECTORS,
        ensures
            r@ == DeviceInfoView::fresh(device_size, dev_number, r@.device_uuid),
            r@.wf(),
            device_uuid matches Some(id) ==> r@.device_uuid == uuid_bytes(id),
    {
        let id = match device_uuid {
            Some(id) => id,
            None => Uuid::new_v4(),
        };
        DeviceInfo::with_uuid(device_size, dev_number, id)
    }

    /// The identifier of the member.
    pub fn uuid(&self) -> (r: Uuid)
        ensures
            uuid_bytes(r) == self.device_uuid@,
    {
        Uuid::from_bytes(self.device_uuid)
    }

    /// The record as it lies on disk.
    pub fn as_bytes(&self) -> (r: [u8; 64])
        ensures
            r@ == self@.to_bytes(),
    {
        let mut out: Vec<u8> = Vec::new();
        push_u64_le(&mut out, self.data_offset);
        push_u64_le(&mut out, self.data_size);
        push_u64_le(&mut out, self.super_offset);
        push_u64_le(&mut out, self.recovery_offset);
        push_u32_le(&mut out, self.dev_number);
        push_u32_le(&mut out, self.cnt_corrected_read);
        push_all(&mut out, self.device_uuid.as_slice());
        let ghost before = out@;
        out.push(self.devflags);
        out.push(self.bblog_shift);
        proof {
            assert(out@ =~= before + seq![self.devflags] + seq![self.bblog_shift]);
        }
        push_u16_le(&mut out, self.bblog_size);
        push_u32_le(&mut out, self.bblog_offset);
        proof {
            assert(Seq::<u8>::empty() + u64_le(self.data_offset) =~= u64_le(self.data_offset));
            self@.lemma_to_bytes_len();
        }
        to_array(&out)
    }

    /// Reads the record from its sixty-four bytes. Any bytes spell one.
    pub fn from_bytes(buf: &[u8; 64]) -> (r: Result<DeviceInfo, RaidError>)
        ensures
            r is Ok,
            r->Ok_0@ == DeviceInfoView::from_bytes(buf@),
    {
        let b = buf.as_slice();
        Ok(
            DeviceInfo {
                data_offset: read_u64_le(b, 0),
                data_size: read_u64_le(b, 8),
                super_offset: read_u64_le(b, 16),
                recovery_offset: read_u64_le(b, 24),
                dev_number: read_u32_le(b, 32),
                cnt_corrected_read: read_u32_le(b, 36),
                device_uuid: take_array(b, 40),
                devflags: b[56],
                bblog_shift: b[57],
                bblog_size: read_u16_le(b, 58),
                bblog_offset: read_u32_le(b, 60),
            },
        )
    }
}

} // verus!
