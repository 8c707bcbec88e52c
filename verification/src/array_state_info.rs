//! Bytes 192 to 255 of a superblock: the state of the array that changes
//! while it runs, and the checksum over the whole superblock.

use crate::error::RaidError;
use crate::le::{
    le_u32, le_u64, lemma_bytes_of_le_u32, lemma_bytes_of_le_u64, lemma_le_u32_of_bytes,
    lemma_le_u64_of_bytes, push_u32_le, push_u64_le, read_u32_le, read_u64_le, u32_le, u64_le,
};
use crate::raw::{lemma_join, push_all, take_array, to_array};
use crate::text::zeros;
use vstd::prelude::*;

verus! {

/// Slots that the table of roles of a new array has.
pub const NEW_ARRAY_MAX_DEV: u32 = 128;

/// Count of updates with which a new array starts.
pub const NEW_ARRAY_EVENTS: u64 = 16;

/// Resync offset of an array that is in sync throughout.
pub const RESYNC_DONE: u64 = 0xffff_ffff_ffff_ffff;

/// State of the array, as stored at offset 192.
#[derive(Debug, Clone, Copy)]
pub struct ArrayStateInfo {
    /// Time of the last update, in the form of the creation time.
    pub utime: u64,
    /// Count of updates of the superblock.
    pub events: u64,
    /// Sectors before this one are in sync.
    pub resync_offset: u64,
    /// Checksum of the superblock, computed with this field taken as zero.
    pub sb_csum: u32,
    /// Number of slots in the table of roles.
    pub max_dev: u32,
    pub pad3: [u8; 32],
}

/// The mathematical content of an `ArrayStateInfo`.
pub ghost struct ArrayStateInfoView {
    pub utime: u64,
    pub events: u64,
    pub resync_offset: u64,
    pub sb_csum: u32,
    pub max_dev: u32,
    pub pad3: Seq<u8>,
}

impl View for ArrayStateInfo {
    type V = ArrayStateInfoView;

    open spec fn view(&self) -> ArrayStateInfoView {
        ArrayStateInfoView {
            utime: self.utime,
            events: self.events,
            resync_offset: self.resync_offset,
            sb_csum: self.sb_csum,
            max_dev: self.max_dev,
            pad3: self.pad3@,
        }
    }
}

impl ArrayStateInfoView {
    /// The padding has its width.
    pub open spec fn wf(self) -> bool {
        self.pad3.len() == 32
    }

    /// The record as it lies on disk: the fields in order, integers
    /// little-endian, without padding between them.
    pub open spec fn to_bytes(self) -> Seq<u8> {
        u64_le(self.utime) + u64_le(self.events) + u64_le(self.resync_offset) + u32_le(self.sb_csum)
            + u32_le(self.max_dev) + self.pad3
    }

    /// The record that sixty-four bytes spell.
    pub open spec fn from_bytes(b: Seq<u8>) -> ArrayStateInfoView {
        ArrayStateInfoView {
            utime: le_u64(b.subrange(0, 8)),
            events: le_u64(b.subrange(8, 16)),
            resync_offset: le_u64(b.subrange(16, 24)),
            sb_csum: le_u32(b.subrange(24, 28)),
            max_dev: le_u32(b.subrange(28, 32)),
            pad3: b.subrange(32, 64),
        }
    }

    /// The state of a new array: never updated, in sync throughout, a table
    /// of 128 roles, and the checksum still to be filled in.
    pub open spec fn fresh() -> ArrayStateInfoView {
        ArrayStateInfoView {
            utime: 0,
            events: NEW_ARRAY_EVENTS,
            resync_offset: RESYNC_DONE,
            sb_csum: 0,
            max_dev: NEW_ARRAY_MAX_DEV,
            pad3: zeros(32),
        }
    }

    /// The record is sixty-four bytes long.
    pub proof fn lemma_to_bytes_len(self)
        requires
            self.wf(),
        ensures
            self.to_bytes().len() == 64,
    {
        lemma_le_u64_of_bytes(self.utime);
        lemma_le_u64_of_bytes(self.events);
        lemma_le_u64_of_bytes(self.resync_offset);
        lemma_le_u32_of_bytes(self.sb_csum);
        lemma_le_u32_of_bytes(self.max_dev);
    }

    /// Reading a record back from its bytes gives the record.
    pub proof fn lemma_from_to_bytes(self)
        requires
            self.wf(),
        ensures
            ArrayStateInfoView::from_bytes(self.to_bytes()) == self,
    {
        let b = self.to_bytes();
        self.lemma_to_bytes_len();
        lemma_le_u64_of_bytes(self.utime);
        lemma_le_u64_of_bytes(self.events);
        lemma_le_u64_of_bytes(self.resync_offset);
        lemma_le_u32_of_bytes(self.sb_csum);
        lemma_le_u32_of_bytes(self.max_dev);
        assert(b.subrange(0, 8) =~= u64_le(self.utime));
        assert(b.subrange(8, 16) =~= u64_le(self.events));
        assert(b.subrange(16, 24) =~= u64_le(self.resync_offset));
        assert(b.subrange(24, 28) =~= u32_le(self.sb_csum));
        assert(b.subrange(28, 32) =~= u32_le(self.max_dev));
        assert(b.subrange(32, 64) =~= self.pad3);
    }

    /// Writing out the record read from sixty-four bytes gives the bytes.
    pub proof fn lemma_to_from_bytes(b: Seq<u8>)
        requires
            b.len() == 64,
        ensures
            ArrayStateInfoView::from_bytes(b).wf(),
            ArrayStateInfoView::from_bytes(b).to_bytes() == b,
    {
        lemma_bytes_of_le_u64(b.subrange(0, 8));
        lemma_bytes_of_le_u64(b.subrange(8, 16));
        lemma_bytes_of_le_u64(b.subrange(16, 24));
        lemma_bytes_of_le_u32(b.subrange(24, 28));
        lemma_bytes_of_le_u32(b.subrange(28, 32));
        lemma_join(b, 8, 16);
        lemma_join(b, 16, 24);
        lemma_join(b, 24, 28);
        lemma_join(b, 28, 32);
        lemma_join(b, 32, 64);
        assert(b.subrange(0, 64) =~= b);
    }
}

impl ArrayStateInfo {
    /// The state of a new array, with the checksum still zero.
    pub fn new() -> (r: ArrayStateInfo)
        ensures
            r@ == ArrayStateInfoView::fresh(),
    {
        let r = ArrayStateInfo {
            utime: 0,
            events: NEW_ARRAY_EVENTS,
            resync_offset: RESYNC_DONE,
            sb_csum: 0,
            max_dev: NEW_ARRAY_MAX_DEV,
            pad3: [0u8; 32],
        };
        assert(r.pad3@ =~= zeros(32));
        r
    }

    /// The record as it lies on disk.
    pub fn as_bytes(&self) -> (r: [u8; 64])
        ensures
            r@ == self@.to_bytes(),
    {
        let mut out: Vec<u8> = Vec::new();
        push_u64_le(&mut out, self.utime);
        push_u64_le(&mut out, self.events);
        push_u64_le(&mut out, self.resync_offset);
        push_u32_le(&mut out, self.sb_csum);
        push_u32_le(&mut out, self.max_dev);
        push_all(&mut out, self.pad3.as_slice());
        proof {
            assert(Seq::<u8>::empty() + u64_le(self.utime) =~= u64_le(self.utime));
            self@.lemma_to_bytes_len();
        }
        to_array(&out)
    }

    /// Reads the record from its sixty-four bytes. Any bytes spell one.
    pub fn from_bytes(buf: &[u8; 64]) -> (r: Result<ArrayStateInfo, RaidError>)
        ensures
            r is Ok,
            r->Ok_0@ == ArrayStateInfoView::from_bytes(buf@),
    {
        let b = buf.as_slice();
        Ok(
            ArrayStateInfo {
                utime: read_u64_le(b, 0),
                events: read_u64_le(b, 8),
                resync_offset: read_u64_le(b, 16),
                sb_csum: read_u32_le(b, 24),
                max_dev: read_u32_le(b, 28),
                pad3: take_array(b, 32),
            },
        )
    }
}

} // verus!
