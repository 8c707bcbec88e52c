//! Bytes 100 to 127 of a superblock: the fields of a reshape in progress.
//! They are kept as they are found and written back unchanged.

use crate::le::{
    le_u32, le_u64, lemma_bytes_of_le_u32, lemma_bytes_of_le_u64, lemma_le_u32_of_bytes,
    lemma_le_u64_of_bytes, push_u32_le, push_u64_le, read_u32_le, read_u64_le, u32_le, u64_le,
};
use crate::raw::{lemma_join, to_array};
use vstd::prelude::*;

verus! {

/// The reshape fields, as stored at offset 100.
#[derive(Debug, Clone, Copy)]
pub struct FeatureBit4 {
    pub new_level: u32,
    pub reshape_position: u64,
    pub delta_disks: u32,
    pub new_layout: u32,
    pub new_chunk: u32,
    pub new_offset: u32,
}

impl FeatureBit4 {
    /// The record as it lies on disk: the fields in order, integers
    /// little-endian, without padding.
    pub open spec fn to_bytes(self) -> Seq<u8> {
        u32_le(self.new_level) + u64_le(self.reshape_position) + u32_le(self.delta_disks) + u32_le(
            self.new_layout,
        ) + u32_le(self.new_chunk) + u32_le(self.new_offset)
    }

    /// The record that twenty-eight bytes spell.
    pub open spec fn of_bytes(b: Seq<u8>) -> FeatureBit4 {
        FeatureBit4 {
            new_level: le_u32(b.subrange(0, 4)),
            reshape_position: le_u64(b.subrange(4, 12)),
            delta_disks: le_u32(b.subrange(12, 16)),
            new_layout: le_u32(b.subrange(16, 20)),
            new_chunk: le_u32(b.subrange(20, 24)),
            new_offset: le_u32(b.subrange(24, 28)),
        }
    }

    /// The record with every field zero: no reshape.
    pub open spec fn zeroed() -> FeatureBit4 {
        FeatureBit4 {
            new_level: 0,
            reshape_position: 0,
            delta_disks: 0,
            new_layout: 0,
            new_chunk: 0,
            new_offset: 0,
        }
    }

    /// The record is twenty-eight bytes long.
    pub proof fn lemma_to_bytes_len(self)
        ensures
            self.to_bytes().len() == 28,
    {
        lemma_le_u32_of_bytes(self.new_level);
        lemma_le_u64_of_bytes(self.reshape_position);
        lemma_le_u32_of_bytes(self.delta_disks);
        lemma_le_u32_of_bytes(self.new_layout);
        lemma_le_u32_of_bytes(self.new_chunk);
        lemma_le_u32_of_bytes(self.new_offset);
    }

    /// Reading a record back from its bytes gives the record.
    pub proof fn lemma_from_to_bytes(self)
        ensures
            FeatureBit4::of_bytes(self.to_bytes()) == self,
    {
        let b = self.to_bytes();
        self.lemma_to_bytes_len();
        lemma_le_u32_of_bytes(self.new_level);
        lemma_le_u64_of_bytes(self.reshape_position);
        lemma_le_u32_of_bytes(self.delta_disks);
        lemma_le_u32_of_bytes(self.new_layout);
        lemma_le_u32_of_bytes(self.new_chunk);
        lemma_le_u32_of_bytes(self.new_offset);
        assert(b.subrange(0, 4) =~= u32_le(self.new_level));
        assert(b.subrange(4, 12) =~= u64_le(self.reshape_position));
        assert(b.subrange(12, 16) =~= u32_le(self.delta_disks));
        assert(b.subrange(16, 20) =~= u32_le(self.new_layout));
        assert(b.subrange(20, 24) =~= u32_le(self.new_chunk));
        assert(b.subrange(24, 28) =~= u32_le(self.new_offset));
    }

    /// Writing out the record read from twenty-eight bytes gives the bytes.
    pub proof fn lemma_to_from_bytes(b: Seq<u8>)
        requires
            b.len() == 28,
        ensures
            FeatureBit4::of_bytes(b).to_bytes() == b,
    {
        lemma_bytes_of_le_u32(b.subrange(0, 4));
        lemma_bytes_of_le_u64(b.subrange(4, 12));
        lemma_bytes_of_le_u32(b.subrange(12, 16));
        lemma_bytes_of_le_u32(b.subrange(16, 20));
        lemma_bytes_of_le_u32(b.subrange(20, 24));
        lemma_bytes_of_le_u32(b.subrange(24, 28));
        lemma_join(b, 4, 12);
        lemma_join(b, 12, 16);
        lemma_join(b, 16, 20);
        lemma_join(b, 20, 24);
        lemma_join(b, 24, 28);
        assert(b.subrange(0, 28) =~= b);
    }

    /// The record as it lies on disk.
    pub fn as_bytes(&self) -> (r: [u8; 28])
        ensures
            r@ == self.to_bytes(),
    {
        let mut out: Vec<u8> = Vec::new();
        push_u32_le(&mut out, self.new_level);
        push_u64_le(&mut out, self.reshape_position);
        push_u32_le(&mut out, self.delta_disks);
        push_u32_le(&mut out, self.new_layout);
        push_u32_le(&mut out, self.new_chunk);
        push_u32_le(&mut out, self.new_offset);
        proof {
            assert(Seq::<u8>::empty() + u32_le(self.new_level) =~= u32_le(self.new_level));
            self.lemma_to_bytes_len();
        }
        to_array(&out)
    }

    /// Reads the record from its twenty-eight bytes. Any bytes spell one.
    pub fn from_bytes(buf: &[u8; 28]) -> (r: Result<FeatureBit4, crate::error::RaidError>)
        ensures
            r == Ok::<FeatureBit4, crate::error::RaidError>(FeatureBit4::of_bytes(buf@)),
    {
        let b = buf.as_slice();
        Ok(
            FeatureBit4 {
                new_level: read_u32_le(b, 0),
                reshape_position: read_u64_le(b, 4),
                delta_disks: read_u32_le(b, 12),
                new_layout: read_u32_le(b, 16),
                new_chunk: read_u32_le(b, 20),
                new_offset: read_u32_le(b, 24),
            },
        )
    }
}

} // verus!
