//! The rules that creating a new array goes by, before any superblock is
//! built.

use crate::array_info::ArrayLevel;
use crate::device_info::DATA_OFFSET_SECTORS;
use vstd::prelude::*;

verus! {

/// Bytes that the smallest member of a new array must have.
pub const MIN_MEMBER_BYTES: u64 = 10_240;

/// Sector at which the data of a member of a parity array starts.
pub const PARITY_DATA_OFFSET_SECTORS: u64 = 0x1000;

/// The sector at which array data starts on the members of a new array.
/// Only mirrored and parity arrays are created.
pub open spec fn level_data_offset(level: ArrayLevel) -> Option<u64> {
    match level {
        ArrayLevel::Raid1 => Some(DATA_OFFSET_SECTORS),
        ArrayLevel::Raid5 => Some(PARITY_DATA_OFFSET_SECTORS),
        _ => None,
    }
}

/// The sector at which array data starts on the members of a new array of
/// this level, or nothing for a level of which no array is created.
pub fn data_offset_for(level: ArrayLevel) -> (r: Option<u64>)
    ensures
        r == level_data_offset(level),
{
    match level {
        ArrayLevel::Raid1 => Some(DATA_OFFSET_SECTORS),
        ArrayLevel::Raid5 => Some(PARITY_DATA_OFFSET_SECTORS),
        _ => None,
    }
}

/// Whether `least` is the least of `sizes`: the greatest number there is
/// where there are none.
pub open spec fn is_least(sizes: Seq<u64>, least: u64) -> bool {
    &&& forall|i: int| 0 <= i < sizes.len() ==> least <= sizes[i]
    &&& if sizes.len() == 0 {
        least == u64::MAX
    } else {
        exists|i: int| 0 <= i < sizes.len() && sizes[i] == least
    }
}

/// The size of the smallest member, which every member of the array is
/// used up to.
pub fn smallest_member(sizes: &Vec<u64>) -> (r: u64)
    ensures
        is_least(sizes@, r),
{
    let mut least: u64 = u64::MAX;
    let ghost mut at: int = 0;
    let mut i: usize = 0;
    while i < sizes.len()
        invariant
            i <= sizes.len(),
            forall|j: int| 0 <= j < i ==> least <= sizes@[j],
            i == 0 ==> least == u64::MAX,
            i > 0 ==> 0 <= at < i && sizes@[at] == least,
        decreases sizes.len() - i,
    {
        if sizes[i] <= least {
            least = sizes[i];
            proof {
                at = i as int;
            }
        }
        i = i + 1;
    }
    least
}

/// Whether the smallest member is large enough for an array.
pub fn members_large_enough(sizes: &Vec<u64>) -> (r: bool)
    ensures
        r == (forall|i: int| 0 <= i < sizes@.len() ==> sizes@[i] >= MIN_MEMBER_BYTES),
{
    let least = smallest_member(sizes);
    least >= MIN_MEMBER_BYTES
}

} // verus!
