//! Device numbers: the kernel's encoding of a major and a minor number in one
//! 64-bit value, through `libc`.

use vstd::prelude::*;

verus! {

/// The major number inside a device number: bits 8 to 19, and above them
/// bits 44 to 63.
pub open spec fn dev_major(dev: u64) -> u32 {
    (((dev & 0x0000_0000_000f_ff00) >> 8) | ((dev & 0xffff_f000_0000_0000) >> 32)) as u32
}

/// The minor number inside a device number: bits 0 to 7, and above them
/// bits 20 to 43.
pub open spec fn dev_minor(dev: u64) -> u32 {
    ((dev & 0x0000_0000_0000_00ff) | ((dev & 0x0000_0fff_fff0_0000) >> 12)) as u32
}

/// The device number that holds `major` and `minor`.
pub open spec fn dev_number(major: u32, minor: u32) -> u64 {
    (((major as u64) & 0x0000_0fff) << 8) | (((major as u64) & 0xffff_f000) << 32) | ((minor as u64)
        & 0x0000_00ff) | (((minor as u64) & 0xffff_ff00) << 12)
}

/// `libc::major`: the major number of a device number, by the bit layout
/// that `dev_major` spells out.
#[verifier::external_body]
pub(crate) fn major_of(dev: u64) -> (r: u32)
    ensures
        r == dev_major(dev),
{
    libc::major(dev)
}

/// `libc::minor`: the minor number of a device number, by the bit layout
/// that `dev_minor` spells out.
#[verifier::external_body]
pub(crate) fn minor_of(dev: u64) -> (r: u32)
    ensures
        r == dev_minor(dev),
{
    libc::minor(dev)
}

/// `libc::makedev`: the device number of a major and a minor number, by the
/// bit layout that `dev_number` spells out.
#[verifier::external_body]
pub(crate) fn make_dev(major: u32, minor: u32) -> (r: u64)
    ensures
        r == dev_number(major, minor),
{
    libc::makedev(major, minor)
}

/// A device number built from a major and a minor number gives both back.
pub proof fn lemma_dev_number_parts(major: u32, minor: u32)
    ensures
        dev_major(dev_number(major, minor)) == major,
        dev_minor(dev_number(major, minor)) == minor,
{
    assert(dev_major(dev_number(major, minor)) == major) by (bit_vector);
    assert(dev_minor(dev_number(major, minor)) == minor) by (bit_vector);
}

} // verus!
