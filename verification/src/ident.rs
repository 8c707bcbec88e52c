//! Array and device identifiers as `Uuid` values.
//!
//! A superblock stores an identifier as sixteen raw bytes. The accessors of the
//! library hand identifiers out, and its constructors take them, as `Uuid`
//! values; this module is where the two meet.

use uuid::Uuid;
use vstd::prelude::*;

verus! {

/// The identifier type of the `uuid` crate, carried through as an opaque value.
#[verifier::external_type_specification]
#[verifier::external_body]
pub struct ExUuid(Uuid);

/// The sixteen bytes that an identifier holds, in the order in which they are
/// stored and printed.
pub uninterp spec fn uuid_bytes(id: Uuid) -> Seq<u8>;

/// `Uuid::from_bytes` wraps the sixteen bytes it is given, unchanged and in
/// the same order.
pub assume_specification[ Uuid::from_bytes ](bytes: [u8; 16]) -> (id: Uuid)
    ensures
        uuid_bytes(id) == bytes@,
;

/// `Uuid::into_bytes` returns the sixteen bytes that the identifier holds.
pub assume_specification[ Uuid::into_bytes ](id: Uuid) -> (bytes: [u8; 16])
    ensures
        bytes@ == uuid_bytes(id),
;

/// `Uuid::new_v4` draws a random identifier from the operating system's
/// generator; nothing is promised of which.
pub assume_specification[ Uuid::new_v4 ]() -> (id: Uuid)
;

} // verus!
