//! What holds between encoding and decoding.

use crate::array_info::{ArrayInfoView, MAJOR_VERSION, SUPERBLOCK_MAGIC};
use crate::array_state_info::ArrayStateInfoView;
use crate::device_info::DeviceInfoView;
use crate::feature_bit4::FeatureBit4;
use crate::error::RaidError;
use crate::le::le_u32;
use crate::raw::{lemma_five_parts, lemma_join};
use crate::superblock::{
    announced_max_dev, array_name, decodable, lemma_roles_from_to_bytes, lemma_roles_to_bytes_len,
    lemma_roles_to_from_bytes, roles_to_bytes, SuperblockView,
};
use crate::text::{
    lemma_encode_utf8_concat, lemma_until_nul_of_name_field, name_field, until_nul, NAME_FIELD_LEN,
};
use vstd::prelude::*;
use vstd::utf8::*;

verus! {

/// Decoding is a left inverse of encoding: the bytes of a superblock whose
/// table of roles has `max_dev` slots, and whose magic number and major
/// version are those of the format, decode to that superblock, field for
/// field.
pub proof fn lemma_decode_of_encode(sb: SuperblockView)
    requires
        sb.wf(),
        sb.array_info.format_ok(),
    ensures
        SuperblockView::decode(sb.to_bytes()) == Ok::<SuperblockView, RaidError>(sb),
{
    let b = sb.to_bytes();
    let roles = roles_to_bytes(sb.dev_roles);
    sb.array_info.lemma_to_bytes_len();
    sb.feature_bit4.lemma_to_bytes_len();
    sb.device_info.lemma_to_bytes_len();
    sb.array_state_info.lemma_to_bytes_len();
    lemma_roles_to_bytes_len(sb.dev_roles);
    lemma_five_parts(
        sb.array_info.to_bytes(),
        sb.feature_bit4.to_bytes(),
        sb.device_info.to_bytes(),
        sb.array_state_info.to_bytes(),
        roles,
    );
    sb.array_info.lemma_from_to_bytes();
    sb.feature_bit4.lemma_from_to_bytes();
    sb.device_info.lemma_from_to_bytes();
    sb.array_state_info.lemma_from_to_bytes();
    lemma_roles_from_to_bytes(sb.dev_roles);
    assert(b.subrange(192, 256).subrange(28, 32) =~= b.subrange(220, 224));
    assert(SuperblockView::from_bytes(b).dev_roles =~= sb.dev_roles);
}

/// Encoding is a left inverse of decoding: a buffer that holds a superblock
/// and nothing behind it is what the superblock it decodes to encodes to.
pub proof fn lemma_encode_of_decode(b: Seq<u8>)
    requires
        decodable(b),
        b.len() == 256 + 2 * announced_max_dev(b),
    ensures
        SuperblockView::from_bytes(b).wf(),
        SuperblockView::from_bytes(b).to_bytes() == b,
{
    let sb = SuperblockView::from_bytes(b);
    let table = b.subrange(256, b.len() as int);
    ArrayInfoView::lemma_to_from_bytes(b.subrange(0, 100));
    FeatureBit4::lemma_to_from_bytes(b.subrange(100, 128));
    DeviceInfoView::lemma_to_from_bytes(b.subrange(128, 192));
    ArrayStateInfoView::lemma_to_from_bytes(b.subrange(192, 256));
    assert(b.subrange(192, 256).subrange(28, 32) =~= b.subrange(220, 224));
    lemma_roles_to_from_bytes(table, announced_max_dev(b) as nat);
    lemma_join(b, 100, 128);
    lemma_join(b, 128, 192);
    lemma_join(b, 192, 256);
    lemma_join(b, 256, b.len() as int);
    assert(b.subrange(0, b.len() as int) =~= b);
}

/// Decoding refuses, as an invalid format, every buffer that is shorter
/// than the fixed records, carries another magic number, or carries another
/// major version.
pub proof fn lemma_decode_rejects(b: Seq<u8>)
    requires
        b.len() < 256 || le_u32(b.subrange(0, 4)) != SUPERBLOCK_MAGIC || le_u32(b.subrange(4, 8))
            != MAJOR_VERSION,
    ensures
        !decodable(b),
        SuperblockView::decode(b) == Err::<SuperblockView, RaidError>(RaidError::FormatInvalid),
{
    if b.len() >= 256 {
        assert(b.subrange(0, 100).subrange(0, 4) =~= b.subrange(0, 4));
        assert(b.subrange(0, 100).subrange(4, 8) =~= b.subrange(4, 8));
    }
}

/// The name of a new array is read back as it was given: where host name,
/// colon and array name fit the name field and hold no zero byte, the field
/// up to its first zero byte is valid UTF-8 and spells `host:name`, with
/// none of the padding.
pub proof fn lemma_name_roundtrip(host: Seq<char>, name: Seq<char>)
    requires
        encode_utf8(host).len() + 1 + encode_utf8(name).len() <= NAME_FIELD_LEN,
        forall|i: int| 0 <= i < encode_utf8(host).len() ==> encode_utf8(host)[i] != 0,
        forall|i: int| 0 <= i < encode_utf8(name).len() ==> encode_utf8(name)[i] != 0,
    ensures
        ({
            let field = name_field(encode_utf8(array_name(host, name)));
            &&& field.len() == NAME_FIELD_LEN
            &&& valid_utf8(until_nul(field))
            &&& decode_utf8(until_nul(field)) == array_name(host, name)
        }),
{
    let colon = seq![':'];
    let text = encode_utf8(array_name(host, name));
    lemma_encode_utf8_concat(host + colon, name);
    lemma_encode_utf8_concat(host, colon);
    assert(is_ascii_chars(colon));
    is_ascii_chars_encode_utf8(colon);
    assert(encode_utf8(colon) =~= seq![0x3au8]);
    assert(text == encode_utf8(host) + seq![0x3au8] + encode_utf8(name));
    lemma_until_nul_of_name_field(text);
    encode_utf8_valid_utf8(array_name(host, name));
    encode_utf8_decode_utf8(array_name(host, name));
}

} // verus!
