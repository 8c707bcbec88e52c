//! Text in fixed-width fields: zero-padded on the way in, cut at the first
//! zero byte on the way out.

use vstd::prelude::*;
use vstd::string::StringSliceAdditionalSpecFns;
use vstd::utf8::*;

verus! {

/// Width of the array-name field in bytes.
pub const NAME_FIELD_LEN: usize = 32;

/// `n` zero bytes.
pub open spec fn zeros(n: nat) -> Seq<u8> {
    Seq::new(n, |i: int| 0u8)
}

/// The bytes of a field that come before its first zero byte: all of them
/// where it holds none.
pub open spec fn until_nul(field: Seq<u8>) -> Seq<u8>
    decreases field.len(),
{
    if field.len() == 0 || field[0] == 0 {
        Seq::empty()
    } else {
        seq![field[0]] + until_nul(field.drop_first())
    }
}

/// What the name field holds for a text: the text followed by zero bytes up
/// to the field's width, or zero bytes alone for a text that is wider than
/// the field.
pub open spec fn name_field(text: Seq<u8>) -> Seq<u8> {
    if text.len() <= NAME_FIELD_LEN {
        text + zeros((NAME_FIELD_LEN - text.len()) as nat)
    } else {
        zeros(NAME_FIELD_LEN as nat)
    }
}

/// `until_nul` is the prefix that ends before the first zero byte.
pub proof fn lemma_until_nul_is_prefix(field: Seq<u8>, n: int)
    requires
        0 <= n <= field.len(),
        forall|j: int| 0 <= j < n ==> field[j] != 0,
        n == field.len() || field[n] == 0,
    ensures
        until_nul(field) == field.subrange(0, n),
    decreases field.len(),
{
    if n == 0 {
        assert(until_nul(field) =~= field.subrange(0, n));
    } else {
        let rest = field.drop_first();
        assert forall|j: int| 0 <= j < n - 1 implies rest[j] != 0 by {
            assert(rest[j] == field[j + 1]);
        }
        lemma_until_nul_is_prefix(rest, n - 1);
        assert(seq![field[0]] + rest.subrange(0, n - 1) =~= field.subrange(0, n));
    }
}

/// A text without zero bytes that fits the name field is read back from it
/// unchanged.
pub proof fn lemma_until_nul_of_name_field(text: Seq<u8>)
    requires
        text.len() <= NAME_FIELD_LEN,
        forall|j: int| 0 <= j < text.len() ==> text[j] != 0,
    ensures
        name_field(text).len() == NAME_FIELD_LEN,
        until_nul(name_field(text)) == text,
{
    let field = name_field(text);
    lemma_until_nul_is_prefix(field, text.len() as int);
    assert(field.subrange(0, text.len() as int) =~= text);
}

/// The UTF-8 bytes of two texts joined are the bytes of the first followed by
/// the bytes of the second.
pub proof fn lemma_encode_utf8_concat(a: Seq<char>, b: Seq<char>)
    ensures
        encode_utf8(a + b) == encode_utf8(a) + encode_utf8(b),
    decreases a.len(),
{
    if a.len() == 0 {
        assert(a + b =~= b);
        assert(encode_utf8(a) + encode_utf8(b) =~= encode_utf8(b));
    } else {
        lemma_encode_utf8_concat(a.drop_first(), b);
        assert((a + b).drop_first() =~= a.drop_first() + b);
        assert((a + b)[0] == a[0]);
        assert(encode_utf8(a + b) =~= encode_utf8(a) + encode_utf8(b));
    }
}

/// The error with which `String::from_utf8` refuses bytes.
#[verifier::external_type_specification]
#[verifier::external_body]
pub struct ExFromUtf8Error(std::string::FromUtf8Error);

/// `String::from_utf8` succeeds exactly on valid UTF-8, and the string it
/// returns is made of the bytes it was given.
pub assume_specification[ String::from_utf8 ](bytes: Vec<u8>) -> (r: Result<
    String,
    std::string::FromUtf8Error,
>)
    ensures
        r is Ok <==> valid_utf8(bytes@),
        r matches Ok(s) ==> encode_utf8(s@) == bytes@,
;

/// Copies a text into a zeroed name field. A text wider than the field
/// leaves the field zeroed.
pub fn str_to_bytes(s: &str) -> (r: [u8; 32])
    ensures
        r@ == name_field(encode_utf8(s@)),
{
    let text = s.as_bytes();
    let mut field = [0u8; 32];
    if text.len() <= NAME_FIELD_LEN {
        let mut i: usize = 0;
        while i < text.len()
            invariant
                i <= text.len() <= NAME_FIELD_LEN,
                forall|j: int| 0 <= j < i ==> field@[j] == text@[j],
                forall|j: int| i <= j < 32 ==> field@[j] == 0,
            decreases text.len() - i,
        {
            field[i] = text[i];
            i = i + 1;
        }
    }
    assert(field@ =~= name_field(text@));
    field
}

/// Copies the bytes of a field that come before its first zero byte.
pub fn bytes_until_nul(field: &[u8]) -> (r: Vec<u8>)
    ensures
        r@ == until_nul(field@),
{
    let mut out: Vec<u8> = Vec::new();
    let mut i: usize = 0;
    while i < field.len() && field[i] != 0
        invariant
            i <= field.len(),
            out@ == field@.subrange(0, i as int),
            forall|j: int| 0 <= j < i ==> field@[j] != 0,
        decreases field.len() - i,
    {
        out.push(field[i]);
        i = i + 1;
        assert(out@ =~= field@.subrange(0, i as int));
    }
    proof {
        lemma_until_nul_is_prefix(field@, i as int);
    }
    out
}

} // verus!
