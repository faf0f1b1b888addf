use vstd::prelude::*;

use vstd::utf8::encode_utf8;

use crate::error::CoreError;

verus! {

/// The lowercase hexadecimal digit of a value below 16.
pub open spec fn hex_digit(v: u8) -> char {
    if v < 10 {
        (v + 48) as char
    } else {
        (v + 87) as char
    }
}

/// Lowercase hexadecimal text of a byte sequence: two digits per byte, high
/// nibble first.
pub open spec fn lower_hex(b: Seq<u8>) -> Seq<char> {
    Seq::new(
        2 * b.len(),
        |i: int|
            if i % 2 == 0 {
                hex_digit(b[i / 2] / 16)
            } else {
                hex_digit(b[i / 2] % 16)
            },
    )
}

/// An ASCII byte that is one of `0-9` or `a-f`.
pub open spec fn is_lower_hex_byte(c: u8) -> bool {
    (48 <= c <= 57) || (97 <= c <= 102)
}

/// The value of a lowercase hexadecimal digit byte.
pub open spec fn nibble(c: u8) -> u8 {
    if c <= 57 {
        (c - 48) as u8
    } else {
        (c - 87) as u8
    }
}

/// Text that decodes as lowercase hexadecimal: an even number of digits.
pub open spec fn is_lower_hex(s: Seq<u8>) -> bool {
    &&& s.len() % 2 == 0
    &&& forall|i: int| 0 <= i < s.len() ==> is_lower_hex_byte(#[trigger] s[i])
}

/// The bytes that lowercase hexadecimal text stands for.
pub open spec fn hex_decoded(s: Seq<u8>) -> Seq<u8> {
    Seq::new(s.len() / 2, |i: int| (nibble(s[2 * i]) * 16 + nibble(s[2 * i + 1])) as u8)
}

/// Relies on the length of a slice: std documents that a slice never spans
/// more than `isize::MAX` bytes.
#[verifier::external_body]
fn slice_len(b: &[u8]) -> (r: usize)
    ensures
        r == b@.len(),
        r <= isize::MAX,
{
    b.len()
}

/// Relies on base16ct::lower::encode_string: two lowercase digits per byte,
/// high nibble first; it panics only beyond `usize::MAX / 2` bytes.
#[verifier::external_body]
fn encode_lower_hex(b: &[u8]) -> (r: String)
    requires
        b@.len() <= usize::MAX / 2,
    ensures
        r@ == lower_hex(b@),
{
    base16ct::lower::encode_string(b)
}

#[verifier::external_type_specification]
#[verifier::external_body]
pub struct ExHexError(base16ct::Error);

/// Relies on base16ct::lower::decode_vec: it accepts an even number of bytes
/// from `0-9` and `a-f` only, and decodes each pair high nibble first.
#[verifier::external_body]
fn decode_lower_hex(s: &[u8]) -> (r: Result<Vec<u8>, base16ct::Error>)
    ensures
        r is Ok <==> is_lower_hex(s@),
        r matches Ok(v) ==> v@ == hex_decoded(s@),
{
    base16ct::lower::decode_vec(s)
}

/// Lowercase hexadecimal text of `bytes`.
pub fn to_hex(bytes: &[u8]) -> (r: String)
    ensures
        r@ == lower_hex(bytes@),
{
    let len: usize = slice_len(bytes);
    assert(len <= usize::MAX / 2);
    encode_lower_hex(bytes)
}

/// Decodes lowercase hexadecimal text; anything else is `InvalidHexEncoding`.
pub fn from_hex(text: &str) -> (r: Result<Vec<u8>, CoreError>)
    ensures
        r is Ok <==> is_lower_hex(encode_utf8(text@)),
        r is Err ==> r == Err::<Vec<u8>, CoreError>(CoreError::InvalidHexEncoding),
        r matches Ok(v) ==> v@ == hex_decoded(encode_utf8(text@)),
{
    match decode_lower_hex(text.as_bytes()) {
        Ok(v) => Ok(v),
        Err(_) => Err(CoreError::InvalidHexEncoding),
    }
}

} // verus!
