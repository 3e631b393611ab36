//! Trusted interface to std's UTF-8 validation, stated over vstd's UTF-8
//! model, together with the facts about ASCII byte sequences that the rest of
//! the crate needs.

use vstd::prelude::*;
use vstd::utf8::{
    decode_utf8, encode_utf8, encode_utf8_decode_utf8, encode_utf8_valid_utf8, is_ascii_chars,
    is_ascii_chars_encode_utf8, valid_utf8,
};

verus! {

/// std's error for bytes that are not UTF-8, carried through opaquely.
#[verifier::external_type_specification]
#[verifier::external_body]
pub struct ExUtf8Error(std::str::Utf8Error);

/// Relies on std::str::from_utf8: it returns the string slice over exactly the
/// given bytes when they are valid UTF-8, and an error otherwise.
pub assume_specification[ std::str::from_utf8 ](v: &[u8]) -> (r: Result<
    &str,
    std::str::Utf8Error,
>)
    ensures
        match r {
            Ok(s) => valid_utf8(v@) && s@ == decode_utf8(v@),
            Err(_) => !valid_utf8(v@),
        },
;

/// A sequence of bytes that all stay below 0x80.
pub open spec fn all_ascii_bytes(bytes: Seq<u8>) -> bool {
    forall|i: int| 0 <= i < bytes.len() ==> bytes[i] < 0x80
}

/// The characters that a sequence of ASCII bytes spells.
pub open spec fn ascii_chars_of(bytes: Seq<u8>) -> Seq<char> {
    bytes.map_values(|b: u8| b as char)
}

/// A sequence of ASCII bytes is valid UTF-8 and decodes to one character per
/// byte.
pub proof fn lemma_ascii_bytes_decode(bytes: Seq<u8>)
    requires
        all_ascii_bytes(bytes),
    ensures
        valid_utf8(bytes),
        decode_utf8(bytes) == ascii_chars_of(bytes),
        is_ascii_chars(ascii_chars_of(bytes)),
{
    let chars = ascii_chars_of(bytes);
    assert forall|i: int| 0 <= i < chars.len() implies (chars[i] as nat) < 128 by {
        assert(bytes[i] < 0x80);
        vstd::utf8::char_u32_cast(chars[i], bytes[i] as u32);
    }
    assert(is_ascii_chars(chars));
    is_ascii_chars_encode_utf8(chars);
    assert(encode_utf8(chars) =~= bytes) by {
        assert forall|i: int| 0 <= i < chars.len() implies chars[i] as u8 == bytes[i] by {
            vstd::utf8::char_u32_cast(chars[i], bytes[i] as u32);
        }
    }
    encode_utf8_valid_utf8(chars);
    encode_utf8_decode_utf8(chars);
}

} // verus!
