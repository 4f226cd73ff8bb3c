//! Bytes as text: hexadecimal notation, and what the verified code assumes
//! of `String` and of `hex::encode`.

use vstd::prelude::*;

verus! {

/// `String::push` appends one character.
pub assume_specification[ String::push ](s: &mut String, c: char)
    ensures
        final(s)@ == old(s)@.push(c),
;

/// The lower-case hexadecimal digit for `nibble`.
pub open spec fn hex_digit(nibble: int) -> char
    recommends
        0 <= nibble < 16,
{
    if nibble < 10 {
        (nibble + 48) as char
    } else {
        (nibble + 87) as char
    }
}

/// `data` in lower-case hexadecimal notation: two digits for each byte, the
/// higher four bits first.
pub open spec fn hex_string(data: Seq<u8>) -> Seq<char> {
    Seq::new(
        2 * data.len(),
        |i: int|
            hex_digit(
                if i % 2 == 0 {
                    data[i / 2] as int / 16
                } else {
                    data[i / 2] as int % 16
                },
            ),
    )
}

/// The bytes of a text that holds ASCII characters only.
pub open spec fn ascii_bytes(text: Seq<char>) -> Seq<u8> {
    Seq::new(text.len(), |i: int| text[i] as u8)
}

/// Hexadecimal notation uses ASCII characters only.
pub proof fn lemma_hex_string_is_ascii(data: Seq<u8>)
    ensures
        vstd::utf8::is_ascii_chars(hex_string(data)),
{
}

/// Calls `hex::encode`, which writes each byte of `data` as two lower-case
/// hexadecimal digits.
#[verifier::external_body]
pub(crate) fn hex_encode(data: &[u8]) -> (s: String)
    ensures
        s@ == hex_string(data@),
{
    hex::encode(data)
}

} // verus!
