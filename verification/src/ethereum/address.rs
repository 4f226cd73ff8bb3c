//! The text of an address, with the checksum that mixed case carries.

use vstd::prelude::*;
use vstd::string::StringExecFns;

use sha3::{Digest, Keccak256};

use crate::text::{ascii_bytes, hex_encode, hex_string, lemma_hex_string_is_ascii};

verus! {

/// The Keccak-256 digest of `data`.
pub uninterp spec fn keccak256_digest(data: Seq<u8>) -> Seq<u8>;

/// Calls `sha3::Keccak256::digest`, which hashes `data` with Keccak-256. The
/// contract names the digest and says nothing of its bytes.
#[verifier::external_body]
pub(crate) fn keccak256(data: &[u8]) -> (digest: [u8; 32])
    ensures
        digest@ == keccak256_digest(data@),
{
    Keccak256::digest(data).into()
}

/// The four bits of `hash` that decide the case of the character at `i`:
/// the higher half of a byte for an even place, the lower half for an odd
/// one, and zero beyond the end of `hash`.
pub open spec fn hash_nibble(hash: Seq<u8>, i: int) -> int {
    if 0 <= i / 2 < hash.len() {
        if i % 2 == 0 {
            hash[i / 2] as int / 16
        } else {
            hash[i / 2] as int % 16
        }
    } else {
        0
    }
}

/// The character for the byte `b` of a hexadecimal text: a letter from `a`
/// to `f` becomes upper case where `nibble` is 8 or more, and everything
/// else stays.
pub open spec fn checksum_char(b: u8, nibble: int) -> char {
    if 97 <= b <= 102 && nibble >= 8 {
        (b - 32) as char
    } else {
        b as char
    }
}

/// `hex` with the case of its letters chosen by `hash`.
pub open spec fn checksummed(hex: Seq<u8>, hash: Seq<u8>) -> Seq<char> {
    Seq::new(hex.len(), |i: int| checksum_char(hex[i], hash_nibble(hash, i)))
}

/// The text of the address `recipient`: `0x`, then its hexadecimal digits,
/// the case of each letter chosen by the Keccak-256 digest of the lower-case
/// digits.
pub open spec fn address_text(recipient: Seq<u8>) -> Seq<char> {
    let hex = ascii_bytes(hex_string(recipient));
    "0x"@ + checksummed(hex, keccak256_digest(hex))
}

/// Writes `0x` and the hexadecimal text `hex`, turning to upper case each
/// letter whose four bits of `hash` are 8 or more.
pub fn with_checksum(hex: &[u8], hash: &[u8; 32]) -> (text: String)
    ensures
        text@ == "0x"@ + checksummed(hex@, hash@),
{
    let mut text = String::from_str("0x");
    let mut i: usize = 0;
    while i < hex.len()
        invariant
            i <= hex@.len(),
            text@ == "0x"@ + checksummed(hex@, hash@).subrange(0, i as int),
        decreases hex@.len() - i,
    {
        let b = hex[i];
        let nibble = if i / 2 < 32 {
            if i % 2 == 0 {
                hash[i / 2] / 16
            } else {
                hash[i / 2] % 16
            }
        } else {
            0
        };
        let c = if 97 <= b && b <= 102 && nibble >= 8 {
            (b - 32) as char
        } else {
            b as char
        };
        text.push(c);
        i += 1;
        assert(text@ =~= "0x"@ + checksummed(hex@, hash@).subrange(0, i as int));
    }
    assert(checksummed(hex@, hash@).subrange(0, i as int) =~= checksummed(hex@, hash@));
    text
}

/// The text that shows the address `recipient` to the user.
pub fn from_pubkey_hash(recipient: &[u8; 20]) -> (address: String)
    ensures
        address@ == address_text(recipient@),
{
    let hex = hex_encode(recipient.as_slice());
    let hex_str = hex.as_str();
    proof {
        lemma_hex_string_is_ascii(recipient@);
        vstd::string::is_ascii_spec_bytes(hex_str);
    }
    let hex_bytes = hex_str.as_bytes();
    assert(hex_bytes@ =~= ascii_bytes(hex_string(recipient@)));
    let hash = keccak256(hex_bytes);
    with_checksum(hex_bytes, &hash)
}

} // verus!
