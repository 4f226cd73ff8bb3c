//! Derivation keypaths and how they are written.

use vstd::prelude::*;
use vstd::string::StringExecFns;

use crate::ethereum::amount::{digit_chars, lemma_decimal_digits};
use crate::ethereum::bigint::digits_be;

verus! {

/// Added to an index of a keypath to mark it as hardened.
pub const HARDENED: u32 = 0x8000_0000;

/// `n` in decimal notation.
pub open spec fn decimal_text(n: nat) -> Seq<char> {
    digit_chars(digits_be(n, 10))
}

/// One element of a keypath: its index in decimal notation, followed by an
/// apostrophe if it is hardened.
pub open spec fn element_text(element: u32) -> Seq<char> {
    if element >= HARDENED {
        decimal_text((element - HARDENED) as nat) + seq!['\'']
    } else {
        decimal_text(element as nat)
    }
}

/// The elements of a keypath, with a slash between each two.
pub open spec fn elements_text(keypath: Seq<u32>) -> Seq<char>
    decreases keypath.len(),
{
    if keypath.len() == 0 {
        Seq::empty()
    } else if keypath.len() == 1 {
        element_text(keypath[0])
    } else {
        elements_text(keypath.drop_last()) + seq!['/'] + element_text(keypath.last())
    }
}

/// A keypath as text, such as `m/44'/60'/0'/0/0`.
pub open spec fn keypath_text(keypath: Seq<u32>) -> Seq<char> {
    "m/"@ + elements_text(keypath)
}

/// Appends `n` in decimal notation.
fn push_decimal(text: &mut String, n: u32)
    ensures
        final(text)@ == old(text)@ + decimal_text(n as nat),
    decreases n,
{
    proof {
        lemma_decimal_digits(n as nat);
    }
    if n >= 10 {
        push_decimal(text, n / 10);
    }
    text.push((48u8 + (n % 10) as u8) as char);
    assert(final(text)@ =~= old(text)@ + decimal_text(n as nat));
}

/// Appends one element of a keypath.
fn push_element(text: &mut String, element: u32)
    ensures
        final(text)@ == old(text)@ + element_text(element),
{
    if element >= HARDENED {
        push_decimal(text, element - HARDENED);
        text.push('\'');
        assert(final(text)@ =~= old(text)@ + element_text(element));
    } else {
        push_decimal(text, element);
    }
}

/// Writes a keypath as text: `m/`, then the elements with a slash between
/// each two, a hardened element with an apostrophe behind its index.
pub fn to_string(keypath: &[u32]) -> (text: String)
    ensures
        text@ == keypath_text(keypath@),
{
    let mut text = String::from_str("m/");
    let mut i: usize = 0;
    while i < keypath.len()
        invariant
            i <= keypath@.len(),
            text@ == "m/"@ + elements_text(keypath@.subrange(0, i as int)),
        decreases keypath@.len() - i,
    {
        let ghost before = keypath@.subrange(0, i as int);
        let ghost after = keypath@.subrange(0, i + 1);
        assert(after.drop_last() =~= before);
        assert(after.last() == keypath@[i as int]);
        if i > 0 {
            text.push('/');
        }
        push_element(&mut text, keypath[i]);
        i += 1;
        assert(text@ =~= "m/"@ + elements_text(after));
    }
    assert(keypath@.subrange(0, i as int) =~= keypath@);
    text
}

} // verus!
