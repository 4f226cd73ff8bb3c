//! Amounts of coins and tokens, and the text that shows them to the user.

use vstd::prelude::*;

use num_bigint::BigUint;

use crate::ethereum::bigint::{biguint_value, digits_be};
use vstd::string::StringExecFns;

verus! {

/// An amount of `value` smallest units, of which `10^decimals` make one
/// `unit`.
pub struct Amount<'a> {
    pub unit: &'a str,
    pub decimals: usize,
    pub value: BigUint,
}

/// `10^e`.
pub open spec fn pow10(e: nat) -> nat
    decreases e,
{
    if e == 0 {
        1
    } else {
        10 * pow10((e - 1) as nat)
    }
}

/// The character that shows the decimal digit `d`.
pub open spec fn digit_char(d: u8) -> char
    recommends
        d < 10,
{
    (d + 48) as char
}

/// The characters that show the decimal digits `digits`.
pub open spec fn digit_chars(digits: Seq<u8>) -> Seq<char> {
    digits.map_values(|d: u8| digit_char(d))
}

/// The `decimals` lowest decimal digits of `r`, most significant first, with
/// zeros in front where `r` has fewer digits.
pub open spec fn fraction_digits(r: nat, decimals: nat) -> Seq<u8>
    decreases decimals,
{
    if decimals == 0 {
        Seq::empty()
    } else {
        fraction_digits(r / 10, (decimals - 1) as nat).push((r % 10) as u8)
    }
}

/// `digits` without the zeros at its end.
pub open spec fn trim_trailing_zeros(digits: Seq<u8>) -> Seq<u8>
    decreases digits.len(),
{
    if digits.len() > 0 && digits.last() == 0 {
        trim_trailing_zeros(digits.drop_last())
    } else {
        digits
    }
}

/// `value / 10^decimals` in decimal notation: the integer part, then, unless
/// the fraction is zero, a point and the fraction without trailing zeros.
pub open spec fn format_decimal(value: nat, decimals: nat) -> Seq<char> {
    let integer = digits_be(value / pow10(decimals), 10);
    let fraction = trim_trailing_zeros(fraction_digits(value % pow10(decimals), decimals));
    if fraction.len() == 0 {
        digit_chars(integer)
    } else {
        digit_chars(integer) + seq!['.'] + digit_chars(fraction)
    }
}

/// The text of an amount: the number, a space, the unit.
pub open spec fn format_amount(value: nat, decimals: nat, unit: Seq<char>) -> Seq<char> {
    format_decimal(value, decimals) + seq![' '] + unit
}

/// `k` zero digits.
pub open spec fn zeros(k: nat) -> Seq<u8> {
    Seq::new(k, |i: int| 0u8)
}

/// The digits before the point, cut from `digits`, the decimal digits of the
/// whole value.
pub open spec fn integer_of_digits(digits: Seq<u8>, decimals: nat) -> Seq<u8> {
    if digits.len() > decimals {
        digits.subrange(0, digits.len() - decimals)
    } else {
        seq![0u8]
    }
}

/// The `decimals` digits after the point, cut from `digits`, the decimal
/// digits of the whole value.
pub open spec fn fraction_of_digits(digits: Seq<u8>, decimals: nat) -> Seq<u8> {
    if digits.len() > decimals {
        digits.subrange(digits.len() - decimals, digits.len() as int)
    } else {
        zeros((decimals - digits.len()) as nat) + digits
    }
}

/// A number has at least one decimal digit, and each is below ten.
pub proof fn lemma_decimal_digits(n: nat)
    ensures
        digits_be(n, 10).len() >= 1,
        forall|i: int| 0 <= i < digits_be(n, 10).len() ==> #[trigger] digits_be(n, 10)[i] < 10,
    decreases n,
{
    if n >= 10 {
        lemma_decimal_digits(n / 10);
    }
}

/// `10^e` is positive.
pub proof fn lemma_pow10_positive(e: nat)
    ensures
        pow10(e) > 0,
    decreases e,
{
    if e > 0 {
        lemma_pow10_positive((e - 1) as nat);
    }
}

/// Dividing by `10^decimals` cuts the decimal digits of `value` in two: the
/// quotient has the digits in front, the remainder the last `decimals`.
pub proof fn lemma_split_digits(value: nat, decimals: nat)
    ensures
        digits_be(value / pow10(decimals), 10) == integer_of_digits(
            digits_be(value, 10),
            decimals,
        ),
        fraction_digits(value % pow10(decimals), decimals) == fraction_of_digits(
            digits_be(value, 10),
            decimals,
        ),
    decreases decimals,
{
    let s = digits_be(value, 10);
    lemma_decimal_digits(value);
    if decimals == 0 {
        assert(pow10(0) == 1);
        assert(integer_of_digits(s, 0) =~= s);
        assert(fraction_of_digits(s, 0) =~= Seq::<u8>::empty());
    } else {
        let d = (decimals - 1) as nat;
        let p = pow10(d);
        let rest = value / 10;
        let s1 = digits_be(rest, 10);
        lemma_pow10_positive(d);
        lemma_decimal_digits(rest);
        lemma_split_digits(rest, d);
        assert(pow10(decimals) == 10 * p);
        vstd::arithmetic::div_mod::lemma_div_denominator(value as int, 10, p as int);
        vstd::arithmetic::div_mod::lemma_breakdown(value as int, 10, p as int);
        let r = value % pow10(decimals);
        assert(r == 10 * (rest % p) + value % 10);
        assert(r / 10 == rest % p);
        assert(r % 10 == value % 10);
        assert(value / pow10(decimals) == rest / p);
        assert(fraction_digits(r, decimals) == fraction_digits(rest % p, d).push(
            (value % 10) as u8,
        ));
        if value >= 10 {
            assert(s == s1.push((value % 10) as u8));
            assert(integer_of_digits(s, decimals) =~= integer_of_digits(s1, d));
            assert(fraction_of_digits(s, decimals) =~= fraction_of_digits(s1, d).push(
                (value % 10) as u8,
            ));
        } else {
            assert(rest == 0);
            assert(s1 =~= seq![0u8]);
            assert(s =~= seq![value as u8]);
            assert(fraction_of_digits(s1, d) =~= zeros(d));
            assert(fraction_of_digits(s, decimals) =~= zeros(d).push(value as u8));
        }
    }
}

/// Trimming keeps the digits up to the last one that is not zero.
pub proof fn lemma_trim_trailing_zeros(digits: Seq<u8>, keep: int)
    requires
        0 <= keep <= digits.len(),
        forall|j: int| keep <= j < digits.len() ==> digits[j] == 0,
        keep == 0 || digits[keep - 1] != 0,
    ensures
        trim_trailing_zeros(digits) == digits.subrange(0, keep),
    decreases digits.len() - keep,
{
    if keep == digits.len() {
        assert(digits.subrange(0, keep) =~= digits);
    } else {
        lemma_trim_trailing_zeros(digits.drop_last(), keep);
        assert(digits.drop_last().subrange(0, keep) =~= digits.subrange(0, keep));
    }
}

/// The character of one decimal digit.
fn digit_to_char(d: u8) -> (c: char)
    requires
        d < 10,
    ensures
        c == digit_char(d),
{
    (48u8 + d) as char
}

/// The digit at place `j` after the point.
fn fraction_digit(digits: &Vec<u8>, decimals: usize, j: usize) -> (digit: u8)
    requires
        j < decimals,
    ensures
        digit == fraction_of_digits(digits@, decimals as nat)[j as int],
{
    let n = digits.len();
    if n > decimals {
        digits[n - decimals + j]
    } else if j < decimals - n {
        0
    } else {
        digits[j - (decimals - n)]
    }
}

impl<'a> Amount<'a> {
    /// The text that `format` returns.
    pub open spec fn text(&self) -> Seq<char> {
        format_amount(biguint_value(self.value), self.decimals as nat, self.unit@)
    }

    /// Formats the amount with the right number of decimal places, followed
    /// by a space and the unit.
    pub fn format(&self) -> (s: String)
        ensures
            s@ == self.text(),
    {
        let digits = self.value.to_radix_be(10);
        let n = digits.len();
        let decimals = self.decimals;
        let ghost value = biguint_value(self.value);
        let ghost integer = integer_of_digits(digits@, decimals as nat);
        let ghost fraction = fraction_of_digits(digits@, decimals as nat);
        proof {
            lemma_decimal_digits(value);
            lemma_split_digits(value, decimals as nat);
        }
        let mut out = String::new();
        if n > decimals {
            let k = n - decimals;
            let mut i: usize = 0;
            while i < k
                invariant
                    i <= k == n - decimals,
                    n == digits@.len(),
                    forall|j: int| 0 <= j < n ==> #[trigger] digits@[j] < 10,
                    out@ == digit_chars(digits@.subrange(0, i as int)),
                decreases k - i,
            {
                out.push(digit_to_char(digits[i]));
                i += 1;
                assert(out@ =~= digit_chars(digits@.subrange(0, i as int)));
            }
        } else {
            out.push('0');
            assert(out@ =~= digit_chars(seq![0u8]));
        }
        assert(out@ == digit_chars(integer));
        let mut keep = decimals;
        while keep > 0 && fraction_digit(&digits, decimals, keep - 1) == 0
            invariant
                keep <= decimals,
                forall|j: int| keep <= j < decimals ==> fraction[j] == 0,
                fraction == fraction_of_digits(digits@, decimals as nat),
            decreases keep,
        {
            keep -= 1;
        }
        proof {
            assert(fraction.len() == decimals);
            lemma_trim_trailing_zeros(fraction, keep as int);
        }
        let ghost trimmed = fraction.subrange(0, keep as int);
        if keep > 0 {
            out.push('.');
            let mut j: usize = 0;
            while j < keep
                invariant
                    j <= keep <= decimals,
                    n == digits@.len(),
                    forall|i: int| 0 <= i < n ==> #[trigger] digits@[i] < 10,
                    fraction == fraction_of_digits(digits@, decimals as nat),
                    out@ == digit_chars(integer) + seq!['.'] + digit_chars(
                        fraction.subrange(0, j as int),
                    ),
                decreases keep - j,
            {
                let digit = fraction_digit(&digits, decimals, j);
                out.push(digit_to_char(digit));
                j += 1;
                assert(out@ =~= digit_chars(integer) + seq!['.'] + digit_chars(
                    fraction.subrange(0, j as int),
                ));
            }
        }
        assert(out@ == format_decimal(value, decimals as nat));
        out.push(' ');
        out.append(self.unit);
        out
    }
}

} // verus!
