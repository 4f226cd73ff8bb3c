//! What the verified code assumes of `num_bigint::BigUint`.
//!
//! A `BigUint` is opaque to the verifier. Its contracts speak of the natural
//! number it holds, [`biguint_value`], and nothing here is proved: each item
//! states what the `num-bigint` crate does.

use vstd::prelude::*;

use num_bigint::BigUint;

verus! {

/// `num_bigint::BigUint`, known to the verifier by name only.
#[verifier::external_type_specification]
#[verifier::external_body]
pub struct ExBigUint(num_bigint::BigUint);

/// The natural number that a `BigUint` holds.
pub uninterp spec fn biguint_value(n: BigUint) -> nat;

/// The number whose big-endian base-256 digits are `bytes`. The empty
/// sequence stands for zero, and leading zero bytes do not change the value.
pub open spec fn be_value(bytes: Seq<u8>) -> nat
    decreases bytes.len(),
{
    if bytes.len() == 0 {
        0
    } else {
        be_value(bytes.drop_last()) * 256 + bytes.last() as nat
    }
}

/// The digits of `n` in base `radix`, most significant first, without
/// leading zeros. Zero has the single digit 0.
pub open spec fn digits_be(n: nat, radix: nat) -> Seq<u8>
    recommends
        2 <= radix <= 256,
    decreases n,
{
    if n < radix || radix < 2 {
        seq![n as u8]
    } else {
        proof {
            assert(n / radix < n) by (nonlinear_arith)
                requires
                    2 <= radix <= n,
            ;
        }
        digits_be(n / radix, radix).push((n % radix) as u8)
    }
}

/// `BigUint::from_bytes_be` reads `bytes` as a big-endian number.
pub assume_specification[ BigUint::from_bytes_be ](bytes: &[u8]) -> (n: BigUint)
    ensures
        biguint_value(n) == be_value(bytes@),
;

/// `BigUint::to_radix_be` returns the digits of the number in base `radix`,
/// most significant first, each as a number below `radix`. It panics
/// unless `radix` is between 2 and 256.
pub assume_specification[ BigUint::to_radix_be ](n: &BigUint, radix: u32) -> (digits: Vec<u8>)
    requires
        2 <= radix <= 256,
    ensures
        digits@ == digits_be(biguint_value(*n), radix as nat),
;

/// The product of two numbers, by `BigUint`'s `*`.
#[verifier::external_body]
pub(crate) fn biguint_mul(a: BigUint, b: BigUint) -> (product: BigUint)
    ensures
        biguint_value(product) == biguint_value(a) * biguint_value(b),
{
    a * b
}

/// The sum of two numbers, by `BigUint`'s `+`.
#[verifier::external_body]
pub(crate) fn biguint_add(a: BigUint, b: &BigUint) -> (sum: BigUint)
    ensures
        biguint_value(sum) == biguint_value(a) + biguint_value(*b),
{
    a + b
}

} // verus!
