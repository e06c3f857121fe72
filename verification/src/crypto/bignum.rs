//! Signed arbitrary-precision integers held as a sign and little-endian magnitude
//! bytes; the arithmetic itself is done by `num-bigint`.

use vstd::prelude::*;
use vstd::arithmetic::power::pow;

use num_bigint::{BigInt, Sign};

use crate::bytes::le_value;

verus! {

/// The bytes `num_bigint::BigUint::to_bytes_le` gives for `n`: least significant first,
/// without trailing zero bytes, and a single zero byte for zero.
pub open spec fn nat_to_le(n: nat) -> Seq<u8>
    decreases n,
{
    if n < 256 {
        seq![n as u8]
    } else {
        seq![(n % 256) as u8] + nat_to_le(n / 256)
    }
}

pub open spec fn abs(v: int) -> nat {
    if v < 0 {
        (-v) as nat
    } else {
        v as nat
    }
}

/// A signed integer: its sign and the little-endian bytes of its absolute value.
pub struct BigNum {
    pub negative: bool,
    pub magnitude: Vec<u8>,
}

impl BigNum {
    pub open spec fn value(&self) -> int {
        if self.negative {
            -(le_value(self.magnitude@) as int)
        } else {
            le_value(self.magnitude@) as int
        }
    }

    /// The canonical form `num-bigint` produces: minimal magnitude, and no negative zero.
    pub open spec fn wf(&self) -> bool {
        &&& self.magnitude@ == nat_to_le(abs(self.value()))
        &&& self.negative ==> self.value() < 0
    }
}

/// Reads `bytes` as an unsigned little-endian integer (`BigInt::from_bytes_le(Sign::Plus, ..)`).
/// Trusted: the value is that of the bytes, and `to_bytes_le` gives the canonical form.
#[verifier::external_body]
pub(crate) fn bignum_from_le(bytes: &[u8]) -> (n: BigNum)
    ensures
        n.wf(),
        n.value() == le_value(bytes@),
{
    let (sign, magnitude) = BigInt::from_bytes_le(Sign::Plus, bytes).to_bytes_le();
    BigNum { negative: sign == Sign::Minus, magnitude }
}

/// `a + b` on `BigInt`.
/// Trusted: `num-bigint` adds exactly and `to_bytes_le` gives the canonical form.
#[verifier::external_body]
pub(crate) fn bignum_add(a: &BigNum, b: &BigNum) -> (sum: BigNum)
    ensures
        sum.wf(),
        sum.value() == a.value() + b.value(),
{
    let x = BigInt::from_bytes_le(if a.negative { Sign::Minus } else { Sign::Plus }, &a.magnitude);
    let y = BigInt::from_bytes_le(if b.negative { Sign::Minus } else { Sign::Plus }, &b.magnitude);
    let (sign, magnitude) = (x + y).to_bytes_le();
    BigNum { negative: sign == Sign::Minus, magnitude }
}

/// `a - b` on `BigInt`.
/// Trusted: `num-bigint` subtracts exactly and `to_bytes_le` gives the canonical form.
#[verifier::external_body]
pub(crate) fn bignum_sub(a: &BigNum, b: &BigNum) -> (difference: BigNum)
    ensures
        difference.wf(),
        difference.value() == a.value() - b.value(),
{
    let x = BigInt::from_bytes_le(if a.negative { Sign::Minus } else { Sign::Plus }, &a.magnitude);
    let y = BigInt::from_bytes_le(if b.negative { Sign::Minus } else { Sign::Plus }, &b.magnitude);
    let (sign, magnitude) = (x - y).to_bytes_le();
    BigNum { negative: sign == Sign::Minus, magnitude }
}

/// `a * b` on `BigInt`.
/// Trusted: `num-bigint` multiplies exactly and `to_bytes_le` gives the canonical form.
#[verifier::external_body]
pub(crate) fn bignum_mul(a: &BigNum, b: &BigNum) -> (product: BigNum)
    ensures
        product.wf(),
        product.value() == a.value() * b.value(),
{
    let x = BigInt::from_bytes_le(if a.negative { Sign::Minus } else { Sign::Plus }, &a.magnitude);
    let y = BigInt::from_bytes_le(if b.negative { Sign::Minus } else { Sign::Plus }, &b.magnitude);
    let (sign, magnitude) = (x * y).to_bytes_le();
    BigNum { negative: sign == Sign::Minus, magnitude }
}

/// `BigInt::modpow(base, exponent, modulus)`.
/// Trusted: for a positive modulus `num-bigint` returns `base^exponent` reduced into
/// `[0, modulus)` (it panics on a negative exponent or a zero modulus, which `requires`
/// leaves out), and `to_bytes_le` gives the canonical form.
#[verifier::external_body]
pub(crate) fn bignum_modpow(base: &BigNum, exponent: &BigNum, modulus: &BigNum) -> (r: BigNum)
    requires
        exponent.value() >= 0,
        modulus.value() > 0,
    ensures
        r.wf(),
        r.value() == pow(base.value(), exponent.value() as nat) % modulus.value(),
{
    let x = BigInt::from_bytes_le(if base.negative { Sign::Minus } else { Sign::Plus }, &base.magnitude);
    let e = BigInt::from_bytes_le(Sign::Plus, &exponent.magnitude);
    let m = BigInt::from_bytes_le(Sign::Plus, &modulus.magnitude);
    let (sign, magnitude) = x.modpow(&e, &m).to_bytes_le();
    BigNum { negative: sign == Sign::Minus, magnitude }
}

} // verus!
