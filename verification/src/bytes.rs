//! Little-endian integer encodings, decimal and hexadecimal text.

use vstd::prelude::*;

verus! {

/// The ASCII character of a decimal digit.
pub open spec fn digit_char(d: nat) -> char {
    ((48 + d) as u8) as char
}

/// The decimal representation of `n`, most significant digit first, without leading zeros.
pub open spec fn decimal_chars(n: nat) -> Seq<char>
    decreases n,
{
    if n < 10 {
        seq![digit_char(n)]
    } else {
        decimal_chars(n / 10).push(digit_char(n % 10))
    }
}

/// Appends the decimal digits of `n` to a string.
fn push_decimal(text: &mut String, n: u64)
    ensures
        final(text)@ == old(text)@ + decimal_chars(n as nat),
    decreases n,
{
    if n >= 10 {
        push_decimal(text, n / 10);
    }
    let d: u8 = (n % 10) as u8;
    push_char(text, (48 + d) as char);
    assert(old(text)@ + decimal_chars(n as nat) =~= if n >= 10 {
        (old(text)@ + decimal_chars((n / 10) as nat)).push(digit_char((n % 10) as nat))
    } else {
        old(text)@.push(digit_char(n as nat))
    });
}

/// Formats an integer in decimal, most significant digit first, without leading zeros.
pub fn decimal_string(n: u64) -> (s: String)
    ensures
        s@ == decimal_chars(n as nat),
{
    let mut text = String::new();
    push_decimal(&mut text, n);
    assert(text@ =~= decimal_chars(n as nat));
    text
}

/// Little-endian encoding of the `n` lowest bytes of `v`.
pub open spec fn le_bytes(v: nat, n: nat) -> Seq<u8>
    decreases n,
{
    if n == 0 {
        Seq::empty()
    } else {
        seq![(v % 256) as u8] + le_bytes(v / 256, (n - 1) as nat)
    }
}

/// The value of a little-endian byte sequence.
pub open spec fn le_value(bytes: Seq<u8>) -> nat
    decreases bytes.len(),
{
    if bytes.len() == 0 {
        0
    } else {
        bytes[0] as nat + 256 * le_value(bytes.drop_first())
    }
}

/// Big-endian encoding of a 16-bit value.
pub open spec fn be16_bytes(v: u16) -> Seq<u8> {
    seq![(v / 256) as u8, (v % 256) as u8]
}

/// The powers of 256 the integer encodings use.
pub proof fn lemma_pow256_values()
    ensures
        vstd::arithmetic::power::pow(256, 0) == 1,
        vstd::arithmetic::power::pow(256, 1) == 256,
        vstd::arithmetic::power::pow(256, 2) == 65536,
        vstd::arithmetic::power::pow(256, 4) == 4294967296,
        vstd::arithmetic::power::pow(256, 8) == 18446744073709551616,
{
    vstd::arithmetic::power::lemma_pow0(256);
    vstd::arithmetic::power::lemma_pow1(256);
    vstd::arithmetic::power::lemma_pow_adds(256, 1, 1);
    assert(vstd::arithmetic::power::pow(256, 2) == 256 * 256);
    vstd::arithmetic::power::lemma_pow_adds(256, 2, 2);
    assert(vstd::arithmetic::power::pow(256, 4) == 65536 * 65536);
    vstd::arithmetic::power::lemma_pow_adds(256, 4, 4);
    assert(vstd::arithmetic::power::pow(256, 8) == 4294967296 * 4294967296);
}

pub proof fn lemma_le_bytes_len(v: nat, n: nat)
    ensures
        le_bytes(v, n).len() == n,
    decreases n,
{
    if n > 0 {
        lemma_le_bytes_len(v / 256, (n - 1) as nat);
    }
}

/// Reading back what `le_bytes` wrote gives the value modulo `256^n`.
pub proof fn lemma_le_value_of_le_bytes(v: nat, n: nat)
    ensures
        le_value(le_bytes(v, n)) == v % vstd::arithmetic::power::pow(256, n) as nat,
    decreases n,
{
    vstd::arithmetic::power::lemma_pow_positive(256, n);
    if n == 0 {
        assert(vstd::arithmetic::power::pow(256, 0) == 1) by {
            vstd::arithmetic::power::lemma_pow0(256);
        }
    } else {
        let p = vstd::arithmetic::power::pow(256, (n - 1) as nat);
        vstd::arithmetic::power::lemma_pow_positive(256, (n - 1) as nat);
        lemma_le_value_of_le_bytes(v / 256, (n - 1) as nat);
        let s = le_bytes(v, n);
        assert(s.drop_first() =~= le_bytes(v / 256, (n - 1) as nat));
        assert(vstd::arithmetic::power::pow(256, n) == 256 * p) by {
            vstd::arithmetic::power::lemma_pow_adds(256, 1, (n - 1) as nat);
            vstd::arithmetic::power::lemma_pow1(256);
        }
        vstd::arithmetic::div_mod::lemma_breakdown(v as int, 256, p);
    }
}

/// A little-endian value of `n` bytes is below `256^n`.
pub proof fn lemma_le_value_bound(bytes: Seq<u8>)
    ensures
        le_value(bytes) < vstd::arithmetic::power::pow(256, bytes.len()),
    decreases bytes.len(),
{
    if bytes.len() == 0 {
        vstd::arithmetic::power::lemma_pow0(256);
    } else {
        let rest = bytes.drop_first();
        lemma_le_value_bound(rest);
        let p = vstd::arithmetic::power::pow(256, rest.len());
        assert(vstd::arithmetic::power::pow(256, bytes.len()) == 256 * p) by {
            vstd::arithmetic::power::lemma_pow_adds(256, 1, rest.len());
            vstd::arithmetic::power::lemma_pow1(256);
        }
        assert(le_value(bytes) == bytes[0] as nat + 256 * le_value(rest));
        assert(le_value(bytes) < 256 * p) by (nonlinear_arith)
            requires
                le_value(bytes) == bytes[0] as nat + 256 * le_value(rest),
                bytes[0] < 256,
                le_value(rest) < p,
        ;
    }
}

/// A little-endian value is positive exactly when one of its bytes is not zero.
pub proof fn lemma_le_value_positive(bytes: Seq<u8>)
    ensures
        le_value(bytes) > 0 <==> exists|k: int| 0 <= k < bytes.len() && bytes[k] != 0,
    decreases bytes.len(),
{
    if bytes.len() > 0 {
        let rest = bytes.drop_first();
        lemma_le_value_positive(rest);
        if le_value(rest) > 0 {
            let k = choose|k: int| 0 <= k < rest.len() && rest[k] != 0;
            assert(bytes[k + 1] != 0);
        }
        if exists|k: int| 0 <= k < bytes.len() && bytes[k] != 0 {
            let k = choose|k: int| 0 <= k < bytes.len() && bytes[k] != 0;
            if k > 0 {
                assert(rest[k - 1] != 0);
            }
        }
    }
}

/// Whether a byte is not zero somewhere in `bytes`.
pub fn any_nonzero(bytes: &[u8]) -> (found: bool)
    ensures
        found == (le_value(bytes@) > 0),
{
    proof {
        lemma_le_value_positive(bytes@);
    }
    let mut k: usize = 0;
    while k < bytes.len()
        invariant
            k <= bytes@.len(),
            forall|m: int| 0 <= m < k ==> bytes@[m] == 0,
        decreases bytes@.len() - k,
    {
        if bytes[k] != 0 {
            proof {
                lemma_le_value_positive(bytes@);
            }
            return true;
        }
        k = k + 1;
    }
    false
}

pub fn u16_le(v: u16) -> (r: Vec<u8>)
    ensures
        r@ == le_bytes(v as nat, 2),
{
    let mut r: Vec<u8> = Vec::new();
    r.push((v % 256) as u8);
    r.push((v / 256) as u8);
    assert(r@ =~= le_bytes(v as nat, 2)) by {
        reveal_with_fuel(le_bytes, 3);
    }
    r
}

pub fn u16_be(v: u16) -> (r: Vec<u8>)
    ensures
        r@ == be16_bytes(v),
{
    let mut r: Vec<u8> = Vec::new();
    r.push((v / 256) as u8);
    r.push((v % 256) as u8);
    assert(r@ =~= be16_bytes(v));
    r
}

pub fn u32_le(v: u32) -> (r: Vec<u8>)
    ensures
        r@ == le_bytes(v as nat, 4),
{
    let mut r: Vec<u8> = Vec::new();
    r.push((v % 256) as u8);
    r.push(((v / 256) % 256) as u8);
    r.push(((v / 65536) % 256) as u8);
    r.push((v / 16777216) as u8);
    proof {
        reveal_with_fuel(le_bytes, 5);
        assert((v as nat / 256) / 256 == v as nat / 65536);
        assert(((v as nat / 256) / 256) / 256 == v as nat / 16777216);
    }
    assert(r@ =~= le_bytes(v as nat, 4));
    r
}

pub fn u64_le(v: u64) -> (r: Vec<u8>)
    ensures
        r@ == le_bytes(v as nat, 8),
    decreases 0nat,
{
    let mut r: Vec<u8> = Vec::new();
    let mut rest: u64 = v;
    let mut i: usize = 0;
    while i < 8
        invariant
            i <= 8,
            r@ + le_bytes(rest as nat, (8 - i) as nat) == le_bytes(v as nat, 8),
        decreases 8 - i,
    {
        proof {
            reveal_with_fuel(le_bytes, 2);
        }
        let ghost before = r@;
        r.push((rest % 256) as u8);
        assert(le_bytes(rest as nat, (8 - i) as nat) =~= seq![(rest % 256) as u8] + le_bytes(
            (rest / 256) as nat,
            (8 - i - 1) as nat,
        ));
        assert(before + le_bytes(rest as nat, (8 - i) as nat) =~= r@ + le_bytes(
            (rest / 256) as nat,
            (8 - i - 1) as nat,
        ));
        rest = rest / 256;
        i = i + 1;
    }
    assert(le_bytes(rest as nat, 0) =~= Seq::<u8>::empty());
    assert(r@ =~= le_bytes(v as nat, 8));
    r
}

/// Appends the bytes of `src` to `dst`.
pub fn extend_bytes(dst: &mut Vec<u8>, src: &[u8])
    ensures
        final(dst)@ == old(dst)@ + src@,
{
    let mut i: usize = 0;
    while i < src.len()
        invariant
            i <= src@.len(),
            dst@ == old(dst)@ + src@.subrange(0, i as int),
        decreases src@.len() - i,
    {
        dst.push(src[i]);
        i = i + 1;
        assert(dst@ =~= old(dst)@ + src@.subrange(0, i as int));
    }
    assert(src@.subrange(0, src@.len() as int) =~= src@);
}

/// Lowercase hexadecimal digit of a nibble.
pub open spec fn hex_digit(d: nat) -> char {
    if d < 10 {
        ((48 + d) as u8) as char
    } else {
        ((87 + d) as u8) as char
    }
}

/// Lowercase hexadecimal text of a byte sequence, two digits per byte.
pub open spec fn hex_chars(bytes: Seq<u8>) -> Seq<char>
    decreases bytes.len(),
{
    if bytes.len() == 0 {
        Seq::empty()
    } else {
        seq![hex_digit(bytes[0] as nat / 16), hex_digit(bytes[0] as nat % 16)] + hex_chars(
            bytes.drop_first(),
        )
    }
}

/// The character of a nibble.
fn hex_digit_char(d: u8) -> (c: char)
    requires
        d < 16,
    ensures
        c == hex_digit(d as nat),
{
    if d < 10 {
        ((48 + d) as u8) as char
    } else {
        ((87 + d) as u8) as char
    }
}

/// Appends a character to a string with `String::push`.
/// Trusted: std documents `push` as appending the character at the end.
#[verifier::external_body]
pub(crate) fn push_char(text: &mut String, c: char)
    ensures
        final(text)@ == old(text)@.push(c),
{
    text.push(c);
}

/// Appending a byte appends its two digits.
pub proof fn lemma_hex_chars_push(bytes: Seq<u8>, b: u8)
    ensures
        hex_chars(bytes.push(b)) == hex_chars(bytes) + seq![
            hex_digit(b as nat / 16),
            hex_digit(b as nat % 16),
        ],
    decreases bytes.len(),
{
    if bytes.len() == 0 {
        assert(bytes.push(b).drop_first() =~= Seq::<u8>::empty());
        assert(hex_chars(Seq::<u8>::empty()) =~= Seq::<char>::empty());
    } else {
        lemma_hex_chars_push(bytes.drop_first(), b);
        assert(bytes.push(b).drop_first() =~= bytes.drop_first().push(b));
    }
}

/// Lowercase hexadecimal text of `bytes`, two digits per byte and no separator.
pub fn encode_hex(bytes: &[u8]) -> (text: String)
    ensures
        text@ == hex_chars(bytes@),
{
    let mut text = String::new();
    let mut i: usize = 0;
    while i < bytes.len()
        invariant
            i <= bytes@.len(),
            text@ == hex_chars(bytes@.take(i as int)),
        decreases bytes@.len() - i,
    {
        let b = bytes[i];
        let hi = hex_digit_char(b / 16);
        let lo = hex_digit_char(b % 16);
        push_char(&mut text, hi);
        push_char(&mut text, lo);
        proof {
            lemma_hex_chars_push(bytes@.take(i as int), b);
            assert(bytes@.take(i as int).push(b) =~= bytes@.take(i as int + 1));
        }
        i = i + 1;
    }
    assert(bytes@.take(bytes@.len() as int) =~= bytes@);
    text
}

} // verus!
