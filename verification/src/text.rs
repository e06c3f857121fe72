//! Text conversions the packet layouts need.

use vstd::prelude::*;
use vstd::utf8::{decode_utf8, encode_utf8, valid_utf8};

verus! {

/// The text `String::from_utf8_lossy` makes of `bytes`.
pub uninterp spec fn utf8_lossy(bytes: Seq<u8>) -> Seq<char>;

/// `String::from_utf8_lossy(bytes).to_string()`.
/// Trusted: the result is named `utf8_lossy`; std documents that valid UTF-8 comes back
/// unchanged, so its encoding is the input then.
#[verifier::external_body]
pub(crate) fn utf8_lossy_string(bytes: &[u8]) -> (s: String)
    ensures
        s@ == utf8_lossy(bytes@),
        valid_utf8(bytes@) ==> encode_utf8(s@) == bytes@,
{
    String::from_utf8_lossy(bytes).to_string()
}

/// The text a byte field holds: its UTF-8 decoding when it is valid UTF-8, else what
/// `String::from_utf8_lossy` makes of it.
pub open spec fn text_of(bytes: Seq<u8>) -> Seq<char> {
    if valid_utf8(bytes) {
        decode_utf8(bytes)
    } else {
        utf8_lossy(bytes)
    }
}

/// The text of a byte field, invalid sequences replaced as `String::from_utf8_lossy` does.
pub fn lossy_text(bytes: &[u8]) -> (text: String)
    ensures
        text@ == text_of(bytes@),
{
    let text = utf8_lossy_string(bytes);
    proof {
        if valid_utf8(bytes@) {
            vstd::utf8::encode_utf8_decode_utf8(text@);
        }
    }
    text
}

/// A character `'\0'` is encoded as a zero byte.
proof fn lemma_nul_encodes_to_zero(chars: Seq<char>, i: int)
    requires
        0 <= i < chars.len(),
        chars[i] == '\0',
    ensures
        exists|j: int| 0 <= j < encode_utf8(chars).len() && encode_utf8(chars)[j] == 0,
    decreases chars.len(),
{
    let head = vstd::utf8::encode_scalar(chars[0] as u32);
    let tail = encode_utf8(chars.drop_first());
    assert(encode_utf8(chars) == head + tail);
    if i == 0 {
        assert((chars[0] as u32) == 0u32);
        assert(head =~= seq![0u8]) by {
            assert(vstd::utf8::has_width_1_encoding(0u32));
            assert(vstd::utf8::leading_byte_width_1(0u32) == 0u8) by (bit_vector);
        }
        assert(encode_utf8(chars)[0] == 0);
    } else {
        assert(chars.drop_first()[i - 1] == '\0');
        lemma_nul_encodes_to_zero(chars.drop_first(), i - 1);
        let j = choose|j: int| 0 <= j < tail.len() && tail[j] == 0;
        assert(encode_utf8(chars)[head.len() + j] == 0);
    }
}

/// The encoding of two texts one after the other is their encodings one after the other.
pub proof fn lemma_encode_utf8_concat(a: Seq<char>, b: Seq<char>)
    ensures
        encode_utf8(a + b) == encode_utf8(a) + encode_utf8(b),
    decreases a.len(),
{
    if a.len() == 0 {
        assert(a + b =~= b);
        assert(encode_utf8(a) =~= Seq::<u8>::empty());
        assert(encode_utf8(a) + encode_utf8(b) =~= encode_utf8(b));
    } else {
        lemma_encode_utf8_concat(a.drop_first(), b);
        assert((a + b).drop_first() =~= a.drop_first() + b);
        assert((a + b)[0] == a[0]);
        assert(encode_utf8(a + b) =~= encode_utf8(a) + encode_utf8(b));
    }
}

/// The character `'\0'` alone is encoded as one zero byte.
pub proof fn lemma_encode_nul()
    ensures
        encode_utf8("\0"@) == seq![0u8],
{
    reveal_strlit("\0");
    let c = "\0"@;
    assert(c.len() == 1 && c[0] == '\0');
    assert((c[0] as u32) == 0u32);
    assert(vstd::utf8::has_width_1_encoding(0u32));
    assert(vstd::utf8::leading_byte_width_1(0u32) == 0u8) by (bit_vector);
    assert(c.drop_first() =~= Seq::<char>::empty());
    assert(encode_utf8(c.drop_first()) =~= Seq::<u8>::empty());
    assert(encode_utf8(c) =~= seq![0u8]);
}

/// Valid UTF-8 without a zero byte decodes to a text without the character `'\0'`.
pub proof fn lemma_text_without_zero_has_no_nul(bytes: Seq<u8>)
    requires
        valid_utf8(bytes),
        forall|i: int| 0 <= i < bytes.len() ==> #[trigger] bytes[i] != 0,
    ensures
        forall|j: int| 0 <= j < text_of(bytes).len() ==> #[trigger] text_of(bytes)[j] != '\0',
{
    let chars = decode_utf8(bytes);
    vstd::utf8::decode_utf8_encode_utf8(bytes);
    assert forall|j: int| 0 <= j < chars.len() implies #[trigger] chars[j] != '\0' by {
        if chars[j] == '\0' {
            lemma_nul_encodes_to_zero(chars, j);
        }
    }
}

/// Whether `regex::Regex::new` accepts a pattern.
pub uninterp spec fn regex_compiles(pattern: Seq<char>) -> bool;

/// Whether the regular expression of `pattern` matches somewhere in `text`
/// (`regex::Regex::is_match`).
pub uninterp spec fn regex_is_match(pattern: Seq<char>, text: Seq<char>) -> bool;

/// Compiles a pattern with `regex::Regex::new` and tells whether it was accepted.
/// Trusted: the answer is named by `regex_compiles`, a function of the pattern alone.
#[verifier::external_body]
pub(crate) fn pattern_compiles(pattern: &str) -> (ok: bool)
    ensures
        ok == regex_compiles(pattern@),
{
    regex::Regex::new(pattern).is_ok()
}

/// Searches `text` with the regular expression of `pattern` (`regex::Regex::is_match`).
/// Trusted: the answer is named by `regex_is_match`, a function of pattern and text alone;
/// the pattern compiles, so `Regex::new` does not fail.
#[verifier::external_body]
pub(crate) fn pattern_matches(pattern: &str, text: &str) -> (found: bool)
    requires
        regex_compiles(pattern@),
    ensures
        found == regex_is_match(pattern@, text@),
{
    regex::Regex::new(pattern).unwrap().is_match(text)
}

} // verus!
