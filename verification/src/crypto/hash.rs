//! SHA-1 and HMAC-SHA1, computed by the `sha-1` and `hmac-sha` crates.

use vstd::prelude::*;

use hmacsha::HmacSha;
use sha1::{Digest, Sha1};

verus! {

/// HMAC-SHA1 of `message` under `key`, as the `hmac-sha` crate computes it.
pub uninterp spec fn hmac_sha1(key: Seq<u8>, message: Seq<u8>) -> Seq<u8>;

/// Calls `hmacsha::HmacSha::new(key, message, Sha1::default()).compute_digest()`.
/// Trusted: the result is the HMAC-SHA1 of the arguments (named `hmac_sha1`) and, as
/// for every HMAC over SHA-1, 20 bytes long.
#[verifier::external_body]
pub(crate) fn hmac_sha1_digest(key: &[u8], message: &[u8]) -> (mac: Vec<u8>)
    ensures
        mac@ == hmac_sha1(key@, message@),
        mac@.len() == 20,
{
    HmacSha::new(key, message, Sha1::default()).compute_digest().to_vec()
}

/// SHA-1 of `data`, as the `sha-1` crate computes it.
pub uninterp spec fn sha1(data: Seq<u8>) -> Seq<u8>;

/// Calls `Sha1::new().chain(data).finalize()`.
/// Trusted: the result is the SHA-1 digest of `data` (named `sha1`), which is 20 bytes long.
#[verifier::external_body]
pub(crate) fn sha1_digest(data: &[u8]) -> (digest: Vec<u8>)
    ensures
        digest@ == sha1(data@),
        digest@.len() == 20,
{
    Sha1::new().chain(data).finalize().to_vec()
}

} // verus!
