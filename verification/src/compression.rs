//! Zlib compression, done by the `flate2` crate.

use vstd::prelude::*;

use std::io::Write;

verus! {

/// The zlib stream `flate2` writes for `data` at the best compression level, or `None`
/// where it reports an error. The encoder writes into a `Vec`, which takes every write,
/// so the outcome depends on the data alone.
pub uninterp spec fn zlib_best(data: Seq<u8>) -> Option<Seq<u8>>;

/// Compresses `data` with `flate2::write::ZlibEncoder` at `Compression::best()`.
/// Trusted: the outcome is named by `zlib_best`, a function of the data alone (the output
/// is a `Vec`, so no write of it fails); when an error comes is not stated.
#[verifier::external_body]
pub(crate) fn zlib_compress_best(data: &[u8]) -> (compressed: Result<Vec<u8>, std::io::Error>)
    ensures
        match zlib_best(data@) {
            Some(c) => compressed matches Ok(v) && v@ == c,
            None => compressed is Err,
        },
{
    let mut encoder = flate2::write::ZlibEncoder::new(Vec::new(), flate2::Compression::best());
    encoder.write_all(data)?;
    encoder.finish()
}

} // verus!
