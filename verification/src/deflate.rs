//! The one outside computation the protocol needs: raw DEFLATE compression.

use vstd::prelude::*;
use flate2::write::DeflateEncoder;
use flate2::Compression;
use std::io::Write;

verus! {

/// The raw DEFLATE stream that maximum-level compression produces from the
/// given bytes. The stream's exact shape is the compressor's business; the
/// contracts here only carry it, measure it, and promise that it is a
/// function of the input bytes alone.
pub uninterp spec fn deflate_of(bytes: Seq<u8>) -> Seq<u8>;

/// Relies on flate2's `DeflateEncoder` at `Compression::best()` over a
/// `Vec<u8>` sink: it emits a raw DEFLATE stream (no zlib or gzip wrapper)
/// determined by the input bytes and the fixed level alone, and writing into
/// a `Vec` never fails.
#[verifier::external_body]
pub(crate) fn deflate_best(body: &[u8]) -> (r: Vec<u8>)
    ensures
        r@ == deflate_of(body@),
{
    let mut encoder = DeflateEncoder::new(Vec::new(), Compression::best());
    encoder.write_all(body).unwrap();
    encoder.finish().unwrap()
}

} // verus!
