//! Gzip encoding of payloads, through the `flate2` crate.

use vstd::prelude::*;
use std::io::Write;
use flate2::write::GzEncoder;
use crate::error::AnkiError;

verus! {

/// A gzip stream being written into memory. The encoder's type carries a
/// bound on `std::io::Write`, which Verus does not take in a declaration of
/// the type, so it is held here, out of Verus's sight, and described by the
/// names below.
#[verifier::external_body]
pub struct GzipWriter {
    encoder: GzEncoder<Vec<u8>>,
}

/// The chunks written so far to a gzip encoder that writes into memory,
/// one entry per successful write, in order.
pub uninterp spec fn gz_chunks(e: GzipWriter) -> Seq<Seq<u8>>;

/// The compression level a gzip encoder that writes into memory was made
/// with.
pub uninterp spec fn gz_level(e: GzipWriter) -> u32;

/// The gzip stream `flate2` produces, with its default header, for the
/// chunks `chunks` written in order at compression level `level`.
pub uninterp spec fn gzip_stream(chunks: Seq<Seq<u8>>, level: u32) -> Seq<u8>;

/// Calls `Compression::default` of `flate2` and reads its level; the
/// source sets that level to 6.
#[verifier::external_body]
fn default_compression_level() -> (r: u32)
    ensures
        r == 6,
{
    flate2::Compression::default().level()
}

/// Calls `GzEncoder::new` on an empty vector with the given level.
#[verifier::external_body]
fn gz_encoder_new(level: u32) -> (r: GzipWriter)
    ensures
        gz_chunks(r) == Seq::<Seq<u8>>::empty(),
        gz_level(r) == level,
{
    GzipWriter { encoder: GzEncoder::new(Vec::new(), flate2::Compression::new(level)) }
}

/// Calls `write_all` on the encoder, which writes into memory. Per the
/// source, the compressed bytes go to a `Vec`, which takes every write, and
/// the in-memory deflate step reports an error only for bad parameters or a
/// failed output callback, neither of which an encoder made by
/// `gz_encoder_new` meets; so the write succeeds, and `chunk` has been taken
/// in after the chunks before it.
#[verifier::external_body]
fn gz_write_all(e: &mut GzipWriter, chunk: &[u8]) -> (r: Result<(), String>)
    ensures
        gz_level(*final(e)) == gz_level(*old(e)),
        r is Ok,
        gz_chunks(*final(e)) == gz_chunks(*old(e)).push(chunk@),
{
    e.encoder.write_all(chunk).map_err(|err| err.to_string())
}

/// Calls `GzEncoder::finish`. Per the source it writes the header, the end
/// of the deflate stream and the trailer into the `Vec`, which cannot fail
/// (see `gz_write_all`); the bytes are the gzip stream of what was written,
/// which the source begins with the two magic bytes 0x1f 0x8b.
#[verifier::external_body]
fn gz_finish(e: GzipWriter) -> (r: Result<Vec<u8>, String>)
    ensures
        r is Ok,
        r matches Ok(v) ==> v@ == gzip_stream(gz_chunks(e), gz_level(e)),
        r matches Ok(v) ==> v@.len() >= 2 && v@[0] == 0x1f && v@[1] == 0x8b,
{
    e.encoder.finish().map_err(|err| err.to_string())
}

/// `data` gzip-encoded at the default level, written as one chunk.
pub fn gzipped_data_from_vec(data: Vec<u8>) -> (r: Result<Vec<u8>, AnkiError>)
    ensures
        r is Ok,
        r matches Ok(v) ==> v@ == gzip_stream(seq![data@], 6),
        r matches Ok(v) ==> v@.len() >= 2 && v@[0] == 0x1f && v@[1] == 0x8b,
{
    let level = default_compression_level();
    let mut encoder = gz_encoder_new(level);
    match gz_write_all(&mut encoder, data.as_slice()) {
        Ok(()) => {},
        Err(info) => {
            return Err(AnkiError::IoError { info });
        },
    }
    assert(gz_chunks(encoder) =~= seq![data@]);
    match gz_finish(encoder) {
        Ok(v) => Ok(v),
        Err(info) => Err(AnkiError::IoError { info }),
    }
}

} // verus!
