//! Compression of stored rows.
use vstd::prelude::*;

verus! {

/// The error of `zstd`. It is only carried.
#[verifier::external_type_specification]
#[verifier::external_body]
pub struct ExIoError(std::io::Error);

/// The level at which rows are compressed.
pub const COMPRESSION_LEVEL: i32 = 10;

/// The frame that compressing `data` at `level` gives.
pub uninterp spec fn zstd_frame(data: Seq<u8>, level: int) -> Seq<u8>;

/// What decompressing `frame` gives.
pub uninterp spec fn zstd_content(frame: Seq<u8>) -> Option<Seq<u8>>;

/// `zstd::bulk::Compressor::new` and `compress`, with a fresh compressor. Where it succeeds, the
/// frame depends on the data and the level alone, and its content is the data again. Nothing is
/// said of when it fails: that is where memory runs out.
#[verifier::external_body]
pub(crate) fn compress(data: &[u8], level: i32) -> (r: Result<Vec<u8>, std::io::Error>)
    ensures
        match r {
            Ok(frame) => frame@ == zstd_frame(data@, level as int) && zstd_content(frame@) == Some(data@),
            Err(_) => true,
        },
{
    zstd::bulk::Compressor::new(level)?.compress(data)
}

/// `zstd::decode_all`. Where it succeeds, the result is the content of the frame. It fails where
/// the bytes are no frame, but also where memory runs out, so nothing is said of a failure.
#[verifier::external_body]
pub(crate) fn decode_all(frame: &[u8]) -> (r: Result<Vec<u8>, std::io::Error>)
    ensures
        match r {
            Ok(data) => zstd_content(frame@) == Some(data@),
            Err(_) => true,
        },
{
    zstd::decode_all(frame)
}

/// Whether compressing `data` at `level` can end in an error. Only a call of the compressor that
/// did end in one shows it.
pub closed spec fn compression_fails(data: Seq<u8>, level: i32) -> bool {
    exists|bytes: &[u8], e: std::io::Error| bytes@ == data && #[trigger] call_ensures(compress, (bytes, level), Err(e))
}

/// Whether decompressing `frame` can end in an error. Only a call of the decompressor that did end
/// in one shows it.
pub closed spec fn decompression_fails(frame: Seq<u8>) -> bool {
    exists|bytes: &[u8], e: std::io::Error| bytes@ == frame && #[trigger] call_ensures(decode_all, (bytes,), Err(e))
}

/// A failure of the compressor or the decompressor is an outcome of the call itself.
pub(crate) proof fn lemma_failures_are_outcomes(data: Seq<u8>, level: i32, frame: Seq<u8>)
    ensures
        compression_fails(data, level) ==> exists|bytes: &[u8], e: std::io::Error|
            bytes@ == data && #[trigger] call_ensures(compress, (bytes, level), Err(e)),
        decompression_fails(frame) ==> exists|bytes: &[u8], e: std::io::Error|
            bytes@ == frame && #[trigger] call_ensures(decode_all, (bytes,), Err(e)),
{
}

/// Compresses `data`. Where that fails, the compressor did.
pub fn compressed(data: &[u8], level: i32) -> (r: Result<Vec<u8>, std::io::Error>)
    ensures
        match r {
            Ok(frame) => frame@ == zstd_frame(data@, level as int) && zstd_content(frame@) == Some(data@),
            Err(_) => compression_fails(data@, level),
        },
{
    match compress(data, level) {
        Ok(frame) => Ok(frame),
        Err(e) => Err(e),
    }
}

/// Decompresses `frame`. Where that fails, the decompressor did.
pub fn decompressed(frame: &[u8]) -> (r: Result<Vec<u8>, std::io::Error>)
    ensures
        match r {
            Ok(data) => zstd_content(frame@) == Some(data@),
            Err(_) => decompression_fails(frame@),
        },
{
    match decode_all(frame) {
        Ok(data) => Ok(data),
        Err(e) => Err(e),
    }
}

} // verus!
