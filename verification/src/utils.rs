use vstd::prelude::*;

use bzip2::read::BzDecoder;
use flate2::Compression;
use flate2::read::{ZlibDecoder, ZlibEncoder};
use std::io::{Read, Write};

verus! {

/// `std::io::Error`, carried as it is.
#[verifier::external_type_specification]
#[verifier::external_body]
pub struct ExIoError(std::io::Error);

/// What zlib decompression of `data` gives: the decompressed bytes, or `None`
/// when `data` is not a valid zlib stream.
pub uninterp spec fn zlib_decompressed(data: Seq<u8>) -> Option<Seq<u8>>;

/// The zlib stream that compressing `data` at the default level gives.
pub uninterp spec fn zlib_compressed(data: Seq<u8>) -> Seq<u8>;

/// What bzip2 decompression of `data` gives: the decompressed bytes, or `None`
/// when `data` is not a valid bzip2 stream.
pub uninterp spec fn bzip2_decompressed(data: Seq<u8>) -> Option<Seq<u8>>;

/// The bzip2 stream that compressing `data` at the default level gives.
pub uninterp spec fn bzip2_compressed(data: Seq<u8>) -> Seq<u8>;

/// Whether zlib compression of `data` at the default level fails.
pub uninterp spec fn zlib_compress_fails(data: Seq<u8>) -> bool;

/// Whether bzip2 compression of `data` at the default level fails.
pub uninterp spec fn bzip2_compress_fails(data: Seq<u8>) -> bool;

/// Decompress zlib data, with `flate2::read::ZlibDecoder` read to the end.
/// Trusted: the outcome is a function of `data` alone, named `zlib_decompressed`.
#[verifier::external_body]
pub fn decompress_zlib(data: &[u8]) -> (r: Result<Vec<u8>, std::io::Error>)
    ensures
        match r {
            Ok(v) => zlib_decompressed(data@) == Some(v@),
            Err(_) => zlib_decompressed(data@) is None,
        },
{
    let mut decoder = ZlibDecoder::new(data);
    let mut decompressed = Vec::new();
    decoder.read_to_end(&mut decompressed)?;
    Ok(decompressed)
}

/// Compress data using zlib, with `flate2::read::ZlibEncoder` at the default
/// level read to the end. Trusted: the outcome is a function of `data` alone:
/// whether it fails is named `zlib_compress_fails`, the stream it gives is
/// named `zlib_compressed`, and zlib decompression gives `data` back from it.
#[verifier::external_body]
pub fn compress_zlib(data: &[u8]) -> (r: Result<Vec<u8>, std::io::Error>)
    ensures
        r is Err <==> zlib_compress_fails(data@),
        r matches Ok(v) ==> v@ == zlib_compressed(data@) && zlib_decompressed(v@) == Some(data@),
{
    let mut encoder = ZlibEncoder::new(data, Compression::default());
    let mut compressed = Vec::new();
    encoder.read_to_end(&mut compressed)?;
    Ok(compressed)
}

/// Decompress bzip2 data, with `bzip2::read::BzDecoder` read to the end.
/// Trusted: the outcome is a function of `data` alone, named `bzip2_decompressed`.
#[verifier::external_body]
pub fn decompress_bzip2(data: &[u8]) -> (r: Result<Vec<u8>, std::io::Error>)
    ensures
        match r {
            Ok(v) => bzip2_decompressed(data@) == Some(v@),
            Err(_) => bzip2_decompressed(data@) is None,
        },
{
    let mut decoder = BzDecoder::new(data);
    let mut decompressed = Vec::new();
    decoder.read_to_end(&mut decompressed)?;
    Ok(decompressed)
}

/// Compress data using bzip2, with `bzip2::write::BzEncoder` at the default
/// level. Trusted: the outcome is a function of `data` alone: whether it fails
/// is named `bzip2_compress_fails`, the stream it gives is named
/// `bzip2_compressed`, and bzip2 decompression gives `data` back from it.
#[verifier::external_body]
pub fn compress_bzip2(data: &[u8]) -> (r: Result<Vec<u8>, std::io::Error>)
    ensures
        r is Err <==> bzip2_compress_fails(data@),
        r matches Ok(v) ==> v@ == bzip2_compressed(data@) && bzip2_decompressed(v@) == Some(data@),
{
    let mut encoder = bzip2::write::BzEncoder::new(Vec::new(), bzip2::Compression::default());
    encoder.write_all(data)?;
    encoder.finish()
}

} // verus!
