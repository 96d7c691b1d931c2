//! The three container formats and the codec operations on each.
//!
//! The DEFLATE algorithm and the framing of each format come from `flate2`.
//! What an encoder or decoder returns is named by a spec function per
//! operation; the library's contracts are stated over those names.
use std::io::Read;

use flate2::bufread::{
    DeflateDecoder, DeflateEncoder, GzDecoder, GzEncoder, ZlibDecoder, ZlibEncoder,
};
use flate2::Compression;
use vstd::prelude::*;

verus! {

/// The highest effort level that the encoders take.
pub const MAX_LEVEL: u32 = 9;

/// What `flate2`'s zlib encoder yields at a level for the given bytes
/// (`None` where it reports an error).
pub uninterp spec fn zlib_encoded(level: u32, data: Seq<u8>) -> Option<Seq<u8>>;

/// What `flate2`'s raw DEFLATE encoder yields at a level for the given bytes.
pub uninterp spec fn deflate_encoded(level: u32, data: Seq<u8>) -> Option<Seq<u8>>;

/// What `flate2`'s gzip encoder yields at a level for the given bytes.
pub uninterp spec fn gzip_encoded(level: u32, data: Seq<u8>) -> Option<Seq<u8>>;

/// What `flate2`'s zlib decoder yields for the given bytes
/// (`None` where it rejects them).
pub uninterp spec fn zlib_decoded(data: Seq<u8>) -> Option<Seq<u8>>;

/// What `flate2`'s raw DEFLATE decoder yields for the given bytes.
pub uninterp spec fn deflate_decoded(data: Seq<u8>) -> Option<Seq<u8>>;

/// What `flate2`'s gzip decoder yields for the given bytes.
pub uninterp spec fn gzip_decoded(data: Seq<u8>) -> Option<Seq<u8>>;

/// Relies on `flate2::bufread::ZlibEncoder::new` read to the end: the zlib
/// stream of `data` at `level`, a function of its arguments, which the zlib
/// decoder turns back into `data`.
#[verifier::external_body]
fn zlib_encode(level: u32, data: &[u8]) -> (r: Result<Vec<u8>, String>)
    requires
        level <= MAX_LEVEL,
    ensures
        match r {
            Ok(v) => zlib_encoded(level, data@) == Some(v@) && zlib_decoded(v@) == Some(data@),
            Err(_) => zlib_encoded(level, data@) is None,
        },
{
    let mut out = Vec::new();
    match ZlibEncoder::new(data, Compression::new(level)).read_to_end(&mut out) {
        Ok(_) => Ok(out),
        Err(e) => Err(e.to_string()),
    }
}

/// Relies on `flate2::bufread::DeflateEncoder::new` read to the end: the raw
/// DEFLATE stream of `data` at `level`, which the raw decoder turns back into
/// `data`.
#[verifier::external_body]
fn deflate_encode(level: u32, data: &[u8]) -> (r: Result<Vec<u8>, String>)
    requires
        level <= MAX_LEVEL,
    ensures
        match r {
            Ok(v) => deflate_encoded(level, data@) == Some(v@) && deflate_decoded(v@) == Some(
                data@,
            ),
            Err(_) => deflate_encoded(level, data@) is None,
        },
{
    let mut out = Vec::new();
    match DeflateEncoder::new(data, Compression::new(level)).read_to_end(&mut out) {
        Ok(_) => Ok(out),
        Err(e) => Err(e.to_string()),
    }
}

/// Relies on `flate2::bufread::GzEncoder::new` read to the end: one gzip
/// member holding `data` (no name, mtime 0, OS byte 255), which the gzip
/// decoder turns back into `data`.
#[verifier::external_body]
fn gzip_encode(level: u32, data: &[u8]) -> (r: Result<Vec<u8>, String>)
    requires
        level <= MAX_LEVEL,
    ensures
        match r {
            Ok(v) => gzip_encoded(level, data@) == Some(v@) && gzip_decoded(v@) == Some(data@),
            Err(_) => gzip_encoded(level, data@) is None,
        },
{
    let mut out = Vec::new();
    match GzEncoder::new(data, Compression::new(level)).read_to_end(&mut out) {
        Ok(_) => Ok(out),
        Err(e) => Err(e.to_string()),
    }
}

/// Relies on `flate2::bufread::ZlibDecoder::new` read to the end: the payload
/// of the zlib stream at the start of `data`, or the decoder's error.
#[verifier::external_body]
fn zlib_decode(data: &[u8]) -> (r: Result<Vec<u8>, String>)
    ensures
        match r {
            Ok(v) => zlib_decoded(data@) == Some(v@),
            Err(_) => zlib_decoded(data@) is None,
        },
{
    let mut out = Vec::new();
    match ZlibDecoder::new(data).read_to_end(&mut out) {
        Ok(_) => Ok(out),
        Err(e) => Err(e.to_string()),
    }
}

/// Relies on `flate2::bufread::DeflateDecoder::new` read to the end: the
/// payload of the raw DEFLATE stream at the start of `data`, or the error.
#[verifier::external_body]
fn deflate_decode(data: &[u8]) -> (r: Result<Vec<u8>, String>)
    ensures
        match r {
            Ok(v) => deflate_decoded(data@) == Some(v@),
            Err(_) => deflate_decoded(data@) is None,
        },
{
    let mut out = Vec::new();
    match DeflateDecoder::new(data).read_to_end(&mut out) {
        Ok(_) => Ok(out),
        Err(e) => Err(e.to_string()),
    }
}

/// Relies on `flate2::bufread::GzDecoder::new` read to the end: the payload
/// of the first gzip member of `data`, or the decoder's error.
#[verifier::external_body]
fn gzip_decode(data: &[u8]) -> (r: Result<Vec<u8>, String>)
    ensures
        match r {
            Ok(v) => gzip_decoded(data@) == Some(v@),
            Err(_) => gzip_decoded(data@) is None,
        },
{
    let mut out = Vec::new();
    match GzDecoder::new(data).read_to_end(&mut out) {
        Ok(_) => Ok(out),
        Err(e) => Err(e.to_string()),
    }
}

/// The container format wrapped around the DEFLATE payload.
#[derive(Debug, Clone, Copy, PartialEq, Eq, Structural)]
pub enum Mode {
    /// Two-byte header and Adler-32 trailer.
    Zlib,
    /// The bare DEFLATE stream, with no header or trailer.
    Deflate,
    /// Gzip header and CRC-32 trailer.
    Gzip,
}

impl Default for Mode {
    fn default() -> (r: Self)
        ensures
            r == Mode::Zlib,
    {
        Mode::Zlib
    }
}

/// The bytes that compressing `data` at `level` in `mode` yields,
/// `None` where the encoder fails.
pub open spec fn compressed(mode: Mode, level: u32, data: Seq<u8>) -> Option<Seq<u8>> {
    match mode {
        Mode::Zlib => zlib_encoded(level, data),
        Mode::Deflate => deflate_encoded(level, data),
        Mode::Gzip => gzip_encoded(level, data),
    }
}

/// The bytes that decompressing `data` in `mode` yields,
/// `None` where the decoder rejects it.
pub open spec fn decompressed(mode: Mode, data: Seq<u8>) -> Option<Seq<u8>> {
    match mode {
        Mode::Zlib => zlib_decoded(data),
        Mode::Deflate => deflate_decoded(data),
        Mode::Gzip => gzip_decoded(data),
    }
}

impl Mode {
    /// Compresses `input` into one member of this format at `level`.
    ///
    /// The output decompresses in the same format back to `input`, whatever
    /// the level: decompression takes no level.
    pub fn compress(self, level: u32, input: &[u8]) -> (r: Result<Vec<u8>, String>)
        requires
            level <= MAX_LEVEL,
        ensures
            match r {
                Ok(v) => compressed(self, level, input@) == Some(v@),
                Err(_) => compressed(self, level, input@) is None,
            },
            r matches Ok(v) ==> decompressed(self, v@) == Some(input@),
    {
        match self {
            Mode::Zlib => zlib_encode(level, input),
            Mode::Deflate => deflate_encode(level, input),
            Mode::Gzip => gzip_encode(level, input),
        }
    }

    /// Decompresses the first member of this format found in `input`.
    pub fn decompress(self, input: &[u8]) -> (r: Result<Vec<u8>, String>)
        ensures
            match r {
                Ok(v) => decompressed(self, input@) == Some(v@),
                Err(_) => decompressed(self, input@) is None,
            },
    {
        match self {
            Mode::Zlib => zlib_decode(input),
            Mode::Deflate => deflate_decode(input),
            Mode::Gzip => gzip_decode(input),
        }
    }
}

} // verus!
