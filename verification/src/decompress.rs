//! The in-process decompression path and the compression heuristics.
//!
//! The preferred decompression strategy runs an external decoder as a
//! subprocess and belongs to the application; this module holds its
//! in-process sibling, a streaming decoder used when the external one
//! is unavailable or fails, and the predicates that decide whether a
//! payload is compressed at all: by filename suffix for downloads and
//! by magic bytes for user-supplied local files.

use vstd::prelude::*;

use crate::errors::EngineError;
use crate::progress::DownloadState;

verus! {

/// What the xz stream `compressed` decodes to, or `None` when the
/// decoder refuses it — a malformed stream, or one using features the
/// decoder does not support. Decoding is a function of the bytes
/// alone.
pub uninterp spec fn xz_plain(compressed: Seq<u8>) -> Option<Seq<u8>>;

/// Relies on xz2::read::XzDecoder over liblzma: decoding an xz stream
/// held in memory is a function of the input bytes alone, and every
/// input returns — the library reports each failure as a condition
/// code, which the binding surfaces as an error, so no input aborts
/// the call.
#[verifier::external_body]
fn xz_decode(input: &Vec<u8>) -> (r: Result<Vec<u8>, EngineError>)
    ensures
        match r {
            Ok(v) => xz_plain(input@) == Some(v@),
            Err(e) => xz_plain(input@) is None && e == EngineError::Decompression,
        },
{
    let mut decoder = xz2::read::XzDecoder::new(input.as_slice());
    let mut out: Vec<u8> = Vec::new();
    match std::io::Read::read_to_end(&mut decoder, &mut out) {
        Ok(_) => Ok(out),
        Err(_) => Err(EngineError::Decompression),
    }
}

/// The magic bytes that open every xz stream.
pub open spec fn is_xz_signature(header: Seq<u8>) -> bool {
    &&& header.len() >= 6
    &&& header[0] == 0xfdu8
    &&& header[1] == 0x37u8
    &&& header[2] == 0x7au8
    &&& header[3] == 0x58u8
    &&& header[4] == 0x5au8
    &&& header[5] == 0x00u8
}

/// Whether a local file needs decompression before flashing, decided
/// by the signature at the start of its contents rather than by its
/// name, since a user-supplied file may be named anything.
pub fn needs_decompression(header: &Vec<u8>) -> (r: bool)
    ensures
        r == is_xz_signature(header@),
{
    header.len() >= 6 && header[0] == 0xfd && header[1] == 0x37 && header[2] == 0x7a
        && header[3] == 0x58 && header[4] == 0x5a && header[5] == 0x00
}

/// The in-process fallback decoder: decompress an xz payload held in
/// memory, raising the decompressing phase and publishing the decoded
/// byte count as progress.
///
/// Slower than the external decoder; used only when that one is not
/// usable.
pub fn decompress_with_rust_library(input: &Vec<u8>, state: &mut DownloadState) -> (r: Result<
    Vec<u8>,
    EngineError,
>)
    ensures
        final(state).is_decompressing,
        final(state).total_bytes == old(state).total_bytes,
        final(state).is_cancelled == old(state).is_cancelled,
        final(state).error == old(state).error,
        final(state).output_path == old(state).output_path,
        match r {
            Ok(v) => {
                &&& xz_plain(input@) == Some(v@)
                &&& final(state).downloaded_bytes == v@.len()
            },
            Err(e) => {
                &&& e == EngineError::Decompression
                &&& xz_plain(input@) is None
                &&& final(state).downloaded_bytes == old(state).downloaded_bytes
            },
        },
{
    state.is_decompressing = true;
    match xz_decode(input) {
        Ok(v) => {
            state.downloaded_bytes = v.len() as u64;
            Ok(v)
        },
        Err(e) => Err(e),
    }
}

} // verus!
