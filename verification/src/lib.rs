//! A verified engine for writing disk images to block devices.
//!
//! The library covers the logic of the flashing pipeline: progress
//! accounting shared between a worker and its pollers, the chunked
//! write loop with cooperative cancellation, the byte-for-byte
//! verification pass, the download pipeline's naming and streaming
//! rules, the two-tier decompression strategy, and the per-platform
//! privilege broker decisions. File, network and device I/O live in
//! the surrounding application; the engine works on plain values.

use vstd::prelude::*;

pub mod auth;
pub mod decompress;
pub mod devices;
pub mod download;
pub mod errors;
pub mod flash;
pub mod format;
pub mod images;
pub mod progress;
pub mod system;

verus! {

/// Size of the buffer used by the write, verify and download loops.
pub const CHUNK_SIZE: usize = 1024 * 1024;

} // verus!
