//! The chunked write loop and the verification pass.
//!
//! The writer copies a source image onto an opened device in bounded
//! chunks, updating the shared progress state after every chunk and
//! honouring the cancellation flag at each chunk boundary. The
//! verifier re-reads the written region and compares it byte for byte
//! against the image, reporting the offset of the first divergence.
//!
//! Both loops work on the device as a flat byte buffer; the
//! application owns the handle that backs it and performs the actual
//! reads and writes at its edge.

use vstd::prelude::*;

use crate::CHUNK_SIZE;
use crate::errors::EngineError;
use crate::progress::FlashState;

verus! {

/// The length of the chunk written at offset `off`: a full chunk, or
/// what is left of the image.
pub open spec fn chunk_at(image_len: int, off: int, chunk_size: int) -> int {
    if image_len - off < chunk_size {
        image_len - off
    } else {
        chunk_size
    }
}

/// The bytes before index `i` agree in `img` and `dev`.
pub open spec fn eq_upto(img: Seq<u8>, dev: Seq<u8>, i: int) -> bool {
    forall|k: int| 0 <= k < i ==> img[k] == dev[k]
}

/// The index of the first byte at which `dev` diverges from `img`
/// within their common prefix, or -1 if there is none.
pub open spec fn first_mismatch(img: Seq<u8>, dev: Seq<u8>) -> int
    decreases img.len(),
{
    if img.len() == 0 || dev.len() == 0 {
        -1
    } else if img[0] != dev[0] {
        0
    } else {
        let rest = first_mismatch(img.drop_first(), dev.drop_first());
        if rest < 0 {
            -1
        } else {
            rest + 1
        }
    }
}

/// What a verification pass reports of a device against an image: the
/// first mismatching offset; failing that, a read failure where the
/// device ends before the image does; otherwise success.
pub open spec fn verify_result(img: Seq<u8>, dev: Seq<u8>) -> Result<(), EngineError> {
    let m = first_mismatch(img, dev);
    if m >= 0 {
        Err(EngineError::VerificationMismatch(m as u64))
    } else if dev.len() < img.len() {
        Err(EngineError::Io)
    } else {
        Ok(())
    }
}

/// If `a` lies within the chunk that starts at the `q`th chunk
/// boundary, then rounding `a` down to a chunk boundary gives that
/// boundary back.
proof fn lemma_chunk_floor(a: int, q: int, chunk_size: int)
    requires
        chunk_size >= 1,
        q * chunk_size <= a < q * chunk_size + chunk_size,
    ensures
        (a / chunk_size) * chunk_size == q * chunk_size,
{
    vstd::arithmetic::div_mod::lemma_fundamental_div_mod_converse(
        a,
        chunk_size,
        q,
        a - q * chunk_size,
    );
}

/// A mismatch at `i`, with everything before it equal, is the first.
proof fn lemma_first_mismatch_at(img: Seq<u8>, dev: Seq<u8>, i: int)
    requires
        0 <= i < img.len(),
        i < dev.len(),
        eq_upto(img, dev, i),
        img[i] != dev[i],
    ensures
        first_mismatch(img, dev) == i,
    decreases i,
{
    if i == 0 {
    } else {
        assert(eq_upto(img.drop_first(), dev.drop_first(), i - 1)) by {
            assert(forall|k: int| 0 <= k < i - 1 ==> img.drop_first()[k] == img[k + 1]);
        }
        lemma_first_mismatch_at(img.drop_first(), dev.drop_first(), i - 1);
    }
}

/// Sequences that agree on their whole common prefix have no mismatch.
proof fn lemma_no_mismatch(img: Seq<u8>, dev: Seq<u8>)
    requires
        eq_upto(img, dev, if img.len() <= dev.len() { img.len() as int } else { dev.len() as int }),
    ensures
        first_mismatch(img, dev) == -1,
    decreases img.len(),
{
    if img.len() == 0 || dev.len() == 0 {
    } else {
        assert(img[0] == dev[0]);
        let m = if img.len() <= dev.len() { img.len() as int } else { dev.len() as int };
        assert(eq_upto(img.drop_first(), dev.drop_first(), m - 1)) by {
            assert(forall|k: int| 0 <= k < m - 1 ==> img.drop_first()[k] == img[k + 1]);
        }
        lemma_no_mismatch(img.drop_first(), dev.drop_first());
    }
}

/// Verification succeeds on a device whose prefix equals the image.
pub proof fn lemma_verify_clean(img: Seq<u8>, dev: Seq<u8>)
    requires
        img.len() <= dev.len(),
        eq_upto(img, dev, img.len() as int),
    ensures
        verify_result(img, dev) == Ok::<(), EngineError>(()),
{
    lemma_no_mismatch(img, dev);
}

/// A single mutated byte in an otherwise faithful copy is reported
/// with its exact offset.
pub proof fn lemma_verify_pinpoints_mutation(img: Seq<u8>, dev: Seq<u8>, o: int)
    requires
        img.len() <= dev.len(),
        0 <= o < img.len(),
        img[o] != dev[o],
        forall|k: int| 0 <= k < img.len() && k != o ==> img[k] == dev[k],
    ensures
        verify_result(img, dev) == Err::<(), EngineError>(
            EngineError::VerificationMismatch(o as u64),
        ),
{
    lemma_first_mismatch_at(img, dev, o);
}

/// The index of the first byte at which two buffers differ within
/// their common prefix, or `None` when they agree. Used chunk by
/// chunk when the device is re-read through a streaming handle.
pub fn first_difference(a: &Vec<u8>, b: &Vec<u8>) -> (r: Option<usize>)
    ensures
        match r {
            Some(i) => first_mismatch(a@, b@) == i,
            None => first_mismatch(a@, b@) == -1,
        },
{
    let common = if a.len() <= b.len() {
        a.len()
    } else {
        b.len()
    };
    let mut i: usize = 0;
    while i < common
        invariant
            common <= a@.len(),
            common <= b@.len(),
            common == if a@.len() <= b@.len() {
                a@.len() as int
            } else {
                b@.len() as int
            },
            0 <= i <= common,
            eq_upto(a@, b@, i as int),
        decreases common - i,
    {
        if a[i] != b[i] {
            proof {
                lemma_first_mismatch_at(a@, b@, i as int);
            }
            return Some(i);
        }
        i += 1;
    }
    proof {
        lemma_no_mismatch(a@, b@);
    }
    None
}

/// Prepare the flash progress state for a new run: clear the counters
/// and flags and publish the image's byte length as the total.
///
/// No byte has been written when this returns: `written_bytes` is 0,
/// so a failure to open the device afterwards leaves the state
/// consistent with an operation that never started.
pub fn flash_begin(image_len: u64, state: &mut FlashState)
    ensures
        final(state).total_bytes == image_len,
        final(state).written_bytes == 0,
        !final(state).is_verifying,
        !final(state).is_cancelled,
        final(state).error == old(state).error,
{
    state.reset();
    state.total_bytes = image_len;
}

/// Report that the device could not be opened for the run just
/// begun: the terminal error is published and classified — a refusal
/// of rights as an authorization error, anything else as an I/O error
/// — and the counters stay where `flash_begin` left them, so the
/// state remains consistent with an operation that never started.
pub fn flash_open_failed(state: &mut FlashState, authorization: bool, message: String) -> (e:
    EngineError)
    ensures
        e == if authorization {
            EngineError::AuthorizationDenied
        } else {
            EngineError::Io
        },
        *final(state) == (FlashState { error: Some(message), ..*old(state) }),
{
    state.set_error(message);
    if authorization {
        EngineError::AuthorizationDenied
    } else {
        EngineError::Io
    }
}

/// One step of the write loop: observe the cancellation flag, then
/// copy at most one chunk of the image onto the device at the current
/// offset.
///
/// Returns `Ok(true)` after writing a chunk, `Ok(false)` once the
/// whole image is on the device, `Err(Cancelled)` when the flag was
/// set, and `Err(Io)` when the device is too small for the next
/// chunk. Nothing is written in the three latter cases, so a
/// cancellation observed here stops the write within one chunk.
pub fn flash_step(
    image: &Vec<u8>,
    device: &mut Vec<u8>,
    state: &mut FlashState,
    chunk_size: usize,
) -> (r: Result<bool, EngineError>)
    requires
        chunk_size >= 1,
        old(state).written_bytes <= image.len(),
    ensures
        final(device).len() == old(device).len(),
        final(state).written_bytes <= image.len(),
        final(state).total_bytes == old(state).total_bytes,
        final(state).is_cancelled == old(state).is_cancelled,
        final(state).is_verifying == old(state).is_verifying,
        final(state).error == old(state).error,
        match r {
            Ok(more) => {
                let off = old(state).written_bytes as int;
                let n = chunk_at(image.len() as int, off, chunk_size as int);
                &&& !old(state).is_cancelled
                &&& if more {
                    &&& off < image.len()
                    &&& off + n <= old(device).len()
                    &&& final(state).written_bytes == off + n
                    &&& final(device)@ == old(device)@.take(off) + image@.subrange(off, off + n)
                        + old(device)@.skip(off + n)
                } else {
                    &&& off == image.len()
                    &&& final(device)@ == old(device)@
                    &&& final(state).written_bytes == old(state).written_bytes
                }
            },
            Err(e) => {
                let off = old(state).written_bytes as int;
                let n = chunk_at(image.len() as int, off, chunk_size as int);
                &&& final(device)@ == old(device)@
                &&& final(state).written_bytes == old(state).written_bytes
                &&& (e is Cancelled <==> old(state).is_cancelled)
                &&& (e is Io <==> !old(state).is_cancelled && off < image.len() && off + n
                    > old(device).len())
                &&& (e is Cancelled || e is Io)
            },
        },
{
    if state.is_cancelled {
        return Err(EngineError::Cancelled);
    }
    let off = state.written_bytes as usize;
    if off == image.len() {
        return Ok(false);
    }
    let remaining = image.len() - off;
    let n = if remaining < chunk_size {
        remaining
    } else {
        chunk_size
    };
    if off > device.len() || n > device.len() - off {
        return Err(EngineError::Io);
    }
    let ghost dev0 = device@;
    let mut j: usize = 0;
    while j < n
        invariant
            off + n <= image.len(),
            off + n <= device.len(),
            0 <= j <= n,
            device@.len() == dev0.len(),
            forall|k: int| 0 <= k < device@.len() && !(off <= k < off + j) ==> device@[k]
                == dev0[k],
            forall|k: int| off <= k < off + j ==> device@[k] == image@[k],
        decreases n - j,
    {
        let b = image[off + j];
        device.set(off + j, b);
        j += 1;
    }
    assert(device@ =~= dev0.take(off as int) + image@.subrange(off as int, off + n as int)
        + dev0.skip(off + n as int));
    state.written_bytes = (off + n) as u64;
    Ok(true)
}

/// The chunked write loop: copy the whole image onto the device,
/// chunk by chunk, checking the cancellation flag before every chunk
/// and updating `written_bytes` after every chunk.
///
/// On success the counter equals the image's exact byte length,
/// whether or not the chunk size divides it evenly, and the device
/// begins with the image, byte for byte. A device shorter than the
/// image fails with `Io` after the last chunk that fit whole.
pub fn flash_write(
    image: &Vec<u8>,
    device: &mut Vec<u8>,
    state: &mut FlashState,
    chunk_size: usize,
) -> (r: Result<(), EngineError>)
    requires
        chunk_size >= 1,
        old(state).written_bytes == 0,
    ensures
        final(device).len() == old(device).len(),
        final(state).total_bytes == old(state).total_bytes,
        final(state).is_cancelled == old(state).is_cancelled,
        final(state).is_verifying == old(state).is_verifying,
        final(state).error == old(state).error,
        old(state).is_cancelled ==> {
            &&& r == Err::<(), EngineError>(EngineError::Cancelled)
            &&& final(device)@ == old(device)@
            &&& final(state).written_bytes == 0
        },
        !old(state).is_cancelled && image.len() <= old(device).len() ==> {
            &&& r == Ok::<(), EngineError>(())
            &&& final(state).written_bytes == image.len()
            &&& final(device)@ == image@ + old(device)@.skip(image.len() as int)
        },
        !old(state).is_cancelled && image.len() > old(device).len() ==> {
            &&& r == Err::<(), EngineError>(EngineError::Io)
            &&& final(state).written_bytes == (old(device).len() as int / chunk_size as int)
                * chunk_size as int
            &&& final(device)@ == image@.take(final(state).written_bytes as int) + old(
                device,
            )@.skip(final(state).written_bytes as int)
        },
{
    let ghost mut chunks: int = 0;
    loop
        invariant
            chunk_size >= 1,
            state.written_bytes <= image.len(),
            state.written_bytes <= device.len(),
            state.written_bytes as int == chunks * chunk_size as int || state.written_bytes
                == image.len(),
            state.total_bytes == old(state).total_bytes,
            state.is_cancelled == old(state).is_cancelled,
            state.is_verifying == old(state).is_verifying,
            state.error == old(state).error,
            old(state).is_cancelled ==> state.written_bytes == 0,
            device@.len() == old(device)@.len(),
            device@ == image@.take(state.written_bytes as int) + old(device)@.skip(
                state.written_bytes as int,
            ),
        decreases image.len() - state.written_bytes,
    {
        let ghost prev = device@;
        let ghost w0 = state.written_bytes as int;
        let ghost cs = chunk_size as int;
        let r = flash_step(image, device, state, chunk_size);
        match r {
            Ok(true) => {
                proof {
                    let n = chunk_at(image.len() as int, w0, cs);
                    assert(device@ =~= image@.take(w0 + n) + old(device)@.skip(w0 + n)) by {
                        assert(forall|k: int| 0 <= k < w0 ==> prev[k] == image@[k]);
                        assert(forall|k: int|
                            w0 + n <= k < prev.len() ==> prev[k] == old(device)@[k]);
                    }
                    if state.written_bytes != image.len() {
                        assert(n == cs);
                        assert((chunks + 1) * cs == chunks * cs + cs) by (nonlinear_arith);
                        chunks = chunks + 1;
                    }
                }
            },
            Ok(false) => {
                proof {
                    assert(device@ =~= image@ + old(device)@.skip(image.len() as int));
                }
                return Ok(());
            },
            Err(e) => {
                if state.is_cancelled {
                    proof {
                        assert(device@ =~= old(device)@);
                    }
                    return Err(e);
                }
                proof {
                    let n = chunk_at(image.len() as int, w0, cs);
                    assert(w0 + n > old(device)@.len());
                    assert(w0 == chunks * cs);
                    lemma_chunk_floor(old(device)@.len() as int, chunks, cs);
                }
                return Err(e);
            },
        }
    }
}

/// The verification pass: re-read the written region chunk by chunk
/// and compare it byte for byte against the image.
///
/// Sets the verifying phase and repurposes `written_bytes` to count
/// verified bytes from zero. Succeeds exactly when the device begins
/// with the image; the first divergence is reported with its exact
/// byte offset, and a device that ends before the image does is a
/// read failure.
pub fn verify_data(
    image: &Vec<u8>,
    device: &Vec<u8>,
    state: &mut FlashState,
    chunk_size: usize,
) -> (r: Result<(), EngineError>)
    requires
        chunk_size >= 1,
    ensures
        r == verify_result(image@, device@),
        final(state).is_verifying,
        final(state).total_bytes == old(state).total_bytes,
        final(state).is_cancelled == old(state).is_cancelled,
        final(state).error == old(state).error,
        r is Ok ==> final(state).written_bytes == image.len(),
        final(state).written_bytes <= image.len(),
        match r {
            Ok(()) => true,
            Err(e) => final(state).written_bytes == match e {
                EngineError::VerificationMismatch(o) => ((o as int) / chunk_size as int)
                    * chunk_size as int,
                _ => (device.len() as int / chunk_size as int) * chunk_size as int,
            },
        },
{
    state.is_verifying = true;
    state.written_bytes = 0;
    let mut off: usize = 0;
    let ghost mut chunks: int = 0;
    loop
        invariant
            chunk_size >= 1,
            off <= image.len(),
            off <= device.len(),
            off as int == chunks * chunk_size as int || off == image.len(),
            eq_upto(image@, device@, off as int),
            state.written_bytes == off,
            state.is_verifying,
            state.total_bytes == old(state).total_bytes,
            state.is_cancelled == old(state).is_cancelled,
            state.error == old(state).error,
        decreases image.len() - off,
    {
        if off == image.len() {
            proof {
                lemma_no_mismatch(image@, device@);
            }
            return Ok(());
        }
        let remaining = image.len() - off;
        let n = if remaining < chunk_size {
            remaining
        } else {
            chunk_size
        };
        let avail = if device.len() - off < n {
            device.len() - off
        } else {
            n
        };
        let mut j: usize = 0;
        while j < avail
            invariant
                chunk_size >= 1,
                avail <= chunk_size,
                off as int == chunks * chunk_size as int,
                off + avail <= image.len(),
                off + avail <= device.len(),
                0 <= j <= avail,
                off + j <= image.len(),
                eq_upto(image@, device@, off + j as int),
                state.written_bytes == off,
                state.is_verifying,
                state.total_bytes == old(state).total_bytes,
                state.is_cancelled == old(state).is_cancelled,
                state.error == old(state).error,
            decreases avail - j,
        {
            if image[off + j] != device[off + j] {
                proof {
                    lemma_first_mismatch_at(image@, device@, off + j as int);
                    lemma_chunk_floor(off + j as int, chunks, chunk_size as int);
                }
                return Err(EngineError::VerificationMismatch((off + j) as u64));
            }
            j += 1;
        }
        if avail < n {
            proof {
                assert(off + avail == device@.len());
                lemma_no_mismatch(image@, device@);
                lemma_chunk_floor(device@.len() as int, chunks, chunk_size as int);
            }
            return Err(EngineError::Io);
        }
        off = off + n;
        state.written_bytes = off as u64;
        proof {
            if off != image.len() {
                let cs = chunk_size as int;
                assert(n == chunk_size);
                assert((chunks + 1) * cs == chunks * cs + cs) by (nonlinear_arith);
                chunks = chunks + 1;
            }
        }
    }
}

/// Flash an image onto an opened device and, when asked, verify the
/// write: reset the progress state, publish the image length as the
/// total, run the chunked write loop, and re-read the device against
/// the image.
///
/// On success every byte of the image is on the device and
/// `written_bytes` equals the image's exact length. A cancellation
/// flag raised before the run starts is cleared by the reset, so this
/// function fails only when the device is too small for the image.
pub fn flash_image(
    image: &Vec<u8>,
    device: &mut Vec<u8>,
    state: &mut FlashState,
    verify: bool,
) -> (r: Result<(), EngineError>)
    ensures
        final(device).len() == old(device).len(),
        final(state).total_bytes == image.len(),
        !final(state).is_cancelled,
        image.len() <= old(device).len() ==> {
            &&& r == Ok::<(), EngineError>(())
            &&& final(device)@ == image@ + old(device)@.skip(image.len() as int)
            &&& final(state).written_bytes == image.len()
            &&& final(state).is_verifying == verify
        },
        image.len() > old(device).len() ==> {
            &&& r == Err::<(), EngineError>(EngineError::Io)
            &&& final(state).written_bytes == (old(device).len() as int / CHUNK_SIZE as int)
                * CHUNK_SIZE as int
        },
{
    flash_begin(image.len() as u64, state);
    let r = flash_write(image, device, state, CHUNK_SIZE);
    match r {
        Ok(()) => {},
        Err(e) => {
            return Err(e);
        },
    }
    if verify {
        proof {
            lemma_verify_clean(image@, device@);
        }
        let rv = verify_data(image, device, state, CHUNK_SIZE);
        match rv {
            Ok(()) => {},
            Err(e) => {
                return Err(e);
            },
        }
    }
    Ok(())
}

} // verus!
