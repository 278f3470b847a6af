//! The download pipeline: naming rules and the streaming loop.
//!
//! A download derives its filenames from the URL's last path segment:
//! the payload streams into a temporary sibling file, and the final
//! name drops the compression suffix. The streaming loop appends
//! bounded chunks, checks the cancellation flag after each one, and on
//! cancellation deletes the partial temporary file before reporting
//! the deliberate stop. The network transport lives in the
//! application; the pipeline here works on the received bytes.

use vstd::prelude::*;
use vstd::pervasive::unreached;
use vstd::string::*;

use crate::decompress::{decompress_with_rust_library, xz_plain};
use crate::errors::EngineError;
use crate::format::{dec_str, decimal_string};
use crate::progress::DownloadState;

verus! {

/// The part of a URL before its first query marker.
pub open spec fn before_query(s: Seq<char>) -> Seq<char>
    decreases s.len(),
{
    if s.len() == 0 {
        s
    } else if s[0] == '?' {
        Seq::empty()
    } else {
        seq![s[0]] + before_query(s.drop_first())
    }
}

/// The part of a path after its last separator: the whole path when
/// there is none, empty when the path ends with one.
pub open spec fn after_last_slash(s: Seq<char>) -> Seq<char>
    decreases s.len(),
{
    if s.len() == 0 {
        s
    } else if s[s.len() - 1] == '/' {
        Seq::empty()
    } else {
        after_last_slash(s.drop_last()) + seq![s[s.len() - 1]]
    }
}

/// The filename a URL names: its last path segment, queries aside.
pub open spec fn filename_spec(url: Seq<char>) -> Seq<char> {
    after_last_slash(before_query(url))
}

/// Whether a filename carries the compression suffix.
pub open spec fn ends_dot_xz(s: Seq<char>) -> bool {
    &&& s.len() >= 3
    &&& s[s.len() - 3] == '.'
    &&& s[s.len() - 2] == 'x'
    &&& s[s.len() - 1] == 'z'
}

/// A filename with every trailing compression suffix dropped.
pub open spec fn strip_xz_spec(s: Seq<char>) -> Seq<char>
    decreases s.len(),
{
    if ends_dot_xz(s) {
        strip_xz_spec(s.take(s.len() - 3))
    } else {
        s
    }
}

/// The name a final output never keeps: stripping leaves no trailing
/// compression suffix behind, however many times it was applied.
pub proof fn lemma_stripped_name_not_compressed(s: Seq<char>)
    ensures
        !ends_dot_xz(strip_xz_spec(s)),
    decreases s.len(),
{
    if ends_dot_xz(s) {
        lemma_stripped_name_not_compressed(s.take(s.len() - 3));
    }
}

/// A scan that saw no query marker before `q`, and one (or the end)
/// at `q`, has found the query-free prefix.
proof fn lemma_before_query_scan(s: Seq<char>, q: int)
    requires
        0 <= q <= s.len(),
        forall|k: int| 0 <= k < q ==> s[k] != '?',
        q == s.len() || s[q] == '?',
    ensures
        before_query(s) == s.take(q),
    decreases s.len(),
{
    if s.len() == 0 {
        assert(before_query(s) =~= s.take(q));
    } else if q == 0 {
        assert(before_query(s) =~= s.take(0));
    } else {
        assert(forall|k: int| 0 <= k < q - 1 ==> s.drop_first()[k] == s[k + 1]);
        lemma_before_query_scan(s.drop_first(), q - 1);
        assert(seq![s[0]] + s.drop_first().take(q - 1) =~= s.take(q));
    }
}

/// A scan that saw a separator last at `start - 1` (or none at all
/// when `start` is 0) has found where the last segment begins.
proof fn lemma_after_last_slash_scan(s: Seq<char>, start: int)
    requires
        0 <= start <= s.len(),
        start >= 1 ==> s[start - 1] == '/',
        forall|k: int| start <= k < s.len() ==> s[k] != '/',
    ensures
        after_last_slash(s) == s.skip(start),
    decreases s.len(),
{
    if s.len() == 0 {
        assert(after_last_slash(s) =~= s.skip(start));
    } else if start == s.len() {
        if start >= 1 {
            assert(s[s.len() - 1] == '/');
            assert(after_last_slash(s) =~= s.skip(start));
        } else {
            assert(after_last_slash(s) =~= s.skip(0));
        }
    } else {
        assert(s[s.len() - 1] != '/');
        assert(forall|k: int| start <= k < s.len() - 1 ==> s.drop_last()[k] == s[k]);
        lemma_after_last_slash_scan(s.drop_last(), start);
        assert(s.drop_last().skip(start) + seq![s[s.len() - 1]] =~= s.skip(start));
    }
}

/// Extract the filename a URL points at: its last path segment, with
/// any query string ignored. Fails exactly when that segment is
/// empty, as on a URL that ends in a separator.
pub fn extract_filename(url: &str) -> (r: Result<&str, String>)
    ensures
        r is Ok <==> filename_spec(url@).len() != 0,
        match r {
            Ok(f) => f@ == filename_spec(url@),
            Err(e) => e@ == "Invalid URL: no filename"@,
        },
{
    let len = url.unicode_len();
    let mut q: usize = 0;
    while q < len && url.get_char(q) != '?'
        invariant
            0 <= q <= len,
            len == url@.len(),
            forall|k: int| 0 <= k < q ==> url@[k] != '?',
        decreases len - q,
    {
        q += 1;
    }
    proof {
        lemma_before_query_scan(url@, q as int);
    }
    let mut start: usize = 0;
    let mut i: usize = 0;
    while i < q
        invariant
            0 <= start <= i <= q <= len,
            len == url@.len(),
            start >= 1 ==> url@[start - 1] == '/',
            forall|k: int| start <= k < i ==> url@[k] != '/',
        decreases q - i,
    {
        if url.get_char(i) == '/' {
            start = i + 1;
        }
        i += 1;
    }
    proof {
        let p = url@.take(q as int);
        assert(forall|k: int| start <= k < p.len() ==> p[k] != '/');
        if start >= 1 {
            assert(p[start - 1] == '/');
        }
        lemma_after_last_slash_scan(p, start as int);
        assert(p.skip(start as int) =~= url@.subrange(start as int, q as int));
    }
    if start == q {
        return Err(String::from_str("Invalid URL: no filename"));
    }
    let f = url.substring_char(start, q);
    Ok(f)
}

/// Whether this filename names an xz payload.
pub fn ends_with_xz(name: &str) -> (r: bool)
    ensures
        r == ends_dot_xz(name@),
{
    let len = name.unicode_len();
    if len < 3 {
        return false;
    }
    name.get_char(len - 3) == '.' && name.get_char(len - 2) == 'x' && name.get_char(len - 1) == 'z'
}

/// The final output name for a downloaded file: the filename with its
/// trailing compression suffix dropped.
pub fn output_name_for(filename: &str) -> (r: &str)
    ensures
        r@ == strip_xz_spec(filename@),
        !ends_dot_xz(r@),
{
    let mut cur: &str = filename;
    let mut len = cur.unicode_len();
    loop
        invariant
            len == cur@.len(),
            strip_xz_spec(cur@) == strip_xz_spec(filename@),
        decreases cur@.len(),
    {
        if len < 3 {
            return cur;
        }
        if !(cur.get_char(len - 3) == '.' && cur.get_char(len - 2) == 'x' && cur.get_char(
            len - 1,
        ) == 'z') {
            return cur;
        }
        let next = cur.substring_char(0, len - 3);
        proof {
            assert(next@ =~= cur@.take(cur@.len() - 3));
        }
        cur = next;
        len = len - 3;
    }
}

/// The temporary sibling a download streams into, named after the
/// file it will become so that concurrent downloads cannot collide.
pub fn temp_name_for(filename: &str) -> (r: String)
    ensures
        r@ == filename@ + ".downloading"@,
{
    let s = String::from_str(filename);
    s.concat(".downloading")
}

/// Everything a download decides from its URL alone: the filename,
/// the temporary name the stream goes to, the final output name with
/// the compression suffix dropped, and whether the payload will need
/// decompressing.
pub struct DownloadPlan {
    pub filename: String,
    pub output_name: String,
    pub temp_name: String,
    pub compressed: bool,
}

/// Derive the plan of a download from its URL. Fails exactly when
/// the URL names no file.
pub fn plan_download(url: &str) -> (r: Result<DownloadPlan, String>)
    ensures
        r is Ok <==> filename_spec(url@).len() != 0,
        match r {
            Ok(p) => {
                &&& p.filename@ == filename_spec(url@)
                &&& p.compressed == ends_dot_xz(filename_spec(url@))
                &&& p.output_name@ == strip_xz_spec(filename_spec(url@))
                &&& p.temp_name@ == filename_spec(url@) + ".downloading"@
            },
            Err(e) => e@ == "Invalid URL: no filename"@,
        },
{
    let filename = match extract_filename(url) {
        Ok(f) => f,
        Err(e) => {
            return Err(e);
        },
    };
    let compressed = ends_with_xz(filename);
    let output_name = String::from_str(output_name_for(filename));
    let temp_name = temp_name_for(filename);
    Ok(
        DownloadPlan {
            filename: String::from_str(filename),
            output_name,
            temp_name,
            compressed,
        },
    )
}

/// The files of one download in flight: the bytes at the temporary
/// path and the bytes at the final output path, `None` standing for
/// a path with no file. The application mirrors every transition on
/// the real filesystem.
pub struct DownloadJob {
    pub temp: Option<Vec<u8>>,
    pub output: Option<Vec<u8>>,
}

/// The idempotent restart: a download whose output file already
/// stands at the destination publishes that path and is complete
/// without fetching anything; otherwise nothing changes and the
/// download proceeds.
pub fn download_shortcut(output_exists: bool, output_path: String, state: &mut DownloadState) -> (
    done: bool)
    ensures
        done == output_exists,
        output_exists ==> *final(state) == (DownloadState {
            output_path: Some(output_path),
            ..*old(state)
        }),
        !output_exists ==> *final(state) == *old(state),
{
    if output_exists {
        state.set_output_path(output_path);
        true
    } else {
        false
    }
}

/// Accept or refuse the status of the server's answer: the download
/// proceeds only on a success status; any other answer is published
/// as the terminal error, named by its code, and classified as a
/// network failure.
pub fn download_response_status(status: u16, state: &mut DownloadState) -> (r: Result<
    (),
    EngineError,
>)
    ensures
        200 <= status < 300 ==> {
            &&& r == Ok::<(), EngineError>(())
            &&& *final(state) == *old(state)
        },
        !(200 <= status < 300) ==> {
            &&& r == Err::<(), EngineError>(EngineError::Network)
            &&& final(state).error matches Some(m) && m@ == "Download failed with status: "@
                + dec_str(status as int)
            &&& final(state).total_bytes == old(state).total_bytes
            &&& final(state).downloaded_bytes == old(state).downloaded_bytes
            &&& final(state).is_decompressing == old(state).is_decompressing
            &&& final(state).is_cancelled == old(state).is_cancelled
            &&& final(state).output_path == old(state).output_path
        },
{
    if 200 <= status && status < 300 {
        Ok(())
    } else {
        let digits = decimal_string(status as u64);
        let mut message = String::from_str("Download failed with status: ");
        message.append(digits.as_str());
        state.set_error(message);
        Err(EngineError::Network)
    }
}

/// Start a download: clear the progress state, publish the size the
/// server reported (0 when unknown) and create the empty temporary
/// file. No output exists yet.
pub fn download_begin(total: u64, state: &mut DownloadState) -> (job: DownloadJob)
    ensures
        final(state).total_bytes == total,
        final(state).downloaded_bytes == 0,
        !final(state).is_decompressing,
        !final(state).is_cancelled,
        final(state).error == old(state).error,
        final(state).output_path == old(state).output_path,
        job.temp is Some,
        job.temp.unwrap()@ == Seq::<u8>::empty(),
        job.output is None,
{
    state.reset();
    state.total_bytes = total;
    DownloadJob { temp: Some(Vec::new()), output: None }
}

/// Take one received chunk: observe the cancellation flag, and either
/// delete the partial temporary file and report the deliberate stop,
/// or append the chunk and publish the new byte count.
///
/// After a cancellation neither the temporary file nor any output
/// exists, so stopping a download mid-stream leaves nothing behind.
pub fn download_chunk(
    job: &mut DownloadJob,
    state: &mut DownloadState,
    data: &Vec<u8>,
) -> (r: Result<(), EngineError>)
    requires
        old(job).temp is Some,
        old(job).output is None,
        old(state).downloaded_bytes == old(job).temp.unwrap()@.len(),
    ensures
        final(state).total_bytes == old(state).total_bytes,
        final(state).is_decompressing == old(state).is_decompressing,
        final(state).is_cancelled == old(state).is_cancelled,
        final(state).error == old(state).error,
        final(state).output_path == old(state).output_path,
        final(job).output is None,
        if old(state).is_cancelled {
            &&& r == Err::<(), EngineError>(EngineError::Cancelled)
            &&& final(job).temp is None
            &&& final(state).downloaded_bytes == old(state).downloaded_bytes
        } else {
            &&& r == Ok::<(), EngineError>(())
            &&& final(job).temp is Some
            &&& final(job).temp.unwrap()@ == old(job).temp.unwrap()@ + data@
            &&& final(state).downloaded_bytes == old(state).downloaded_bytes + data@.len()
        },
{
    if state.is_cancelled {
        job.temp = None;
        return Err(EngineError::Cancelled);
    }
    match &mut job.temp {
        Some(t) => {
            t.extend_from_slice(data.as_slice());
            state.downloaded_bytes = t.len() as u64;
            Ok(())
        },
        None => unreached(),
    }
}

/// Report that the stream itself broke off: the terminal error is
/// published and classified as a network failure, distinct from a
/// deliberate cancellation, and the partial temporary file stays in
/// place for a future resume.
pub fn download_stream_failed(state: &mut DownloadState, message: String) -> (e: EngineError)
    ensures
        e == EngineError::Network,
        *final(state) == (DownloadState { error: Some(message), ..*old(state) }),
{
    state.set_error(message);
    EngineError::Network
}

/// Complete a download whose stream ended: decompress the temporary
/// file in process when the payload is compressed, or promote it to
/// the output unchanged, and publish the output name.
///
/// On success the output holds the decompressed payload, byte for
/// byte, and the temporary file is gone. A malformed compressed
/// payload fails and leaves the temporary file in place.
pub fn download_finish(
    job: &mut DownloadJob,
    state: &mut DownloadState,
    compressed: bool,
    output_name: String,
) -> (r: Result<(), EngineError>)
    requires
        old(job).temp is Some,
        old(job).output is None,
    ensures
        final(state).total_bytes == old(state).total_bytes,
        final(state).is_cancelled == old(state).is_cancelled,
        final(state).error == old(state).error,
        compressed ==> final(state).is_decompressing,
        !compressed ==> final(state).is_decompressing == old(state).is_decompressing,
        match r {
            Ok(()) => {
                &&& final(job).temp is None
                &&& final(job).output is Some
                &&& final(job).output.unwrap()@ == if compressed {
                    xz_plain(old(job).temp.unwrap()@).unwrap()
                } else {
                    old(job).temp.unwrap()@
                }
                &&& compressed ==> xz_plain(old(job).temp.unwrap()@) is Some
                &&& final(state).output_path == Some(output_name)
                &&& final(state).downloaded_bytes == if compressed {
                    final(job).output.unwrap()@.len() as int
                } else {
                    old(state).downloaded_bytes as int
                }
            },
            Err(e) => {
                &&& e == EngineError::Decompression
                &&& compressed
                &&& xz_plain(old(job).temp.unwrap()@) is None
                &&& final(job).temp == old(job).temp
                &&& final(job).output is None
                &&& final(state).output_path == old(state).output_path
                &&& final(state).downloaded_bytes == old(state).downloaded_bytes
            },
        },
{
    if compressed {
        let decoded = match &job.temp {
            Some(t) => decompress_with_rust_library(t, state),
            None => unreached(),
        };
        match decoded {
            Ok(v) => {
                job.temp = None;
                job.output = Some(v);
                state.set_output_path(output_name);
                Ok(())
            },
            Err(e) => Err(e),
        }
    } else {
        match job.temp.take() {
            Some(v) => {
                job.output = Some(v);
                state.set_output_path(output_name);
                Ok(())
            },
            None => unreached(),
        }
    }
}

} // verus!
