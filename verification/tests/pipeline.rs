use flash_engine::decompress::{decompress_with_rust_library, needs_decompression};
use flash_engine::download::{
    download_begin, download_chunk, download_finish, download_response_status, download_shortcut,
    download_stream_failed, extract_filename, plan_download,
};
use flash_engine::errors::EngineError;
use flash_engine::progress::DownloadState;

fn xz_bytes(payload: &[u8]) -> Vec<u8> {
    let mut compressed = Vec::new();
    let mut reader = payload;
    lzma_rs::xz_compress(&mut reader, &mut compressed).unwrap();
    compressed
}

#[test]
fn extract_filename_takes_last_segment() {
    assert_eq!(
        extract_filename("https://dl.example.org/images/board.img.xz"),
        Ok("board.img.xz")
    );
    assert_eq!(
        extract_filename("https://dl.example.org/images/board.img.xz?token=abc"),
        Ok("board.img.xz")
    );
    assert_eq!(extract_filename("bare-name"), Ok("bare-name"));
    assert_eq!(
        extract_filename("https://dl.example.org/images/"),
        Err(String::from("Invalid URL: no filename"))
    );
    assert_eq!(
        extract_filename("https://dl.example.org/x/?q=1"),
        Err(String::from("Invalid URL: no filename"))
    );
}

#[test]
fn plan_strips_compression_suffix() {
    let plan = plan_download("https://host/a/b/system.img.xz").unwrap();
    assert_eq!(plan.filename, "system.img.xz");
    assert!(plan.compressed);
    assert_eq!(plan.output_name, "system.img");
    assert_eq!(plan.temp_name, "system.img.xz.downloading");

    let plain = plan_download("https://host/a/b/system.img").unwrap();
    assert!(!plain.compressed);
    assert_eq!(plain.output_name, "system.img");
    assert_eq!(plain.temp_name, "system.img.downloading");
}

#[test]
fn existing_output_short_circuits() {
    let mut state = DownloadState::new();
    assert!(download_shortcut(true, String::from("disk.img"), &mut state));
    assert_eq!(state.output_path.as_deref(), Some("disk.img"));

    let mut fresh = DownloadState::new();
    assert!(!download_shortcut(false, String::from("disk.img"), &mut fresh));
    assert_eq!(fresh.output_path, None);
}

#[test]
fn non_success_status_is_a_network_error() {
    let mut state = DownloadState::new();
    assert_eq!(download_response_status(200, &mut state), Ok(()));
    assert_eq!(download_response_status(206, &mut state), Ok(()));
    assert_eq!(state.error, None);
    let r = download_response_status(404, &mut state);
    assert_eq!(r, Err(EngineError::Network));
    assert_eq!(state.error.as_deref(), Some("Download failed with status: 404"));
}

#[test]
fn cancel_mid_stream_leaves_no_files() {
    let mut state = DownloadState::new();
    let mut job = download_begin(100, &mut state);
    assert_eq!(download_chunk(&mut job, &mut state, &vec![1, 2, 3]), Ok(()));
    assert_eq!(download_chunk(&mut job, &mut state, &vec![4, 5]), Ok(()));
    assert_eq!(state.downloaded_bytes, 5);
    // Cancellation raised between chunks.
    state.is_cancelled = true;
    let r = download_chunk(&mut job, &mut state, &vec![6, 7]);
    assert_eq!(r, Err(EngineError::Cancelled));
    assert!(r.unwrap_err().is_cancellation());
    // Neither the temporary file nor any output remains.
    assert!(job.temp.is_none());
    assert!(job.output.is_none());
}

#[test]
fn download_of_compressed_payload_round_trips() {
    let payload: Vec<u8> = (0..40_000u32).map(|i| (i * 7 % 256) as u8).collect();
    let compressed = xz_bytes(&payload);

    let plan = plan_download("https://host/images/disk.img.xz").unwrap();
    assert!(plan.compressed);

    let mut state = DownloadState::new();
    let mut job = download_begin(compressed.len() as u64, &mut state);
    for chunk in compressed.chunks(1000) {
        assert_eq!(download_chunk(&mut job, &mut state, &chunk.to_vec()), Ok(()));
    }
    assert_eq!(state.downloaded_bytes, compressed.len() as u64);
    assert_eq!(
        download_finish(&mut job, &mut state, plan.compressed, plan.output_name.clone()),
        Ok(())
    );
    // The output carries the decompressed payload, byte for byte,
    // under the stripped name; the temporary file is gone.
    assert!(state.is_decompressing);
    assert_eq!(job.temp, None);
    assert_eq!(job.output.as_ref().unwrap(), &payload);
    assert_eq!(state.output_path.as_deref(), Some("disk.img"));
}

#[test]
fn download_of_plain_payload_is_renamed() {
    let payload = vec![9u8; 2048];
    let plan = plan_download("https://host/images/disk.img").unwrap();
    let mut state = DownloadState::new();
    let mut job = download_begin(payload.len() as u64, &mut state);
    assert_eq!(download_chunk(&mut job, &mut state, &payload), Ok(()));
    assert_eq!(
        download_finish(&mut job, &mut state, plan.compressed, plan.output_name.clone()),
        Ok(())
    );
    assert!(!state.is_decompressing);
    assert_eq!(job.temp, None);
    assert_eq!(job.output.as_ref().unwrap(), &payload);
    assert_eq!(state.output_path.as_deref(), Some("disk.img"));
}

#[test]
fn broken_stream_is_a_network_error() {
    let mut state = DownloadState::new();
    let mut job = download_begin(100, &mut state);
    assert_eq!(download_chunk(&mut job, &mut state, &vec![1, 2, 3]), Ok(()));
    // The stream broke off; the partial temporary file stays for a
    // future resume, unlike on cancellation.
    let e = download_stream_failed(&mut state, String::from("Download error: reset by peer"));
    assert_eq!(e, EngineError::Network);
    assert!(job.temp.is_some());
    assert_eq!(state.error.as_deref(), Some("Download error: reset by peer"));
}

#[test]
fn malformed_payload_is_a_decompression_error() {
    let mut state = DownloadState::new();
    let garbage = vec![0u8; 64];
    let r = decompress_with_rust_library(&garbage, &mut state);
    assert_eq!(r, Err(EngineError::Decompression));
}

fn crc32(data: &[u8]) -> u32 {
    let mut crc: u32 = !0;
    for &b in data {
        crc ^= b as u32;
        for _ in 0..8 {
            crc = (crc >> 1) ^ (0xEDB88320 & (0u32.wrapping_sub(crc & 1)));
        }
    }
    !crc
}

#[test]
fn crafted_footer_is_an_error_not_an_abort() {
    // A stream whose checks all pass up to a footer carrying the
    // largest possible backward-size field: the decoder must report
    // an error and return.
    let mut crafted = vec![0xfd, 0x37, 0x7a, 0x58, 0x5a, 0x00];
    let header_flags = [0x00u8, 0x00];
    crafted.extend_from_slice(&header_flags);
    crafted.extend_from_slice(&crc32(&header_flags).to_le_bytes());
    let index = [0x00u8, 0x00, 0x00, 0x00];
    crafted.extend_from_slice(&index);
    crafted.extend_from_slice(&crc32(&index).to_le_bytes());
    crafted.extend_from_slice(&[0x00, 0x00, 0x00, 0x00]);
    crafted.extend_from_slice(&[0xff, 0xff, 0xff, 0xff]);
    crafted.extend_from_slice(&header_flags);
    crafted.extend_from_slice(b"YZ");

    let mut state = DownloadState::new();
    let r = decompress_with_rust_library(&crafted, &mut state);
    assert_eq!(r, Err(EngineError::Decompression));
}

#[test]
fn fallback_decoder_decodes_and_reports_progress() {
    let payload: Vec<u8> = (0..10_000u32).map(|i| (i % 251) as u8).collect();
    let compressed = xz_bytes(&payload);
    let mut state = DownloadState::new();
    let out = decompress_with_rust_library(&compressed, &mut state).unwrap();
    assert_eq!(out, payload);
    assert!(state.is_decompressing);
    assert_eq!(state.downloaded_bytes, payload.len() as u64);
}

#[test]
fn signature_detects_compressed_local_files() {
    let payload = b"some local image".to_vec();
    let compressed = xz_bytes(&payload);
    assert!(needs_decompression(&compressed));
    assert!(!needs_decompression(&payload));
    assert!(!needs_decompression(&vec![0xfd, 0x37]));
}

#[test]
fn download_state_reset_clears_counters_and_flags() {
    let mut state = DownloadState::new();
    state.total_bytes = 10;
    state.downloaded_bytes = 4;
    state.is_decompressing = true;
    state.is_cancelled = true;
    state.set_output_path(String::from("old.img"));
    state.reset();
    assert_eq!(state.total_bytes, 0);
    assert_eq!(state.downloaded_bytes, 0);
    assert!(!state.is_decompressing);
    assert!(!state.is_cancelled);
    assert_eq!(state.output_path.as_deref(), Some("old.img"));
    state.set_output_path(String::from("new.img"));
    assert_eq!(state.output_path.as_deref(), Some("new.img"));
}
