use flash_engine::errors::EngineError;
use flash_engine::flash::{
    flash_begin, flash_image, flash_open_failed, flash_step, flash_write, verify_data,
};
use flash_engine::progress::FlashState;
use flash_engine::flash::first_difference;

fn image_of(len: usize) -> Vec<u8> {
    (0..len).map(|i| (i % 251) as u8).collect()
}

#[test]
fn flash_counts_every_byte_with_uneven_chunks() {
    // 10 is not a multiple of the chunk size 4.
    let image = image_of(10);
    let mut device = vec![0u8; 16];
    let mut state = FlashState::new();
    flash_begin(image.len() as u64, &mut state);
    let r = flash_write(&image, &mut device, &mut state, 4);
    assert_eq!(r, Ok(()));
    assert_eq!(state.written_bytes, 10);
    assert_eq!(&device[..10], &image[..]);
    assert_eq!(&device[10..], &[0u8; 6][..]);
}

#[test]
fn flash_counts_every_byte_with_even_chunks() {
    let image = image_of(8);
    let mut device = vec![0u8; 8];
    let mut state = FlashState::new();
    flash_begin(image.len() as u64, &mut state);
    let r = flash_write(&image, &mut device, &mut state, 4);
    assert_eq!(r, Ok(()));
    assert_eq!(state.written_bytes, 8);
    assert_eq!(device, image);
}

#[test]
fn flash_image_writes_and_verifies() {
    let image = image_of(3000);
    let mut device = vec![0u8; 4096];
    let mut state = FlashState::new();
    let r = flash_image(&image, &mut device, &mut state, true);
    assert_eq!(r, Ok(()));
    assert_eq!(state.total_bytes, 3000);
    assert_eq!(state.written_bytes, 3000);
    assert!(state.is_verifying);
}

#[test]
fn verify_reports_exact_mutation_offset() {
    let image = image_of(1000);
    let mut device = vec![0u8; 1200];
    let mut state = FlashState::new();
    flash_begin(image.len() as u64, &mut state);
    assert_eq!(flash_write(&image, &mut device, &mut state, 64), Ok(()));
    // An unmodified write verifies.
    assert_eq!(verify_data(&image, &device, &mut state, 64), Ok(()));
    // A single mutated byte is reported at its exact offset.
    device[737] ^= 0x01;
    assert_eq!(
        verify_data(&image, &device, &mut state, 64),
        Err(EngineError::VerificationMismatch(737))
    );
    // Verified progress stands at the boundary of the failing chunk.
    assert_eq!(state.written_bytes, 704);
}

#[test]
fn verify_mutation_in_last_partial_chunk() {
    let image = image_of(10);
    let mut device = vec![0u8; 10];
    let mut state = FlashState::new();
    flash_begin(image.len() as u64, &mut state);
    assert_eq!(flash_write(&image, &mut device, &mut state, 4), Ok(()));
    device[9] = device[9].wrapping_add(1);
    assert_eq!(
        verify_data(&image, &device, &mut state, 4),
        Err(EngineError::VerificationMismatch(9))
    );
}

#[test]
fn cancel_mid_write_stops_within_one_chunk() {
    let image = image_of(12);
    let mut device = vec![0u8; 16];
    let mut state = FlashState::new();
    flash_begin(image.len() as u64, &mut state);
    // First chunk goes through.
    assert_eq!(flash_step(&image, &mut device, &mut state, 4), Ok(true));
    assert_eq!(state.written_bytes, 4);
    // Cancellation raised between chunks.
    state.is_cancelled = true;
    let snapshot = device.clone();
    let r = flash_step(&image, &mut device, &mut state, 4);
    assert_eq!(r, Err(EngineError::Cancelled));
    // It is a deliberate stop, not an I/O failure, and nothing more
    // was written.
    assert!(r.unwrap_err().is_cancellation());
    assert_ne!(EngineError::Io, EngineError::Cancelled);
    assert_eq!(device, snapshot);
    assert_eq!(state.written_bytes, 4);
}

#[test]
fn failed_open_leaves_no_progress() {
    // A 10 MiB image whose device cannot be opened: the state says
    // the operation never started.
    let mut state = FlashState::new();
    flash_begin(10 * 1024 * 1024, &mut state);
    // The open failed; the worker publishes the classified error and
    // stops.
    let e = flash_open_failed(
        &mut state,
        false,
        String::from("Failed to open device for writing"),
    );
    assert_eq!(e, EngineError::Io);
    assert_eq!(state.total_bytes, 10 * 1024 * 1024);
    assert_eq!(state.written_bytes, 0);
    assert!(!state.is_verifying);
    assert_eq!(state.error.as_deref(), Some("Failed to open device for writing"));
}

#[test]
fn refused_rights_are_an_authorization_error() {
    let mut state = FlashState::new();
    flash_begin(4096, &mut state);
    let e = flash_open_failed(&mut state, true, String::from("Permission denied"));
    assert_eq!(e, EngineError::AuthorizationDenied);
    assert_eq!(state.written_bytes, 0);
}

#[test]
fn device_too_small_is_io_error() {
    let image = image_of(100);
    let mut device = vec![0u8; 10];
    let mut state = FlashState::new();
    let r = flash_image(&image, &mut device, &mut state, false);
    assert_eq!(r, Err(EngineError::Io));

    // With a small chunk, the chunks that fit whole land first.
    let mut device = vec![0u8; 10];
    let mut state = FlashState::new();
    flash_begin(image.len() as u64, &mut state);
    assert_eq!(flash_write(&image, &mut device, &mut state, 4), Err(EngineError::Io));
    assert_eq!(state.written_bytes, 8);
    assert_eq!(&device[..8], &image[..8]);
}

#[test]
fn reset_clears_counters_and_flags() {
    let mut state = FlashState::new();
    state.total_bytes = 77;
    state.written_bytes = 33;
    state.is_verifying = true;
    state.is_cancelled = true;
    state.set_error(String::from("boom"));
    state.reset();
    assert_eq!(state.total_bytes, 0);
    assert_eq!(state.written_bytes, 0);
    assert!(!state.is_verifying);
    assert!(!state.is_cancelled);
    // The published error stays until the next operation overwrites
    // it, and overwriting replaces it outright.
    assert_eq!(state.error.as_deref(), Some("boom"));
    state.set_error(String::from("later"));
    assert_eq!(state.error.as_deref(), Some("later"));
}

#[test]
fn first_difference_finds_the_byte() {
    let a = vec![1u8, 2, 3, 4];
    let b = vec![1u8, 2, 9, 4];
    assert_eq!(first_difference(&a, &b), Some(2));
    assert_eq!(first_difference(&a, &a.clone()), None);
    // Only the common prefix is compared; length is the caller's check.
    assert_eq!(first_difference(&a, &vec![1u8, 2]), None);
}
