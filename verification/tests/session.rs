use spi_poll::error::{ErrorKind, PollError};
use spi_poll::session::{complete_read, finish_read, seed_buffer, BusMode, ReadResult, Transfer};

#[test]
fn seed_buffer_of_zero_is_empty() {
    assert_eq!(seed_buffer(0), Vec::<u8>::new());
}

#[test]
fn seed_buffer_counts_up_from_zero() {
    assert_eq!(seed_buffer(1), vec![0]);
    assert_eq!(seed_buffer(5), vec![0, 1, 2, 3, 4]);
}

#[test]
fn seed_buffer_has_exactly_the_requested_length() {
    for n in [0usize, 1, 2, 31, 32, 33, 255, 256, 257, 1000] {
        assert_eq!(seed_buffer(n).len(), n);
    }
}

#[test]
fn seed_buffer_wraps_after_255() {
    let buffer = seed_buffer(600);
    assert_eq!(buffer[255], 255);
    assert_eq!(buffer[256], 0);
    assert_eq!(buffer[257], 1);
    assert_eq!(buffer[511], 255);
    assert_eq!(buffer[512], 0);
    assert_eq!(buffer[599], 87);
    for (i, byte) in buffer.iter().enumerate() {
        assert_eq!(*byte as usize, i % 256);
    }
}

#[test]
fn full_read_returns_the_whole_buffer() {
    let buffer = vec![0xDE, 0xAD, 0xBE, 0xEF];
    let result = complete_read(Transfer { buffer: buffer.clone(), count: 4 });
    assert_eq!(result, ReadResult { requested: 4, bytes: buffer });
}

#[test]
fn full_read_of_untouched_buffer_returns_the_seed() {
    let result = complete_read(Transfer { buffer: seed_buffer(32), count: 32 });
    assert_eq!(result.requested, 32);
    assert_eq!(result.bytes, (0u8..32).collect::<Vec<u8>>());
}

#[test]
fn short_read_is_cut_from_the_front() {
    let buffer = vec![0xAA, 0xBB, 0xCC, 3, 4, 5];
    let result = complete_read(Transfer { buffer, count: 3 });
    assert_eq!(result.requested, 6);
    assert_eq!(result.bytes, vec![0xAA, 0xBB, 0xCC]);
}

#[test]
fn short_read_length_is_the_reported_count() {
    for count in 0usize..=8 {
        let result = complete_read(Transfer { buffer: seed_buffer(8), count });
        assert_eq!(result.bytes.len(), count);
        assert!(result.bytes.len() <= result.requested);
        assert_eq!(result.bytes, seed_buffer(8)[..count].to_vec());
    }
}

#[test]
fn read_of_nothing_from_a_filled_buffer_is_empty() {
    let result = complete_read(Transfer { buffer: vec![9, 9, 9], count: 0 });
    assert_eq!(result, ReadResult { requested: 3, bytes: vec![] });
}

#[test]
fn read_of_size_zero_is_empty() {
    let result = complete_read(Transfer { buffer: seed_buffer(0), count: 0 });
    assert_eq!(result, ReadResult { requested: 0, bytes: vec![] });
}

#[test]
fn transfer_is_well_formed_when_the_count_fits() {
    assert!(Transfer { buffer: vec![1, 2], count: 0 }.is_wf());
    assert!(Transfer { buffer: vec![1, 2], count: 2 }.is_wf());
    assert!(!Transfer { buffer: vec![1, 2], count: 3 }.is_wf());
    assert!(Transfer { buffer: vec![], count: 0 }.is_wf());
    assert!(!Transfer { buffer: vec![], count: 1 }.is_wf());
}

#[test]
fn finish_read_keeps_a_successful_transfer() {
    let outcome = finish_read(Ok(Transfer { buffer: vec![7, 8, 9, 3], count: 2 }));
    assert_eq!(outcome, Ok(ReadResult { requested: 4, bytes: vec![7, 8] }));
}

#[test]
fn finish_read_turns_a_driver_error_into_read_failed() {
    let outcome = finish_read(Err(String::from("Input/output error (os error 5)")));
    assert_eq!(
        outcome,
        Err(PollError {
            kind: ErrorKind::ReadFailed,
            detail: String::from("Input/output error (os error 5)"),
        })
    );
}

#[test]
fn session_mode_is_mode_one() {
    let mode = BusMode::session();
    assert_eq!(mode, BusMode { clock_polarity: false, clock_phase: true });
    assert_eq!(mode.bits(), 1);
}

#[test]
fn bus_mode_bits_number_the_four_modes() {
    assert_eq!(BusMode { clock_polarity: false, clock_phase: false }.bits(), 0);
    assert_eq!(BusMode { clock_polarity: false, clock_phase: true }.bits(), 1);
    assert_eq!(BusMode { clock_polarity: true, clock_phase: false }.bits(), 2);
    assert_eq!(BusMode { clock_polarity: true, clock_phase: true }.bits(), 3);
}
