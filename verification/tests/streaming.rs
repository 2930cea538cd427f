use thermal_bringup::acquisition::{classify_read, frame_header, run_acquisition, LoopStep};
use thermal_bringup::config::FRAME_CAPACITY;
use thermal_bringup::transport::TransferOutcome;

#[test]
fn classify_each_outcome() {
    assert_eq!(
        classify_read(TransferOutcome::Completed(512)),
        LoopStep::Deliver(512)
    );
    assert_eq!(classify_read(TransferOutcome::TimedOut), LoopStep::Poll);
    assert_eq!(classify_read(TransferOutcome::Faulted), LoopStep::Stop);
}

#[test]
fn timeouts_are_transparent() {
    let reads = vec![TransferOutcome::TimedOut; 50];
    let report = run_acquisition(&reads);
    assert!(report.frames.is_empty());
    assert!(!report.faulted);
}

#[test]
fn fault_ends_the_run_after_earlier_frames() {
    let reads = vec![
        TransferOutcome::Completed(4096),
        TransferOutcome::TimedOut,
        TransferOutcome::Completed(10),
        TransferOutcome::Faulted,
        TransferOutcome::Completed(7),
    ];
    let report = run_acquisition(&reads);
    assert!(report.faulted);
    // Frames delivered before the fault, in order; none after it.
    assert_eq!(report.frames, vec![4096, 10]);
}

#[test]
fn uninterrupted_run_delivers_every_frame() {
    let reads = vec![
        TransferOutcome::Completed(0),
        TransferOutcome::Completed(16),
        TransferOutcome::Completed(4096),
    ];
    let report = run_acquisition(&reads);
    assert!(!report.faulted);
    assert_eq!(report.frames, vec![0, 16, 4096]);
}

#[test]
fn partial_frame_header_stays_within_count() {
    let mut buffer = vec![0u8; FRAME_CAPACITY];
    for (i, b) in buffer.iter_mut().enumerate() {
        *b = (i % 251) as u8;
    }
    // A 10-byte packet: exactly the 10 reported bytes are inspected,
    // although the buffer holds stale data past them.
    let header = frame_header(&buffer, 10);
    assert_eq!(header, vec![0, 1, 2, 3, 4, 5, 6, 7, 8, 9]);
}

#[test]
fn full_frame_header_is_sixteen_bytes() {
    let mut buffer = vec![0u8; FRAME_CAPACITY];
    for (i, b) in buffer.iter_mut().enumerate() {
        *b = (i % 251) as u8;
    }
    let header = frame_header(&buffer, 4096);
    assert_eq!(header.len(), 16);
    assert_eq!(
        header,
        vec![0, 1, 2, 3, 4, 5, 6, 7, 8, 9, 10, 11, 12, 13, 14, 15]
    );
}

#[test]
fn empty_frame_has_empty_header() {
    let buffer = vec![0xAAu8; FRAME_CAPACITY];
    let header = frame_header(&buffer, 0);
    assert!(header.is_empty());
}

#[test]
fn sixteen_byte_frame_header_is_whole_frame() {
    let buffer: Vec<u8> = (1..=32).collect();
    let header = frame_header(&buffer, 16);
    assert_eq!(header, (1..=16).collect::<Vec<u8>>());
}
