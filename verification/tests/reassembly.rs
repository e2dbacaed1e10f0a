use obd_bridge::ids::CanId;
use obd_bridge::isotp::FrameOutcome;
use obd_bridge::isotp::IsoTpError;
use obd_bridge::isotp::Reassembly;

const SRC: CanId = CanId::Standard(0x7EC);

#[test]
fn single_frames_emit_exactly_declared_bytes() {
    // Single-frame payloads of every length 0 to 7: the engine emits
    // exactly the bytes behind the length nibble and no flow control.
    let bytes = [0xA1u8, 0xB2, 0xC3, 0xD4, 0xE5, 0xF6, 0x17];
    for len in 0..=7usize {
        let mut frame = vec![len as u8];
        frame.extend_from_slice(&bytes[..len]);
        while frame.len() < 8 {
            frame.push(0);
        }
        let mut engine = Reassembly::new();
        match engine.handle_frame(2, SRC, &frame) {
            FrameOutcome::Complete { payload } => {
                assert_eq!(payload, bytes[..len].to_vec());
            },
            _ => panic!("single frame of length {} did not complete", len),
        }
        assert_eq!(engine.pinned_fifo(), None);
    }
}

#[test]
fn single_frame_ignores_padding() {
    let mut engine = Reassembly::new();
    match engine.handle_frame(2, SRC, &[0x02, 0x10, 0x20, 0xFF, 0xFF, 0xFF, 0xFF, 0xFF]) {
        FrameOutcome::Complete { payload } => assert_eq!(payload, vec![0x10, 0x20]),
        _ => panic!("expected completion"),
    }
}

#[test]
fn single_frame_truncated_is_rejected() {
    let mut engine = Reassembly::new();
    match engine.handle_frame(2, SRC, &[0x05, 1, 2]) {
        FrameOutcome::Rejected { error } => assert_eq!(error, IsoTpError::MalformedFrame),
        _ => panic!("expected rejection"),
    }
}

#[test]
fn multi_frame_completes_with_one_flow_control() {
    // First frame declares 10 bytes; it carries 6 and one consecutive
    // frame carries the remaining 4.  Exactly one flow-control frame
    // goes out, addressed 8 below the sender.
    let mut engine = Reassembly::new();
    match engine.handle_frame(2, SRC, &[0x10, 10, 1, 2, 3, 4, 5, 6]) {
        FrameOutcome::FlowControl { dest, frame } => {
            assert_eq!(dest, CanId::Standard(0x7E4));
            assert_eq!(frame, [0x30, 0x00, 0x0A, 0, 0, 0, 0, 0]);
        },
        _ => panic!("expected flow control"),
    }
    assert_eq!(engine.pinned_fifo(), Some(2));
    match engine.handle_frame(2, SRC, &[0x21, 7, 8, 9, 10, 0xFF, 0xFF, 0xFF]) {
        FrameOutcome::Complete { payload } => {
            assert_eq!(payload, vec![1, 2, 3, 4, 5, 6, 7, 8, 9, 10]);
        },
        _ => panic!("expected completion"),
    }
    assert_eq!(engine.pinned_fifo(), None);
}

#[test]
fn multi_frame_longer_transfer() {
    // 26 bytes: first frame carries 6, two full consecutive frames 7
    // each, a last one the remaining 6.  The buffer is exactly as long
    // as declared and the excess byte of the last frame is not taken.
    let mut engine = Reassembly::new();
    let mut expected: Vec<u8> = Vec::new();
    let first = [0x10, 26, 0, 1, 2, 3, 4, 5];
    expected.extend_from_slice(&first[2..]);
    assert!(matches!(
        engine.handle_frame(3, SRC, &first),
        FrameOutcome::FlowControl { .. }
    ));
    for (seq, base) in [(0x21u8, 10u8), (0x22, 20)] {
        let frame = [seq, base, base + 1, base + 2, base + 3, base + 4, base + 5, base + 6];
        expected.extend_from_slice(&frame[1..]);
        assert!(matches!(engine.handle_frame(3, SRC, &frame), FrameOutcome::Accepted));
        assert_eq!(engine.pinned_fifo(), Some(3));
    }
    let last = [0x23, 30, 31, 32, 33, 34, 35, 99];
    expected.extend_from_slice(&last[1..7]);
    match engine.handle_frame(3, SRC, &last) {
        FrameOutcome::Complete { payload } => {
            assert_eq!(payload.len(), 26);
            assert_eq!(payload, expected);
        },
        _ => panic!("expected completion"),
    }
}

#[test]
fn first_frame_total_beyond_buffer_is_rejected() {
    let mut engine = Reassembly::new();
    match engine.handle_frame(2, SRC, &[0x10, 100, 1, 2, 3, 4, 5, 6]) {
        FrameOutcome::Rejected { error } => assert_eq!(error, IsoTpError::TotalTooLong),
        _ => panic!("expected rejection"),
    }
    // A 12-bit total spanning the high nibble is read correctly.
    match engine.handle_frame(2, SRC, &[0x11, 0x00, 1, 2, 3, 4, 5, 6]) {
        FrameOutcome::Rejected { error } => assert_eq!(error, IsoTpError::TotalTooLong),
        _ => panic!("expected rejection"),
    }
}

#[test]
fn first_frame_total_fitting_single_frame_is_rejected() {
    let mut engine = Reassembly::new();
    match engine.handle_frame(2, SRC, &[0x10, 6, 1, 2, 3, 4, 5, 6]) {
        FrameOutcome::Rejected { error } => assert_eq!(error, IsoTpError::TotalTooShort),
        _ => panic!("expected rejection"),
    }
}

#[test]
fn first_frame_from_underflowing_sender_is_rejected() {
    // No flow-control address exists 8 below identifier 3.
    let mut engine = Reassembly::new();
    match engine.handle_frame(2, CanId::Standard(3), &[0x10, 10, 1, 2, 3, 4, 5, 6]) {
        FrameOutcome::Rejected { error } => assert_eq!(error, IsoTpError::BadSource),
        _ => panic!("expected rejection"),
    }
}

#[test]
fn consecutive_without_session_is_rejected() {
    let mut engine = Reassembly::new();
    match engine.handle_frame(2, SRC, &[0x21, 1, 2, 3, 4, 5, 6, 7]) {
        FrameOutcome::Rejected { error } => assert_eq!(error, IsoTpError::UnexpectedConsecutive),
        _ => panic!("expected rejection"),
    }
}

#[test]
fn unrelated_nibbles_are_ignored() {
    let mut engine = Reassembly::new();
    assert!(matches!(
        engine.handle_frame(2, SRC, &[0x30, 0, 10, 0, 0, 0, 0, 0]),
        FrameOutcome::Ignored
    ));
    assert!(matches!(engine.handle_frame(2, SRC, &[]), FrameOutcome::Ignored));
    assert!(matches!(engine.handle_frame(2, SRC, &[0xFF; 8]), FrameOutcome::Ignored));
}

#[test]
fn out_of_order_sequence_numbers_are_counted_not_fatal() {
    let mut engine = Reassembly::new();
    assert!(matches!(
        engine.handle_frame(2, SRC, &[0x10, 20, 1, 2, 3, 4, 5, 6]),
        FrameOutcome::FlowControl { .. }
    ));
    assert_eq!(engine.out_of_order_count(), 0);
    // Sequence number 5 where 1 was expected: counted, still absorbed.
    assert!(matches!(
        engine.handle_frame(2, SRC, &[0x25, 7, 8, 9, 10, 11, 12, 13]),
        FrameOutcome::Accepted
    ));
    assert_eq!(engine.out_of_order_count(), 1);
    match engine.handle_frame(2, SRC, &[0x22, 14, 15, 16, 17, 18, 19, 20]) {
        FrameOutcome::Complete { payload } => assert_eq!(payload.len(), 20),
        _ => panic!("expected completion"),
    }
    assert_eq!(engine.out_of_order_count(), 1);
}

#[test]
fn reset_discards_partial_transfer() {
    let mut engine = Reassembly::new();
    assert!(matches!(
        engine.handle_frame(2, SRC, &[0x10, 10, 1, 2, 3, 4, 5, 6]),
        FrameOutcome::FlowControl { .. }
    ));
    engine.reset();
    assert_eq!(engine.pinned_fifo(), None);
    match engine.handle_frame(2, SRC, &[0x21, 9, 9, 9, 9, 9, 9, 9]) {
        FrameOutcome::Rejected { error } => assert_eq!(error, IsoTpError::UnexpectedConsecutive),
        _ => panic!("expected rejection"),
    }
}

#[test]
fn new_first_frame_replaces_incomplete_session() {
    let mut engine = Reassembly::new();
    assert!(matches!(
        engine.handle_frame(2, SRC, &[0x10, 30, 1, 2, 3, 4, 5, 6]),
        FrameOutcome::FlowControl { .. }
    ));
    // A new first frame starts fresh: the old partial buffer is gone.
    assert!(matches!(
        engine.handle_frame(4, SRC, &[0x10, 8, 9, 8, 7, 6, 5, 4]),
        FrameOutcome::FlowControl { .. }
    ));
    assert_eq!(engine.pinned_fifo(), Some(4));
    match engine.handle_frame(4, SRC, &[0x21, 3, 2, 1, 0, 0, 0, 0]) {
        FrameOutcome::Complete { payload } => {
            assert_eq!(payload, vec![9, 8, 7, 6, 5, 4, 3, 2]);
        },
        _ => panic!("expected completion"),
    }
}
