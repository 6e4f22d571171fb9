//! Tests of the transfer checks, names, framing, digests and the decisions
//! taken while a file is sent or received.

use p2p_core::transfer::constants::{
    BUFFER_SIZE, MAX_FILENAME_LENGTH, MAX_FILE_SIZE, MAX_MESSAGE_SIZE, MAX_MSG_SIZE,
};
use p2p_core::transfer::hash::hash_contents;
use p2p_core::transfer::protocol::{decode_frame_len, encode_frame, parse_frame, FrameError, TransferMsg};
use p2p_core::transfer::receiver::{
    hash_matches, next_read_len, receiving_status, resume_offset, should_report_progress,
};
use p2p_core::transfer::sender::{resume_point, sending_status};
use p2p_core::transfer::utils::{sanitize_file_name, validate_transfer_info, TransferRejection};
use p2p_core::transfer::TransferContext;

#[test]
fn test_validate_transfer_info() {
    assert!(validate_transfer_info("valid.txt", 1024).is_ok());

    assert!(validate_transfer_info("huge.txt", MAX_FILE_SIZE + 1).is_err());

    let long_name = "a".repeat(MAX_FILENAME_LENGTH + 1);
    assert!(validate_transfer_info(&long_name, 1024).is_err());
}

#[test]
fn transfer_rejections_and_messages() {
    let e = validate_transfer_info("huge.txt", MAX_FILE_SIZE + 1).unwrap_err();
    assert_eq!(
        e,
        TransferRejection::FileTooLarge { file_name: "huge.txt".to_string(), file_size: MAX_FILE_SIZE + 1 }
    );
    assert_eq!(
        e.message(),
        "File rejected: huge.txt (10 GB) exceeds maximum allowed size of 10 GB"
    );
    let long_name = "a".repeat(MAX_FILENAME_LENGTH + 1);
    let e = validate_transfer_info(&long_name, 1024).unwrap_err();
    assert_eq!(e, TransferRejection::FileNameTooLong { name_length: 256 });
    assert_eq!(e.message(), "File rejected: Filename too long (256 chars, max 255)");
    // The size is checked first.
    assert!(matches!(
        validate_transfer_info(&long_name, MAX_FILE_SIZE + 1),
        Err(TransferRejection::FileTooLarge { .. })
    ));
    assert!(validate_transfer_info("", MAX_FILE_SIZE).is_ok());
}

#[test]
fn test_sanitize_file_name() {
    assert_eq!(sanitize_file_name("normal_file.txt"), "normal_file.txt");
    assert_eq!(sanitize_file_name("path/to/file.txt"), "file.txt");
    assert_eq!(sanitize_file_name("/absolute/path/to/file.txt"), "file.txt");
    assert_eq!(sanitize_file_name("path\\to\\windows\\file.txt"), "file.txt");
    assert_eq!(sanitize_file_name("mixed/path\\to/file.txt"), "file.txt");

    assert_eq!(sanitize_file_name("../../etc/passwd"), "passwd");
    assert_eq!(sanitize_file_name(".."), "unknown_file.bin");
    assert_eq!(sanitize_file_name("."), "unknown_file.bin");
    assert_eq!(sanitize_file_name(""), "unknown_file.bin");
    assert_eq!(sanitize_file_name("   "), "unknown_file.bin");
    assert_eq!(sanitize_file_name("foo/../bar.txt"), "bar.txt");

    assert_eq!(sanitize_file_name("file\nname.txt"), "filename.txt");
    assert_eq!(sanitize_file_name("file\0name.txt"), "filename.txt");

    assert_eq!(sanitize_file_name("CON"), "_CON");
    assert_eq!(sanitize_file_name("con.txt"), "_con.txt");
    assert_eq!(sanitize_file_name("LPT1"), "_LPT1");
    assert_eq!(sanitize_file_name("aux"), "_aux");

    assert_eq!(sanitize_file_name("文件.txt"), "文件.txt");
}

#[test]
fn sanitize_file_name_edge_cases() {
    // Trailing separator: the last segment is empty.
    assert_eq!(sanitize_file_name("dir/"), "unknown_file.bin");
    // Surrounding white space is trimmed after control characters go.
    assert_eq!(sanitize_file_name("  a.txt \t"), "a.txt");
    // Only the part before the first dot decides a reserved name.
    assert_eq!(sanitize_file_name("nul.txt"), "_nul.txt");
    // The stem ends at the last dot.
    assert_eq!(sanitize_file_name("nul.tar.gz"), "nul.tar.gz");
    assert_eq!(sanitize_file_name("COM9"), "_COM9");
    assert_eq!(sanitize_file_name("COM10"), "COM10");
    assert_eq!(sanitize_file_name("console"), "console");
    // A hidden file keeps its name.
    assert_eq!(sanitize_file_name(".bashrc"), ".bashrc");
    // Sanitizing twice changes nothing.
    for s in ["CON", "../x", " a ", "file\u{7f}name", "...", "a\u{85}b"] {
        let once = sanitize_file_name(s);
        assert_eq!(sanitize_file_name(&once), once);
        assert!(!once.contains('/') && !once.contains('\\'));
        assert!(!once.is_empty());
    }
}

#[test]
fn limits() {
    assert_eq!(MAX_MSG_SIZE, 64 * 1024);
    assert_eq!(MAX_MESSAGE_SIZE, MAX_MSG_SIZE);
    assert_eq!(MAX_FILE_SIZE, 10 * 1024 * 1024 * 1024);
    assert_eq!(BUFFER_SIZE, 16 * 1024 * 1024);
}

#[test]
fn frames_roundtrip() {
    let payload = b"{\"ResumeInfo\":{\"offset\":5}}";
    let mut buf = encode_frame(payload);
    assert_eq!(&buf[..4], &(payload.len() as u32).to_be_bytes());
    buf.extend_from_slice(b"trailing");
    let (p, used) = parse_frame(&buf).unwrap();
    assert_eq!(p, payload.to_vec());
    assert_eq!(used, 4 + payload.len());
    let empty = encode_frame(b"");
    assert_eq!(empty, vec![0, 0, 0, 0]);
    assert_eq!(parse_frame(&empty).unwrap(), (Vec::new(), 4));
}

#[test]
fn test_recv_msg_limit() {
    assert!(matches!(parse_frame(&[0, 0, 0]), Err(FrameError::Incomplete)));
    assert!(matches!(parse_frame(&[0, 0, 0, 5, 1, 2]), Err(FrameError::Incomplete)));
    // 64 KiB + 1 is refused before any payload is read.
    let too_big = ((MAX_MESSAGE_SIZE + 1) as u32).to_be_bytes();
    match decode_frame_len(too_big) {
        Err(e @ FrameError::MessageTooLarge { .. }) => {
            assert!(matches!(e, FrameError::MessageTooLarge { len: 65537 }));
            assert_eq!(e.message(), "Message too large: 65537 bytes (max 65536)");
            assert!(e.message().contains("Message too large"));
        }
        other => panic!("unexpected {:?}", other),
    }
    assert!(matches!(parse_frame(&too_big), Err(FrameError::MessageTooLarge { len: 65537 })));
    assert!(matches!(decode_frame_len((MAX_MESSAGE_SIZE as u32).to_be_bytes()), Ok(65536)));
    assert!(matches!(decode_frame_len([0xff, 0xff, 0xff, 0xff]), Err(FrameError::MessageTooLarge { .. })));
    assert_eq!(FrameError::Incomplete.message(), "Incomplete frame");
}

#[test]
fn blake3_digests() {
    assert_eq!(
        hash_contents(b""),
        "af1349b9f5f9a1a6a0404dea36dcc9499bcb25c9adc112b7cc9a93cae41f3262"
    );
    assert_eq!(
        hash_contents(b"abc"),
        "6437b3ac38465133ffb63b75273a8db548c558465d79db03fd359c6cd5bd9d85"
    );
    let h = hash_contents(b"CONTENT");
    assert_eq!(h.len(), 64);
    assert!(h.chars().all(|c| c.is_ascii_digit() || ('a'..='f').contains(&c)));
    assert!(hash_matches(&h, &hash_contents(b"CONTENT")));
    assert!(!hash_matches(&h, &hash_contents(b"CONTENT!")));
}

#[test]
fn receiver_decisions() {
    assert_eq!(resume_offset(None, 100), 0);
    assert_eq!(resume_offset(Some(40), 100), 40);
    assert_eq!(resume_offset(Some(100), 100), 0);
    assert_eq!(resume_offset(Some(150), 100), 0);

    assert_eq!(next_read_len(0, 10), 10);
    assert_eq!(next_read_len(0, (BUFFER_SIZE as u64) * 3), BUFFER_SIZE);
    assert_eq!(next_read_len((BUFFER_SIZE as u64) * 3 - 1, (BUFFER_SIZE as u64) * 3), 1);

    assert!(should_report_progress(100, 100, 99));
    assert!(!should_report_progress(10, 100, 0));
    assert!(should_report_progress(BUFFER_SIZE as u64, u64::MAX, 0));
    assert!(!should_report_progress(BUFFER_SIZE as u64, u64::MAX, 1));

    assert_eq!(receiving_status("a.txt", 2048), "Receiving: a.txt (2048 bytes)");
    assert_eq!(receiving_status("", 0), "Receiving:  (0 bytes)");
}

#[test]
fn sender_decisions() {
    let ctx = TransferContext {
        my_peer_id: "me-1".to_string(),
        my_name: "Laptop".to_string(),
        target_peer_name: "Desktop".to_string(),
    };
    match ctx.pairing_request() {
        TransferMsg::PairingRequest { endpoint_id, peer_name } => {
            assert_eq!(endpoint_id, "me-1");
            assert_eq!(peer_name, "Laptop");
        }
        other => panic!("unexpected {:?}", other),
    }
    assert_eq!(ctx.connecting_status("10.0.0.2:9000"), "Connecting to: Desktop (10.0.0.2:9000)");
    assert_eq!(sending_status("b.bin", 7), "Sending: b.bin (7 bytes)");
    assert_eq!(resume_point(&TransferMsg::ResumeInfo { offset: 12 }), Some(12));
    assert_eq!(resume_point(&TransferMsg::ReadyForData), None);
    assert_eq!(resume_point(&TransferMsg::TransferComplete), None);
}
