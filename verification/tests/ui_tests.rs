//! Tests of the user-interface state that does not depend on drawing.

use p2p_core::ui::{
    classify_status, code_ready_to_submit, parse_peer_label, peer_label, AppUIState, LogType,
    PendingUpload, ShareTab, UploadConfirmState, VerificationState, WanConnectState,
};

#[test]
fn defaults() {
    let s = AppUIState::default();
    assert!(!s.show_devices && !s.show_files && !s.show_qrcode && !s.show_wan_connect);
    assert_eq!(ShareTab::default(), ShareTab::Lan);
    assert!(matches!(VerificationState::default(), VerificationState::Idle));
    assert!(matches!(UploadConfirmState::default(), UploadConfirmState::Idle));
}

#[test]
fn a_failed_code_keeps_the_dialog_open() {
    let mut v = VerificationState::ask_code("10.0.0.2".to_string());
    v.on_pairing_result(false, "Invalid code".to_string());
    match &v {
        VerificationState::InputtingCode { target_ip, code_input, error_msg } => {
            assert_eq!(target_ip, "10.0.0.2");
            assert_eq!(code_input, "");
            assert_eq!(error_msg.as_deref(), Some("Invalid code"));
        }
        other => panic!("unexpected {:?}", other),
    }
    v.on_pairing_result(true, "ok".to_string());
    assert!(matches!(v, VerificationState::Idle));

    let mut shown = VerificationState::show_code("1234".to_string(), "1.2.3.4".to_string(), "PC".to_string());
    shown.on_pairing_result(false, "Invalid code".to_string());
    assert!(matches!(shown, VerificationState::Idle));
}

#[test]
fn codes_are_submitted_at_four_bytes() {
    assert!(code_ready_to_submit("1234"));
    assert!(!code_ready_to_submit("123"));
    assert!(!code_ready_to_submit("12345"));
}

#[test]
fn cancelling_closes_only_the_matching_dialog() {
    let mut s = UploadConfirmState::Pending(PendingUpload {
        request_id: "r1".to_string(),
        file_name: "a.txt".to_string(),
        file_size: 3,
        from_ip: "1.2.3.4".to_string(),
    });
    assert!(!s.on_cancelled("r2"));
    assert!(matches!(s, UploadConfirmState::Pending(_)));
    assert!(s.on_cancelled("r1"));
    assert!(matches!(s, UploadConfirmState::Idle));
    assert!(!s.on_cancelled("r1"));
}

#[test]
fn wan_connect_form() {
    let mut w = WanConnectState::new("my-id".to_string());
    assert_eq!(w.my_endpoint_id, "my-id");
    assert_eq!(w.start_connecting(), None);
    assert_eq!(w.connection_status, "");
    w.target_endpoint_id = "   ".to_string();
    assert_eq!(w.connect_target(), None);
    w.target_endpoint_id = "  abc123 \n".to_string();
    assert_eq!(w.connect_target(), Some("abc123".to_string()));
    assert_eq!(w.start_connecting(), Some("abc123".to_string()));
    assert_eq!(w.connection_status, "Connecting to abc123...");
}

#[test]
fn status_colours() {
    assert_eq!(classify_status("Error sending a.txt"), LogType::Error);
    assert_eq!(classify_status("Transfer Complete, but an error occurred"), LogType::Error);
    assert_eq!(classify_status("Transfer Complete"), LogType::Success);
    assert_eq!(classify_status("Verified"), LogType::Success);
    assert_eq!(classify_status("Connecting to: x"), LogType::Warning);
    assert_eq!(classify_status("Starting file transfer"), LogType::Warning);
    assert_eq!(classify_status("Manual scanning..."), LogType::Info);
    assert_eq!(classify_status(""), LogType::Info);
}

#[test]
fn peer_labels_roundtrip() {
    let label = peer_label("Desk PC", "192.168.1.9");
    assert_eq!(label, "Desk PC (192.168.1.9)");
    assert_eq!(
        parse_peer_label(&label),
        Some(("192.168.1.9".to_string(), "Desk PC".to_string()))
    );
    // The last parentheses decide.
    assert_eq!(
        parse_peer_label("Box (old) (10.0.0.1)"),
        Some(("10.0.0.1".to_string(), "Box (old)".to_string()))
    );
    assert_eq!(parse_peer_label("no address"), None);
    assert_eq!(parse_peer_label(")("), None);
}
