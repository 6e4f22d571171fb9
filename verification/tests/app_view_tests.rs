//! How the backend's reports change what the user interface shows.

use p2p_core::app_view::{AppView, LogEntry};
use p2p_core::ui::{LogType, PendingUpload, UploadConfirmState, VerificationState};
use p2p_core::AppCommand;

fn last(v: &AppView) -> (&str, LogType) {
    let e: &LogEntry = v.status_log.last().expect("a log line");
    (e.message.as_str(), e.log_type)
}

#[test]
fn a_failed_pairing_is_logged_and_keeps_the_code_dialog() {
    let mut v = AppView::new();
    v.on_request_code("10.0.0.2".to_string());
    v.on_pairing_result(false, "Desk", "Invalid code".to_string());
    assert_eq!(last(&v), ("Pairing with Desk: Invalid code", LogType::Error));
    match &v.verification_state {
        VerificationState::InputtingCode { target_ip, code_input, error_msg } => {
            assert_eq!(target_ip, "10.0.0.2");
            assert_eq!(code_input, "");
            assert_eq!(error_msg.as_deref(), Some("Invalid code"));
        }
        other => panic!("unexpected {:?}", other),
    }
    v.on_pairing_result(true, "Desk", "Verification successful".to_string());
    assert_eq!(last(&v), ("Pairing with Desk: Verification successful", LogType::Success));
    assert!(matches!(v.verification_state, VerificationState::Idle));
    assert_eq!(v.status_log.len(), 2);
}

#[test]
fn a_cancelled_upload_closes_only_its_own_dialog() {
    let mut v = AppView::new();
    v.on_upload_request(PendingUpload {
        request_id: "r2".to_string(),
        file_name: "a.txt".to_string(),
        file_size: 1,
        from_ip: "1.2.3.4".to_string(),
    });
    v.on_upload_cancelled("r1");
    assert!(matches!(v.upload_confirm_state, UploadConfirmState::Pending(_)));
    assert!(v.status_log.is_empty());
    v.on_upload_cancelled("r2");
    assert!(matches!(v.upload_confirm_state, UploadConfirmState::Idle));
    assert_eq!(last(&v), ("Upload request cancelled", LogType::Info));
}

#[test]
fn status_lines_and_share_state() {
    let mut v = AppView::new();
    assert_eq!(v.share_url, "Server not started");
    v.on_status("Manual scanning...".to_string());
    assert_eq!(last(&v), ("Manual scanning...", LogType::Info));
    v.on_error("boom");
    assert_eq!(last(&v), ("[ERROR] boom", LogType::Error));
    v.on_transfer_completed("a.txt");
    assert_eq!(last(&v), ("Transfer Complete: a.txt", LogType::Success));
    v.on_verification_completed("a.txt", false, "x");
    assert_eq!(last(&v), ("Verification: a.txt - x Corrupted", LogType::Error));
    v.on_upload_progress(5);
    assert_eq!(last(&v).0, "Verification: a.txt - x Corrupted");
    v.on_upload_progress(0);
    assert_eq!(last(&v), ("Incoming upload started...", LogType::Info));
    v.on_upload_completed("b.bin");
    assert_eq!(last(&v), ("Upload received: b.bin", LogType::Success));

    assert!(matches!(v.toggle_http(), Some(AppCommand::StartHttpServer)));
    assert!(v.toggle_http().is_none());
    v.on_http_started("http://10.0.0.1:8080/t".to_string());
    assert!(v.http_server_running && !v.http_server_pending);
    assert_eq!(v.share_url, "http://10.0.0.1:8080/t");
    assert_eq!(last(&v), ("HTTP server started", LogType::Success));
    assert!(matches!(v.toggle_http(), Some(AppCommand::StopHttpServer)));
    v.on_http_stopped();
    assert!(!v.http_server_running && !v.http_server_pending);
    assert_eq!(v.share_url, "Server not started");
    assert_eq!(last(&v), ("HTTP server stopped", LogType::Info));
}
