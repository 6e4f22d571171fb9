//! Tests of the HTTP share: host sanitizing, the security policy, URLs,
//! address selection, upload admission and the upload table.

use p2p_core::http_share::server::{
    content_security_policy, generate_request_id, generate_session_token, sanitize_host,
    select_local_ip, share_url, tunnel_public_url, IpCandidate, HTTP_PORT,
};
use p2p_core::http_share::websocket::handler::{
    after_user_wait, plan_chunk, upload_progress_due, ChunkPlan, ConnectionCounter, UserWait,
    WaitStep,
};
use p2p_core::http_share::websocket::utils::validate_file_info;
use p2p_core::http_share::websocket::ServerMessage;
use p2p_core::http_share::websocket::{
    cleanup_pending, respond_to_upload, UploadState, MAX_ACTIVE_UPLOADS, MAX_CONNECTIONS, MAX_PENDING_UPLOADS,
};
use p2p_core::transfer::constants::{MAX_FILENAME_LENGTH, MAX_FILE_SIZE};

#[test]
fn test_sanitize_host() {
    assert_eq!(sanitize_host("example.com"), "example.com");
    assert_eq!(sanitize_host("localhost:8080"), "localhost:8080");
    assert_eq!(sanitize_host("[::1]:8080"), "[::1]:8080");

    // Injection attempts
    assert_eq!(sanitize_host("example.com; script-src 'unsafe-inline'"), "localhost");
    assert_eq!(sanitize_host("evil.com\r\nHeader: value"), "localhost");
}

#[test]
fn sanitize_host_keeps_unicode_letters() {
    assert_eq!(sanitize_host("bücher.de"), "bücher.de");
    assert_eq!(sanitize_host(""), "");
    assert_eq!(sanitize_host("a b"), "localhost");
    assert_eq!(sanitize_host("a_b"), "localhost");
}

#[test]
fn test_constants() {
    assert_eq!(MAX_FILENAME_LENGTH, 255);
    assert!(MAX_FILE_SIZE > 0);
    assert_eq!(MAX_PENDING_UPLOADS, 10);
}

#[test]
fn test_validate_file_info() {
    assert!(validate_file_info("test.txt", 1024).is_ok());

    let long_name = "a".repeat(MAX_FILENAME_LENGTH + 1);
    assert!(validate_file_info(&long_name, 1024).is_err());

    assert!(validate_file_info("test.txt", MAX_FILE_SIZE + 1).is_err());
}

#[test]
fn validate_file_info_messages() {
    let long_name = "a".repeat(MAX_FILENAME_LENGTH + 1);
    assert_eq!(
        validate_file_info(&long_name, 1024),
        Err("Filename too long (max 255 characters)".to_string())
    );
    assert_eq!(
        validate_file_info("test.txt", MAX_FILE_SIZE + 1),
        Err("File too large (max 10 GB)".to_string())
    );
    // The name is checked first.
    assert_eq!(
        validate_file_info(&long_name, MAX_FILE_SIZE + 1),
        Err("Filename too long (max 255 characters)".to_string())
    );
    // The limits themselves are accepted.
    let max_name = "a".repeat(MAX_FILENAME_LENGTH);
    assert!(validate_file_info(&max_name, MAX_FILE_SIZE).is_ok());
    // Length is counted in UTF-8 bytes: 86 three-byte characters are too long.
    let wide = "文".repeat(86);
    assert!(validate_file_info(&wide, 1).is_err());
}

#[test]
fn test_generate_session_token() {
    let token = generate_session_token();
    assert_eq!(token.len(), 32);
}

#[test]
fn session_tokens_are_lower_hex_and_fresh() {
    let a = generate_session_token();
    let b = generate_session_token();
    assert!(a.chars().all(|c| c.is_ascii_hexdigit() && !c.is_ascii_uppercase()));
    assert_ne!(a, b);
    let id = generate_request_id();
    assert_eq!(id.len(), 32);
    assert!(id.chars().all(|c| c.is_ascii_hexdigit() && !c.is_ascii_uppercase()));
}

#[test]
fn test_request_id_length() {
    let id = generate_request_id();
    assert_eq!(id.len(), 32, "Request ID should be 32 characters long (UUID simple hex)");
}

#[test]
fn csp_without_host_uses_self() {
    assert_eq!(
        content_security_policy(None),
        "default-src 'self'; style-src 'self' https://cdn.jsdelivr.net; font-src https://cdn.jsdelivr.net; script-src 'self'; connect-src 'self'; img-src 'self' data:;"
    );
}

#[test]
fn test_csp_style_src_no_unsafe_inline() {
    for host in [None, Some("example.com"), Some("127.0.0.1:8080")] {
        let csp = content_security_policy(host);
        assert!(!csp.contains("'unsafe-inline'"));
        assert!(csp.contains("style-src 'self' https://cdn.jsdelivr.net"));
        assert!(csp.contains("script-src 'self'"));
    }
}

#[test]
fn server_test_csp_connect_src_strictness() {
    let csp = content_security_policy(Some("example.com"));
    assert!(csp.contains("ws://example.com"), "CSP should allow ws://{{host}} but got: {}", csp);
    assert!(csp.contains("wss://example.com"), "CSP should allow wss://{{host}} but got: {}", csp);
    assert!(!csp.contains(" ws: "), "CSP should not contain wildcard 'ws:' but got: {}", csp);
    assert!(!csp.contains(" wss: "), "CSP should not contain wildcard 'wss:' but got: {}", csp);

    let csp = content_security_policy(Some("127.0.0.1:8080"));
    assert!(csp.contains("connect-src 'self' ws://127.0.0.1:8080 wss://127.0.0.1:8080;"));
    assert!(!csp.contains("ws: wss:"));
    assert!(!csp.contains(" ws: "));
    assert!(!csp.contains(" wss: "));
}

#[test]
fn test_csp_injection_prevention() {
    let csp = content_security_policy(Some("evil.com; script-src 'unsafe-inline'"));
    assert!(!csp.contains("evil.com"));
    assert!(csp.contains("ws://localhost"));
    assert!(!csp.contains("'unsafe-inline'"));
}

#[test]
fn share_urls() {
    assert_eq!(share_url("192.168.1.5", HTTP_PORT, "abc"), "http://192.168.1.5:8080/abc");
    assert_eq!(share_url("10.0.0.1", 0, ""), "http://10.0.0.1:0/");
    assert_eq!(tunnel_public_url(40123, "tok"), "http://bore.pub:40123/tok");
}

fn cand(address: &str, is_loopback: bool, is_ipv4: bool) -> IpCandidate {
    IpCandidate { address: address.to_string(), is_loopback, is_ipv4 }
}

#[test]
fn local_ip_selection() {
    // Nothing usable: loopback.
    assert_eq!(select_local_ip(&vec![]), "127.0.0.1");
    assert_eq!(
        select_local_ip(&vec![cand("127.0.0.1", true, true), cand("fe80::1", false, false)]),
        "127.0.0.1"
    );
    // A 192.168. address wins at once.
    assert_eq!(
        select_local_ip(&vec![
            cand("10.0.0.2", false, true),
            cand("192.168.0.7", false, true),
            cand("192.168.0.8", false, true),
        ]),
        "192.168.0.7"
    );
    // Otherwise the last 10. address.
    assert_eq!(
        select_local_ip(&vec![
            cand("172.16.0.1", false, true),
            cand("10.0.0.2", false, true),
            cand("10.0.0.3", false, true),
            cand("8.8.8.8", false, true),
        ]),
        "10.0.0.3"
    );
    // Otherwise a 172.16. address, even when another address comes first.
    assert_eq!(
        select_local_ip(&vec![cand("8.8.4.4", false, true), cand("172.16.0.5", false, true)]),
        "172.16.0.5"
    );
    assert_eq!(
        select_local_ip(&vec![cand("8.8.4.4", false, true), cand("172.20.0.1", false, true)]),
        "8.8.4.4"
    );
    // Otherwise the first usable address.
    assert_eq!(
        select_local_ip(&vec![
            cand("127.0.0.1", true, true),
            cand("172.16.0.1", false, true),
            cand("8.8.8.8", false, true),
        ]),
        "172.16.0.1"
    );
}

#[test]
fn test_write_limit_enforcement() {
    match plan_chunk(0, 100, 40) {
        ChunkPlan::Write { len, overflow } => {
            assert_eq!(len, 40);
            assert!(!overflow);
        }
        ChunkPlan::Reject => panic!("expected a write"),
    }
    match plan_chunk(90, 100, 40) {
        ChunkPlan::Write { len, overflow } => {
            assert_eq!(len, 10);
            assert!(overflow);
        }
        ChunkPlan::Reject => panic!("expected a write"),
    }
    match plan_chunk(60, 100, 40) {
        ChunkPlan::Write { len, overflow } => {
            assert_eq!(len, 40);
            assert!(!overflow);
        }
        ChunkPlan::Reject => panic!("expected a write"),
    }
    assert!(matches!(plan_chunk(100, 100, 1), ChunkPlan::Reject));
    assert!(matches!(plan_chunk(0, 0, 0), ChunkPlan::Reject));
}

#[test]
fn test_max_concurrent_connections_dos() {
    let mut c = ConnectionCounter::new();
    for _ in 0..MAX_CONNECTIONS {
        assert!(c.try_enter());
    }
    assert_eq!(c.count(), MAX_CONNECTIONS);
    assert!(!c.try_enter());
    c.leave();
    assert!(c.try_enter());
    assert!(!c.try_enter());
}

#[test]
fn test_upload_limit() {
    let mut state = UploadState::new();
    let mut receivers = Vec::new();
    for i in 0..MAX_PENDING_UPLOADS {
        let (tx, rx) = tokio::sync::oneshot::channel();
        receivers.push(rx);
        assert!(state.try_add_request(format!("req_{}", i), tx), "Should accept request {}", i);
    }
    let (tx, _rx) = tokio::sync::oneshot::channel();
    assert!(!state.try_add_request("req_overflow".to_string(), tx), "Should reject request when full");

    cleanup_pending(&mut state, "req_0");
    let (tx, _rx) = tokio::sync::oneshot::channel();
    assert!(state.try_add_request("req_retry".to_string(), tx), "Should accept request after space freed");
    assert_eq!(state.pending_count(), MAX_PENDING_UPLOADS);
}

#[test]
fn answering_an_upload_delivers_the_answer_and_frees_its_place() {
    let mut state = UploadState::new();
    let (tx, mut rx) = tokio::sync::oneshot::channel();
    assert!(state.try_add_request("r1".to_string(), tx));
    assert_eq!(state.pending_count(), 1);
    let (tx, answer) = respond_to_upload(&mut state, "r1", false).expect("r1 waits");
    assert!(!answer);
    assert!(tx.send(answer).is_ok());
    assert_eq!(state.pending_count(), 0);
    assert_eq!(rx.try_recv(), Ok(false));
    // An unknown id changes nothing.
    assert!(respond_to_upload(&mut state, "r1", true).is_none());
    assert_eq!(state.pending_count(), 0);
}

#[test]
fn test_active_upload_limit_concurrency() {
    let mut state = UploadState::new();
    let mut accepted = 0;
    for _ in 0..20 {
        if state.try_acquire_active_slot() {
            accepted += 1;
        }
    }
    assert_eq!(accepted, MAX_ACTIVE_UPLOADS, "Should exactly match MAX_ACTIVE_UPLOADS");
    state.release_active_slot();
    assert_eq!(state.active_count(), MAX_ACTIVE_UPLOADS - 1);
    assert!(state.try_acquire_active_slot());
}

#[test]
fn upload_progress_is_reported_every_100_ms_and_at_the_end() {
    assert!(!upload_progress_due(100, 10, 100));
    assert!(upload_progress_due(101, 10, 100));
    assert!(upload_progress_due(0, 100, 100));
    assert!(upload_progress_due(0, 0, 0));
}

#[test]
fn what_follows_the_wait_for_an_answer() {
    assert!(matches!(after_user_wait(UserWait::Answered { accepted: true }), WaitStep::Proceed));
    match after_user_wait(UserWait::Answered { accepted: false }) {
        WaitStep::Refuse { reply: ServerMessage::Rejected { reason } } => {
            assert_eq!(reason, "User rejected the upload")
        }
        other => panic!("unexpected {:?}", other),
    }
    match after_user_wait(UserWait::TimedOut) {
        WaitStep::Abandon { reply: Some(ServerMessage::Rejected { reason }) } => {
            assert_eq!(reason, "Request timed out")
        }
        other => panic!("unexpected {:?}", other),
    }
    match after_user_wait(UserWait::ChannelClosed) {
        WaitStep::Abandon { reply: Some(ServerMessage::Error { message }) } => {
            assert_eq!(message, "Internal error")
        }
        other => panic!("unexpected {:?}", other),
    }
    assert!(matches!(after_user_wait(UserWait::ClientLeft), WaitStep::Abandon { reply: None }));
}
