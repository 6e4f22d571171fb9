//! Tests of the backend's share state and of the codes handed to waiting
//! transfers.

use p2p_core::backend::{submit_outcome, CodeSubmit, CodeWaiters, ShareState};

#[test]
fn http_and_wan_share_state() {
    let mut s = ShareState::new();
    assert!(s.wan_needs_http());
    assert!(!s.stop_http());
    assert!(!s.stop_wan());

    assert!(!s.start_http("tok1".to_string()));
    assert!(!s.wan_needs_http());
    assert_eq!(s.tunnel_token(), "tok1");
    // Starting again replaces the running server.
    assert!(s.start_http("tok2".to_string()));
    assert_eq!(s.tunnel_token(), "tok2");

    s.tunnel_opened();
    assert!(s.stop_wan());
    assert!(!s.stop_wan());

    assert!(s.stop_http());
    assert!(s.wan_needs_http());
    assert_eq!(s.tunnel_token(), "");
}

/// What the backend does with a typed code: hand it to the waiting
/// transfer, if any, and report.
fn submit(w: &mut CodeWaiters, ip: &str, code: &str) -> CodeSubmit {
    let waiter = w.take_waiter(ip);
    let waiting = waiter.is_some();
    let delivered = match waiter {
        Some(tx) => tx.send(code.to_string()).is_ok(),
        None => false,
    };
    submit_outcome(waiting, delivered)
}

#[test]
fn submit_outcomes() {
    assert_eq!(submit_outcome(false, false), CodeSubmit::NoSession);
    assert_eq!(submit_outcome(false, true), CodeSubmit::NoSession);
    assert_eq!(submit_outcome(true, true), CodeSubmit::Sent);
    assert_eq!(submit_outcome(true, false), CodeSubmit::TaskClosed);
}

#[test]
fn codes_reach_the_waiting_transfer() {
    let mut w = CodeWaiters::new();
    let (tx, mut rx) = tokio::sync::oneshot::channel();
    w.register("10.0.0.2".to_string(), tx);
    let r = submit(&mut w, "10.0.0.2", "1234");
    assert_eq!(r, CodeSubmit::Sent);
    assert!(!r.is_error());
    assert_eq!(r.report("10.0.0.2"), "Verification code sent to 10.0.0.2");
    assert_eq!(rx.try_recv(), Ok("1234".to_string()));

    // The address no longer waits.
    assert!(w.take_waiter("10.0.0.2").is_none());
    let r = submit(&mut w, "10.0.0.2", "1234");
    assert_eq!(r, CodeSubmit::NoSession);
    assert!(r.is_error());
    assert_eq!(r.report("10.0.0.2"), "No pending verification session found for 10.0.0.2");
}

#[test]
fn a_code_for_a_finished_transfer() {
    let mut w = CodeWaiters::new();
    let (tx, rx) = tokio::sync::oneshot::channel::<String>();
    w.register("10.0.0.3".to_string(), tx);
    drop(rx);
    let r = submit(&mut w, "10.0.0.3", "0000");
    assert_eq!(r, CodeSubmit::TaskClosed);
    assert_eq!(r.report("10.0.0.3"), "Cannot send verification code (task closed)");
    assert_eq!(submit(&mut w, "10.0.0.3", "0000"), CodeSubmit::NoSession);
}

#[test]
fn a_new_transfer_to_the_same_address_replaces_the_old_one() {
    let mut w = CodeWaiters::new();
    let (tx1, mut rx1) = tokio::sync::oneshot::channel();
    let (tx2, mut rx2) = tokio::sync::oneshot::channel();
    w.register("h".to_string(), tx1);
    w.register("h".to_string(), tx2);
    assert_eq!(submit(&mut w, "h", "9999"), CodeSubmit::Sent);
    assert!(rx1.try_recv().is_err());
    assert_eq!(rx2.try_recv(), Ok("9999".to_string()));
}
