//! Tests of the pairing handshake on both sides.

use p2p_core::config::AppConfig;
use p2p_core::pairing::{add_pairing_at, is_paired_at, PairingSlots, PAIRING_EXPIRY_SECS};
use p2p_core::transfer::handshake::{
    sender_result, sender_start, CodeCheck, FirstMessage, PairingStart, ReceiverConnection,
    SenderResult, SenderStart,
};
use p2p_core::transfer::protocol::TransferMsg;
use p2p_core::FileInfo;
use std::path::PathBuf;

fn file_msg() -> TransferMsg {
    TransferMsg::FileMetadata {
        info: FileInfo { file_name: "hacked.txt".to_string(), file_size: 10, file_path: PathBuf::new() },
        file_hash: None,
    }
}

fn failure_text(m: &TransferMsg) -> String {
    match m {
        TransferMsg::VerificationFailed { message } => message.clone(),
        other => panic!("expected a refusal, got {:?}", other),
    }
}

#[test]
fn test_unauthenticated_upload_prevention() {
    let conn = ReceiverConnection::new();
    assert!(!conn.is_authenticated());
    match conn.first_message(file_msg()) {
        FirstMessage::RejectUnauthenticated { reply } => {
            assert_eq!(failure_text(&reply), "Unauthenticated transfer rejected");
        }
        other => panic!("unexpected {:?}", other),
    }
    assert!(matches!(conn.first_message(TransferMsg::ReadyForData), FirstMessage::Unexpected { .. }));
}

#[test]
fn test_successful_verification_and_persistence() {
    let mut config = AppConfig::new(PathBuf::from("/tmp/downloads"));
    let mut slots = PairingSlots::new();
    let mut conn = ReceiverConnection::new();
    let now = 5_000;

    let first = conn.first_message(TransferMsg::PairingRequest {
        endpoint_id: "peer-1".to_string(),
        peer_name: "Phone".to_string(),
    });
    let (id, name) = match first {
        FirstMessage::Handshake { endpoint_id, peer_name } => (endpoint_id, peer_name),
        other => panic!("unexpected {:?}", other),
    };

    let guard = match conn.start_pairing(&config, &mut slots, &id, now) {
        PairingStart::NeedsCode { guard, reply } => {
            assert!(matches!(reply, TransferMsg::VerificationRequired));
            guard
        }
        _ => panic!("expected a code to be needed"),
    };
    assert_eq!(slots.active(), 1);

    let answer = Some(TransferMsg::VerificationCode { code: "0420".to_string() });
    let trust = match conn.finish_pairing(&mut config, answer, "0420", &id, &name, now) {
        CodeCheck::Verified { reply, trust } => {
            assert!(matches!(reply, TransferMsg::VerificationSuccess));
            trust
        }
        other => panic!("unexpected {:?}", other),
    };
    // Not trusted until the success reply has gone out.
    assert!(!conn.is_authenticated());
    conn.confirm(trust);
    guard.release(&mut slots);
    assert_eq!(slots.active(), 0);
    assert!(conn.is_authenticated());
    assert!(is_paired_at(&config, "peer-1", now + PAIRING_EXPIRY_SECS - 1));
    assert!(matches!(conn.first_message(file_msg()), FirstMessage::ReceiveFile { .. }));

    // A second connection from the same device within a day is trusted.
    let mut again = ReceiverConnection::new();
    match again.start_pairing(&config, &mut slots, "peer-1", now + 60) {
        PairingStart::AlreadyPaired { reply, trust } => {
            assert!(matches!(reply, TransferMsg::PairingAccepted));
            assert!(!again.is_authenticated());
            again.confirm(trust);
        }
        _ => panic!("expected the device to be trusted"),
    }
    assert!(again.is_authenticated());
    assert_eq!(slots.active(), 0);
}

#[test]
fn test_failed_verification() {
    let mut config = AppConfig::new(PathBuf::from("/tmp/downloads"));
    let conn = ReceiverConnection::new();
    let wrong = Some(TransferMsg::VerificationCode { code: "0000".to_string() });
    match conn.finish_pairing(&mut config, wrong, "1234", "p", "P", 1) {
        CodeCheck::WrongCode { reply } => assert_eq!(failure_text(&reply), "Invalid code"),
        other => panic!("unexpected {:?}", other),
    }
    match conn.finish_pairing(&mut config, None, "1234", "p", "P", 1) {
        CodeCheck::TimedOut { reply } => assert_eq!(failure_text(&reply), "Verification timed out"),
        other => panic!("unexpected {:?}", other),
    }
    assert!(matches!(
        conn.finish_pairing(&mut config, Some(TransferMsg::ReadyForData), "1234", "p", "P", 1),
        CodeCheck::Unexpected { .. }
    ));
    assert!(!conn.is_authenticated());
    assert_eq!(config.pairing.len(), 0);
}

#[test]
fn test_pairing_dos_reproduction() {
    let config = AppConfig::new(PathBuf::from("/tmp/downloads"));
    let mut slots = PairingSlots::new();
    let mut guards = Vec::new();
    for i in 0..3 {
        let c = ReceiverConnection::new();
        match c.start_pairing(&config, &mut slots, &format!("attacker_{}", i), 1) {
            PairingStart::NeedsCode { guard, .. } => guards.push(guard),
            _ => panic!("expected a code to be needed"),
        }
    }
    let victim = ReceiverConnection::new();
    match victim.start_pairing(&config, &mut slots, "victim_1", 1) {
        PairingStart::Busy { reply } => {
            assert_eq!(failure_text(&reply), "Too many pending verification attempts")
        }
        _ => panic!("expected a refusal"),
    }
    // Once an attempt ends, a new one may start.
    guards.pop().unwrap().release(&mut slots);
    assert!(matches!(
        victim.start_pairing(&config, &mut slots, "victim_1", 1),
        PairingStart::NeedsCode { .. }
    ));
}

#[test]
fn an_expired_pairing_needs_a_code_again() {
    let mut config = AppConfig::new(PathBuf::from("/tmp/downloads"));
    add_pairing_at(&mut config, "peer-2", "Tablet", 100);
    let mut slots = PairingSlots::new();
    let conn = ReceiverConnection::new();
    assert!(matches!(
        conn.start_pairing(&config, &mut slots, "peer-2", 100 + PAIRING_EXPIRY_SECS),
        PairingStart::NeedsCode { .. }
    ));
    assert!(!conn.is_authenticated());
}

#[test]
fn sender_side_classification() {
    assert!(matches!(sender_start(TransferMsg::PairingAccepted), SenderStart::Accepted));
    assert!(matches!(sender_start(TransferMsg::VerificationRequired), SenderStart::NeedsCode));
    assert!(matches!(sender_start(TransferMsg::TransferComplete), SenderStart::Unexpected { .. }));
    assert!(matches!(sender_result(TransferMsg::VerificationSuccess), SenderResult::Verified));
    match sender_result(TransferMsg::VerificationFailed { message: "Invalid code".to_string() }) {
        SenderResult::Refused { message } => assert_eq!(message, "Invalid code"),
        other => panic!("unexpected {:?}", other),
    }
    assert!(matches!(sender_result(TransferMsg::PairingAccepted), SenderResult::Unexpected { .. }));
}
