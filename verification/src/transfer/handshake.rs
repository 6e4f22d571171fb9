//! The pairing handshake, on both sides of a connection.
//!
//! The receiver accepts files on a connection only once it is
//! authenticated: the sender was already paired, or its user typed the code
//! shown on the receiver. The sender introduces itself, and types a code
//! when the receiver asks for one.

use vstd::prelude::*;
use crate::FileInfo;
use crate::config::AppConfig;
use crate::pairing::{
    add_pairing_at, fresh_only, is_paired_at, paired_at_time, MAX_PAIRING_ATTEMPTS, PairingGuard,
    PairingSlots,
};
use crate::text::owned;
use crate::transfer::protocol::TransferMsg;

verus! {

/// What the receiver does with the first message of a new stream.
#[derive(Debug)]
pub enum FirstMessage {
    /// A pairing request: run the handshake.
    Handshake { endpoint_id: String, peer_name: String },
    /// A file from an authenticated peer: receive it.
    ReceiveFile { info: FileInfo, file_hash: Option<String> },
    /// A file from a peer that is not authenticated: send `reply`, drop it.
    RejectUnauthenticated { reply: TransferMsg },
    /// Any other message: report it and drop the stream.
    Unexpected { msg: TransferMsg },
}

/// Leave to trust a connection, handed out only when the handshake
/// succeeded; `ReceiverConnection::confirm` spends it once the reply has
/// gone out.
#[derive(Debug)]
pub struct Trust {
    _granted: (),
}

/// How the handshake starts for a pairing request.
pub enum PairingStart {
    /// Already paired: reply `PairingAccepted`, then confirm the trust.
    AlreadyPaired { reply: TransferMsg, trust: Trust },
    /// Too many attempts in progress: reply with the refusal, stop.
    Busy { reply: TransferMsg },
    /// Show a code and reply `VerificationRequired`; the guard holds one
    /// attempt slot until the attempt ends.
    NeedsCode { guard: PairingGuard, reply: TransferMsg },
}

/// How the handshake ends once the sender answered (or did not).
#[derive(Debug)]
pub enum CodeCheck {
    /// The right code: the device is now paired; reply
    /// `VerificationSuccess`, then confirm the trust.
    Verified { reply: TransferMsg, trust: Trust },
    /// A wrong code: reply with the refusal.
    WrongCode { reply: TransferMsg },
    /// No answer in time: reply with the refusal.
    TimedOut { reply: TransferMsg },
    /// An answer that is not a code: no reply.
    Unexpected { msg: TransferMsg },
}

/// The refusal sent to a file from an unauthenticated peer.
pub open spec fn unauthenticated_text() -> Seq<char> {
    "Unauthenticated transfer rejected"@
}

/// The refusal sent when too many pairing attempts are in progress.
pub open spec fn busy_text() -> Seq<char> {
    "Too many pending verification attempts"@
}

/// The refusal sent for a wrong code.
pub open spec fn wrong_code_text() -> Seq<char> {
    "Invalid code"@
}

/// The refusal sent when no code came in time.
pub open spec fn timed_out_text() -> Seq<char> {
    "Verification timed out"@
}

/// Whether `msg` is `VerificationFailed` with the given text.
pub open spec fn is_failure_with(msg: TransferMsg, text: Seq<char>) -> bool {
    msg matches TransferMsg::VerificationFailed { message } && message@ == text
}

/// The receiver's side of one connection: whether the peer has proved who
/// it is.
pub struct ReceiverConnection {
    authenticated: bool,
}

impl ReceiverConnection {
    /// Whether the peer on this connection is authenticated.
    pub closed spec fn spec_authenticated(&self) -> bool {
        self.authenticated
    }

    /// A new connection, not authenticated.
    pub fn new() -> (r: ReceiverConnection)
        ensures
            !r.spec_authenticated(),
    {
        ReceiverConnection { authenticated: false }
    }

    /// Whether the peer on this connection is authenticated.
    pub fn is_authenticated(&self) -> (r: bool)
        ensures
            r == self.spec_authenticated(),
    {
        self.authenticated
    }

    /// Decide what to do with the first message of a stream. A file is
    /// received only from an authenticated peer.
    pub fn first_message(&self, msg: TransferMsg) -> (r: FirstMessage)
        ensures
            msg matches TransferMsg::PairingRequest { endpoint_id, peer_name } ==> (
            r matches FirstMessage::Handshake { endpoint_id: e, peer_name: p } && e@
                == endpoint_id@ && p@ == peer_name@),
            msg matches TransferMsg::FileMetadata { info, file_hash } ==> (self.spec_authenticated()
                ==> (r matches FirstMessage::ReceiveFile { info: i, file_hash: h } && i == info && h
                == file_hash)),
            msg is FileMetadata && !self.spec_authenticated() ==> (
            r matches FirstMessage::RejectUnauthenticated { reply } && is_failure_with(
                reply,
                unauthenticated_text(),
            )),
            !(msg is PairingRequest) && !(msg is FileMetadata) ==> (r matches FirstMessage::Unexpected {
                msg: m,
            } && m == msg),
            r is ReceiveFile ==> self.spec_authenticated(),
    {
        match msg {
            TransferMsg::PairingRequest { endpoint_id, peer_name } => FirstMessage::Handshake {
                endpoint_id,
                peer_name,
            },
            TransferMsg::FileMetadata { info, file_hash } => {
                if self.authenticated {
                    FirstMessage::ReceiveFile { info, file_hash }
                } else {
                    FirstMessage::RejectUnauthenticated {
                        reply: TransferMsg::VerificationFailed {
                            message: owned("Unauthenticated transfer rejected"),
                        },
                    }
                }
            },
            other => FirstMessage::Unexpected { msg: other },
        }
    }

    /// The handshake succeeded and its reply was sent: the peer on this
    /// connection is authenticated from now on.
    pub fn confirm(&mut self, trust: Trust)
        ensures
            final(self).spec_authenticated(),
    {
        let Trust { _granted } = trust;
        self.authenticated = true;
    }

    /// Start the handshake for `endpoint_id` at time `now`: a device still
    /// paired is trusted (once the acceptance is sent); otherwise an attempt
    /// slot is taken (or the request refused when all are in use) and a code
    /// must be shown. The connection itself is not changed here.
    pub fn start_pairing(
        &self,
        config: &AppConfig,
        slots: &mut PairingSlots,
        endpoint_id: &str,
        now: u64,
    ) -> (r: PairingStart)
        requires
            config.pairing.wf(),
            old(slots).wf(),
        ensures
            final(slots).wf(),
            paired_at_time(config.pairing@, endpoint_id@, now) ==> (r matches PairingStart::AlreadyPaired { reply, .. }
                && reply is PairingAccepted
                && final(slots).spec_active() == old(slots).spec_active()),
            !paired_at_time(config.pairing@, endpoint_id@, now) && old(slots).spec_active()
                >= MAX_PAIRING_ATTEMPTS ==> (r matches PairingStart::Busy { reply }
                && is_failure_with(reply, busy_text())
                && final(slots).spec_active() == old(slots).spec_active()),
            !paired_at_time(config.pairing@, endpoint_id@, now) && old(slots).spec_active()
                < MAX_PAIRING_ATTEMPTS ==> (r matches PairingStart::NeedsCode { reply, .. }
                && reply is VerificationRequired
                && final(slots).spec_active() == old(slots).spec_active() + 1),
    {
        if is_paired_at(config, endpoint_id, now) {
            return PairingStart::AlreadyPaired {
                reply: TransferMsg::PairingAccepted,
                trust: Trust { _granted: () },
            };
        }
        match PairingGuard::try_acquire(slots) {
            None => PairingStart::Busy {
                reply: TransferMsg::VerificationFailed {
                    message: owned("Too many pending verification attempts"),
                },
            },
            Some(guard) => PairingStart::NeedsCode {
                guard,
                reply: TransferMsg::VerificationRequired,
            },
        }
    }

    /// Finish the handshake with the sender's answer (`None` when none came
    /// in time), given the code that was shown. Only the right code pairs
    /// the device (as of `now`) and grants the trust that authenticates the
    /// connection once the success reply is sent.
    pub fn finish_pairing(
        &self,
        config: &mut AppConfig,
        answer: Option<TransferMsg>,
        shown_code: &str,
        endpoint_id: &str,
        peer_name: &str,
        now: u64,
    ) -> (r: CodeCheck)
        requires
            old(config).pairing.wf(),
        ensures
            final(config).pairing.wf(),
            final(config).download_path == old(config).download_path,
            answer is None ==> (r matches CodeCheck::TimedOut { reply } && is_failure_with(
                reply,
                timed_out_text(),
            )),
            (answer matches Some(TransferMsg::VerificationCode { code }) && code@ == shown_code@)
                ==> (r matches CodeCheck::Verified { reply, .. } && reply is VerificationSuccess
                && paired_at_time(
                final(config).pairing@,
                endpoint_id@,
                now,
            ) && final(config).pairing@[endpoint_id@].peer_name@ == peer_name@
                && final(config).pairing@[endpoint_id@].paired_at == now
                && final(config).pairing@ == fresh_only(
                old(config).pairing@.insert(endpoint_id@, final(config).pairing@[endpoint_id@]),
                now,
            )),
            (answer matches Some(TransferMsg::VerificationCode { code }) && code@ != shown_code@)
                ==> (r matches CodeCheck::WrongCode { reply } && is_failure_with(
                reply,
                wrong_code_text(),
            )),
            (answer is Some && !(answer->0 is VerificationCode)) ==> (r matches CodeCheck::Unexpected {
                msg,
            } && msg == answer->0),
            !(r is Verified) ==> final(config).pairing@ == old(config).pairing@,
    {
        match answer {
            None => CodeCheck::TimedOut {
                reply: TransferMsg::VerificationFailed { message: owned("Verification timed out") },
            },
            Some(TransferMsg::VerificationCode { code }) => {
                let shown = owned(shown_code);
                if code == shown {
                    add_pairing_at(config, endpoint_id, peer_name, now);
                    CodeCheck::Verified {
                        reply: TransferMsg::VerificationSuccess,
                        trust: Trust { _granted: () },
                    }
                } else {
                    CodeCheck::WrongCode {
                        reply: TransferMsg::VerificationFailed { message: owned("Invalid code") },
                    }
                }
            },
            Some(other) => CodeCheck::Unexpected { msg: other },
        }
    }
}

/// What the sender does with the receiver's answer to its pairing request.
#[derive(Debug)]
pub enum SenderStart {
    /// Already paired: start sending.
    Accepted,
    /// Ask the user for the code shown on the receiver.
    NeedsCode,
    /// Anything else ends the handshake.
    Unexpected { msg: TransferMsg },
}

/// How the receiver judged the code the sender typed.
#[derive(Debug)]
pub enum SenderResult {
    /// The code was right: start sending.
    Verified,
    /// The receiver refused, with its reason.
    Refused { message: String },
    /// Anything else ends the handshake.
    Unexpected { msg: TransferMsg },
}

/// Classify the receiver's first answer.
pub fn sender_start(msg: TransferMsg) -> (r: SenderStart)
    ensures
        msg is PairingAccepted <==> r is Accepted,
        msg is VerificationRequired <==> r is NeedsCode,
        !(msg is PairingAccepted) && !(msg is VerificationRequired) ==> (r matches SenderStart::Unexpected {
            msg: m,
        } && m == msg),
{
    match msg {
        TransferMsg::PairingAccepted => SenderStart::Accepted,
        TransferMsg::VerificationRequired => SenderStart::NeedsCode,
        other => SenderStart::Unexpected { msg: other },
    }
}

/// Classify the receiver's verdict on the code.
pub fn sender_result(msg: TransferMsg) -> (r: SenderResult)
    ensures
        msg is VerificationSuccess <==> r is Verified,
        msg matches TransferMsg::VerificationFailed { message } ==> (r matches SenderResult::Refused { message: m } && m@ == message@),
        !(msg is VerificationSuccess) && !(msg is VerificationFailed) ==> (r matches SenderResult::Unexpected {
            msg: m,
        } && m == msg),
{
    match msg {
        TransferMsg::VerificationSuccess => SenderResult::Verified,
        TransferMsg::VerificationFailed { message } => SenderResult::Refused { message },
        other => SenderResult::Unexpected { msg: other },
    }
}

/// A device that typed the right code is trusted without a code for the
/// next 24 hours: once `finish_pairing` has verified it at `now`, every
/// `start_pairing` for it at a time `t` with `now <= t < now + 24h` finds it
/// paired.
pub proof fn verified_device_is_trusted_for_a_day(
    m: Map<Seq<char>, crate::config::PairedDevice>,
    endpoint_id: Seq<char>,
    now: u64,
    t: u64,
)
    requires
        m.contains_key(endpoint_id),
        m[endpoint_id].paired_at == now,
        now <= t,
        t - now < crate::pairing::PAIRING_EXPIRY_SECS,
    ensures
        paired_at_time(m, endpoint_id, t),
{
}

} // verus!
