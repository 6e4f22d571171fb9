//! What the user interface shows between two frames, and how each report
//! of the backend changes it: the dialogs, the status log and the state of
//! the HTTP share.

use vstd::prelude::*;
use crate::AppCommand;
use crate::text::{owned, push_str};
use crate::ui::{
    classify_status, status_log_type, LogType, PendingUpload, UploadConfirmState,
    VerificationState,
};

verus! {

/// A line of the status log.
pub struct LogEntry {
    pub message: String,
    pub log_type: LogType,
}

/// `after` is `before` with one more line, `text` of kind `t`, at the end.
pub open spec fn pushed(before: Seq<LogEntry>, after: Seq<LogEntry>, text: Seq<char>, t: LogType) -> bool {
    &&& after.len() == before.len() + 1
    &&& after.drop_last() == before
    &&& after.last().message@ == text
    &&& after.last().log_type == t
}

/// The share URL shown while no HTTP share runs.
pub open spec fn no_server_text() -> Seq<char> {
    "Server not started"@
}

/// The state of the user interface that the backend's reports change.
pub struct AppView {
    pub verification_state: VerificationState,
    pub upload_confirm_state: UploadConfirmState,
    pub status_log: Vec<LogEntry>,
    pub share_url: String,
    pub http_server_running: bool,
    pub http_server_pending: bool,
}

/// The dialogs of `a` and `b` are the same.
pub open spec fn same_dialogs(a: AppView, b: AppView) -> bool {
    a.verification_state == b.verification_state && a.upload_confirm_state == b.upload_confirm_state
}

/// The HTTP share state of `a` and `b` is the same.
pub open spec fn same_share(a: AppView, b: AppView) -> bool {
    &&& a.share_url == b.share_url
    &&& a.http_server_running == b.http_server_running
    &&& a.http_server_pending == b.http_server_pending
}

impl AppView {
    /// Nothing shown yet: no dialog, an empty log, no HTTP share.
    pub fn new() -> (r: AppView)
        ensures
            r.verification_state is Idle,
            r.upload_confirm_state is Idle,
            r.status_log@.len() == 0,
            r.share_url@ == no_server_text(),
            !r.http_server_running,
            !r.http_server_pending,
    {
        AppView {
            verification_state: VerificationState::Idle,
            upload_confirm_state: UploadConfirmState::Idle,
            status_log: Vec::new(),
            share_url: owned("Server not started"),
            http_server_running: false,
            http_server_pending: false,
        }
    }

    fn log(&mut self, message: String, log_type: LogType)
        ensures
            pushed(old(self).status_log@, final(self).status_log@, message@, log_type),
            same_dialogs(*final(self), *old(self)),
            same_share(*final(self), *old(self)),
    {
        self.status_log.push(LogEntry { message, log_type });
        assert(self.status_log@.drop_last() =~= old(self).status_log@);
    }

    /// A status message: logged, coloured by the words it holds.
    pub fn on_status(&mut self, msg: String)
        ensures
            pushed(old(self).status_log@, final(self).status_log@, msg@, status_log_type(msg@)),
            same_dialogs(*final(self), *old(self)),
            same_share(*final(self), *old(self)),
    {
        let t = classify_status(msg.as_str());
        self.log(msg, t);
    }

    /// An error: logged as `[ERROR] msg`.
    pub fn on_error(&mut self, msg: &str)
        ensures
            pushed(old(self).status_log@, final(self).status_log@, "[ERROR] "@ + msg@, LogType::Error),
            same_dialogs(*final(self), *old(self)),
            same_share(*final(self), *old(self)),
    {
        let mut m = owned("[ERROR] ");
        push_str(&mut m, msg);
        self.log(m, LogType::Error);
    }

    /// The outcome of a pairing: logged as `Pairing with peer: message`
    /// (a success or an error), and the code dialog updated: a failure
    /// while the user types a code keeps it open with the message, anything
    /// else closes it.
    pub fn on_pairing_result(&mut self, success: bool, peer_name: &str, message: String)
        ensures
            pushed(
                old(self).status_log@,
                final(self).status_log@,
                "Pairing with "@ + peer_name@ + ": "@ + message@,
                if success { LogType::Success } else { LogType::Error },
            ),
            (!success && old(self).verification_state is InputtingCode) ==> {
                &&& final(self).verification_state is InputtingCode
                &&& final(self).verification_state->target_ip == old(self).verification_state->target_ip
                &&& final(self).verification_state->code_input == old(self).verification_state->code_input
                &&& final(self).verification_state->error_msg == Some(message)
            },
            (success || !(old(self).verification_state is InputtingCode)) ==> (final(self).verification_state is Idle),
            final(self).upload_confirm_state == old(self).upload_confirm_state,
            same_share(*final(self), *old(self)),
    {
        let mut line = owned("Pairing with ");
        push_str(&mut line, peer_name);
        push_str(&mut line, ": ");
        push_str(&mut line, message.as_str());
        self.log(line, if success { LogType::Success } else { LogType::Error });
        self.verification_state.on_pairing_result(success, message);
    }

    /// The receiver shows a code to the user.
    pub fn on_show_code(&mut self, code: String, from_ip: String, from_name: String)
        ensures
            final(self).verification_state == (VerificationState::ShowingCode {
                code,
                from_ip,
                from_name,
            }),
            final(self).upload_confirm_state == old(self).upload_confirm_state,
            final(self).status_log@ == old(self).status_log@,
            same_share(*final(self), *old(self)),
    {
        self.verification_state = VerificationState::ShowingCode { code, from_ip, from_name };
    }

    /// The sender must type the code shown on `target_ip`.
    pub fn on_request_code(&mut self, target_ip: String)
        ensures
            final(self).verification_state matches VerificationState::InputtingCode {
                target_ip: t,
                code_input,
                error_msg,
            } && t@ == target_ip@ && code_input@.len() == 0 && error_msg is None,
            final(self).upload_confirm_state == old(self).upload_confirm_state,
            final(self).status_log@ == old(self).status_log@,
            same_share(*final(self), *old(self)),
    {
        self.verification_state = VerificationState::ask_code(target_ip);
    }

    /// A file arrived: logged as `Transfer Complete: name`.
    pub fn on_transfer_completed(&mut self, file_name: &str)
        ensures
            pushed(
                old(self).status_log@,
                final(self).status_log@,
                "Transfer Complete: "@ + file_name@,
                LogType::Success,
            ),
            same_dialogs(*final(self), *old(self)),
            same_share(*final(self), *old(self)),
    {
        let mut m = owned("Transfer Complete: ");
        push_str(&mut m, file_name);
        self.log(m, LogType::Success);
    }

    /// A digest check ended: logged as `Verification: name - mark Verified`
    /// (a success) or `Verification: name - mark Corrupted` (an error),
    /// `mark` being the icon drawn before the word.
    pub fn on_verification_completed(&mut self, file_name: &str, verified: bool, mark: &str)
        ensures
            pushed(
                old(self).status_log@,
                final(self).status_log@,
                "Verification: "@ + file_name@ + " - "@ + mark@ + (if verified {
                    " Verified"@
                } else {
                    " Corrupted"@
                }),
                if verified { LogType::Success } else { LogType::Error },
            ),
            same_dialogs(*final(self), *old(self)),
            same_share(*final(self), *old(self)),
    {
        let mut m = owned("Verification: ");
        push_str(&mut m, file_name);
        push_str(&mut m, " - ");
        push_str(&mut m, mark);
        push_str(&mut m, if verified { " Verified" } else { " Corrupted" });
        self.log(m, if verified { LogType::Success } else { LogType::Error });
    }

    /// The share URL is known.
    pub fn on_share_url_ready(&mut self, url: String)
        ensures
            final(self).share_url == url,
            final(self).http_server_running == old(self).http_server_running,
            final(self).http_server_pending == old(self).http_server_pending,
            same_dialogs(*final(self), *old(self)),
            final(self).status_log@ == old(self).status_log@,
    {
        self.share_url = url;
    }

    /// The HTTP share started at `url`.
    pub fn on_http_started(&mut self, url: String)
        ensures
            final(self).share_url == url,
            final(self).http_server_running,
            !final(self).http_server_pending,
            pushed(old(self).status_log@, final(self).status_log@, "HTTP server started"@, LogType::Success),
            same_dialogs(*final(self), *old(self)),
    {
        self.share_url = url;
        self.http_server_running = true;
        self.http_server_pending = false;
        self.log(owned("HTTP server started"), LogType::Success);
    }

    /// The HTTP share stopped.
    pub fn on_http_stopped(&mut self)
        ensures
            final(self).share_url@ == no_server_text(),
            !final(self).http_server_running,
            !final(self).http_server_pending,
            pushed(old(self).status_log@, final(self).status_log@, "HTTP server stopped"@, LogType::Info),
            same_dialogs(*final(self), *old(self)),
    {
        self.share_url = owned("Server not started");
        self.http_server_running = false;
        self.http_server_pending = false;
        self.log(owned("HTTP server stopped"), LogType::Info);
    }

    /// The user flips the share switch: unless a change is already under
    /// way, ask the backend to start (or stop) the share and wait for it.
    pub fn toggle_http(&mut self) -> (r: Option<AppCommand>)
        ensures
            old(self).http_server_pending ==> r is None && *final(self) == *old(self),
            !old(self).http_server_pending ==> {
                &&& final(self).http_server_pending
                &&& final(self).http_server_running == old(self).http_server_running
                &&& final(self).share_url == old(self).share_url
                &&& final(self).status_log@ == old(self).status_log@
                &&& same_dialogs(*final(self), *old(self))
                &&& (if old(self).http_server_running {
                    r matches Some(AppCommand::StopHttpServer)
                } else {
                    r matches Some(AppCommand::StartHttpServer)
                })
            },
    {
        if self.http_server_pending {
            return None;
        }
        self.http_server_pending = true;
        if self.http_server_running {
            Some(AppCommand::StopHttpServer)
        } else {
            Some(AppCommand::StartHttpServer)
        }
    }

    /// A browser asks to upload a file: the confirmation dialog shows it.
    pub fn on_upload_request(&mut self, upload: PendingUpload)
        ensures
            final(self).upload_confirm_state == UploadConfirmState::Pending(upload),
            final(self).verification_state == old(self).verification_state,
            final(self).status_log@ == old(self).status_log@,
            same_share(*final(self), *old(self)),
    {
        self.upload_confirm_state = UploadConfirmState::Pending(upload);
    }

    /// An upload request was withdrawn: when the dialog shows that request
    /// it closes and `Upload request cancelled` is logged; a stale
    /// cancellation changes nothing.
    pub fn on_upload_cancelled(&mut self, request_id: &str)
        ensures
            ({
                let shown = old(self).upload_confirm_state matches UploadConfirmState::Pending(u)
                    && u.request_id@ == request_id@;
                &&& shown ==> final(self).upload_confirm_state is Idle && pushed(
                    old(self).status_log@,
                    final(self).status_log@,
                    "Upload request cancelled"@,
                    LogType::Info,
                )
                &&& !shown ==> final(self).upload_confirm_state == old(self).upload_confirm_state
                    && final(self).status_log@ == old(self).status_log@
            }),
            final(self).verification_state == old(self).verification_state,
            same_share(*final(self), *old(self)),
    {
        if self.upload_confirm_state.on_cancelled(request_id) {
            self.log(owned("Upload request cancelled"), LogType::Info);
        }
    }

    /// Upload progress: only the start of an upload is logged.
    pub fn on_upload_progress(&mut self, received_bytes: u64)
        ensures
            received_bytes == 0 ==> pushed(
                old(self).status_log@,
                final(self).status_log@,
                "Incoming upload started..."@,
                LogType::Info,
            ),
            received_bytes != 0 ==> final(self).status_log@ == old(self).status_log@,
            same_dialogs(*final(self), *old(self)),
            same_share(*final(self), *old(self)),
    {
        if received_bytes == 0 {
            self.log(owned("Incoming upload started..."), LogType::Info);
        }
    }

    /// An upload is stored: logged as `Upload received: name`.
    pub fn on_upload_completed(&mut self, file_name: &str)
        ensures
            pushed(
                old(self).status_log@,
                final(self).status_log@,
                "Upload received: "@ + file_name@,
                LogType::Success,
            ),
            same_dialogs(*final(self), *old(self)),
            same_share(*final(self), *old(self)),
    {
        let mut m = owned("Upload received: ");
        push_str(&mut m, file_name);
        self.log(m, LogType::Success);
    }
}

} // verus!
