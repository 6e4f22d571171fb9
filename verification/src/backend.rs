//! Decisions of the backend's command loop: which share services are
//! running, and which senders wait for the code their user types.
//!
//! The loop itself (channels, sockets, spawning tasks) lives with the
//! application; it asks these types what to do and reports what happened.

use vstd::prelude::*;
use crate::keyed::KeyedList;
use crate::text::{owned, push_str};

verus! {

/// The HTTP share server and the public tunnel in front of it.
pub struct ShareState {
    http_token: Option<String>,
    wan_running: bool,
}

impl ShareState {
    /// Whether the HTTP share server runs.
    pub closed spec fn http_running(&self) -> bool {
        self.http_token is Some
    }

    /// The session token of the running HTTP share server.
    pub closed spec fn token(&self) -> Seq<char> {
        match self.http_token {
            Some(t) => t@,
            None => Seq::empty(),
        }
    }

    /// Whether the public tunnel is open.
    pub closed spec fn wan_running(&self) -> bool {
        self.wan_running
    }

    /// Nothing runs.
    pub fn new() -> (r: ShareState)
        ensures
            !r.http_running(),
            !r.wan_running(),
    {
        ShareState { http_token: None, wan_running: false }
    }

    /// The HTTP server was started with session token `token`. Returns
    /// whether a server was already running; it has to be stopped first.
    pub fn start_http(&mut self, token: String) -> (stop_previous: bool)
        ensures
            stop_previous == old(self).http_running(),
            final(self).http_running(),
            final(self).token() == token@,
            final(self).wan_running() == old(self).wan_running(),
    {
        let was = self.http_token.is_some();
        self.http_token = Some(token);
        was
    }

    /// Stop the HTTP server. Returns whether one was running.
    pub fn stop_http(&mut self) -> (was_running: bool)
        ensures
            was_running == old(self).http_running(),
            !final(self).http_running(),
            final(self).wan_running() == old(self).wan_running(),
    {
        let was = self.http_token.is_some();
        self.http_token = None;
        was
    }

    /// A public tunnel needs the HTTP server: whether it has to be started
    /// first.
    pub fn wan_needs_http(&self) -> (r: bool)
        ensures
            r == !self.http_running(),
    {
        self.http_token.is_none()
    }

    /// The session token the tunnel forwards to (empty when no server runs).
    pub fn tunnel_token(&self) -> (r: String)
        ensures
            r@ == self.token(),
    {
        match &self.http_token {
            Some(t) => owned(t.as_str()),
            None => String::new(),
        }
    }

    /// The tunnel is open.
    pub fn tunnel_opened(&mut self)
        ensures
            final(self).wan_running(),
            final(self).http_running() == old(self).http_running(),
            final(self).token() == old(self).token(),
    {
        self.wan_running = true;
    }

    /// Close the tunnel. Returns whether one was open.
    pub fn stop_wan(&mut self) -> (was_running: bool)
        ensures
            was_running == old(self).wan_running(),
            !final(self).wan_running(),
            final(self).http_running() == old(self).http_running(),
            final(self).token() == old(self).token(),
    {
        let was = self.wan_running;
        self.wan_running = false;
        was
    }
}

/// What became of a code the user typed.
#[derive(Debug, Clone, Copy, PartialEq, Eq, Structural)]
pub enum CodeSubmit {
    /// Handed to the transfer that waits for it.
    Sent,
    /// The transfer that waited for it is gone.
    TaskClosed,
    /// No transfer to that address waits for a code.
    NoSession,
}

/// The line reported for a submitted code.
pub open spec fn submit_text(outcome: CodeSubmit, target_ip: Seq<char>) -> Seq<char> {
    match outcome {
        CodeSubmit::Sent => "Verification code sent to "@ + target_ip,
        CodeSubmit::TaskClosed => "Cannot send verification code (task closed)"@,
        CodeSubmit::NoSession => "No pending verification session found for "@ + target_ip,
    }
}

impl CodeSubmit {
    /// Whether the outcome is reported as an error.
    pub fn is_error(&self) -> (r: bool)
        ensures
            r == !(*self is Sent),
    {
        !matches!(self, CodeSubmit::Sent)
    }

    /// The line reported for this outcome.
    pub fn report(&self, target_ip: &str) -> (r: String)
        ensures
            r@ == submit_text(*self, target_ip@),
    {
        match self {
            CodeSubmit::Sent => {
                let mut r = owned("Verification code sent to ");
                push_str(&mut r, target_ip);
                r
            },
            CodeSubmit::TaskClosed => owned("Cannot send verification code (task closed)"),
            CodeSubmit::NoSession => {
                let mut r = owned("No pending verification session found for ");
                push_str(&mut r, target_ip);
                r
            },
        }
    }
}

/// What became of a typed code: `NoSession` when no transfer to that
/// address waited, else `Sent` or `TaskClosed` by whether the waiting
/// transfer took the code.
pub fn submit_outcome(waiting: bool, delivered: bool) -> (r: CodeSubmit)
    ensures
        r == (if !waiting {
            CodeSubmit::NoSession
        } else if delivered {
            CodeSubmit::Sent
        } else {
            CodeSubmit::TaskClosed
        }),
{
    if !waiting {
        CodeSubmit::NoSession
    } else if delivered {
        CodeSubmit::Sent
    } else {
        CodeSubmit::TaskClosed
    }
}

/// Transfers waiting for the code their user types, by the address of
/// the receiving peer.
pub struct CodeWaiters {
    waiting: KeyedList<tokio::sync::oneshot::Sender<String>>,
}

impl CodeWaiters {
    /// The channel of the transfer waiting at each address.
    pub closed spec fn waiters(&self) -> Map<Seq<char>, tokio::sync::oneshot::Sender<String>> {
        self.waiting@
    }

    /// The addresses for which a transfer waits.
    pub open spec fn addresses(&self) -> Set<Seq<char>> {
        self.waiters().dom()
    }

    /// The table is well formed.
    pub closed spec fn wf(&self) -> bool {
        self.waiting.wf()
    }

    /// No one waits.
    pub fn new() -> (r: CodeWaiters)
        ensures
            r.wf(),
            r.waiters() == Map::<Seq<char>, tokio::sync::oneshot::Sender<String>>::empty(),
    {
        CodeWaiters { waiting: KeyedList::new() }
    }

    /// A transfer to `target_ip` waits on `tx`; it replaces any earlier one
    /// for that address.
    pub fn register(&mut self, target_ip: String, tx: tokio::sync::oneshot::Sender<String>)
        requires
            old(self).wf(),
        ensures
            final(self).wf(),
            final(self).waiters() == old(self).waiters().insert(target_ip@, tx),
    {
        self.waiting.insert(target_ip, tx);
    }

    /// Take out the channel of the transfer waiting for `target_ip`; the
    /// caller hands it the typed code. The address stops waiting either
    /// way; `None` exactly when none waited.
    pub fn take_waiter(&mut self, target_ip: &str) -> (r: Option<tokio::sync::oneshot::Sender<String>>)
        requires
            old(self).wf(),
        ensures
            final(self).wf(),
            final(self).waiters() == old(self).waiters().remove(target_ip@),
            r is Some <==> old(self).waiters().contains_key(target_ip@),
            r matches Some(tx) ==> tx == old(self).waiters()[target_ip@],
    {
        self.waiting.remove(target_ip)
    }
}

} // verus!
