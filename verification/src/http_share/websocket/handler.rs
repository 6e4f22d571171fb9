//! Decisions of the WebSocket handler: how many connections may be open,
//! what follows the wait for the user's answer, how much of each received
//! chunk may be written, and when progress is reported.

use vstd::prelude::*;
use crate::http_share::websocket::messages::{MAX_CONNECTIONS, ServerMessage};
use crate::text::owned;

verus! {

/// The number of open WebSocket connections, never above
/// `MAX_CONNECTIONS`.
pub struct ConnectionCounter {
    count: usize,
}

impl ConnectionCounter {
    /// Number of open connections.
    pub closed spec fn spec_count(&self) -> nat {
        self.count as nat
    }

    /// The count never exceeds the limit.
    pub open spec fn wf(&self) -> bool {
        self.spec_count() <= MAX_CONNECTIONS
    }

    /// No connection open.
    pub fn new() -> (r: ConnectionCounter)
        ensures
            r.wf(),
            r.spec_count() == 0,
    {
        ConnectionCounter { count: 0 }
    }

    /// Number of open connections.
    pub fn count(&self) -> (n: usize)
        ensures
            n == self.spec_count(),
    {
        self.count
    }

    /// Admit a new connection, unless `MAX_CONNECTIONS` are open.
    pub fn try_enter(&mut self) -> (r: bool)
        requires
            old(self).wf(),
        ensures
            final(self).wf(),
            r == (old(self).spec_count() < MAX_CONNECTIONS),
            r ==> final(self).spec_count() == old(self).spec_count() + 1,
            !r ==> final(self).spec_count() == old(self).spec_count(),
    {
        if self.count < MAX_CONNECTIONS {
            self.count = self.count + 1;
            true
        } else {
            false
        }
    }

    /// A connection closed.
    pub fn leave(&mut self)
        requires
            old(self).wf(),
            old(self).spec_count() > 0,
        ensures
            final(self).wf(),
            final(self).spec_count() == old(self).spec_count() - 1,
    {
        self.count = self.count - 1;
    }
}

/// What to do with a binary chunk of an upload.
#[derive(Debug)]
pub enum ChunkPlan {
    /// The declared size was already reached: refuse the data and stop.
    Reject,
    /// Write the first `len` bytes; `overflow` says that the chunk went past
    /// the declared size (the rest is dropped and the upload ends).
    Write { len: usize, overflow: bool },
}

/// Bytes still expected: the declared size minus what was stored (zero
/// once it is reached).
pub open spec fn remaining(received: u64, file_size: u64) -> int {
    if received < file_size {
        file_size - received
    } else {
        0
    }
}

/// Plan the write of a chunk of `data_len` bytes when `received` of the
/// declared `file_size` bytes are stored: never more than declared.
pub fn plan_chunk(received: u64, file_size: u64, data_len: usize) -> (r: ChunkPlan)
    ensures
        remaining(received, file_size) == 0 ==> r is Reject,
        remaining(received, file_size) > 0 ==> (r matches ChunkPlan::Write { len, overflow }
            && len as int == (if data_len < remaining(received, file_size) { data_len as int } else { remaining(received, file_size) })
            && overflow == (data_len > remaining(received, file_size))),
{
    let left = file_size.saturating_sub(received);
    if left == 0 {
        return ChunkPlan::Reject;
    }
    let data = data_len as u64;
    if data > left {
        ChunkPlan::Write { len: left as usize, overflow: true }
    } else {
        ChunkPlan::Write { len: data_len, overflow: false }
    }
}

/// How the wait for the user's answer to an upload request ended.
#[derive(Debug, Clone, Copy)]
pub enum UserWait {
    /// The user answered.
    Answered { accepted: bool },
    /// The answer channel broke.
    ChannelClosed,
    /// The browser closed the connection or it failed.
    ClientLeft,
    /// No answer within `USER_RESPONSE_TIMEOUT_SECS`.
    TimedOut,
}

/// What the handler does once the wait ended. In every case the request
/// leaves the table of waiting uploads.
#[derive(Debug)]
pub enum WaitStep {
    /// Accepted: go on to take an upload slot.
    Proceed,
    /// Refused by the user: send `reply` and stop.
    Refuse { reply: ServerMessage },
    /// Given up: send `reply` if any, tell the user interface that the
    /// request is withdrawn, and stop.
    Abandon { reply: Option<ServerMessage> },
}

/// Decide what follows the wait for the user's answer.
pub fn after_user_wait(w: UserWait) -> (r: WaitStep)
    ensures
        w matches UserWait::Answered { accepted } ==> (accepted ==> r is Proceed) && (!accepted ==> (
        r matches WaitStep::Refuse { reply: ServerMessage::Rejected { reason } } && reason@
            == "User rejected the upload"@)),
        w is ChannelClosed ==> (r matches WaitStep::Abandon {
            reply: Some(ServerMessage::Error { message }),
        } && message@ == "Internal error"@),
        w is ClientLeft ==> (r matches WaitStep::Abandon { reply: None }),
        w is TimedOut ==> (r matches WaitStep::Abandon {
            reply: Some(ServerMessage::Rejected { reason }),
        } && reason@ == "Request timed out"@),
{
    match w {
        UserWait::Answered { accepted } => {
            if accepted {
                WaitStep::Proceed
            } else {
                WaitStep::Refuse {
                    reply: ServerMessage::Rejected { reason: owned("User rejected the upload") },
                }
            }
        },
        UserWait::ChannelClosed => WaitStep::Abandon {
            reply: Some(ServerMessage::Error { message: owned("Internal error") }),
        },
        UserWait::ClientLeft => WaitStep::Abandon { reply: None },
        UserWait::TimedOut => WaitStep::Abandon {
            reply: Some(ServerMessage::Rejected { reason: owned("Request timed out") }),
        },
    }
}

/// Milliseconds between two progress reports of an upload.
pub const UPLOAD_PROGRESS_INTERVAL_MS: u128 = 100;

/// Whether to report an upload's progress: more than
/// `UPLOAD_PROGRESS_INTERVAL_MS` since the last report, or the upload is
/// complete.
pub fn upload_progress_due(since_last_ms: u128, received: u64, file_size: u64) -> (r: bool)
    ensures
        r == (since_last_ms > UPLOAD_PROGRESS_INTERVAL_MS || received >= file_size),
{
    since_last_ms > UPLOAD_PROGRESS_INTERVAL_MS || received >= file_size
}

/// An upload never stores more than its declared size: whatever the
/// chunks, each planned write keeps the total at or below `file_size`.
pub proof fn uploads_stay_within_declared_size(received: u64, file_size: u64, len: usize, data_len: usize)
    requires
        received <= file_size,
        remaining(received, file_size) > 0,
        len as int == (if data_len < remaining(received, file_size) { data_len as int } else { remaining(received, file_size) }),
    ensures
        received + len <= file_size,
{
}

} // verus!
