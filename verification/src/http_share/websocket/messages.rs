//! WebSocket message types and limits.

use vstd::prelude::*;

verus! {

/// Chunk size for binary transfer (256 KiB).
pub const CHUNK_SIZE: usize = 256 * 1024;

/// Seconds to wait for the user's answer to an upload request.
pub const USER_RESPONSE_TIMEOUT_SECS: u64 = 60;

/// Seconds to wait for the browser's first message.
pub const HANDSHAKE_TIMEOUT_SECS: u64 = 10;

/// Maximum number of uploads waiting for the user's answer.
pub const MAX_PENDING_UPLOADS: usize = 10;

/// Maximum number of uploads in progress at once.
pub const MAX_ACTIVE_UPLOADS: usize = 5;

/// Largest WebSocket message accepted from a browser (512 KiB, twice a
/// chunk).
pub const MAX_WS_MESSAGE_SIZE: usize = 512 * 1024;

/// Maximum number of WebSocket connections open at once.
pub const MAX_CONNECTIONS: usize = 20;

/// Messages from the browser.
#[derive(Debug)]
pub enum ClientMessage {
    /// What the browser is about to upload.
    FileInfo { file_name: String, file_size: u64 },
}

/// Messages to the browser.
#[derive(Debug)]
pub enum ServerMessage {
    /// The user accepted the upload.
    Accepted { request_id: String },
    /// The upload is refused.
    Rejected { reason: String },
    /// Bytes stored so far.
    Progress { received_bytes: u64 },
    /// The upload is stored.
    Complete { saved_path: String },
    /// Something went wrong.
    Error { message: String },
}

} // verus!
