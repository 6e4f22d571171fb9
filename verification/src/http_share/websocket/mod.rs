//! WebSocket uploads: the messages, the table of uploads waiting for the
//! user's answer, and the checks applied to each upload.

pub mod handler;
pub mod messages;
pub mod state;
pub mod utils;

pub use messages::{
    CHUNK_SIZE, ClientMessage, MAX_ACTIVE_UPLOADS, MAX_CONNECTIONS, MAX_PENDING_UPLOADS,
    ServerMessage, USER_RESPONSE_TIMEOUT_SECS,
};
pub use state::{PendingUpload, UploadState, cleanup_pending, respond_to_upload};
