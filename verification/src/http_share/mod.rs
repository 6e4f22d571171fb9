//! The HTTP share: a web page served on the LAN under a secret token, from
//! which browsers upload files over a WebSocket after the user agrees.

pub mod server;
pub mod websocket;

pub use server::{HTTP_PORT, generate_session_token};
pub use websocket::{UploadState, respond_to_upload};
