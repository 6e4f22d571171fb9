//! Peer-to-peer file transfer: LAN discovery, pairing with a short code,
//! framed transfers with resume and digest checks, a token-protected web
//! share for browser uploads, and the state of the user interface. The
//! functions here decide and compute; sockets, channels and files
//! stay with the caller, which hands in what it read and performs what the
//! library returns.

use vstd::prelude::*;

pub mod app_view;
pub mod backend;
pub mod config;
pub mod discovery;
pub mod http_share;
pub mod identity;
pub mod keyed;
pub mod pairing;
pub mod paths;
pub mod peers;
pub mod sizes;
pub mod text;
pub mod transfer;
pub mod ui;

verus! {

/// Magic bytes that open every discovery packet of this app: `P2PLT\0`.
pub const MAGIC_BYTES: &'static [u8; 6] = &[0x50, 0x32, 0x50, 0x4c, 0x54, 0x00];

/// What a peer announces about a file it is about to send.
#[derive(Debug, Clone)]
pub struct FileInfo {
    pub file_name: String,
    pub file_size: u64,
    /// Where the file lives on the sending side; never sent.
    pub file_path: std::path::PathBuf,
}

/// Discovery messages, broadcast on the LAN after the magic bytes.
#[derive(Debug)]
pub enum DiscoveryMsg {
    /// "Who is there?", with the asker's identity.
    DiscoveryRequest { peer_id: String, my_name: String, tcp_port: u16 },
    /// "I am here", sent back to an asker.
    DiscoveryResponse { peer_id: String, my_name: String, tcp_port: u16 },
}

/// Commands from the user interface to the backend.
#[derive(Debug, Clone)]
pub enum AppCommand {
    /// Broadcast a discovery request now.
    StartDiscovery,
    /// Send files to a peer.
    SendFile {
        target_ip: String,
        target_endpoint_id: String,
        target_peer_name: String,
        files: Vec<std::path::PathBuf>,
    },
    /// Cancel the transfer.
    CancelTransfer,
    /// The code the user typed (sender side).
    SubmitVerificationCode { target_ip: String, code: String },
    /// Start the HTTP share server.
    StartHttpServer,
    /// Stop the HTTP share server.
    StopHttpServer,
    /// The user's answer to an upload request from the web page.
    RespondUploadRequest { request_id: String, accepted: bool },
    /// Connect to a remote peer over the WAN.
    WanConnect { target_endpoint_id: String },
    /// Open a public tunnel to the HTTP share.
    StartWanShare,
    /// Close the public tunnel.
    StopWanShare,
}

} // verus!
