//! Limits and defaults of the transfer protocol.

use vstd::prelude::*;

verus! {

/// QUIC port on which the receiver listens.
pub const TRANSFER_PORT: u16 = 9000;

/// Size of the buffer used to move file data (16 MiB).
pub const BUFFER_SIZE: usize = 16 * 1024 * 1024;

/// Maximum file size accepted (10 GiB).
pub const MAX_FILE_SIZE: u64 = 10 * 1024 * 1024 * 1024;

/// Maximum filename length (255 bytes).
pub const MAX_FILENAME_LENGTH: usize = 255;

/// Maximum protocol message size (64 KiB), so that a peer cannot make the
/// receiver allocate at will.
pub const MAX_MSG_SIZE: usize = 64 * 1024;

/// The same limit under the name that the framing code uses.
pub const MAX_MESSAGE_SIZE: usize = MAX_MSG_SIZE;

/// Seconds a receiver waits for the first message of a new stream.
pub const FIRST_MESSAGE_TIMEOUT_SECS: u64 = 5;

/// Seconds to wait for the pairing code before giving up.
pub const DEFAULT_PAIRING_TIMEOUT_SECS: u64 = 60;

} // verus!
