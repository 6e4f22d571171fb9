//! File transfer: limits, wire framing, the pairing handshake and the
//! decisions that the sender and the receiver make along the way.

pub mod constants;
pub mod utils;
pub mod protocol;
pub mod handshake;
pub mod sender;
pub mod receiver;
pub mod hash;
pub use sender::TransferContext;
