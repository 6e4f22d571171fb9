//! What the sending side knows about itself and its peer, and the messages
//! it builds from that.

use vstd::prelude::*;
use crate::text::{decimal_string, owned, push_str};
use crate::transfer::receiver::file_status_text;
use crate::transfer::protocol::TransferMsg;

verus! {

/// Who is sending, and to whom.
#[derive(Debug, Clone)]
pub struct TransferContext {
    pub my_peer_id: String,
    pub my_name: String,
    pub target_peer_name: String,
}

/// The status line shown while connecting: `Connecting to: name (addr)`.
pub open spec fn connecting_text(target_peer_name: Seq<char>, target_addr: Seq<char>) -> Seq<char> {
    "Connecting to: "@ + target_peer_name + " ("@ + target_addr + ")"@
}

impl TransferContext {
    /// The request the sender opens the handshake with: its own id and name.
    pub fn pairing_request(&self) -> (r: TransferMsg)
        ensures
            r matches TransferMsg::PairingRequest { endpoint_id, peer_name }
                && endpoint_id@ == self.my_peer_id@ && peer_name@ == self.my_name@,
    {
        TransferMsg::PairingRequest {
            endpoint_id: owned(self.my_peer_id.as_str()),
            peer_name: owned(self.my_name.as_str()),
        }
    }

    /// The status line shown while connecting to the peer at `target_addr`.
    pub fn connecting_status(&self, target_addr: &str) -> (r: String)
        ensures
            r@ == connecting_text(self.target_peer_name@, target_addr@),
    {
        let mut r = owned("Connecting to: ");
        push_str(&mut r, self.target_peer_name.as_str());
        push_str(&mut r, " (");
        push_str(&mut r, target_addr);
        push_str(&mut r, ")");
        r
    }
}

/// The status line shown when a file starts going out.
pub fn sending_status(file_name: &str, file_size: u64) -> (r: String)
    ensures
        r@ == file_status_text("Sending"@, file_name@, file_size),
{
    let mut r = owned("Sending: ");
    push_str(&mut r, file_name);
    push_str(&mut r, " (");
    let n = decimal_string(file_size);
    push_str(&mut r, n.as_str());
    push_str(&mut r, " bytes)");
    proof {
        reveal_strlit("Sending");
        reveal_strlit("Sending: ");
        reveal_strlit(": ");
    }
    r
}

/// Where the receiver wants the data to start: the offset of its
/// `ResumeInfo` answer; any other answer ends the transfer of this file.
pub fn resume_point(msg: &TransferMsg) -> (r: Option<u64>)
    ensures
        match *msg {
            TransferMsg::ResumeInfo { offset } => r == Some(offset),
            _ => r is None,
        },
{
    match msg {
        TransferMsg::ResumeInfo { offset } => Some(*offset),
        _ => None,
    }
}

} // verus!
