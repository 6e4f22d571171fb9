//! LAN discovery: packets are the magic bytes followed by an encoded
//! `DiscoveryMsg`; a request from another peer is answered and reported, a
//! response is reported, and a peer's own messages are ignored.

use vstd::prelude::*;
use crate::{DiscoveryMsg, MAGIC_BYTES};

verus! {

/// UDP port on which peers look for each other.
pub const DISCOVERY_PORT: u16 = 8888;

/// Size of the buffer that receives discovery packets.
pub const DISCOVERY_BUFFER_SIZE: usize = 2048;

/// Seconds between automatic discovery broadcasts.
pub const DISCOVERY_INTERVAL_SECS: u64 = 5;

/// The magic bytes, as a sequence.
pub open spec fn magic() -> Seq<u8> {
    MAGIC_BYTES@
}

/// A discovery packet: the magic bytes, then the encoded message.
pub open spec fn packet_of(payload: Seq<u8>) -> Seq<u8> {
    magic() + payload
}

/// What a received packet carries: the bytes after the magic bytes, or
/// nothing when the packet is shorter than them or does not start with them.
pub open spec fn payload_of(packet: Seq<u8>) -> Option<Seq<u8>> {
    if packet.len() >= magic().len() && packet.take(magic().len() as int) == magic() {
        Some(packet.skip(magic().len() as int))
    } else {
        None
    }
}

/// Build a discovery packet around an encoded message.
pub fn build_packet(payload: &[u8]) -> (r: Vec<u8>)
    ensures
        r@ == packet_of(payload@),
{
    let mut r: Vec<u8> = Vec::new();
    let mut i: usize = 0;
    while i < MAGIC_BYTES.len()
        invariant
            i <= magic().len(),
            r@ == magic().take(i as int),
        decreases magic().len() - i,
    {
        r.push(MAGIC_BYTES[i]);
        assert(magic().take(i as int + 1) =~= magic().take(i as int).push(magic()[i as int]));
        i = i + 1;
    }
    assert(magic().take(magic().len() as int) =~= magic());
    let mut j: usize = 0;
    while j < payload.len()
        invariant
            j <= payload@.len(),
            r@ == magic() + payload@.take(j as int),
        decreases payload@.len() - j,
    {
        r.push(payload[j]);
        assert(magic() + payload@.take(j as int + 1) =~= (magic() + payload@.take(j as int)).push(
            payload@[j as int],
        ));
        j = j + 1;
    }
    assert(payload@.take(payload@.len() as int) =~= payload@);
    r
}

/// The encoded message inside a received packet, or `None` when the packet
/// does not start with the magic bytes (it is then ignored).
pub fn packet_payload(packet: &[u8]) -> (r: Option<Vec<u8>>)
    ensures
        match (r, payload_of(packet@)) {
            (Some(d), Some(sd)) => d@ == sd,
            (None, None) => true,
            _ => false,
        },
{
    let m = MAGIC_BYTES.len();
    if packet.len() < m {
        return None;
    }
    let mut i: usize = 0;
    while i < m
        invariant
            i <= m,
            m == magic().len(),
            m <= packet@.len(),
            forall|k: int| 0 <= k < i ==> packet@[k] == magic()[k],
        decreases m - i,
    {
        if packet[i] != MAGIC_BYTES[i] {
            assert(packet@.take(m as int)[i as int] != magic()[i as int]);
            return None;
        }
        i = i + 1;
    }
    assert(packet@.take(m as int) =~= magic());
    let mut d: Vec<u8> = Vec::new();
    let mut j: usize = m;
    while j < packet.len()
        invariant
            m <= j <= packet@.len(),
            d@ == packet@.subrange(m as int, j as int),
        decreases packet@.len() - j,
    {
        d.push(packet[j]);
        assert(packet@.subrange(m as int, j as int + 1) =~= packet@.subrange(m as int, j as int).push(
            packet@[j as int],
        ));
        j = j + 1;
    }
    assert(packet@.subrange(m as int, packet@.len() as int) =~= packet@.skip(m as int));
    Some(d)
}

/// A packet built by `build_packet` reads back as the message it carries.
pub proof fn packet_roundtrip(payload: Seq<u8>)
    ensures
        payload_of(packet_of(payload)) == Some(payload),
{
    assert(packet_of(payload).take(magic().len() as int) =~= magic());
    assert(packet_of(payload).skip(magic().len() as int) =~= payload);
}

/// A peer found on the LAN, as reported to the user interface.
#[derive(Debug)]
pub struct PeerFound {
    pub endpoint_id: String,
    pub ip: String,
    pub hostname: String,
}

/// What to do about a received discovery message.
#[derive(Debug)]
pub struct DiscoveryReaction {
    /// A message to send back to the sender, if any.
    pub reply: Option<DiscoveryMsg>,
    /// A peer to report, if any.
    pub peer_found: Option<PeerFound>,
}

/// The sender's id in a discovery message.
pub open spec fn sender_id(msg: DiscoveryMsg) -> Seq<char> {
    match msg {
        DiscoveryMsg::DiscoveryRequest { peer_id, .. } => peer_id@,
        DiscoveryMsg::DiscoveryResponse { peer_id, .. } => peer_id@,
    }
}

/// The sender's name in a discovery message.
pub open spec fn sender_name(msg: DiscoveryMsg) -> Seq<char> {
    match msg {
        DiscoveryMsg::DiscoveryRequest { my_name, .. } => my_name@,
        DiscoveryMsg::DiscoveryResponse { my_name, .. } => my_name@,
    }
}

/// Decide what to do about `msg`, received from `from_ip`, given this
/// peer's own id, name and transfer port.
///
/// A message carrying this peer's own id is ignored. A request from another
/// peer is answered with a response carrying this peer's identity, and that
/// peer is reported; a response from another peer is reported.
pub fn react_to_discovery(
    msg: DiscoveryMsg,
    from_ip: String,
    my_peer_id: &str,
    my_name: &str,
    my_port: u16,
) -> (r: DiscoveryReaction)
    ensures
        sender_id(msg) == my_peer_id@ ==> r.reply is None && r.peer_found is None,
        sender_id(msg) != my_peer_id@ ==> (r.peer_found matches Some(p) && p.endpoint_id@
            == sender_id(msg) && p.ip@ == from_ip@ && p.hostname@ == sender_name(msg)),
        sender_id(msg) != my_peer_id@ && msg is DiscoveryRequest ==> (r.reply matches Some(
            DiscoveryMsg::DiscoveryResponse { peer_id, my_name: name, tcp_port },
        ) && peer_id@ == my_peer_id@ && name@ == my_name@ && tcp_port == my_port),
        msg is DiscoveryResponse ==> r.reply is None,
{
    let me = my_peer_id.to_owned();
    match msg {
        DiscoveryMsg::DiscoveryRequest { peer_id, my_name: remote_name, .. } => {
            if peer_id == me {
                DiscoveryReaction { reply: None, peer_found: None }
            } else {
                let reply = DiscoveryMsg::DiscoveryResponse {
                    peer_id: me,
                    my_name: my_name.to_owned(),
                    tcp_port: my_port,
                };
                DiscoveryReaction {
                    reply: Some(reply),
                    peer_found: Some(PeerFound { endpoint_id: peer_id, ip: from_ip, hostname: remote_name }),
                }
            }
        },
        DiscoveryMsg::DiscoveryResponse { peer_id, my_name: remote_name, .. } => {
            if peer_id == me {
                DiscoveryReaction { reply: None, peer_found: None }
            } else {
                DiscoveryReaction {
                    reply: None,
                    peer_found: Some(PeerFound { endpoint_id: peer_id, ip: from_ip, hostname: remote_name }),
                }
            }
        },
    }
}

/// The discovery request this peer broadcasts.
pub fn discovery_request(my_peer_id: &str, my_name: &str, port: u16) -> (r: DiscoveryMsg)
    ensures
        r matches DiscoveryMsg::DiscoveryRequest { peer_id, my_name: name, tcp_port } && peer_id@
            == my_peer_id@ && name@ == my_name@ && tcp_port == port,
{
    DiscoveryMsg::DiscoveryRequest { peer_id: my_peer_id.to_owned(), my_name: my_name.to_owned(), tcp_port: port }
}

} // verus!
