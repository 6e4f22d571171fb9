//! Messages of the transfer handshake and their framing on the wire: a
//! 4-byte big-endian length, then the encoded message.

use vstd::prelude::*;
use crate::FileInfo;
use crate::transfer::constants::MAX_MESSAGE_SIZE;
use crate::text::{decimal, decimal_string, owned, push_str};

verus! {

/// Protocol messages of the transfer handshake.
#[derive(Debug)]
pub enum TransferMsg {
    /// The sender introduces itself.
    PairingRequest { endpoint_id: String, peer_name: String },
    /// The receiver knows the sender already: go ahead.
    PairingAccepted,
    /// The receiver shows a code that the sender must type in.
    VerificationRequired,
    /// The code the sender's user typed.
    VerificationCode { code: String },
    /// The code was right.
    VerificationSuccess,
    /// The attempt was refused.
    VerificationFailed { message: String },
    /// A file is coming; `file_hash` is its BLAKE3 digest in hex, if known.
    FileMetadata { info: FileInfo, file_hash: Option<String> },
    /// The receiver is ready for data.
    ReadyForData,
    /// The receiver already holds this many bytes of the file.
    ResumeInfo { offset: u64 },
    /// The receiver has stored (and checked) the whole file.
    TransferComplete,
}

/// The 4-byte big-endian encoding of `n`.
pub open spec fn be_bytes(n: u32) -> Seq<u8> {
    seq![((n >> 24u32) & 0xffu32) as u8, ((n >> 16u32) & 0xffu32) as u8, ((n >> 8u32) & 0xffu32) as u8, (n & 0xffu32) as u8]
}

/// The number whose big-endian encoding is `b0 b1 b2 b3`.
pub open spec fn from_be_bytes(b0: u8, b1: u8, b2: u8, b3: u8) -> u32 {
    ((b0 as u32) << 24u32) | ((b1 as u32) << 16u32) | ((b2 as u32) << 8u32) | (b3 as u32)
}

/// Decoding the encoding of `n` gives `n` back.
pub proof fn lemma_be_roundtrip(n: u32)
    ensures
        from_be_bytes(be_bytes(n)[0], be_bytes(n)[1], be_bytes(n)[2], be_bytes(n)[3]) == n,
{
    let b0 = ((n >> 24u32) & 0xffu32) as u8;
    let b1 = ((n >> 16u32) & 0xffu32) as u8;
    let b2 = ((n >> 8u32) & 0xffu32) as u8;
    let b3 = (n & 0xffu32) as u8;
    assert(((b0 as u32) << 24u32) | ((b1 as u32) << 16u32) | ((b2 as u32) << 8u32) | (b3 as u32)
        == n) by (bit_vector)
        requires
            b0 == ((n >> 24u32) & 0xffu32) as u8,
            b1 == ((n >> 16u32) & 0xffu32) as u8,
            b2 == ((n >> 8u32) & 0xffu32) as u8,
            b3 == (n & 0xffu32) as u8,
    ;
}

/// The length field for a payload of `len` bytes: the length as a `u32`
/// (cut to its low 32 bits, as `len as u32` does).
pub open spec fn length_field(len: nat) -> u32 {
    (len as usize) as u32
}

/// A framed message: the 4-byte big-endian length, then the payload.
pub open spec fn frame(payload: Seq<u8>) -> Seq<u8> {
    be_bytes(length_field(payload.len())) + payload
}

/// Frame a payload for the wire.
pub fn encode_frame(payload: &[u8]) -> (r: Vec<u8>)
    ensures
        r@ == frame(payload@),
{
    let n = payload.len() as u32;
    let mut r: Vec<u8> = Vec::new();
    r.push(((n >> 24u32) & 0xffu32) as u8);
    r.push(((n >> 16u32) & 0xffu32) as u8);
    r.push(((n >> 8u32) & 0xffu32) as u8);
    r.push((n & 0xffu32) as u8);
    let ghost head = r@;
    assert(head =~= be_bytes(n));
    let mut i: usize = 0;
    while i < payload.len()
        invariant
            i <= payload@.len(),
            r@ == head + payload@.take(i as int),
        decreases payload@.len() - i,
    {
        r.push(payload[i]);
        assert(head + payload@.take(i as int + 1) =~= (head + payload@.take(i as int)).push(
            payload@[i as int],
        ));
        i = i + 1;
    }
    assert(payload@.take(payload@.len() as int) =~= payload@);
    r
}

/// Why a frame cannot be read.
#[derive(Debug)]
pub enum FrameError {
    /// The announced length is above `MAX_MESSAGE_SIZE`.
    MessageTooLarge { len: usize },
    /// The buffer ends before the frame does.
    Incomplete,
}

/// The text of the error for an oversized message.
pub open spec fn too_large_text(len: usize) -> Seq<char> {
    "Message too large: "@ + decimal(len as nat) + " bytes (max "@ + decimal(
        MAX_MESSAGE_SIZE as nat,
    ) + ")"@
}

impl FrameError {
    /// The message for this error.
    pub open spec fn spec_message(&self) -> Seq<char> {
        match self {
            FrameError::MessageTooLarge { len } => too_large_text(*len),
            FrameError::Incomplete => "Incomplete frame"@,
        }
    }

    /// The message for this error.
    pub fn message(&self) -> (m: String)
        ensures
            m@ == self.spec_message(),
    {
        match self {
            FrameError::MessageTooLarge { len } => {
                let mut m = owned("Message too large: ");
                let a = decimal_string(*len as u64);
                push_str(&mut m, a.as_str());
                push_str(&mut m, " bytes (max ");
                let b = decimal_string(MAX_MESSAGE_SIZE as u64);
                push_str(&mut m, b.as_str());
                push_str(&mut m, ")");
                m
            },
            FrameError::Incomplete => owned("Incomplete frame"),
        }
    }
}

/// The payload length announced by a 4-byte header, refused when it is
/// above `MAX_MESSAGE_SIZE` (so that no buffer is allocated for it).
pub fn decode_frame_len(header: [u8; 4]) -> (r: Result<usize, FrameError>)
    ensures
        ({
            let n = from_be_bytes(header@[0], header@[1], header@[2], header@[3]);
            &&& n <= MAX_MESSAGE_SIZE ==> r == Ok::<usize, FrameError>(n as usize)
            &&& n > MAX_MESSAGE_SIZE ==> r == Err::<usize, FrameError>(
                FrameError::MessageTooLarge { len: n as usize },
            )
        }),
{
    let b0 = header[0];
    let b1 = header[1];
    let b2 = header[2];
    let b3 = header[3];
    let n: u32 = ((b0 as u32) << 24u32) | ((b1 as u32) << 16u32) | ((b2 as u32) << 8u32) | (b3 as u32);
    if n as usize > MAX_MESSAGE_SIZE {
        Err(FrameError::MessageTooLarge { len: n as usize })
    } else {
        Ok(n as usize)
    }
}

/// The result of reading one frame from the front of `buf`.
pub open spec fn spec_parse_frame(buf: Seq<u8>) -> Result<(Seq<u8>, nat), FrameError> {
    if buf.len() < 4 {
        Err(FrameError::Incomplete)
    } else {
        let n = from_be_bytes(buf[0], buf[1], buf[2], buf[3]);
        if n > MAX_MESSAGE_SIZE {
            Err(FrameError::MessageTooLarge { len: n as usize })
        } else if buf.len() < 4 + n {
            Err(FrameError::Incomplete)
        } else {
            Ok((buf.subrange(4, 4 + n), (4 + n) as nat))
        }
    }
}

/// Read one frame from the front of `buf`: its payload and the number of
/// bytes it took.
pub fn parse_frame(buf: &[u8]) -> (r: Result<(Vec<u8>, usize), FrameError>)
    ensures
        match (r, spec_parse_frame(buf@)) {
            (Ok((p, k)), Ok((sp, sk))) => p@ == sp && k == sk,
            (Err(e), Err(se)) => e == se,
            _ => false,
        },
{
    if buf.len() < 4 {
        return Err(FrameError::Incomplete);
    }
    let header: [u8; 4] = [buf[0], buf[1], buf[2], buf[3]];
    assert(header@[0] == buf@[0] && header@[1] == buf@[1] && header@[2] == buf@[2] && header@[3] == buf@[3]);
    let n = decode_frame_len(header)?;
    if buf.len() - 4 < n {
        return Err(FrameError::Incomplete);
    }
    let mut p: Vec<u8> = Vec::new();
    let mut i: usize = 0;
    while i < n
        invariant
            i <= n,
            4 + n <= buf@.len(),
            buf@.len() == buf.len(),
            p@ == buf@.subrange(4, 4 + i),
        decreases n - i,
    {
        p.push(buf[4 + i]);
        assert(buf@.subrange(4, 4 + i + 1) =~= buf@.subrange(4, 4 + i).push(buf@[4 + i]));
        i = i + 1;
    }
    Ok((p, 4 + n))
}

/// Framing round-trips: a payload of at most `MAX_MESSAGE_SIZE` bytes,
/// framed and followed by anything, reads back as that payload, taking
/// exactly the frame's bytes.
pub proof fn frame_roundtrip(payload: Seq<u8>, rest: Seq<u8>)
    requires
        payload.len() <= MAX_MESSAGE_SIZE,
    ensures
        spec_parse_frame(frame(payload) + rest) == Ok::<(Seq<u8>, nat), FrameError>(
            (payload, (4 + payload.len()) as nat),
        ),
{
    let n = length_field(payload.len());
    assert(n == payload.len());
    let h = be_bytes(n);
    lemma_be_roundtrip(n);
    lemma_header_prefix(h, payload + rest);
    let buf = frame(payload) + rest;
    assert(buf =~= h + (payload + rest));
    assert(buf.subrange(4, 4 + payload.len() as int) =~= payload);
}

/// The first four bytes of `h + tail`, for a 4-byte `h`, are those of `h`.
proof fn lemma_header_prefix(h: Seq<u8>, tail: Seq<u8>)
    requires
        h.len() == 4,
    ensures
        (h + tail).len() >= 4,
        (h + tail)[0] == h[0],
        (h + tail)[1] == h[1],
        (h + tail)[2] == h[2],
        (h + tail)[3] == h[3],
{
}

/// A header announcing more than `MAX_MESSAGE_SIZE` bytes is refused
/// whatever follows it.
pub proof fn oversized_frames_are_refused(len: u32, rest: Seq<u8>)
    requires
        len > MAX_MESSAGE_SIZE,
    ensures
        spec_parse_frame(be_bytes(len) + rest) == Err::<(Seq<u8>, nat), FrameError>(
            FrameError::MessageTooLarge { len: len as usize },
        ),
{
    lemma_be_roundtrip(len);
    lemma_header_prefix(be_bytes(len), rest);
}

} // verus!
