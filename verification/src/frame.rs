//! Frame layer: every packet travels behind a four-byte big-endian count of
//! its bytes, and no packet may be larger than [`MAX_FRAME_LEN`].
use crate::error::{Error, ErrorKind};
use crate::packet::{
    packet_bytes, parsed_packet, theorem_packet_decode_encode, Packet, PacketView,
};
use vstd::prelude::*;

verus! {

/// Largest packet, in bytes, that is sent or accepted: 512 KiB.
pub const MAX_FRAME_LEN: usize = 524288;

/// The four bytes that stand for `n`, highest byte first.
pub open spec fn be32(n: int) -> Seq<u8> {
    seq![
        (n / 16777216) as u8,
        ((n / 65536) % 256) as u8,
        ((n / 256) % 256) as u8,
        (n % 256) as u8,
    ]
}

/// The number that the first four bytes of `header` stand for, highest byte
/// first.
pub open spec fn be32_value(header: Seq<u8>) -> int {
    header[0] as int * 16777216 + header[1] as int * 65536 + header[2] as int * 256
        + header[3] as int
}

/// A packet body behind its length prefix.
pub open spec fn frame_bytes(body: Seq<u8>) -> Seq<u8> {
    be32(body.len() as int) + body
}

/// What goes on the wire for a packet: its frame, or the kind of error that
/// keeps it from being sent.
pub open spec fn packet_frame(p: PacketView) -> Result<Seq<u8>, ErrorKind> {
    match packet_bytes(p) {
        Err(k) => Err(k),
        Ok(body) => if body.len() > MAX_FRAME_LEN {
            Err(ErrorKind::TooLong)
        } else {
            Ok(frame_bytes(body))
        },
    }
}

/// What a frame header announces: the length of the body to read, or a size
/// error when it is over the ceiling.
pub open spec fn parsed_frame_len(header: Seq<u8>) -> Result<int, ErrorKind> {
    if be32_value(header) > MAX_FRAME_LEN {
        Err(ErrorKind::TooLong)
    } else {
        Ok(be32_value(header))
    }
}

/// Puts a packet body behind its length prefix. A body over the ceiling is a
/// size error, and nothing is produced for it.
pub fn frame(body: &[u8]) -> (r: Result<Vec<u8>, Error>)
    ensures
        match r {
            Ok(f) => body@.len() <= MAX_FRAME_LEN && f@ == frame_bytes(body@),
            Err(e) => body@.len() > MAX_FRAME_LEN && e.kind() == ErrorKind::TooLong,
        },
{
    let len = body.len();
    if len > MAX_FRAME_LEN {
        return Err(Error::TooLong("packet"));
    }
    let mut out: Vec<u8> = Vec::with_capacity(4 + len);
    out.push((len / 16777216) as u8);
    out.push(((len / 65536) % 256) as u8);
    out.push(((len / 256) % 256) as u8);
    out.push((len % 256) as u8);
    out.extend_from_slice(body);
    Ok(out)
}

/// Encodes a packet and frames it: the bytes to write to the stream for it.
/// Every error is found before any byte is produced.
pub fn encode_frame(pkt: &Packet) -> (r: Result<Vec<u8>, Error>)
    ensures
        match packet_frame(pkt@) {
            Ok(bytes) => r matches Ok(f) && f@ == bytes,
            Err(k) => r matches Err(e) && e.kind() == k,
        },
{
    let data = match pkt.encode() {
        Ok(data) => data,
        Err(e) => { return Err(e); },
    };
    frame(data.as_slice())
}

/// Reads a frame header: the number of body bytes that follow it. A length
/// over the ceiling is refused before any of the body is read.
pub fn frame_len(header: &[u8; 4]) -> (r: Result<usize, Error>)
    ensures
        match parsed_frame_len(header@) {
            Ok(n) => r matches Ok(len) && len == n,
            Err(k) => r matches Err(e) && e.kind() == k,
        },
{
    let len: u32 = (header[0] as u32) * 16777216 + (header[1] as u32) * 65536 + (header[2] as u32)
        * 256 + (header[3] as u32);
    let len = len as usize;
    if len > MAX_FRAME_LEN {
        return Err(Error::TooLong("frame"));
    }
    Ok(len)
}

/// Frame integrity: the length prefix of a frame is the exact number of body
/// bytes behind it, the body follows unchanged, and reading the prefix back
/// gives that number.
pub proof fn theorem_frame_prefix_is_body_len(body: Seq<u8>)
    requires
        body.len() <= MAX_FRAME_LEN,
    ensures
        frame_bytes(body).len() == 4 + body.len(),
        be32_value(frame_bytes(body).take(4)) == body.len(),
        parsed_frame_len(frame_bytes(body).take(4)) == Ok::<_, ErrorKind>(body.len() as int),
        frame_bytes(body).skip(4) == body,
{
}

/// Frame integrity for packets: whatever packet is sent, the first four bytes
/// of what goes on the wire count exactly the bytes of the packet behind them.
pub proof fn theorem_packet_frame_integrity(p: PacketView)
    requires
        packet_frame(p) is Ok,
    ensures
        packet_bytes(p) is Ok,
        packet_frame(p)->Ok_0.len() == 4 + packet_bytes(p)->Ok_0.len(),
        be32_value(packet_frame(p)->Ok_0.take(4)) == packet_bytes(p)->Ok_0.len(),
        packet_frame(p)->Ok_0.skip(4) == packet_bytes(p)->Ok_0,
{
    theorem_frame_prefix_is_body_len(packet_bytes(p)->Ok_0);
}

/// What is sent is what is received: a receiver that reads the four-byte
/// prefix of a frame learns the length of the rest, and decoding the rest
/// gives the packet that was sent, except that a message without elements
/// arrives as no message.
pub proof fn theorem_frame_roundtrip(p: PacketView)
    requires
        p.well_formed(),
        packet_frame(p) is Ok,
    ensures
        parsed_frame_len(packet_frame(p)->Ok_0.take(4)) == Ok::<_, ErrorKind>(
            packet_frame(p)->Ok_0.len() - 4,
        ),
        parsed_packet(packet_frame(p)->Ok_0.skip(4)) == Ok::<_, ErrorKind>(
            PacketView {
                ty: p.ty,
                name: p.name,
                message: if p.message is Some && p.message->0.len() > 0 {
                    p.message
                } else {
                    None
                },
            },
        ),
{
    theorem_frame_prefix_is_body_len(packet_bytes(p)->Ok_0);
    theorem_packet_decode_encode(p);
}

} // verus!
