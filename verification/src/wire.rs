//! The type tag that opens every datagram.

use vstd::prelude::*;
use byteorder::ByteOrder;
use byteorder::LittleEndian;
use crate::constants::TYPE_COOKIE_REPLY;
use crate::constants::TYPE_INITIATION;
use crate::constants::TYPE_RESPONSE;
use crate::constants::TYPE_TRANSPORT;

verus! {

/// What a datagram is, going by its type tag.
#[derive(Clone, Copy, Debug, PartialEq, Eq, Structural)]
pub enum MessageKind {
    /// An initiation, a response or a cookie reply.
    Handshake,
    /// A transport message.
    Transport,
    /// Fewer than four bytes, or a tag that the protocol does not know.
    Unknown,
}

/// The number that the first four bytes of `bytes` encode, least significant
/// byte first.
pub open spec fn le_u32(bytes: Seq<u8>) -> int
    recommends
        bytes.len() >= 4,
{
    bytes[0] as int + 0x100 * (bytes[1] as int) + 0x1_0000 * (bytes[2] as int) + 0x100_0000 * (
    bytes[3] as int)
}

/// The kind of a datagram with the given bytes.
pub open spec fn kind_of(bytes: Seq<u8>) -> MessageKind {
    if bytes.len() < 4 {
        MessageKind::Unknown
    } else {
        let tag = le_u32(bytes);
        if tag == TYPE_INITIATION as int || tag == TYPE_RESPONSE as int || tag
            == TYPE_COOKIE_REPLY as int {
            MessageKind::Handshake
        } else if tag == TYPE_TRANSPORT as int {
            MessageKind::Transport
        } else {
            MessageKind::Unknown
        }
    }
}

/// Calls `byteorder::LittleEndian::read_u32`, which panics on fewer than four
/// bytes and otherwise decodes the first four as a little-endian `u32`.
/// Trusted: the result is the number `le_u32` gives for the buffer.
#[verifier::external_body]
fn read_u32(buf: &[u8]) -> (tag: u32)
    requires
        buf@.len() >= 4,
    ensures
        tag as int == le_u32(buf@),
{
    LittleEndian::read_u32(buf)
}

/// Tells a datagram's kind from its first four bytes.
pub fn classify(msg: &[u8]) -> (kind: MessageKind)
    ensures
        kind == kind_of(msg@),
{
    if msg.len() < 4 {
        return MessageKind::Unknown;
    }
    let tag: u32 = read_u32(msg);
    if tag == TYPE_COOKIE_REPLY || tag == TYPE_INITIATION || tag == TYPE_RESPONSE {
        MessageKind::Handshake
    } else if tag == TYPE_TRANSPORT {
        MessageKind::Transport
    } else {
        MessageKind::Unknown
    }
}

} // verus!
