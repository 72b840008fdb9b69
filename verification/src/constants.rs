//! Sizes, message types and time spans of the protocol.

use vstd::prelude::*;

verus! {

/// Transport payloads are padded to a multiple of this many bytes.
pub const MESSAGE_PADDING_MULTIPLE: usize = 16;

/// Bytes reserved before the payload for the transport header.
pub const SIZE_MESSAGE_PREFIX: usize = 16;

/// Bytes reserved after the payload for the authentication tag.
pub const CAPACITY_MESSAGE_POSTFIX: usize = 16;

/// An upper bound on the size of any handshake message.
pub const MAX_HANDSHAKE_MSG_SIZE: usize = 256;

/// Type tag of a handshake initiation.
pub const TYPE_INITIATION: u32 = 1;

/// Type tag of a handshake response.
pub const TYPE_RESPONSE: u32 = 2;

/// Type tag of a cookie reply.
pub const TYPE_COOKIE_REPLY: u32 = 3;

/// Type tag of a transport message.
pub const TYPE_TRANSPORT: u32 = 4;

/// More pending handshake messages than this put the device under load.
pub const THRESHOLD_UNDER_LOAD: usize = 512;

/// Milliseconds for which the device stays under load after the last time
/// the threshold was exceeded.
pub const DURATION_UNDER_LOAD: u64 = 1_000;

/// Milliseconds that are long compared to every time span of the protocol:
/// a moment this far back counts as "never".
pub const TIME_HORIZON: u64 = 86_400_000;

} // verus!
