//! The data plane of a WireGuard tunnel, written without I/O.
//!
//! The crate holds the decisions of the tunnel: how a datagram is told apart,
//! how far a packet is padded, which sockets a bind opens and in which order,
//! what a handshake outcome asks of a peer. Reading and writing sockets and
//! devices is left to the embedding program, which hands over what it read and
//! carries out what it is told.

pub mod bind;
pub mod constants;
pub mod endpoint;
pub mod load;
pub mod padding;
pub mod shared;
pub mod socket;
pub mod wire;
pub mod workers;
