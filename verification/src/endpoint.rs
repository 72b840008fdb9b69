//! Where a peer is, and how the device heard from it.
//!
//! An endpoint holds the address that datagrams for a peer are sent to,
//! and a source hint: the local address and the interface on which the
//! peer's last datagram arrived, as the kernel reported them in the
//! datagram's packet info. A reply that carries the hint back to the kernel
//! leaves from the address that the peer wrote to.
//!
//! All numbers stand for themselves: a port is the port's number, an
//! address the number that its bytes spell in network order. How the
//! platform lays them out in memory is the business of whoever calls it.

use vstd::prelude::*;

verus! {

/// An IPv4 address and a port.
#[derive(Clone, Copy, Debug, PartialEq, Eq, Structural)]
pub struct AddressV4 {
    pub ip: u32,
    pub port: u16,
}

/// An IPv6 address and a port, with flow information and scope.
#[derive(Clone, Copy, Debug, PartialEq, Eq, Structural)]
pub struct AddressV6 {
    pub ip: u128,
    pub port: u16,
    pub flowinfo: u32,
    pub scope_id: u32,
}

/// A socket address of either family.
#[derive(Clone, Copy, Debug, PartialEq, Eq, Structural)]
pub enum Address {
    V4(AddressV4),
    V6(AddressV6),
}

/// The packet info of an IPv4 datagram.
#[derive(Clone, Copy, Debug, PartialEq, Eq, Structural)]
pub struct InfoV4 {
    /// The interface that the datagram arrived on, or is to leave from;
    /// zero leaves the choice to the routing table.
    pub ifindex: i32,
    /// The local address that the datagram was sent to, or is to be sent
    /// from; zero leaves the choice to the routing table.
    pub spec_dst: u32,
    /// The destination address in the datagram's header.
    pub addr: u32,
}

/// The packet info of an IPv6 datagram.
#[derive(Clone, Copy, Debug, PartialEq, Eq, Structural)]
pub struct InfoV6 {
    /// The local address that the datagram was sent to, or is to be sent
    /// from; zero leaves the choice to the routing table.
    pub addr: u128,
    /// The interface that the datagram arrived on, or is to leave from;
    /// zero leaves the choice to the routing table.
    pub ifindex: u32,
}

/// Packet info of either family.
#[derive(Clone, Copy, Debug, PartialEq, Eq, Structural)]
pub enum PacketInfo {
    V4(InfoV4),
    V6(InfoV6),
}

impl PacketInfo {
    /// The same info without its hint at a source: the interface and the
    /// local address are zero. An IPv4 header's destination stays.
    pub open spec fn cleared(self) -> PacketInfo {
        match self {
            PacketInfo::V4(info) => PacketInfo::V4(
                InfoV4 { ifindex: 0, spec_dst: 0, addr: info.addr },
            ),
            PacketInfo::V6(_) => PacketInfo::V6(InfoV6 { addr: 0, ifindex: 0 }),
        }
    }

    /// The info that hints at nothing, for an endpoint of the family of
    /// `addr`.
    pub open spec fn unset(addr: Address) -> PacketInfo {
        match addr {
            Address::V4(_) => PacketInfo::V4(InfoV4 { ifindex: 0, spec_dst: 0, addr: 0 }),
            Address::V6(_) => PacketInfo::V6(InfoV6 { addr: 0, ifindex: 0 }),
        }
    }
}

/// An IPv4 endpoint.
#[derive(Clone, Copy, Debug, PartialEq, Eq, Structural)]
pub struct EndpointV4 {
    dst: AddressV4,
    info: InfoV4,
}

/// An IPv6 endpoint.
#[derive(Clone, Copy, Debug, PartialEq, Eq, Structural)]
pub struct EndpointV6 {
    dst: AddressV6,
    info: InfoV6,
}

/// An endpoint of either family.
#[derive(Clone, Copy, Debug, PartialEq, Eq, Structural)]
pub enum LinuxEndpoint {
    V4(EndpointV4),
    V6(EndpointV6),
}

impl EndpointV4 {
    /// The address that datagrams are sent to.
    pub closed spec fn dst(self) -> AddressV4 {
        self.dst
    }

    /// The packet info that is sent along.
    pub closed spec fn info(self) -> InfoV4 {
        self.info
    }

    /// The endpoint of a peer at `dst` whose datagram arrived with `info`.
    pub fn new(dst: AddressV4, info: InfoV4) -> (endpoint: Self)
        ensures
            endpoint.dst() == dst,
            endpoint.info() == info,
    {
        EndpointV4 { dst, info }
    }

    /// The address that datagrams are sent to.
    pub fn destination(&self) -> (dst: AddressV4)
        ensures
            dst == self.dst(),
    {
        self.dst
    }

    /// The packet info that is sent along.
    pub fn source(&self) -> (info: InfoV4)
        ensures
            info == self.info(),
    {
        self.info
    }
}

impl EndpointV6 {
    /// The address that datagrams are sent to.
    pub closed spec fn dst(self) -> AddressV6 {
        self.dst
    }

    /// The packet info that is sent along.
    pub closed spec fn info(self) -> InfoV6 {
        self.info
    }

    /// The endpoint of a peer at `dst` whose datagram arrived with `info`.
    pub fn new(dst: AddressV6, info: InfoV6) -> (endpoint: Self)
        ensures
            endpoint.dst() == dst,
            endpoint.info() == info,
    {
        EndpointV6 { dst, info }
    }

    /// The address that datagrams are sent to.
    pub fn destination(&self) -> (dst: AddressV6)
        ensures
            dst == self.dst(),
    {
        self.dst
    }

    /// The packet info that is sent along.
    pub fn source(&self) -> (info: InfoV6)
        ensures
            info == self.info(),
    {
        self.info
    }
}

impl LinuxEndpoint {
    /// The address that datagrams are sent to.
    pub open spec fn destination(self) -> Address {
        match self {
            LinuxEndpoint::V4(endpoint) => Address::V4(endpoint.dst()),
            LinuxEndpoint::V6(endpoint) => Address::V6(endpoint.dst()),
        }
    }

    /// The packet info that is sent along: the source hint.
    pub open spec fn source(self) -> PacketInfo {
        match self {
            LinuxEndpoint::V4(endpoint) => PacketInfo::V4(endpoint.info()),
            LinuxEndpoint::V6(endpoint) => PacketInfo::V6(endpoint.info()),
        }
    }

    /// The endpoint that `from_address` makes of `addr`.
    pub closed spec fn of_address(addr: Address) -> LinuxEndpoint {
        match addr {
            Address::V4(dst) => LinuxEndpoint::V4(
                EndpointV4 { dst, info: InfoV4 { ifindex: 0, spec_dst: 0, addr: 0 } },
            ),
            Address::V6(dst) => LinuxEndpoint::V6(
                EndpointV6 { dst, info: InfoV6 { addr: 0, ifindex: 0 } },
            ),
        }
    }

    /// The endpoint that `clear_src` leaves of this one.
    pub closed spec fn without_source(self) -> LinuxEndpoint {
        match self {
            LinuxEndpoint::V4(endpoint) => LinuxEndpoint::V4(
                EndpointV4 {
                    dst: endpoint.dst,
                    info: InfoV4 { ifindex: 0, spec_dst: 0, addr: endpoint.info.addr },
                },
            ),
            LinuxEndpoint::V6(endpoint) => LinuxEndpoint::V6(
                EndpointV6 { dst: endpoint.dst, info: InfoV6 { addr: 0, ifindex: 0 } },
            ),
        }
    }

    /// The endpoint of a peer at `addr` of which nothing was heard yet: it
    /// has no source hint, so that the routing table picks the way.
    pub fn from_address(addr: Address) -> (endpoint: Self)
        ensures
            endpoint == Self::of_address(addr),
            endpoint.destination() == addr,
            endpoint.source() == PacketInfo::unset(addr),
    {
        match addr {
            Address::V4(dst) => LinuxEndpoint::V4(
                EndpointV4 { dst, info: InfoV4 { ifindex: 0, spec_dst: 0, addr: 0 } },
            ),
            Address::V6(dst) => LinuxEndpoint::V6(
                EndpointV6 { dst, info: InfoV6 { addr: 0, ifindex: 0 } },
            ),
        }
    }

    /// The address that datagrams are sent to.
    pub fn into_address(&self) -> (addr: Address)
        ensures
            addr == self.destination(),
    {
        match self {
            LinuxEndpoint::V4(endpoint) => Address::V4(endpoint.dst),
            LinuxEndpoint::V6(endpoint) => Address::V6(endpoint.dst),
        }
    }

    /// The packet info that is sent along.
    pub fn source_hint(&self) -> (info: PacketInfo)
        ensures
            info == self.source(),
    {
        match self {
            LinuxEndpoint::V4(endpoint) => PacketInfo::V4(endpoint.info),
            LinuxEndpoint::V6(endpoint) => PacketInfo::V6(endpoint.info),
        }
    }

    /// Forgets the source hint, so that the routing table picks the way
    /// again. The destination stays.
    pub fn clear_src(&mut self)
        ensures
            *final(self) == old(self).without_source(),
            final(self).destination() == old(self).destination(),
            final(self).source() == old(self).source().cleared(),
    {
        let cleared: LinuxEndpoint = match *self {
            LinuxEndpoint::V4(endpoint) => LinuxEndpoint::V4(
                EndpointV4 {
                    dst: endpoint.dst,
                    info: InfoV4 { ifindex: 0, spec_dst: 0, addr: endpoint.info.addr },
                },
            ),
            LinuxEndpoint::V6(endpoint) => LinuxEndpoint::V6(
                EndpointV6 { dst: endpoint.dst, info: InfoV6 { addr: 0, ifindex: 0 } },
            ),
        };
        *self = cleared;
    }
}

/// An endpoint made of an address leads back to that address.
pub proof fn lemma_address_round_trip(addr: Address)
    ensures
        LinuxEndpoint::of_address(addr).destination() == addr,
        LinuxEndpoint::of_address(addr).source() == PacketInfo::unset(addr),
{
}

/// Clearing the source hint leaves the destination as it is, and clearing
/// twice is clearing once.
pub proof fn lemma_clear_keeps_destination(endpoint: LinuxEndpoint)
    ensures
        endpoint.without_source().destination() == endpoint.destination(),
        endpoint.without_source().source() == endpoint.source().cleared(),
        endpoint.without_source().without_source() == endpoint.without_source(),
{
}

/// An endpoint is its destination and its source hint, and nothing more.
pub proof fn lemma_endpoint_extensional(a: LinuxEndpoint, b: LinuxEndpoint)
    requires
        a.destination() == b.destination(),
        a.source() == b.source(),
    ensures
        a == b,
{
}

} // verus!
