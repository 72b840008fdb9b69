//! The UDP bind: up to two sockets on one port, one for each IP family.
//!
//! A bind is put together from the outcome of two openings, IPv6 first.
//! What comes of it are the readers, one for each socket, a writer that
//! picks the socket by the family of the endpoint, and an owner, which
//! knows the port and is the one to mark and to close the sockets.

use vstd::prelude::*;
use crate::endpoint::Address;
use crate::endpoint::AddressV4;
use crate::endpoint::AddressV6;
use crate::endpoint::EndpointV4;
use crate::endpoint::EndpointV6;
use crate::endpoint::InfoV4;
use crate::endpoint::InfoV6;
use crate::endpoint::LinuxEndpoint;
use crate::endpoint::PacketInfo;
use crate::socket::Error;
use crate::socket::Family;
use crate::socket::Opened;
use crate::socket::SocketOption;
use crate::socket::SocketSetup;
use crate::socket::Syscall;

verus! {

/// The UDP bind of Linux.
pub struct LinuxUDP();

/// The sockets of a bind and their port.
#[derive(Debug)]
pub struct LinuxOwner {
    port: u16,
    sock4: Option<i32>,
    sock6: Option<i32>,
}

/// The receiving side of one socket of a bind.
#[derive(Clone, Copy, Debug, PartialEq, Eq, Structural)]
pub enum LinuxUDPReader {
    V4(i32),
    V6(i32),
}

/// The sending side of a bind. A family without a socket has the
/// descriptor -1, on which every send fails.
#[derive(Clone, Copy, Debug, PartialEq, Eq, Structural)]
pub struct LinuxUDPWriter {
    sock4: i32,
    sock6: i32,
}

/// A datagram to send: on which socket, where to, and with which packet
/// info in its control message.
#[derive(Clone, Copy, Debug, PartialEq, Eq, Structural)]
pub struct Outgoing {
    pub fd: i32,
    pub dst: Address,
    pub info: PacketInfo,
}

/// The descriptor of the socket that an opening ended in, if it did.
pub open spec fn socket_of(opened: Opened) -> Option<i32> {
    match opened {
        Ok((_, fd)) => Some(fd),
        Err(_) => None,
    }
}

/// The port that the IPv4 socket is opened on: the port of the IPv6 socket
/// where there is one, else the port that was asked for.
pub open spec fn port4(port: u16, bind6: Opened) -> u16 {
    match bind6 {
        Ok((bound, _)) => bound,
        Err(_) => port,
    }
}

/// The port of the bind: that of the IPv4 socket where there is one, else
/// that of the IPv6 socket.
pub open spec fn bound_port(port: u16, bind6: Opened, bind4: Opened) -> u16 {
    match bind4 {
        Ok((bound, _)) => bound,
        Err(_) => port4(port, bind6),
    }
}

/// The readers of a bind with these sockets: IPv6 first.
pub open spec fn readers_of(sock6: Option<i32>, sock4: Option<i32>) -> Seq<LinuxUDPReader> {
    let v6 = match sock6 {
        Some(fd) => seq![LinuxUDPReader::V6(fd)],
        None => seq![],
    };
    let v4 = match sock4 {
        Some(fd) => seq![LinuxUDPReader::V4(fd)],
        None => seq![],
    };
    v6 + v4
}

/// The calls that mark the sockets: IPv6 first.
pub open spec fn mark_calls(sock6: Option<i32>, sock4: Option<i32>, mark: u32) -> Seq<Syscall> {
    let v6 = match sock6 {
        Some(fd) => seq![
            Syscall::SetOption {
                fd,
                family: Family::V6,
                option: SocketOption::Mark,
                value: mark,
            },
        ],
        None => seq![],
    };
    let v4 = match sock4 {
        Some(fd) => seq![
            Syscall::SetOption {
                fd,
                family: Family::V4,
                option: SocketOption::Mark,
                value: mark,
            },
        ],
        None => seq![],
    };
    v6 + v4
}

/// The calls that close the sockets: IPv4 first.
pub open spec fn close_calls(sock6: Option<i32>, sock4: Option<i32>) -> Seq<Syscall> {
    let v4 = match sock4 {
        Some(fd) => seq![Syscall::Close { fd }],
        None => seq![],
    };
    let v6 = match sock6 {
        Some(fd) => seq![Syscall::Close { fd }],
        None => seq![],
    };
    v4 + v6
}

impl LinuxUDPReader {
    /// The descriptor of the reader's socket.
    pub open spec fn fd_spec(self) -> i32 {
        match self {
            LinuxUDPReader::V4(fd) => fd,
            LinuxUDPReader::V6(fd) => fd,
        }
    }

    /// The family of the reader's socket.
    pub open spec fn family_spec(self) -> Family {
        match self {
            LinuxUDPReader::V4(_) => Family::V4,
            LinuxUDPReader::V6(_) => Family::V6,
        }
    }

    /// The descriptor of the reader's socket.
    pub fn fd(&self) -> (fd: i32)
        ensures
            fd == self.fd_spec(),
    {
        match self {
            LinuxUDPReader::V4(fd) => *fd,
            LinuxUDPReader::V6(fd) => *fd,
        }
    }

    /// The family of the reader's socket.
    pub fn family(&self) -> (family: Family)
        ensures
            family == self.family_spec(),
    {
        match self {
            LinuxUDPReader::V4(_) => Family::V4,
            LinuxUDPReader::V6(_) => Family::V6,
        }
    }

    /// What a receive on an IPv4 socket amounts to: `len` is what the call
    /// returned, `src` the name of the sender and `info` the packet info
    /// that came with the datagram. A negative `len` is an error. Else the
    /// datagram has `len` bytes, and its endpoint leads back to the sender
    /// by the way the datagram came.
    pub fn read4(len: isize, src: AddressV4, info: InfoV4) -> (result: Result<
        (usize, LinuxEndpoint),
        Error,
    >)
        ensures
            len < 0 ==> result == Err::<(usize, LinuxEndpoint), Error>(Error::Receive),
            len >= 0 ==> (result matches Ok((size, endpoint)) && size == len
                && endpoint.destination() == Address::V4(src) && endpoint.source()
                == PacketInfo::V4(info)),
    {
        if len < 0 {
            return Err(Error::Receive);
        }
        Ok((len as usize, LinuxEndpoint::V4(EndpointV4::new(src, info))))
    }

    /// What a receive on an IPv6 socket amounts to; see `read4`.
    pub fn read6(len: isize, src: AddressV6, info: InfoV6) -> (result: Result<
        (usize, LinuxEndpoint),
        Error,
    >)
        ensures
            len < 0 ==> result == Err::<(usize, LinuxEndpoint), Error>(Error::Receive),
            len >= 0 ==> (result matches Ok((size, endpoint)) && size == len
                && endpoint.destination() == Address::V6(src) && endpoint.source()
                == PacketInfo::V6(info)),
    {
        if len < 0 {
            return Err(Error::Receive);
        }
        Ok((len as usize, LinuxEndpoint::V6(EndpointV6::new(src, info))))
    }
}

/// Whether a sender's name and a datagram's packet info are of the family
/// of the reader's socket.
pub open spec fn of_family(reader: LinuxUDPReader, src: Address, info: PacketInfo) -> bool {
    match reader {
        LinuxUDPReader::V4(_) => src is V4 && info is V4,
        LinuxUDPReader::V6(_) => src is V6 && info is V6,
    }
}

impl LinuxUDPReader {
    /// What a receive on the reader's socket amounts to: `len` is what the
    /// call returned, `src` the name of the sender and `info` the packet
    /// info that came with the datagram. A negative `len` is an error, and so
    /// is a name or an info of the other family. Else the datagram has
    /// `len` bytes, and its endpoint leads back to the sender by the way the
    /// datagram came.
    pub fn read(&self, len: isize, src: Address, info: PacketInfo) -> (result: Result<
        (usize, LinuxEndpoint),
        Error,
    >)
        ensures
            len < 0 || !of_family(*self, src, info) ==> result == Err::<
                (usize, LinuxEndpoint),
                Error,
            >(Error::Receive),
            len >= 0 && of_family(*self, src, info) ==> (result matches Ok((size, endpoint))
                && size == len && endpoint.destination() == src && endpoint.source() == info),
    {
        match (self, src, info) {
            (LinuxUDPReader::V4(_), Address::V4(src), PacketInfo::V4(info)) => Self::read4(
                len,
                src,
                info,
            ),
            (LinuxUDPReader::V6(_), Address::V6(src), PacketInfo::V6(info)) => Self::read6(
                len,
                src,
                info,
            ),
            _ => Err(Error::Receive),
        }
    }
}

impl LinuxUDPWriter {
    /// The descriptor of the IPv4 socket, or -1.
    pub closed spec fn sock4(self) -> i32 {
        self.sock4
    }

    /// The descriptor of the IPv6 socket, or -1.
    pub closed spec fn sock6(self) -> i32 {
        self.sock6
    }

    /// The datagram that carries a payload to `dst`.
    pub open spec fn outgoing(self, dst: LinuxEndpoint) -> Outgoing {
        Outgoing {
            fd: match dst {
                LinuxEndpoint::V4(_) => self.sock4(),
                LinuxEndpoint::V6(_) => self.sock6(),
            },
            dst: dst.destination(),
            info: dst.source(),
        }
    }

    /// Addresses a datagram to `dst`: it goes out on the socket of the
    /// endpoint's family, to the endpoint's destination, and its control
    /// message carries the endpoint's source hint.
    pub fn write(&self, dst: &LinuxEndpoint) -> (datagram: Outgoing)
        ensures
            datagram == self.outgoing(*dst),
    {
        let fd: i32 = match dst {
            LinuxEndpoint::V4(_) => self.sock4,
            LinuxEndpoint::V6(_) => self.sock6,
        };
        Outgoing { fd, dst: dst.into_address(), info: dst.source_hint() }
    }

    /// Checks the return of the call that sent a datagram.
    pub fn sent(code: isize) -> (result: Result<(), Error>)
        ensures
            result == if code < 0 {
                Err::<(), Error>(Error::Send)
            } else {
                Ok::<(), Error>(())
            },
    {
        if code < 0 {
            Err(Error::Send)
        } else {
            Ok(())
        }
    }
}

impl LinuxOwner {
    #[verifier::type_invariant]
    spec fn well_formed(self) -> bool {
        self.sock4.is_some() || self.sock6.is_some()
    }

    /// The port that the sockets are bound to.
    pub closed spec fn port(self) -> u16 {
        self.port
    }

    /// The IPv4 socket, if the bind has one.
    pub closed spec fn sock4(self) -> Option<i32> {
        self.sock4
    }

    /// The IPv6 socket, if the bind has one.
    pub closed spec fn sock6(self) -> Option<i32> {
        self.sock6
    }

    /// The port that the sockets are bound to.
    pub fn get_port(&self) -> (port: u16)
        ensures
            port == self.port(),
    {
        self.port
    }

    /// The calls that set the routing mark of every socket of the bind to
    /// `value`, or to zero where there is none. They are made in order, each
    /// is checked with `option_set`, and the first that fails ends the row.
    pub fn set_fwmark(&mut self, value: Option<u32>) -> (calls: Vec<Syscall>)
        ensures
            *final(self) == *old(self),
            calls@ == mark_calls(old(self).sock6(), old(self).sock4(), value.unwrap_or(0)),
            calls@.len() > 0,
    {
        proof {
            use_type_invariant(&*self);
        }
        let mark: u32 = value.unwrap_or(0);
        let mut calls: Vec<Syscall> = Vec::new();
        if let Some(fd) = self.sock6 {
            calls.push(
                Syscall::SetOption { fd, family: Family::V6, option: SocketOption::Mark, value: mark },
            );
        }
        if let Some(fd) = self.sock4 {
            calls.push(
                Syscall::SetOption { fd, family: Family::V4, option: SocketOption::Mark, value: mark },
            );
        }
        assert(calls@ =~= mark_calls(self.sock6(), self.sock4(), mark));
        calls
    }

    /// Ends the bind: the calls that close its sockets, one for each. The
    /// owner is gone with this, so no socket is closed twice.
    pub fn close(self) -> (calls: Vec<Syscall>)
        ensures
            calls@ == close_calls(self.sock6(), self.sock4()),
            calls@.len() > 0,
    {
        proof {
            use_type_invariant(&self);
        }
        let mut calls: Vec<Syscall> = Vec::new();
        if let Some(fd) = self.sock4 {
            calls.push(Syscall::Close { fd });
        }
        if let Some(fd) = self.sock6 {
            calls.push(Syscall::Close { fd });
        }
        assert(calls@ =~= close_calls(self.sock6(), self.sock4()));
        calls
    }
}

impl LinuxUDP {
    /// Begins the opening of the IPv6 socket, on the port that was asked
    /// for; zero asks for any.
    pub fn bind6(port: u16) -> (setup: SocketSetup)
        ensures
            setup.family() == Family::V6,
            setup.port() == port,
            setup.done() == 0,
    {
        SocketSetup::new(Family::V6, port)
    }

    /// Begins the opening of the IPv4 socket, once the opening of the IPv6
    /// socket has ended in `bind6`: on the same port, if there is one.
    pub fn bind4(port: u16, bind6: &Opened) -> (setup: SocketSetup)
        ensures
            setup.family() == Family::V4,
            setup.port() == port4(port, *bind6),
            setup.done() == 0,
    {
        let port: u16 = match bind6 {
            Ok((bound, _)) => *bound,
            Err(_) => port,
        };
        SocketSetup::new(Family::V4, port)
    }

    /// Puts the bind together from what the two openings ended in. With
    /// neither socket the bind fails, with the error of the IPv6 opening.
    /// With one or both it has a reader for each, IPv6 first, a writer and
    /// an owner for both.
    pub fn bind(port: u16, bind6: Opened, bind4: Opened) -> (result: Result<
        (Vec<LinuxUDPReader>, LinuxUDPWriter, LinuxOwner),
        Error,
    >)
        ensures
            match result {
                Ok((readers, writer, owner)) => {
                    &&& bind6.is_ok() || bind4.is_ok()
                    &&& owner.port() == bound_port(port, bind6, bind4)
                    &&& owner.sock6() == socket_of(bind6)
                    &&& owner.sock4() == socket_of(bind4)
                    &&& readers@ == readers_of(socket_of(bind6), socket_of(bind4))
                    &&& readers@.len() > 0
                    &&& writer.sock6() == socket_of(bind6).unwrap_or(-1i32)
                    &&& writer.sock4() == socket_of(bind4).unwrap_or(-1i32)
                },
                Err(error) => bind4.is_err() && bind6 == Err::<(u16, i32), Error>(error),
            },
    {
        let mut port = port;
        let sock6: Option<i32> = match bind6 {
            Ok((bound, fd)) => {
                port = bound;
                Some(fd)
            },
            Err(_) => None,
        };
        let sock4: Option<i32> = match bind4 {
            Ok((bound, fd)) => {
                port = bound;
                Some(fd)
            },
            Err(_) => None,
        };
        if sock4.is_none() {
            if let Err(error) = bind6 {
                return Err(error);
            }
        }
        let owner = LinuxOwner { port, sock4, sock6 };
        let mut readers: Vec<LinuxUDPReader> = Vec::with_capacity(2);
        if let Some(fd) = sock6 {
            readers.push(LinuxUDPReader::V6(fd));
        }
        if let Some(fd) = sock4 {
            readers.push(LinuxUDPReader::V4(fd));
        }
        assert(readers@ =~= readers_of(sock6, sock4));
        let writer = LinuxUDPWriter { sock4: sock4.unwrap_or(-1), sock6: sock6.unwrap_or(-1) };
        Ok((readers, writer, owner))
    }
}

/// The port of a bind is the port that was asked for, unless that was
/// zero; it is the port of each of its sockets; and it is not zero.
///
/// This holds of openings that end as sockets do: one that was bound to a
/// port other than zero reports that port, and none reports the port zero.
pub proof fn lemma_bind_port(port: u16, bind6: Opened, bind4: Opened)
    requires
        bind6.is_ok() || bind4.is_ok(),
        bind6 matches Ok((bound, _)) ==> (bound != 0 && (port != 0 ==> bound == port)),
        bind4 matches Ok((bound, _)) ==> (bound != 0 && (port4(port, bind6) != 0 ==> bound
            == port4(port, bind6))),
    ensures
        port != 0 ==> bound_port(port, bind6, bind4) == port,
        bound_port(port, bind6, bind4) != 0,
        bind6 matches Ok((bound, _)) ==> bound == bound_port(port, bind6, bind4),
        bind4 matches Ok((bound, _)) ==> bound == bound_port(port, bind6, bind4),
{
}

/// A reply goes back the way the datagram came: the endpoint that a read
/// returns makes the writer address the sender, on the socket of the
/// sender's family, with the packet info that the datagram arrived with.
pub proof fn lemma_source_symmetry(
    writer: LinuxUDPWriter,
    endpoint: LinuxEndpoint,
    src: Address,
    info: PacketInfo,
)
    requires
        endpoint.destination() == src,
        endpoint.source() == info,
    ensures
        writer.outgoing(endpoint).dst == src,
        writer.outgoing(endpoint).info == info,
        writer.outgoing(endpoint).fd == match src {
            Address::V4(_) => writer.sock4(),
            Address::V6(_) => writer.sock6(),
        },
{
}

} // verus!
