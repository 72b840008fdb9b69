//! The socket calls that a bind is made of.
//!
//! Nothing here touches a socket. A `Syscall` names a call for the embedding
//! program to make; a `SyscallReturn` is what the call gave back. In
//! between stands `SocketSetup`, which knows the calls that open one bound
//! socket, their order, and what a failure of each of them means.

use vstd::prelude::*;

verus! {

/// An IP family.
#[derive(Clone, Copy, Debug, PartialEq, Eq, Structural)]
pub enum Family {
    V4,
    V6,
}

/// A socket option that the bind sets.
#[derive(Clone, Copy, Debug, PartialEq, Eq, Structural)]
pub enum SocketOption {
    /// The address may be bound again while an old socket lingers.
    ReuseAddress,
    /// Every datagram is received with its packet info.
    PacketInfo,
    /// An IPv6 socket takes no IPv4 traffic.
    V6Only,
    /// The routing mark of what the socket sends.
    Mark,
}

/// A call to make on the platform.
#[derive(Clone, Copy, Debug, PartialEq, Eq, Structural)]
pub enum Syscall {
    /// Create a datagram socket of the family. Returns the descriptor, or a
    /// negative number.
    Socket { family: Family },
    /// Set an option of the socket to the value. Returns zero, or not.
    SetOption { fd: i32, family: Family, option: SocketOption, value: u32 },
    /// Bind the socket to the port on all interfaces. Returns zero, or not.
    Bind { fd: i32, family: Family, port: u16 },
    /// Ask for the name that the socket is bound to. Returns zero, or not,
    /// and reports the port of the name.
    GetName { fd: i32, family: Family },
    /// Close the socket.
    Close { fd: i32 },
}

/// What a call gave back.
#[derive(Clone, Copy, Debug, PartialEq, Eq, Structural)]
pub struct SyscallReturn {
    /// The number that the call returned.
    pub code: i32,
    /// The port that a successful `GetName` reported; of no meaning after
    /// any other call.
    pub port: u16,
}

/// The kind of an error, as the platform's I/O errors have one.
#[derive(Clone, Copy, Debug, PartialEq, Eq, Structural)]
pub enum ErrorKind {
    Other,
    NotConnected,
}

/// Why a bind, a read or a write failed.
#[derive(Clone, Copy, Debug, PartialEq, Eq, Structural)]
pub enum Error {
    /// A socket could not be created, bound or asked for its name.
    CreateSocket,
    /// A socket option could not be set.
    SetOption,
    /// A datagram could not be received: the socket is closed.
    Receive,
    /// A datagram could not be sent.
    Send,
}

impl Error {
    /// The kind of the error.
    pub open spec fn kind_spec(self) -> ErrorKind {
        match self {
            Error::CreateSocket => ErrorKind::Other,
            Error::SetOption => ErrorKind::Other,
            Error::Receive => ErrorKind::NotConnected,
            Error::Send => ErrorKind::NotConnected,
        }
    }

    /// The kind of the error.
    pub fn kind(&self) -> (kind: ErrorKind)
        ensures
            kind == self.kind_spec(),
    {
        match self {
            Error::CreateSocket => ErrorKind::Other,
            Error::SetOption => ErrorKind::Other,
            Error::Receive => ErrorKind::NotConnected,
            Error::Send => ErrorKind::NotConnected,
        }
    }
}

/// The calls that open a socket of `family` bound to `port`, in order,
/// where the first of them returned the descriptor `fd`: the socket is
/// created; addresses may be reused; packet info is asked for; an IPv6
/// socket is kept to IPv6; the socket is bound; its name is read back.
pub open spec fn script(family: Family, port: u16, fd: i32) -> Seq<Syscall> {
    let reuse = Syscall::SetOption { fd, family, option: SocketOption::ReuseAddress, value: 1 };
    let info = Syscall::SetOption { fd, family, option: SocketOption::PacketInfo, value: 1 };
    let only = Syscall::SetOption { fd, family, option: SocketOption::V6Only, value: 1 };
    match family {
        Family::V6 => seq![
            Syscall::Socket { family },
            reuse,
            info,
            only,
            Syscall::Bind { fd, family, port },
            Syscall::GetName { fd, family },
        ],
        Family::V4 => seq![
            Syscall::Socket { family },
            reuse,
            info,
            Syscall::Bind { fd, family, port },
            Syscall::GetName { fd, family },
        ],
    }
}

/// Whether a return of `call` means that it succeeded.
pub open spec fn succeeded(call: Syscall, ret: SyscallReturn) -> bool {
    match call {
        Syscall::Socket { .. } => ret.code >= 0,
        _ => ret.code == 0,
    }
}

/// The error that a failure of `call` means.
pub open spec fn error_of(call: Syscall) -> Error {
    match call {
        Syscall::SetOption { .. } => Error::SetOption,
        _ => Error::CreateSocket,
    }
}

/// Checks the return of a call that sets a socket option.
pub fn option_set(code: i32) -> (result: Result<(), Error>)
    ensures
        result == if code == 0 {
            Ok::<(), Error>(())
        } else {
            Err::<(), Error>(Error::SetOption)
        },
{
    if code == 0 {
        Ok(())
    } else {
        Err(Error::SetOption)
    }
}

/// What an opening ended in: the port and the descriptor of the bound
/// socket, or an error.
pub type Opened = Result<(u16, i32), Error>;

/// The opening of one bound socket, some calls into it.
#[derive(Clone, Copy, Debug, PartialEq, Eq)]
pub struct SocketSetup {
    family: Family,
    port: u16,
    fd: i32,
    done: usize,
}

/// How the opening of a socket goes on after a call.
#[derive(Clone, Copy, Debug, PartialEq, Eq)]
pub enum Progress {
    /// The call succeeded and another is due.
    Next(SocketSetup),
    /// The last call succeeded: the socket `fd` is bound to `port`.
    Bound { port: u16, fd: i32 },
    /// The call failed, and with it the opening.
    Failed(Error),
}

impl SocketSetup {
    #[verifier::type_invariant]
    spec fn well_formed(self) -> bool {
        self.done < script(self.family, self.port, self.fd).len()
    }

    /// The family of the socket.
    pub closed spec fn family(self) -> Family {
        self.family
    }

    /// The port that the socket is to be bound to; zero leaves the choice
    /// to the system.
    pub closed spec fn port(self) -> u16 {
        self.port
    }

    /// The descriptor of the socket, once it is created.
    pub closed spec fn fd(self) -> i32 {
        self.fd
    }

    /// The number of calls that have succeeded.
    pub closed spec fn done(self) -> nat {
        self.done as nat
    }

    /// The call that is due.
    pub open spec fn due(self) -> Syscall {
        script(self.family(), self.port(), self.fd())[self.done() as int]
    }

    /// Whether the call that is due is the last.
    pub open spec fn last(self) -> bool {
        self.done() + 1 == script(self.family(), self.port(), self.fd()).len()
    }

    /// Whether `ret` is a return that the call that is due can have. The
    /// name of a socket that was bound to a port other than zero has that
    /// port.
    pub open spec fn plausible(self, ret: SyscallReturn) -> bool {
        self.last() && succeeded(self.due(), ret) && self.port() != 0 ==> ret.port == self.port()
    }

    /// The opening of a socket before its first call.
    pub closed spec fn start(family: Family, port: u16) -> SocketSetup {
        SocketSetup { family, port, fd: -1i32, done: 0 }
    }

    /// How the opening goes on when the call that is due returns `ret`.
    pub closed spec fn after(self, ret: SyscallReturn) -> Progress {
        if !succeeded(self.due(), ret) {
            Progress::Failed(error_of(self.due()))
        } else if self.last() {
            Progress::Bound { port: ret.port, fd: self.fd }
        } else {
            Progress::Next(
                SocketSetup {
                    family: self.family,
                    port: self.port,
                    fd: if self.done == 0 {
                        ret.code
                    } else {
                        self.fd
                    },
                    done: (self.done + 1) as usize,
                },
            )
        }
    }

    /// What the opening ends in when its calls return `replies[next]`,
    /// `replies[next + 1]` and so on, if these are enough for it to end.
    pub open spec fn ends(self, replies: Seq<SyscallReturn>, next: nat) -> Option<Opened>
        decreases replies.len() - next,
    {
        if next >= replies.len() {
            None
        } else {
            match self.after(replies[next as int]) {
                Progress::Next(setup) => setup.ends(replies, next + 1),
                Progress::Bound { port, fd } => Some(Ok((port, fd))),
                Progress::Failed(error) => Some(Err(error)),
            }
        }
    }

    /// Tells whether `ret` is a return that the call that is due can have.
    pub fn admits(&self, ret: &SyscallReturn) -> (admitted: bool)
        ensures
            admitted == self.plausible(*ret),
    {
        match self.call() {
            Syscall::GetName { .. } => ret.code != 0 || self.port == 0 || ret.port == self.port,
            _ => true,
        }
    }

    /// The opening of a socket of `family` on `port`, before its first
    /// call.
    pub fn new(family: Family, port: u16) -> (setup: Self)
        ensures
            setup == Self::start(family, port),
            setup.family() == family,
            setup.port() == port,
            setup.done() == 0,
    {
        SocketSetup { family, port, fd: -1, done: 0 }
    }

    /// The call that is due.
    pub fn call(&self) -> (call: Syscall)
        ensures
            call == self.due(),
            self.done() < script(self.family(), self.port(), self.fd()).len(),
    {
        proof {
            use_type_invariant(self);
        }
        let family = self.family;
        let fd = self.fd;
        let configured: usize = match family {
            Family::V4 => 3,
            Family::V6 => 4,
        };
        if self.done == 0 {
            Syscall::Socket { family }
        } else if self.done == 1 {
            Syscall::SetOption { fd, family, option: SocketOption::ReuseAddress, value: 1 }
        } else if self.done == 2 {
            Syscall::SetOption { fd, family, option: SocketOption::PacketInfo, value: 1 }
        } else if self.done < configured {
            Syscall::SetOption { fd, family, option: SocketOption::V6Only, value: 1 }
        } else if self.done == configured {
            Syscall::Bind { fd, family, port: self.port }
        } else {
            Syscall::GetName { fd, family }
        }
    }

    /// Takes the return of the call that was due. A failure ends the
    /// opening with the error that belongs to the call. Success leads to
    /// the next call, with the descriptor that the first call returned, or,
    /// after the last, to the bound socket and the port that its name has.
    pub fn advance(self, ret: SyscallReturn) -> (progress: Progress)
        requires
            self.plausible(ret),
        ensures
            progress == self.after(ret),
            match progress {
                Progress::Next(next) => {
                    &&& succeeded(self.due(), ret)
                    &&& !self.last()
                    &&& next.family() == self.family()
                    &&& next.port() == self.port()
                    &&& next.done() == self.done() + 1
                    &&& next.fd() == if self.done() == 0 {
                        ret.code
                    } else {
                        self.fd()
                    }
                },
                Progress::Bound { port, fd } => {
                    &&& succeeded(self.due(), ret)
                    &&& self.last()
                    &&& port == ret.port
                    &&& fd == self.fd()
                    &&& self.port() != 0 ==> port == self.port()
                },
                Progress::Failed(error) => {
                    &&& !succeeded(self.due(), ret)
                    &&& error == error_of(self.due())
                },
            },
    {
        proof {
            use_type_invariant(self);
        }
        let call = self.call();
        let ok: bool = match call {
            Syscall::Socket { .. } => ret.code >= 0,
            _ => ret.code == 0,
        };
        if !ok {
            return match call {
                Syscall::SetOption { .. } => Progress::Failed(Error::SetOption),
                _ => Progress::Failed(Error::CreateSocket),
            };
        }
        match call {
            Syscall::GetName { .. } => Progress::Bound { port: ret.port, fd: self.fd },
            Syscall::Socket { .. } => Progress::Next(
                SocketSetup { family: self.family, port: self.port, fd: ret.code, done: 1 },
            ),
            _ => Progress::Next(
                SocketSetup {
                    family: self.family,
                    port: self.port,
                    fd: self.fd,
                    done: self.done + 1,
                },
            ),
        }
    }
}

/// An opening ends with its first call that fails, in the error of that
/// call, and no further call is made.
pub proof fn lemma_opening_fails(family: Family, port: u16, replies: Seq<SyscallReturn>, failed: int)
    requires
        0 <= failed < replies.len(),
        failed < script(family, port, replies[0].code).len(),
        forall|i: int|
            0 <= i < failed ==> succeeded(
                #[trigger] script(family, port, replies[0].code)[i],
                replies[i],
            ),
        !succeeded(script(family, port, replies[0].code)[failed], replies[failed]),
    ensures
        SocketSetup::start(family, port).ends(replies, 0) == Some(
            Err::<(u16, i32), Error>(error_of(script(family, port, replies[0].code)[failed])),
        ),
{
    let calls = script(family, port, replies[0].code);
    let s0 = SocketSetup::start(family, port);
    reveal_with_fuel(SocketSetup::ends, 7);
    if failed > 0 {
        assert(succeeded(calls[0], replies[0]));
    }
    if failed > 1 {
        assert(succeeded(calls[1], replies[1]));
    }
    if failed > 2 {
        assert(succeeded(calls[2], replies[2]));
    }
    if failed > 3 {
        assert(succeeded(calls[3], replies[3]));
    }
    if failed > 4 {
        assert(succeeded(calls[4], replies[4]));
    }
}

/// An opening whose calls all succeed ends after the last of them, in the
/// descriptor that the first call returned and the port that the last
/// reported.
pub proof fn lemma_opening_succeeds(family: Family, port: u16, replies: Seq<SyscallReturn>)
    requires
        replies.len() >= script(family, port, replies[0].code).len(),
        forall|i: int|
            0 <= i < script(family, port, replies[0].code).len() ==> succeeded(
                #[trigger] script(family, port, replies[0].code)[i],
                replies[i],
            ),
    ensures
        SocketSetup::start(family, port).ends(replies, 0) == Some(
            Ok::<(u16, i32), Error>(
                (
                    replies[script(family, port, replies[0].code).len() - 1].port,
                    replies[0].code,
                ),
            ),
        ),
{
    let calls = script(family, port, replies[0].code);
    reveal_with_fuel(SocketSetup::ends, 7);
    assert(succeeded(calls[0], replies[0]));
    assert(succeeded(calls[1], replies[1]));
    assert(succeeded(calls[2], replies[2]));
    assert(succeeded(calls[3], replies[3]));
    assert(succeeded(calls[4], replies[4]));
    if family == Family::V6 {
        assert(succeeded(calls[5], replies[5]));
    }
}

} // verus!
