use wireguard_core::bind::LinuxUDP;
use wireguard_core::bind::LinuxUDPReader;
use wireguard_core::bind::LinuxUDPWriter;
use wireguard_core::bind::Outgoing;
use wireguard_core::endpoint::Address;
use wireguard_core::endpoint::AddressV4;
use wireguard_core::endpoint::AddressV6;
use wireguard_core::endpoint::InfoV4;
use wireguard_core::endpoint::InfoV6;
use wireguard_core::endpoint::LinuxEndpoint;
use wireguard_core::endpoint::PacketInfo;
use wireguard_core::socket::Error;
use wireguard_core::socket::Opened;
use wireguard_core::socket::Family;
use wireguard_core::socket::Progress;
use wireguard_core::socket::SocketOption;
use wireguard_core::socket::SocketSetup;
use wireguard_core::socket::Syscall;
use wireguard_core::socket::SyscallReturn;

fn open(mut setup: SocketSetup, fd: i32, port: u16) -> Opened {
    loop {
        let ret = match setup.call() {
            Syscall::Socket { .. } => SyscallReturn { code: fd, port: 0 },
            Syscall::Bind { port: asked, .. } => {
                assert!(asked == 0 || asked == port);
                SyscallReturn { code: 0, port: 0 }
            }
            Syscall::GetName { .. } => SyscallReturn { code: 0, port },
            _ => SyscallReturn { code: 0, port: 0 },
        };
        match setup.advance(ret) {
            Progress::Next(next) => setup = next,
            Progress::Bound { port, fd } => return Ok((port, fd)),
            Progress::Failed(error) => return Err(error),
        }
    }
}

fn mark(fd: i32, family: Family, value: u32) -> Syscall {
    Syscall::SetOption { fd, family, option: SocketOption::Mark, value }
}

#[test]
fn bind_on_a_given_port_reports_that_port() {
    let bind6 = open(LinuxUDP::bind6(51820), 3, 51820);
    let bind4 = open(LinuxUDP::bind4(51820, &bind6), 4, 51820);
    let (readers, writer, owner) = LinuxUDP::bind(51820, bind6, bind4).unwrap();
    assert_eq!(owner.get_port(), 51820);
    assert_eq!(readers, vec![LinuxUDPReader::V6(3), LinuxUDPReader::V4(4)]);
    let to4 = LinuxEndpoint::from_address(Address::V4(AddressV4 { ip: 1, port: 2 }));
    let to6 = LinuxEndpoint::from_address(Address::V6(AddressV6 {
        ip: 1,
        port: 2,
        flowinfo: 0,
        scope_id: 0,
    }));
    assert_eq!(writer.write(&to4).fd, 4);
    assert_eq!(writer.write(&to6).fd, 3);
}

#[test]
fn bind_on_port_zero_shares_the_chosen_port() {
    let bind6 = open(LinuxUDP::bind6(0), 3, 40123);
    assert_eq!(bind6, Ok((40123, 3)));
    let setup4 = LinuxUDP::bind4(0, &bind6);
    let mut asked = None;
    let mut setup = setup4;
    loop {
        let call = setup.call();
        if let Syscall::Bind { port, .. } = call {
            asked = Some(port);
        }
        let ret = match call {
            Syscall::Socket { .. } => SyscallReturn { code: 4, port: 0 },
            Syscall::GetName { .. } => SyscallReturn { code: 0, port: 40123 },
            _ => SyscallReturn { code: 0, port: 0 },
        };
        match setup.advance(ret) {
            Progress::Next(next) => setup = next,
            end => {
                assert_eq!(end, Progress::Bound { port: 40123, fd: 4 });
                break;
            }
        }
    }
    assert_eq!(asked, Some(40123));
    let (readers, _, owner) = LinuxUDP::bind(0, bind6, Ok((40123, 4))).unwrap();
    assert_eq!(readers.len(), 2);
    assert_ne!(owner.get_port(), 0);
    assert_eq!(owner.get_port(), 40123);
}

#[test]
fn bind_with_one_family_is_a_bind() {
    let (readers, writer, owner) = LinuxUDP::bind(7, Ok((7, 10)), Err(Error::CreateSocket)).unwrap();
    assert_eq!(readers, vec![LinuxUDPReader::V6(10)]);
    assert_eq!(owner.get_port(), 7);
    let to4 = LinuxEndpoint::from_address(Address::V4(AddressV4 { ip: 1, port: 2 }));
    assert_eq!(writer.write(&to4).fd, -1);

    let bind6: Opened = Err(Error::SetOption);
    let setup4 = LinuxUDP::bind4(0, &bind6);
    let bind4 = open(setup4, 11, 5555);
    let (readers, writer, owner) = LinuxUDP::bind(0, bind6, bind4).unwrap();
    assert_eq!(readers, vec![LinuxUDPReader::V4(11)]);
    assert_eq!(owner.get_port(), 5555);
    let to6 = LinuxEndpoint::from_address(Address::V6(AddressV6 {
        ip: 1,
        port: 2,
        flowinfo: 0,
        scope_id: 0,
    }));
    assert_eq!(writer.write(&to6).fd, -1);
    assert_eq!(writer.write(&LinuxEndpoint::from_address(Address::V4(AddressV4 { ip: 1, port: 2 }))).fd, 11);
}

#[test]
fn bind_without_a_socket_fails_with_the_error_of_v6() {
    let result = LinuxUDP::bind(7, Err(Error::SetOption), Err(Error::CreateSocket));
    assert_eq!(result.err(), Some(Error::SetOption));
    let result = LinuxUDP::bind(7, Err(Error::CreateSocket), Err(Error::SetOption));
    assert_eq!(result.err(), Some(Error::CreateSocket));
}

#[test]
fn bind4_keeps_the_port_when_v6_failed() {
    let setup = LinuxUDP::bind4(4242, &Err(Error::CreateSocket));
    assert_eq!(setup, SocketSetup::new(Family::V4, 4242));
    assert_eq!(LinuxUDP::bind6(4242), SocketSetup::new(Family::V6, 4242));
    assert_eq!(LinuxUDP::bind4(0, &Ok((999, 1))), SocketSetup::new(Family::V4, 999));
}

#[test]
fn fwmark_is_set_on_every_socket() {
    let (_, _, mut owner) = LinuxUDP::bind(7, Ok((7, 10)), Ok((7, 11))).unwrap();
    assert_eq!(
        owner.set_fwmark(Some(0xca6c)),
        vec![mark(10, Family::V6, 0xca6c), mark(11, Family::V4, 0xca6c)]
    );
    assert_eq!(owner.set_fwmark(None), vec![mark(10, Family::V6, 0), mark(11, Family::V4, 0)]);
    assert_eq!(owner.get_port(), 7);
    let (_, _, mut owner) = LinuxUDP::bind(7, Err(Error::CreateSocket), Ok((7, 11))).unwrap();
    assert_eq!(owner.set_fwmark(Some(1)), vec![mark(11, Family::V4, 1)]);
    let (_, _, mut owner) = LinuxUDP::bind(7, Ok((7, 10)), Err(Error::CreateSocket)).unwrap();
    assert_eq!(owner.set_fwmark(Some(u32::MAX)), vec![mark(10, Family::V6, u32::MAX)]);
}

#[test]
fn close_closes_every_socket_once() {
    let (_, _, owner) = LinuxUDP::bind(7, Ok((7, 10)), Ok((7, 11))).unwrap();
    assert_eq!(owner.close(), vec![Syscall::Close { fd: 11 }, Syscall::Close { fd: 10 }]);
    let (_, _, owner) = LinuxUDP::bind(7, Ok((7, 10)), Err(Error::CreateSocket)).unwrap();
    assert_eq!(owner.close(), vec![Syscall::Close { fd: 10 }]);
    let (_, _, owner) = LinuxUDP::bind(7, Err(Error::CreateSocket), Ok((7, 11))).unwrap();
    assert_eq!(owner.close(), vec![Syscall::Close { fd: 11 }]);
}

#[test]
fn readers_know_their_socket() {
    assert_eq!(LinuxUDPReader::V4(5).fd(), 5);
    assert_eq!(LinuxUDPReader::V6(6).fd(), 6);
    assert_eq!(LinuxUDPReader::V4(5).family(), Family::V4);
    assert_eq!(LinuxUDPReader::V6(6).family(), Family::V6);
}

#[test]
fn read_returns_the_length_and_the_way_back() {
    let src = AddressV4 { ip: 0x0a00_0002, port: 40000 };
    let info = InfoV4 { ifindex: 2, spec_dst: 0x0a00_0001, addr: 0x0a00_0001 };
    let (size, endpoint) = LinuxUDPReader::read4(148, src, info).unwrap();
    assert_eq!(size, 148);
    assert_eq!(endpoint.into_address(), Address::V4(src));
    assert_eq!(endpoint.source_hint(), PacketInfo::V4(info));

    let src = AddressV6 { ip: 0xfe80 << 112 | 2, port: 40000, flowinfo: 0, scope_id: 3 };
    let info = InfoV6 { addr: 0xfe80 << 112 | 1, ifindex: 3 };
    let (size, endpoint) = LinuxUDPReader::read6(0, src, info).unwrap();
    assert_eq!(size, 0);
    assert_eq!(endpoint.into_address(), Address::V6(src));
    assert_eq!(endpoint.source_hint(), PacketInfo::V6(info));
}

#[test]
fn read_fails_on_a_negative_length() {
    let src = AddressV4 { ip: 0, port: 0 };
    let info = InfoV4 { ifindex: 0, spec_dst: 0, addr: 0 };
    assert_eq!(LinuxUDPReader::read4(-1, src, info), Err(Error::Receive));
    assert_eq!(LinuxUDPReader::read4(isize::MIN, src, info), Err(Error::Receive));
    let src = AddressV6 { ip: 0, port: 0, flowinfo: 0, scope_id: 0 };
    let info = InfoV6 { addr: 0, ifindex: 0 };
    assert_eq!(LinuxUDPReader::read6(-1, src, info), Err(Error::Receive));
}

#[test]
fn reply_leaves_from_where_the_datagram_arrived() {
    let (_, writer, _) = LinuxUDP::bind(7, Ok((7, 10)), Ok((7, 11))).unwrap();
    let src = AddressV4 { ip: 0xc0a8_0105, port: 33333 };
    let info = InfoV4 { ifindex: 4, spec_dst: 0xc0a8_0164, addr: 0xc0a8_0164 };
    let (_, endpoint) = LinuxUDPReader::read4(32, src, info).unwrap();
    assert_eq!(
        writer.write(&endpoint),
        Outgoing { fd: 11, dst: Address::V4(src), info: PacketInfo::V4(info) }
    );
    let src = AddressV6 { ip: 77, port: 33333, flowinfo: 1, scope_id: 2 };
    let info = InfoV6 { addr: 78, ifindex: 2 };
    let (_, endpoint) = LinuxUDPReader::read6(32, src, info).unwrap();
    assert_eq!(
        writer.write(&endpoint),
        Outgoing { fd: 10, dst: Address::V6(src), info: PacketInfo::V6(info) }
    );
}

#[test]
fn cleared_endpoint_leaves_the_way_to_the_routing_table() {
    let (_, writer, _) = LinuxUDP::bind(7, Ok((7, 10)), Ok((7, 11))).unwrap();
    let src = AddressV4 { ip: 0xc0a8_0105, port: 33333 };
    let info = InfoV4 { ifindex: 4, spec_dst: 0xc0a8_0164, addr: 0xc0a8_0164 };
    let (_, mut endpoint) = LinuxUDPReader::read4(32, src, info).unwrap();
    endpoint.clear_src();
    assert_eq!(
        writer.write(&endpoint),
        Outgoing {
            fd: 11,
            dst: Address::V4(src),
            info: PacketInfo::V4(InfoV4 { ifindex: 0, spec_dst: 0, addr: 0xc0a8_0164 }),
        }
    );
}

#[test]
fn sent_checks_for_a_negative_return() {
    assert_eq!(LinuxUDPWriter::sent(0), Ok(()));
    assert_eq!(LinuxUDPWriter::sent(148), Ok(()));
    assert_eq!(LinuxUDPWriter::sent(-1), Err(Error::Send));
}

#[test]
fn reader_reads_datagrams_of_its_family() {
    let src4 = Address::V4(AddressV4 { ip: 0x0a00_0002, port: 40000 });
    let info4 = PacketInfo::V4(InfoV4 { ifindex: 2, spec_dst: 0x0a00_0001, addr: 0x0a00_0001 });
    let src6 = Address::V6(AddressV6 { ip: 5, port: 40000, flowinfo: 0, scope_id: 1 });
    let info6 = PacketInfo::V6(InfoV6 { addr: 6, ifindex: 1 });

    let (size, endpoint) = LinuxUDPReader::V4(8).read(60, src4, info4).unwrap();
    assert_eq!(size, 60);
    assert_eq!(endpoint.into_address(), src4);
    assert_eq!(endpoint.source_hint(), info4);
    let (size, endpoint) = LinuxUDPReader::V6(9).read(61, src6, info6).unwrap();
    assert_eq!(size, 61);
    assert_eq!(endpoint.into_address(), src6);
    assert_eq!(endpoint.source_hint(), info6);

    assert_eq!(LinuxUDPReader::V4(8).read(-1, src4, info4), Err(Error::Receive));
    assert_eq!(LinuxUDPReader::V6(9).read(-1, src6, info6), Err(Error::Receive));
    assert_eq!(LinuxUDPReader::V4(8).read(60, src6, info6), Err(Error::Receive));
    assert_eq!(LinuxUDPReader::V4(8).read(60, src4, info6), Err(Error::Receive));
    assert_eq!(LinuxUDPReader::V6(9).read(60, src4, info4), Err(Error::Receive));
    assert_eq!(LinuxUDPReader::V6(9).read(60, src6, info4), Err(Error::Receive));
}
