use aros_pal::error::{Error, ErrorKind};
use aros_pal::net::addr::{
    addr_to_raw, parse_ipv4, raw_to_v4, v4_to_raw, Ipv4Addr, Ipv6Addr, RawAddr, SocketAddr,
    SocketAddrV4, SocketAddrV6,
};
use aros_pal::net::call::{NetCall, NetReply, OptKind, OptValue};
use aros_pal::net::lookup::lookup_host;
use aros_pal::net::socket::{set_timeout, Shutdown, Socket};
use aros_pal::net::tcp::{TcpListener, TcpStream};
use aros_pal::net::udp::UdpSocket;
use aros_pal::op::{Operation, Step};
use aros_pal::text::CString;
use aros_pal::time::Duration;

fn drive<O: Operation>(step: Step<O, O::Output>, replies: Vec<O::Reply>) -> (Vec<O::Call>, Option<O::Output>) {
    let mut calls = Vec::new();
    let mut step = step;
    let mut replies = replies.into_iter();
    loop {
        match step {
            Step::Done(out) => return (calls, Some(out)),
            Step::Ask(op) => {
                let reply = match replies.next() {
                    Some(reply) => reply,
                    None => return (calls, None),
                };
                calls.push(op.call());
                step = op.resume(reply);
            }
        }
    }
}

fn n(ret: i64, errno: i32) -> NetReply {
    NetReply::number(ret, errno)
}

fn v4(a: u8, port: u16) -> SocketAddr {
    SocketAddr::V4(SocketAddrV4 { ip: Ipv4Addr::new(10, 0, 0, a), port })
}

fn v6() -> SocketAddr {
    SocketAddr::V6(SocketAddrV6 { ip: Ipv6Addr { high: 0, low: 1 }, port: 80 })
}

fn raw(a: u8, port: u16) -> RawAddr {
    match addr_to_raw(&v4(a, port)) {
        Ok(raw) => raw,
        Err(_) => panic!("IPv4"),
    }
}

fn option(value: OptValue) -> NetReply {
    let mut r = n(0, 0);
    r.value = value;
    r
}

#[test]
fn addresses_are_kept_in_network_order() {
    let a = SocketAddrV4 { ip: Ipv4Addr::new(192, 168, 1, 2), port: 0x1234 };
    let raw = v4_to_raw(&a);
    assert_eq!((raw.high, raw.low), (0x12, 0x34));
    assert_eq!(raw.ip, a.ip);
    assert_eq!(raw_to_v4(raw), a);
    assert_eq!(addr_to_raw(&v6()).err().map(|e| e.kind()), Some(ErrorKind::Unsupported));
}

#[test]
fn addresses_are_read_in_one_way_only() {
    assert_eq!(parse_ipv4("127.0.0.1"), Some(Ipv4Addr::new(127, 0, 0, 1)));
    assert_eq!(parse_ipv4("255.255.255.255"), Some(Ipv4Addr::new(255, 255, 255, 255)));
    assert_eq!(parse_ipv4("0.0.0.0"), Some(Ipv4Addr::new(0, 0, 0, 0)));
    assert_eq!(parse_ipv4("10.20.30.99"), Some(Ipv4Addr::new(10, 20, 30, 99)));
    for bad in [
        "", "1", "1.2.3", "1.2.3.4.5", "1.2.3.", ".1.2.3", "1..2.3", "256.0.0.1", "01.2.3.4",
        "1.2.3.00", "1.2.3.4 ", " 1.2.3.4", "1.2.3.a", "+1.2.3.4", "1.2.3.1000", "localhost",
    ] {
        assert_eq!(parse_ipv4(bad), None, "{}", bad);
    }
}

#[test]
fn a_stream_is_connected() {
    let (calls, out) =
        drive(TcpStream::connect(&vec![v4(1, 80)]), vec![n(0, 0), n(7, 0), n(0, 0)]);
    assert_eq!(
        calls,
        vec![
            NetCall::Open,
            NetCall::Socket { domain: 2, ty: 1, proto: 0 },
            NetCall::Connect { fd: 7, to: raw(1, 80) },
        ]
    );
    assert_eq!(out.expect("over").expect("connected").as_raw_fd(), 7);
}

#[test]
fn a_socket_that_cannot_be_connected_is_closed_before_the_next_address() {
    let (calls, out) = drive(
        TcpStream::connect(&vec![v4(1, 80), v6(), v4(2, 80)]),
        vec![n(0, 0), n(7, 0), n(-1, 61), n(0, 0), n(0, 0), n(8, 0), n(0, 0)],
    );
    assert_eq!(calls[3], NetCall::Close { fd: 7 });
    assert_eq!(calls[4], NetCall::Open);
    assert_eq!(calls[6], NetCall::Connect { fd: 8, to: raw(2, 80) });
    assert_eq!(out.expect("over").expect("connected").into_raw_fd(), 8);
}

#[test]
fn the_last_error_is_returned() {
    let (calls, out) = drive(
        TcpStream::connect(&vec![v4(1, 80), v4(2, 80)]),
        vec![n(0, 0), n(7, 0), n(-1, 61), n(0, 0), n(0, 0), n(-1, 24)],
    );
    assert_eq!(calls.len(), 6);
    assert_eq!(out.expect("over").err(), Some(Error::Os(24)));
    let (calls, out) = drive(TcpStream::connect(&vec![v6()]), vec![]);
    assert!(calls.is_empty());
    assert_eq!(out.expect("over").err().map(|e| e.kind()), Some(ErrorKind::Unsupported));
    let (_, out) = drive(TcpStream::connect(&vec![]), vec![]);
    assert_eq!(
        out.expect("over").err(),
        Some(Error::Message(ErrorKind::InvalidInput, "could not resolve to any addresses"))
    );
    let (_, out) = drive(TcpStream::connect(&vec![v4(1, 80)]), vec![n(-1, 0)]);
    assert_eq!(
        out.expect("over").err(),
        Some(Error::Message(ErrorKind::Uncategorized, "cannot open bsdsocket.library"))
    );
}

#[test]
fn a_timeout_of_a_connection_is_not_kept() {
    let (calls, out) = drive(
        TcpStream::connect_timeout(&v4(1, 80), Duration::from_secs(1)),
        vec![n(0, 0), n(7, 0), n(0, 0)],
    );
    assert_eq!(calls.len(), 3);
    assert!(out.expect("over").is_ok());
}

#[test]
fn a_listener_is_bound_and_listened_on() {
    let (calls, out) = drive(
        TcpListener::bind(&vec![v4(0, 8080)]),
        vec![n(0, 0), n(7, 0), n(-1, 1), n(0, 0), n(0, 0)],
    );
    assert_eq!(
        calls,
        vec![
            NetCall::Open,
            NetCall::Socket { domain: 2, ty: 1, proto: 0 },
            NetCall::SetSockOpt { fd: 7, level: 0xffff, name: 4, value: OptValue::Int(1) },
            NetCall::Bind { fd: 7, to: raw(0, 8080) },
            NetCall::Listen { fd: 7, backlog: 128 },
        ]
    );
    assert_eq!(out.expect("over").expect("bound").as_raw_fd(), 7);
    let (calls, out) = drive(
        TcpListener::bind(&vec![v4(0, 8080)]),
        vec![n(0, 0), n(7, 0), n(0, 0), n(0, 0), n(-1, 48), n(0, 0)],
    );
    assert_eq!(calls[5], NetCall::Close { fd: 7 });
    assert_eq!(out.expect("over").err(), Some(Error::Os(48)));
}

#[test]
fn connections_are_accepted() {
    let l = TcpListener::from_descriptor(7);
    assert_eq!(l.accept().call, NetCall::Accept { fd: 7 });
    let mut reply = n(9, 0);
    reply.from = raw(3, 4000);
    let (stream, from) = l.accept().finish(reply).expect("accepted");
    assert_eq!((stream.as_raw_fd(), from), (9, v4(3, 4000)));
    assert_eq!(l.accept().finish(n(-1, 35)).err(), Some(Error::Os(35)));
    assert_eq!(l.socket_addr().call, NetCall::GetSockName { fd: 7 });
    assert_eq!(l.only_v6(), Ok(false));
    assert_eq!(l.set_only_v6(true).err().map(|e| e.kind()), Some(ErrorKind::Unsupported));
    assert_eq!(l.duplicate().call, NetCall::Dup { fd: 7 });
    assert_eq!(l.duplicate().finish(n(12, 0)).expect("ok").into_raw_fd(), 12);
    assert_eq!(l.set_nonblocking(true).call, NetCall::SetNonblock { fd: 7, nonblock: 1 });
    assert_eq!(l.close(), NetCall::Close { fd: 7 });
}

#[test]
fn streams_send_and_receive() {
    let s = TcpStream::from_descriptor(7);
    assert_eq!(s.read(10).call, NetCall::Recv { fd: 7, len: 10, flags: 0 });
    assert_eq!(s.peek(10).call, NetCall::Recv { fd: 7, len: 10, flags: 2 });
    assert_eq!(s.read_buf(64).call, NetCall::Recv { fd: 7, len: 64, flags: 0 });
    assert_eq!(s.write(b"hi").call, NetCall::Send { fd: 7, data: b"hi".to_vec(), flags: 0 });
    assert_eq!(s.read(10).finish(n(4, 0)), Ok(4));
    assert_eq!(s.read(10).finish(n(-1, 54)), Err(Error::Os(54)));
    match s.read_vectored(&[0, 5]) {
        Step::Ask(into) => assert_eq!(into.index, 1),
        Step::Done(_) => panic!("nothing read"),
    }
    match s.write_vectored(&[vec![], vec![1]]) {
        Step::Ask(r) => assert_eq!(r.call, NetCall::Send { fd: 7, data: vec![1], flags: 0 }),
        Step::Done(_) => panic!("nothing written"),
    }
    match s.read_vectored(&[]) {
        Step::Done(r) => assert_eq!(r, Ok(0)),
        Step::Ask(_) => panic!("read"),
    }
    assert!(!s.is_read_vectored() && !s.is_write_vectored());
    let mut told = n(0, 0);
    told.from = raw(9, 90);
    assert_eq!(s.peer_addr().call, NetCall::GetPeerName { fd: 7 });
    assert_eq!(s.peer_addr().finish(told), Ok(v4(9, 90)));
    assert_eq!(s.socket_addr().finish(n(-1, 57)), Err(Error::Os(57)));
}

#[test]
fn streams_are_shut_down_by_halves() {
    let s = TcpStream::from_descriptor(7);
    assert_eq!(s.shutdown(Shutdown::Read).call, NetCall::Shutdown { fd: 7, how: 0 });
    assert_eq!(s.shutdown(Shutdown::Write).call, NetCall::Shutdown { fd: 7, how: 1 });
    assert_eq!(s.shutdown(Shutdown::Both).call, NetCall::Shutdown { fd: 7, how: 2 });
    assert_eq!(s.shutdown(Shutdown::Both).finish(n(-1, 57)), Err(Error::Os(57)));
}

#[test]
fn options_of_streams_are_set_and_read() {
    let s = TcpStream::from_descriptor(7);
    assert_eq!(
        s.set_linger(Some(Duration::new(5, 999_999_999))).call,
        NetCall::SetSockOpt {
            fd: 7,
            level: 0xffff,
            name: 0x80,
            value: OptValue::Linger { onoff: 1, linger: 5 },
        }
    );
    assert_eq!(
        s.set_linger(None).call,
        NetCall::SetSockOpt {
            fd: 7,
            level: 0xffff,
            name: 0x80,
            value: OptValue::Linger { onoff: 0, linger: 0 },
        }
    );
    assert_eq!(
        s.linger().call,
        NetCall::GetSockOpt { fd: 7, level: 0xffff, name: 0x80, kind: OptKind::Linger }
    );
    assert_eq!(
        s.linger().finish(option(OptValue::Linger { onoff: 1, linger: 5 })),
        Ok(Some(Duration::from_secs(5)))
    );
    assert_eq!(s.linger().finish(option(OptValue::Linger { onoff: 0, linger: 5 })), Ok(None));
    assert_eq!(
        s.set_keepalive(true).call,
        NetCall::SetSockOpt { fd: 7, level: 0xffff, name: 8, value: OptValue::Int(1) }
    );
    assert_eq!(
        s.set_nodelay(false).call,
        NetCall::SetSockOpt { fd: 7, level: 6, name: 1, value: OptValue::Int(0) }
    );
    assert_eq!(s.keepalive().finish(option(OptValue::Int(4))), Ok(true));
    assert_eq!(s.nodelay().finish(option(OptValue::Int(0))), Ok(false));
    assert_eq!(
        s.set_ttl(64).call,
        NetCall::SetSockOpt { fd: 7, level: 0, name: 4, value: OptValue::Int(64) }
    );
    assert_eq!(s.ttl().finish(option(OptValue::Int(64))), Ok(64));
    assert_eq!(s.ttl().finish(n(-1, 22)), Err(Error::Os(22)));
    assert_eq!(s.take_error().finish(option(OptValue::Int(0))), Ok(None));
    assert_eq!(s.take_error().finish(option(OptValue::Int(61))), Ok(Some(Error::Os(61))));
}

#[test]
fn timeouts_are_refused_and_their_lack_is_not() {
    let s = TcpStream::from_descriptor(7);
    assert_eq!(s.set_read_timeout(None), Ok(()));
    assert_eq!(s.set_write_timeout(None), Ok(()));
    let wish = Some(Duration::from_secs(1));
    assert_eq!(s.set_read_timeout(wish).err().map(|e| e.kind()), Some(ErrorKind::Unsupported));
    assert_eq!(set_timeout(wish).err().map(|e| e.kind()), Some(ErrorKind::Unsupported));
    assert_eq!(s.read_timeout(), Ok(None));
    assert_eq!(s.write_timeout(), Ok(None));
}

#[test]
fn messages_go_to_and_come_from_addresses() {
    let (calls, out) = drive(UdpSocket::bind(&vec![v4(0, 53)]), vec![n(0, 0), n(7, 0), n(0, 0)]);
    assert_eq!(calls[1], NetCall::Socket { domain: 2, ty: 2, proto: 0 });
    assert_eq!(calls[2], NetCall::Bind { fd: 7, to: raw(0, 53) });
    let s = out.expect("over").expect("bound");
    assert_eq!(
        s.send_to(b"q", &v4(1, 53)).expect("IPv4").call,
        NetCall::SendTo { fd: 7, data: b"q".to_vec(), flags: 0, to: raw(1, 53) }
    );
    assert_eq!(s.send_to(b"q", &v6()).err().map(|e| e.kind()), Some(ErrorKind::Unsupported));
    assert_eq!(s.recv_from(9).call, NetCall::RecvFrom { fd: 7, len: 9, flags: 0 });
    assert_eq!(s.peek_from(9).call, NetCall::RecvFrom { fd: 7, len: 9, flags: 2 });
    let mut reply = n(3, 0);
    reply.from = raw(1, 53);
    assert_eq!(s.recv_from(9).finish(reply), Ok((3, v4(1, 53))));
    assert_eq!(s.recv(4).call, NetCall::Recv { fd: 7, len: 4, flags: 0 });
    assert_eq!(s.peek(4).call, NetCall::Recv { fd: 7, len: 4, flags: 2 });
    assert_eq!(s.send(b"x").call, NetCall::Send { fd: 7, data: b"x".to_vec(), flags: 0 });
}

#[test]
fn a_socket_for_messages_is_connected_where_it_can_be() {
    let s = UdpSocket::from_descriptor(7);
    let (calls, out) =
        drive(s.connect(&vec![v4(1, 53), v6(), v4(2, 53)]), vec![n(-1, 51), n(0, 0)]);
    assert_eq!(
        calls,
        vec![
            NetCall::Connect { fd: 7, to: raw(1, 53) },
            NetCall::Connect { fd: 7, to: raw(2, 53) },
        ]
    );
    assert_eq!(out, Some(Ok(())));
    let (_, out) = drive(s.connect(&vec![v4(1, 53), v6()]), vec![n(-1, 51)]);
    assert_eq!(out.expect("over").err().map(|e| e.kind()), Some(ErrorKind::Unsupported));
    let (_, out) = drive(s.connect(&vec![v4(1, 53)]), vec![n(-1, 51)]);
    assert_eq!(out, Some(Err(Error::Os(51))));
}

#[test]
fn options_for_messages_are_set_and_read() {
    let s = UdpSocket::from_descriptor(7);
    let group = Ipv4Addr::new(224, 0, 0, 1);
    let here = Ipv4Addr::new(10, 0, 0, 1);
    assert_eq!(
        s.join_multicast_v4(&group, &here).call,
        NetCall::SetSockOpt {
            fd: 7,
            level: 0,
            name: 12,
            value: OptValue::Group { multiaddr: group, interface: here },
        }
    );
    assert_eq!(
        s.leave_multicast_v4(&group, &here).call,
        NetCall::SetSockOpt {
            fd: 7,
            level: 0,
            name: 13,
            value: OptValue::Group { multiaddr: group, interface: here },
        }
    );
    assert_eq!(
        s.set_multicast_ttl_v4(300).call,
        NetCall::SetSockOpt { fd: 7, level: 0, name: 10, value: OptValue::Byte(44) }
    );
    assert_eq!(
        s.set_multicast_loop_v4(true).call,
        NetCall::SetSockOpt { fd: 7, level: 0, name: 11, value: OptValue::Byte(1) }
    );
    assert_eq!(s.multicast_loop_v4().finish(option(OptValue::Byte(1))), Ok(true));
    assert_eq!(s.multicast_ttl_v4().finish(option(OptValue::Byte(200))), Ok(200));
    assert_eq!(
        s.set_broadcast(true).call,
        NetCall::SetSockOpt { fd: 7, level: 0xffff, name: 0x20, value: OptValue::Int(1) }
    );
    assert_eq!(s.broadcast().finish(option(OptValue::Int(1))), Ok(true));
    let v6 = Ipv6Addr { high: 0, low: 1 };
    assert!(s.join_multicast_v6(&v6, 0).is_err() && s.leave_multicast_v6(&v6, 0).is_err());
    assert!(s.set_multicast_loop_v6(true).is_err() && s.multicast_loop_v6().is_err());
    assert_eq!(Socket::from_raw(3).close(), NetCall::Close { fd: 3 });
}

#[test]
fn a_written_address_is_not_looked_up() {
    let op = lookup_host("192.168.0.7", 80);
    assert_eq!(op.call(), NetCall::Open);
    match op.resume(n(0, 0)) {
        Step::Done(Ok(mut l)) => {
            let expected = SocketAddrV4 { ip: Ipv4Addr::new(192, 168, 0, 7), port: 80 };
            assert_eq!(l.next(), Some(SocketAddr::V4(expected)));
            assert_eq!(l.next(), None);
            assert_eq!(l.next(), None);
        }
        _ => panic!("looked up"),
    }
}

#[test]
fn a_name_is_looked_up() {
    let mut found = n(2, 0);
    found.addrs = vec![Ipv4Addr::new(10, 0, 0, 1), Ipv4Addr::new(10, 0, 0, 2), Ipv4Addr::new(0, 0, 0, 0)];
    let (calls, out) = drive(Step::Ask(lookup_host("aros.org", 80)), vec![n(0, 0), found]);
    assert_eq!(
        calls[1],
        NetCall::Resolve { host: CString::new(b"aros.org".to_vec()).expect("no NUL"), max: 8 }
    );
    let mut l = out.expect("over").expect("found");
    assert_eq!(l.next(), Some(v4(1, 80)));
    assert_eq!(l.next(), Some(v4(2, 80)));
    assert_eq!(l.next(), None);
}

#[test]
fn a_name_that_cannot_be_looked_up_is_an_error() {
    let (_, out) = drive(Step::Ask(lookup_host("x", 1)), vec![n(0, 0), n(-1, 0)]);
    assert_eq!(
        out.expect("over").err(),
        Some(Error::Message(ErrorKind::Uncategorized, "host lookup failed"))
    );
    let (_, out) = drive(Step::Ask(lookup_host("x\0", 1)), vec![n(0, 0)]);
    assert_eq!(
        out.expect("over").err(),
        Some(Error::Message(
            ErrorKind::InvalidInput,
            "file name contained an unexpected NUL byte"
        ))
    );
    let (_, out) = drive(Step::Ask(lookup_host("1.2.3.4", 1)), vec![n(1, 0)]);
    assert_eq!(
        out.expect("over").err(),
        Some(Error::Message(ErrorKind::Uncategorized, "cannot open bsdsocket.library"))
    );
}
