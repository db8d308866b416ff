//! Single messages.
use vstd::prelude::*;

use crate::error::{Error, ErrorKind};
use crate::net::addr::{
    addr_to_raw, raw_of, unsupported_v6, v6_unsupported, Ipv4Addr, Ipv6Addr, RawAddr, SocketAddr,
};
use crate::net::call::{
    Amount, ByteAmount, ByteSwitch, NetCall, NetReply, OptKind, OptValue, Pending, Switch, Told,
    Transferred, TransferredFrom, Worked, IPPROTO_IP, IP_ADD_MEMBERSHIP, IP_DROP_MEMBERSHIP,
    IP_MULTICAST_LOOP, IP_MULTICAST_TTL, IP_TTL, MSG_PEEK, SOL_SOCKET, SO_BROADCAST, SO_ERROR,
};
use crate::net::open::{addrs_from, no_addresses, open_first, tries, Open};
use crate::net::socket::{set_timeout, switch, timeout_set, Endpoint, Made, Role, Socket};
use crate::op::{Operation, Request, Step};
use crate::text::copy_of;
use crate::time::Duration;

verus! {

/// A socket for single messages. Its view is the descriptor, which it owns:
/// [`UdpSocket::close`] has to be asked for when it is given up.
#[derive(PartialEq, Eq, Debug)]
pub struct UdpSocket(Socket);

impl View for UdpSocket {
    type V = i32;

    closed spec fn view(&self) -> i32 {
        self.0@
    }
}

impl Endpoint for UdpSocket {
    open spec fn role() -> Role {
        Role::Messages
    }

    open spec fn descriptor(self) -> i32 {
        self@
    }

    fn what() -> (role: Role) {
        Role::Messages
    }

    fn from_socket(socket: Socket) -> (t: UdpSocket) {
        UdpSocket(socket)
    }
}

impl UdpSocket {
    /// Takes the first of some addresses that can be had.
    pub fn bind(addrs: &Vec<SocketAddr>) -> (step: Step<Open<UdpSocket>, Result<UdpSocket, Error>>)
        ensures
            tries(step, addrs@, None),
    {
        open_first(addrs)
    }

    /// Asks for the address of the other end.
    pub fn peer_addr(&self) -> (r: Request<NetCall, Told>)
        ensures
            r.call == (NetCall::GetPeerName { fd: self@ }),
    {
        self.0.peer_addr()
    }

    /// Asks for the address of this end.
    pub fn socket_addr(&self) -> (r: Request<NetCall, Told>)
        ensures
            r.call == (NetCall::GetSockName { fd: self@ }),
    {
        self.0.local_addr()
    }

    /// Receives a message into a buffer of that length, and asks whom it is from.
    pub fn recv_from(&self, len: usize) -> (r: Request<NetCall, TransferredFrom>)
        ensures
            r.call == (NetCall::RecvFrom { fd: self@, len, flags: 0 }),
    {
        self.recvfrom_flags(len, 0)
    }

    /// Receives a message into a buffer of that length, asks whom it is from, and leaves it
    /// where it is.
    pub fn peek_from(&self, len: usize) -> (r: Request<NetCall, TransferredFrom>)
        ensures
            r.call == (NetCall::RecvFrom { fd: self@, len, flags: MSG_PEEK }),
    {
        self.recvfrom_flags(len, MSG_PEEK)
    }

    /// Receives a message and asks whom it is from.
    pub fn recvfrom_flags(&self, len: usize, flags: i32) -> (r: Request<NetCall, TransferredFrom>)
        ensures
            r.call == (NetCall::RecvFrom { fd: self@, len, flags }),
    {
        Request {
            call: NetCall::RecvFrom { fd: self.0.fd(), len, flags },
            reading: TransferredFrom,
        }
    }

    /// Sends a message to an address.
    pub fn send_to(&self, buf: &[u8], dst: &SocketAddr) -> (r: Result<
        Request<NetCall, Transferred>,
        Error,
    >)
        ensures
            match r {
                Ok(request) => *dst matches SocketAddr::V4(a) && (
                request.call matches NetCall::SendTo { fd, data, flags, to } && fd == self@ && data@
                    == buf@ && flags == 0 && to == raw_of(a)),
                Err(e) => *dst is V6 && e == v6_unsupported(),
            },
    {
        match addr_to_raw(dst) {
            Ok(to) => Ok(
                Request {
                    call: NetCall::SendTo { fd: self.0.fd(), data: copy_of(buf), flags: 0, to },
                    reading: Transferred,
                },
            ),
            Err(e) => Err(e),
        }
    }

    /// Sets no timeout; a wish for one is refused.
    pub fn set_read_timeout(&self, dur: Option<Duration>) -> (r: Result<(), Error>)
        ensures
            r == timeout_set(dur),
    {
        set_timeout(dur)
    }

    /// Sets no timeout; a wish for one is refused.
    pub fn set_write_timeout(&self, dur: Option<Duration>) -> (r: Result<(), Error>)
        ensures
            r == timeout_set(dur),
    {
        set_timeout(dur)
    }

    /// There is no timeout.
    pub fn read_timeout(&self) -> (r: Result<Option<Duration>, Error>)
        ensures
            r == Ok::<Option<Duration>, Error>(None),
    {
        Ok(None)
    }

    /// There is no timeout.
    pub fn write_timeout(&self) -> (r: Result<Option<Duration>, Error>)
        ensures
            r == Ok::<Option<Duration>, Error>(None),
    {
        Ok(None)
    }

    /// Chooses whether broadcasts may be sent.
    pub fn set_broadcast(&self, broadcast: bool) -> (r: Request<NetCall, Worked>)
        ensures
            r.call == (NetCall::SetSockOpt {
                fd: self@,
                level: SOL_SOCKET,
                name: SO_BROADCAST,
                value: OptValue::Int(switch(broadcast)),
            }),
    {
        self.0.set_switch(SOL_SOCKET, SO_BROADCAST, broadcast)
    }

    /// Asks whether broadcasts may be sent.
    pub fn broadcast(&self) -> (r: Request<NetCall, Switch>)
        ensures
            r.call == (NetCall::GetSockOpt {
                fd: self@,
                level: SOL_SOCKET,
                name: SO_BROADCAST,
                kind: OptKind::Int,
            }),
    {
        self.0.get_switch(SOL_SOCKET, SO_BROADCAST)
    }

    /// Chooses whether multicast messages come back.
    pub fn set_multicast_loop_v4(&self, on: bool) -> (r: Request<NetCall, Worked>)
        ensures
            r.call == (NetCall::SetSockOpt {
                fd: self@,
                level: IPPROTO_IP,
                name: IP_MULTICAST_LOOP,
                value: OptValue::Byte(byte_switch(on)),
            }),
    {
        let value: u8 = if on {
            1
        } else {
            0
        };
        self.0.setsockopt(IPPROTO_IP, IP_MULTICAST_LOOP, OptValue::Byte(value))
    }

    /// Asks whether multicast messages come back.
    pub fn multicast_loop_v4(&self) -> (r: Request<NetCall, ByteSwitch>)
        ensures
            r.call == (NetCall::GetSockOpt {
                fd: self@,
                level: IPPROTO_IP,
                name: IP_MULTICAST_LOOP,
                kind: OptKind::Byte,
            }),
    {
        self.0.getsockopt(IPPROTO_IP, IP_MULTICAST_LOOP, OptKind::Byte, ByteSwitch)
    }

    /// Chooses how many hops multicast messages live.
    pub fn set_multicast_ttl_v4(&self, ttl: u32) -> (r: Request<NetCall, Worked>)
        ensures
            r.call == (NetCall::SetSockOpt {
                fd: self@,
                level: IPPROTO_IP,
                name: IP_MULTICAST_TTL,
                value: OptValue::Byte(ttl as u8),
            }),
    {
        self.0.setsockopt(IPPROTO_IP, IP_MULTICAST_TTL, OptValue::Byte(ttl as u8))
    }

    /// Asks how many hops multicast messages live.
    pub fn multicast_ttl_v4(&self) -> (r: Request<NetCall, ByteAmount>)
        ensures
            r.call == (NetCall::GetSockOpt {
                fd: self@,
                level: IPPROTO_IP,
                name: IP_MULTICAST_TTL,
                kind: OptKind::Byte,
            }),
    {
        self.0.getsockopt(IPPROTO_IP, IP_MULTICAST_TTL, OptKind::Byte, ByteAmount)
    }

    /// There is no IPv6.
    pub fn set_multicast_loop_v6(&self, on: bool) -> (r: Result<(), Error>)
        ensures
            r == Err::<(), Error>(v6_unsupported()),
    {
        unsupported_v6()
    }

    /// There is no IPv6.
    pub fn multicast_loop_v6(&self) -> (r: Result<bool, Error>)
        ensures
            r == Err::<bool, Error>(v6_unsupported()),
    {
        unsupported_v6()
    }

    /// Joins a group.
    pub fn join_multicast_v4(&self, multiaddr: &Ipv4Addr, interface: &Ipv4Addr) -> (r: Request<
        NetCall,
        Worked,
    >)
        ensures
            r.call == (NetCall::SetSockOpt {
                fd: self@,
                level: IPPROTO_IP,
                name: IP_ADD_MEMBERSHIP,
                value: OptValue::Group { multiaddr: *multiaddr, interface: *interface },
            }),
    {
        self.0.setsockopt(
            IPPROTO_IP,
            IP_ADD_MEMBERSHIP,
            OptValue::Group { multiaddr: *multiaddr, interface: *interface },
        )
    }

    /// There is no IPv6.
    pub fn join_multicast_v6(&self, multiaddr: &Ipv6Addr, interface: u32) -> (r: Result<
        (),
        Error,
    >)
        ensures
            r == Err::<(), Error>(v6_unsupported()),
    {
        unsupported_v6()
    }

    /// Leaves a group.
    pub fn leave_multicast_v4(&self, multiaddr: &Ipv4Addr, interface: &Ipv4Addr) -> (r: Request<
        NetCall,
        Worked,
    >)
        ensures
            r.call == (NetCall::SetSockOpt {
                fd: self@,
                level: IPPROTO_IP,
                name: IP_DROP_MEMBERSHIP,
                value: OptValue::Group { multiaddr: *multiaddr, interface: *interface },
            }),
    {
        self.0.setsockopt(
            IPPROTO_IP,
            IP_DROP_MEMBERSHIP,
            OptValue::Group { multiaddr: *multiaddr, interface: *interface },
        )
    }

    /// There is no IPv6.
    pub fn leave_multicast_v6(&self, multiaddr: &Ipv6Addr, interface: u32) -> (r: Result<
        (),
        Error,
    >)
        ensures
            r == Err::<(), Error>(v6_unsupported()),
    {
        unsupported_v6()
    }

    /// Receives a message into a buffer of that length.
    pub fn recv(&self, len: usize) -> (r: Request<NetCall, Transferred>)
        ensures
            r.call == (NetCall::Recv { fd: self@, len, flags: 0 }),
    {
        self.0.recv_with_flags(len, 0)
    }

    /// Receives a message into a buffer of that length and leaves it where it is.
    pub fn peek(&self, len: usize) -> (r: Request<NetCall, Transferred>)
        ensures
            r.call == (NetCall::Recv { fd: self@, len, flags: MSG_PEEK }),
    {
        self.0.recv_with_flags(len, MSG_PEEK)
    }

    /// Sends.
    pub fn send(&self, buf: &[u8]) -> (r: Request<NetCall, Transferred>)
        ensures
            r.call matches NetCall::Send { fd, data, flags } && fd == self@ && data@ == buf@
                && flags == 0,
    {
        self.0.send_with_flags(buf, 0)
    }

    /// Connects to the first of some addresses that can be had: messages then go to it and
    /// come from it.
    pub fn connect(&self, addrs: &Vec<SocketAddr>) -> (step: Step<ConnectUdp, Result<(), Error>>)
        ensures
            tries_to_connect(step, self@, addrs@, None),
    {
        assert(addrs@.skip(0) == addrs@);
        connect_from_on(self.0.fd(), addrs, 0, None)
    }

    /// Asks for a second descriptor of the same socket.
    pub fn duplicate(&self) -> (r: Request<NetCall, Made<UdpSocket>>)
        ensures
            r.call == (NetCall::Dup { fd: self@ }),
    {
        self.0.try_clone()
    }

    /// Chooses how many hops packets live.
    pub fn set_ttl(&self, ttl: u32) -> (r: Request<NetCall, Worked>)
        ensures
            r.call == (NetCall::SetSockOpt {
                fd: self@,
                level: IPPROTO_IP,
                name: IP_TTL,
                value: OptValue::Int(ttl as i32),
            }),
    {
        self.0.set_ttl(ttl)
    }

    /// Asks how many hops packets live.
    pub fn ttl(&self) -> (r: Request<NetCall, Amount>)
        ensures
            r.call == (NetCall::GetSockOpt {
                fd: self@,
                level: IPPROTO_IP,
                name: IP_TTL,
                kind: OptKind::Int,
            }),
    {
        self.0.ttl()
    }

    /// Takes the error that is pending.
    pub fn take_error(&self) -> (r: Request<NetCall, Pending>)
        ensures
            r.call == (NetCall::GetSockOpt {
                fd: self@,
                level: SOL_SOCKET,
                name: SO_ERROR,
                kind: OptKind::Int,
            }),
    {
        self.0.take_error()
    }

    /// Chooses whether calls wait.
    pub fn set_nonblocking(&self, nonblocking: bool) -> (r: Request<NetCall, Worked>)
        ensures
            r.call == (NetCall::SetNonblock { fd: self@, nonblock: switch(nonblocking) }),
    {
        self.0.set_nonblocking(nonblocking)
    }

    /// The descriptor, which the socket goes on owning.
    pub fn as_raw_fd(&self) -> (fd: i32)
        ensures
            fd == self@,
    {
        self.0.fd()
    }

    /// Hands the descriptor over, which is then not closed.
    pub fn into_raw_fd(self) -> (fd: i32)
        ensures
            fd == self@,
    {
        self.0.into_raw()
    }

    /// Takes a descriptor over.
    pub fn from_descriptor(fd: i32) -> (t: UdpSocket)
        ensures
            t@ == fd,
    {
        UdpSocket(Socket::from_raw(fd))
    }

    /// Gives the socket up. The call answers nothing.
    pub fn close(self) -> (call: NetCall)
        ensures
            call == (NetCall::Close { fd: self@ }),
    {
        self.0.close()
    }
}

/// A switch as the library keeps it in a byte.
pub open spec fn byte_switch(on: bool) -> u8 {
    if on {
        1
    } else {
        0
    }
}

/// Connecting a socket for single messages.
pub struct ConnectUdp {
    /// The socket, which is another's.
    pub fd: i32,
    /// The address that is being tried.
    pub to: RawAddr,
    /// The addresses that are tried after it.
    pub rest: Vec<SocketAddr>,
}

/// What follows where some addresses are left to try, and what went wrong with the last one.
/// An IPv6 address goes wrong at once. Where none works, the last error is returned.
pub open spec fn tries_to_connect(
    step: Step<ConnectUdp, Result<(), Error>>,
    fd: i32,
    addrs: Seq<SocketAddr>,
    last: Option<Error>,
) -> bool
    decreases addrs.len(),
{
    if addrs.len() == 0 {
        step == Step::<ConnectUdp, Result<(), Error>>::Done(
            Err(
                match last {
                    Some(e) => e,
                    None => no_addresses(),
                },
            ),
        )
    } else {
        match addrs[0] {
            SocketAddr::V4(a) => step matches Step::Ask(op) && op.fd == fd && op.to == raw_of(a)
                && op.rest@ == addrs.skip(1),
            SocketAddr::V6(_) => tries_to_connect(
                step,
                fd,
                addrs.skip(1),
                Some(v6_unsupported()),
            ),
        }
    }
}

/// Goes on with the addresses from `from` on.
fn connect_from_on(fd: i32, addrs: &Vec<SocketAddr>, from: usize, last: Option<Error>) -> (step:
    Step<ConnectUdp, Result<(), Error>>)
    requires
        from <= addrs@.len(),
    ensures
        tries_to_connect(step, fd, addrs@.skip(from as int), last),
    decreases addrs@.len() - from,
{
    let len: usize = addrs.len();
    if from == len {
        return Step::Done(
            Err(
                match last {
                    Some(e) => e,
                    None => Error::Message(
                        ErrorKind::InvalidInput,
                        "could not resolve to any addresses",
                    ),
                },
            ),
        );
    }
    assert(addrs@.skip(from as int).skip(1) == addrs@.skip(from + 1));
    match addr_to_raw(&addrs[from]) {
        Ok(to) => Step::Ask(ConnectUdp { fd, to, rest: addrs_from(addrs, from + 1) }),
        Err(e) => connect_from_on(fd, addrs, from + 1, Some(e)),
    }
}

impl Operation for ConnectUdp {
    type Call = NetCall;

    type Reply = NetReply;

    type Output = Result<(), Error>;

    open spec fn asks(self, call: NetCall) -> bool {
        call == (NetCall::Connect { fd: self.fd, to: self.to })
    }

    open spec fn accepts(self, reply: NetReply) -> bool {
        true
    }

    open spec fn leads_to(
        self,
        reply: NetReply,
        step: Step<ConnectUdp, Result<(), Error>>,
    ) -> bool {
        if reply.ret < 0 {
            tries_to_connect(step, self.fd, self.rest@, Some(Error::Os(reply.errno)))
        } else {
            step == Step::<ConnectUdp, Result<(), Error>>::Done(Ok(()))
        }
    }

    fn call(&self) -> (call: NetCall) {
        NetCall::Connect { fd: self.fd, to: self.to }
    }

    fn resume(self, reply: NetReply) -> (step: Step<ConnectUdp, Result<(), Error>>) {
        if reply.ret < 0 {
            assert(self.rest@.skip(0) == self.rest@);
            connect_from_on(self.fd, &self.rest, 0, Some(Error::Os(reply.errno)))
        } else {
            Step::Done(Ok(()))
        }
    }
}

/// Messages are received from and sent through the socket it is asked of, with all the room or
/// all the bytes that were given; peeking leaves a message where it is, and a message that is
/// sent goes to the very address that was given.
pub proof fn messages_go_through_their_own_socket(
    t: UdpSocket,
    len: usize,
    buf: &[u8],
    dst: SocketAddr,
    dur: Option<Duration>,
)
    ensures
        forall|r: Request<NetCall, TransferredFrom>| #[trigger]
            call_ensures(UdpSocket::recv_from, (&t, len), r) ==> r.call == (NetCall::RecvFrom {
                fd: t@,
                len,
                flags: 0,
            }),
        forall|r: Request<NetCall, TransferredFrom>| #[trigger]
            call_ensures(UdpSocket::peek_from, (&t, len), r) ==> r.call == (NetCall::RecvFrom {
                fd: t@,
                len,
                flags: 2,
            }),
        forall|r: Request<NetCall, Transferred>| #[trigger]
            call_ensures(UdpSocket::recv, (&t, len), r) ==> r.call == (NetCall::Recv {
                fd: t@,
                len,
                flags: 0,
            }),
        forall|r: Request<NetCall, Transferred>| #[trigger]
            call_ensures(UdpSocket::peek, (&t, len), r) ==> r.call == (NetCall::Recv {
                fd: t@,
                len,
                flags: 2,
            }),
        forall|r: Request<NetCall, Transferred>| #[trigger]
            call_ensures(UdpSocket::send, (&t, buf), r) ==> (r.call matches NetCall::Send {
                fd,
                data,
                flags,
            } && fd == t@ && data@ == buf@ && flags == 0),
        forall|r: Result<Request<NetCall, Transferred>, Error>| #[trigger]
            call_ensures(UdpSocket::send_to, (&t, buf, &dst), r) ==> {
                &&& r is Ok <==> dst is V4
                &&& r matches Ok(request) ==> (request.call matches NetCall::SendTo {
                    fd,
                    data,
                    flags,
                    to,
                } && fd == t@ && data@ == buf@ && flags == 0 && to.ip == dst->V4_0.ip
                    && to.high as int * 256 + to.low as int == dst->V4_0.port)
                &&& r matches Err(e) ==> e == Error::Message(
                    ErrorKind::Unsupported,
                    "IPv6 is not supported by the AROS bsdsocket bridge yet",
                )
            },
        forall|r: Request<NetCall, Told>| #[trigger]
            call_ensures(UdpSocket::peer_addr, (&t,), r) ==> r.call == (NetCall::GetPeerName {
                fd: t@,
            }),
        forall|r: Result<(), Error>| #[trigger]
            call_ensures(UdpSocket::set_read_timeout, (&t, dur), r) ==> (r is Ok <==> dur is None),
        forall|r: Result<(), Error>| #[trigger]
            call_ensures(UdpSocket::set_write_timeout, (&t, dur), r) ==> (r is Ok <==> dur is None),
        forall|r: Result<Option<Duration>, Error>| #[trigger]
            call_ensures(UdpSocket::read_timeout, (&t,), r) ==> r == Ok::<Option<Duration>, Error>(
                None,
            ),
        forall|r: Result<Option<Duration>, Error>| #[trigger]
            call_ensures(UdpSocket::write_timeout, (&t,), r) ==> r == Ok::<Option<Duration>, Error>(
                None,
            ),
{
}

/// The options of a socket for messages are written to and read from the same place, under the
/// numbers that the library has for them and in the size that it keeps them in.
pub proof fn message_options_have_their_numbers(
    t: UdpSocket,
    on: bool,
    ttl: u32,
    group: Ipv4Addr,
    interface: Ipv4Addr,
)
    ensures
        forall|r: Request<NetCall, Worked>| #[trigger]
            call_ensures(UdpSocket::set_broadcast, (&t, on), r) ==> r.call == (
            NetCall::SetSockOpt {
                fd: t@,
                level: 0xffff,
                name: 0x20,
                value: OptValue::Int(
                    if on {
                        1
                    } else {
                        0
                    },
                ),
            }),
        forall|r: Request<NetCall, Switch>| #[trigger]
            call_ensures(UdpSocket::broadcast, (&t,), r) ==> r.call == (NetCall::GetSockOpt {
                fd: t@,
                level: 0xffff,
                name: 0x20,
                kind: OptKind::Int,
            }),
        forall|r: Request<NetCall, Worked>| #[trigger]
            call_ensures(UdpSocket::set_multicast_loop_v4, (&t, on), r) ==> r.call == (
            NetCall::SetSockOpt {
                fd: t@,
                level: 0,
                name: 11,
                value: OptValue::Byte(
                    if on {
                        1
                    } else {
                        0
                    },
                ),
            }),
        forall|r: Request<NetCall, ByteSwitch>| #[trigger]
            call_ensures(UdpSocket::multicast_loop_v4, (&t,), r) ==> r.call == (
            NetCall::GetSockOpt { fd: t@, level: 0, name: 11, kind: OptKind::Byte }),
        forall|r: Request<NetCall, Worked>| #[trigger]
            call_ensures(UdpSocket::set_multicast_ttl_v4, (&t, ttl), r) ==> (
            r.call matches NetCall::SetSockOpt { fd, level, name, value } && fd == t@ && level == 0
                && name == 10 && (value matches OptValue::Byte(b) && b == ttl % 256)),
        forall|r: Request<NetCall, ByteAmount>| #[trigger]
            call_ensures(UdpSocket::multicast_ttl_v4, (&t,), r) ==> r.call == (
            NetCall::GetSockOpt { fd: t@, level: 0, name: 10, kind: OptKind::Byte }),
        forall|r: Request<NetCall, Worked>| #[trigger]
            call_ensures(UdpSocket::join_multicast_v4, (&t, &group, &interface), r) ==> r.call == (
            NetCall::SetSockOpt {
                fd: t@,
                level: 0,
                name: 12,
                value: OptValue::Group { multiaddr: group, interface },
            }),
        forall|r: Request<NetCall, Worked>| #[trigger]
            call_ensures(UdpSocket::leave_multicast_v4, (&t, &group, &interface), r) ==> r.call == (
            NetCall::SetSockOpt {
                fd: t@,
                level: 0,
                name: 13,
                value: OptValue::Group { multiaddr: group, interface },
            }),
{
    assert(ttl as u8 == ttl % 256) by (bit_vector);
}

/// There is no IPv6 for messages either.
pub proof fn no_group_is_ipv6(t: UdpSocket, on: bool, group: Ipv6Addr, interface: u32)
    ensures
        forall|r: Result<(), Error>| #[trigger]
            call_ensures(UdpSocket::set_multicast_loop_v6, (&t, on), r) ==> r is Err,
        forall|r: Result<bool, Error>| #[trigger]
            call_ensures(UdpSocket::multicast_loop_v6, (&t,), r) ==> r is Err,
        forall|r: Result<(), Error>| #[trigger]
            call_ensures(UdpSocket::join_multicast_v6, (&t, &group, interface), r) ==> r is Err,
        forall|r: Result<(), Error>| #[trigger]
            call_ensures(UdpSocket::leave_multicast_v6, (&t, &group, interface), r) ==> r is Err,
{
}

/// Taking an address and connecting try all the addresses that were given, in their order, and
/// connecting is done with the socket that it is asked of.
pub proof fn all_given_addresses_are_tried(
    t: UdpSocket,
    addrs: Vec<SocketAddr>,
    bind: Step<Open<UdpSocket>, Result<UdpSocket, Error>>,
    connect: Step<ConnectUdp, Result<(), Error>>,
)
    requires
        call_ensures(UdpSocket::bind, (&addrs,), bind),
        call_ensures(UdpSocket::connect, (&t, &addrs), connect),
    ensures
        tries(bind, addrs@, None),
        tries_to_connect(connect, t@, addrs@, None),
{
}

/// Of some addresses the first that is not IPv6 is connected to first, with the same socket, and
/// the others behind it wait for their turn in their order. Where there is none, the last of
/// them is what went wrong, or what went wrong before; without any address there is none to
/// try.
pub proof fn the_first_usable_address_is_connected_to(
    step: Step<ConnectUdp, Result<(), Error>>,
    fd: i32,
    addrs: Seq<SocketAddr>,
    last: Option<Error>,
    i: int,
)
    requires
        tries_to_connect(step, fd, addrs, last),
    ensures
        0 <= i < addrs.len() && addrs[i] is V4 && (forall|k: int|
            0 <= k < i ==> (#[trigger] addrs[k]) is V6) ==> (step matches Step::Ask(op) && op.fd
            == fd && op.to.ip == addrs[i]->V4_0.ip && op.to.high as int * 256 + op.to.low as int
            == addrs[i]->V4_0.port && op.rest@ == addrs.skip(i + 1)),
        addrs.len() > 0 && (forall|k: int| 0 <= k < addrs.len() ==> (#[trigger] addrs[k]) is V6)
            ==> (step matches Step::Done(Err(e)) && e == Error::Message(
            ErrorKind::Unsupported,
            "IPv6 is not supported by the AROS bsdsocket bridge yet",
        )),
        addrs.len() == 0 && last is Some ==> step == Step::<ConnectUdp, Result<(), Error>>::Done(
            Err(last->0),
        ),
        addrs.len() == 0 && last is None ==> (step matches Step::Done(Err(e)) && e
            == Error::Message(ErrorKind::InvalidInput, "could not resolve to any addresses")),
    decreases addrs.len(),
{
    if addrs.len() > 0 && addrs[0] is V6 {
        let rest = addrs.skip(1);
        the_first_usable_address_is_connected_to(
            step,
            fd,
            rest,
            Some(v6_unsupported()),
            i - 1,
        );
        if 0 < i < addrs.len() && addrs[i] is V4 && (forall|k: int|
            0 <= k < i ==> (#[trigger] addrs[k]) is V6) {
            assert(rest[i - 1] == addrs[i]);
            assert forall|k: int| 0 <= k < i - 1 implies (#[trigger] rest[k]) is V6 by {
                assert(addrs[k + 1] is V6);
            }
            assert(rest.skip(i) == addrs.skip(i + 1));
        }
        if forall|k: int| 0 <= k < addrs.len() ==> (#[trigger] addrs[k]) is V6 {
            assert forall|k: int| 0 <= k < rest.len() implies (#[trigger] rest[k]) is V6 by {
                assert(addrs[k + 1] is V6);
            }
        }
    }
}

/// A socket is connected once an address works, and an address that does not is followed by the
/// next one, with what went wrong kept in case it is the last.
pub proof fn a_socket_is_connected_to_what_works(
    op: ConnectUdp,
    reply: NetReply,
    step: Step<ConnectUdp, Result<(), Error>>,
)
    requires
        op.leads_to(reply, step),
    ensures
        op.accepts(reply),
        forall|call: NetCall| #[trigger]
            op.asks(call) ==> call == (NetCall::Connect { fd: op.fd, to: op.to }),
        reply.ret >= 0 ==> (step matches Step::Done(r) && r is Ok),
        reply.ret < 0 ==> tries_to_connect(step, op.fd, op.rest@, Some(Error::Os(reply.errno))),
{
}

/// The options that all sockets have are asked of this socket, under the numbers that the
/// library has for them, and its descriptor is told, handed over and closed as it is.
pub proof fn a_message_sockets_common_options_are_its_own(
    t: UdpSocket,
    fd: i32,
    ttl: u32,
    on: bool,
    of_fd: UdpSocket,
)
    requires
        call_ensures(UdpSocket::from_descriptor, (fd,), of_fd),
    ensures
        of_fd@ == fd,
        forall|n: i32| #[trigger] call_ensures(UdpSocket::as_raw_fd, (&t,), n) ==> n == t@,
        forall|n: i32| #[trigger] call_ensures(UdpSocket::into_raw_fd, (t,), n) ==> n == t@,
        forall|call: NetCall| #[trigger]
            call_ensures(UdpSocket::close, (t,), call) ==> call == (NetCall::Close { fd: t@ }),
        forall|r: Request<NetCall, Made<UdpSocket>>| #[trigger]
            call_ensures(UdpSocket::duplicate, (&t,), r) ==> r.call == (NetCall::Dup { fd: t@ }),
        forall|r: Request<NetCall, Told>| #[trigger]
            call_ensures(UdpSocket::socket_addr, (&t,), r) ==> r.call == (NetCall::GetSockName {
                fd: t@,
            }),
        forall|r: Request<NetCall, Worked>| #[trigger]
            call_ensures(UdpSocket::set_ttl, (&t, ttl), r) ==> r.call == (NetCall::SetSockOpt {
                fd: t@,
                level: 0,
                name: 4,
                value: OptValue::Int(ttl as i32),
            }),
        forall|r: Request<NetCall, Amount>| #[trigger]
            call_ensures(UdpSocket::ttl, (&t,), r) ==> r.call == (NetCall::GetSockOpt {
                fd: t@,
                level: 0,
                name: 4,
                kind: OptKind::Int,
            }),
        forall|r: Request<NetCall, Pending>| #[trigger]
            call_ensures(UdpSocket::take_error, (&t,), r) ==> r.call == (NetCall::GetSockOpt {
                fd: t@,
                level: 0xffff,
                name: 0x1007,
                kind: OptKind::Int,
            }),
        forall|r: Request<NetCall, Worked>| #[trigger]
            call_ensures(UdpSocket::set_nonblocking, (&t, on), r) ==> r.call == (
            NetCall::SetNonblock {
                fd: t@,
                nonblock: if on {
                    1
                } else {
                    0
                },
            }),
        UdpSocket::role() == Role::Messages,
        t.descriptor() == t@,
{
}

} // verus!
