//! Connections.
use vstd::prelude::*;

use crate::error::Error;
use crate::io::{
    find_nonempty, find_nonzero, first_nonempty, first_nonempty_is_found, first_nonzero,
    first_nonzero_is_found, ReadInto,
};
use crate::net::addr::{raw_to_v4, unsupported_v6, v4_of, v6_unsupported, SocketAddr};
use crate::net::call::{
    Amount, Lingering, NetCall, NetReply, OptKind, OptValue, Pending, Switch, Told, Transferred,
    Worked, IPPROTO_IP, IPPROTO_TCP, IP_TTL, MSG_PEEK, SOL_SOCKET, SO_ERROR, SO_KEEPALIVE,
    SO_LINGER, TCP_NODELAY,
};
use crate::net::open::{open_first, tries, Open};
use crate::net::socket::{
    how_of, set_timeout, switch, timeout_set, Endpoint, Made, Role, Shutdown, Socket,
};
use crate::op::{Decode, Request, Step};
use crate::time::Duration;

verus! {

/// A connection. Its view is the descriptor, which it owns: [`TcpStream::close`] has to be
/// asked for when it is given up.
#[derive(PartialEq, Eq, Debug)]
pub struct TcpStream(Socket);

impl View for TcpStream {
    type V = i32;

    closed spec fn view(&self) -> i32 {
        self.0@
    }
}

impl Endpoint for TcpStream {
    open spec fn role() -> Role {
        Role::Connection
    }

    open spec fn descriptor(self) -> i32 {
        self@
    }

    fn what() -> (role: Role) {
        Role::Connection
    }

    fn from_socket(socket: Socket) -> (t: TcpStream) {
        TcpStream(socket)
    }
}

impl TcpStream {
    /// Connects to the first of some addresses that answers.
    pub fn connect(addrs: &Vec<SocketAddr>) -> (step: Step<
        Open<TcpStream>,
        Result<TcpStream, Error>,
    >)
        ensures
            tries(step, addrs@, None),
    {
        open_first(addrs)
    }

    /// Connects to an address. The timeout is not kept; that of the host is.
    pub fn connect_timeout(addr: &SocketAddr, timeout: Duration) -> (step: Step<
        Open<TcpStream>,
        Result<TcpStream, Error>,
    >)
        ensures
            tries(step, seq![*addr], None),
    {
        let mut addrs: Vec<SocketAddr> = Vec::new();
        addrs.push(*addr);
        assert(addrs@ == seq![*addr]);
        open_first(&addrs)
    }

    /// Sets no timeout; a wish for one is refused.
    pub fn set_read_timeout(&self, dur: Option<Duration>) -> (r: Result<(), Error>)
        ensures
            r == timeout_set(dur),
    {
        set_timeout(dur)
    }

    /// Sets no timeout; a wish for one is refused.
    pub fn set_write_timeout(&self, dur: Option<Duration>) -> (r: Result<(), Error>)
        ensures
            r == timeout_set(dur),
    {
        set_timeout(dur)
    }

    /// There is no timeout.
    pub fn read_timeout(&self) -> (r: Result<Option<Duration>, Error>)
        ensures
            r == Ok::<Option<Duration>, Error>(None),
    {
        Ok(None)
    }

    /// There is no timeout.
    pub fn write_timeout(&self) -> (r: Result<Option<Duration>, Error>)
        ensures
            r == Ok::<Option<Duration>, Error>(None),
    {
        Ok(None)
    }

    /// Receives into a buffer of that length and leaves the data where it is.
    pub fn peek(&self, len: usize) -> (r: Request<NetCall, Transferred>)
        ensures
            r.call == (NetCall::Recv { fd: self@, len, flags: MSG_PEEK }),
    {
        self.0.recv_with_flags(len, MSG_PEEK)
    }

    /// Receives into a buffer of that length.
    pub fn read(&self, len: usize) -> (r: Request<NetCall, Transferred>)
        ensures
            r.call == (NetCall::Recv { fd: self@, len, flags: 0 }),
    {
        self.0.recv_with_flags(len, 0)
    }

    /// Receives behind what a buffer holds, into all the room it has.
    pub fn read_buf(&self, capacity: usize) -> (r: Request<NetCall, Transferred>)
        ensures
            r.call == (NetCall::Recv { fd: self@, len: capacity, flags: 0 }),
    {
        self.read(capacity)
    }

    /// Receives into the first of several buffers that is not empty. Where all are, nothing
    /// is received.
    pub fn read_vectored(&self, lens: &[usize]) -> (r: Step<
        ReadInto<NetCall, Transferred>,
        Result<usize, Error>,
    >)
        ensures
            match r {
                Step::Ask(into) => {
                    &&& into.index == first_nonzero(lens@) < lens@.len()
                    &&& into.request.call == (NetCall::Recv {
                        fd: self@,
                        len: lens@[into.index as int],
                        flags: 0,
                    })
                },
                Step::Done(out) => first_nonzero(lens@) == lens@.len() && out == Ok::<usize, Error>(
                    0,
                ),
            },
    {
        let index: usize = find_nonzero(lens);
        if index < lens.len() {
            Step::Ask(ReadInto { index, request: self.read(lens[index]) })
        } else {
            Step::Done(Ok(0))
        }
    }

    /// Several buffers are no faster than one.
    pub fn is_read_vectored(&self) -> (yes: bool)
        ensures
            !yes,
    {
        false
    }

    /// Sends.
    pub fn write(&self, buf: &[u8]) -> (r: Request<NetCall, Transferred>)
        ensures
            r.call matches NetCall::Send { fd, data, flags } && fd == self@ && data@ == buf@
                && flags == 0,
    {
        self.0.send_with_flags(buf, 0)
    }

    /// Sends the first of several buffers that is not empty. Where all are, nothing is sent.
    pub fn write_vectored(&self, bufs: &[Vec<u8>]) -> (r: Step<
        Request<NetCall, Transferred>,
        Result<usize, Error>,
    >)
        ensures
            match r {
                Step::Ask(request) => first_nonempty(bufs@) < bufs@.len() && (
                request.call matches NetCall::Send { fd, data, flags } && fd == self@ && data@
                    == bufs@[first_nonempty(bufs@)]@ && flags == 0),
                Step::Done(out) => first_nonempty(bufs@) == bufs@.len() && out == Ok::<
                    usize,
                    Error,
                >(0),
            },
    {
        let index: usize = find_nonempty(bufs);
        if index < bufs.len() {
            Step::Ask(self.write(bufs[index].as_slice()))
        } else {
            Step::Done(Ok(0))
        }
    }

    /// Several buffers are no faster than one.
    pub fn is_write_vectored(&self) -> (yes: bool)
        ensures
            !yes,
    {
        false
    }

    /// Asks for the address of the other end.
    pub fn peer_addr(&self) -> (r: Request<NetCall, Told>)
        ensures
            r.call == (NetCall::GetPeerName { fd: self@ }),
    {
        self.0.peer_addr()
    }

    /// Asks for the address of this end.
    pub fn socket_addr(&self) -> (r: Request<NetCall, Told>)
        ensures
            r.call == (NetCall::GetSockName { fd: self@ }),
    {
        self.0.local_addr()
    }

    /// Ends one half of the connection, or both.
    pub fn shutdown(&self, how: Shutdown) -> (r: Request<NetCall, Worked>)
        ensures
            r.call == (NetCall::Shutdown { fd: self@, how: how_of(how) }),
    {
        self.0.shutdown(how)
    }

    /// Chooses how many whole seconds closing waits for data to be sent.
    pub fn set_linger(&self, linger: Option<Duration>) -> (r: Request<NetCall, Worked>)
        ensures
            r.call == (NetCall::SetSockOpt {
                fd: self@,
                level: SOL_SOCKET,
                name: SO_LINGER,
                value: linger_value(linger),
            }),
    {
        let value: OptValue = match linger {
            Some(d) => OptValue::Linger { onoff: 1, linger: d.as_secs() as i32 },
            None => OptValue::Linger { onoff: 0, linger: 0 },
        };
        self.0.setsockopt(SOL_SOCKET, SO_LINGER, value)
    }

    /// Asks how long closing waits for data to be sent.
    pub fn linger(&self) -> (r: Request<NetCall, Lingering>)
        ensures
            r.call == (NetCall::GetSockOpt {
                fd: self@,
                level: SOL_SOCKET,
                name: SO_LINGER,
                kind: OptKind::Linger,
            }),
    {
        self.0.getsockopt(SOL_SOCKET, SO_LINGER, OptKind::Linger, Lingering)
    }

    /// Chooses whether an idle connection is kept alive.
    pub fn set_keepalive(&self, keepalive: bool) -> (r: Request<NetCall, Worked>)
        ensures
            r.call == (NetCall::SetSockOpt {
                fd: self@,
                level: SOL_SOCKET,
                name: SO_KEEPALIVE,
                value: OptValue::Int(switch(keepalive)),
            }),
    {
        self.0.set_switch(SOL_SOCKET, SO_KEEPALIVE, keepalive)
    }

    /// Asks whether an idle connection is kept alive.
    pub fn keepalive(&self) -> (r: Request<NetCall, Switch>)
        ensures
            r.call == (NetCall::GetSockOpt {
                fd: self@,
                level: SOL_SOCKET,
                name: SO_KEEPALIVE,
                kind: OptKind::Int,
            }),
    {
        self.0.get_switch(SOL_SOCKET, SO_KEEPALIVE)
    }

    /// Chooses whether data is sent at once.
    pub fn set_nodelay(&self, nodelay: bool) -> (r: Request<NetCall, Worked>)
        ensures
            r.call == (NetCall::SetSockOpt {
                fd: self@,
                level: IPPROTO_TCP,
                name: TCP_NODELAY,
                value: OptValue::Int(switch(nodelay)),
            }),
    {
        self.0.set_switch(IPPROTO_TCP, TCP_NODELAY, nodelay)
    }

    /// Asks whether data is sent at once.
    pub fn nodelay(&self) -> (r: Request<NetCall, Switch>)
        ensures
            r.call == (NetCall::GetSockOpt {
                fd: self@,
                level: IPPROTO_TCP,
                name: TCP_NODELAY,
                kind: OptKind::Int,
            }),
    {
        self.0.get_switch(IPPROTO_TCP, TCP_NODELAY)
    }

    /// Asks for a second descriptor of the same socket.
    pub fn duplicate(&self) -> (r: Request<NetCall, Made<TcpStream>>)
        ensures
            r.call == (NetCall::Dup { fd: self@ }),
    {
        self.0.try_clone()
    }

    /// Chooses how many hops packets live.
    pub fn set_ttl(&self, ttl: u32) -> (r: Request<NetCall, Worked>)
        ensures
            r.call == (NetCall::SetSockOpt {
                fd: self@,
                level: IPPROTO_IP,
                name: IP_TTL,
                value: OptValue::Int(ttl as i32),
            }),
    {
        self.0.set_ttl(ttl)
    }

    /// Asks how many hops packets live.
    pub fn ttl(&self) -> (r: Request<NetCall, Amount>)
        ensures
            r.call == (NetCall::GetSockOpt {
                fd: self@,
                level: IPPROTO_IP,
                name: IP_TTL,
                kind: OptKind::Int,
            }),
    {
        self.0.ttl()
    }

    /// Takes the error that is pending.
    pub fn take_error(&self) -> (r: Request<NetCall, Pending>)
        ensures
            r.call == (NetCall::GetSockOpt {
                fd: self@,
                level: SOL_SOCKET,
                name: SO_ERROR,
                kind: OptKind::Int,
            }),
    {
        self.0.take_error()
    }

    /// Chooses whether calls wait.
    pub fn set_nonblocking(&self, nonblocking: bool) -> (r: Request<NetCall, Worked>)
        ensures
            r.call == (NetCall::SetNonblock { fd: self@, nonblock: switch(nonblocking) }),
    {
        self.0.set_nonblocking(nonblocking)
    }

    /// The descriptor, which the socket goes on owning.
    pub fn as_raw_fd(&self) -> (fd: i32)
        ensures
            fd == self@,
    {
        self.0.fd()
    }

    /// Hands the descriptor over, which is then not closed.
    pub fn into_raw_fd(self) -> (fd: i32)
        ensures
            fd == self@,
    {
        self.0.into_raw()
    }

    /// Takes a descriptor over.
    pub fn from_descriptor(fd: i32) -> (t: TcpStream)
        ensures
            t@ == fd,
    {
        TcpStream(Socket::from_raw(fd))
    }

    /// Gives the socket up. The call answers nothing.
    pub fn close(self) -> (call: NetCall)
        ensures
            call == (NetCall::Close { fd: self@ }),
    {
        self.0.close()
    }
}

/// What the library is told of how long closing waits.
pub open spec fn linger_value(linger: Option<Duration>) -> OptValue {
    match linger {
        Some(d) => OptValue::Linger { onoff: 1, linger: (d@ / 1_000_000_000) as u64 as i32 },
        None => OptValue::Linger { onoff: 0, linger: 0 },
    }
}

/// How long closing waits is read as it was chosen, in whole seconds, as long as those fit
/// what the library keeps.
pub proof fn linger_is_kept(
    linger: Option<Duration>,
    reply: NetReply,
    out: Result<Option<Duration>, Error>,
)
    requires
        reply.ret >= 0,
        reply.value == linger_value(linger),
        Lingering.reads(reply, out),
        linger matches Some(d) ==> d@ / 1_000_000_000 <= i32::MAX,
    ensures
        match linger {
            Some(d) => out matches Ok(Some(r)) && r@ == d@ / 1_000_000_000 * 1_000_000_000,
            None => out == Ok::<Option<Duration>, Error>(None),
        },
{
}

// ------------------------------------------------------------------------------------
// Accepting connections
// ------------------------------------------------------------------------------------

/// A call that answers the descriptor of a new connection and tells where it came from.
pub struct Accepted;

impl Decode for Accepted {
    type Reply = NetReply;

    type Output = Result<(TcpStream, SocketAddr), Error>;

    open spec fn accepts(self, reply: NetReply) -> bool {
        reply.ret <= i32::MAX
    }

    open spec fn reads(self, reply: NetReply, out: Result<(TcpStream, SocketAddr), Error>) -> bool {
        match out {
            Ok((stream, from)) => reply.ret >= 0 && stream@ == reply.ret && from == SocketAddr::V4(
                v4_of(reply.from),
            ),
            Err(e) => reply.ret < 0 && e == Error::Os(reply.errno),
        }
    }

    fn decode(self, reply: NetReply) -> (out: Result<(TcpStream, SocketAddr), Error>) {
        if reply.ret < 0 {
            return Err(Error::Os(reply.errno));
        }
        Ok((TcpStream::from_descriptor(reply.ret as i32), SocketAddr::V4(raw_to_v4(reply.from))))
    }
}

/// A socket that accepts connections. Its view is the descriptor, which it owns:
/// [`TcpListener::close`] has to be asked for when it is given up.
#[derive(PartialEq, Eq, Debug)]
pub struct TcpListener(Socket);

impl View for TcpListener {
    type V = i32;

    closed spec fn view(&self) -> i32 {
        self.0@
    }
}

impl Endpoint for TcpListener {
    open spec fn role() -> Role {
        Role::Listener
    }

    open spec fn descriptor(self) -> i32 {
        self@
    }

    fn what() -> (role: Role) {
        Role::Listener
    }

    fn from_socket(socket: Socket) -> (t: TcpListener) {
        TcpListener(socket)
    }
}

impl TcpListener {
    /// Listens on the first of some addresses that can be had.
    pub fn bind(addrs: &Vec<SocketAddr>) -> (step: Step<
        Open<TcpListener>,
        Result<TcpListener, Error>,
    >)
        ensures
            tries(step, addrs@, None),
    {
        open_first(addrs)
    }

    /// Asks for the address that is listened on.
    pub fn socket_addr(&self) -> (r: Request<NetCall, Told>)
        ensures
            r.call == (NetCall::GetSockName { fd: self@ }),
    {
        self.0.local_addr()
    }

    /// Accepts a connection.
    pub fn accept(&self) -> (r: Request<NetCall, Accepted>)
        ensures
            r.call == (NetCall::Accept { fd: self@ }),
    {
        Request { call: NetCall::Accept { fd: self.0.fd() }, reading: Accepted }
    }

    /// There is no IPv6 to be alone with.
    pub fn set_only_v6(&self, only: bool) -> (r: Result<(), Error>)
        ensures
            r == Err::<(), Error>(v6_unsupported()),
    {
        unsupported_v6()
    }

    /// The listener is one for IPv4.
    pub fn only_v6(&self) -> (r: Result<bool, Error>)
        ensures
            r == Ok::<bool, Error>(false),
    {
        Ok(false)
    }

    /// Asks for a second descriptor of the same socket.
    pub fn duplicate(&self) -> (r: Request<NetCall, Made<TcpListener>>)
        ensures
            r.call == (NetCall::Dup { fd: self@ }),
    {
        self.0.try_clone()
    }

    /// Chooses how many hops packets live.
    pub fn set_ttl(&self, ttl: u32) -> (r: Request<NetCall, Worked>)
        ensures
            r.call == (NetCall::SetSockOpt {
                fd: self@,
                level: IPPROTO_IP,
                name: IP_TTL,
                value: OptValue::Int(ttl as i32),
            }),
    {
        self.0.set_ttl(ttl)
    }

    /// Asks how many hops packets live.
    pub fn ttl(&self) -> (r: Request<NetCall, Amount>)
        ensures
            r.call == (NetCall::GetSockOpt {
                fd: self@,
                level: IPPROTO_IP,
                name: IP_TTL,
                kind: OptKind::Int,
            }),
    {
        self.0.ttl()
    }

    /// Takes the error that is pending.
    pub fn take_error(&self) -> (r: Request<NetCall, Pending>)
        ensures
            r.call == (NetCall::GetSockOpt {
                fd: self@,
                level: SOL_SOCKET,
                name: SO_ERROR,
                kind: OptKind::Int,
            }),
    {
        self.0.take_error()
    }

    /// Chooses whether calls wait.
    pub fn set_nonblocking(&self, nonblocking: bool) -> (r: Request<NetCall, Worked>)
        ensures
            r.call == (NetCall::SetNonblock { fd: self@, nonblock: switch(nonblocking) }),
    {
        self.0.set_nonblocking(nonblocking)
    }

    /// The descriptor, which the socket goes on owning.
    pub fn as_raw_fd(&self) -> (fd: i32)
        ensures
            fd == self@,
    {
        self.0.fd()
    }

    /// Hands the descriptor over, which is then not closed.
    pub fn into_raw_fd(self) -> (fd: i32)
        ensures
            fd == self@,
    {
        self.0.into_raw()
    }

    /// Takes a descriptor over.
    pub fn from_descriptor(fd: i32) -> (t: TcpListener)
        ensures
            t@ == fd,
    {
        TcpListener(Socket::from_raw(fd))
    }

    /// Gives the socket up. The call answers nothing.
    pub fn close(self) -> (call: NetCall)
        ensures
            call == (NetCall::Close { fd: self@ }),
    {
        self.0.close()
    }
}

/// Connecting and listening try all the addresses that were given, in their order, and
/// connecting with a timeout tries the one address.
pub proof fn all_given_addresses_are_tried(
    addrs: Vec<SocketAddr>,
    addr: SocketAddr,
    timeout: Duration,
    connect: Step<Open<TcpStream>, Result<TcpStream, Error>>,
    timed: Step<Open<TcpStream>, Result<TcpStream, Error>>,
    bind: Step<Open<TcpListener>, Result<TcpListener, Error>>,
)
    requires
        call_ensures(TcpStream::connect, (&addrs,), connect),
        call_ensures(TcpStream::connect_timeout, (&addr, timeout), timed),
        call_ensures(TcpListener::bind, (&addrs,), bind),
    ensures
        tries(connect, addrs@, None),
        tries(timed, seq![addr], None),
        tries(bind, addrs@, None),
{
}

/// Data is received from and sent to the connection it is asked of, with all the room or all the
/// bytes that were given; peeking leaves it where it is, and reading does not.
pub proof fn data_goes_through_its_own_connection(
    t: TcpStream,
    len: usize,
    buf: &[u8],
    dur: Option<Duration>,
)
    ensures
        forall|r: Request<NetCall, Transferred>| #[trigger]
            call_ensures(TcpStream::peek, (&t, len), r) ==> r.call == (NetCall::Recv {
                fd: t@,
                len,
                flags: 2,
            }),
        forall|r: Request<NetCall, Transferred>| #[trigger]
            call_ensures(TcpStream::read, (&t, len), r) ==> r.call == (NetCall::Recv {
                fd: t@,
                len,
                flags: 0,
            }),
        forall|r: Request<NetCall, Transferred>| #[trigger]
            call_ensures(TcpStream::read_buf, (&t, len), r) ==> r.call == (NetCall::Recv {
                fd: t@,
                len,
                flags: 0,
            }),
        forall|r: Request<NetCall, Transferred>| #[trigger]
            call_ensures(TcpStream::write, (&t, buf), r) ==> (r.call matches NetCall::Send {
                fd,
                data,
                flags,
            } && fd == t@ && data@ == buf@ && flags == 0),
        forall|r: Request<NetCall, Told>| #[trigger]
            call_ensures(TcpStream::peer_addr, (&t,), r) ==> r.call == (NetCall::GetPeerName {
                fd: t@,
            }),
        forall|r: Request<NetCall, Worked>| #[trigger]
            call_ensures(TcpStream::shutdown, (&t, Shutdown::Read), r) ==> r.call == (
            NetCall::Shutdown { fd: t@, how: 0 }),
        forall|r: Request<NetCall, Worked>| #[trigger]
            call_ensures(TcpStream::shutdown, (&t, Shutdown::Write), r) ==> r.call == (
            NetCall::Shutdown { fd: t@, how: 1 }),
        forall|r: Request<NetCall, Worked>| #[trigger]
            call_ensures(TcpStream::shutdown, (&t, Shutdown::Both), r) ==> r.call == (
            NetCall::Shutdown { fd: t@, how: 2 }),
        forall|r: Result<(), Error>| #[trigger]
            call_ensures(TcpStream::set_read_timeout, (&t, dur), r) ==> (r is Ok <==> dur is None),
        forall|r: Result<(), Error>| #[trigger]
            call_ensures(TcpStream::set_write_timeout, (&t, dur), r) ==> (r is Ok <==> dur is None),
        forall|r: Result<Option<Duration>, Error>| #[trigger]
            call_ensures(TcpStream::read_timeout, (&t,), r) ==> r == Ok::<Option<Duration>, Error>(
                None,
            ),
        forall|r: Result<Option<Duration>, Error>| #[trigger]
            call_ensures(TcpStream::write_timeout, (&t,), r) ==> r == Ok::<Option<Duration>, Error>(
                None,
            ),
{
}

/// Of several buffers the first that has any room is received into, with all of its room, and
/// the first that holds anything is sent, all of it; where there is none, nothing is asked of
/// the library.
pub proof fn the_first_useful_buffer_is_used(
    t: TcpStream,
    lens: &[usize],
    bufs: &[Vec<u8>],
    i: int,
    into: Step<ReadInto<NetCall, Transferred>, Result<usize, Error>>,
    from: Step<Request<NetCall, Transferred>, Result<usize, Error>>,
)
    requires
        call_ensures(TcpStream::read_vectored, (&t, lens), into),
        call_ensures(TcpStream::write_vectored, (&t, bufs), from),
    ensures
        0 <= i < lens@.len() && lens@[i] != 0 && (forall|k: int| 0 <= k < i ==> lens@[k] == 0)
            ==> (into matches Step::Ask(read) && read.index == i && read.request.call
            == (NetCall::Recv { fd: t@, len: lens@[i], flags: 0 })),
        (forall|k: int| 0 <= k < lens@.len() ==> lens@[k] == 0) ==> into == Step::<
            ReadInto<NetCall, Transferred>,
            Result<usize, Error>,
        >::Done(Ok(0)),
        0 <= i < bufs@.len() && bufs@[i]@.len() != 0 && (forall|k: int|
            0 <= k < i ==> (#[trigger] bufs@[k])@.len() == 0) ==> (from matches Step::Ask(write)
            && (write.call matches NetCall::Send { fd, data, flags } && fd == t@ && data@
            == bufs@[i]@ && flags == 0)),
        (forall|k: int| 0 <= k < bufs@.len() ==> (#[trigger] bufs@[k])@.len() == 0) ==> from
            == Step::<Request<NetCall, Transferred>, Result<usize, Error>>::Done(Ok(0)),
{
    first_nonzero_is_found(lens@, i);
    first_nonempty_is_found(bufs@, i);
}

/// The options of a connection are written to and read from the same place, under the numbers
/// that the library has for them.
pub proof fn connection_options_have_their_numbers(t: TcpStream, on: bool, linger: Option<Duration>)
    ensures
        forall|r: Request<NetCall, Worked>| #[trigger]
            call_ensures(TcpStream::set_keepalive, (&t, on), r) ==> r.call == (
            NetCall::SetSockOpt {
                fd: t@,
                level: 0xffff,
                name: 8,
                value: OptValue::Int(
                    if on {
                        1
                    } else {
                        0
                    },
                ),
            }),
        forall|r: Request<NetCall, Switch>| #[trigger]
            call_ensures(TcpStream::keepalive, (&t,), r) ==> r.call == (NetCall::GetSockOpt {
                fd: t@,
                level: 0xffff,
                name: 8,
                kind: OptKind::Int,
            }),
        forall|r: Request<NetCall, Worked>| #[trigger]
            call_ensures(TcpStream::set_nodelay, (&t, on), r) ==> r.call == (NetCall::SetSockOpt {
                fd: t@,
                level: 6,
                name: 1,
                value: OptValue::Int(
                    if on {
                        1
                    } else {
                        0
                    },
                ),
            }),
        forall|r: Request<NetCall, Switch>| #[trigger]
            call_ensures(TcpStream::nodelay, (&t,), r) ==> r.call == (NetCall::GetSockOpt {
                fd: t@,
                level: 6,
                name: 1,
                kind: OptKind::Int,
            }),
        forall|r: Request<NetCall, Worked>| #[trigger]
            call_ensures(TcpStream::set_linger, (&t, linger), r) ==> (
            r.call matches NetCall::SetSockOpt { fd, level, name, value } && fd == t@ && level
                == 0xffff && name == 0x80 && match linger {
                Some(d) => value matches OptValue::Linger { onoff, linger: n } && onoff == 1 && (d@
                    / 1_000_000_000 <= i32::MAX ==> n == d@ / 1_000_000_000) && n == (d@
                    / 1_000_000_000) as u64 as i32,
                None => value == (OptValue::Linger { onoff: 0, linger: 0 }),
            }),
        forall|r: Request<NetCall, Lingering>| #[trigger]
            call_ensures(TcpStream::linger, (&t,), r) ==> r.call == (NetCall::GetSockOpt {
                fd: t@,
                level: 0xffff,
                name: 0x80,
                kind: OptKind::Linger,
            }),
{
}

/// A connection that is accepted is the descriptor that was answered, and comes from the address
/// and the port that the library wrote.
pub proof fn a_connection_is_accepted_from_its_address(
    l: TcpListener,
    request: Request<NetCall, Accepted>,
    reply: NetReply,
    out: Result<(TcpStream, SocketAddr), Error>,
    only: bool,
)
    requires
        call_ensures(TcpListener::accept, (&l,), request),
        request.reading.reads(reply, out),
    ensures
        request.call == (NetCall::Accept { fd: l@ }),
        reply.ret <= i32::MAX ==> request.reading.accepts(reply),
        out is Ok <==> reply.ret >= 0,
        out matches Ok((stream, from)) ==> stream@ == reply.ret && (from matches SocketAddr::V4(a)
            && a.ip == reply.from.ip && a.port as int == reply.from.high as int * 256
            + reply.from.low as int),
        out matches Err(e) ==> e == Error::Os(reply.errno),
        forall|r: Result<(), Error>| #[trigger]
            call_ensures(TcpListener::set_only_v6, (&l, only), r) ==> r is Err,
        forall|r: Result<bool, Error>| #[trigger]
            call_ensures(TcpListener::only_v6, (&l,), r) ==> r == Ok::<bool, Error>(false),
{
}

/// The options that all sockets have are asked of this socket, under the numbers that the
/// library has for them, and its descriptor is told, handed over and closed as it is.
pub proof fn a_connections_common_options_are_its_own(
    t: TcpStream,
    fd: i32,
    ttl: u32,
    on: bool,
    of_fd: TcpStream,
)
    requires
        call_ensures(TcpStream::from_descriptor, (fd,), of_fd),
    ensures
        of_fd@ == fd,
        forall|n: i32| #[trigger] call_ensures(TcpStream::as_raw_fd, (&t,), n) ==> n == t@,
        forall|n: i32| #[trigger] call_ensures(TcpStream::into_raw_fd, (t,), n) ==> n == t@,
        forall|call: NetCall| #[trigger]
            call_ensures(TcpStream::close, (t,), call) ==> call == (NetCall::Close { fd: t@ }),
        forall|r: Request<NetCall, Made<TcpStream>>| #[trigger]
            call_ensures(TcpStream::duplicate, (&t,), r) ==> r.call == (NetCall::Dup { fd: t@ }),
        forall|r: Request<NetCall, Told>| #[trigger]
            call_ensures(TcpStream::socket_addr, (&t,), r) ==> r.call == (NetCall::GetSockName {
                fd: t@,
            }),
        forall|r: Request<NetCall, Worked>| #[trigger]
            call_ensures(TcpStream::set_ttl, (&t, ttl), r) ==> r.call == (NetCall::SetSockOpt {
                fd: t@,
                level: 0,
                name: 4,
                value: OptValue::Int(ttl as i32),
            }),
        forall|r: Request<NetCall, Amount>| #[trigger]
            call_ensures(TcpStream::ttl, (&t,), r) ==> r.call == (NetCall::GetSockOpt {
                fd: t@,
                level: 0,
                name: 4,
                kind: OptKind::Int,
            }),
        forall|r: Request<NetCall, Pending>| #[trigger]
            call_ensures(TcpStream::take_error, (&t,), r) ==> r.call == (NetCall::GetSockOpt {
                fd: t@,
                level: 0xffff,
                name: 0x1007,
                kind: OptKind::Int,
            }),
        forall|r: Request<NetCall, Worked>| #[trigger]
            call_ensures(TcpStream::set_nonblocking, (&t, on), r) ==> r.call == (
            NetCall::SetNonblock {
                fd: t@,
                nonblock: if on {
                    1
                } else {
                    0
                },
            }),
        TcpStream::role() == Role::Connection,
        t.descriptor() == t@,
{
}

/// The options that all sockets have are asked of this socket, under the numbers that the
/// library has for them, and its descriptor is told, handed over and closed as it is.
pub proof fn a_listeners_common_options_are_its_own(
    t: TcpListener,
    fd: i32,
    ttl: u32,
    on: bool,
    of_fd: TcpListener,
)
    requires
        call_ensures(TcpListener::from_descriptor, (fd,), of_fd),
    ensures
        of_fd@ == fd,
        forall|n: i32| #[trigger] call_ensures(TcpListener::as_raw_fd, (&t,), n) ==> n == t@,
        forall|n: i32| #[trigger] call_ensures(TcpListener::into_raw_fd, (t,), n) ==> n == t@,
        forall|call: NetCall| #[trigger]
            call_ensures(TcpListener::close, (t,), call) ==> call == (NetCall::Close { fd: t@ }),
        forall|r: Request<NetCall, Made<TcpListener>>| #[trigger]
            call_ensures(TcpListener::duplicate, (&t,), r) ==> r.call == (NetCall::Dup { fd: t@ }),
        forall|r: Request<NetCall, Told>| #[trigger]
            call_ensures(TcpListener::socket_addr, (&t,), r) ==> r.call == (NetCall::GetSockName {
                fd: t@,
            }),
        forall|r: Request<NetCall, Worked>| #[trigger]
            call_ensures(TcpListener::set_ttl, (&t, ttl), r) ==> r.call == (NetCall::SetSockOpt {
                fd: t@,
                level: 0,
                name: 4,
                value: OptValue::Int(ttl as i32),
            }),
        forall|r: Request<NetCall, Amount>| #[trigger]
            call_ensures(TcpListener::ttl, (&t,), r) ==> r.call == (NetCall::GetSockOpt {
                fd: t@,
                level: 0,
                name: 4,
                kind: OptKind::Int,
            }),
        forall|r: Request<NetCall, Pending>| #[trigger]
            call_ensures(TcpListener::take_error, (&t,), r) ==> r.call == (NetCall::GetSockOpt {
                fd: t@,
                level: 0xffff,
                name: 0x1007,
                kind: OptKind::Int,
            }),
        forall|r: Request<NetCall, Worked>| #[trigger]
            call_ensures(TcpListener::set_nonblocking, (&t, on), r) ==> r.call == (
            NetCall::SetNonblock {
                fd: t@,
                nonblock: if on {
                    1
                } else {
                    0
                },
            }),
        TcpListener::role() == Role::Listener,
        t.descriptor() == t@,
{
}

} // verus!
