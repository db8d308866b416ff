//! What all sockets have in common.
use core::marker::PhantomData;
use vstd::prelude::*;

use crate::error::{Error, ErrorKind};
use crate::net::call::{
    Amount, NetCall, NetReply, OptKind, OptValue, Pending, Switch, Told, Transferred, Worked,
    IPPROTO_IP, IP_TTL, SHUT_RD, SHUT_RDWR, SHUT_WR, SOL_SOCKET, SO_ERROR,
};
use crate::op::{Decode, Request};
use crate::text::copy_of;
use crate::time::Duration;

verus! {

/// Which half of a connection is ended.
#[derive(Clone, Copy, PartialEq, Eq, Debug)]
pub enum Shutdown {
    /// Receiving.
    Read,
    /// Sending.
    Write,
    /// Both.
    Both,
}

/// What the library is told of the half that is ended.
pub open spec fn how_of(how: Shutdown) -> i32 {
    match how {
        Shutdown::Read => SHUT_RD,
        Shutdown::Write => SHUT_WR,
        Shutdown::Both => SHUT_RDWR,
    }
}

/// A switch as the library keeps it.
pub open spec fn switch(on: bool) -> i32 {
    if on {
        1
    } else {
        0
    }
}

/// A switch as the library keeps it.
pub fn switch_value(on: bool) -> (v: i32)
    ensures
        v == switch(on),
{
    if on {
        1
    } else {
        0
    }
}

/// A socket. Its view is the descriptor, which it owns: [`Socket::close`] has to be asked for
/// when it is given up.
#[derive(PartialEq, Eq, Debug)]
pub struct Socket(i32);

impl View for Socket {
    type V = i32;

    closed spec fn view(&self) -> i32 {
        self.0
    }
}

impl Socket {
    /// Takes a descriptor over.
    pub fn from_raw(fd: i32) -> (s: Socket)
        ensures
            s@ == fd,
    {
        Socket(fd)
    }

    /// The descriptor, which the socket goes on owning.
    pub fn fd(&self) -> (fd: i32)
        ensures
            fd == self@,
    {
        self.0
    }

    /// Hands the descriptor over, which is then not closed.
    pub fn into_raw(self) -> (fd: i32)
        ensures
            fd == self@,
    {
        self.0
    }

    /// Sets an option.
    pub fn setsockopt(&self, level: i32, name: i32, value: OptValue) -> (r: Request<
        NetCall,
        Worked,
    >)
        ensures
            r.call == (NetCall::SetSockOpt { fd: self@, level, name, value }),
    {
        Request { call: NetCall::SetSockOpt { fd: self.0, level, name, value }, reading: Worked }
    }

    /// Reads an option, in a way that depends on its kind.
    pub fn getsockopt<D>(&self, level: i32, name: i32, kind: OptKind, reading: D) -> (r: Request<
        NetCall,
        D,
    >)
        ensures
            r.call == (NetCall::GetSockOpt { fd: self@, level, name, kind }),
            r.reading == reading,
    {
        Request { call: NetCall::GetSockOpt { fd: self.0, level, name, kind }, reading }
    }

    /// Receives into a buffer of that length.
    pub fn recv_with_flags(&self, len: usize, flags: i32) -> (r: Request<NetCall, Transferred>)
        ensures
            r.call == (NetCall::Recv { fd: self@, len, flags }),
    {
        Request { call: NetCall::Recv { fd: self.0, len, flags }, reading: Transferred }
    }

    /// Sends.
    pub fn send_with_flags(&self, buf: &[u8], flags: i32) -> (r: Request<NetCall, Transferred>)
        ensures
            r.call matches NetCall::Send { fd, data, flags: f } && fd == self@ && data@ == buf@ && f
                == flags,
    {
        Request {
            call: NetCall::Send { fd: self.0, data: copy_of(buf), flags },
            reading: Transferred,
        }
    }

    /// Asks for the address of this end.
    pub fn local_addr(&self) -> (r: Request<NetCall, Told>)
        ensures
            r.call == (NetCall::GetSockName { fd: self@ }),
    {
        Request { call: NetCall::GetSockName { fd: self.0 }, reading: Told }
    }

    /// Asks for the address of the other end.
    pub fn peer_addr(&self) -> (r: Request<NetCall, Told>)
        ensures
            r.call == (NetCall::GetPeerName { fd: self@ }),
    {
        Request { call: NetCall::GetPeerName { fd: self.0 }, reading: Told }
    }

    /// Takes the error that is pending.
    pub fn take_error(&self) -> (r: Request<NetCall, Pending>)
        ensures
            r.call == (NetCall::GetSockOpt {
                fd: self@,
                level: SOL_SOCKET,
                name: SO_ERROR,
                kind: OptKind::Int,
            }),
    {
        self.getsockopt(SOL_SOCKET, SO_ERROR, OptKind::Int, Pending)
    }

    /// Chooses whether calls wait.
    pub fn set_nonblocking(&self, nb: bool) -> (r: Request<NetCall, Worked>)
        ensures
            r.call == (NetCall::SetNonblock { fd: self@, nonblock: switch(nb) }),
    {
        Request {
            call: NetCall::SetNonblock { fd: self.0, nonblock: switch_value(nb) },
            reading: Worked,
        }
    }

    /// Ends one half of a connection, or both.
    pub fn shutdown(&self, how: Shutdown) -> (r: Request<NetCall, Worked>)
        ensures
            r.call == (NetCall::Shutdown { fd: self@, how: how_of(how) }),
    {
        let how: i32 = match how {
            Shutdown::Read => SHUT_RD,
            Shutdown::Write => SHUT_WR,
            Shutdown::Both => SHUT_RDWR,
        };
        Request { call: NetCall::Shutdown { fd: self.0, how }, reading: Worked }
    }

    /// Asks for a second descriptor of the same socket.
    pub fn try_clone<T: Endpoint>(&self) -> (r: Request<NetCall, Made<T>>)
        ensures
            r.call == (NetCall::Dup { fd: self@ }),
    {
        Request { call: NetCall::Dup { fd: self.0 }, reading: Made { kind: PhantomData } }
    }

    /// Chooses how many hops packets live.
    pub fn set_ttl(&self, ttl: u32) -> (r: Request<NetCall, Worked>)
        ensures
            r.call == (NetCall::SetSockOpt {
                fd: self@,
                level: IPPROTO_IP,
                name: IP_TTL,
                value: OptValue::Int(ttl as i32),
            }),
    {
        self.setsockopt(IPPROTO_IP, IP_TTL, OptValue::Int(ttl as i32))
    }

    /// Asks how many hops packets live.
    pub fn ttl(&self) -> (r: Request<NetCall, Amount>)
        ensures
            r.call == (NetCall::GetSockOpt {
                fd: self@,
                level: IPPROTO_IP,
                name: IP_TTL,
                kind: OptKind::Int,
            }),
    {
        self.getsockopt(IPPROTO_IP, IP_TTL, OptKind::Int, Amount)
    }

    /// Turns an option on or off.
    pub fn set_switch(&self, level: i32, name: i32, on: bool) -> (r: Request<NetCall, Worked>)
        ensures
            r.call == (NetCall::SetSockOpt {
                fd: self@,
                level,
                name,
                value: OptValue::Int(switch(on)),
            }),
    {
        self.setsockopt(level, name, OptValue::Int(switch_value(on)))
    }

    /// Asks whether an option is on.
    pub fn get_switch(&self, level: i32, name: i32) -> (r: Request<NetCall, Switch>)
        ensures
            r.call == (NetCall::GetSockOpt { fd: self@, level, name, kind: OptKind::Int }),
    {
        self.getsockopt(level, name, OptKind::Int, Switch)
    }

    /// Gives the socket up. The call answers nothing.
    pub fn close(self) -> (call: NetCall)
        ensures
            call == (NetCall::Close { fd: self@ }),
    {
        NetCall::Close { fd: self.0 }
    }
}

/// What a socket is made into before it is used.
#[derive(Clone, Copy, PartialEq, Eq, Structural, Debug)]
pub enum Role {
    /// It is connected.
    Connection,
    /// It is bound, and connections to it are accepted.
    Listener,
    /// It is bound, and single messages come and go.
    Messages,
}

/// A socket that is used in one way.
pub trait Endpoint: Sized {
    /// The way it is used.
    spec fn role() -> Role;

    /// Its descriptor.
    spec fn descriptor(self) -> i32;

    /// The way it is used.
    fn what() -> (role: Role)
        ensures
            role == Self::role(),
    ;

    /// Uses a socket in this way.
    fn from_socket(socket: Socket) -> (t: Self)
        ensures
            t.descriptor() == socket@,
    ;
}

/// A call that answers the descriptor of a new socket.
pub struct Made<T> {
    pub kind: PhantomData<T>,
}

impl<T: Endpoint> Decode for Made<T> {
    type Reply = NetReply;

    type Output = Result<T, Error>;

    open spec fn accepts(self, reply: NetReply) -> bool {
        reply.ret <= i32::MAX
    }

    open spec fn reads(self, reply: NetReply, out: Result<T, Error>) -> bool {
        match out {
            Ok(t) => reply.ret >= 0 && t.descriptor() == reply.ret,
            Err(e) => reply.ret < 0 && e == Error::Os(reply.errno),
        }
    }

    fn decode(self, reply: NetReply) -> (out: Result<T, Error>) {
        if reply.ret < 0 {
            Err(Error::Os(reply.errno))
        } else {
            Ok(T::from_socket(Socket(reply.ret as i32)))
        }
    }
}

/// What becomes of a timeout: having none is fine, and a wish for one is refused.
pub open spec fn timeout_set(dur: Option<Duration>) -> Result<(), Error> {
    match dur {
        None => Ok(()),
        Some(_) => Err(
            Error::Message(
                ErrorKind::Unsupported,
                "socket timeouts are not yet supported on AROS (bsdsocket blocking is emulated)",
            ),
        ),
    }
}

/// Timeouts are not kept.
pub fn set_timeout(dur: Option<Duration>) -> (r: Result<(), Error>)
    ensures
        r == timeout_set(dur),
{
    match dur {
        None => Ok(()),
        Some(_) => Err(
            Error::Message(
                ErrorKind::Unsupported,
                "socket timeouts are not yet supported on AROS (bsdsocket blocking is emulated)",
            ),
        ),
    }
}

/// A socket is its descriptor, and every call on it is made on that descriptor with all that it
/// was given.
pub proof fn calls_are_made_on_their_socket(
    fd: i32,
    s: Socket,
    level: i32,
    name: i32,
    value: OptValue,
    len: usize,
    flags: i32,
    buf: &[u8],
)
    requires
        call_ensures(Socket::from_raw, (fd,), s),
    ensures
        s@ == fd,
        forall|n: i32| #[trigger] call_ensures(Socket::fd, (&s,), n) ==> n == fd,
        forall|n: i32| #[trigger] call_ensures(Socket::into_raw, (s,), n) ==> n == fd,
        forall|call: NetCall| #[trigger]
            call_ensures(Socket::close, (s,), call) ==> call == (NetCall::Close { fd }),
        forall|r: Request<NetCall, Worked>| #[trigger]
            call_ensures(Socket::setsockopt, (&s, level, name, value), r) ==> r.call
                == (NetCall::SetSockOpt { fd, level, name, value }),
        forall|r: Request<NetCall, Transferred>| #[trigger]
            call_ensures(Socket::recv_with_flags, (&s, len, flags), r) ==> r.call
                == (NetCall::Recv { fd, len, flags }),
        forall|r: Request<NetCall, Transferred>| #[trigger]
            call_ensures(Socket::send_with_flags, (&s, buf, flags), r) ==> (
            r.call matches NetCall::Send { fd: f, data, flags: g } && f == fd && data@ == buf@ && g
                == flags),
        forall|r: Request<NetCall, Told>| #[trigger]
            call_ensures(Socket::local_addr, (&s,), r) ==> r.call == (NetCall::GetSockName { fd }),
        forall|r: Request<NetCall, Told>| #[trigger]
            call_ensures(Socket::peer_addr, (&s,), r) ==> r.call == (NetCall::GetPeerName { fd }),
        forall|r: Request<NetCall, Pending>| #[trigger]
            call_ensures(Socket::take_error, (&s,), r) ==> r.call == (NetCall::GetSockOpt {
                fd,
                level: 0xffff,
                name: 0x1007,
                kind: OptKind::Int,
            }),
{
}

/// Ending the receiving half, the sending half or both of a connection is told by its own
/// number each, and not waiting by one.
pub proof fn halves_are_ended_by_their_numbers(
    s: Socket,
    r: Request<NetCall, Worked>,
    w: Request<NetCall, Worked>,
    b: Request<NetCall, Worked>,
    nb: bool,
    n: Request<NetCall, Worked>,
)
    requires
        call_ensures(Socket::shutdown, (&s, Shutdown::Read), r),
        call_ensures(Socket::shutdown, (&s, Shutdown::Write), w),
        call_ensures(Socket::shutdown, (&s, Shutdown::Both), b),
        call_ensures(Socket::set_nonblocking, (&s, nb), n),
    ensures
        r.call == (NetCall::Shutdown { fd: s@, how: 0 }),
        w.call == (NetCall::Shutdown { fd: s@, how: 1 }),
        b.call == (NetCall::Shutdown { fd: s@, how: 2 }),
        n.call matches NetCall::SetNonblock { fd, nonblock } && fd == s@ && nonblock == (if nb {
            1i32
        } else {
            0
        }),
{
}

/// An option that is switched is read again as it was switched, and the hops that packets live
/// are read again as they were chosen: both are written to and read from the same place, and
/// what is told back is what was set.
pub proof fn options_are_read_back_as_set(
    s: Socket,
    level: i32,
    name: i32,
    on: bool,
    set: Request<NetCall, Worked>,
    get: Request<NetCall, Switch>,
    ttl: u32,
    set_ttl: Request<NetCall, Worked>,
    get_ttl: Request<NetCall, Amount>,
    reply: NetReply,
)
    requires
        call_ensures(Socket::set_switch, (&s, level, name, on), set),
        call_ensures(Socket::get_switch, (&s, level, name), get),
        call_ensures(Socket::set_ttl, (&s, ttl), set_ttl),
        call_ensures(Socket::ttl, (&s,), get_ttl),
        reply.ret >= 0,
    ensures
        get.call == (NetCall::GetSockOpt { fd: s@, level, name, kind: OptKind::Int }),
        set.call matches NetCall::SetSockOpt { fd, level: l, name: n, value } && fd == s@ && l
            == level && n == name && value == OptValue::Int(
            if on {
                1
            } else {
                0
            },
        ) && (reply.value == value ==> forall|out: Result<bool, Error>| #[trigger]
            get.reading.reads(reply, out) ==> out == Ok::<bool, Error>(on)),
        get_ttl.call == (NetCall::GetSockOpt { fd: s@, level: 0, name: 4, kind: OptKind::Int }),
        set_ttl.call matches NetCall::SetSockOpt { fd, level: l, name: n, value } && fd == s@ && l
            == 0 && n == 4 && value is Int && (reply.value == value ==> forall|
            out: Result<u32, Error>,
        | #[trigger] get_ttl.reading.reads(reply, out) ==> out == Ok::<u32, Error>(ttl)),
{
    assert((ttl as i32) as u32 == ttl) by (bit_vector);
}

/// A second descriptor of a socket is asked for by the first, and is the one that is answered;
/// what is below zero is the error that the library then had.
pub proof fn a_new_socket_is_its_descriptor<T: Endpoint>(
    s: Socket,
    request: Request<NetCall, Made<T>>,
    reply: NetReply,
    out: Result<T, Error>,
)
    requires
        call_ensures(Socket::try_clone::<T>, (&s,), request),
        request.reading.reads(reply, out),
    ensures
        request.call == (NetCall::Dup { fd: s@ }),
        out is Ok <==> reply.ret >= 0,
        out matches Ok(t) ==> t.descriptor() == reply.ret,
        out matches Err(e) ==> e == Error::Os(reply.errno),
        reply.ret <= i32::MAX ==> request.reading.accepts(reply),
{
}

/// To have no timeout is granted, and to have one is refused.
pub proof fn timeouts_are_refused(dur: Option<Duration>, r: Result<(), Error>)
    requires
        call_ensures(set_timeout, (dur,), r),
    ensures
        r is Ok <==> dur is None,
        r matches Err(e) ==> e == Error::Message(
            ErrorKind::Unsupported,
            "socket timeouts are not yet supported on AROS (bsdsocket blocking is emulated)",
        ),
{
}

} // verus!
