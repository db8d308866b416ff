//! The socket calls of the system, and what they answer.
use vstd::prelude::*;

use crate::error::Error;
use crate::net::addr::{raw_to_v4, v4_of, Ipv4Addr, RawAddr, SocketAddr};
use crate::op::Decode;
use crate::text::CString;
use crate::time::Duration;

verus! {

// The numbers are those of BSD.
/// The family of IPv4 addresses.
pub const AF_INET: i32 = 2;

/// A connection.
pub const SOCK_STREAM: i32 = 1;

/// Single messages.
pub const SOCK_DGRAM: i32 = 2;

/// Leaves what is received where it is.
pub const MSG_PEEK: i32 = 0x2;

/// The level of the socket itself.
pub const SOL_SOCKET: i32 = 0xffff;

/// The error that is pending.
pub const SO_ERROR: i32 = 0x1007;

/// Whether an address may be used again at once.
pub const SO_REUSEADDR: i32 = 0x0004;

/// Whether broadcasts may be sent.
pub const SO_BROADCAST: i32 = 0x0020;

/// Whether an idle connection is kept alive.
pub const SO_KEEPALIVE: i32 = 0x0008;

/// How long closing waits for data to be sent.
pub const SO_LINGER: i32 = 0x0080;

/// The level of IP.
pub const IPPROTO_IP: i32 = 0;

/// How many hops a packet lives.
pub const IP_TTL: i32 = 4;

/// How many hops a multicast packet lives.
pub const IP_MULTICAST_TTL: i32 = 10;

/// Whether multicast packets come back.
pub const IP_MULTICAST_LOOP: i32 = 11;

/// Joins a group.
pub const IP_ADD_MEMBERSHIP: i32 = 12;

/// Leaves a group.
pub const IP_DROP_MEMBERSHIP: i32 = 13;

/// The level of TCP.
pub const IPPROTO_TCP: i32 = 6;

/// Whether data is sent at once.
pub const TCP_NODELAY: i32 = 1;

/// Ends receiving.
pub const SHUT_RD: i32 = 0;

/// Ends sending.
pub const SHUT_WR: i32 = 1;

/// Ends both.
pub const SHUT_RDWR: i32 = 2;

/// The value of an option, each of a size of its own.
#[derive(Clone, Copy, PartialEq, Eq, Debug)]
pub enum OptValue {
    /// A `c_int`.
    Int(i32),
    /// A byte.
    Byte(u8),
    /// A `struct linger`.
    Linger { onoff: i32, linger: i32 },
    /// A `struct ip_mreq`.
    Group { multiaddr: Ipv4Addr, interface: Ipv4Addr },
}

/// The size of the value of an option that is read.
#[derive(Clone, Copy, PartialEq, Eq, Debug)]
pub enum OptKind {
    /// A `c_int`.
    Int,
    /// A byte.
    Byte,
    /// A `struct linger`.
    Linger,
}

/// A call to the socket library.
#[derive(PartialEq, Eq, Debug)]
pub enum NetCall {
    /// `aros_net_open`.
    Open,
    /// `aros_np_socket`.
    Socket { domain: i32, ty: i32, proto: i32 },
    /// `aros_np_connect`.
    Connect { fd: i32, to: RawAddr },
    /// `aros_np_bind`.
    Bind { fd: i32, to: RawAddr },
    /// `aros_np_listen`.
    Listen { fd: i32, backlog: i32 },
    /// `aros_np_accept`.
    Accept { fd: i32 },
    /// `aros_np_send`.
    Send { fd: i32, data: Vec<u8>, flags: i32 },
    /// `aros_np_recv` into a buffer of that length.
    Recv { fd: i32, len: usize, flags: i32 },
    /// `aros_np_sendto`.
    SendTo { fd: i32, data: Vec<u8>, flags: i32, to: RawAddr },
    /// `aros_np_recvfrom` into a buffer of that length.
    RecvFrom { fd: i32, len: usize, flags: i32 },
    /// `aros_np_getsockname`.
    GetSockName { fd: i32 },
    /// `aros_np_getpeername`.
    GetPeerName { fd: i32 },
    /// `aros_np_shutdown`.
    Shutdown { fd: i32, how: i32 },
    /// `aros_np_setsockopt`.
    SetSockOpt { fd: i32, level: i32, name: i32, value: OptValue },
    /// `aros_np_getsockopt`.
    GetSockOpt { fd: i32, level: i32, name: i32, kind: OptKind },
    /// `aros_np_set_nonblock`.
    SetNonblock { fd: i32, nonblock: i32 },
    /// `aros_np_dup`.
    Dup { fd: i32 },
    /// `aros_np_resolve4` with room for that many addresses.
    Resolve { host: CString, max: i32 },
    /// `aros_closesocket`.
    Close { fd: i32 },
}

/// What a socket call answers. What the call does not fill in is zero or empty.
#[derive(PartialEq, Eq, Debug)]
pub struct NetReply {
    /// The number that the call returned.
    pub ret: i64,
    /// The error number that the library then had, which counts only where the call failed.
    pub errno: i32,
    /// The address that the call told.
    pub from: RawAddr,
    /// The value of the option that the call read.
    pub value: OptValue,
    /// The addresses that the call found.
    pub addrs: Vec<Ipv4Addr>,
}

impl NetReply {
    /// The answer of a call that fills nothing in.
    pub fn number(ret: i64, errno: i32) -> (r: NetReply)
        ensures
            r.ret == ret,
            r.errno == errno,
            r.from == (RawAddr { ip: Ipv4Addr { a: 0, b: 0, c: 0, d: 0 }, high: 0, low: 0 }),
            r.value == OptValue::Int(0),
            r.addrs@.len() == 0,
    {
        NetReply {
            ret,
            errno,
            from: RawAddr { ip: Ipv4Addr { a: 0, b: 0, c: 0, d: 0 }, high: 0, low: 0 },
            value: OptValue::Int(0),
            addrs: Vec::new(),
        }
    }
}

/// A call that answers something negative where it fails.
pub struct Worked;

impl Decode for Worked {
    type Reply = NetReply;

    type Output = Result<(), Error>;

    open spec fn accepts(self, reply: NetReply) -> bool {
        true
    }

    open spec fn reads(self, reply: NetReply, out: Result<(), Error>) -> bool {
        out == if reply.ret < 0 {
            Err::<(), Error>(Error::Os(reply.errno))
        } else {
            Ok(())
        }
    }

    fn decode(self, reply: NetReply) -> (out: Result<(), Error>) {
        if reply.ret < 0 {
            Err(Error::Os(reply.errno))
        } else {
            Ok(())
        }
    }
}

/// A call that answers a number of bytes.
pub struct Transferred;

impl Decode for Transferred {
    type Reply = NetReply;

    type Output = Result<usize, Error>;

    open spec fn accepts(self, reply: NetReply) -> bool {
        reply.ret <= usize::MAX
    }

    open spec fn reads(self, reply: NetReply, out: Result<usize, Error>) -> bool {
        match out {
            Ok(n) => reply.ret >= 0 && n == reply.ret,
            Err(e) => reply.ret < 0 && e == Error::Os(reply.errno),
        }
    }

    fn decode(self, reply: NetReply) -> (out: Result<usize, Error>) {
        if reply.ret < 0 {
            Err(Error::Os(reply.errno))
        } else {
            Ok(reply.ret as usize)
        }
    }
}

/// A call that answers a number of bytes and tells whom they came from.
pub struct TransferredFrom;

impl Decode for TransferredFrom {
    type Reply = NetReply;

    type Output = Result<(usize, SocketAddr), Error>;

    open spec fn accepts(self, reply: NetReply) -> bool {
        reply.ret <= usize::MAX
    }

    open spec fn reads(self, reply: NetReply, out: Result<(usize, SocketAddr), Error>) -> bool {
        match out {
            Ok((n, from)) => reply.ret >= 0 && n == reply.ret && from == SocketAddr::V4(
                v4_of(reply.from),
            ),
            Err(e) => reply.ret < 0 && e == Error::Os(reply.errno),
        }
    }

    fn decode(self, reply: NetReply) -> (out: Result<(usize, SocketAddr), Error>) {
        if reply.ret < 0 {
            Err(Error::Os(reply.errno))
        } else {
            Ok((reply.ret as usize, SocketAddr::V4(raw_to_v4(reply.from))))
        }
    }
}

/// A call that tells an address.
pub struct Told;

impl Decode for Told {
    type Reply = NetReply;

    type Output = Result<SocketAddr, Error>;

    open spec fn accepts(self, reply: NetReply) -> bool {
        true
    }

    open spec fn reads(self, reply: NetReply, out: Result<SocketAddr, Error>) -> bool {
        out == if reply.ret < 0 {
            Err::<SocketAddr, Error>(Error::Os(reply.errno))
        } else {
            Ok(SocketAddr::V4(v4_of(reply.from)))
        }
    }

    fn decode(self, reply: NetReply) -> (out: Result<SocketAddr, Error>) {
        if reply.ret < 0 {
            Err(Error::Os(reply.errno))
        } else {
            Ok(SocketAddr::V4(raw_to_v4(reply.from)))
        }
    }
}

/// Reading an option that is on or off.
pub struct Switch;

impl Decode for Switch {
    type Reply = NetReply;

    type Output = Result<bool, Error>;

    open spec fn accepts(self, reply: NetReply) -> bool {
        reply.ret >= 0 ==> reply.value is Int
    }

    open spec fn reads(self, reply: NetReply, out: Result<bool, Error>) -> bool {
        out == if reply.ret < 0 {
            Err::<bool, Error>(Error::Os(reply.errno))
        } else {
            Ok(reply.value->Int_0 != 0)
        }
    }

    fn decode(self, reply: NetReply) -> (out: Result<bool, Error>) {
        if reply.ret < 0 {
            return Err(Error::Os(reply.errno));
        }
        match reply.value {
            OptValue::Int(v) => Ok(v != 0),
            _ => vstd::pervasive::unreached(),
        }
    }
}

/// Reading an option that is on or off and kept in a byte.
pub struct ByteSwitch;

impl Decode for ByteSwitch {
    type Reply = NetReply;

    type Output = Result<bool, Error>;

    open spec fn accepts(self, reply: NetReply) -> bool {
        reply.ret >= 0 ==> reply.value is Byte
    }

    open spec fn reads(self, reply: NetReply, out: Result<bool, Error>) -> bool {
        out == if reply.ret < 0 {
            Err::<bool, Error>(Error::Os(reply.errno))
        } else {
            Ok(reply.value->Byte_0 != 0)
        }
    }

    fn decode(self, reply: NetReply) -> (out: Result<bool, Error>) {
        if reply.ret < 0 {
            return Err(Error::Os(reply.errno));
        }
        match reply.value {
            OptValue::Byte(v) => Ok(v != 0),
            _ => vstd::pervasive::unreached(),
        }
    }
}

/// Reading an option that is a number.
pub struct Amount;

impl Decode for Amount {
    type Reply = NetReply;

    type Output = Result<u32, Error>;

    open spec fn accepts(self, reply: NetReply) -> bool {
        reply.ret >= 0 ==> reply.value is Int
    }

    open spec fn reads(self, reply: NetReply, out: Result<u32, Error>) -> bool {
        out == if reply.ret < 0 {
            Err::<u32, Error>(Error::Os(reply.errno))
        } else {
            Ok(reply.value->Int_0 as u32)
        }
    }

    fn decode(self, reply: NetReply) -> (out: Result<u32, Error>) {
        if reply.ret < 0 {
            return Err(Error::Os(reply.errno));
        }
        match reply.value {
            OptValue::Int(v) => Ok(v as u32),
            _ => vstd::pervasive::unreached(),
        }
    }
}

/// Reading an option that is a number and kept in a byte.
pub struct ByteAmount;

impl Decode for ByteAmount {
    type Reply = NetReply;

    type Output = Result<u32, Error>;

    open spec fn accepts(self, reply: NetReply) -> bool {
        reply.ret >= 0 ==> reply.value is Byte
    }

    open spec fn reads(self, reply: NetReply, out: Result<u32, Error>) -> bool {
        out == if reply.ret < 0 {
            Err::<u32, Error>(Error::Os(reply.errno))
        } else {
            Ok(reply.value->Byte_0 as u32)
        }
    }

    fn decode(self, reply: NetReply) -> (out: Result<u32, Error>) {
        if reply.ret < 0 {
            return Err(Error::Os(reply.errno));
        }
        match reply.value {
            OptValue::Byte(v) => Ok(v as u32),
            _ => vstd::pervasive::unreached(),
        }
    }
}

/// Reading the error that is pending.
pub struct Pending;

impl Decode for Pending {
    type Reply = NetReply;

    type Output = Result<Option<Error>, Error>;

    open spec fn accepts(self, reply: NetReply) -> bool {
        reply.ret >= 0 ==> reply.value is Int
    }

    open spec fn reads(self, reply: NetReply, out: Result<Option<Error>, Error>) -> bool {
        out == if reply.ret < 0 {
            Err::<Option<Error>, Error>(Error::Os(reply.errno))
        } else if reply.value->Int_0 == 0 {
            Ok(None)
        } else {
            Ok(Some(Error::Os(reply.value->Int_0)))
        }
    }

    fn decode(self, reply: NetReply) -> (out: Result<Option<Error>, Error>) {
        if reply.ret < 0 {
            return Err(Error::Os(reply.errno));
        }
        match reply.value {
            OptValue::Int(v) => if v == 0 {
                Ok(None)
            } else {
                Ok(Some(Error::Os(v)))
            },
            _ => vstd::pervasive::unreached(),
        }
    }
}

/// Reading how long closing waits.
pub struct Lingering;

impl Decode for Lingering {
    type Reply = NetReply;

    type Output = Result<Option<Duration>, Error>;

    open spec fn accepts(self, reply: NetReply) -> bool {
        reply.ret >= 0 ==> reply.value is Linger
    }

    open spec fn reads(self, reply: NetReply, out: Result<Option<Duration>, Error>) -> bool {
        if reply.ret < 0 {
            out == Err::<Option<Duration>, Error>(Error::Os(reply.errno))
        } else if reply.value->onoff == 0 {
            out == Ok::<Option<Duration>, Error>(None)
        } else {
            out matches Ok(Some(d)) && d@ == (reply.value->linger as u64) as nat * 1_000_000_000
        }
    }

    fn decode(self, reply: NetReply) -> (out: Result<Option<Duration>, Error>) {
        if reply.ret < 0 {
            return Err(Error::Os(reply.errno));
        }
        match reply.value {
            OptValue::Linger { onoff, linger } => if onoff == 0 {
                Ok(None)
            } else {
                Ok(Some(Duration::from_secs(linger as u64)))
            },
            _ => vstd::pervasive::unreached(),
        }
    }
}

/// A call to the library that answers something below zero has failed with the number that the
/// library then had, and has worked else; a number of bytes is the very number that was
/// answered.
pub proof fn only_what_is_below_zero_fails(
    reply: NetReply,
    worked: Result<(), Error>,
    count: Result<usize, Error>,
)
    requires
        Worked.reads(reply, worked),
        Transferred.reads(reply, count),
    ensures
        Worked.accepts(reply),
        reply.ret <= usize::MAX ==> Transferred.accepts(reply),
        worked is Ok <==> reply.ret >= 0,
        worked matches Err(e) ==> e == Error::Os(reply.errno),
        count is Ok <==> reply.ret >= 0,
        count matches Ok(n) ==> n == reply.ret,
        count matches Err(e) ==> e == Error::Os(reply.errno),
{
}

/// A message and an address that are told come from the address and the port that the library
/// wrote, byte by byte.
pub proof fn what_is_told_is_told_from_its_address(
    reply: NetReply,
    message: Result<(usize, SocketAddr), Error>,
    told: Result<SocketAddr, Error>,
)
    requires
        TransferredFrom.reads(reply, message),
        Told.reads(reply, told),
    ensures
        message is Ok <==> reply.ret >= 0,
        message matches Ok((n, from)) ==> n == reply.ret && (from matches SocketAddr::V4(a) && a.ip
            == reply.from.ip && a.port as int == reply.from.high as int * 256
            + reply.from.low as int),
        message matches Err(e) ==> e == Error::Os(reply.errno),
        told is Ok <==> reply.ret >= 0,
        told matches Ok(from) ==> (from matches SocketAddr::V4(a) && a.ip == reply.from.ip
            && a.port as int == reply.from.high as int * 256 + reply.from.low as int),
        told matches Err(e) ==> e == Error::Os(reply.errno),
{
}

/// An option that is kept as a number is on where the number is not zero and is the number
/// else; a pending error is the number that is kept, and none where that is zero.
pub proof fn options_are_read_as_they_are_kept(
    reply: NetReply,
    on: Result<bool, Error>,
    amount: Result<u32, Error>,
    pending: Result<Option<Error>, Error>,
)
    requires
        reply.value is Int,
        Switch.reads(reply, on),
        Amount.reads(reply, amount),
        Pending.reads(reply, pending),
    ensures
        Switch.accepts(reply) && Amount.accepts(reply) && Pending.accepts(reply),
        reply.ret < 0 ==> on == Err::<bool, Error>(Error::Os(reply.errno)) && amount == Err::<
            u32,
            Error,
        >(Error::Os(reply.errno)) && pending == Err::<Option<Error>, Error>(
            Error::Os(reply.errno),
        ),
        reply.ret >= 0 ==> {
            let n = reply.value->Int_0;
            &&& on == Ok::<bool, Error>(n != 0)
            &&& amount is Ok
            &&& n >= 0 ==> amount->Ok_0 == n
            &&& n < 0 ==> amount->Ok_0 == n + 0x1_0000_0000
            &&& n == 0 ==> pending == Ok::<Option<Error>, Error>(None)
            &&& n != 0 ==> pending == Ok::<Option<Error>, Error>(Some(Error::Os(n)))
        },
{
    let n = reply.value->Int_0;
    assert(n < 0 ==> (n as u32) as int == n + 0x1_0000_0000) by (bit_vector);
    assert(n >= 0 ==> (n as u32) as int == n) by (bit_vector);
}

/// An option that is kept in a byte is on where the byte is not zero and is the byte else.
pub proof fn byte_options_are_read_as_they_are_kept(
    reply: NetReply,
    on: Result<bool, Error>,
    amount: Result<u32, Error>,
)
    requires
        reply.value is Byte,
        ByteSwitch.reads(reply, on),
        ByteAmount.reads(reply, amount),
    ensures
        ByteSwitch.accepts(reply) && ByteAmount.accepts(reply),
        reply.ret < 0 ==> on == Err::<bool, Error>(Error::Os(reply.errno)) && amount == Err::<
            u32,
            Error,
        >(Error::Os(reply.errno)),
        reply.ret >= 0 ==> on == Ok::<bool, Error>(reply.value->Byte_0 != 0) && amount is Ok
            && amount->Ok_0 == reply.value->Byte_0,
{
}

/// How long closing waits is no time where that is switched off, and else the seconds that are
/// kept.
pub proof fn lingering_is_read_in_seconds(reply: NetReply, out: Result<Option<Duration>, Error>)
    requires
        reply.value is Linger,
        Lingering.reads(reply, out),
    ensures
        Lingering.accepts(reply),
        reply.ret < 0 ==> out == Err::<Option<Duration>, Error>(Error::Os(reply.errno)),
        reply.ret >= 0 && reply.value->onoff == 0 ==> out == Ok::<Option<Duration>, Error>(None),
        reply.ret >= 0 && reply.value->onoff != 0 && reply.value->linger >= 0 ==> (
        out matches Ok(Some(d)) && d@ == reply.value->linger * 1_000_000_000),
{
}

/// An answer that fills nothing in is its number and its error number, and zeros.
pub proof fn a_number_fills_nothing_in(ret: i64, errno: i32, r: NetReply)
    requires
        call_ensures(NetReply::number, (ret, errno), r),
    ensures
        r.ret == ret && r.errno == errno && r.addrs@.len() == 0,
        r.from.ip == (Ipv4Addr { a: 0, b: 0, c: 0, d: 0 }) && r.from.high == 0 && r.from.low == 0,
        r.value == OptValue::Int(0),
{
}

} // verus!
