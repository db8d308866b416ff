//! Making sockets ready for use.
use core::marker::PhantomData;
use vstd::prelude::*;

use crate::error::{Error, ErrorKind};
use crate::net::addr::{addr_to_raw, raw_of, v6_unsupported, RawAddr, SocketAddr};
use crate::net::call::{
    NetCall, NetReply, OptValue, AF_INET, SOCK_DGRAM, SOCK_STREAM, SOL_SOCKET, SO_REUSEADDR,
};
use crate::net::socket::{Endpoint, Role, Socket};
use crate::op::{Operation, Step};

verus! {

/// How many connections may wait to be accepted.
pub const BACKLOG: i32 = 128;

/// What is said where there is no address to try.
pub open spec fn no_addresses() -> Error {
    Error::Message(ErrorKind::InvalidInput, "could not resolve to any addresses")
}

/// What is said where the library is not there.
pub open spec fn no_library() -> Error {
    Error::Message(ErrorKind::Uncategorized, "cannot open bsdsocket.library")
}

/// What is being done for an address.
#[derive(Clone, Copy, PartialEq, Eq, Debug)]
pub enum OpenAt {
    /// The library is being opened, unless it is already.
    Library,
    /// A socket is being made.
    Making,
    /// Its address is being made usable again at once, which need not work.
    Reusing { fd: i32 },
    /// It is being connected or bound.
    Joining { fd: i32 },
    /// It is being listened on.
    Listening { fd: i32 },
    /// It is of no use and is being closed.
    Closing { fd: i32 },
}

/// Making a socket ready for use, with the first of several addresses that works.
pub struct Open<T> {
    /// What the socket is going to be.
    pub kind: PhantomData<T>,
    /// The address that is being tried.
    pub to: RawAddr,
    /// What is being done for it.
    pub at: OpenAt,
    /// What went wrong with it.
    pub error: Option<Error>,
    /// The addresses that are tried after it.
    pub rest: Vec<SocketAddr>,
}

/// The kind of socket that a role takes.
pub open spec fn type_of(role: Role) -> i32 {
    if role == Role::Messages {
        SOCK_DGRAM
    } else {
        SOCK_STREAM
    }
}

/// What follows where some addresses are left to try, and what went wrong with the last one.
/// An IPv6 address goes wrong at once. Where none works, the last error is returned.
pub open spec fn tries<T: Endpoint>(
    step: Step<Open<T>, Result<T, Error>>,
    addrs: Seq<SocketAddr>,
    last: Option<Error>,
) -> bool
    decreases addrs.len(),
{
    if addrs.len() == 0 {
        step == Step::<Open<T>, Result<T, Error>>::Done(
            Err(
                match last {
                    Some(e) => e,
                    None => no_addresses(),
                },
            ),
        )
    } else {
        match addrs[0] {
            SocketAddr::V4(a) => step matches Step::Ask(op) && op.to == raw_of(a) && op.at
                is Library && op.error is None && op.rest@ == addrs.skip(1),
            SocketAddr::V6(_) => tries(step, addrs.skip(1), Some(v6_unsupported())),
        }
    }
}

/// The addresses from `from` on.
pub(crate) fn addrs_from(addrs: &Vec<SocketAddr>, from: usize) -> (rest: Vec<SocketAddr>)
    requires
        from <= addrs@.len(),
    ensures
        rest@ == addrs@.skip(from as int),
{
    let mut rest: Vec<SocketAddr> = Vec::new();
    let mut i: usize = from;
    while i < addrs.len()
        invariant
            from <= i <= addrs@.len(),
            rest@ == addrs@.subrange(from as int, i as int),
        decreases addrs@.len() - i,
    {
        rest.push(addrs[i]);
        i = i + 1;
        assert(rest@ == addrs@.subrange(from as int, i as int));
    }
    assert(rest@ == addrs@.skip(from as int));
    rest
}

/// Goes on with the addresses from `from` on.
fn try_from_on<T: Endpoint>(addrs: &Vec<SocketAddr>, from: usize, last: Option<Error>) -> (step:
    Step<Open<T>, Result<T, Error>>)
    requires
        from <= addrs@.len(),
    ensures
        tries(step, addrs@.skip(from as int), last),
    decreases addrs@.len() - from,
{
    let len: usize = addrs.len();
    if from == len {
        return Step::Done(
            Err(
                match last {
                    Some(e) => e,
                    None => Error::Message(
                        ErrorKind::InvalidInput,
                        "could not resolve to any addresses",
                    ),
                },
            ),
        );
    }
    assert(addrs@.skip(from as int).skip(1) == addrs@.skip(from + 1));
    match addr_to_raw(&addrs[from]) {
        Ok(to) => Step::Ask(
            Open {
                kind: PhantomData,
                to,
                at: OpenAt::Library,
                error: None,
                rest: addrs_from(addrs, from + 1),
            },
        ),
        Err(e) => try_from_on(addrs, from + 1, Some(e)),
    }
}

/// Makes a socket ready for use, with the first of some addresses that works.
pub fn open_first<T: Endpoint>(addrs: &Vec<SocketAddr>) -> (step: Step<Open<T>, Result<T, Error>>)
    ensures
        tries(step, addrs@, None),
{
    assert(addrs@.skip(0) == addrs@);
    try_from_on(addrs, 0, None)
}

impl<T: Endpoint> Open<T> {
    /// Whether `step` is the same attempt, further on.
    pub open spec fn moves(self, step: Step<Open<T>, Result<T, Error>>, at: OpenAt) -> bool {
        step matches Step::Ask(next) && next.to == self.to && next.at == at && next.error
            == self.error && next.rest == self.rest
    }

    /// Whether `step` gives this attempt up, whose socket is to be closed first.
    pub open spec fn fails(
        self,
        step: Step<Open<T>, Result<T, Error>>,
        fd: i32,
        error: Error,
    ) -> bool {
        step matches Step::Ask(next) && next.to == self.to && next.at == (OpenAt::Closing { fd })
            && next.error == Some(error) && next.rest == self.rest
    }
}

/// Whether `step` hands a socket over, ready for use.
pub open spec fn succeeds<T: Endpoint>(step: Step<Open<T>, Result<T, Error>>, fd: i32) -> bool {
    step matches Step::Done(Ok(t)) && t.descriptor() == fd
}

impl<T: Endpoint> Operation for Open<T> {
    type Call = NetCall;

    type Reply = NetReply;

    type Output = Result<T, Error>;

    open spec fn asks(self, call: NetCall) -> bool {
        match self.at {
            OpenAt::Library => call is Open,
            OpenAt::Making => call == (NetCall::Socket {
                domain: AF_INET,
                ty: type_of(T::role()),
                proto: 0,
            }),
            OpenAt::Reusing { fd } => call == (NetCall::SetSockOpt {
                fd,
                level: SOL_SOCKET,
                name: SO_REUSEADDR,
                value: OptValue::Int(1),
            }),
            OpenAt::Joining { fd } => call == if T::role() == Role::Connection {
                NetCall::Connect { fd, to: self.to }
            } else {
                NetCall::Bind { fd, to: self.to }
            },
            OpenAt::Listening { fd } => call == (NetCall::Listen { fd, backlog: BACKLOG }),
            OpenAt::Closing { fd } => call == (NetCall::Close { fd }),
        }
    }

    open spec fn accepts(self, reply: NetReply) -> bool {
        self.at is Making ==> reply.ret <= i32::MAX
    }

    open spec fn leads_to(self, reply: NetReply, step: Step<Open<T>, Result<T, Error>>) -> bool {
        match self.at {
            OpenAt::Library => if reply.ret != 0 {
                tries(step, self.rest@, Some(no_library()))
            } else {
                self.moves(step, OpenAt::Making)
            },
            OpenAt::Making => if reply.ret < 0 {
                tries(step, self.rest@, Some(Error::Os(reply.errno)))
            } else if T::role() == Role::Listener {
                self.moves(step, OpenAt::Reusing { fd: reply.ret as i32 })
            } else {
                self.moves(step, OpenAt::Joining { fd: reply.ret as i32 })
            },
            OpenAt::Reusing { fd } => self.moves(step, OpenAt::Joining { fd }),
            OpenAt::Joining { fd } => if reply.ret < 0 {
                self.fails(step, fd, Error::Os(reply.errno))
            } else if T::role() == Role::Listener {
                self.moves(step, OpenAt::Listening { fd })
            } else {
                succeeds(step, fd)
            },
            OpenAt::Listening { fd } => if reply.ret < 0 {
                self.fails(step, fd, Error::Os(reply.errno))
            } else {
                succeeds(step, fd)
            },
            OpenAt::Closing { fd } => tries(step, self.rest@, self.error),
        }
    }

    fn call(&self) -> (call: NetCall) {
        match self.at {
            OpenAt::Library => NetCall::Open,
            OpenAt::Making => {
                let ty: i32 = match T::what() {
                    Role::Messages => SOCK_DGRAM,
                    _ => SOCK_STREAM,
                };
                NetCall::Socket { domain: AF_INET, ty, proto: 0 }
            },
            OpenAt::Reusing { fd } => Socket::from_raw(fd).setsockopt(
                SOL_SOCKET,
                SO_REUSEADDR,
                OptValue::Int(1),
            ).call,
            OpenAt::Joining { fd } => match T::what() {
                Role::Connection => NetCall::Connect { fd, to: self.to },
                _ => NetCall::Bind { fd, to: self.to },
            },
            OpenAt::Listening { fd } => NetCall::Listen { fd, backlog: BACKLOG },
            OpenAt::Closing { fd } => NetCall::Close { fd },
        }
    }

    fn resume(self, reply: NetReply) -> (step: Step<Open<T>, Result<T, Error>>) {
        let listens: bool = match T::what() {
            Role::Listener => true,
            _ => false,
        };
        let Open { kind, to, at, error, rest } = self;
        assert(rest@.skip(0) == rest@);
        match at {
            OpenAt::Library => if reply.ret != 0 {
                try_from_on(
                    &rest,
                    0,
                    Some(
                        Error::Message(ErrorKind::Uncategorized, "cannot open bsdsocket.library"),
                    ),
                )
            } else {
                Step::Ask(Open { kind, to, at: OpenAt::Making, error, rest })
            },
            OpenAt::Making => {
                if reply.ret < 0 {
                    return try_from_on(&rest, 0, Some(Error::Os(reply.errno)));
                }
                let fd: i32 = reply.ret as i32;
                let at: OpenAt = if listens {
                    OpenAt::Reusing { fd }
                } else {
                    OpenAt::Joining { fd }
                };
                Step::Ask(Open { kind, to, at, error, rest })
            },
            OpenAt::Reusing { fd } => Step::Ask(
                Open { kind, to, at: OpenAt::Joining { fd }, error, rest },
            ),
            OpenAt::Joining { fd } => if reply.ret < 0 {
                let error: Option<Error> = Some(Error::Os(reply.errno));
                Step::Ask(Open { kind, to, at: OpenAt::Closing { fd }, error, rest })
            } else if listens {
                Step::Ask(Open { kind, to, at: OpenAt::Listening { fd }, error, rest })
            } else {
                Step::Done(Ok(T::from_socket(Socket::from_raw(fd))))
            },
            OpenAt::Listening { fd } => if reply.ret < 0 {
                let error: Option<Error> = Some(Error::Os(reply.errno));
                Step::Ask(Open { kind, to, at: OpenAt::Closing { fd }, error, rest })
            } else {
                Step::Done(Ok(T::from_socket(Socket::from_raw(fd))))
            },
            OpenAt::Closing { fd: _ } => try_from_on(&rest, 0, error),
        }
    }
}

/// The socket that an attempt has made and has not closed or handed over.
pub open spec fn holds_socket(at: OpenAt) -> Option<i32> {
    match at {
        OpenAt::Reusing { fd } => Some(fd),
        OpenAt::Joining { fd } => Some(fd),
        OpenAt::Listening { fd } => Some(fd),
        OpenAt::Closing { fd } => Some(fd),
        _ => None,
    }
}

proof fn tries_hold_nothing<T: Endpoint>(
    step: Step<Open<T>, Result<T, Error>>,
    addrs: Seq<SocketAddr>,
    last: Option<Error>,
)
    requires
        tries(step, addrs, last),
    ensures
        match step {
            Step::Ask(next) => holds_socket(next.at) is None,
            Step::Done(r) => r is Err,
        },
    decreases addrs.len(),
{
    if addrs.len() > 0 && addrs[0] is V6 {
        tries_hold_nothing(step, addrs.skip(1), Some(v6_unsupported()));
    }
}

/// Every socket that is made is either handed over ready for use, or closed: an attempt parts
/// with its socket in no other way, and an attempt that fails has parted with it.
pub proof fn no_socket_is_left_over<T: Endpoint>(
    op: Open<T>,
    reply: NetReply,
    step: Step<Open<T>, Result<T, Error>>,
)
    requires
        op.accepts(reply),
        op.leads_to(reply, step),
    ensures
        holds_socket(op.at) matches Some(fd) ==> {
            ||| step matches Step::Ask(next) && holds_socket(next.at) == Some(fd)
            ||| step matches Step::Done(Ok(t)) && t.descriptor() == fd
            ||| op.asks(NetCall::Close { fd })
        },
        step matches Step::Done(Ok(t)) ==> holds_socket(op.at) == Some(t.descriptor()) && !(op.at
            is Closing),
{
    if op.at is Library || op.at is Making {
        if !(step matches Step::Ask(next) && op.moves(step, next.at)) {
            let why = if op.at is Library {
                no_library()
            } else {
                Error::Os(reply.errno)
            };
            tries_hold_nothing(step, op.rest@, Some(why));
        }
    } else if op.at is Closing {
        tries_hold_nothing(step, op.rest@, op.error);
    }
}

/// Of some addresses the first that is not IPv6 is tried first, and the others behind it wait
/// for their turn in their order. Where there is none, the last of them is what went wrong, or
/// what went wrong before; without any address there is none to try.
pub proof fn the_first_usable_address_is_tried<T: Endpoint>(
    step: Step<Open<T>, Result<T, Error>>,
    addrs: Seq<SocketAddr>,
    last: Option<Error>,
    i: int,
)
    requires
        tries(step, addrs, last),
    ensures
        0 <= i < addrs.len() && addrs[i] is V4 && (forall|k: int|
            0 <= k < i ==> (#[trigger] addrs[k]) is V6) ==> (step matches Step::Ask(op)
            && op.to.ip == addrs[i]->V4_0.ip && op.to.high as int * 256 + op.to.low as int
            == addrs[i]->V4_0.port && op.at is Library && op.error is None && op.rest@
            == addrs.skip(i + 1)),
        addrs.len() > 0 && (forall|k: int| 0 <= k < addrs.len() ==> (#[trigger] addrs[k]) is V6)
            ==> (step matches Step::Done(Err(e)) && e == Error::Message(
            ErrorKind::Unsupported,
            "IPv6 is not supported by the AROS bsdsocket bridge yet",
        )),
        addrs.len() == 0 && last is Some ==> step == Step::<Open<T>, Result<T, Error>>::Done(
            Err(last->0),
        ),
        addrs.len() == 0 && last is None ==> (step matches Step::Done(Err(e)) && e
            == Error::Message(ErrorKind::InvalidInput, "could not resolve to any addresses")),
    decreases addrs.len(),
{
    if addrs.len() > 0 && addrs[0] is V6 {
        let rest = addrs.skip(1);
        the_first_usable_address_is_tried(step, rest, Some(v6_unsupported()), i - 1);
        if 0 < i < addrs.len() && addrs[i] is V4 && (forall|k: int|
            0 <= k < i ==> (#[trigger] addrs[k]) is V6) {
            assert(rest[i - 1] == addrs[i]);
            assert forall|k: int| 0 <= k < i - 1 implies (#[trigger] rest[k]) is V6 by {
                assert(addrs[k + 1] is V6);
            }
            assert(rest.skip(i) == addrs.skip(i + 1));
        }
        if forall|k: int| 0 <= k < addrs.len() ==> (#[trigger] addrs[k]) is V6 {
            assert forall|k: int| 0 <= k < rest.len() implies (#[trigger] rest[k]) is V6 by {
                assert(addrs[k + 1] is V6);
            }
        }
    }
}

/// What is done for an address is, in this order: opening the library, making a socket of the
/// right kind, for a listener having its address usable again at once, connecting or binding the
/// socket to the very address that is tried, and for a listener listening on it. What cannot be
/// used is closed.
pub proof fn a_socket_is_made_ready_in_order<T: Endpoint>(op: Open<T>, call: NetCall)
    requires
        op.asks(call),
    ensures
        op.at is Library ==> call is Open,
        op.at is Making ==> call == (NetCall::Socket {
            domain: 2,
            ty: if T::role() == Role::Messages {
                2
            } else {
                1
            },
            proto: 0,
        }),
        op.at matches OpenAt::Reusing { fd } ==> call == (NetCall::SetSockOpt {
            fd,
            level: 0xffff,
            name: 4,
            value: OptValue::Int(1),
        }),
        op.at matches OpenAt::Joining { fd } ==> {
            &&& T::role() == Role::Connection ==> call == (NetCall::Connect { fd, to: op.to })
            &&& T::role() != Role::Connection ==> call == (NetCall::Bind { fd, to: op.to })
        },
        op.at matches OpenAt::Listening { fd } ==> call == (NetCall::Listen { fd, backlog: 128 }),
        op.at matches OpenAt::Closing { fd } ==> call == (NetCall::Close { fd }),
{
}

/// A socket that was made ready is the one that was made for the address, and an address that
/// does not work is followed by the next one, with what went wrong kept in case it is the last;
/// a socket that is of no use is closed before that.
pub proof fn what_fails_is_followed_by_the_next<T: Endpoint>(
    op: Open<T>,
    reply: NetReply,
    step: Step<Open<T>, Result<T, Error>>,
)
    requires
        op.leads_to(reply, step),
        reply.ret <= i32::MAX,
    ensures
        op.accepts(reply),
        op.at is Library ==> {
            &&& reply.ret == 0 ==> op.goes_to(step, OpenAt::Making)
            &&& reply.ret != 0 ==> tries(
                step,
                op.rest@,
                Some(Error::Message(ErrorKind::Uncategorized, "cannot open bsdsocket.library")),
            )
        },
        op.at is Making ==> {
            &&& reply.ret >= 0 && T::role() == Role::Listener ==> op.goes_to(
                step,
                OpenAt::Reusing { fd: reply.ret as i32 },
            )
            &&& reply.ret >= 0 && T::role() != Role::Listener ==> op.goes_to(
                step,
                OpenAt::Joining { fd: reply.ret as i32 },
            )
            &&& reply.ret < 0 ==> tries(step, op.rest@, Some(Error::Os(reply.errno)))
        },
        op.at matches OpenAt::Reusing { fd } ==> op.goes_to(step, OpenAt::Joining { fd }),
        op.at matches OpenAt::Joining { fd } ==> {
            &&& reply.ret >= 0 && T::role() == Role::Listener ==> op.goes_to(
                step,
                OpenAt::Listening { fd },
            )
            &&& reply.ret >= 0 && T::role() != Role::Listener ==> (step matches Step::Done(Ok(t))
                && t.descriptor() == fd)
            &&& reply.ret < 0 ==> (step matches Step::Ask(next) && next.to == op.to && next.at
                == (OpenAt::Closing { fd }) && next.error == Some(Error::Os(reply.errno))
                && next.rest@ == op.rest@)
        },
        op.at matches OpenAt::Listening { fd } ==> {
            &&& reply.ret >= 0 ==> (step matches Step::Done(Ok(t)) && t.descriptor() == fd)
            &&& reply.ret < 0 ==> (step matches Step::Ask(next) && next.to == op.to && next.at
                == (OpenAt::Closing { fd }) && next.error == Some(Error::Os(reply.errno))
                && next.rest@ == op.rest@)
        },
        op.at is Closing ==> tries(step, op.rest@, op.error),
{
}

impl<T: Endpoint> Open<T> {
    /// Whether `step` goes on with the same address, and with the same ones behind it.
    pub open spec fn goes_to(self, step: Step<Open<T>, Result<T, Error>>, at: OpenAt) -> bool {
        step matches Step::Ask(next) && next.to == self.to && next.at == at && next.error
            == self.error && next.rest@ == self.rest@
    }
}

/// Making a socket ready begins with all the addresses that were given and nothing gone wrong.
pub proof fn all_addresses_are_tried<T: Endpoint>(
    addrs: Vec<SocketAddr>,
    step: Step<Open<T>, Result<T, Error>>,
)
    requires
        call_ensures(open_first::<T>, (&addrs,), step),
    ensures
        tries(step, addrs@, None),
{
}

} // verus!
