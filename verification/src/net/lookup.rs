//! Names of hosts.
use vstd::prelude::*;
use vstd::utf8::encode_utf8;

use crate::error::{Error, ErrorKind};
use crate::net::addr::{dotted, dotted_is_unique, parse_ipv4, Ipv4Addr, SocketAddr, SocketAddrV4};
use crate::net::call::{NetCall, NetReply};
use crate::net::open::no_library;
use crate::op::{Operation, Step};
use crate::text::{copy_of, nul_free, CString};

verus! {

/// The most addresses that a name is looked up for.
pub const MOST_ADDRESSES: usize = 8;

/// The addresses of a host, handed out one by one. Its view is those that are left.
#[derive(Debug)]
pub struct LookupHost {
    addrs: Vec<SocketAddr>,
    at: usize,
}

impl View for LookupHost {
    type V = Seq<SocketAddr>;

    closed spec fn view(&self) -> Seq<SocketAddr> {
        self.addrs@.skip(self.at as int)
    }
}

impl LookupHost {
    #[verifier::type_invariant]
    spec fn within(self) -> bool {
        self.at <= self.addrs@.len()
    }

    /// Hands these addresses out.
    pub fn new(addrs: Vec<SocketAddr>) -> (l: LookupHost)
        ensures
            l@ == addrs@,
    {
        assert(addrs@.skip(0) == addrs@);
        LookupHost { addrs, at: 0 }
    }

    /// The next address.
    pub fn next(&mut self) -> (r: Option<SocketAddr>)
        ensures
            match r {
                Some(a) => old(self)@.len() > 0 && a == old(self)@[0] && final(self)@ == old(
                    self,
                )@.skip(1),
                None => old(self)@.len() == 0 && final(self)@ == old(self)@,
            },
    {
        proof {
            use_type_invariant(&*self);
        }
        let len: usize = self.addrs.len();
        if self.at < len {
            let a: SocketAddr = self.addrs[self.at];
            self.at = self.at + 1;
            assert(self@ == old(self)@.skip(1));
            Some(a)
        } else {
            None
        }
    }
}

/// Looking a host up.
pub enum Lookup {
    /// The library is being opened, unless it is already.
    Library { host: String, port: u16 },
    /// The name is being looked up.
    Resolving { name: CString, port: u16 },
}

/// Addresses with one port.
pub open spec fn with_port(addrs: Seq<Ipv4Addr>, port: u16) -> Seq<SocketAddr> {
    addrs.map_values(|ip: Ipv4Addr| SocketAddr::V4(SocketAddrV4 { ip, port }))
}

/// What is said of a name with a NUL.
pub open spec fn nul_in_name() -> Error {
    Error::Message(ErrorKind::InvalidInput, "file name contained an unexpected NUL byte")
}

/// Whether `step` hands out exactly these addresses.
pub open spec fn hands_out(
    step: Step<Lookup, Result<LookupHost, Error>>,
    addrs: Seq<SocketAddr>,
) -> bool {
    step matches Step::Done(Ok(l)) && l@ == addrs
}

/// Looks a host up.
pub fn lookup_host(host: &str, port: u16) -> (op: Lookup)
    ensures
        op matches Lookup::Library { host: h, port: p } && h@ == host@ && p == port,
{
    Lookup::Library { host: String::from_str(host), port }
}

impl Operation for Lookup {
    type Call = NetCall;

    type Reply = NetReply;

    type Output = Result<LookupHost, Error>;

    open spec fn asks(self, call: NetCall) -> bool {
        match self {
            Lookup::Library { host, port } => call is Open,
            Lookup::Resolving { name, port } => call matches NetCall::Resolve { host, max } && host@
                == name@ && max == MOST_ADDRESSES,
        }
    }

    open spec fn accepts(self, reply: NetReply) -> bool {
        self is Resolving ==> reply.ret <= reply.addrs@.len() <= MOST_ADDRESSES
    }

    /// An address that is written out needs no looking up.
    open spec fn leads_to(
        self,
        reply: NetReply,
        step: Step<Lookup, Result<LookupHost, Error>>,
    ) -> bool {
        match self {
            Lookup::Library { host, port } => if reply.ret != 0 {
                step == Step::<Lookup, Result<LookupHost, Error>>::Done(Err(no_library()))
            } else if exists|ip: Ipv4Addr| host@ == dotted(ip) {
                hands_out(
                    step,
                    with_port(seq![choose|ip: Ipv4Addr| host@ == dotted(ip)], port),
                )
            } else if nul_free(encode_utf8(host@)) {
                step matches Step::Ask(Lookup::Resolving { name, port: p }) && name@ == encode_utf8(
                    host@,
                ) && p == port
            } else {
                step == Step::<Lookup, Result<LookupHost, Error>>::Done(Err(nul_in_name()))
            },
            Lookup::Resolving { name, port } => if reply.ret < 0 {
                step == Step::<Lookup, Result<LookupHost, Error>>::Done(
                    Err(Error::Message(ErrorKind::Uncategorized, "host lookup failed")),
                )
            } else {
                hands_out(step, with_port(reply.addrs@.take(reply.ret as int), port))
            },
        }
    }

    fn call(&self) -> (call: NetCall) {
        match self {
            Lookup::Library { .. } => NetCall::Open,
            Lookup::Resolving { name, .. } => NetCall::Resolve { host: name.duplicate(), max: 8 },
        }
    }

    fn resume(self, reply: NetReply) -> (step: Step<Lookup, Result<LookupHost, Error>>) {
        match self {
            Lookup::Library { host, port } => {
                if reply.ret != 0 {
                    return Step::Done(
                        Err(
                            Error::Message(
                                ErrorKind::Uncategorized,
                                "cannot open bsdsocket.library",
                            ),
                        ),
                    );
                }
                if let Some(ip) = parse_ipv4(host.as_str()) {
                    let mut addrs: Vec<SocketAddr> = Vec::new();
                    addrs.push(SocketAddr::V4(SocketAddrV4 { ip, port }));
                    proof {
                        dotted_is_unique(ip, choose|i: Ipv4Addr| host@ == dotted(i));
                        assert(addrs@ == with_port(seq![ip], port));
                    }
                    return Step::Done(Ok(LookupHost::new(addrs)));
                }
                match CString::new(copy_of(host.as_str().as_bytes())) {
                    Some(name) => Step::Ask(Lookup::Resolving { name, port }),
                    None => Step::Done(
                        Err(
                            Error::Message(
                                ErrorKind::InvalidInput,
                                "file name contained an unexpected NUL byte",
                            ),
                        ),
                    ),
                }
            },
            Lookup::Resolving { name: _, port } => {
                if reply.ret < 0 {
                    return Step::Done(
                        Err(Error::Message(ErrorKind::Uncategorized, "host lookup failed")),
                    );
                }
                let n: usize = reply.ret as usize;
                let mut addrs: Vec<SocketAddr> = Vec::new();
                let mut i: usize = 0;
                while i < n
                    invariant
                        i <= n <= reply.addrs@.len(),
                        addrs@ == with_port(reply.addrs@.take(i as int), port),
                    decreases n - i,
                {
                    addrs.push(SocketAddr::V4(SocketAddrV4 { ip: reply.addrs[i], port }));
                    i = i + 1;
                    assert(addrs@ == with_port(reply.addrs@.take(i as int), port));
                }
                Step::Done(Ok(LookupHost::new(addrs)))
            },
        }
    }
}

/// Looking up an address that is written out gives that address, and asks nobody for it.
pub proof fn written_addresses_are_taken_as_they_are(
    ip: Ipv4Addr,
    host: String,
    port: u16,
    reply: NetReply,
    step: Step<Lookup, Result<LookupHost, Error>>,
)
    requires
        host@ == dotted(ip),
        reply.ret == 0,
        (Lookup::Library { host, port }).leads_to(reply, step),
    ensures
        hands_out(step, seq![SocketAddr::V4(SocketAddrV4 { ip, port })]),
{
    dotted_is_unique(ip, choose|i: Ipv4Addr| host@ == dotted(i));
    assert(with_port(seq![ip], port) == seq![SocketAddr::V4(SocketAddrV4 { ip, port })]);
}

/// Where the resolver finds so many addresses, the lookup hands out exactly as many, in the
/// order they were found in, each with the port that was asked for: one is one, and none is
/// none. What is below zero is a failure.
pub proof fn every_address_is_handed_out(
    name: CString,
    port: u16,
    reply: NetReply,
    step: Step<Lookup, Result<LookupHost, Error>>,
)
    requires
        (Lookup::Resolving { name, port }).leads_to(reply, step),
        reply.ret <= reply.addrs@.len() <= 8,
    ensures
        (Lookup::Resolving { name, port }).accepts(reply),
        reply.ret >= 0 ==> (step matches Step::Done(Ok(l)) && l@.len() == reply.ret && forall|i: int|
            0 <= i < reply.ret ==> #[trigger] l@[i] == SocketAddr::V4(
                SocketAddrV4 { ip: reply.addrs@[i], port },
            )),
        reply.ret < 0 ==> step == Step::<Lookup, Result<LookupHost, Error>>::Done(
            Err(Error::Message(ErrorKind::Uncategorized, "host lookup failed")),
        ),
        forall|call: NetCall| #[trigger]
            (Lookup::Resolving { name, port }).asks(call) ==> (call matches NetCall::Resolve {
                host,
                max,
            } && host@ == name@ && max == 8),
{
}

/// A host is looked up under its own name and with the port that was asked for, once the library
/// is open; a host that is an address is that address with that port, and nobody is asked.
pub proof fn a_host_is_looked_up_by_its_name(
    host: &str,
    port: u16,
    op: Lookup,
    reply: NetReply,
    step: Step<Lookup, Result<LookupHost, Error>>,
    parsed: Option<Ipv4Addr>,
)
    requires
        call_ensures(lookup_host, (host, port), op),
        call_ensures(parse_ipv4, (host,), parsed),
        op.leads_to(reply, step),
    ensures
        op.accepts(reply),
        forall|call: NetCall| #[trigger] op.asks(call) ==> call is Open,
        reply.ret != 0 ==> step == Step::<Lookup, Result<LookupHost, Error>>::Done(
            Err(Error::Message(ErrorKind::Uncategorized, "cannot open bsdsocket.library")),
        ),
        reply.ret == 0 && parsed is Some ==> (step matches Step::Done(Ok(l)) && l@ == seq![
            SocketAddr::V4(SocketAddrV4 { ip: parsed->0, port }),
        ]),
        reply.ret == 0 && parsed is None && nul_free(encode_utf8(host@)) ==> (step matches Step::Ask(
            Lookup::Resolving { name, port: p },
        ) && name@ == encode_utf8(host@) && p == port),
        reply.ret == 0 && parsed is None && !nul_free(encode_utf8(host@)) ==> step == Step::<
            Lookup,
            Result<LookupHost, Error>,
        >::Done(
            Err(
                Error::Message(
                    ErrorKind::InvalidInput,
                    "file name contained an unexpected NUL byte",
                ),
            ),
        ),
{
    if let Some(ip) = parsed {
        if let Lookup::Library { host: h, port: p } = op {
            if reply.ret == 0 {
                written_addresses_are_taken_as_they_are(ip, h, p, reply, step);
            }
        }
    }
}

/// Addresses are handed out from the first on.
pub proof fn addresses_are_handed_out_in_order(addrs: Vec<SocketAddr>, l: LookupHost)
    requires
        call_ensures(LookupHost::new, (addrs,), l),
    ensures
        l@ == addrs@,
{
}

/// A lookup hands out the address that is next, and has the others left.
pub proof fn the_next_address_is_handed_out(l: &mut LookupHost, r: Option<SocketAddr>)
    requires
        call_ensures(LookupHost::next, (l,), r),
    ensures
        old(l)@.len() == 0 ==> r is None && final(l)@.len() == 0,
        old(l)@.len() > 0 ==> r == Some(old(l)@[0]) && final(l)@ == old(l)@.skip(1),
{
}

} // verus!
