//! The variables of this process.
use vstd::prelude::*;

use crate::error::{Error, ErrorKind};
use crate::op::{Decode, Request, Step};
use crate::text::{c_string, copy_of, nul_free, CString};

verus! {

/// A call about the variables of this process.
#[derive(PartialEq, Eq, Debug)]
pub enum EnvCall {
    /// `aros_env_enum`.
    Enumerate,
    /// `getenv`.
    GetEnv { name: CString },
    /// `setenv`.
    SetEnv { name: CString, value: CString, overwrite: i32 },
    /// `unsetenv`.
    UnsetEnv { name: CString },
}

/// A variable as the system tells of it: its name, and its value if there is one.
#[derive(PartialEq, Eq, Debug)]
pub struct RawVar {
    pub name: Vec<u8>,
    pub value: Option<Vec<u8>>,
}

/// What such a call answers. What the call does not tell is zero or empty.
#[derive(PartialEq, Eq, Debug)]
pub struct EnvReply {
    /// The number that the call returned.
    pub ret: i64,
    /// The error number that the call left, which counts only where it failed.
    pub errno: i32,
    /// The value that the call found.
    pub value: Option<Vec<u8>>,
    /// The variables that the call told of, in its order.
    pub vars: Vec<RawVar>,
}

/// A variable and its value.
pub type Var = (Vec<u8>, Vec<u8>);

/// What the system tells of a variable: one without a value has an empty one.
pub open spec fn var_of(raw: RawVar) -> (Seq<u8>, Seq<u8>) {
    (
        raw.name@,
        match raw.value {
            Some(v) => v@,
            None => Seq::empty(),
        },
    )
}

/// A call that tells of all variables.
pub struct AllVars;

impl Decode for AllVars {
    type Reply = EnvReply;

    type Output = Vec<Var>;

    open spec fn accepts(self, reply: EnvReply) -> bool {
        true
    }

    /// All of them, in the order they are told of.
    open spec fn reads(self, reply: EnvReply, out: Vec<Var>) -> bool {
        &&& out@.len() == reply.vars@.len()
        &&& forall|i: int|
            0 <= i < out@.len() ==> (#[trigger] out@[i].0@, out@[i].1@) == var_of(reply.vars@[i])
    }

    fn decode(self, reply: EnvReply) -> (out: Vec<Var>) {
        let mut out: Vec<Var> = Vec::new();
        let mut i: usize = 0;
        while i < reply.vars.len()
            invariant
                i == out@.len() <= reply.vars@.len(),
                forall|j: int|
                    0 <= j < out@.len() ==> (#[trigger] out@[j].0@, out@[j].1@) == var_of(
                        reply.vars@[j],
                    ),
            decreases reply.vars@.len() - i,
        {
            let raw: &RawVar = &reply.vars[i];
            let value: Vec<u8> = match &raw.value {
                Some(v) => copy_of(v.as_slice()),
                None => Vec::new(),
            };
            assert(value@ == var_of(*raw).1);
            out.push((copy_of(raw.name.as_slice()), value));
            i = i + 1;
        }
        out
    }
}

/// Asks for the variables of this process and their values.
pub fn env() -> (r: Request<EnvCall, AllVars>)
    ensures
        r.call is Enumerate,
{
    Request { call: EnvCall::Enumerate, reading: AllVars }
}

/// A call that finds a value, or none.
pub struct Found;

impl Decode for Found {
    type Reply = EnvReply;

    type Output = Option<Vec<u8>>;

    open spec fn accepts(self, reply: EnvReply) -> bool {
        true
    }

    open spec fn reads(self, reply: EnvReply, out: Option<Vec<u8>>) -> bool {
        out == reply.value
    }

    fn decode(self, reply: EnvReply) -> (out: Option<Vec<u8>>) {
        reply.value
    }
}

/// Asks for the value of a variable. A name with a NUL is the name of none.
pub fn getenv(k: &[u8]) -> (step: Step<Request<EnvCall, Found>, Option<Vec<u8>>>)
    ensures
        match step {
            Step::Ask(request) => nul_free(k@) && (request.call matches EnvCall::GetEnv { name }
                && name@ == k@),
            Step::Done(value) => !nul_free(k@) && value is None,
        },
{
    match c_string(k) {
        Ok(name) => Step::Ask(Request { call: EnvCall::GetEnv { name }, reading: Found }),
        Err(_) => Step::Done(None),
    }
}

/// A call that answers zero or fails.
pub struct Stored;

impl Decode for Stored {
    type Reply = EnvReply;

    type Output = Result<(), Error>;

    open spec fn accepts(self, reply: EnvReply) -> bool {
        true
    }

    open spec fn reads(self, reply: EnvReply, out: Result<(), Error>) -> bool {
        out == if reply.ret == 0 {
            Ok::<(), Error>(())
        } else {
            Err(Error::Os(reply.errno))
        }
    }

    fn decode(self, reply: EnvReply) -> (out: Result<(), Error>) {
        if reply.ret == 0 {
            Ok(())
        } else {
            Err(Error::Os(reply.errno))
        }
    }
}

/// Gives a variable a value, whether it has one or not.
pub fn setenv(k: &[u8], v: &[u8]) -> (r: Result<Request<EnvCall, Stored>, Error>)
    ensures
        match r {
            Ok(request) => nul_free(k@) && nul_free(v@) && (request.call matches EnvCall::SetEnv {
                name,
                value,
                overwrite,
            } && name@ == k@ && value@ == v@ && overwrite == 1),
            Err(e) => !(nul_free(k@) && nul_free(v@)) && e == Error::Simple(
                ErrorKind::InvalidInput,
            ),
        },
{
    let name: CString = match c_string(k) {
        Ok(name) => name,
        Err(e) => return Err(e),
    };
    match c_string(v) {
        Ok(value) => Ok(
            Request { call: EnvCall::SetEnv { name, value, overwrite: 1 }, reading: Stored },
        ),
        Err(e) => Err(e),
    }
}

/// Removes a variable.
pub fn unsetenv(n: &[u8]) -> (r: Result<Request<EnvCall, Stored>, Error>)
    ensures
        match r {
            Ok(request) => nul_free(n@) && (request.call matches EnvCall::UnsetEnv { name } && name@
                == n@),
            Err(e) => !nul_free(n@) && e == Error::Simple(ErrorKind::InvalidInput),
        },
{
    match c_string(n) {
        Ok(name) => Ok(Request { call: EnvCall::UnsetEnv { name }, reading: Stored }),
        Err(e) => Err(e),
    }
}

/// A variable is set, asked for and removed under its own name, with its own value, whether it had
/// one before or not; what is asked for is what the system finds, and a name with a NUL is the
/// name of none.
pub proof fn a_variable_is_known_by_its_name(
    k: &[u8],
    v: &[u8],
    asked: Step<Request<EnvCall, Found>, Option<Vec<u8>>>,
    stored: Result<Request<EnvCall, Stored>, Error>,
    removed: Result<Request<EnvCall, Stored>, Error>,
)
    requires
        call_ensures(getenv, (k,), asked),
        call_ensures(setenv, (k, v), stored),
        call_ensures(unsetenv, (k,), removed),
    ensures
        asked is Ask <==> nul_free(k@),
        asked matches Step::Ask(r) ==> (r.call matches EnvCall::GetEnv { name } && name@ == k@),
        asked matches Step::Done(value) ==> value is None,
        stored is Ok <==> nul_free(k@) && nul_free(v@),
        stored matches Ok(r) ==> (r.call matches EnvCall::SetEnv { name, value, overwrite } && name@
            == k@ && value@ == v@ && overwrite == 1),
        stored matches Err(e) ==> e == Error::Simple(ErrorKind::InvalidInput),
        removed is Ok <==> nul_free(k@),
        removed matches Ok(r) ==> (r.call matches EnvCall::UnsetEnv { name } && name@ == k@),
        removed matches Err(e) ==> e == Error::Simple(ErrorKind::InvalidInput),
{
}

/// What the system finds under a name is handed on as it is, and a change of a variable has worked
/// exactly where the answer is zero.
pub proof fn what_is_found_is_handed_on(
    reply: EnvReply,
    found: Option<Vec<u8>>,
    stored: Result<(), Error>,
)
    requires
        Found.reads(reply, found),
        Stored.reads(reply, stored),
    ensures
        found == reply.value,
        stored is Ok <==> reply.ret == 0,
        stored matches Err(e) ==> e == Error::Os(reply.errno),
{
}

/// All variables are told of, each once and in the order of the system, with the name and the
/// value that the system told; one without a value has an empty one.
pub proof fn every_variable_is_told_of(
    request: Request<EnvCall, AllVars>,
    reply: EnvReply,
    out: Vec<Var>,
    i: int,
)
    requires
        call_ensures(env, (), request),
        request.reading.reads(reply, out),
    ensures
        request.call is Enumerate,
        out@.len() == reply.vars@.len(),
        0 <= i < out@.len() ==> out@[i].0@ == reply.vars@[i].name@ && (match reply.vars@[i].value {
            Some(v) => out@[i].1@ == v@,
            None => out@[i].1@.len() == 0,
        }),
{
    if 0 <= i < out@.len() {
        assert((out@[i].0@, out@[i].1@) == var_of(reply.vars@[i]));
    }
}

} // verus!
