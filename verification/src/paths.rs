//! The current directory, and the place for temporary files.
use vstd::prelude::*;
use vstd::utf8::encode_utf8;

use crate::error::{Error, ErrorKind};
use crate::op::{runs, runs_before, Decode, Operation, Request, Step};
use crate::path::{absolute_from, absolute_in, absolute_path, is_absolute};
use crate::text::{c_string, copy_of, first, first_is, lossy, nul_free, to_string_lossy, until_nul, CString};

verus! {

/// A call about the current directory.
#[derive(PartialEq, Eq, Debug)]
pub enum PathsCall {
    /// `getcwd` into a buffer of that length.
    GetCwd { len: usize },
    /// `chdir`.
    ChDir { path: CString },
}

/// What such a call answers.
#[derive(PartialEq, Eq, Debug)]
pub struct PathsReply {
    /// The number that the call returned; of a call that returns a pointer, its address.
    pub ret: i64,
    /// The error number that the call left, which counts only where it failed.
    pub errno: i32,
    /// The buffer that the call filled, over its whole length; empty where it fills none.
    pub bytes: Vec<u8>,
}

/// The length of the buffer that is tried first.
pub const FIRST_ROOM: usize = 512;

/// The length of the buffer that is tried last.
pub const LAST_ROOM: usize = 16384;

/// Asking for the current directory, with more room each time.
pub struct GetCwd {
    /// The length of the buffer.
    pub len: usize,
}

/// The text that a buffer holds before its first NUL, as bytes that are sure to be text.
pub open spec fn text_in(bytes: Seq<u8>) -> Seq<u8> {
    encode_utf8(lossy(bytes.take(first(bytes, 0))))
}

/// Asks for the current directory.
pub fn getcwd() -> (op: GetCwd)
    ensures
        op.len == FIRST_ROOM,
{
    GetCwd { len: FIRST_ROOM }
}

impl Operation for GetCwd {
    type Call = PathsCall;

    type Reply = PathsReply;

    type Output = Result<Vec<u8>, Error>;

    open spec fn asks(self, call: PathsCall) -> bool {
        call == (PathsCall::GetCwd { len: self.len })
    }

    open spec fn accepts(self, reply: PathsReply) -> bool {
        true
    }

    open spec fn leads_to(
        self,
        reply: PathsReply,
        step: Step<GetCwd, Result<Vec<u8>, Error>>,
    ) -> bool {
        if reply.ret != 0 {
            step matches Step::Done(Ok(path)) && path@ == text_in(reply.bytes@)
        } else if self.len >= LAST_ROOM {
            step == Step::<GetCwd, Result<Vec<u8>, Error>>::Done(Err(Error::Os(reply.errno)))
        } else {
            step matches Step::Ask(next) && next.len == self.len * 2
        }
    }

    fn call(&self) -> (call: PathsCall) {
        PathsCall::GetCwd { len: self.len }
    }

    fn resume(self, reply: PathsReply) -> (step: Step<GetCwd, Result<Vec<u8>, Error>>) {
        if reply.ret != 0 {
            let text: String = to_string_lossy(until_nul(reply.bytes.as_slice()).as_slice());
            return Step::Done(Ok(copy_of(text.as_str().as_bytes())));
        }
        if self.len >= LAST_ROOM {
            return Step::Done(Err(Error::Os(reply.errno)));
        }
        Step::Ask(GetCwd { len: self.len * 2 })
    }
}

/// The length of the buffer after so many tries.
pub open spec fn room(tries: nat) -> nat
    decreases tries,
{
    if tries == 0 {
        FIRST_ROOM as nat
    } else {
        2 * room((tries - 1) as nat)
    }
}

/// The current directory is asked for at most six times, and never with more room than the
/// last try has.
pub proof fn asking_for_the_directory_ends(ops: Seq<GetCwd>, replies: Seq<PathsReply>)
    requires
        runs(ops, replies),
        ops[0].len == FIRST_ROOM,
    ensures
        ops.len() <= 6,
        ops.last().len == room(replies.len()) <= LAST_ROOM,
    decreases replies.len(),
{
    reveal_with_fuel(room, 7);
    if replies.len() > 0 {
        runs_before(ops, replies);
        asking_for_the_directory_ends(ops.drop_last(), replies.drop_last());
        let n = replies.len();
        assert(n == 1 || n == 2 || n == 3 || n == 4 || n == 5 || n == 6);
    }
}

/// A call that answers zero or fails.
pub struct Changed;

impl Decode for Changed {
    type Reply = PathsReply;

    type Output = Result<(), Error>;

    open spec fn accepts(self, reply: PathsReply) -> bool {
        true
    }

    open spec fn reads(self, reply: PathsReply, out: Result<(), Error>) -> bool {
        out == if reply.ret == 0 {
            Ok::<(), Error>(())
        } else {
            Err(Error::Os(reply.errno))
        }
    }

    fn decode(self, reply: PathsReply) -> (out: Result<(), Error>) {
        if reply.ret == 0 {
            Ok(())
        } else {
            Err(Error::Os(reply.errno))
        }
    }
}

/// Changes the current directory. The path goes to the system as it is.
pub fn chdir(p: &[u8]) -> (r: Result<Request<PathsCall, Changed>, Error>)
    ensures
        match r {
            Ok(request) => nul_free(p@) && (request.call matches PathsCall::ChDir { path } && path@
                == p@),
            Err(e) => !nul_free(p@) && e == Error::Simple(ErrorKind::InvalidInput),
        },
{
    match c_string(p) {
        Ok(path) => Ok(Request { call: PathsCall::ChDir { path }, reading: Changed }),
        Err(e) => Err(e),
    }
}

/// The directory for temporary files.
pub fn temp_dir() -> (path: String)
    ensures
        path@ == "T:"@,
{
    String::from_str("T:")
}

/// Making a path absolute that is not, for which the current directory is asked for.
pub struct Absolute {
    /// The path.
    pub path: Vec<u8>,
    /// The question for the current directory.
    pub op: GetCwd,
}

/// Makes a path absolute without changing what it means.
pub fn absolute(path: &[u8]) -> (step: Step<Absolute, Result<Vec<u8>, Error>>)
    ensures
        match step {
            Step::Done(r) => absolute_path(path@) && (r matches Ok(p) && p@ == path@),
            Step::Ask(a) => !absolute_path(path@) && a.path@ == path@ && a.op.len == FIRST_ROOM,
        },
{
    if is_absolute(path) {
        Step::Done(Ok(copy_of(path)))
    } else {
        Step::Ask(Absolute { path: copy_of(path), op: getcwd() })
    }
}

impl Operation for Absolute {
    type Call = PathsCall;

    type Reply = PathsReply;

    type Output = Result<Vec<u8>, Error>;

    open spec fn asks(self, call: PathsCall) -> bool {
        self.op.asks(call)
    }

    open spec fn accepts(self, reply: PathsReply) -> bool {
        self.op.accepts(reply)
    }

    open spec fn leads_to(
        self,
        reply: PathsReply,
        step: Step<Absolute, Result<Vec<u8>, Error>>,
    ) -> bool {
        if reply.ret != 0 {
            step matches Step::Done(Ok(p)) && p@ == absolute_in(self.path@, text_in(reply.bytes@))
        } else {
            match step {
                Step::Ask(next) => self.op.leads_to(reply, Step::Ask(next.op)) && next.path
                    == self.path,
                Step::Done(Err(e)) => self.op.leads_to(reply, Step::Done(Err(e))),
                _ => false,
            }
        }
    }

    fn call(&self) -> (call: PathsCall) {
        self.op.call()
    }

    fn resume(self, reply: PathsReply) -> (step: Step<Absolute, Result<Vec<u8>, Error>>) {
        let Absolute { path, op } = self;
        match op.resume(reply) {
            Step::Ask(op) => Step::Ask(Absolute { path, op }),
            Step::Done(Ok(current)) => Step::Done(
                Ok(absolute_from(path.as_slice(), current.as_slice())),
            ),
            Step::Done(Err(e)) => Step::Done(Err(e)),
        }
    }
}

/// The current directory is what the system wrote before the NUL in the buffer, as text. Where it
/// did not fit, it is asked for again with twice the room, and after the last try the error is
/// the one that the system left.
pub proof fn the_directory_is_what_was_written(
    op: GetCwd,
    reply: PathsReply,
    step: Step<GetCwd, Result<Vec<u8>, Error>>,
    n: int,
)
    requires
        op.leads_to(reply, step),
    ensures
        op.accepts(reply),
        forall|call: PathsCall| #[trigger]
            op.asks(call) ==> call == (PathsCall::GetCwd { len: op.len }),
        reply.ret != 0 && 0 <= n <= reply.bytes@.len() && (forall|i: int|
            0 <= i < n ==> reply.bytes@[i] != 0) && (n == reply.bytes@.len() || reply.bytes@[n]
            == 0) ==> (step matches Step::Done(Ok(path)) && path@ == encode_utf8(
            lossy(reply.bytes@.take(n)),
        )),
        reply.ret != 0 ==> (step matches Step::Done(Ok(_))),
        reply.ret == 0 && op.len < 16384 ==> (step matches Step::Ask(next) && next.len == 2
            * op.len),
        reply.ret == 0 && op.len >= 16384 ==> step == Step::<GetCwd, Result<Vec<u8>, Error>>::Done(
            Err(Error::Os(reply.errno)),
        ),
        forall|first: GetCwd| #[trigger] call_ensures(getcwd, (), first) ==> first.len == 512,
{
    if 0 <= n <= reply.bytes@.len() && (forall|i: int| 0 <= i < n ==> reply.bytes@[i] != 0) && (n
        == reply.bytes@.len() || reply.bytes@[n] == 0) {
        first_is(reply.bytes@, 0, n);
    }
}

/// The current directory is changed to the path that was given, byte for byte, and has been
/// exactly where the system answers zero.
pub proof fn the_directory_is_changed_as_said(
    p: &[u8],
    r: Result<Request<PathsCall, Changed>, Error>,
    reply: PathsReply,
    out: Result<(), Error>,
)
    requires
        call_ensures(chdir, (p,), r),
        Changed.reads(reply, out),
    ensures
        r is Ok <==> nul_free(p@),
        r matches Ok(request) ==> (request.call matches PathsCall::ChDir { path } && path@ == p@),
        r matches Err(e) ==> e == Error::Simple(ErrorKind::InvalidInput),
        out is Ok <==> reply.ret == 0,
        out matches Err(e) ==> e == Error::Os(reply.errno),
        forall|t: String| #[trigger] call_ensures(temp_dir, (), t) ==> t@ == "T:"@,
{
}

/// A path that is absolute is handed back as it is, and nobody is asked. For any other the
/// current directory is asked for, and the path is made absolute in the directory that is
/// answered.
pub proof fn a_path_is_made_absolute_where_it_is(
    path: &[u8],
    yes: bool,
    begun: Step<Absolute, Result<Vec<u8>, Error>>,
    op: Absolute,
    reply: PathsReply,
    step: Step<Absolute, Result<Vec<u8>, Error>>,
    cwd: Step<GetCwd, Result<Vec<u8>, Error>>,
)
    requires
        call_ensures(is_absolute, (path,), yes),
        call_ensures(absolute, (path,), begun),
        op.leads_to(reply, step),
        op.op.leads_to(reply, cwd),
    ensures
        yes ==> (begun matches Step::Done(Ok(p)) && p@ == path@),
        !yes ==> (begun matches Step::Ask(a) && a.path@ == path@ && a.op.len == 512),
        cwd matches Step::Done(Ok(current)) ==> (step matches Step::Done(Ok(p)) && p@
            == absolute_in(op.path@, current@)),
        cwd matches Step::Done(Err(e)) ==> (step matches Step::Done(Err(why)) && why == e),
        cwd matches Step::Ask(next) ==> (step matches Step::Ask(a) && a.path@ == op.path@ && a.op.len
            == next.len),
        forall|call: PathsCall| #[trigger] op.asks(call) ==> op.op.asks(call),
{
}

} // verus!
