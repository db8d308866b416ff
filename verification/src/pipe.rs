//! Pipes, over the `PIPE:` handler.
//!
//! An endpoint is a handle of the disk operating system and not a file descriptor.
use vstd::prelude::*;

use crate::error::{unsupported, unsupported_platform, Error, ErrorKind};
use crate::io::{
    find_nonempty, find_nonzero, first_nonempty, first_nonempty_is_found, first_nonzero,
    first_nonzero_is_found, ReadInto,
};
use crate::op::{runs, runs_before, Decode, Operation, Request, Step};
use crate::text::{append_range, copy_of};

verus! {

/// A handle of the disk operating system. Zero is none.
pub type PipeHandle = i64;

/// A call to the pipe handler.
#[derive(PartialEq, Eq, Debug)]
pub enum PipeCall {
    /// `aros_pipe_read` into a buffer of that length.
    Read { fh: PipeHandle, len: usize },
    /// `aros_pipe_write`.
    Write { fh: PipeHandle, data: Vec<u8> },
    /// `aros_pipe_set_nonblock`.
    SetNonblock { fh: PipeHandle, enable: i32 },
    /// `aros_pipe_close`.
    Close { fh: PipeHandle },
}

/// What a pipe call answers.
#[derive(PartialEq, Eq, Debug)]
pub struct PipeReply {
    /// The number that the call returned.
    pub ret: i64,
    /// The error number that the call left, which counts only where it failed.
    pub errno: i32,
    /// The buffer that the call filled, over its whole length; empty where it fills none.
    pub bytes: Vec<u8>,
}

/// What a read answers on a pipe that is empty and does not wait.
pub const PIPE_EMPTY: i64 = -2;

/// What the number that a read returned means.
pub open spec fn read_means(reply: PipeReply) -> Result<int, Error> {
    if reply.ret == PIPE_EMPTY {
        Err(Error::Message(ErrorKind::WouldBlock, "pipe is empty"))
    } else if reply.ret < 0 {
        Err(Error::Os(reply.errno))
    } else {
        Ok(reply.ret as int)
    }
}

/// A read, which answers a number of bytes.
pub struct PipeRead;

impl Decode for PipeRead {
    type Reply = PipeReply;

    type Output = Result<usize, Error>;

    open spec fn accepts(self, reply: PipeReply) -> bool {
        reply.ret <= usize::MAX
    }

    open spec fn reads(self, reply: PipeReply, out: Result<usize, Error>) -> bool {
        match out {
            Ok(n) => read_means(reply) == Ok::<int, Error>(n as int),
            Err(e) => read_means(reply) == Err::<int, Error>(e),
        }
    }

    fn decode(self, reply: PipeReply) -> (out: Result<usize, Error>) {
        if reply.ret == PIPE_EMPTY {
            Err(Error::Message(ErrorKind::WouldBlock, "pipe is empty"))
        } else if reply.ret < 0 {
            Err(Error::Os(reply.errno))
        } else {
            Ok(reply.ret as usize)
        }
    }
}

/// A write, which answers a number of bytes.
pub struct PipeWrite;

impl Decode for PipeWrite {
    type Reply = PipeReply;

    type Output = Result<usize, Error>;

    open spec fn accepts(self, reply: PipeReply) -> bool {
        reply.ret <= usize::MAX
    }

    open spec fn reads(self, reply: PipeReply, out: Result<usize, Error>) -> bool {
        match out {
            Ok(n) => reply.ret >= 0 && n == reply.ret,
            Err(e) => reply.ret < 0 && e == Error::Os(reply.errno),
        }
    }

    fn decode(self, reply: PipeReply) -> (out: Result<usize, Error>) {
        if reply.ret < 0 {
            Err(Error::Os(reply.errno))
        } else {
            Ok(reply.ret as usize)
        }
    }
}

/// A change between waiting and not waiting.
pub struct PipeMode;

impl Decode for PipeMode {
    type Reply = PipeReply;

    type Output = Result<(), Error>;

    open spec fn accepts(self, reply: PipeReply) -> bool {
        true
    }

    open spec fn reads(self, reply: PipeReply, out: Result<(), Error>) -> bool {
        out == if reply.ret < 0 {
            Err::<(), Error>(
                Error::Message(ErrorKind::Uncategorized, "cannot set pipe non-blocking"),
            )
        } else {
            Ok(())
        }
    }

    fn decode(self, reply: PipeReply) -> (out: Result<(), Error>) {
        if reply.ret < 0 {
            Err(Error::Message(ErrorKind::Uncategorized, "cannot set pipe non-blocking"))
        } else {
            Ok(())
        }
    }
}

/// An end of a pipe. Its view is the handle, which it owns: [`Pipe::close`] has to be asked
/// for when it is given up.
#[derive(PartialEq, Eq, Debug)]
pub struct Pipe {
    fh: PipeHandle,
}

impl View for Pipe {
    type V = PipeHandle;

    closed spec fn view(&self) -> PipeHandle {
        self.fh
    }
}

/// A pipe without a name, which the handler does not offer.
pub fn pipe() -> (r: Result<(Pipe, Pipe), Error>)
    ensures
        r == Err::<(Pipe, Pipe), Error>(unsupported_platform()),
{
    unsupported()
}

impl Pipe {
    /// Takes over a handle that was opened for a child.
    pub fn from_handle(fh: PipeHandle) -> (p: Pipe)
        ensures
            p@ == fh,
    {
        Pipe { fh }
    }

    /// The handle.
    pub fn handle(&self) -> (fh: PipeHandle)
        ensures
            fh == self@,
    {
        self.fh
    }

    /// Chooses between reads that wait and reads that say that the pipe is empty.
    pub fn set_nonblocking(&self, enable: bool) -> (r: Request<PipeCall, PipeMode>)
        ensures
            r.call == (PipeCall::SetNonblock {
                fh: self@,
                enable: if enable {
                    1
                } else {
                    0
                },
            }),
    {
        let enable: i32 = if enable {
            1
        } else {
            0
        };
        Request { call: PipeCall::SetNonblock { fh: self.fh, enable }, reading: PipeMode }
    }

    /// The handler allows one reader and one writer, so an end cannot be duplicated.
    pub fn try_clone(&self) -> (r: Result<Pipe, Error>)
        ensures
            r == Err::<Pipe, Error>(
                Error::Message(
                    ErrorKind::Unsupported,
                    "a pipe endpoint cannot be duplicated on AROS",
                ),
            ),
    {
        Err(Error::Message(ErrorKind::Unsupported, "a pipe endpoint cannot be duplicated on AROS"))
    }

    /// Reads into a buffer of that length.
    pub fn read(&self, len: usize) -> (r: Request<PipeCall, PipeRead>)
        ensures
            r.call == (PipeCall::Read { fh: self@, len }),
    {
        Request { call: PipeCall::Read { fh: self.fh, len }, reading: PipeRead }
    }

    /// Reads behind what a buffer holds, into all the room it has.
    pub fn read_buf(&self, capacity: usize) -> (r: Request<PipeCall, PipeRead>)
        ensures
            r.call == (PipeCall::Read { fh: self@, len: capacity }),
    {
        self.read(capacity)
    }

    /// Reads into the first of several buffers that is not empty. Where all are, nothing
    /// is read.
    pub fn read_vectored(&self, lens: &[usize]) -> (r: Step<
        ReadInto<PipeCall, PipeRead>,
        Result<usize, Error>,
    >)
        ensures
            match r {
                Step::Ask(into) => {
                    &&& into.index == first_nonzero(lens@) < lens@.len()
                    &&& into.request.call == (PipeCall::Read {
                        fh: self@,
                        len: lens@[into.index as int],
                    })
                },
                Step::Done(out) => first_nonzero(lens@) == lens@.len() && out == Ok::<usize, Error>(0),
            },
    {
        let index: usize = find_nonzero(lens);
        if index < lens.len() {
            Step::Ask(ReadInto { index, request: self.read(lens[index]) })
        } else {
            Step::Done(Ok(0))
        }
    }

    /// Several buffers are no faster than one.
    pub fn is_read_vectored(&self) -> (yes: bool)
        ensures
            !yes,
    {
        false
    }

    /// Reads up to the end and puts everything behind what a buffer holds.
    pub fn read_to_end(&self, buf: Vec<u8>) -> (op: ReadToEnd)
        ensures
            op == (ReadToEnd { fh: self@, start: buf.len(), buf }),
    {
        ReadToEnd { fh: self.fh, start: buf.len(), buf }
    }

    /// Writes.
    pub fn write(&self, buf: &[u8]) -> (r: Request<PipeCall, PipeWrite>)
        ensures
            r.call matches PipeCall::Write { fh, data } && fh == self@ && data@ == buf@,
    {
        Request { call: PipeCall::Write { fh: self.fh, data: copy_of(buf) }, reading: PipeWrite }
    }

    /// Writes the first of several buffers that is not empty. Where all are, nothing is
    /// written.
    pub fn write_vectored(&self, bufs: &[Vec<u8>]) -> (r: Step<
        Request<PipeCall, PipeWrite>,
        Result<usize, Error>,
    >)
        ensures
            match r {
                Step::Ask(request) => first_nonempty(bufs@) < bufs@.len() && (
                request.call matches PipeCall::Write { fh, data } && fh == self@ && data@
                    == bufs@[first_nonempty(bufs@)]@),
                Step::Done(out) => first_nonempty(bufs@) == bufs@.len() && out == Ok::<usize, Error>(0),
            },
    {
        let index: usize = find_nonempty(bufs);
        if index < bufs.len() {
            Step::Ask(self.write(bufs[index].as_slice()))
        } else {
            Step::Done(Ok(0))
        }
    }

    /// Several buffers are no faster than one.
    pub fn is_write_vectored(&self) -> (yes: bool)
        ensures
            !yes,
    {
        false
    }

    /// Gives the end up. There is a call to make unless there was no handle.
    pub fn close(self) -> (call: Option<PipeCall>)
        ensures
            call == if self@ != 0 {
                Some(PipeCall::Close { fh: self@ })
            } else {
                None
            },
    {
        if self.fh != 0 {
            Some(PipeCall::Close { fh: self.fh })
        } else {
            None
        }
    }
}

/// Parts the first of some handles from the others.
pub(crate) fn split_handles(handles: Vec<PipeHandle>) -> (r: Option<(PipeHandle, Vec<PipeHandle>)>)
    ensures
        match r {
            Some((first, rest)) => handles@.len() > 0 && first == handles@[0] && rest@
                == handles@.skip(1),
            None => handles@.len() == 0,
        },
{
    if handles.len() == 0 {
        return None;
    }
    let mut rest: Vec<PipeHandle> = Vec::new();
    let mut i: usize = 1;
    while i < handles.len()
        invariant
            1 <= i <= handles@.len(),
            rest@ == handles@.subrange(1, i as int),
        decreases handles@.len() - i,
    {
        rest.push(handles[i]);
        i = i + 1;
        assert(rest@ == handles@.subrange(1, i as int));
    }
    assert(rest@ == handles@.skip(1));
    Some((handles[0], rest))
}

// ------------------------------------------------------------------------------------
// Reading up to the end
// ------------------------------------------------------------------------------------

/// The length of the buffer that pipes are emptied through.
pub const CHUNK: usize = 4096;

/// Reading a pipe up to its end.
pub struct ReadToEnd {
    /// The handle that is read.
    pub fh: PipeHandle,
    /// How much the buffer held at first.
    pub start: usize,
    /// The buffer.
    pub buf: Vec<u8>,
}

impl Operation for ReadToEnd {
    type Call = PipeCall;

    type Reply = PipeReply;

    /// The buffer, and how much was read into it.
    type Output = (Vec<u8>, Result<usize, Error>);

    open spec fn asks(self, call: PipeCall) -> bool {
        call == (PipeCall::Read { fh: self.fh, len: CHUNK })
    }

    open spec fn accepts(self, reply: PipeReply) -> bool {
        &&& reply.ret <= reply.bytes@.len() <= CHUNK
        &&& self.start <= self.buf@.len()
    }

    /// Nothing read is the end; an interrupted read is made again.
    open spec fn leads_to(
        self,
        reply: PipeReply,
        step: Step<ReadToEnd, (Vec<u8>, Result<usize, Error>)>,
    ) -> bool {
        match read_means(reply) {
            Ok(n) => if n == 0 {
                step matches Step::Done((buf, Ok(total))) && buf == self.buf && total
                    == self.buf@.len() - self.start
            } else {
                step matches Step::Ask(next) && next.fh == self.fh && next.start == self.start
                    && next.buf@ == self.buf@ + reply.bytes@.take(n)
            },
            Err(e) => if e.spec_kind() == ErrorKind::Interrupted {
                step == Step::<ReadToEnd, (Vec<u8>, Result<usize, Error>)>::Ask(self)
            } else {
                step matches Step::Done((buf, Err(why))) && buf == self.buf && why == e
            },
        }
    }

    fn call(&self) -> (call: PipeCall) {
        PipeCall::Read { fh: self.fh, len: CHUNK }
    }

    fn resume(self, reply: PipeReply) -> (step: Step<
        ReadToEnd,
        (Vec<u8>, Result<usize, Error>),
    >) {
        let ReadToEnd { fh, start, mut buf } = self;
        if reply.ret < 0 {
            let e: Error = if reply.ret == PIPE_EMPTY {
                Error::Message(ErrorKind::WouldBlock, "pipe is empty")
            } else {
                Error::Os(reply.errno)
            };
            if e.kind() == ErrorKind::Interrupted {
                return Step::Ask(ReadToEnd { fh, start, buf });
            }
            return Step::Done((buf, Err(e)));
        }
        let n: usize = reply.ret as usize;
        if n == 0 {
            let total: usize = buf.len() - start;
            return Step::Done((buf, Ok(total)));
        }
        append_range(&mut buf, reply.bytes.as_slice(), 0, n);
        Step::Ask(ReadToEnd { fh, start, buf })
    }
}

/// The bytes that the answers to reads brought, in their order.
pub open spec fn received(replies: Seq<PipeReply>) -> Seq<u8>
    decreases replies.len(),
{
    if replies.len() == 0 {
        Seq::empty()
    } else {
        received(replies.drop_last()) + (match read_means(replies.last()) {
            Ok(n) => replies.last().bytes@.take(n),
            Err(_) => Seq::empty(),
        })
    }
}

/// While a pipe is read up to its end, the buffer holds what it held at first and behind
/// that everything that was read, in order; interruptions lose nothing.
pub proof fn reading_to_the_end_keeps_order(ops: Seq<ReadToEnd>, replies: Seq<PipeReply>)
    requires
        runs(ops, replies),
    ensures
        ops.last().fh == ops[0].fh,
        ops.last().start == ops[0].start,
        ops.last().buf@ == ops[0].buf@ + received(replies),
    decreases replies.len(),
{
    if replies.len() == 0 {
        assert(ops[0].buf@ + received(replies) == ops[0].buf@);
    } else {
        runs_before(ops, replies);
        reading_to_the_end_keeps_order(ops.drop_last(), replies.drop_last());
        assert(ops.last().buf@ == ops[0].buf@ + received(replies));
    }
}

/// What a read of a pipe answers is the number of bytes that came; two below zero means that
/// the pipe is empty for now, and anything else below zero is the error that the system left.
pub proof fn a_read_tells_how_much_came(reply: PipeReply, out: Result<usize, Error>)
    requires
        PipeRead.reads(reply, out),
    ensures
        reply.ret <= usize::MAX ==> PipeRead.accepts(reply),
        out is Ok <==> reply.ret >= 0,
        out matches Ok(n) ==> n == reply.ret,
        reply.ret == -2 ==> out == Err::<usize, Error>(
            Error::Message(ErrorKind::WouldBlock, "pipe is empty"),
        ),
        reply.ret < 0 && reply.ret != -2 ==> out == Err::<usize, Error>(Error::Os(reply.errno)),
{
}

/// What a write to a pipe answers is the number of bytes that went, or the error that the
/// system left; a change between waiting and not waiting works unless the answer is below zero.
pub proof fn a_write_tells_how_much_went(
    reply: PipeReply,
    out: Result<usize, Error>,
    mode: Result<(), Error>,
)
    requires
        PipeWrite.reads(reply, out),
        PipeMode.reads(reply, mode),
    ensures
        reply.ret <= usize::MAX ==> PipeWrite.accepts(reply),
        out is Ok <==> reply.ret >= 0,
        out matches Ok(n) ==> n == reply.ret,
        out matches Err(e) ==> e == Error::Os(reply.errno),
        mode is Ok <==> reply.ret >= 0,
        mode matches Err(e) ==> e == Error::Message(
            ErrorKind::Uncategorized,
            "cannot set pipe non-blocking",
        ),
{
}

/// Every call on an end of a pipe is made on its own handle and is the call that its name
/// says, with all the room or all the bytes that it was given; an end without a handle is not
/// closed.
pub proof fn calls_are_made_on_their_handle(
    fh: PipeHandle,
    p: Pipe,
    len: usize,
    buf: &[u8],
    enable: bool,
)
    requires
        call_ensures(Pipe::from_handle, (fh,), p),
    ensures
        forall|h: PipeHandle| #[trigger] call_ensures(Pipe::handle, (&p,), h) ==> h == fh,
        forall|r: Request<PipeCall, PipeRead>| #[trigger]
            call_ensures(Pipe::read, (&p, len), r) ==> r.call == (PipeCall::Read { fh, len }),
        forall|r: Request<PipeCall, PipeRead>| #[trigger]
            call_ensures(Pipe::read_buf, (&p, len), r) ==> r.call == (PipeCall::Read { fh, len }),
        forall|r: Request<PipeCall, PipeWrite>| #[trigger]
            call_ensures(Pipe::write, (&p, buf), r) ==> (r.call matches PipeCall::Write {
                fh: h,
                data,
            } && h == fh && data@ == buf@),
        forall|r: Request<PipeCall, PipeMode>| #[trigger]
            call_ensures(Pipe::set_nonblocking, (&p, enable), r) ==> (
            r.call matches PipeCall::SetNonblock { fh: h, enable: on } && h == fh && on == (
            if enable {
                1i32
            } else {
                0
            })),
        forall|call: Option<PipeCall>| #[trigger]
            call_ensures(Pipe::close, (p,), call) ==> {
                &&& fh == 0 ==> call is None
                &&& fh != 0 ==> call == Some(PipeCall::Close { fh })
            },
        forall|r: Result<Pipe, Error>| #[trigger]
            call_ensures(Pipe::try_clone, (&p,), r) ==> r is Err,
        forall|r: Result<(Pipe, Pipe), Error>| #[trigger] call_ensures(pipe, (), r) ==> r is Err,
{
}

/// Of several buffers the first that has any room is read into, with all of its room, and the
/// first that holds anything is written, all of it; where there is none, nothing is asked of
/// the handler.
pub proof fn the_first_useful_buffer_is_used(
    p: Pipe,
    lens: &[usize],
    bufs: &[Vec<u8>],
    i: int,
    into: Step<ReadInto<PipeCall, PipeRead>, Result<usize, Error>>,
    from: Step<Request<PipeCall, PipeWrite>, Result<usize, Error>>,
)
    requires
        call_ensures(Pipe::read_vectored, (&p, lens), into),
        call_ensures(Pipe::write_vectored, (&p, bufs), from),
    ensures
        0 <= i < lens@.len() && lens@[i] != 0 && (forall|k: int| 0 <= k < i ==> lens@[k] == 0)
            ==> (into matches Step::Ask(read) && read.index == i && read.request.call
            == (PipeCall::Read { fh: p@, len: lens@[i] })),
        (forall|k: int| 0 <= k < lens@.len() ==> lens@[k] == 0) ==> into == Step::<
            ReadInto<PipeCall, PipeRead>,
            Result<usize, Error>,
        >::Done(Ok(0)),
        0 <= i < bufs@.len() && bufs@[i]@.len() != 0 && (forall|k: int|
            0 <= k < i ==> (#[trigger] bufs@[k])@.len() == 0) ==> (from matches Step::Ask(write)
            && (write.call matches PipeCall::Write { fh, data } && fh == p@ && data@ == bufs@[i]@)),
        (forall|k: int| 0 <= k < bufs@.len() ==> (#[trigger] bufs@[k])@.len() == 0) ==> from
            == Step::<Request<PipeCall, PipeWrite>, Result<usize, Error>>::Done(Ok(0)),
{
    first_nonzero_is_found(lens@, i);
    first_nonempty_is_found(bufs@, i);
}

/// A pipe that is read up to its end is read on its own handle behind what the buffer holds.
/// Every byte that comes goes to the end of the buffer, an interrupted read is made again,
/// nothing is the end and makes up the sum, and any other failure ends it with what came so
/// far.
pub proof fn reading_to_the_end_takes_every_byte(
    op: ReadToEnd,
    reply: PipeReply,
    step: Step<ReadToEnd, (Vec<u8>, Result<usize, Error>)>,
)
    requires
        op.leads_to(reply, step),
        reply.ret <= reply.bytes@.len() <= 4096,
        op.start <= op.buf@.len(),
    ensures
        op.accepts(reply),
        forall|call: PipeCall| #[trigger]
            op.asks(call) ==> call == (PipeCall::Read { fh: op.fh, len: 4096 }),
        reply.ret > 0 ==> (step matches Step::Ask(next) && next.fh == op.fh && next.start
            == op.start && next.buf@ == op.buf@ + reply.bytes@.take(reply.ret as int)),
        reply.ret == 0 ==> (step matches Step::Done((buf, Ok(total))) && buf@ == op.buf@ && total
            == op.buf@.len() - op.start),
        reply.ret < 0 && reply.ret != -2 && reply.errno == 4 ==> (step matches Step::Ask(next)
            && next == op),
        reply.ret < 0 && reply.ret != -2 && reply.errno != 4 ==> (step matches Step::Done(
            (buf, Err(e)),
        ) && buf@ == op.buf@ && e == Error::Os(reply.errno)),
        reply.ret == -2 ==> (step matches Step::Done((buf, Err(e))) && buf@ == op.buf@ && e
            == Error::Message(ErrorKind::WouldBlock, "pipe is empty")),
{
}

/// Reading a pipe up to its end begins with nothing read and all that the buffer held.
pub proof fn reading_to_the_end_begins_behind_the_buffer(p: Pipe, buf: Vec<u8>, op: ReadToEnd)
    requires
        call_ensures(Pipe::read_to_end, (&p, buf), op),
    ensures
        op.fh == p@ && op.start == buf@.len() && op.buf@ == buf@,
{
}

} // verus!
