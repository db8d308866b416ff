//! Threads, over `pthread.library`.
use vstd::prelude::*;

use crate::error::Error;
use crate::op::{runs, runs_before, Decode, Operation, Request, Step};
use crate::time::Duration;

verus! {

/// The stack of a thread of which nothing else was said.
pub const DEFAULT_MIN_STACK_SIZE: usize = 262144;

/// A call about threads.
#[derive(PartialEq, Eq, Debug)]
pub enum ThreadCall {
    /// `aros_thr_spawn`, with whatever the thread is to run.
    Spawn { stack: usize },
    /// `aros_thr_join`.
    Join { id: u32 },
    /// `aros_thr_detach`.
    Detach { id: u32 },
    /// `aros_thr_yield`.
    Yield,
    /// `aros_thr_sleep`.
    Sleep { secs: u32, nsecs: u32 },
}

/// What such a call answers.
#[derive(PartialEq, Eq, Debug)]
pub struct ThreadReply {
    /// The number that the call returned: an error number, or zero.
    pub ret: i32,
    /// The thread that the call started, or zero.
    pub id: u32,
}

/// A thread. Its view is the number that the system knows it by, which it owns: it has to be
/// joined, or [`Thread::close`] has to be asked for when it is given up.
#[derive(PartialEq, Eq, Debug)]
pub struct Thread {
    id: u32,
}

impl View for Thread {
    type V = u32;

    closed spec fn view(&self) -> u32 {
        self.id
    }
}

/// A call that starts a thread. Where it fails, what the thread was to run is still whole.
pub struct Spawned;

impl Decode for Spawned {
    type Reply = ThreadReply;

    type Output = Result<Thread, Error>;

    open spec fn accepts(self, reply: ThreadReply) -> bool {
        true
    }

    open spec fn reads(self, reply: ThreadReply, out: Result<Thread, Error>) -> bool {
        match out {
            Ok(t) => reply.ret == 0 && t@ == reply.id,
            Err(e) => reply.ret != 0 && e == Error::Os(reply.ret),
        }
    }

    fn decode(self, reply: ThreadReply) -> (out: Result<Thread, Error>) {
        if reply.ret == 0 {
            Ok(Thread { id: reply.id })
        } else {
            Err(Error::Os(reply.ret))
        }
    }
}

/// A call that waits for a thread.
pub struct Joined;

impl Decode for Joined {
    type Reply = ThreadReply;

    type Output = Result<(), Error>;

    open spec fn accepts(self, reply: ThreadReply) -> bool {
        true
    }

    open spec fn reads(self, reply: ThreadReply, out: Result<(), Error>) -> bool {
        out == if reply.ret == 0 {
            Ok::<(), Error>(())
        } else {
            Err(Error::Os(reply.ret))
        }
    }

    fn decode(self, reply: ThreadReply) -> (out: Result<(), Error>) {
        if reply.ret == 0 {
            Ok(())
        } else {
            Err(Error::Os(reply.ret))
        }
    }
}

impl Thread {
    /// Starts a thread.
    pub fn new(stack: usize) -> (r: Request<ThreadCall, Spawned>)
        ensures
            r.call == (ThreadCall::Spawn { stack }),
    {
        Request { call: ThreadCall::Spawn { stack }, reading: Spawned }
    }

    /// Waits for the thread to end. That this fails cannot be.
    pub fn join(self) -> (r: Request<ThreadCall, Joined>)
        ensures
            r.call == (ThreadCall::Join { id: self@ }),
    {
        Request { call: ThreadCall::Join { id: self.id }, reading: Joined }
    }

    /// Gives the thread up, which goes on by itself. What the call answers does not matter.
    pub fn close(self) -> (call: ThreadCall)
        ensures
            call == (ThreadCall::Detach { id: self@ }),
    {
        ThreadCall::Detach { id: self.id }
    }
}

/// How many threads run at a time. The system does not tell, so it is one.
pub fn available_parallelism() -> (r: Result<usize, Error>)
    ensures
        r == Ok::<usize, Error>(1),
{
    Ok(1)
}

/// Threads have no number that means anything outside.
pub fn current_os_id() -> (id: Option<u64>)
    ensures
        id is None,
{
    None
}

/// Lets other threads run.
pub fn yield_now() -> (call: ThreadCall)
    ensures
        call is Yield,
{
    ThreadCall::Yield
}

/// The system knows no names of threads, so there is nothing to ask for.
pub fn set_name(name: &[u8]) -> (call: Option<ThreadCall>)
    ensures
        call is None,
{
    None
}

/// Sleeping, in pieces that the system can count.
pub struct Sleep {
    /// The whole seconds that are left.
    pub secs: u64,
    /// The nanoseconds beyond them.
    pub nsecs: u32,
}

/// Sleeps for a time.
pub fn sleep(dur: Duration) -> (op: Sleep)
    ensures
        op.nsecs < 1_000_000_000,
        op.secs * 1_000_000_000 + op.nsecs == dur@,
{
    Sleep { secs: dur.as_secs(), nsecs: dur.subsec_nanos() }
}

impl Operation for Sleep {
    type Call = ThreadCall;

    type Reply = ThreadReply;

    type Output = ();

    /// As much as the system can count; the nanoseconds come last.
    open spec fn asks(self, call: ThreadCall) -> bool {
        call == if self.secs > u32::MAX {
            ThreadCall::Sleep { secs: u32::MAX, nsecs: 0 }
        } else {
            ThreadCall::Sleep { secs: self.secs as u32, nsecs: self.nsecs }
        }
    }

    open spec fn accepts(self, reply: ThreadReply) -> bool {
        true
    }

    open spec fn leads_to(self, reply: ThreadReply, step: Step<Sleep, ()>) -> bool {
        if self.secs > u32::MAX {
            step matches Step::Ask(next) && next.secs == self.secs - u32::MAX && next.nsecs
                == self.nsecs
        } else {
            step is Done
        }
    }

    fn call(&self) -> (call: ThreadCall) {
        if self.secs > u32::MAX as u64 {
            ThreadCall::Sleep { secs: u32::MAX, nsecs: 0 }
        } else {
            ThreadCall::Sleep { secs: self.secs as u32, nsecs: self.nsecs }
        }
    }

    fn resume(self, reply: ThreadReply) -> (step: Step<Sleep, ()>) {
        if self.secs > u32::MAX as u64 {
            Step::Ask(Sleep { secs: self.secs - u32::MAX as u64, nsecs: self.nsecs })
        } else {
            Step::Done(())
        }
    }
}

/// How long a piece of sleep is, in nanoseconds.
pub open spec fn piece(op: Sleep) -> int {
    if op.secs > u32::MAX {
        u32::MAX * 1_000_000_000
    } else {
        op.secs * 1_000_000_000 + op.nsecs
    }
}

/// How long some pieces of sleep are together.
pub open spec fn slept(ops: Seq<Sleep>) -> int
    decreases ops.len(),
{
    if ops.len() == 0 {
        0
    } else {
        slept(ops.drop_last()) + piece(ops.last())
    }
}

/// The pieces of a sleep are together as long as the sleep was to be, neither shorter nor
/// longer, whatever the system answers.
pub proof fn sleep_is_as_long_as_asked(ops: Seq<Sleep>, replies: Seq<ThreadReply>)
    requires
        runs(ops, replies),
        ops.last().secs <= u32::MAX,
    ensures
        slept(ops) == ops[0].secs * 1_000_000_000 + ops[0].nsecs,
{
    slept_so_far(ops, replies);
}

proof fn slept_so_far(ops: Seq<Sleep>, replies: Seq<ThreadReply>)
    requires
        runs(ops, replies),
    ensures
        slept(ops.drop_last()) + ops.last().secs * 1_000_000_000 + ops.last().nsecs == ops[0].secs
            * 1_000_000_000 + ops[0].nsecs,
    decreases replies.len(),
{
    if replies.len() == 0 {
        assert(ops.drop_last() == Seq::<Sleep>::empty());
    } else {
        runs_before(ops, replies);
        slept_so_far(ops.drop_last(), replies.drop_last());
    }
}

/// A thread is started with the stack that was asked for, and is the number that was answered,
/// unless something else than zero came back, which is the error; the thread that is joined or
/// let go is that one.
pub proof fn a_thread_is_its_number(
    stack: usize,
    request: Request<ThreadCall, Spawned>,
    reply: ThreadReply,
    out: Result<Thread, Error>,
)
    requires
        call_ensures(Thread::new, (stack,), request),
        request.reading.reads(reply, out),
    ensures
        request.call == (ThreadCall::Spawn { stack }),
        out is Ok <==> reply.ret == 0,
        out matches Err(e) ==> e == Error::Os(reply.ret),
        out matches Ok(t) ==> {
            &&& t@ == reply.id
            &&& forall|r: Request<ThreadCall, Joined>| #[trigger]
                call_ensures(Thread::join, (t,), r) ==> r.call == (ThreadCall::Join {
                    id: reply.id,
                })
            &&& forall|call: ThreadCall| #[trigger]
                call_ensures(Thread::close, (t,), call) ==> call == (ThreadCall::Detach {
                    id: reply.id,
                })
        },
        forall|r: Result<(), Error>| #[trigger]
            Joined.reads(reply, r) ==> {
                &&& r is Ok <==> reply.ret == 0
                &&& r matches Err(e) ==> e == Error::Os(reply.ret)
            },
{
}

/// A sleep begins with all of the time that was asked for. Each piece of it is as long as what
/// is left, or as many whole seconds as can be counted, and what is left is shorter by exactly
/// that.
pub proof fn a_sleep_is_counted_down(
    dur: Duration,
    first: Sleep,
    op: Sleep,
    call: ThreadCall,
    reply: ThreadReply,
    step: Step<Sleep, ()>,
)
    requires
        call_ensures(sleep, (dur,), first),
        op.asks(call),
        op.leads_to(reply, step),
    ensures
        first.secs * 1_000_000_000 + first.nsecs == dur@,
        first.nsecs < 1_000_000_000,
        op.accepts(reply),
        call matches ThreadCall::Sleep { secs, nsecs } && {
            &&& op.secs <= 0xffff_ffff ==> secs == op.secs && nsecs == op.nsecs && step is Done
            &&& op.secs > 0xffff_ffff ==> secs == 0xffff_ffffu32 && nsecs == 0 && (
            step matches Step::Ask(next) && next.secs == op.secs - secs && next.nsecs == op.nsecs)
        },
{
}

/// One thread runs at a time as far as anybody can tell, threads have no numbers or names outside,
/// and letting others run asks for just that.
pub proof fn little_is_known_of_threads(name: &[u8])
    ensures
        forall|r: Result<usize, Error>| #[trigger]
            call_ensures(available_parallelism, (), r) ==> r == Ok::<usize, Error>(1),
        forall|id: Option<u64>| #[trigger] call_ensures(current_os_id, (), id) ==> id is None,
        forall|call: ThreadCall| #[trigger] call_ensures(yield_now, (), call) ==> call is Yield,
        forall|call: Option<ThreadCall>| #[trigger]
            call_ensures(set_name, (name,), call) ==> call is None,
        DEFAULT_MIN_STACK_SIZE == 256 * 1024,
{
}

} // verus!
