//! Locks and condition variables, over `pthread.library`.
//!
//! What the system keeps of one lives in a buffer of fixed size that starts as zeros and is
//! not moved. A call is made on the buffer of the one that asks for it.
use vstd::prelude::*;

use crate::error::{Error, ErrorKind};
use crate::op::{Decode, Operation, Request, Step};
use crate::time::Duration;

verus! {

/// The length of the buffer of a lock, in words of eight bytes. What the system needs is
/// less.
pub const MUTEX_WORDS: usize = 20;

/// The length of the buffer of a condition variable, in words of eight bytes. What the system
/// needs is less.
pub const COND_WORDS: usize = 22;

/// A call on the buffer of a lock.
#[derive(PartialEq, Eq, Debug)]
pub enum MutexCall {
    /// `aros_mtx_size`.
    Size,
    /// `aros_mtx_init`.
    Init,
    /// `aros_mtx_lock`.
    Lock,
    /// `aros_mtx_trylock`.
    TryLock,
    /// `aros_mtx_unlock`.
    Unlock,
    /// `aros_mtx_destroy`.
    Destroy,
}

/// A call on the buffer of a condition variable, and for a wait on that of a lock.
#[derive(PartialEq, Eq, Debug)]
pub enum CondCall {
    /// `aros_cond_size`.
    Size,
    /// `aros_cond_init`.
    Init,
    /// `aros_cond_signal`.
    Signal,
    /// `aros_cond_broadcast`.
    Broadcast,
    /// `aros_cond_wait`.
    Wait,
    /// `aros_cond_timedwait`.
    TimedWait { secs: u32, nsecs: u32 },
    /// `aros_cond_destroy`.
    Destroy,
}

/// What such a call answers.
#[derive(PartialEq, Eq, Debug)]
pub struct SyncReply {
    /// The number that the call returned: an error number, or zero.
    pub ret: i32,
    /// The size that the call told, in bytes, or zero.
    pub size: usize,
}

/// A call that succeeds on anything that was set up. Whether it did.
pub struct Done;

impl Decode for Done {
    type Reply = SyncReply;

    type Output = bool;

    open spec fn accepts(self, reply: SyncReply) -> bool {
        true
    }

    open spec fn reads(self, reply: SyncReply, out: bool) -> bool {
        out == (reply.ret == 0)
    }

    fn decode(self, reply: SyncReply) -> (out: bool) {
        reply.ret == 0
    }
}

/// A call that takes a lock.
pub struct Locked;

impl Decode for Locked {
    type Reply = SyncReply;

    type Output = Result<(), Error>;

    open spec fn accepts(self, reply: SyncReply) -> bool {
        true
    }

    open spec fn reads(self, reply: SyncReply, out: Result<(), Error>) -> bool {
        out == if reply.ret != 0 {
            Err::<(), Error>(Error::Os(reply.ret))
        } else {
            Ok(())
        }
    }

    fn decode(self, reply: SyncReply) -> (out: Result<(), Error>) {
        if reply.ret != 0 {
            Err(Error::Os(reply.ret))
        } else {
            Ok(())
        }
    }
}

/// A lock. Its view is its buffer.
#[derive(Debug)]
pub struct Mutex {
    inner: [u64; MUTEX_WORDS],
}

impl View for Mutex {
    type V = Seq<u64>;

    closed spec fn view(&self) -> Seq<u64> {
        self.inner@
    }
}

/// Setting a lock up.
#[derive(PartialEq, Eq, Debug)]
pub enum InitMutex {
    /// The size that the system needs is being asked for.
    Sizing,
    /// The buffer is being set up.
    Filling,
}

impl Mutex {
    /// A buffer of zeros.
    pub fn new() -> (m: Mutex)
        ensures
            m@ == Seq::new(MUTEX_WORDS as nat, |i: int| 0u64),
    {
        let m: Mutex = Mutex { inner: [0u64; MUTEX_WORDS] };
        assert(m@ == Seq::new(MUTEX_WORDS as nat, |i: int| 0u64));
        m
    }

    /// Sets the lock up, which is done once.
    pub fn init(&self) -> (op: InitMutex)
        ensures
            op is Sizing,
    {
        InitMutex::Sizing
    }

    /// Takes the lock, and waits for it. That this fails cannot be on a lock that was set up.
    pub fn lock(&self) -> (r: Request<MutexCall, Locked>)
        ensures
            r.call is Lock,
    {
        Request { call: MutexCall::Lock, reading: Locked }
    }

    /// Takes the lock if it is free.
    pub fn try_lock(&self) -> (r: Request<MutexCall, Done>)
        ensures
            r.call is TryLock,
    {
        Request { call: MutexCall::TryLock, reading: Done }
    }

    /// Gives the lock back.
    pub fn unlock(&self) -> (r: Request<MutexCall, Done>)
        ensures
            r.call is Unlock,
    {
        Request { call: MutexCall::Unlock, reading: Done }
    }

    /// Gives the buffer up, whether it was set up or not. What the call answers does not
    /// matter.
    pub fn close(&self) -> (call: MutexCall)
        ensures
            call is Destroy,
    {
        MutexCall::Destroy
    }
}

/// What is said of a lock that does not fit.
pub open spec fn mutex_too_large() -> Error {
    Error::Message(ErrorKind::Uncategorized, "pthread_mutex_t larger than the pal buffer")
}

/// What is said of a lock that cannot be set up.
pub open spec fn mutex_not_set_up() -> Error {
    Error::Message(ErrorKind::Uncategorized, "pthread_mutex_init failed")
}

impl Operation for InitMutex {
    type Call = MutexCall;

    type Reply = SyncReply;

    type Output = Result<(), Error>;

    open spec fn asks(self, call: MutexCall) -> bool {
        match self {
            InitMutex::Sizing => call is Size,
            InitMutex::Filling => call is Init,
        }
    }

    open spec fn accepts(self, reply: SyncReply) -> bool {
        true
    }

    /// Nothing is written to a buffer that is too small.
    open spec fn leads_to(self, reply: SyncReply, step: Step<InitMutex, Result<(), Error>>) -> bool {
        match self {
            InitMutex::Sizing => if reply.size <= MUTEX_WORDS * 8 {
                step == Step::<InitMutex, Result<(), Error>>::Ask(InitMutex::Filling)
            } else {
                step == Step::<InitMutex, Result<(), Error>>::Done(Err(mutex_too_large()))
            },
            InitMutex::Filling => step == Step::<InitMutex, Result<(), Error>>::Done(
                if reply.ret == 0 {
                    Ok(())
                } else {
                    Err(mutex_not_set_up())
                },
            ),
        }
    }

    fn call(&self) -> (call: MutexCall) {
        match self {
            InitMutex::Sizing => MutexCall::Size,
            InitMutex::Filling => MutexCall::Init,
        }
    }

    fn resume(self, reply: SyncReply) -> (step: Step<InitMutex, Result<(), Error>>) {
        match self {
            InitMutex::Sizing => if reply.size <= MUTEX_WORDS * 8 {
                Step::Ask(InitMutex::Filling)
            } else {
                Step::Done(
                    Err(
                        Error::Message(
                            ErrorKind::Uncategorized,
                            "pthread_mutex_t larger than the pal buffer",
                        ),
                    ),
                )
            },
            InitMutex::Filling => if reply.ret == 0 {
                Step::Done(Ok(()))
            } else {
                Step::Done(
                    Err(Error::Message(ErrorKind::Uncategorized, "pthread_mutex_init failed")),
                )
            },
        }
    }
}

/// A condition variable. Its view is its buffer.
#[derive(Debug)]
pub struct Condvar {
    inner: [u64; COND_WORDS],
}

impl View for Condvar {
    type V = Seq<u64>;

    closed spec fn view(&self) -> Seq<u64> {
        self.inner@
    }
}

/// Setting a condition variable up.
#[derive(PartialEq, Eq, Debug)]
pub enum InitCondvar {
    /// The size that the system needs is being asked for.
    Sizing,
    /// The buffer is being set up.
    Filling,
}

/// The whole seconds that a wait is given: as many as were asked for, or as many as can be
/// counted.
pub open spec fn seconds_to_wait(dur: nat) -> nat {
    if dur / 1_000_000_000 <= u32::MAX {
        dur / 1_000_000_000
    } else {
        u32::MAX as nat
    }
}

impl Condvar {
    /// Whether a wait that has timed out has waited as long as it was to. The clock of the
    /// system is not that good, so whoever waits looks at the time again.
    pub const PRECISE_TIMEOUT: bool = false;

    /// A buffer of zeros.
    pub fn new() -> (c: Condvar)
        ensures
            c@ == Seq::new(COND_WORDS as nat, |i: int| 0u64),
    {
        let c: Condvar = Condvar { inner: [0u64; COND_WORDS] };
        assert(c@ == Seq::new(COND_WORDS as nat, |i: int| 0u64));
        c
    }

    /// Sets the condition variable up, which is done once.
    pub fn init(&self) -> (op: InitCondvar)
        ensures
            op is Sizing,
    {
        InitCondvar::Sizing
    }

    /// Wakes one that waits.
    pub fn notify_one(&self) -> (r: Request<CondCall, Done>)
        ensures
            r.call is Signal,
    {
        Request { call: CondCall::Signal, reading: Done }
    }

    /// Wakes all that wait.
    pub fn notify_all(&self) -> (r: Request<CondCall, Done>)
        ensures
            r.call is Broadcast,
    {
        Request { call: CondCall::Broadcast, reading: Done }
    }

    /// Waits, without the lock meanwhile, which this thread has.
    pub fn wait(&self, mutex: &Mutex) -> (r: Request<CondCall, Done>)
        ensures
            r.call is Wait,
    {
        Request { call: CondCall::Wait, reading: Done }
    }

    /// Waits for a time, without the lock meanwhile. Says whether it was woken in time.
    pub fn wait_timeout(&self, mutex: &Mutex, dur: Duration) -> (r: Request<CondCall, Done>)
        ensures
            r.call matches CondCall::TimedWait { secs, nsecs } && secs == seconds_to_wait(dur@)
                && nsecs == dur@ % 1_000_000_000,
    {
        let whole: u64 = dur.as_secs();
        let secs: u32 = if whole <= u32::MAX as u64 {
            whole as u32
        } else {
            u32::MAX
        };
        Request {
            call: CondCall::TimedWait { secs, nsecs: dur.subsec_nanos() },
            reading: Done,
        }
    }

    /// Gives the buffer up, whether it was set up or not. What the call answers does not
    /// matter.
    pub fn close(&self) -> (call: CondCall)
        ensures
            call is Destroy,
    {
        CondCall::Destroy
    }
}

/// What is said of a condition variable that does not fit.
pub open spec fn cond_too_large() -> Error {
    Error::Message(ErrorKind::Uncategorized, "pthread_cond_t larger than the pal buffer")
}

/// What is said of a condition variable that cannot be set up.
pub open spec fn cond_not_set_up() -> Error {
    Error::Message(ErrorKind::Uncategorized, "pthread_cond_init failed")
}

impl Operation for InitCondvar {
    type Call = CondCall;

    type Reply = SyncReply;

    type Output = Result<(), Error>;

    open spec fn asks(self, call: CondCall) -> bool {
        match self {
            InitCondvar::Sizing => call is Size,
            InitCondvar::Filling => call is Init,
        }
    }

    open spec fn accepts(self, reply: SyncReply) -> bool {
        true
    }

    /// Nothing is written to a buffer that is too small.
    open spec fn leads_to(
        self,
        reply: SyncReply,
        step: Step<InitCondvar, Result<(), Error>>,
    ) -> bool {
        match self {
            InitCondvar::Sizing => if reply.size <= COND_WORDS * 8 {
                step == Step::<InitCondvar, Result<(), Error>>::Ask(InitCondvar::Filling)
            } else {
                step == Step::<InitCondvar, Result<(), Error>>::Done(Err(cond_too_large()))
            },
            InitCondvar::Filling => step == Step::<InitCondvar, Result<(), Error>>::Done(
                if reply.ret == 0 {
                    Ok(())
                } else {
                    Err(cond_not_set_up())
                },
            ),
        }
    }

    fn call(&self) -> (call: CondCall) {
        match self {
            InitCondvar::Sizing => CondCall::Size,
            InitCondvar::Filling => CondCall::Init,
        }
    }

    fn resume(self, reply: SyncReply) -> (step: Step<InitCondvar, Result<(), Error>>) {
        match self {
            InitCondvar::Sizing => if reply.size <= COND_WORDS * 8 {
                Step::Ask(InitCondvar::Filling)
            } else {
                Step::Done(
                    Err(
                        Error::Message(
                            ErrorKind::Uncategorized,
                            "pthread_cond_t larger than the pal buffer",
                        ),
                    ),
                )
            },
            InitCondvar::Filling => if reply.ret == 0 {
                Step::Done(Ok(()))
            } else {
                Step::Done(
                    Err(Error::Message(ErrorKind::Uncategorized, "pthread_cond_init failed")),
                )
            },
        }
    }
}

/// A lock and a condition variable are set up only in a buffer that is large enough for what the
/// system needs, and are set up exactly where the system says so.
pub proof fn only_what_fits_is_set_up(
    m: InitMutex,
    c: InitCondvar,
    reply: SyncReply,
    after_m: Step<InitMutex, Result<(), Error>>,
    after_c: Step<InitCondvar, Result<(), Error>>,
)
    requires
        m.leads_to(reply, after_m),
        c.leads_to(reply, after_c),
    ensures
        m.accepts(reply) && c.accepts(reply),
        m is Sizing ==> {
            &&& m.asks(MutexCall::Size)
            &&& reply.size <= 160 ==> (after_m matches Step::Ask(n) && n is Filling)
            &&& reply.size > 160 ==> (after_m matches Step::Done(Err(e)) && e == Error::Message(
                ErrorKind::Uncategorized,
                "pthread_mutex_t larger than the pal buffer",
            ))
        },
        m is Filling ==> {
            &&& m.asks(MutexCall::Init)
            &&& reply.ret == 0 ==> (after_m matches Step::Done(r) && r is Ok)
            &&& reply.ret != 0 ==> (after_m matches Step::Done(Err(e)) && e == Error::Message(
                ErrorKind::Uncategorized,
                "pthread_mutex_init failed",
            ))
        },
        c is Sizing ==> {
            &&& c.asks(CondCall::Size)
            &&& reply.size <= 176 ==> (after_c matches Step::Ask(n) && n is Filling)
            &&& reply.size > 176 ==> (after_c matches Step::Done(Err(e)) && e == Error::Message(
                ErrorKind::Uncategorized,
                "pthread_cond_t larger than the pal buffer",
            ))
        },
        c is Filling ==> {
            &&& c.asks(CondCall::Init)
            &&& reply.ret == 0 ==> (after_c matches Step::Done(r) && r is Ok)
            &&& reply.ret != 0 ==> (after_c matches Step::Done(Err(e)) && e == Error::Message(
                ErrorKind::Uncategorized,
                "pthread_cond_init failed",
            ))
        },
        forall|call: MutexCall| #[trigger]
            m.asks(call) ==> call == (if m is Sizing {
                MutexCall::Size
            } else {
                MutexCall::Init
            }),
        forall|call: CondCall| #[trigger]
            c.asks(call) ==> call == (if c is Sizing {
                CondCall::Size
            } else {
                CondCall::Init
            }),
{
}

/// A lock starts as zeros, and what is done with it is what was asked for: it is taken, taken if
/// it is free, given back, or given up. A call has worked exactly where it answered zero.
pub proof fn a_lock_does_what_it_is_asked(m: Mutex, reply: SyncReply)
    ensures
        forall|new: Mutex| #[trigger]
            call_ensures(Mutex::new, (), new) ==> new@.len() == 20 && forall|i: int|
                0 <= i < 20 ==> new@[i] == 0,
        forall|op: InitMutex| #[trigger] call_ensures(Mutex::init, (&m,), op) ==> op is Sizing,
        forall|r: Request<MutexCall, Locked>| #[trigger]
            call_ensures(Mutex::lock, (&m,), r) ==> r.call is Lock,
        forall|r: Request<MutexCall, Done>| #[trigger]
            call_ensures(Mutex::try_lock, (&m,), r) ==> r.call is TryLock,
        forall|r: Request<MutexCall, Done>| #[trigger]
            call_ensures(Mutex::unlock, (&m,), r) ==> r.call is Unlock,
        forall|call: MutexCall| #[trigger]
            call_ensures(Mutex::close, (&m,), call) ==> call is Destroy,
        forall|out: bool| #[trigger] Done.reads(reply, out) ==> out == (reply.ret == 0),
        forall|out: Result<(), Error>| #[trigger]
            Locked.reads(reply, out) ==> {
                &&& out is Ok <==> reply.ret == 0
                &&& out matches Err(e) ==> e == Error::Os(reply.ret)
            },
{
}

/// A condition variable starts as zeros, and what is done with it is what was asked for: one that
/// waits is woken, or all, or one waits. A wait for a time is as long as was asked for, wherever
/// its seconds can be counted, and as long as can be counted else.
pub proof fn a_condition_does_what_it_is_asked(
    c: Condvar,
    m: Mutex,
    dur: Duration,
    timed: Request<CondCall, Done>,
)
    requires
        call_ensures(Condvar::wait_timeout, (&c, &m, dur), timed),
    ensures
        forall|new: Condvar| #[trigger]
            call_ensures(Condvar::new, (), new) ==> new@.len() == 22 && forall|i: int|
                0 <= i < 22 ==> new@[i] == 0,
        forall|op: InitCondvar| #[trigger] call_ensures(Condvar::init, (&c,), op) ==> op is Sizing,
        forall|r: Request<CondCall, Done>| #[trigger]
            call_ensures(Condvar::notify_one, (&c,), r) ==> r.call is Signal,
        forall|r: Request<CondCall, Done>| #[trigger]
            call_ensures(Condvar::notify_all, (&c,), r) ==> r.call is Broadcast,
        forall|r: Request<CondCall, Done>| #[trigger]
            call_ensures(Condvar::wait, (&c, &m), r) ==> r.call is Wait,
        forall|call: CondCall| #[trigger]
            call_ensures(Condvar::close, (&c,), call) ==> call is Destroy,
        timed.call matches CondCall::TimedWait { secs, nsecs } && {
            &&& nsecs == dur@ % 1_000_000_000
            &&& dur@ / 1_000_000_000 <= 0xffff_ffff ==> secs * 1_000_000_000 + nsecs == dur@
            &&& dur@ / 1_000_000_000 > 0xffff_ffff ==> secs == 0xffff_ffffu32
        },
        !Condvar::PRECISE_TIMEOUT,
{
}

} // verus!
