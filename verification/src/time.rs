//! Clocks, and the times read from them.
use vstd::prelude::*;

use crate::error::Error;
use crate::op::{Decode, Request};

verus! {

/// Nanoseconds in a second.
pub const NANOS_PER_SEC: u32 = 1_000_000_000;

/// The longest time that can be told, in nanoseconds.
pub open spec fn longest() -> nat {
    (u64::MAX * 1_000_000_000 + 999_999_999) as nat
}

/// The time `a` and `b` together, where it can be told.
pub open spec fn sum(a: nat, b: nat) -> Option<nat> {
    if a + b <= longest() {
        Some(a + b)
    } else {
        None
    }
}

/// The time that `b` is short of `a`, where it is.
pub open spec fn difference(a: nat, b: nat) -> Option<nat> {
    if b <= a {
        Some((a - b) as nat)
    } else {
        None
    }
}

/// A length of time. Its view is that length in nanoseconds.
#[derive(Clone, Copy, PartialEq, Eq, PartialOrd, Ord, Hash, Debug)]
pub struct Duration {
    secs: u64,
    nanos: u32,
}

impl View for Duration {
    type V = nat;

    closed spec fn view(&self) -> nat {
        (self.secs * 1_000_000_000 + self.nanos) as nat
    }
}

impl Duration {
    #[verifier::type_invariant]
    spec fn nanos_below_a_second(self) -> bool {
        self.nanos < 1_000_000_000
    }

    /// The length of so many seconds and nanoseconds.
    pub fn new(secs: u64, nanos: u32) -> (d: Duration)
        requires
            secs + nanos / 1_000_000_000 <= u64::MAX,
        ensures
            d@ == secs * 1_000_000_000 + nanos,
    {
        Duration { secs: secs + (nanos / NANOS_PER_SEC) as u64, nanos: nanos % NANOS_PER_SEC }
    }

    /// No time at all.
    pub fn zero() -> (d: Duration)
        ensures
            d@ == 0,
    {
        Duration { secs: 0, nanos: 0 }
    }

    /// The longest time that can be told.
    pub fn longest() -> (d: Duration)
        ensures
            d@ == longest(),
    {
        Duration { secs: u64::MAX, nanos: 999_999_999 }
    }

    /// So many whole seconds.
    pub fn from_secs(secs: u64) -> (d: Duration)
        ensures
            d@ == secs * 1_000_000_000,
    {
        Duration { secs, nanos: 0 }
    }

    /// The whole seconds.
    pub fn as_secs(&self) -> (secs: u64)
        ensures
            secs == self@ / 1_000_000_000,
    {
        proof {
            use_type_invariant(self);
        }
        self.secs
    }

    /// The nanoseconds beyond the whole seconds.
    pub fn subsec_nanos(&self) -> (nanos: u32)
        ensures
            nanos == self@ % 1_000_000_000,
            nanos < 1_000_000_000,
    {
        proof {
            use_type_invariant(self);
        }
        self.nanos
    }

    /// This length and another together.
    pub fn checked_add(self, other: Duration) -> (r: Option<Duration>)
        ensures
            match r {
                Some(d) => sum(self@, other@) == Some(d@),
                None => sum(self@, other@) is None,
            },
    {
        proof {
            use_type_invariant(&self);
            use_type_invariant(&other);
        }
        match self.secs.checked_add(other.secs) {
            None => None,
            Some(secs) => {
                let nanos: u32 = self.nanos + other.nanos;
                if nanos < NANOS_PER_SEC {
                    Some(Duration { secs, nanos })
                } else {
                    match secs.checked_add(1) {
                        None => None,
                        Some(secs) => Some(Duration { secs, nanos: nanos - NANOS_PER_SEC }),
                    }
                }
            },
        }
    }

    /// What is left of this length without another.
    pub fn checked_sub(self, other: Duration) -> (r: Option<Duration>)
        ensures
            match r {
                Some(d) => difference(self@, other@) == Some(d@),
                None => difference(self@, other@) is None,
            },
    {
        proof {
            use_type_invariant(&self);
            use_type_invariant(&other);
        }
        match self.secs.checked_sub(other.secs) {
            None => None,
            Some(secs) => if self.nanos >= other.nanos {
                Some(Duration { secs, nanos: self.nanos - other.nanos })
            } else {
                match secs.checked_sub(1) {
                    None => None,
                    Some(secs) => Some(
                        Duration { secs, nanos: self.nanos + NANOS_PER_SEC - other.nanos },
                    ),
                }
            },
        }
    }
}

/// What was added can be taken away again, and what was taken away can be added.
pub proof fn sum_and_difference_undo_each_other(a: nat, b: nat)
    ensures
        sum(a, b) matches Some(c) ==> difference(c, b) == Some(a) && difference(c, a) == Some(b),
        a <= longest() ==> (difference(a, b) matches Some(c) ==> sum(c, b) == Some(a)),
{
}

// ------------------------------------------------------------------------------------
// Reading a clock
// ------------------------------------------------------------------------------------

/// What a clock shows.
#[allow(non_camel_case_types)]
#[derive(Clone, Copy, PartialEq, Eq, Debug)]
pub struct timespec {
    /// Seconds.
    pub tv_sec: i32,
    /// Nanoseconds.
    pub tv_nsec: i64,
}

/// The clock that only goes forward.
pub const CLOCK_MONOTONIC: i32 = 0;

/// The clock that shows the time of day.
pub const CLOCK_REALTIME: i32 = 2;

/// The call `clock_gettime`.
#[derive(Clone, Copy, PartialEq, Eq, Debug)]
pub struct ClockCall {
    /// Which clock.
    pub clock: i32,
}

/// What `clock_gettime` answers.
#[derive(Clone, Copy, PartialEq, Eq, Debug)]
pub struct ClockReply {
    /// Zero unless the call failed.
    pub ret: i32,
    /// What the clock shows; zeros where the call left it alone.
    pub time: timespec,
}

/// The bits of a signed number read as an unsigned one.
pub open spec fn unsigned(n: i64) -> int {
    if n < 0 {
        n + 0x1_0000_0000_0000_0000
    } else {
        n as int
    }
}

/// The bits of an unsigned number read as a signed one.
pub open spec fn signed(n: int) -> int {
    if n > i64::MAX {
        n - 0x1_0000_0000_0000_0000
    } else {
        n
    }
}

/// The time since its start that a clock answers: none where the call failed or the
/// clock stands before its start, and no nanoseconds beyond a second.
pub open spec fn clock_time(reply: ClockReply) -> nat {
    if reply.ret != 0 || reply.time.tv_sec < 0 {
        0
    } else {
        (reply.time.tv_sec * 1_000_000_000 + unsigned(reply.time.tv_nsec) % 1_000_000_000) as nat
    }
}

/// Reads the answer of a clock.
fn clock_duration(reply: ClockReply) -> (d: Duration)
    ensures
        d@ == clock_time(reply),
{
    if reply.ret != 0 || reply.time.tv_sec < 0 {
        return Duration::zero();
    }
    let n: i64 = reply.time.tv_nsec;
    assert(n < 0 ==> (n as u64) == n + 0x1_0000_0000_0000_0000) by (bit_vector);
    let nsec: u32 = (n as u64 % 1_000_000_000) as u32;
    Duration::new(reply.time.tv_sec as u64, nsec)
}

/// A point on the clock that only goes forward. Its view is the time since the clock's
/// start, in nanoseconds.
#[derive(Clone, Copy, PartialEq, Eq, PartialOrd, Ord, Hash, Debug)]
pub struct Instant(Duration);

impl View for Instant {
    type V = nat;

    closed spec fn view(&self) -> nat {
        self.0@
    }
}

/// Reads an [`Instant`] from a clock.
pub struct ReadInstant;

impl Decode for ReadInstant {
    type Reply = ClockReply;

    type Output = Instant;

    open spec fn accepts(self, reply: ClockReply) -> bool {
        true
    }

    open spec fn reads(self, reply: ClockReply, out: Instant) -> bool {
        out@ == clock_time(reply)
    }

    fn decode(self, reply: ClockReply) -> (out: Instant) {
        Instant(clock_duration(reply))
    }
}

impl Instant {
    /// Asks for the present.
    pub fn now() -> (r: Request<ClockCall, ReadInstant>)
        ensures
            r.call == (ClockCall { clock: CLOCK_MONOTONIC }),
    {
        Request { call: ClockCall { clock: CLOCK_MONOTONIC }, reading: ReadInstant }
    }

    /// The time since an earlier instant; none where that is a later one.
    pub fn checked_sub_instant(&self, other: &Instant) -> (r: Option<Duration>)
        ensures
            match r {
                Some(d) => difference(self@, other@) == Some(d@),
                None => difference(self@, other@) is None,
            },
    {
        self.0.checked_sub(other.0)
    }

    /// The instant that comes so much later.
    pub fn checked_add_duration(&self, other: &Duration) -> (r: Option<Instant>)
        ensures
            match r {
                Some(t) => sum(self@, other@) == Some(t@),
                None => sum(self@, other@) is None,
            },
    {
        match self.0.checked_add(*other) {
            Some(d) => Some(Instant(d)),
            None => None,
        }
    }

    /// The instant that came so much earlier.
    pub fn checked_sub_duration(&self, other: &Duration) -> (r: Option<Instant>)
        ensures
            match r {
                Some(t) => difference(self@, other@) == Some(t@),
                None => difference(self@, other@) is None,
            },
    {
        match self.0.checked_sub(*other) {
            Some(d) => Some(Instant(d)),
            None => None,
        }
    }
}

/// A time of day. Its view is the time since the epoch, in nanoseconds.
#[derive(Clone, Copy, PartialEq, Eq, PartialOrd, Ord, Hash, Debug)]
pub struct SystemTime(Duration);

impl View for SystemTime {
    type V = nat;

    closed spec fn view(&self) -> nat {
        self.0@
    }
}

/// Reads a [`SystemTime`] from a clock.
pub struct ReadSystemTime;

impl Decode for ReadSystemTime {
    type Reply = ClockReply;

    type Output = SystemTime;

    open spec fn accepts(self, reply: ClockReply) -> bool {
        true
    }

    open spec fn reads(self, reply: ClockReply, out: SystemTime) -> bool {
        out@ == clock_time(reply)
    }

    fn decode(self, reply: ClockReply) -> (out: SystemTime) {
        SystemTime(clock_duration(reply))
    }
}

/// The time of day that seconds and nanoseconds stand for: seconds before the epoch
/// count as none, and nanoseconds are taken within their second.
pub open spec fn time_of(tv_sec: i64, tv_nsec: i64) -> nat {
    ((if tv_sec < 0 {
        0
    } else {
        tv_sec as int
    }) * 1_000_000_000 + (tv_nsec as int) % 1_000_000_000) as nat
}

/// The whole seconds of a time of day, as the system takes them.
pub open spec fn secs_of(time: nat) -> int {
    signed((time / 1_000_000_000) as int)
}

/// The nanoseconds of a time of day beyond its whole seconds.
pub open spec fn nanos_of(time: nat) -> int {
    (time % 1_000_000_000) as int
}

impl SystemTime {
    /// The epoch.
    pub fn epoch() -> (t: SystemTime)
        ensures
            t@ == 0,
    {
        SystemTime(Duration::zero())
    }

    /// The earliest time that can be told: the epoch.
    pub fn earliest() -> (t: SystemTime)
        ensures
            t@ == 0,
    {
        SystemTime(Duration::zero())
    }

    /// The latest time that can be told.
    pub fn latest() -> (t: SystemTime)
        ensures
            t@ == longest(),
    {
        SystemTime(Duration::longest())
    }

    /// The time of day that seconds and nanoseconds stand for.
    pub fn new(tv_sec: i64, tv_nsec: i64) -> (r: Result<SystemTime, Error>)
        ensures
            r matches Ok(t) && t@ == time_of(tv_sec, tv_nsec),
    {
        let nsec: u32 = match tv_nsec.checked_rem_euclid(1_000_000_000) {
            Some(n) => n as u32,
            None => 0,
        };
        let sec: u64 = if tv_sec < 0 {
            0
        } else {
            tv_sec as u64
        };
        Ok(SystemTime(Duration::new(sec, nsec)))
    }

    /// Asks for the present.
    pub fn now() -> (r: Request<ClockCall, ReadSystemTime>)
        ensures
            r.call == (ClockCall { clock: CLOCK_REALTIME }),
    {
        Request { call: ClockCall { clock: CLOCK_REALTIME }, reading: ReadSystemTime }
    }

    /// The time since an earlier time; as an error, the time until a later one.
    pub fn sub_time(&self, other: &SystemTime) -> (r: Result<Duration, Duration>)
        ensures
            match r {
                Ok(d) => self@ >= other@ && d@ == self@ - other@,
                Err(d) => self@ < other@ && d@ == other@ - self@,
            },
    {
        match self.0.checked_sub(other.0) {
            Some(d) => Ok(d),
            None => match other.0.checked_sub(self.0) {
                Some(d) => Err(d),
                None => Err(Duration::zero()),
            },
        }
    }

    /// The time that comes so much later.
    pub fn checked_add_duration(&self, other: &Duration) -> (r: Option<SystemTime>)
        ensures
            match r {
                Some(t) => sum(self@, other@) == Some(t@),
                None => sum(self@, other@) is None,
            },
    {
        match self.0.checked_add(*other) {
            Some(d) => Some(SystemTime(d)),
            None => None,
        }
    }

    /// The time that came so much earlier.
    pub fn checked_sub_duration(&self, other: &Duration) -> (r: Option<SystemTime>)
        ensures
            match r {
                Some(t) => difference(self@, other@) == Some(t@),
                None => difference(self@, other@) is None,
            },
    {
        match self.0.checked_sub(*other) {
            Some(d) => Some(SystemTime(d)),
            None => None,
        }
    }

    /// The whole seconds and the nanoseconds beyond them, as the system takes them.
    pub fn to_secs_nanos(&self) -> (r: (i64, i64))
        ensures
            r.0 == secs_of(self@),
            r.1 == nanos_of(self@),
    {
        let secs: u64 = self.0.as_secs();
        assert(secs > i64::MAX ==> (secs as i64) == secs - 0x1_0000_0000_0000_0000)
            by (bit_vector);
        (secs as i64, self.0.subsec_nanos() as i64)
    }
}

/// A time that the system tells in seconds and nanoseconds is handed back to it in the
/// same seconds and nanoseconds.
pub proof fn system_time_round_trip(tv_sec: i64, tv_nsec: i64)
    requires
        tv_sec >= 0,
        0 <= tv_nsec < 1_000_000_000,
    ensures
        secs_of(time_of(tv_sec, tv_nsec)) == tv_sec,
        nanos_of(time_of(tv_sec, tv_nsec)) == tv_nsec,
{
}

/// A length of time is its seconds and its nanoseconds together, and is told in whole seconds and
/// the nanoseconds beyond them.
pub proof fn a_length_is_its_seconds_and_nanoseconds(
    secs: u64,
    nanos: u32,
    d: Duration,
    whole: Duration,
    s: u64,
    n: u32,
)
    requires
        secs + nanos / 1_000_000_000 <= u64::MAX,
        call_ensures(Duration::new, (secs, nanos), d),
        call_ensures(Duration::from_secs, (secs,), whole),
        call_ensures(Duration::as_secs, (&d,), s),
        call_ensures(Duration::subsec_nanos, (&d,), n),
    ensures
        d@ == secs * 1_000_000_000 + nanos,
        whole@ == secs * 1_000_000_000,
        s * 1_000_000_000 + n == d@,
        n < 1_000_000_000,
        nanos < 1_000_000_000 ==> s == secs && n == nanos,
        forall|z: Duration| #[trigger] call_ensures(Duration::zero, (), z) ==> z@ == 0,
        forall|l: Duration| #[trigger] call_ensures(Duration::longest, (), l) ==> l@ == u64::MAX
            * 1_000_000_000 + 999_999_999,
{
}

/// Two lengths of time are added exactly wherever the sum can be told, and taken from one another
/// exactly wherever the second is not the longer one; there is no other case in which nothing
/// comes out.
pub proof fn lengths_add_up(a: Duration, b: Duration, sum: Option<Duration>, rest: Option<Duration>)
    requires
        call_ensures(Duration::checked_add, (a, b), sum),
        call_ensures(Duration::checked_sub, (a, b), rest),
    ensures
        sum is Some <==> a@ + b@ <= u64::MAX * 1_000_000_000 + 999_999_999,
        sum matches Some(d) ==> d@ == a@ + b@,
        rest is Some <==> b@ <= a@,
        rest matches Some(d) ==> d@ == a@ - b@,
{
}

/// Instants and times of day move by exactly the length that they are moved by, wherever the
/// result can be told, and are exactly as far apart as they are.
pub proof fn times_move_by_the_length_they_are_moved_by(
    i: Instant,
    j: Instant,
    t: SystemTime,
    u: SystemTime,
    d: Duration,
)
    ensures
        forall|r: Option<Instant>| #[trigger]
            call_ensures(Instant::checked_add_duration, (&i, &d), r) ==> {
                &&& r is Some <==> i@ + d@ <= u64::MAX * 1_000_000_000 + 999_999_999
                &&& r matches Some(x) ==> x@ == i@ + d@
            },
        forall|r: Option<Instant>| #[trigger]
            call_ensures(Instant::checked_sub_duration, (&i, &d), r) ==> {
                &&& r is Some <==> d@ <= i@
                &&& r matches Some(x) ==> x@ == i@ - d@
            },
        forall|r: Option<Duration>| #[trigger]
            call_ensures(Instant::checked_sub_instant, (&i, &j), r) ==> {
                &&& r is Some <==> j@ <= i@
                &&& r matches Some(x) ==> x@ == i@ - j@
            },
        forall|r: Option<SystemTime>| #[trigger]
            call_ensures(SystemTime::checked_add_duration, (&t, &d), r) ==> {
                &&& r is Some <==> t@ + d@ <= u64::MAX * 1_000_000_000 + 999_999_999
                &&& r matches Some(x) ==> x@ == t@ + d@
            },
        forall|r: Option<SystemTime>| #[trigger]
            call_ensures(SystemTime::checked_sub_duration, (&t, &d), r) ==> {
                &&& r is Some <==> d@ <= t@
                &&& r matches Some(x) ==> x@ == t@ - d@
            },
        forall|r: Result<Duration, Duration>| #[trigger]
            call_ensures(SystemTime::sub_time, (&t, &u), r) ==> {
                &&& r is Ok <==> u@ <= t@
                &&& r matches Ok(x) ==> x@ == t@ - u@
                &&& r matches Err(x) ==> x@ == u@ - t@
            },
{
}

/// The present is asked of the clock that only goes forward for an instant, and of the one that
/// shows the time of day for a time. What a clock shows is taken as it is, wherever it is a time
/// since its start; a clock that fails or stands before its start shows its start.
pub proof fn clocks_are_read_as_they_stand(
    instant: Request<ClockCall, ReadInstant>,
    time: Request<ClockCall, ReadSystemTime>,
    reply: ClockReply,
    i: Instant,
    t: SystemTime,
)
    requires
        call_ensures(Instant::now, (), instant),
        call_ensures(SystemTime::now, (), time),
        instant.reading.reads(reply, i),
        time.reading.reads(reply, t),
    ensures
        instant.call.clock == 0,
        time.call.clock == 2,
        reply.ret == 0 && reply.time.tv_sec >= 0 && 0 <= reply.time.tv_nsec < 1_000_000_000 ==> i@
            == reply.time.tv_sec * 1_000_000_000 + reply.time.tv_nsec && t@ == reply.time.tv_sec
            * 1_000_000_000 + reply.time.tv_nsec,
        reply.ret == 0 && reply.time.tv_sec >= 0 ==> i@ / 1_000_000_000 == reply.time.tv_sec && t@
            == i@,
        reply.ret != 0 || reply.time.tv_sec < 0 ==> i@ == 0 && t@ == 0,
{
}

/// The nanoseconds that a clock shows beyond a second count only within it, as the bits they
/// are.
pub proof fn nanoseconds_stay_within_their_second(reply: ClockReply)
    requires
        reply.ret == 0,
        reply.time.tv_sec >= 0,
    ensures
        reply.time.tv_nsec >= 0 ==> clock_time(reply) % 1_000_000_000 == reply.time.tv_nsec as int
            % 1_000_000_000,
        reply.time.tv_nsec < 0 ==> clock_time(reply) % 1_000_000_000 == (reply.time.tv_nsec
            + 0x1_0000_0000_0000_0000) % 1_000_000_000,
{
}

/// A time of day of so many seconds and nanoseconds is that time, and is handed back in the same
/// seconds and nanoseconds; seconds before the epoch are none.
pub proof fn a_time_of_day_is_its_seconds_and_nanoseconds(
    tv_sec: i64,
    tv_nsec: i64,
    r: Result<SystemTime, Error>,
)
    requires
        call_ensures(SystemTime::new, (tv_sec, tv_nsec), r),
    ensures
        r is Ok,
        tv_sec >= 0 && 0 <= tv_nsec < 1_000_000_000 ==> r->Ok_0@ == tv_sec * 1_000_000_000
            + tv_nsec,
        tv_sec < 0 ==> r->Ok_0@ == tv_nsec as int % 1_000_000_000,
        tv_sec >= 0 ==> r->Ok_0@ == tv_sec * 1_000_000_000 + tv_nsec as int % 1_000_000_000,
        forall|back: (i64, i64)| #[trigger]
            call_ensures(SystemTime::to_secs_nanos, (&r->Ok_0,), back) ==> {
                &&& tv_sec >= 0 && 0 <= tv_nsec < 1_000_000_000 ==> back == (tv_sec, tv_nsec)
            },
{
}

/// The epoch is the earliest time that can be told, and the latest is as long after it as can be
/// told at all. A time is handed over in whole seconds, as the bits they are, and the nanoseconds
/// beyond them.
pub proof fn times_lie_between_the_earliest_and_the_latest(t: SystemTime, r: (i64, i64))
    requires
        call_ensures(SystemTime::to_secs_nanos, (&t,), r),
    ensures
        r.1 == t@ % 1_000_000_000,
        t@ / 1_000_000_000 <= i64::MAX ==> r.0 == t@ / 1_000_000_000,
        t@ / 1_000_000_000 > i64::MAX ==> r.0 == t@ / 1_000_000_000 - 0x1_0000_0000_0000_0000,
        forall|e: SystemTime| #[trigger] call_ensures(SystemTime::epoch, (), e) ==> e@ == 0,
        forall|e: SystemTime| #[trigger] call_ensures(SystemTime::earliest, (), e) ==> e@ == 0,
        forall|l: SystemTime| #[trigger]
            call_ensures(SystemTime::latest, (), l) ==> l@ == u64::MAX * 1_000_000_000
                + 999_999_999,
{
}

} // verus!
