use aros_pal::op::{Operation, Step};
use aros_pal::thread::{
    available_parallelism, current_os_id, set_name, sleep, yield_now, Thread, ThreadCall,
    ThreadReply, DEFAULT_MIN_STACK_SIZE,
};
use aros_pal::error::Error;
use aros_pal::time::{
    timespec, ClockCall, ClockReply, Duration, Instant, SystemTime, CLOCK_MONOTONIC, CLOCK_REALTIME,
};

fn shows(sec: i32, nsec: i64) -> ClockReply {
    ClockReply { ret: 0, time: timespec { tv_sec: sec, tv_nsec: nsec } }
}

fn instant(sec: i32, nsec: i64) -> Instant {
    Instant::now().finish(shows(sec, nsec))
}

#[test]
fn each_clock_has_its_number() {
    assert_eq!(Instant::now().call, ClockCall { clock: CLOCK_MONOTONIC });
    assert_eq!(SystemTime::now().call, ClockCall { clock: CLOCK_REALTIME });
}

#[test]
fn instants_are_subtracted_one_way_only() {
    let early = instant(5, 900_000_000);
    let late = instant(7, 100_000_000);
    assert_eq!(late.checked_sub_instant(&early), Some(Duration::new(1, 200_000_000)));
    assert_eq!(early.checked_sub_instant(&late), None);
    assert_eq!(early.checked_add_duration(&Duration::new(1, 200_000_000)), Some(late));
    assert_eq!(late.checked_sub_duration(&Duration::new(1, 200_000_000)), Some(early));
    assert_eq!(early.checked_sub_duration(&Duration::from_secs(6)), None);
    assert_eq!(early.checked_add_duration(&Duration::longest()), None);
}

#[test]
fn a_clock_that_fails_shows_its_start() {
    let failed = ClockReply { ret: -1, time: timespec { tv_sec: 9, tv_nsec: 9 } };
    assert_eq!(SystemTime::now().finish(failed), SystemTime::epoch());
    assert_eq!(SystemTime::now().finish(shows(-5, 0)), SystemTime::epoch());
}

#[test]
fn times_of_day_are_handed_back_as_they_came() {
    let t = SystemTime::new(1_700_000_000, 123_456_789).expect("time");
    assert_eq!(t.to_secs_nanos(), (1_700_000_000, 123_456_789));
    assert_eq!(SystemTime::epoch().to_secs_nanos(), (0, 0));
    assert_eq!(SystemTime::earliest(), SystemTime::epoch());
    let far = SystemTime::latest();
    assert_eq!(far.checked_add_duration(&Duration::new(0, 1)), None);
}

#[test]
fn a_later_time_is_an_error_with_the_distance() {
    let a = SystemTime::new(10, 0).expect("time");
    let b = SystemTime::new(12, 500_000_000).expect("time");
    assert_eq!(b.sub_time(&a), Ok(Duration::new(2, 500_000_000)));
    assert_eq!(a.sub_time(&b), Err(Duration::new(2, 500_000_000)));
    assert_eq!(a.sub_time(&a), Ok(Duration::zero()));
}

#[test]
fn durations_carry() {
    let a = Duration::new(1, 600_000_000);
    let b = Duration::new(2, 700_000_000);
    assert_eq!(a.checked_add(b), Some(Duration::new(4, 300_000_000)));
    assert_eq!(b.checked_sub(a), Some(Duration::new(1, 100_000_000)));
    assert_eq!(a.checked_sub(b), None);
    assert_eq!((b.as_secs(), b.subsec_nanos()), (2, 700_000_000));
    assert_eq!(Duration::new(1, 1_500_000_000), Duration::new(2, 500_000_000));
}

fn nothing() -> ThreadReply {
    ThreadReply { ret: 0, id: 0 }
}

#[test]
fn a_short_sleep_is_one_call() {
    let op = sleep(Duration::new(3, 20));
    assert_eq!(op.call(), ThreadCall::Sleep { secs: 3, nsecs: 20 });
    match op.resume(nothing()) {
        Step::Done(()) => {}
        Step::Ask(_) => panic!("sleeps on"),
    }
}

#[test]
fn a_long_sleep_is_as_long_in_pieces() {
    let most = u32::MAX as u64;
    let mut op = sleep(Duration::new(2 * most + 5, 7));
    let mut pieces = Vec::new();
    loop {
        pieces.push(op.call());
        match op.resume(nothing()) {
            Step::Ask(next) => op = next,
            Step::Done(()) => break,
        }
    }
    assert_eq!(
        pieces,
        vec![
            ThreadCall::Sleep { secs: u32::MAX, nsecs: 0 },
            ThreadCall::Sleep { secs: u32::MAX, nsecs: 0 },
            ThreadCall::Sleep { secs: 5, nsecs: 7 },
        ]
    );
    let edge = sleep(Duration::new(most, 1));
    assert_eq!(edge.call(), ThreadCall::Sleep { secs: u32::MAX, nsecs: 1 });
}

#[test]
fn threads_are_started_joined_and_detached() {
    let request = Thread::new(DEFAULT_MIN_STACK_SIZE);
    assert_eq!(request.call, ThreadCall::Spawn { stack: 262144 });
    let t = request.finish(ThreadReply { ret: 0, id: 42 }).expect("started");
    assert_eq!(t.join().call, ThreadCall::Join { id: 42 });
    let t = Thread::new(1).finish(ThreadReply { ret: 0, id: 43 }).expect("started");
    assert_eq!(t.close(), ThreadCall::Detach { id: 43 });
    let t = Thread::new(1).finish(ThreadReply { ret: 0, id: 44 }).expect("started");
    assert_eq!(t.join().finish(ThreadReply { ret: 3, id: 0 }), Err(Error::Os(3)));
    assert_eq!(Thread::new(1).finish(ThreadReply { ret: 35, id: 0 }), Err(Error::Os(35)));
}

#[test]
fn there_is_one_processor_and_no_name() {
    assert_eq!(available_parallelism(), Ok(1));
    assert_eq!(current_os_id(), None);
    assert!(set_name(b"worker").is_none());
    assert_eq!(yield_now(), ThreadCall::Yield);
}
