use aros_pal::args::args;
use aros_pal::env::{getenv, setenv, unsetenv, EnvCall, EnvReply, RawVar};
use aros_pal::error::{Error, ErrorKind};
use aros_pal::memory::{
    alloc_zeroed, allocate, dealloc, realloc, AllocCall, AllocReply, Layout,
};
use aros_pal::op::{Operation, Step};
use aros_pal::random::fill_bytes;
use aros_pal::sync::{CondCall, Condvar, Mutex, MutexCall, SyncReply};
use aros_pal::text::CString;
use aros_pal::thread_local::{create, destroy, get, KeyCall, KeyReply};
use aros_pal::time::Duration;

fn c(s: &str) -> CString {
    CString::new(s.as_bytes().to_vec()).expect("no NUL")
}

fn told(ret: i64, errno: i32, value: Option<&str>, vars: Vec<RawVar>) -> EnvReply {
    EnvReply { ret, errno, value: value.map(|v| v.as_bytes().to_vec()), vars }
}

#[test]
fn all_variables_are_told_in_order() {
    let request = aros_pal::env::env();
    assert_eq!(request.call, EnvCall::Enumerate);
    let vars = request.finish(told(0, 0, None, vec![
        RawVar { name: b"A".to_vec(), value: Some(b"1".to_vec()) },
        RawVar { name: b"B".to_vec(), value: None },
    ]));
    assert_eq!(vars, vec![(b"A".to_vec(), b"1".to_vec()), (b"B".to_vec(), vec![])]);
}

#[test]
fn a_variable_is_read_written_and_removed() {
    match getenv(b"A") {
        Step::Ask(request) => {
            assert_eq!(request.call, EnvCall::GetEnv { name: c("A") });
            assert_eq!(request.finish(told(0, 0, Some("1"), vec![])), Some(b"1".to_vec()));
        }
        Step::Done(_) => panic!("not asked"),
    }
    match getenv(b"A\0") {
        Step::Done(value) => assert!(value.is_none()),
        Step::Ask(_) => panic!("asked"),
    }
    let request = setenv(b"A", b"x y").expect("no NUL");
    assert_eq!(request.call, EnvCall::SetEnv { name: c("A"), value: c("x y"), overwrite: 1 });
    assert_eq!(request.finish(told(-1, 12, None, vec![])), Err(Error::Os(12)));
    let refused = Some(Error::Simple(ErrorKind::InvalidInput));
    assert_eq!(setenv(b"\0", b"").err(), refused);
    assert_eq!(setenv(b"A", b"\0").err(), refused);
    assert_eq!(unsetenv(b"\0").err(), refused);
    let request = unsetenv(b"A").expect("no NUL");
    assert_eq!(request.call, EnvCall::UnsetEnv { name: c("A") });
    assert_eq!(request.finish(told(0, 0, None, vec![])), Ok(()));
}

#[test]
fn arguments_are_handed_out_from_both_ends() {
    let argv = vec![
        Some(b"prog".to_vec()),
        Some(b"\xff".to_vec()),
        Some(b"last".to_vec()),
        Some(b"beyond".to_vec()),
    ];
    let mut a = args(3, &argv);
    assert_eq!((a.len(), a.size_hint()), (3, (3, Some(3))));
    assert_eq!(a.next(), Some(b"prog".to_vec()));
    assert_eq!(a.next_back(), Some(b"last".to_vec()));
    assert_eq!(a.next(), Some(b"\xff".to_vec()));
    assert_eq!(a.next(), None);
    assert_eq!(a.next_back(), None);
}

#[test]
fn arguments_end_at_the_first_that_is_missing() {
    let argv = vec![Some(b"a".to_vec()), None, Some(b"b".to_vec())];
    assert_eq!(args(3, &argv).len(), 1);
    assert_eq!(args(0, &argv).len(), 0);
    assert_eq!(args(-1, &argv).len(), 0);
    assert_eq!(args(5, &vec![]).len(), 0);
}

#[test]
fn an_empty_buffer_asks_for_no_random_bytes() {
    match fill_bytes(0) {
        Step::Done(()) => {}
        Step::Ask(_) => panic!("asked"),
    }
    match fill_bytes(16) {
        Step::Ask(call) => assert_eq!(call.len, 16),
        Step::Done(()) => panic!("not asked"),
    }
}

fn key(ret: i32, key: u32, value: i64) -> KeyReply {
    KeyReply { ret, key, value }
}

#[test]
fn keys_are_made_used_and_removed() {
    assert_eq!(create(None).call, KeyCall::Create { dtor: 0 });
    assert_eq!(create(Some(4096)).call, KeyCall::Create { dtor: 4096 });
    assert_eq!(create(None).finish(key(0, 5, 0)), Ok(5));
    assert_eq!(
        create(None).finish(key(11, 0, 0)),
        Err(Error::Message(ErrorKind::Uncategorized, "out of TLS keys"))
    );
    assert_eq!(aros_pal::thread_local::set(5, 64).call, KeyCall::SetValue { key: 5, value: 64 });
    assert!(aros_pal::thread_local::set(5, 64).finish(key(0, 0, 0)) && !aros_pal::thread_local::set(5, 64).finish(key(22, 0, 0)));
    assert_eq!(get(5).call, KeyCall::GetValue { key: 5 });
    assert_eq!(get(5).finish(key(0, 0, 64)), 64);
    assert_eq!(destroy(5).call, KeyCall::Delete { key: 5 });
}

fn sync(ret: i32, size: usize) -> SyncReply {
    SyncReply { ret, size }
}

#[test]
fn a_lock_has_to_fit_its_buffer() {
    let m = Mutex::new();
    let op = m.init();
    assert_eq!(op.call(), MutexCall::Size);
    let op = match op.resume(sync(0, 160)) {
        Step::Ask(op) => op,
        Step::Done(_) => panic!("does not fit"),
    };
    assert_eq!(op.call(), MutexCall::Init);
    match op.resume(sync(0, 0)) {
        Step::Done(r) => assert_eq!(r, Ok(())),
        Step::Ask(_) => panic!("asked"),
    }
    match m.init().resume(sync(0, 161)) {
        Step::Done(r) => assert_eq!(
            r,
            Err(Error::Message(
                ErrorKind::Uncategorized,
                "pthread_mutex_t larger than the pal buffer"
            ))
        ),
        Step::Ask(_) => panic!("fits"),
    }
    match m.init().resume(sync(0, 8)) {
        Step::Ask(op) => match op.resume(sync(22, 0)) {
            Step::Done(r) => assert_eq!(
                r,
                Err(Error::Message(ErrorKind::Uncategorized, "pthread_mutex_init failed"))
            ),
            Step::Ask(_) => panic!("asked"),
        },
        Step::Done(_) => panic!("does not fit"),
    }
}

#[test]
fn locks_are_taken_and_given_back() {
    let m = Mutex::new();
    assert_eq!(m.lock().call, MutexCall::Lock);
    assert_eq!(m.lock().finish(sync(0, 0)), Ok(()));
    assert_eq!(m.lock().finish(sync(11, 0)), Err(Error::Os(11)));
    assert_eq!(m.try_lock().call, MutexCall::TryLock);
    assert!(m.try_lock().finish(sync(0, 0)) && !m.try_lock().finish(sync(16, 0)));
    assert_eq!(m.unlock().call, MutexCall::Unlock);
    assert_eq!(m.close(), MutexCall::Destroy);
}

#[test]
fn condition_variables_are_waited_for() {
    let cond = Condvar::new();
    let m = Mutex::new();
    assert!(!Condvar::PRECISE_TIMEOUT);
    assert_eq!(cond.notify_one().call, CondCall::Signal);
    assert_eq!(cond.notify_all().call, CondCall::Broadcast);
    assert_eq!(cond.wait(&m).call, CondCall::Wait);
    assert_eq!(
        cond.wait_timeout(&m, Duration::new(3, 4)).call,
        CondCall::TimedWait { secs: 3, nsecs: 4 }
    );
    assert_eq!(
        cond.wait_timeout(&m, Duration::new(u64::MAX, 4)).call,
        CondCall::TimedWait { secs: u32::MAX, nsecs: 4 }
    );
    assert!(cond.wait_timeout(&m, Duration::zero()).finish(sync(0, 0)));
    assert!(!cond.wait_timeout(&m, Duration::zero()).finish(sync(60, 0)));
    match cond.init().resume(sync(0, 177)) {
        Step::Done(r) => assert!(r.is_err()),
        Step::Ask(_) => panic!("fits"),
    }
    match cond.init().resume(sync(0, 176)) {
        Step::Ask(op) => match op.resume(sync(1, 0)) {
            Step::Done(r) => assert_eq!(
                r,
                Err(Error::Message(ErrorKind::Uncategorized, "pthread_cond_init failed"))
            ),
            Step::Ask(_) => panic!("asked"),
        },
        Step::Done(_) => panic!("does not fit"),
    }
    assert_eq!(cond.close(), CondCall::Destroy);
}

fn block(ret: i32, ptr: usize) -> AllocReply {
    AllocReply { ret, ptr }
}

#[test]
fn blocks_come_from_malloc_unless_their_alignment_is_unusual() {
    assert_eq!(allocate(Layout { size: 64, align: 16 }).call, AllocCall::Malloc { size: 64 });
    assert_eq!(
        allocate(Layout { size: 64, align: 32 }).call,
        AllocCall::MemAlign { align: 32, size: 64 }
    );
    assert_eq!(
        allocate(Layout { size: 2, align: 4 }).call,
        AllocCall::MemAlign { align: 8, size: 2 }
    );
    assert_eq!(allocate(Layout { size: 64, align: 16 }).finish(block(0, 4096)), 4096);
    assert_eq!(allocate(Layout { size: 64, align: 32 }).finish(block(12, 4096)), 0);
    assert_eq!(dealloc(4096, Layout { size: 64, align: 32 }), AllocCall::Free { ptr: 4096 });
}

#[test]
fn blocks_of_zeros_are_filled_where_they_have_to_be() {
    let op = alloc_zeroed(Layout { size: 64, align: 8 });
    assert_eq!(op.call(), AllocCall::Calloc { count: 64, size: 1 });
    let op = alloc_zeroed(Layout { size: 64, align: 64 });
    assert_eq!(op.call(), AllocCall::MemAlign { align: 64, size: 64 });
    let op = match op.resume(block(0, 4096)) {
        Step::Ask(op) => op,
        Step::Done(_) => panic!("over"),
    };
    assert_eq!(op.call(), AllocCall::Zero { ptr: 4096, len: 64 });
    match op.resume(block(0, 0)) {
        Step::Done(ptr) => assert_eq!(ptr, 4096),
        Step::Ask(_) => panic!("asked"),
    }
    match alloc_zeroed(Layout { size: 64, align: 64 }).resume(block(12, 0)) {
        Step::Done(ptr) => assert_eq!(ptr, 0),
        Step::Ask(_) => panic!("fills nothing"),
    }
}

#[test]
fn only_blocks_from_malloc_are_reallocated() {
    let op = realloc(4096, Layout { size: 64, align: 16 }, 128);
    assert_eq!(op.call(), AllocCall::Realloc { ptr: 4096, size: 128 });
    let op = realloc(4096, Layout { size: 64, align: 64 }, 32);
    assert_eq!(op.call(), AllocCall::MemAlign { align: 64, size: 32 });
    let op = match op.resume(block(0, 8192)) {
        Step::Ask(op) => op,
        Step::Done(_) => panic!("over"),
    };
    assert_eq!(op.call(), AllocCall::Copy { from: 4096, to: 8192, len: 32 });
    let op = match op.resume(block(0, 0)) {
        Step::Ask(op) => op,
        Step::Done(_) => panic!("over"),
    };
    assert_eq!(op.call(), AllocCall::Free { ptr: 4096 });
    match op.resume(block(0, 0)) {
        Step::Done(ptr) => assert_eq!(ptr, 8192),
        Step::Ask(_) => panic!("asked"),
    }
    match realloc(4096, Layout { size: 2, align: 4 }, 4).resume(block(12, 0)) {
        Step::Done(ptr) => assert_eq!(ptr, 0),
        Step::Ask(_) => panic!("frees what it keeps"),
    }
}
