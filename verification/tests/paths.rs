use aros_pal::error::{
    decode_error_kind, error_string, is_interrupted, unsupported, Error, ErrorKind,
};
use aros_pal::fs::translate::cstr;
use aros_pal::op::{Operation, Step};
use aros_pal::path::{
    absolute_from, is_absolute, is_sep_byte, is_verbatim_sep, join_paths, parse_prefix, volume_len,
    HAS_PREFIXES,
};
use aros_pal::paths::{absolute, chdir, getcwd, temp_dir, PathsCall, PathsReply};
use aros_pal::text::{c_string, CString};

fn translated(path: &str) -> String {
    let c = cstr(path.as_bytes()).expect("no NUL");
    String::from_utf8(c.as_bytes().to_vec()).expect("text")
}

fn answer(ret: i64, errno: i32, bytes: &[u8]) -> PathsReply {
    PathsReply { ret, errno, bytes: bytes.to_vec() }
}

#[test]
fn a_slash_after_a_device_is_dropped() {
    assert_eq!(translated("SYS:/C"), "SYS:C");
    assert_eq!(translated("SYS://C"), "SYS:C");
    assert_eq!(translated("SYS:"), "SYS:");
    assert_eq!(translated("SYS:C/List"), "SYS:C/List");
}

#[test]
fn steps_up_are_spelled_with_slashes() {
    assert_eq!(translated("a/../b"), "a//b");
    assert_eq!(translated("../x"), "/x");
    assert_eq!(translated(".."), "/");
    assert_eq!(translated("../.."), "//");
}

#[test]
fn noise_in_a_path_vanishes() {
    assert_eq!(translated("a//b"), "a/b");
    assert_eq!(translated("a/./b"), "a/b");
    assert_eq!(translated("./a"), "a");
    assert_eq!(translated("a/"), "a");
    assert_eq!(translated("."), "");
}

#[test]
fn a_path_with_a_nul_is_refused() {
    assert_eq!(cstr(b"a\0b").err(), Some(Error::Simple(ErrorKind::InvalidInput)));
    assert_eq!(c_string(b"\0").err(), Some(Error::Simple(ErrorKind::InvalidInput)));
    assert!(CString::new(vec![b'a', 0]).is_none());
    assert_eq!(CString::new(vec![b'a']).expect("no NUL").as_bytes(), &b"a"[..]);
}

#[test]
fn separators_and_prefixes() {
    assert!(is_sep_byte(b'/') && !is_sep_byte(b'\\') && !is_sep_byte(b':'));
    assert!(is_verbatim_sep(b'/') && !is_verbatim_sep(b':'));
    assert!(parse_prefix(b"SYS:C").is_none());
    assert!(!HAS_PREFIXES);
}

#[test]
fn a_volume_makes_a_path_absolute() {
    assert_eq!(volume_len(b"SYS:C/List"), Some(4));
    assert_eq!(volume_len(b":x"), Some(1));
    assert_eq!(volume_len(b"a/b:c"), None);
    assert_eq!(volume_len(b"plain"), None);
    assert!(is_absolute(b"MacRW:project/src"));
    assert!(is_absolute(b"/x"));
    assert!(!is_absolute(b"x/y"));
    assert!(!is_absolute(b"a/b:c"));
    assert!(!is_absolute(b""));
}

#[test]
fn relative_paths_go_below_the_current_directory() {
    assert_eq!(absolute_from(b"x/y", b"SYS:C"), b"SYS:C/x/y".to_vec());
    assert_eq!(absolute_from(b"x", b"SYS:"), b"SYS:/x".to_vec());
    assert_eq!(absolute_from(b"./x//y/.", b"SYS:C"), b"SYS:C/x/y".to_vec());
    assert_eq!(absolute_from(b"x/", b"SYS:C"), b"SYS:C/x/".to_vec());
    assert_eq!(absolute_from(b"../x", b"SYS:C"), b"SYS:C/../x".to_vec());
    assert_eq!(absolute_from(b"Work:x/./y", b"SYS:C"), b"Work:x/./y".to_vec());
}

#[test]
fn making_a_path_absolute_twice_is_making_it_absolute() {
    let once = absolute_from(b"a/b:c", b"SYS:C");
    assert!(is_absolute(&once));
    assert_eq!(absolute_from(&once, b"Work:"), once);
}

#[test]
fn a_path_is_joined_below_a_directory() {
    assert_eq!(join_paths(b"SYS:C", b"List"), b"SYS:C/List".to_vec());
    assert_eq!(join_paths(b"dir/", b"name"), b"dir/name".to_vec());
    assert_eq!(join_paths(b"dir", b"RAM:name"), b"RAM:name".to_vec());
}

#[test]
fn the_current_directory_is_asked_for_with_more_room() {
    let op = getcwd();
    assert_eq!(op.call(), PathsCall::GetCwd { len: 512 });
    let op = match op.resume(answer(0, 34, b"")) {
        Step::Ask(op) => op,
        Step::Done(_) => panic!("gave up early"),
    };
    assert_eq!(op.call(), PathsCall::GetCwd { len: 1024 });
    match op.resume(answer(1, 0, b"SYS:C\0\0\0")) {
        Step::Done(Ok(path)) => assert_eq!(path, b"SYS:C".to_vec()),
        _ => panic!("no directory"),
    }
}

#[test]
fn the_current_directory_is_given_up_after_six_tries() {
    let mut op = getcwd();
    let mut lens = Vec::new();
    loop {
        match op.call() {
            PathsCall::GetCwd { len } => lens.push(len),
            other => panic!("{:?}", other),
        }
        match op.resume(answer(0, 34, b"")) {
            Step::Ask(next) => op = next,
            Step::Done(r) => {
                assert_eq!(r, Err(Error::Os(34)));
                break;
            }
        }
    }
    assert_eq!(lens, vec![512, 1024, 2048, 4096, 8192, 16384]);
}

#[test]
fn bytes_that_are_no_text_are_replaced_in_the_current_directory() {
    match getcwd().resume(answer(1, 0, b"A:\xffb\0")) {
        Step::Done(Ok(path)) => assert_eq!(path, "A:\u{fffd}b".as_bytes().to_vec()),
        _ => panic!("no directory"),
    }
}

#[test]
fn an_absolute_path_does_not_ask_for_the_current_directory() {
    match absolute(b"SYS:C/./x") {
        Step::Done(r) => assert_eq!(r, Ok(b"SYS:C/./x".to_vec())),
        Step::Ask(_) => panic!("asked"),
    }
    let op = match absolute(b"x") {
        Step::Ask(op) => op,
        Step::Done(_) => panic!("did not ask"),
    };
    assert_eq!(op.call(), PathsCall::GetCwd { len: 512 });
    match op.resume(answer(1, 0, b"Work:\0")) {
        Step::Done(r) => assert_eq!(r, Ok(b"Work:/x".to_vec())),
        Step::Ask(_) => panic!("asked again"),
    }
}

#[test]
fn an_unknown_current_directory_fails_a_relative_path() {
    let mut step = absolute(b"x");
    let mut tries = 0;
    loop {
        match step {
            Step::Ask(op) => {
                tries += 1;
                step = op.resume(answer(0, 13, b""));
            }
            Step::Done(r) => {
                assert_eq!(r, Err(Error::Os(13)));
                break;
            }
        }
    }
    assert_eq!(tries, 6);
}

#[test]
fn the_directory_is_changed_to_the_path_as_it_is() {
    let request = chdir(b"SYS:/C").expect("no NUL");
    assert_eq!(
        request.call,
        PathsCall::ChDir { path: CString::new(b"SYS:/C".to_vec()).expect("no NUL") }
    );
    assert_eq!(request.finish(answer(0, 0, b"")), Ok(()));
    let request = chdir(b"x").expect("no NUL");
    assert_eq!(request.finish(answer(-1, 2, b"")), Err(Error::Os(2)));
    assert_eq!(chdir(b"a\0").err(), Some(Error::Simple(ErrorKind::InvalidInput)));
    assert_eq!(temp_dir(), "T:");
}

#[test]
fn error_numbers_are_those_of_netbsd() {
    assert_eq!(decode_error_kind(1), ErrorKind::PermissionDenied);
    assert_eq!(decode_error_kind(2), ErrorKind::NotFound);
    assert_eq!(decode_error_kind(4), ErrorKind::Interrupted);
    assert_eq!(decode_error_kind(13), ErrorKind::PermissionDenied);
    assert_eq!(decode_error_kind(17), ErrorKind::AlreadyExists);
    assert_eq!(decode_error_kind(20), ErrorKind::NotADirectory);
    assert_eq!(decode_error_kind(21), ErrorKind::IsADirectory);
    assert_eq!(decode_error_kind(22), ErrorKind::InvalidInput);
    assert_eq!(decode_error_kind(28), ErrorKind::StorageFull);
    assert_eq!(decode_error_kind(30), ErrorKind::ReadOnlyFilesystem);
    assert_eq!(decode_error_kind(32), ErrorKind::BrokenPipe);
    assert_eq!(decode_error_kind(35), ErrorKind::WouldBlock);
    assert_eq!(decode_error_kind(48), ErrorKind::AddrInUse);
    assert_eq!(decode_error_kind(49), ErrorKind::AddrNotAvailable);
    assert_eq!(decode_error_kind(53), ErrorKind::ConnectionAborted);
    assert_eq!(decode_error_kind(54), ErrorKind::ConnectionReset);
    assert_eq!(decode_error_kind(57), ErrorKind::NotConnected);
    assert_eq!(decode_error_kind(60), ErrorKind::TimedOut);
    assert_eq!(decode_error_kind(61), ErrorKind::ConnectionRefused);
    assert_eq!(decode_error_kind(0), ErrorKind::Uncategorized);
    assert_eq!(decode_error_kind(-1), ErrorKind::Uncategorized);
    assert!(is_interrupted(4) && !is_interrupted(5));
}

#[test]
fn errors_tell_their_kind() {
    assert_eq!(Error::Os(61).kind(), ErrorKind::ConnectionRefused);
    assert_eq!(Error::Os(61).raw_os_error(), Some(61));
    assert_eq!(Error::Message(ErrorKind::WriteZero, "x").kind(), ErrorKind::WriteZero);
    assert_eq!(Error::Simple(ErrorKind::InvalidInput).raw_os_error(), None);
    let refused: Result<(), Error> = unsupported();
    assert_eq!(refused.err().map(|e| e.kind()), Some(ErrorKind::Unsupported));
}

#[test]
fn error_numbers_have_words() {
    let request = error_string(2);
    assert_eq!(request.call.errno, 2);
    assert_eq!(request.finish(Some(b"No such file".to_vec())), "No such file");
    assert_eq!(error_string(2).finish(Some(b"a\xc3\0rest".to_vec())), "a\u{fffd}");
    assert_eq!(error_string(-7).finish(None), "unknown error (errno -7)");
}
