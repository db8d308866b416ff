use aros_pal::error::{Error, ErrorKind};
use aros_pal::fs::attr::{
    FileAttr, FilePermissions, FileTimes, FileType, Metadata, MetadataExt, S_IFDIR, S_IFLNK,
    S_IFREG,
};
use aros_pal::fs::call::{Attr, FsCall, FsReply};
use aros_pal::fs::dir::{readdir, DirBuilder, DirEntry, DT_DIR, DT_LNK, DT_REG};
use aros_pal::fs::file::{File, Opened};
use aros_pal::fs::ops::{
    canonicalize, link, lstat, path_exists, readlink, rename, rmdir, set_perm, set_times,
    set_times_nofollow, stat, symlink, unlink,
};
use aros_pal::fs::options::{
    OpenOptions, EINVAL, O_APPEND, O_CREAT, O_EXCL, O_RDONLY, O_RDWR, O_TRUNC, O_WRONLY,
};
use aros_pal::io::SeekFrom;
use aros_pal::op::{Decode, Operation, Step};
use aros_pal::stdio::{is_ebadf, panic_output, Stderr, Stdin, Stdout};
use aros_pal::text::CString;
use aros_pal::time::SystemTime;

fn c(s: &str) -> CString {
    CString::new(s.as_bytes().to_vec()).expect("no NUL")
}

fn number(ret: i64, errno: i32) -> FsReply {
    FsReply::number(ret, errno)
}

fn with_bytes(ret: i64, bytes: &[u8]) -> FsReply {
    let mut r = FsReply::number(ret, 0);
    r.bytes = bytes.to_vec();
    r
}

fn with_mode(mode: u32) -> FsReply {
    let mut r = FsReply::number(0, 0);
    r.attr.mode = mode;
    r
}

fn open_file(fd: i64) -> File {
    Opened.decode(number(fd, 0)).expect("open")
}

fn options(read: bool, write: bool, append: bool, truncate: bool, create: bool, new: bool) -> OpenOptions {
    let mut o = OpenOptions::new();
    o.read(read);
    o.write(write);
    o.append(append);
    o.truncate(truncate);
    o.create(create);
    o.create_new(new);
    o
}

#[test]
fn reading_is_a_flag_of_its_own() {
    assert_eq!(options(true, false, false, false, false, false).flags(), Ok(O_RDONLY));
    assert_eq!(O_RDONLY, 1);
    assert_eq!(options(false, true, false, false, false, false).flags(), Ok(O_WRONLY));
    assert_eq!(options(true, true, false, false, false, false).flags(), Ok(O_RDWR));
    assert_eq!(options(false, false, true, false, false, false).flags(), Ok(O_WRONLY | O_APPEND));
    assert_eq!(options(true, true, true, false, false, false).flags(), Ok(O_RDWR | O_APPEND));
}

#[test]
fn creation_flags_follow_the_options() {
    assert_eq!(options(false, true, false, true, true, false).flags(), Ok(O_WRONLY | O_CREAT | O_TRUNC));
    assert_eq!(options(false, true, false, false, true, false).flags(), Ok(O_WRONLY | O_CREAT));
    assert_eq!(options(false, true, false, true, false, false).flags(), Ok(O_WRONLY | O_TRUNC));
    assert_eq!(options(false, true, false, true, true, true).flags(), Ok(O_WRONLY | O_CREAT | O_EXCL));
    assert_eq!(
        options(false, false, true, true, false, true).flags(),
        Ok(O_WRONLY | O_APPEND | O_CREAT | O_EXCL)
    );
}

#[test]
fn options_that_make_no_sense_are_refused() {
    let refused = Err(Error::Os(EINVAL));
    assert_eq!(options(false, false, false, false, false, false).flags(), refused);
    assert_eq!(options(true, false, false, true, false, false).flags(), refused);
    assert_eq!(options(true, false, false, false, true, false).flags(), refused);
    assert_eq!(options(true, false, false, false, false, true).flags(), refused);
    assert_eq!(options(false, true, true, true, false, false).flags(), refused);
}

#[test]
fn a_file_is_opened_by_its_translated_path() {
    let o = options(false, true, false, true, true, false);
    let request = File::open(b"SYS:/C/../x", &o).expect("sensible");
    assert_eq!(
        request.call,
        FsCall::Open { path: c("SYS:C//x"), flags: 0x242, creation_mode: 0o666 }
    );
    assert_eq!(request.finish(number(7, 0)).expect("open").descriptor(), 7);
    let request = File::open(b"x", &o).expect("sensible");
    assert_eq!(request.finish(number(-1, 2)).err(), Some(Error::Os(2)));
    let nothing = OpenOptions::new();
    assert_eq!(File::open(b"x", &nothing).err(), Some(Error::Os(EINVAL)));
    assert_eq!(
        File::open(b"x\0", &nothing).err(),
        Some(Error::Simple(ErrorKind::InvalidInput))
    );
}

#[test]
fn a_file_is_read_and_written() {
    let f = open_file(5);
    assert_eq!(f.read(9).call, FsCall::Read { fd: 5, len: 9 });
    assert_eq!(f.read(9).finish(number(3, 0)), Ok(3));
    assert_eq!(f.read(9).finish(number(-1, 4)), Err(Error::Os(4)));
    assert_eq!(f.write(b"ab").call, FsCall::Write { fd: 5, data: b"ab".to_vec() });
    assert_eq!(f.read_buf(4096).call, FsCall::Read { fd: 5, len: 512 });
    assert_eq!(f.read_buf(100).call, FsCall::Read { fd: 5, len: 100 });
    assert_eq!(f.close(), FsCall::Close { fd: 5 });
}

#[test]
fn of_several_buffers_the_first_that_is_not_empty_is_used() {
    let f = open_file(5);
    match f.read_vectored(&[0, 0, 8, 9]) {
        Step::Ask(into) => {
            assert_eq!(into.index, 2);
            assert_eq!(into.request.call, FsCall::Read { fd: 5, len: 8 });
        }
        Step::Done(_) => panic!("nothing read"),
    }
    match f.read_vectored(&[0, 0]) {
        Step::Done(r) => assert_eq!(r, Ok(0)),
        Step::Ask(_) => panic!("read"),
    }
    match f.write_vectored(&[vec![], b"xy".to_vec(), b"z".to_vec()]) {
        Step::Ask(request) => {
            assert_eq!(request.call, FsCall::Write { fd: 5, data: b"xy".to_vec() })
        }
        Step::Done(_) => panic!("nothing written"),
    }
    match f.write_vectored(&[]) {
        Step::Done(r) => assert_eq!(r, Ok(0)),
        Step::Ask(_) => panic!("written"),
    }
    assert!(!f.is_read_vectored() && !f.is_write_vectored());
}

#[test]
fn a_file_is_moved_about_in() {
    let f = open_file(5);
    assert_eq!(f.seek(SeekFrom::Start(9)).call, FsCall::Seek { fd: 5, offset: 9, whence: 0 });
    assert_eq!(f.seek(SeekFrom::Current(-3)).call, FsCall::Seek { fd: 5, offset: -3, whence: 1 });
    assert_eq!(f.seek(SeekFrom::End(0)).call, FsCall::Seek { fd: 5, offset: 0, whence: 2 });
    assert_eq!(f.tell().call, FsCall::Seek { fd: 5, offset: 0, whence: 1 });
    assert_eq!(f.seek(SeekFrom::Start(9)).finish(number(9, 0)), Ok(9));
    assert_eq!(f.seek(SeekFrom::Start(9)).finish(number(-1, 22)), Err(Error::Os(22)));
    assert!(f.size().is_none());
}

#[test]
fn locks_and_flushes_always_succeed() {
    let f = open_file(5);
    assert_eq!(f.lock(), Ok(()));
    assert_eq!(f.lock_shared(), Ok(()));
    assert_eq!(f.try_lock(), Ok(()));
    assert_eq!(f.try_lock_shared(), Ok(()));
    assert_eq!(f.unlock(), Ok(()));
    assert_eq!(f.flush(), Ok(()));
    assert_eq!(f.fsync(), Ok(()));
    assert_eq!(f.datasync(), Ok(()));
}

#[test]
fn a_file_is_cut_duplicated_and_protected() {
    let f = open_file(5);
    assert_eq!(f.truncate(10).call, FsCall::Truncate { fd: 5, length: 10 });
    assert_eq!(f.duplicate().call, FsCall::Dup { fd: 5 });
    assert_eq!(f.file_attr().call, FsCall::Fstat { fd: 5 });
    assert_eq!(
        f.set_permissions(FilePermissions::from_mode(0o100644)).call,
        FsCall::Fchmod { fd: 5, mode: 0o644 }
    );
    assert_eq!(
        f.set_times(FileTimes::default()).err().map(|e| e.kind()),
        Some(ErrorKind::Unsupported)
    );
}

#[test]
fn read_only_is_the_lack_of_all_write_bits() {
    let mut p = FilePermissions::from_mode(0o100644);
    assert!(!p.readonly());
    p.set_readonly(true);
    assert!(p.readonly());
    assert_eq!(p.mode(), 0o100444);
    p.set_readonly(false);
    assert!(!p.readonly());
    assert_eq!(p.mode(), 0o100666);
    assert_eq!(FilePermissions::from_mode(0o170755).to_mode_t(), 0o755);
}

#[test]
fn kinds_of_files_are_told_by_their_mode() {
    assert!(FileType::from_mode(S_IFDIR | 0o755).is_dir());
    assert!(FileType::from_mode(S_IFREG | 0o644).is_file());
    assert!(FileType::from_mode(S_IFLNK | 0o777).is_symlink());
    assert!(!FileType::from_mode(S_IFREG).is_dir());
    assert!(!FileType::from_mode(0).is_file());
}

#[test]
fn metadata_tells_what_the_system_told() {
    let raw = Attr {
        size: 10,
        mode: S_IFREG | 0o644,
        nlink: 2,
        ino: 99,
        mtime_sec: 5,
        mtime_nsec: 6,
        atime_sec: 7,
        atime_nsec: 8,
        ctime_sec: 9,
        ctime_nsec: 10,
    };
    let attr = FileAttr::from_raw(&raw);
    assert_eq!(attr.modified().expect("time").to_secs_nanos(), (5, 6));
    assert_eq!(attr.accessed().expect("time").to_secs_nanos(), (7, 8));
    assert_eq!(attr.created().err().map(|e| e.kind()), Some(ErrorKind::Unsupported));
    let m = Metadata::from_attr(attr);
    assert_eq!((m.ino(), m.mode(), m.nlink(), m.size()), (99, S_IFREG | 0o644, 2, 10));
    assert_eq!((m.atime(), m.atime_nsec()), (7, 8));
    assert_eq!((m.mtime(), m.mtime_nsec()), (5, 6));
    assert_eq!((m.ctime(), m.ctime_nsec()), (9, 10));
}

#[test]
fn calls_by_path_use_the_translated_path() {
    assert_eq!(stat(b"SYS:/x").expect("ok").call, FsCall::Stat { path: c("SYS:x") });
    assert_eq!(lstat(b"a//b").expect("ok").call, FsCall::Lstat { path: c("a/b") });
    assert_eq!(unlink(b"../x").expect("ok").call, FsCall::Unlink { path: c("/x") });
    assert_eq!(rmdir(b"x/").expect("ok").call, FsCall::Rmdir { path: c("x") });
    assert_eq!(
        rename(b"a/./b", b"SYS:/c").expect("ok").call,
        FsCall::Rename { old: c("a/b"), new: c("SYS:c") }
    );
    assert_eq!(
        set_perm(b"x", FilePermissions::from_mode(0o100755)).expect("ok").call,
        FsCall::Chmod { path: c("x"), mode: 0o755 }
    );
    assert_eq!(
        symlink(b"target", b"link/").expect("ok").call,
        FsCall::Symlink { target: c("target"), link: c("link") }
    );
    assert_eq!(
        canonicalize(b"x").expect("ok").call,
        FsCall::RealPath { path: c("x"), len: 1024 }
    );
    assert_eq!(
        DirBuilder::new().mkdir(b"d").expect("ok").call,
        FsCall::Mkdir { path: c("d"), mode: 0o777 }
    );
    assert_eq!(link(b"a", b"b").err().map(|e| e.kind()), Some(ErrorKind::Unsupported));
}

#[test]
fn a_nul_in_either_path_is_refused() {
    let refused = Some(Error::Simple(ErrorKind::InvalidInput));
    assert_eq!(rename(b"a\0", b"b").err(), refused);
    assert_eq!(rename(b"a", b"b\0").err(), refused);
    assert_eq!(symlink(b"a", b"\0").err(), refused);
    assert_eq!(stat(b"\0").err(), refused);
}

#[test]
fn answers_are_read() {
    assert_eq!(unlink(b"x").expect("ok").finish(number(0, 0)), Ok(()));
    assert_eq!(unlink(b"x").expect("ok").finish(number(-1, 13)), Err(Error::Os(13)));
    assert_eq!(stat(b"x").expect("ok").finish(with_mode(S_IFDIR)).expect("ok").mode(), S_IFDIR);
    assert_eq!(
        canonicalize(b"x").expect("ok").finish(with_bytes(0, b"SYS:x\0junk")),
        Ok(b"SYS:x".to_vec())
    );
    assert_eq!(canonicalize(b"x").expect("ok").finish(number(-1, 2)), Err(Error::Os(2)));
}

#[test]
fn a_file_that_is_not_found_is_not_there() {
    assert_eq!(path_exists(b"x").expect("ok").finish(number(0, 0)), Ok(true));
    assert_eq!(path_exists(b"x").expect("ok").finish(number(-1, 2)), Ok(false));
    assert_eq!(path_exists(b"x").expect("ok").finish(number(-1, 13)), Err(Error::Os(13)));
}

#[test]
fn a_link_is_read_with_more_room_while_the_buffer_is_full() {
    let op = readlink(b"l").expect("ok");
    assert_eq!(op.call(), FsCall::ReadLink { path: c("l"), len: 256 });
    let op = match op.resume(number(256, 0)) {
        Step::Ask(op) => op,
        Step::Done(_) => panic!("over"),
    };
    assert_eq!(op.call(), FsCall::ReadLink { path: c("l"), len: 512 });
    match op.resume(with_bytes(3, b"abcdef")) {
        Step::Done(r) => assert_eq!(r, Ok(b"abc".to_vec())),
        Step::Ask(_) => panic!("asked"),
    }
}

#[test]
fn a_link_that_never_fits_is_given_up_after_nine_calls() {
    let mut op = readlink(b"l").expect("ok");
    let mut calls = 0;
    loop {
        calls += 1;
        let full = op.cap as i64;
        match op.resume(number(full, 0)) {
            Step::Ask(next) => op = next,
            Step::Done(r) => {
                assert_eq!(r.err().map(|e| e.kind()), Some(ErrorKind::InvalidData));
                break;
            }
        }
    }
    assert_eq!(calls, 9);
}

#[test]
fn a_time_that_is_not_given_stays_as_it_is() {
    let mut times = FileTimes::default();
    times.set_modified(SystemTime::new(100, 5).expect("time"));
    let op = set_times(b"x", times).expect("ok");
    assert_eq!(op.call(), FsCall::Stat { path: c("x") });
    let mut reply = number(0, 0);
    reply.attr.atime_sec = 7;
    reply.attr.atime_nsec = 8;
    let op = match op.resume(reply) {
        Step::Ask(op) => op,
        Step::Done(_) => panic!("over"),
    };
    assert_eq!(
        op.call(),
        FsCall::Utimes { path: c("x"), atime_sec: 7, atime_nsec: 8, mtime_sec: 100, mtime_nsec: 5 }
    );
    match op.resume(number(0, 0)) {
        Step::Done(r) => assert_eq!(r, Ok(())),
        Step::Ask(_) => panic!("asked"),
    }
}

#[test]
fn both_times_are_set_without_asking() {
    let mut times = FileTimes::default();
    times.set_modified(SystemTime::new(1, 0).expect("time"));
    times.set_accessed(SystemTime::new(2, 0).expect("time"));
    let op = set_times(b"x", times).expect("ok");
    assert_eq!(
        op.call(),
        FsCall::Utimes { path: c("x"), atime_sec: 2, atime_nsec: 0, mtime_sec: 1, mtime_nsec: 0 }
    );
    assert_eq!(
        set_times_nofollow(b"x", times).err().map(|e| e.kind()),
        Some(ErrorKind::Unsupported)
    );
}

#[test]
fn a_directory_is_read_entry_by_entry() {
    let request = readdir(b"SYS:/C").expect("ok");
    assert_eq!(request.call, FsCall::OpenDir { path: c("SYS:C") });
    let dir = request.finish(number(77, 0)).expect("open");
    assert_eq!(dir.next().call, FsCall::ReadDir { dir: 77, len: 1024 });
    let mut reply = with_bytes(1, b"List\0\0");
    reply.dtype = DT_REG;
    let entry = dir.next().finish(reply).expect("entry").expect("ok");
    assert_eq!(entry.file_name(), b"List".to_vec());
    assert_eq!(entry.path(), b"SYS:/C/List".to_vec());
    assert!(dir.next().finish(number(0, 0)).is_none());
    match dir.next().finish(number(-1, 5)) {
        Some(Err(e)) => assert_eq!(e, Error::Os(5)),
        _ => panic!("no error"),
    }
    assert_eq!(dir.close(), FsCall::CloseDir { dir: 77 });
    assert_eq!(readdir(b"x").expect("ok").finish(number(0, 2)).err(), Some(Error::Os(2)));
}

fn entry(dtype: u32) -> DirEntry {
    DirEntry { name: b"n".to_vec(), dtype, root: b"d".to_vec() }
}

#[test]
fn the_kind_of_an_entry_is_asked_for_only_where_it_is_not_told() {
    match entry(DT_DIR).file_type() {
        Step::Done(Ok(kind)) => assert!(kind.is_dir()),
        _ => panic!("asked"),
    }
    match entry(DT_LNK).file_type() {
        Step::Done(Ok(kind)) => assert!(kind.is_symlink()),
        _ => panic!("asked"),
    }
    match entry(0).file_type() {
        Step::Ask(request) => {
            assert_eq!(request.call, FsCall::Stat { path: c("d/n") });
            assert!(request.finish(with_mode(S_IFREG)).expect("ok").is_file());
        }
        Step::Done(_) => panic!("not asked"),
    }
    assert_eq!(entry(0).metadata().expect("ok").call, FsCall::Stat { path: c("d/n") });
}

#[test]
fn the_standard_streams_are_descriptors() {
    assert_eq!(Stdin::new().read(8).call, FsCall::Read { fd: 0, len: 8 });
    assert_eq!(Stdout::new().write(b"x").call, FsCall::Write { fd: 1, data: b"x".to_vec() });
    assert_eq!(Stderr::new().write(b"x").call, FsCall::Write { fd: 2, data: b"x".to_vec() });
    assert_eq!(Stdout::new().flush(), Ok(()));
    assert_eq!(Stderr::new().flush(), Ok(()));
    assert!(is_ebadf(&Error::Os(9)) && !is_ebadf(&Error::Os(8)));
    assert!(panic_output().is_some());
}
