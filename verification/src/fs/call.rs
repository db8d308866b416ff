//! The file calls of the system, and what they answer.
use vstd::prelude::*;

use crate::error::Error;
use crate::op::Decode;
use crate::text::CString;

verus! {

/// A call to the file system.
#[derive(PartialEq, Eq, Debug)]
pub enum FsCall {
    /// `open`; the last counts only where the flags create a file, and is always passed.
    Open { path: CString, flags: i32, creation_mode: i32 },
    /// `read` into a buffer of that length.
    Read { fd: i32, len: usize },
    /// `write`.
    Write { fd: i32, data: Vec<u8> },
    /// `lseek`.
    Seek { fd: i32, offset: i64, whence: i32 },
    /// `close`.
    Close { fd: i32 },
    /// `dup`.
    Dup { fd: i32 },
    /// `ftruncate`.
    Truncate { fd: i32, length: i64 },
    /// `fchmod`.
    Fchmod { fd: i32, mode: u16 },
    /// `aros_fstat`.
    Fstat { fd: i32 },
    /// `aros_stat`.
    Stat { path: CString },
    /// `aros_lstat`.
    Lstat { path: CString },
    /// `unlink`.
    Unlink { path: CString },
    /// `rename`.
    Rename { old: CString, new: CString },
    /// `mkdir`.
    Mkdir { path: CString, mode: u16 },
    /// `rmdir`.
    Rmdir { path: CString },
    /// `chmod`.
    Chmod { path: CString, mode: u16 },
    /// `symlink`: a link at `link` that points to `target`.
    Symlink { target: CString, link: CString },
    /// `readlink` into a buffer of that length.
    ReadLink { path: CString, len: usize },
    /// `aros_realpath` into a buffer of that length.
    RealPath { path: CString, len: usize },
    /// `aros_utimes`.
    Utimes { path: CString, atime_sec: i64, atime_nsec: i64, mtime_sec: i64, mtime_nsec: i64 },
    /// `aros_opendir`.
    OpenDir { path: CString },
    /// `aros_readdir` with a name buffer of that length.
    ReadDir { dir: i64, len: usize },
    /// `aros_closedir`.
    CloseDir { dir: i64 },
}

/// What the system tells of a file.
#[derive(Clone, Copy, PartialEq, Eq, Debug)]
pub struct Attr {
    pub size: u64,
    pub mode: u32,
    pub nlink: u32,
    pub ino: u64,
    pub mtime_sec: i64,
    pub mtime_nsec: i64,
    pub atime_sec: i64,
    pub atime_nsec: i64,
    pub ctime_sec: i64,
    pub ctime_nsec: i64,
}

/// Nothing but zeros, as a call finds it.
pub open spec fn zero_attr() -> Attr {
    Attr {
        size: 0,
        mode: 0,
        nlink: 0,
        ino: 0,
        mtime_sec: 0,
        mtime_nsec: 0,
        atime_sec: 0,
        atime_nsec: 0,
        ctime_sec: 0,
        ctime_nsec: 0,
    }
}

impl Attr {
    /// Nothing but zeros, as a call finds it.
    pub fn zeroed() -> (a: Attr)
        ensures
            a == zero_attr(),
    {
        Attr {
            size: 0,
            mode: 0,
            nlink: 0,
            ino: 0,
            mtime_sec: 0,
            mtime_nsec: 0,
            atime_sec: 0,
            atime_nsec: 0,
            ctime_sec: 0,
            ctime_nsec: 0,
        }
    }
}

/// What a file call answers. What the call does not fill in is zero or empty.
#[derive(PartialEq, Eq, Debug)]
pub struct FsReply {
    /// The number that the call returned; of a call that returns a pointer, its address.
    pub ret: i64,
    /// The error number that the call left, which counts only where it failed.
    pub errno: i32,
    /// The buffer that the call filled, over its whole length.
    pub bytes: Vec<u8>,
    /// The type of the directory entry that the call read.
    pub dtype: u32,
    /// What the call told of a file.
    pub attr: Attr,
}

impl FsReply {
    /// The answer of a call that fills nothing in.
    pub fn number(ret: i64, errno: i32) -> (r: FsReply)
        ensures
            r.ret == ret,
            r.errno == errno,
            r.bytes@.len() == 0,
            r.dtype == 0,
            r.attr == zero_attr(),
    {
        FsReply { ret, errno, bytes: Vec::new(), dtype: 0, attr: Attr::zeroed() }
    }
}

/// A call that answers zero or fails.
pub struct Zero;

impl Decode for Zero {
    type Reply = FsReply;

    type Output = Result<(), Error>;

    open spec fn accepts(self, reply: FsReply) -> bool {
        true
    }

    open spec fn reads(self, reply: FsReply, out: Result<(), Error>) -> bool {
        out == if reply.ret == 0 {
            Ok::<(), Error>(())
        } else {
            Err(Error::Os(reply.errno))
        }
    }

    fn decode(self, reply: FsReply) -> (out: Result<(), Error>) {
        if reply.ret == 0 {
            Ok(())
        } else {
            Err(Error::Os(reply.errno))
        }
    }
}

/// A call that answers a number of bytes, or something negative where it fails.
pub struct Count;

impl Decode for Count {
    type Reply = FsReply;

    type Output = Result<usize, Error>;

    open spec fn accepts(self, reply: FsReply) -> bool {
        reply.ret <= usize::MAX
    }

    open spec fn reads(self, reply: FsReply, out: Result<usize, Error>) -> bool {
        match out {
            Ok(n) => reply.ret >= 0 && n == reply.ret,
            Err(e) => reply.ret < 0 && e == Error::Os(reply.errno),
        }
    }

    fn decode(self, reply: FsReply) -> (out: Result<usize, Error>) {
        if reply.ret < 0 {
            Err(Error::Os(reply.errno))
        } else {
            Ok(reply.ret as usize)
        }
    }
}

/// A call that answers a place in a file, or something negative where it fails.
pub struct Position;

impl Decode for Position {
    type Reply = FsReply;

    type Output = Result<u64, Error>;

    open spec fn accepts(self, reply: FsReply) -> bool {
        true
    }

    open spec fn reads(self, reply: FsReply, out: Result<u64, Error>) -> bool {
        match out {
            Ok(n) => reply.ret >= 0 && n == reply.ret,
            Err(e) => reply.ret < 0 && e == Error::Os(reply.errno),
        }
    }

    fn decode(self, reply: FsReply) -> (out: Result<u64, Error>) {
        if reply.ret < 0 {
            Err(Error::Os(reply.errno))
        } else {
            Ok(reply.ret as u64)
        }
    }
}

/// A call that answers zero or fails has worked exactly where it answered zero, and else the
/// error is the number that the system left.
pub proof fn only_zero_is_success(reply: FsReply, out: Result<(), Error>)
    requires
        Zero.reads(reply, out),
    ensures
        Zero.accepts(reply),
        out is Ok <==> reply.ret == 0,
        out matches Err(e) ==> e == Error::Os(reply.errno),
{
}

/// A number of bytes and a place in a file are the very numbers that were answered; what is
/// below zero is the error that the system left.
pub proof fn numbers_are_told_as_they_are(
    reply: FsReply,
    count: Result<usize, Error>,
    place: Result<u64, Error>,
)
    requires
        Count.reads(reply, count),
        Position.reads(reply, place),
    ensures
        reply.ret <= usize::MAX ==> Count.accepts(reply),
        Position.accepts(reply),
        count is Ok <==> reply.ret >= 0,
        count matches Ok(n) ==> n == reply.ret,
        count matches Err(e) ==> e == Error::Os(reply.errno),
        place is Ok <==> reply.ret >= 0,
        place matches Ok(n) ==> n == reply.ret,
        place matches Err(e) ==> e == Error::Os(reply.errno),
{
}

/// An answer that fills nothing in is its number and its error number, and zeros.
pub proof fn a_number_fills_nothing_in(ret: i64, errno: i32, r: FsReply, a: Attr)
    requires
        call_ensures(FsReply::number, (ret, errno), r),
        call_ensures(Attr::zeroed, (), a),
    ensures
        r.ret == ret && r.errno == errno && r.bytes@.len() == 0 && r.dtype == 0 && r.attr == a,
        a.size == 0 && a.mode == 0 && a.nlink == 0 && a.ino == 0,
        a.mtime_sec == 0 && a.mtime_nsec == 0 && a.atime_sec == 0 && a.atime_nsec == 0,
        a.ctime_sec == 0 && a.ctime_nsec == 0,
{
}

} // verus!
