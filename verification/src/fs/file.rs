//! Open files.
use vstd::prelude::*;

use crate::error::{Error, ErrorKind};
use crate::fs::attr::{Attributes, FilePermissions, FileTimes};
use crate::fs::call::{Count, FsCall, FsReply, Position, Zero};
use crate::fs::options::{OpenOptions, EINVAL};
use crate::fs::translate::{cstr, translated};
use crate::io::{
    find_nonempty, find_nonzero, first_nonempty, first_nonempty_is_found, first_nonzero,
    first_nonzero_is_found, ReadInto, SeekFrom, TryLockError,
};
use crate::op::{Decode, Request, Step};
use crate::text::{copy_of, nul_free};
use crate::time::signed;

verus! {

/// Seeks from the start.
pub const SEEK_SET: i32 = 0;

/// Seeks from the present place.
pub const SEEK_CUR: i32 = 1;

/// Seeks from the end.
pub const SEEK_END: i32 = 2;

/// An open file. Its view is the descriptor, which it owns: [`File::close`] has to be
/// asked for when it is given up.
#[derive(Debug)]
pub struct File {
    fd: i32,
}

impl View for File {
    type V = i32;

    closed spec fn view(&self) -> i32 {
        self.fd
    }
}

/// A call that answers a descriptor, or something negative where it fails.
pub struct Opened;

impl Decode for Opened {
    type Reply = FsReply;

    type Output = Result<File, Error>;

    open spec fn accepts(self, reply: FsReply) -> bool {
        reply.ret <= i32::MAX
    }

    open spec fn reads(self, reply: FsReply, out: Result<File, Error>) -> bool {
        match out {
            Ok(f) => reply.ret >= 0 && f@ == reply.ret,
            Err(e) => reply.ret < 0 && e == Error::Os(reply.errno),
        }
    }

    fn decode(self, reply: FsReply) -> (out: Result<File, Error>) {
        if reply.ret < 0 {
            Err(Error::Os(reply.errno))
        } else {
            Ok(File { fd: reply.ret as i32 })
        }
    }
}

/// The most that is read at once into a buffer that is not initialised yet.
pub const READ_BUF_CHUNK: usize = 512;

impl File {
    /// Opens a file. A path with a NUL is refused before options that make no sense are.
    pub fn open(path: &[u8], opts: &OpenOptions) -> (r: Result<Request<FsCall, Opened>, Error>)
        ensures
            match r {
                Ok(request) => nul_free(path@) && opts.sensible() && (request.call matches FsCall::Open {
                    path: p,
                    flags,
                    creation_mode,
                } && p@ == translated(path@) && flags == opts.open_flags() && creation_mode
                    == 0o666),
                Err(e) => if nul_free(path@) {
                    !opts.sensible() && e == Error::Os(EINVAL)
                } else {
                    e == Error::Simple(ErrorKind::InvalidInput)
                },
            },
    {
        let p = match cstr(path) {
            Ok(p) => p,
            Err(e) => return Err(e),
        };
        let flags: i32 = match opts.flags() {
            Ok(flags) => flags,
            Err(e) => return Err(e),
        };
        Ok(
            Request {
                call: FsCall::Open { path: p, flags, creation_mode: 0o666 },
                reading: Opened,
            },
        )
    }

    /// Reads into a buffer of that length.
    pub fn read(&self, len: usize) -> (r: Request<FsCall, Count>)
        ensures
            r.call == (FsCall::Read { fd: self@, len }),
    {
        Request { call: FsCall::Read { fd: self.fd, len }, reading: Count }
    }

    /// Reads into the first of several buffers that is not empty. Where all are, nothing
    /// is read.
    pub fn read_vectored(&self, lens: &[usize]) -> (r: Step<
        ReadInto<FsCall, Count>,
        Result<usize, Error>,
    >)
        ensures
            match r {
                Step::Ask(into) => {
                    &&& into.index == first_nonzero(lens@) < lens@.len()
                    &&& into.request.call == (FsCall::Read {
                        fd: self@,
                        len: lens@[into.index as int],
                    })
                },
                Step::Done(out) => first_nonzero(lens@) == lens@.len() && out == Ok::<usize, Error>(0),
            },
    {
        let index: usize = find_nonzero(lens);
        if index < lens.len() {
            Step::Ask(ReadInto { index, request: self.read(lens[index]) })
        } else {
            Step::Done(Ok(0))
        }
    }

    /// Several buffers are no faster than one.
    pub fn is_read_vectored(&self) -> (yes: bool)
        ensures
            !yes,
    {
        false
    }

    /// Reads behind what a buffer holds, into as much room as it has, but not into more
    /// than a small chunk.
    pub fn read_buf(&self, capacity: usize) -> (r: Request<FsCall, Count>)
        ensures
            r.call == (FsCall::Read {
                fd: self@,
                len: if capacity < READ_BUF_CHUNK {
                    capacity
                } else {
                    READ_BUF_CHUNK
                },
            }),
    {
        let len: usize = if capacity < READ_BUF_CHUNK {
            capacity
        } else {
            READ_BUF_CHUNK
        };
        self.read(len)
    }

    /// Writes.
    pub fn write(&self, buf: &[u8]) -> (r: Request<FsCall, Count>)
        ensures
            r.call matches FsCall::Write { fd, data } && fd == self@ && data@ == buf@,
    {
        Request { call: FsCall::Write { fd: self.fd, data: copy_of(buf) }, reading: Count }
    }

    /// Writes the first of several buffers that is not empty. Where all are, nothing is
    /// written.
    pub fn write_vectored(&self, bufs: &[Vec<u8>]) -> (r: Step<
        Request<FsCall, Count>,
        Result<usize, Error>,
    >)
        ensures
            match r {
                Step::Ask(request) => first_nonempty(bufs@) < bufs@.len() && (
                request.call matches FsCall::Write { fd, data } && fd == self@ && data@
                    == bufs@[first_nonempty(bufs@)]@),
                Step::Done(out) => first_nonempty(bufs@) == bufs@.len() && out == Ok::<usize, Error>(0),
            },
    {
        let index: usize = find_nonempty(bufs);
        if index < bufs.len() {
            Step::Ask(self.write(bufs[index].as_slice()))
        } else {
            Step::Done(Ok(0))
        }
    }

    /// Several buffers are no faster than one.
    pub fn is_write_vectored(&self) -> (yes: bool)
        ensures
            !yes,
    {
        false
    }

    /// Nothing is held back that would have to be flushed.
    pub fn flush(&self) -> (r: Result<(), Error>)
        ensures
            r == Ok::<(), Error>(()),
    {
        Ok(())
    }

    /// Seeks. A place behind the start is handed over as the bits it has.
    pub fn seek(&self, pos: SeekFrom) -> (r: Request<FsCall, Position>)
        ensures
            match pos {
                SeekFrom::Start(n) => r.call matches FsCall::Seek { fd, offset, whence } && fd
                    == self@ && offset == signed(n as int) && whence == SEEK_SET,
                SeekFrom::Current(n) => r.call == (FsCall::Seek {
                    fd: self@,
                    offset: n,
                    whence: SEEK_CUR,
                }),
                SeekFrom::End(n) => r.call == (FsCall::Seek {
                    fd: self@,
                    offset: n,
                    whence: SEEK_END,
                }),
            },
    {
        let (whence, offset): (i32, i64) = match pos {
            SeekFrom::Start(n) => {
                assert(n > i64::MAX ==> (n as i64) == n - 0x1_0000_0000_0000_0000) by (bit_vector);
                (SEEK_SET, n as i64)
            },
            SeekFrom::Current(n) => (SEEK_CUR, n),
            SeekFrom::End(n) => (SEEK_END, n),
        };
        Request { call: FsCall::Seek { fd: self.fd, offset, whence }, reading: Position }
    }

    /// Asks for the present place.
    pub fn tell(&self) -> (r: Request<FsCall, Position>)
        ensures
            r.call == (FsCall::Seek { fd: self@, offset: 0, whence: SEEK_CUR }),
    {
        Request {
            call: FsCall::Seek { fd: self.fd, offset: 0, whence: SEEK_CUR },
            reading: Position,
        }
    }

    /// The size is not known without asking for the attributes.
    pub fn size(&self) -> (r: Option<Result<u64, Error>>)
        ensures
            r is None,
    {
        None
    }

    /// Asks for what is known of the file.
    pub fn file_attr(&self) -> (r: Request<FsCall, Attributes>)
        ensures
            r.call == (FsCall::Fstat { fd: self@ }),
    {
        Request { call: FsCall::Fstat { fd: self.fd }, reading: Attributes }
    }

    /// There is nothing to wait for.
    pub fn fsync(&self) -> (r: Result<(), Error>)
        ensures
            r == Ok::<(), Error>(()),
    {
        Ok(())
    }

    /// There is nothing to wait for.
    pub fn datasync(&self) -> (r: Result<(), Error>)
        ensures
            r == Ok::<(), Error>(()),
    {
        Ok(())
    }

    /// Locks always succeed: there are none.
    pub fn lock(&self) -> (r: Result<(), Error>)
        ensures
            r == Ok::<(), Error>(()),
    {
        Ok(())
    }

    /// Locks always succeed: there are none.
    pub fn lock_shared(&self) -> (r: Result<(), Error>)
        ensures
            r == Ok::<(), Error>(()),
    {
        Ok(())
    }

    /// Locks always succeed: there are none.
    pub fn try_lock(&self) -> (r: Result<(), TryLockError>)
        ensures
            r == Ok::<(), TryLockError>(()),
    {
        Ok(())
    }

    /// Locks always succeed: there are none.
    pub fn try_lock_shared(&self) -> (r: Result<(), TryLockError>)
        ensures
            r == Ok::<(), TryLockError>(()),
    {
        Ok(())
    }

    /// Locks always succeed: there are none.
    pub fn unlock(&self) -> (r: Result<(), Error>)
        ensures
            r == Ok::<(), Error>(()),
    {
        Ok(())
    }

    /// Cuts or lengthens the file. The size is handed over as the bits it has.
    pub fn truncate(&self, size: u64) -> (r: Request<FsCall, Zero>)
        ensures
            r.call matches FsCall::Truncate { fd, length } && fd == self@ && length == signed(
                size as int,
            ),
    {
        assert(size > i64::MAX ==> (size as i64) == size - 0x1_0000_0000_0000_0000)
            by (bit_vector);
        Request { call: FsCall::Truncate { fd: self.fd, length: size as i64 }, reading: Zero }
    }

    /// Opens the same file once more.
    pub fn duplicate(&self) -> (r: Request<FsCall, Opened>)
        ensures
            r.call == (FsCall::Dup { fd: self@ }),
    {
        Request { call: FsCall::Dup { fd: self.fd }, reading: Opened }
    }

    /// Changes the permissions.
    pub fn set_permissions(&self, perm: FilePermissions) -> (r: Request<FsCall, Zero>)
        ensures
            r.call matches FsCall::Fchmod { fd, mode } && fd == self@ && mode == perm@ & 0o7777,
    {
        Request { call: FsCall::Fchmod { fd: self.fd, mode: perm.to_mode_t() }, reading: Zero }
    }

    /// The system has no call to set times through a descriptor.
    pub fn set_times(&self, times: FileTimes) -> (r: Result<(), Error>)
        ensures
            r == Err::<(), Error>(
                Error::Message(
                    ErrorKind::Unsupported,
                    "setting file times through an open handle is not available on AROS (no futimes)",
                ),
            ),
    {
        Err(
            Error::Message(
                ErrorKind::Unsupported,
                "setting file times through an open handle is not available on AROS (no futimes)",
            ),
        )
    }

    /// The descriptor, which the file goes on owning.
    pub fn descriptor(&self) -> (fd: i32)
        ensures
            fd == self@,
    {
        self.fd
    }

    /// Gives the file up. What the call answers does not matter.
    pub fn close(self) -> (call: FsCall)
        ensures
            call == (FsCall::Close { fd: self@ }),
    {
        FsCall::Close { fd: self.fd }
    }
}

/// A file is opened by its path with the flags that its options ask for, and made for everybody
/// to read and write; a NUL in the path is refused before options that make no sense are.
pub proof fn a_file_is_opened_as_asked(
    path: &[u8],
    opts: OpenOptions,
    flags: Result<i32, Error>,
    r: Result<Request<FsCall, Opened>, Error>,
)
    requires
        call_ensures(OpenOptions::flags, (&opts,), flags),
        call_ensures(File::open, (path, &opts), r),
    ensures
        r is Ok <==> nul_free(path@) && flags is Ok,
        r matches Ok(request) ==> (request.call matches FsCall::Open {
            path: p,
            flags: f,
            creation_mode,
        } && p@ == translated(path@) && flags == Ok::<i32, Error>(f) && creation_mode == 0o666),
        r matches Err(e) ==> if nul_free(path@) {
            flags == Err::<i32, Error>(e)
        } else {
            e == Error::Simple(ErrorKind::InvalidInput)
        },
{
}

/// An opened file is the descriptor that was answered, and nothing below zero is one.
pub proof fn an_opened_file_is_its_descriptor(reply: FsReply, out: Result<File, Error>, fd: i32)
    requires
        Opened.reads(reply, out),
        out matches Ok(f) ==> call_ensures(File::descriptor, (&f,), fd),
    ensures
        reply.ret <= i32::MAX ==> Opened.accepts(reply),
        out is Ok <==> reply.ret >= 0,
        out matches Ok(f) ==> f@ == reply.ret && fd == reply.ret,
        out matches Err(e) ==> e == Error::Os(reply.errno),
{
}

/// Every call on an open file is made on its own descriptor, and is the call that its name
/// says, with all the room or all the bytes that it was given.
pub proof fn calls_are_made_on_their_descriptor(
    f: File,
    len: usize,
    buf: &[u8],
    size: u64,
    perm: FilePermissions,
)
    ensures
        forall|r: Request<FsCall, Count>| #[trigger]
            call_ensures(File::read, (&f, len), r) ==> r.call == (FsCall::Read { fd: f@, len }),
        forall|r: Request<FsCall, Count>| #[trigger]
            call_ensures(File::read_buf, (&f, len), r) ==> r.call == (FsCall::Read {
                fd: f@,
                len: if len < 512 {
                    len
                } else {
                    512
                },
            }),
        forall|r: Request<FsCall, Count>| #[trigger]
            call_ensures(File::write, (&f, buf), r) ==> (r.call matches FsCall::Write { fd, data }
                && fd == f@ && data@ == buf@),
        forall|r: Request<FsCall, Attributes>| #[trigger]
            call_ensures(File::file_attr, (&f,), r) ==> r.call == (FsCall::Fstat { fd: f@ }),
        forall|r: Request<FsCall, Zero>| #[trigger]
            call_ensures(File::truncate, (&f, size), r) ==> (r.call matches FsCall::Truncate {
                fd,
                length,
            } && fd == f@ && (size <= i64::MAX ==> length == size) && (size > i64::MAX ==> length
                == size - 0x1_0000_0000_0000_0000)),
        forall|r: Request<FsCall, Opened>| #[trigger]
            call_ensures(File::duplicate, (&f,), r) ==> r.call == (FsCall::Dup { fd: f@ }),
        forall|r: Request<FsCall, Zero>| #[trigger]
            call_ensures(File::set_permissions, (&f, perm), r) ==> (
            r.call matches FsCall::Fchmod { fd, mode } && fd == f@ && mode as u32 == perm@
                & 0o7777),
        forall|call: FsCall| #[trigger]
            call_ensures(File::close, (f,), call) ==> call == (FsCall::Close { fd: f@ }),
        forall|r: Request<FsCall, Position>| #[trigger]
            call_ensures(File::tell, (&f,), r) ==> r.call == (FsCall::Seek {
                fd: f@,
                offset: 0,
                whence: 1,
            }),
{
}

/// A file is sought from where it was said: from its start, from the present place, or from its
/// end, by the offset that was said.
pub proof fn a_file_is_sought_from_where_it_was_said(
    f: File,
    n: u64,
    m: i64,
    start: Request<FsCall, Position>,
    current: Request<FsCall, Position>,
    end: Request<FsCall, Position>,
)
    requires
        call_ensures(File::seek, (&f, SeekFrom::Start(n)), start),
        call_ensures(File::seek, (&f, SeekFrom::Current(m)), current),
        call_ensures(File::seek, (&f, SeekFrom::End(m)), end),
    ensures
        start.call matches FsCall::Seek { fd, offset, whence } && fd == f@ && whence == 0 && (n
            <= i64::MAX ==> offset == n) && (n > i64::MAX ==> offset == n
            - 0x1_0000_0000_0000_0000),
        current.call == (FsCall::Seek { fd: f@, offset: m, whence: 1 }),
        end.call == (FsCall::Seek { fd: f@, offset: m, whence: 2 }),
{
}

/// Of several buffers the first that has any room is read into, with all of its room, and the
/// first that holds anything is written, all of it; where there is none, nothing is asked of
/// the system.
pub proof fn the_first_useful_buffer_is_used(
    f: File,
    lens: &[usize],
    bufs: &[Vec<u8>],
    i: int,
    into: Step<ReadInto<FsCall, Count>, Result<usize, Error>>,
    from: Step<Request<FsCall, Count>, Result<usize, Error>>,
)
    requires
        call_ensures(File::read_vectored, (&f, lens), into),
        call_ensures(File::write_vectored, (&f, bufs), from),
    ensures
        0 <= i < lens@.len() && lens@[i] != 0 && (forall|k: int| 0 <= k < i ==> lens@[k] == 0)
            ==> (into matches Step::Ask(read) && read.index == i && read.request.call
            == (FsCall::Read { fd: f@, len: lens@[i] })),
        (forall|k: int| 0 <= k < lens@.len() ==> lens@[k] == 0) ==> into == Step::<
            ReadInto<FsCall, Count>,
            Result<usize, Error>,
        >::Done(Ok(0)),
        0 <= i < bufs@.len() && bufs@[i]@.len() != 0 && (forall|k: int|
            0 <= k < i ==> (#[trigger] bufs@[k])@.len() == 0) ==> (from matches Step::Ask(write)
            && (write.call matches FsCall::Write { fd, data } && fd == f@ && data@ == bufs@[i]@)),
        (forall|k: int| 0 <= k < bufs@.len() ==> (#[trigger] bufs@[k])@.len() == 0) ==> from
            == Step::<Request<FsCall, Count>, Result<usize, Error>>::Done(Ok(0)),
{
    first_nonzero_is_found(lens@, i);
    first_nonempty_is_found(bufs@, i);
}

/// Nothing of a file is held back, there are no locks to wait for, several buffers are no faster
/// than one, and times are not set through an open file.
pub proof fn nothing_is_held_back(f: File, times: FileTimes)
    ensures
        forall|r: Result<(), Error>| #[trigger] call_ensures(File::flush, (&f,), r) ==> r is Ok,
        forall|r: Result<(), Error>| #[trigger] call_ensures(File::fsync, (&f,), r) ==> r is Ok,
        forall|r: Result<(), Error>| #[trigger] call_ensures(File::datasync, (&f,), r) ==> r is Ok,
        forall|r: Result<(), Error>| #[trigger] call_ensures(File::lock, (&f,), r) ==> r is Ok,
        forall|r: Result<(), Error>| #[trigger]
            call_ensures(File::lock_shared, (&f,), r) ==> r is Ok,
        forall|r: Result<(), TryLockError>| #[trigger]
            call_ensures(File::try_lock, (&f,), r) ==> r is Ok,
        forall|r: Result<(), TryLockError>| #[trigger]
            call_ensures(File::try_lock_shared, (&f,), r) ==> r is Ok,
        forall|r: Result<(), Error>| #[trigger] call_ensures(File::unlock, (&f,), r) ==> r is Ok,
        forall|r: Option<Result<u64, Error>>| #[trigger]
            call_ensures(File::size, (&f,), r) ==> r is None,
        forall|yes: bool| #[trigger] call_ensures(File::is_read_vectored, (&f,), yes) ==> !yes,
        forall|yes: bool| #[trigger] call_ensures(File::is_write_vectored, (&f,), yes) ==> !yes,
        forall|r: Result<(), Error>| #[trigger]
            call_ensures(File::set_times, (&f, times), r) ==> (r matches Err(e) && e
                == Error::Message(
                ErrorKind::Unsupported,
                "setting file times through an open handle is not available on AROS (no futimes)",
            )),
{
}

} // verus!
