//! What is done to files by their path.
use vstd::prelude::*;

use crate::error::{kind_of_code, unsupported, unsupported_platform, Error, ErrorKind};
use crate::fs::attr::{Attributes, FileAttr, FilePermissions, FileTimes};
use crate::fs::call::{FsCall, FsReply, Zero};
use crate::fs::translate::{cstr, translated};
use crate::op::{Decode, Operation, Request, Step};
use crate::text::{copy_range, first, first_is_first, nul_free, until_nul, CString};
use crate::time::{nanos_of, secs_of, time_of, SystemTime};

verus! {

/// The length of the buffer for a whole path.
pub const PATH_MAX: usize = 1024;

/// Whether a request on one path came out right: a call on the path as AROS reads it, or
/// a refusal for the NUL in it.
pub open spec fn on_path<D>(
    r: Result<Request<FsCall, D>, Error>,
    path: Seq<u8>,
    call: spec_fn(FsCall) -> bool,
) -> bool {
    match r {
        Ok(request) => nul_free(path) && call(request.call),
        Err(e) => !nul_free(path) && e == Error::Simple(ErrorKind::InvalidInput),
    }
}

/// Asks for what is known of a file, following links.
pub fn stat(p: &[u8]) -> (r: Result<Request<FsCall, Attributes>, Error>)
    ensures
        on_path(
            r,
            p@,
            |call: FsCall| call matches FsCall::Stat { path } && path@ == translated(p@),
        ),
{
    match cstr(p) {
        Ok(path) => Ok(Request { call: FsCall::Stat { path }, reading: Attributes }),
        Err(e) => Err(e),
    }
}

/// Asks for what is known of a file or a link itself.
pub fn lstat(p: &[u8]) -> (r: Result<Request<FsCall, Attributes>, Error>)
    ensures
        on_path(
            r,
            p@,
            |call: FsCall| call matches FsCall::Lstat { path } && path@ == translated(p@),
        ),
{
    match cstr(p) {
        Ok(path) => Ok(Request { call: FsCall::Lstat { path }, reading: Attributes }),
        Err(e) => Err(e),
    }
}

/// Removes a file.
pub fn unlink(p: &[u8]) -> (r: Result<Request<FsCall, Zero>, Error>)
    ensures
        on_path(
            r,
            p@,
            |call: FsCall| call matches FsCall::Unlink { path } && path@ == translated(p@),
        ),
{
    match cstr(p) {
        Ok(path) => Ok(Request { call: FsCall::Unlink { path }, reading: Zero }),
        Err(e) => Err(e),
    }
}

/// Removes an empty directory.
pub fn rmdir(p: &[u8]) -> (r: Result<Request<FsCall, Zero>, Error>)
    ensures
        on_path(
            r,
            p@,
            |call: FsCall| call matches FsCall::Rmdir { path } && path@ == translated(p@),
        ),
{
    match cstr(p) {
        Ok(path) => Ok(Request { call: FsCall::Rmdir { path }, reading: Zero }),
        Err(e) => Err(e),
    }
}

/// Renames a file.
pub fn rename(old_path: &[u8], new_path: &[u8]) -> (r: Result<Request<FsCall, Zero>, Error>)
    ensures
        match r {
            Ok(request) => nul_free(old_path@) && nul_free(new_path@) && (
            request.call matches FsCall::Rename { old: a, new: b } && a@ == translated(old_path@)
                && b@ == translated(new_path@)),
            Err(e) => !(nul_free(old_path@) && nul_free(new_path@)) && e == Error::Simple(
                ErrorKind::InvalidInput,
            ),
        },
{
    let a: CString = match cstr(old_path) {
        Ok(a) => a,
        Err(e) => return Err(e),
    };
    match cstr(new_path) {
        Ok(b) => Ok(Request { call: FsCall::Rename { old: a, new: b }, reading: Zero }),
        Err(e) => Err(e),
    }
}

/// Changes the permissions of a file.
pub fn set_perm(p: &[u8], perm: FilePermissions) -> (r: Result<Request<FsCall, Zero>, Error>)
    ensures
        on_path(
            r,
            p@,
            |call: FsCall|
                call matches FsCall::Chmod { path, mode } && path@ == translated(p@) && mode
                    == perm@ & 0o7777,
        ),
{
    match cstr(p) {
        Ok(path) => Ok(
            Request { call: FsCall::Chmod { path, mode: perm.to_mode_t() }, reading: Zero },
        ),
        Err(e) => Err(e),
    }
}

/// Makes a symbolic link at `link` that points to `original`.
pub fn symlink(original: &[u8], link: &[u8]) -> (r: Result<Request<FsCall, Zero>, Error>)
    ensures
        match r {
            Ok(request) => nul_free(original@) && nul_free(link@) && (
            request.call matches FsCall::Symlink { target, link: l } && target@ == translated(
                original@,
            ) && l@ == translated(link@)),
            Err(e) => !(nul_free(original@) && nul_free(link@)) && e == Error::Simple(
                ErrorKind::InvalidInput,
            ),
        },
{
    let target: CString = match cstr(original) {
        Ok(target) => target,
        Err(e) => return Err(e),
    };
    match cstr(link) {
        Ok(link) => Ok(Request { call: FsCall::Symlink { target, link }, reading: Zero }),
        Err(e) => Err(e),
    }
}

/// There are no hard links to be made.
pub fn link(src: &[u8], dst: &[u8]) -> (r: Result<(), Error>)
    ensures
        r == Err::<(), Error>(unsupported_platform()),
{
    unsupported()
}

/// A call that tells of a file, where only its being there is wanted. A file that is not
/// found is not there; any other failure leaves it open.
pub struct IsThere;

impl Decode for IsThere {
    type Reply = FsReply;

    type Output = Result<bool, Error>;

    open spec fn accepts(self, reply: FsReply) -> bool {
        true
    }

    open spec fn reads(self, reply: FsReply, out: Result<bool, Error>) -> bool {
        out == if reply.ret == 0 {
            Ok::<bool, Error>(true)
        } else if kind_of_code(reply.errno) == ErrorKind::NotFound {
            Ok(false)
        } else {
            Err(Error::Os(reply.errno))
        }
    }

    fn decode(self, reply: FsReply) -> (out: Result<bool, Error>) {
        match Attributes.decode(reply) {
            Ok(_) => Ok(true),
            Err(e) => if e.kind() == ErrorKind::NotFound {
                Ok(false)
            } else {
                Err(e)
            },
        }
    }
}

/// Asks whether a file is there.
pub fn path_exists(p: &[u8]) -> (r: Result<Request<FsCall, IsThere>, Error>)
    ensures
        on_path(
            r,
            p@,
            |call: FsCall| call matches FsCall::Stat { path } && path@ == translated(p@),
        ),
{
    match stat(p) {
        Ok(request) => Ok(Request { call: request.call, reading: IsThere }),
        Err(e) => Err(e),
    }
}

/// A call that fills a buffer with a path and answers zero, or fails.
pub struct WholePath;

impl Decode for WholePath {
    type Reply = FsReply;

    type Output = Result<Vec<u8>, Error>;

    open spec fn accepts(self, reply: FsReply) -> bool {
        true
    }

    open spec fn reads(self, reply: FsReply, out: Result<Vec<u8>, Error>) -> bool {
        match out {
            Ok(path) => reply.ret == 0 && path@ == reply.bytes@.take(first(reply.bytes@, 0)),
            Err(e) => reply.ret != 0 && e == Error::Os(reply.errno),
        }
    }

    fn decode(self, reply: FsReply) -> (out: Result<Vec<u8>, Error>) {
        if reply.ret != 0 {
            Err(Error::Os(reply.errno))
        } else {
            Ok(until_nul(reply.bytes.as_slice()))
        }
    }
}

/// Asks for the absolute path of a file, with assigns, links and steps up resolved.
pub fn canonicalize(p: &[u8]) -> (r: Result<Request<FsCall, WholePath>, Error>)
    ensures
        on_path(
            r,
            p@,
            |call: FsCall|
                call matches FsCall::RealPath { path, len } && path@ == translated(p@) && len
                    == PATH_MAX,
        ),
{
    match cstr(p) {
        Ok(path) => Ok(
            Request { call: FsCall::RealPath { path, len: PATH_MAX }, reading: WholePath },
        ),
        Err(e) => Err(e),
    }
}

// ------------------------------------------------------------------------------------
// Reading links
// ------------------------------------------------------------------------------------

/// The length of the first buffer for the target of a link.
pub const LINK_FIRST: usize = 256;

/// The longest buffer for the target of a link.
pub const LINK_MAX: usize = 65536;

/// Reading where a link points to. The system does not tell how long that is, so a buffer
/// that comes back full is followed by one of twice the length, up to a limit.
pub struct ReadLink {
    /// The link.
    pub path: CString,
    /// The length of the buffer.
    pub cap: usize,
}

impl Operation for ReadLink {
    type Call = FsCall;

    type Reply = FsReply;

    type Output = Result<Vec<u8>, Error>;

    open spec fn asks(self, call: FsCall) -> bool {
        call matches FsCall::ReadLink { path, len } && path@ == self.path@ && len == self.cap
    }

    open spec fn accepts(self, reply: FsReply) -> bool {
        0 <= reply.ret < self.cap ==> reply.ret <= reply.bytes@.len()
    }

    open spec fn leads_to(
        self,
        reply: FsReply,
        step: Step<ReadLink, Result<Vec<u8>, Error>>,
    ) -> bool {
        match step {
            Step::Ask(next) => {
                &&& reply.ret >= self.cap
                &&& self.cap < LINK_MAX
                &&& next.path == self.path
                &&& next.cap == if self.cap * 2 < LINK_MAX {
                    self.cap * 2
                } else {
                    LINK_MAX as int
                }
            },
            Step::Done(Ok(target)) => 0 <= reply.ret < self.cap && target@ == reply.bytes@.take(
                reply.ret as int,
            ),
            Step::Done(Err(e)) => if reply.ret < 0 {
                e == Error::Os(reply.errno)
            } else {
                &&& reply.ret >= self.cap
                &&& self.cap >= LINK_MAX
                &&& e == Error::Message(
                    ErrorKind::InvalidData,
                    "readlink target exceeds the maximum symlink length",
                )
            },
        }
    }

    fn call(&self) -> (call: FsCall) {
        FsCall::ReadLink { path: self.path.duplicate(), len: self.cap }
    }

    fn resume(self, reply: FsReply) -> (step: Step<ReadLink, Result<Vec<u8>, Error>>) {
        if reply.ret < 0 {
            return Step::Done(Err(Error::Os(reply.errno)));
        }
        let n: u64 = reply.ret as u64;
        if n < self.cap as u64 {
            let target: Vec<u8> = copy_range(reply.bytes.as_slice(), 0, n as usize);
            return Step::Done(Ok(target));
        }
        if self.cap >= LINK_MAX {
            return Step::Done(
                Err(
                    Error::Message(
                        ErrorKind::InvalidData,
                        "readlink target exceeds the maximum symlink length",
                    ),
                ),
            );
        }
        let cap: usize = if self.cap * 2 < LINK_MAX {
            self.cap * 2
        } else {
            LINK_MAX
        };
        Step::Ask(ReadLink { path: self.path, cap })
    }
}

/// Reads where a link points to.
pub fn readlink(p: &[u8]) -> (r: Result<ReadLink, Error>)
    ensures
        match r {
            Ok(op) => nul_free(p@) && op.path@ == translated(p@) && op.cap == LINK_FIRST,
            Err(e) => !nul_free(p@) && e == Error::Simple(ErrorKind::InvalidInput),
        },
{
    match cstr(p) {
        Ok(path) => Ok(ReadLink { path, cap: LINK_FIRST }),
        Err(e) => Err(e),
    }
}

/// The most calls that reading a link can still make with a buffer of that length.
pub open spec fn link_calls(cap: int) -> nat
    decreases LINK_MAX - cap,
{
    if cap >= LINK_MAX || cap <= 0 {
        1
    } else {
        1 + link_calls(
            if cap * 2 < LINK_MAX {
                cap * 2
            } else {
                LINK_MAX as int
            },
        )
    }
}

/// Reading a link is over after nine calls at most, and never uses a buffer longer than
/// the limit: every call that does not end it leaves one call less.
pub proof fn reading_a_link_ends(op: ReadLink, reply: FsReply, next: ReadLink)
    requires
        0 < op.cap <= LINK_MAX,
        op.leads_to(reply, Step::Ask(next)),
    ensures
        op.cap < next.cap <= LINK_MAX,
        link_calls(next.cap as int) + 1 == link_calls(op.cap as int),
        link_calls(LINK_FIRST as int) == 9,
{
    reveal_with_fuel(link_calls, 10);
}

// ------------------------------------------------------------------------------------
// Setting times
// ------------------------------------------------------------------------------------

/// Giving a file its times. The system sets both at once, so where only one is given the
/// file is asked for the other first.
pub enum SetTimes {
    /// Asking for the times that are there.
    Looking { path: CString, times: FileTimes },
    /// Setting both.
    Setting { path: CString, accessed: SystemTime, modified: SystemTime },
}

/// The time to set: the one that is given, or else the one that is there.
pub open spec fn time_to_set(given: Option<SystemTime>, there_sec: i64, there_nsec: i64) -> nat {
    match given {
        Some(t) => t@,
        None => time_of(there_sec, there_nsec),
    }
}

impl Operation for SetTimes {
    type Call = FsCall;

    type Reply = FsReply;

    type Output = Result<(), Error>;

    open spec fn asks(self, call: FsCall) -> bool {
        match self {
            SetTimes::Looking { path, .. } => call matches FsCall::Stat { path: p } && p@ == path@,
            SetTimes::Setting { path, accessed, modified } => {
                call matches FsCall::Utimes {
                    path: p,
                    atime_sec,
                    atime_nsec,
                    mtime_sec,
                    mtime_nsec,
                } && p@ == path@ && atime_sec == secs_of(accessed@) && atime_nsec == nanos_of(
                    accessed@,
                ) && mtime_sec == secs_of(modified@) && mtime_nsec == nanos_of(modified@)
            },
        }
    }

    open spec fn accepts(self, reply: FsReply) -> bool {
        true
    }

    open spec fn leads_to(self, reply: FsReply, step: Step<SetTimes, Result<(), Error>>) -> bool {
        match self {
            SetTimes::Looking { path, times } => if reply.ret != 0 {
                step == Step::<SetTimes, Result<(), Error>>::Done(Err(Error::Os(reply.errno)))
            } else {
                step matches Step::Ask(SetTimes::Setting { path: p, accessed, modified }) && p
                    == path && accessed@ == time_to_set(
                    times.accessed,
                    reply.attr.atime_sec,
                    reply.attr.atime_nsec,
                ) && modified@ == time_to_set(
                    times.modified,
                    reply.attr.mtime_sec,
                    reply.attr.mtime_nsec,
                )
            },
            SetTimes::Setting { .. } => step == Step::<SetTimes, Result<(), Error>>::Done(
                if reply.ret == 0 {
                    Ok(())
                } else {
                    Err(Error::Os(reply.errno))
                },
            ),
        }
    }

    fn call(&self) -> (call: FsCall) {
        match self {
            SetTimes::Looking { path, .. } => FsCall::Stat { path: path.duplicate() },
            SetTimes::Setting { path, accessed, modified } => {
                let (atime_sec, atime_nsec): (i64, i64) = accessed.to_secs_nanos();
                let (mtime_sec, mtime_nsec): (i64, i64) = modified.to_secs_nanos();
                FsCall::Utimes {
                    path: path.duplicate(),
                    atime_sec,
                    atime_nsec,
                    mtime_sec,
                    mtime_nsec,
                }
            },
        }
    }

    fn resume(self, reply: FsReply) -> (step: Step<SetTimes, Result<(), Error>>) {
        match self {
            SetTimes::Looking { path, times } => {
                let attr: FileAttr = match Attributes.decode(reply) {
                    Ok(attr) => attr,
                    Err(e) => return Step::Done(Err(e)),
                };
                let accessed: SystemTime = match times.accessed {
                    Some(t) => t,
                    None => match attr.accessed() {
                        Ok(t) => t,
                        Err(e) => return Step::Done(Err(e)),
                    },
                };
                let modified: SystemTime = match times.modified {
                    Some(t) => t,
                    None => match attr.modified() {
                        Ok(t) => t,
                        Err(e) => return Step::Done(Err(e)),
                    },
                };
                Step::Ask(SetTimes::Setting { path, accessed, modified })
            },
            SetTimes::Setting { .. } => Step::Done(Zero.decode(reply)),
        }
    }
}

/// Gives a file its times.
pub fn set_times(p: &[u8], times: FileTimes) -> (r: Result<SetTimes, Error>)
    ensures
        match r {
            Ok(op) => nul_free(p@) && match (times.accessed, times.modified) {
                (Some(a), Some(m)) => op matches SetTimes::Setting { path, accessed, modified }
                    && path@ == translated(p@) && accessed == a && modified == m,
                _ => op matches SetTimes::Looking { path, times: t } && path@ == translated(p@)
                    && t == times,
            },
            Err(e) => !nul_free(p@) && e == Error::Simple(ErrorKind::InvalidInput),
        },
{
    let path: CString = match cstr(p) {
        Ok(path) => path,
        Err(e) => return Err(e),
    };
    match (times.accessed, times.modified) {
        (Some(accessed), Some(modified)) => Ok(SetTimes::Setting { path, accessed, modified }),
        _ => Ok(SetTimes::Looking { path, times }),
    }
}

/// Giving a file only one of its times leaves the other as the file has it: what is set
/// is what the file was found with, in the same seconds and nanoseconds.
pub proof fn unset_times_are_kept(path: CString, times: FileTimes, reply: FsReply, next: SetTimes)
    requires
        (SetTimes::Looking { path, times }).leads_to(reply, Step::Ask(next)),
        times.accessed is None ==> reply.attr.atime_sec >= 0 && 0 <= reply.attr.atime_nsec
            < 1_000_000_000,
        times.modified is None ==> reply.attr.mtime_sec >= 0 && 0 <= reply.attr.mtime_nsec
            < 1_000_000_000,
    ensures
        forall|call: FsCall| #[trigger]
            next.asks(call) ==> (call matches FsCall::Utimes {
                path: p,
                atime_sec,
                atime_nsec,
                mtime_sec,
                mtime_nsec,
            } && p@ == path@ && (times.accessed is None ==> atime_sec == reply.attr.atime_sec
                && atime_nsec == reply.attr.atime_nsec) && (times.modified is None ==> mtime_sec
                == reply.attr.mtime_sec && mtime_nsec == reply.attr.mtime_nsec)),
{
}

/// The times of a link itself cannot be set without following it.
pub fn set_times_nofollow(p: &[u8], times: FileTimes) -> (r: Result<(), Error>)
    ensures
        r == Err::<(), Error>(
            Error::Message(
                ErrorKind::Unsupported,
                "setting a symlink's own times is not available on AROS (no lutimes)",
            ),
        ),
{
    Err(
        Error::Message(
            ErrorKind::Unsupported,
            "setting a symlink's own times is not available on AROS (no lutimes)",
        ),
    )
}

/// Every call on one path is made on that path and is the call that its name says: a file is
/// asked about through its links or not through them, removed as a file or as a directory.
pub proof fn calls_are_made_on_their_path(
    p: &[u8],
    stated: Result<Request<FsCall, Attributes>, Error>,
    lstated: Result<Request<FsCall, Attributes>, Error>,
    unlinked: Result<Request<FsCall, Zero>, Error>,
    removed: Result<Request<FsCall, Zero>, Error>,
    sought: Result<Request<FsCall, IsThere>, Error>,
    resolved: Result<Request<FsCall, WholePath>, Error>,
)
    requires
        call_ensures(stat, (p,), stated),
        call_ensures(lstat, (p,), lstated),
        call_ensures(unlink, (p,), unlinked),
        call_ensures(rmdir, (p,), removed),
        call_ensures(path_exists, (p,), sought),
        call_ensures(canonicalize, (p,), resolved),
    ensures
        stated is Ok <==> nul_free(p@),
        lstated is Ok <==> nul_free(p@),
        unlinked is Ok <==> nul_free(p@),
        removed is Ok <==> nul_free(p@),
        sought is Ok <==> nul_free(p@),
        resolved is Ok <==> nul_free(p@),
        stated matches Ok(r) ==> (r.call matches FsCall::Stat { path } && path@ == translated(p@)),
        lstated matches Ok(r) ==> (r.call matches FsCall::Lstat { path } && path@ == translated(
            p@,
        )),
        unlinked matches Ok(r) ==> (r.call matches FsCall::Unlink { path } && path@ == translated(
            p@,
        )),
        removed matches Ok(r) ==> (r.call matches FsCall::Rmdir { path } && path@ == translated(
            p@,
        )),
        sought matches Ok(r) ==> (r.call matches FsCall::Stat { path } && path@ == translated(p@)),
        resolved matches Ok(r) ==> (r.call matches FsCall::RealPath { path, len } && path@
            == translated(p@) && len == 1024),
        stated matches Err(e) ==> e == Error::Simple(ErrorKind::InvalidInput),
        lstated matches Err(e) ==> e == Error::Simple(ErrorKind::InvalidInput),
        unlinked matches Err(e) ==> e == Error::Simple(ErrorKind::InvalidInput),
        removed matches Err(e) ==> e == Error::Simple(ErrorKind::InvalidInput),
        sought matches Err(e) ==> e == Error::Simple(ErrorKind::InvalidInput),
        resolved matches Err(e) ==> e == Error::Simple(ErrorKind::InvalidInput),
{
}

/// A file is renamed from its old path to its new one, and a link is made at the second path
/// that points to the first; neither is ever the other way round.
pub proof fn two_paths_are_not_swapped(
    a: &[u8],
    b: &[u8],
    renamed: Result<Request<FsCall, Zero>, Error>,
    linked: Result<Request<FsCall, Zero>, Error>,
)
    requires
        call_ensures(rename, (a, b), renamed),
        call_ensures(symlink, (a, b), linked),
    ensures
        renamed is Ok <==> nul_free(a@) && nul_free(b@),
        linked is Ok <==> nul_free(a@) && nul_free(b@),
        renamed matches Ok(r) ==> (r.call matches FsCall::Rename { old: from, new: to } && from@
            == translated(a@) && to@ == translated(b@)),
        linked matches Ok(r) ==> (r.call matches FsCall::Symlink { target, link } && target@
            == translated(a@) && link@ == translated(b@)),
        renamed matches Err(e) ==> e == Error::Simple(ErrorKind::InvalidInput),
        linked matches Err(e) ==> e == Error::Simple(ErrorKind::InvalidInput),
        forall|r: Result<(), Error>| #[trigger] call_ensures(link, (a, b), r) ==> r is Err,
{
}

/// The permissions that a file is given are those that were asked for, in all of their lower
/// twelve bits.
pub proof fn permissions_are_given_as_asked(
    p: &[u8],
    perm: FilePermissions,
    r: Result<Request<FsCall, Zero>, Error>,
)
    requires
        call_ensures(set_perm, (p, perm), r),
    ensures
        r is Ok <==> nul_free(p@),
        r matches Ok(request) ==> (request.call matches FsCall::Chmod { path, mode } && path@
            == translated(p@) && mode as u32 == perm@ & 0o7777),
        r matches Err(e) ==> e == Error::Simple(ErrorKind::InvalidInput),
{
}

/// A file is there where the system tells of it, and is not where the system says that it was
/// not found; any other failure is neither, and is returned.
pub proof fn only_what_is_not_found_is_not_there(reply: FsReply, out: Result<bool, Error>)
    requires
        IsThere.reads(reply, out),
    ensures
        out == Ok::<bool, Error>(true) <==> reply.ret == 0,
        out == Ok::<bool, Error>(false) <==> reply.ret != 0 && reply.errno == 2,
        out matches Err(e) ==> e == Error::Os(reply.errno),
{
}

/// An absolute path is all that the system wrote before the NUL in the buffer.
pub proof fn a_whole_path_is_read_whole(reply: FsReply, out: Result<Vec<u8>, Error>)
    requires
        WholePath.reads(reply, out),
    ensures
        out is Ok <==> reply.ret == 0,
        out matches Err(e) ==> e == Error::Os(reply.errno),
        out matches Ok(path) ==> {
            &&& path@.len() <= reply.bytes@.len()
            &&& forall|i: int|
                0 <= i < path@.len() ==> path@[i] == reply.bytes@[i] && path@[i] != 0
            &&& path@.len() < reply.bytes@.len() ==> reply.bytes@[path@.len() as int] == 0
        },
{
    first_is_first(reply.bytes@, 0);
}

/// The target of a link is all that the system wrote: with a buffer of any length, an answer
/// below that length is the length of the target, and the target is that many bytes from the
/// start of the buffer, in order.
pub proof fn a_link_is_read_to_its_last_byte(
    op: ReadLink,
    reply: FsReply,
    step: Step<ReadLink, Result<Vec<u8>, Error>>,
)
    requires
        op.leads_to(reply, step),
        0 <= reply.ret < op.cap,
        reply.ret <= reply.bytes@.len(),
    ensures
        op.accepts(reply),
        step matches Step::Done(Ok(target)) && target@.len() == reply.ret && forall|i: int|
            0 <= i < reply.ret ==> target@[i] == reply.bytes@[i],
{
}

/// A link that fails to be read is the error that the system left. A buffer that came back
/// full may have lost something, so the same link is asked about again with twice the room, up
/// to the limit, and one that fills that is refused.
pub proof fn a_full_buffer_is_not_trusted(
    op: ReadLink,
    reply: FsReply,
    step: Step<ReadLink, Result<Vec<u8>, Error>>,
)
    requires
        op.leads_to(reply, step),
    ensures
        reply.ret < 0 ==> (step matches Step::Done(Err(e)) && e == Error::Os(reply.errno)),
        reply.ret >= op.cap && op.cap < 65536 ==> (step matches Step::Ask(next) && next.path@
            == op.path@ && next.cap == (if 2 * op.cap < 65536 {
            2 * op.cap
        } else {
            65536
        })),
        reply.ret >= op.cap && op.cap >= 65536 ==> (step matches Step::Done(Err(e)) && e
            == Error::Message(
            ErrorKind::InvalidData,
            "readlink target exceeds the maximum symlink length",
        )),
        forall|call: FsCall| #[trigger]
            op.asks(call) ==> (call matches FsCall::ReadLink { path, len } && path@ == op.path@
                && len == op.cap),
{
}

/// A link is read at the path that was given, with room for 256 bytes at first.
pub proof fn a_link_is_read_where_it_is(p: &[u8], r: Result<ReadLink, Error>)
    requires
        call_ensures(readlink, (p,), r),
    ensures
        r is Ok <==> nul_free(p@),
        r matches Ok(op) ==> op.path@ == translated(p@) && op.cap == 256,
        r matches Err(e) ==> e == Error::Simple(ErrorKind::InvalidInput),
{
}

/// The times that are set on a file are those that were given, each in its own place and in
/// whole seconds and the nanoseconds beyond them; a time that was not given is the one that
/// the file was found with.
pub proof fn times_are_set_as_given(
    path: CString,
    times: FileTimes,
    reply: FsReply,
    step: Step<SetTimes, Result<(), Error>>,
)
    requires
        (SetTimes::Looking { path, times }).leads_to(reply, step),
    ensures
        reply.ret != 0 ==> step == Step::<SetTimes, Result<(), Error>>::Done(
            Err(Error::Os(reply.errno)),
        ),
        reply.ret == 0 ==> {
            &&& step matches Step::Ask(SetTimes::Setting { path: p, accessed, modified })
            &&& p@ == path@
            &&& times.accessed matches Some(t) ==> accessed@ == t@
            &&& times.modified matches Some(t) ==> modified@ == t@
            &&& times.accessed is None && reply.attr.atime_sec >= 0 && 0 <= reply.attr.atime_nsec
                < 1_000_000_000 ==> accessed@ == reply.attr.atime_sec * 1_000_000_000
                + reply.attr.atime_nsec
            &&& times.modified is None && reply.attr.mtime_sec >= 0 && 0 <= reply.attr.mtime_nsec
                < 1_000_000_000 ==> modified@ == reply.attr.mtime_sec * 1_000_000_000
                + reply.attr.mtime_nsec
        },
        forall|call: FsCall| #[trigger]
            (SetTimes::Looking { path, times }).asks(call) ==> (call matches FsCall::Stat {
                path: p,
            } && p@ == path@),
{
}

/// Setting the times of a file hands both of them over, the last access first, and is over
/// with what the system answers.
pub proof fn both_times_are_handed_over(
    path: CString,
    accessed: SystemTime,
    modified: SystemTime,
    call: FsCall,
    reply: FsReply,
    step: Step<SetTimes, Result<(), Error>>,
)
    requires
        (SetTimes::Setting { path, accessed, modified }).asks(call),
        (SetTimes::Setting { path, accessed, modified }).leads_to(reply, step),
    ensures
        call matches FsCall::Utimes { path: p, atime_sec, atime_nsec, mtime_sec, mtime_nsec } && {
            &&& p@ == path@
            &&& 0 <= atime_nsec < 1_000_000_000 && 0 <= mtime_nsec < 1_000_000_000
            &&& accessed@ / 1_000_000_000 <= i64::MAX ==> atime_sec * 1_000_000_000 + atime_nsec
                == accessed@
            &&& modified@ / 1_000_000_000 <= i64::MAX ==> mtime_sec * 1_000_000_000 + mtime_nsec
                == modified@
        },
        step matches Step::Done(r),
        step->Done_0 is Ok <==> reply.ret == 0,
        step->Done_0 matches Err(e) ==> e == Error::Os(reply.errno),
{
}

/// A file that is given both of its times is given those at once; one that is given fewer is
/// asked about first.
pub proof fn missing_times_are_looked_for(p: &[u8], times: FileTimes, r: Result<SetTimes, Error>)
    requires
        call_ensures(set_times, (p, times), r),
    ensures
        r is Ok <==> nul_free(p@),
        r matches Err(e) ==> e == Error::Simple(ErrorKind::InvalidInput),
        times.accessed is Some && times.modified is Some && r is Ok ==> (
        r->Ok_0 matches SetTimes::Setting { path, accessed, modified } && path@ == translated(p@)
            && accessed == times.accessed->0 && modified == times.modified->0),
        (times.accessed is None || times.modified is None) && r is Ok ==> (
        r->Ok_0 matches SetTimes::Looking { path, times: t } && path@ == translated(p@) && t
            == times),
        forall|out: Result<(), Error>| #[trigger]
            call_ensures(set_times_nofollow, (p, times), out) ==> out is Err,
{
}

} // verus!
