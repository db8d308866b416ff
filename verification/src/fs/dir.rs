//! Directories and what is in them.
use vstd::prelude::*;

use crate::error::{Error, ErrorKind};
use crate::fs::attr::{kind_of_kind, Attributes, FileType, S_IFDIR, S_IFLNK, S_IFREG};
use crate::fs::call::{FsCall, FsReply, Zero};
use crate::fs::ops::stat;
use crate::fs::translate::{cstr, translated};
use crate::op::{Decode, Request, Step};
use crate::path::{absolute_path, join_paths, joined, SLASH};
use crate::text::{copy_of, first, first_is_first, nul_free, until_nul};

verus! {

/// A directory entry that is a directory.
pub const DT_DIR: u32 = 4;

/// A directory entry that is a regular file.
pub const DT_REG: u32 = 8;

/// A directory entry that is a symbolic link.
pub const DT_LNK: u32 = 10;

/// The length of the buffer for the name of an entry.
pub const NAME_BUFFER: usize = 1024;

/// An open directory. It owns its handle: [`ReadDir::close`] has to be asked for when it is
/// given up.
#[derive(Debug)]
pub struct ReadDir {
    /// The system's handle, which is not zero.
    pub dir: i64,
    /// The path it was opened by.
    pub root: Vec<u8>,
}

/// A call that answers the handle of a directory, or zero where it fails.
pub struct OpenedDir {
    /// The path it was opened by.
    pub root: Vec<u8>,
}

impl Decode for OpenedDir {
    type Reply = FsReply;

    type Output = Result<ReadDir, Error>;

    open spec fn accepts(self, reply: FsReply) -> bool {
        true
    }

    open spec fn reads(self, reply: FsReply, out: Result<ReadDir, Error>) -> bool {
        match out {
            Ok(d) => reply.ret != 0 && d.dir == reply.ret && d.root == self.root,
            Err(e) => reply.ret == 0 && e == Error::Os(reply.errno),
        }
    }

    fn decode(self, reply: FsReply) -> (out: Result<ReadDir, Error>) {
        if reply.ret == 0 {
            Err(Error::Os(reply.errno))
        } else {
            Ok(ReadDir { dir: reply.ret, root: self.root })
        }
    }
}

/// Opens a directory.
pub fn readdir(p: &[u8]) -> (r: Result<Request<FsCall, OpenedDir>, Error>)
    ensures
        match r {
            Ok(request) => {
                &&& nul_free(p@)
                &&& request.call matches FsCall::OpenDir { path } && path@ == translated(p@)
                &&& request.reading.root@ == p@
            },
            Err(e) => !nul_free(p@) && e == Error::Simple(ErrorKind::InvalidInput),
        },
{
    match cstr(p) {
        Ok(path) => Ok(
            Request { call: FsCall::OpenDir { path }, reading: OpenedDir { root: copy_of(p) } },
        ),
        Err(e) => Err(e),
    }
}

/// An entry of a directory.
#[derive(Debug)]
pub struct DirEntry {
    /// Its name.
    pub name: Vec<u8>,
    /// What the directory tells of its kind.
    pub dtype: u32,
    /// The path of the directory.
    pub root: Vec<u8>,
}

/// A call that answers one and an entry, zero at the end, or anything else where it fails.
pub struct NextEntry {
    /// The path of the directory.
    pub root: Vec<u8>,
}

impl Decode for NextEntry {
    type Reply = FsReply;

    type Output = Option<Result<DirEntry, Error>>;

    open spec fn accepts(self, reply: FsReply) -> bool {
        true
    }

    open spec fn reads(self, reply: FsReply, out: Option<Result<DirEntry, Error>>) -> bool {
        match out {
            Some(Ok(entry)) => {
                &&& reply.ret == 1
                &&& entry.name@ == reply.bytes@.take(first(reply.bytes@, 0))
                &&& entry.dtype == reply.dtype
                &&& entry.root == self.root
            },
            Some(Err(e)) => reply.ret != 0 && reply.ret != 1 && e == Error::Os(reply.errno),
            None => reply.ret == 0,
        }
    }

    fn decode(self, reply: FsReply) -> (out: Option<Result<DirEntry, Error>>) {
        match reply.ret {
            1 => Some(
                Ok(
                    DirEntry {
                        name: until_nul(reply.bytes.as_slice()),
                        dtype: reply.dtype,
                        root: self.root,
                    },
                ),
            ),
            0 => None,
            _ => Some(Err(Error::Os(reply.errno))),
        }
    }
}

impl ReadDir {
    /// Asks for the next entry.
    pub fn next(&self) -> (r: Request<FsCall, NextEntry>)
        ensures
            r.call == (FsCall::ReadDir { dir: self.dir, len: NAME_BUFFER }),
            r.reading.root@ == self.root@,
    {
        Request {
            call: FsCall::ReadDir { dir: self.dir, len: NAME_BUFFER },
            reading: NextEntry { root: copy_of(self.root.as_slice()) },
        }
    }

    /// Gives the directory up. The call answers nothing.
    pub fn close(self) -> (call: FsCall)
        ensures
            call == (FsCall::CloseDir { dir: self.dir }),
    {
        FsCall::CloseDir { dir: self.dir }
    }
}

/// A call that tells of a file, of which only the kind is wanted.
pub struct KindOf;

impl Decode for KindOf {
    type Reply = FsReply;

    type Output = Result<FileType, Error>;

    open spec fn accepts(self, reply: FsReply) -> bool {
        true
    }

    open spec fn reads(self, reply: FsReply, out: Result<FileType, Error>) -> bool {
        match out {
            Ok(kind) => reply.ret == 0 && kind@ == reply.attr.mode,
            Err(e) => reply.ret != 0 && e == Error::Os(reply.errno),
        }
    }

    fn decode(self, reply: FsReply) -> (out: Result<FileType, Error>) {
        match Attributes.decode(reply) {
            Ok(attr) => Ok(attr.file_type()),
            Err(e) => Err(e),
        }
    }
}

/// The mode that tells the kind of a directory entry, where the directory tells it.
pub open spec fn mode_of_entry(dtype: u32) -> Option<u32> {
    if dtype == DT_DIR {
        Some(S_IFDIR)
    } else if dtype == DT_REG {
        Some(S_IFREG)
    } else if dtype == DT_LNK {
        Some(S_IFLNK)
    } else {
        None
    }
}

impl DirEntry {
    /// The path of the entry.
    pub fn path(&self) -> (path: Vec<u8>)
        ensures
            path@ == joined(self.root@, self.name@),
    {
        join_paths(self.root.as_slice(), self.name.as_slice())
    }

    /// The name of the entry.
    pub fn file_name(&self) -> (name: Vec<u8>)
        ensures
            name@ == self.name@,
    {
        copy_of(self.name.as_slice())
    }

    /// Asks for what is known of the entry.
    pub fn metadata(&self) -> (r: Result<Request<FsCall, Attributes>, Error>)
        ensures
            ({
                let p = joined(self.root@, self.name@);
                match r {
                    Ok(request) => nul_free(p) && (request.call matches FsCall::Stat { path }
                        && path@ == translated(p)),
                    Err(e) => !nul_free(p) && e == Error::Simple(ErrorKind::InvalidInput),
                }
            }),
    {
        let path: Vec<u8> = self.path();
        stat(path.as_slice())
    }

    /// The kind of the entry. Where the directory does not tell it, the file is asked.
    pub fn file_type(&self) -> (r: Step<Request<FsCall, KindOf>, Result<FileType, Error>>)
        ensures
            ({
                let p = joined(self.root@, self.name@);
                match mode_of_entry(self.dtype) {
                    Some(mode) => r matches Step::Done(Ok(kind)) && kind@ == mode,
                    None => match r {
                        Step::Ask(request) => nul_free(p) && (
                        request.call matches FsCall::Stat { path } && path@ == translated(p)),
                        Step::Done(out) => !nul_free(p) && out == Err::<FileType, Error>(
                            Error::Simple(ErrorKind::InvalidInput),
                        ),
                    },
                }
            }),
    {
        let mode: u32 = match self.dtype {
            DT_DIR => S_IFDIR,
            DT_REG => S_IFREG,
            DT_LNK => S_IFLNK,
            _ => return match self.metadata() {
                Ok(request) => Step::Ask(Request { call: request.call, reading: KindOf }),
                Err(e) => Step::Done(Err(e)),
            },
        };
        Step::Done(Ok(FileType::from_mode(mode)))
    }
}

/// Makes directories.
#[derive(Debug)]
pub struct DirBuilder {}

impl DirBuilder {
    /// A maker of directories.
    pub fn new() -> (b: DirBuilder)
        ensures
            b == (DirBuilder {  }),
    {
        DirBuilder {  }
    }

    /// Makes a directory that everybody may use.
    pub fn mkdir(&self, p: &[u8]) -> (r: Result<Request<FsCall, Zero>, Error>)
        ensures
            match r {
                Ok(request) => nul_free(p@) && (request.call matches FsCall::Mkdir { path, mode }
                    && path@ == translated(p@) && mode == 0o777),
                Err(e) => !nul_free(p@) && e == Error::Simple(ErrorKind::InvalidInput),
            },
    {
        match cstr(p) {
            Ok(path) => Ok(Request { call: FsCall::Mkdir { path, mode: 0o777 }, reading: Zero }),
            Err(e) => Err(e),
        }
    }
}

/// What the directory tells of the kind of an entry is what callers see: an entry that it
/// tells to be a regular file is a file, one that it tells to be a directory is a directory,
/// one that it tells to be a link is a link, and none of them is anything else. Nobody else is
/// asked.
pub proof fn entries_are_of_the_kind_that_is_told(
    entry: DirEntry,
    r: Step<Request<FsCall, KindOf>, Result<FileType, Error>>,
)
    requires
        entry.dtype == 4 || entry.dtype == 8 || entry.dtype == 10,
        call_ensures(DirEntry::file_type, (&entry,), r),
    ensures
        r matches Step::Done(Ok(_)),
        forall|yes: bool| #[trigger]
            call_ensures(FileType::is_dir, (&r->Done_0->Ok_0,), yes) ==> (yes <==> entry.dtype
                == 4),
        forall|yes: bool| #[trigger]
            call_ensures(FileType::is_file, (&r->Done_0->Ok_0,), yes) ==> (yes <==> entry.dtype
                == 8),
        forall|yes: bool| #[trigger]
            call_ensures(FileType::is_symlink, (&r->Done_0->Ok_0,), yes) ==> (yes <==> entry.dtype
                == 10),
{
    kind_of_kind();
}

/// Where the directory does not tell the kind of an entry, the file itself is asked, by the
/// path of the entry, and its kind is that of the mode that it answers with.
pub proof fn untold_kinds_are_asked_for(
    entry: DirEntry,
    r: Step<Request<FsCall, KindOf>, Result<FileType, Error>>,
    reply: FsReply,
    kind: Result<FileType, Error>,
)
    requires
        entry.dtype != 4 && entry.dtype != 8 && entry.dtype != 10,
        call_ensures(DirEntry::file_type, (&entry,), r),
        KindOf.reads(reply, kind),
    ensures
        r is Ask <==> nul_free(joined(entry.root@, entry.name@)),
        r matches Step::Ask(request) ==> (request.call matches FsCall::Stat { path } && path@
            == translated(joined(entry.root@, entry.name@))),
        r matches Step::Done(out) ==> out == Err::<FileType, Error>(
            Error::Simple(ErrorKind::InvalidInput),
        ),
        kind is Ok <==> reply.ret == 0,
        kind matches Ok(k) ==> k@ == reply.attr.mode,
        kind matches Err(e) ==> e == Error::Os(reply.errno),
{
}

/// A directory is listed entry by entry: an answer of one is an entry, whose name is all that
/// stands before the NUL in the buffer and whose kind is the one that was told, zero is the
/// end, and anything else is the error that the system left.
pub proof fn a_directory_is_listed_as_it_is_told(
    dir: ReadDir,
    request: Request<FsCall, NextEntry>,
    reply: FsReply,
    out: Option<Result<DirEntry, Error>>,
)
    requires
        call_ensures(ReadDir::next, (&dir,), request),
        request.reading.reads(reply, out),
    ensures
        request.call == (FsCall::ReadDir { dir: dir.dir, len: 1024 }),
        out is None <==> reply.ret == 0,
        out matches Some(Ok(_)) <==> reply.ret == 1,
        out matches Some(Err(e)) ==> e == Error::Os(reply.errno),
        out matches Some(Ok(entry)) ==> {
            &&& entry.name@.len() <= reply.bytes@.len()
            &&& forall|i: int|
                0 <= i < entry.name@.len() ==> entry.name@[i] == reply.bytes@[i] && entry.name@[i]
                    != 0
            &&& entry.name@.len() < reply.bytes@.len() ==> reply.bytes@[entry.name@.len() as int]
                == 0
            &&& entry.dtype == reply.dtype
            &&& entry.root@ == dir.root@
        },
{
    first_is_first(reply.bytes@, 0);
}

/// The path of an entry is that of its directory, a separator and its name, and the name is
/// told as it is; it is asked about by that path.
pub proof fn an_entry_lies_in_its_directory(
    entry: DirEntry,
    path: Vec<u8>,
    name: Vec<u8>,
    asked: Result<Request<FsCall, Attributes>, Error>,
)
    requires
        call_ensures(DirEntry::path, (&entry,), path),
        call_ensures(DirEntry::file_name, (&entry,), name),
        call_ensures(DirEntry::metadata, (&entry,), asked),
    ensures
        name@ == entry.name@,
        absolute_path(entry.name@) ==> path@ == entry.name@,
        !absolute_path(entry.name@) && (entry.root@.len() == 0 || entry.root@.last() == 0x2f)
            ==> path@ == entry.root@ + entry.name@,
        !absolute_path(entry.name@) && entry.root@.len() > 0 && entry.root@.last() != 0x2f
            ==> path@ == entry.root@ + seq![0x2fu8] + entry.name@,
        asked is Ok <==> nul_free(path@),
        asked matches Ok(request) ==> (request.call matches FsCall::Stat { path: p } && p@
            == translated(path@)),
{
    assert(entry.root@.push(SLASH) == entry.root@ + seq![0x2fu8]);
}

/// A directory is opened by its path, and what it is opened by is what its entries lie in; the
/// handle that was answered is the one that is read and closed, and zero is a failure.
pub proof fn a_directory_is_opened_by_its_path(
    p: &[u8],
    r: Result<Request<FsCall, OpenedDir>, Error>,
    reply: FsReply,
    out: Result<ReadDir, Error>,
)
    requires
        call_ensures(readdir, (p,), r),
        r matches Ok(request) ==> request.reading.reads(reply, out),
    ensures
        r is Ok <==> nul_free(p@),
        r matches Err(e) ==> e == Error::Simple(ErrorKind::InvalidInput),
        r matches Ok(request) ==> {
            &&& request.call matches FsCall::OpenDir { path } && path@ == translated(p@)
            &&& out is Ok <==> reply.ret != 0
            &&& out matches Ok(d) ==> d.dir == reply.ret && d.root@ == p@
            &&& out matches Err(e) ==> e == Error::Os(reply.errno)
        },
        forall|d: ReadDir, call: FsCall| #[trigger]
            call_ensures(ReadDir::close, (d,), call) ==> call == (FsCall::CloseDir { dir: d.dir }),
{
}

/// A directory is made at its path, for everybody to use.
pub proof fn a_directory_is_made_for_everybody(
    b: DirBuilder,
    p: &[u8],
    r: Result<Request<FsCall, Zero>, Error>,
)
    requires
        call_ensures(DirBuilder::mkdir, (&b, p), r),
    ensures
        r is Ok <==> nul_free(p@),
        r matches Ok(request) ==> (request.call matches FsCall::Mkdir { path, mode } && path@
            == translated(p@) && mode == 0o777),
        r matches Err(e) ==> e == Error::Simple(ErrorKind::InvalidInput),
{
}

} // verus!
