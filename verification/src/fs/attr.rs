//! What is known of a file: its size, kind, permissions and times.
use vstd::prelude::*;

use crate::error::{Error, ErrorKind};
use crate::fs::call::{Attr, FsReply};
use crate::op::Decode;
use crate::time::{time_of, SystemTime};

verus! {

/// The bits of a mode that tell the kind of file.
pub const S_IFMT: u32 = 0o170000;

/// A regular file.
pub const S_IFREG: u32 = 0o100000;

/// A directory.
pub const S_IFDIR: u32 = 0o040000;

/// A symbolic link.
pub const S_IFLNK: u32 = 0o120000;

/// What is known of a file. Its view is what the system told.
#[derive(Clone, Copy, Debug)]
pub struct FileAttr {
    raw: Attr,
}

impl View for FileAttr {
    type V = Attr;

    closed spec fn view(&self) -> Attr {
        self.raw
    }
}

impl FileAttr {
    /// Takes over what the system told.
    pub fn from_raw(a: &Attr) -> (r: FileAttr)
        ensures
            r@ == *a,
    {
        FileAttr { raw: *a }
    }

    /// The size in bytes.
    pub fn size(&self) -> (size: u64)
        ensures
            size == self@.size,
    {
        self.raw.size
    }

    /// The permissions.
    pub fn perm(&self) -> (perm: FilePermissions)
        ensures
            perm@ == self@.mode,
    {
        FilePermissions { mode: self.raw.mode }
    }

    /// The kind of file.
    pub fn file_type(&self) -> (kind: FileType)
        ensures
            kind@ == self@.mode,
    {
        FileType { mode: self.raw.mode }
    }

    /// When the file was last written.
    pub fn modified(&self) -> (r: Result<SystemTime, Error>)
        ensures
            r matches Ok(t) && t@ == time_of(self@.mtime_sec, self@.mtime_nsec),
    {
        SystemTime::new(self.raw.mtime_sec, self.raw.mtime_nsec)
    }

    /// When the file was last read.
    pub fn accessed(&self) -> (r: Result<SystemTime, Error>)
        ensures
            r matches Ok(t) && t@ == time_of(self@.atime_sec, self@.atime_nsec),
    {
        SystemTime::new(self.raw.atime_sec, self.raw.atime_nsec)
    }

    /// When the file was made, which AROS does not tell.
    pub fn created(&self) -> (r: Result<SystemTime, Error>)
        ensures
            r == Err::<SystemTime, Error>(
                Error::Message(ErrorKind::Unsupported, "birth time is not available on AROS"),
            ),
    {
        Err(Error::Message(ErrorKind::Unsupported, "birth time is not available on AROS"))
    }

    /// The file's serial number.
    pub fn ino(&self) -> (ino: u64)
        ensures
            ino == self@.ino,
    {
        self.raw.ino
    }

    /// The mode, the kind of file in it.
    pub fn mode(&self) -> (mode: u32)
        ensures
            mode == self@.mode,
    {
        self.raw.mode
    }

    /// The number of hard links.
    pub fn nlink(&self) -> (nlink: u32)
        ensures
            nlink == self@.nlink,
    {
        self.raw.nlink
    }

    /// The seconds and nanoseconds of the last access.
    pub fn atime(&self) -> (t: (i64, i64))
        ensures
            t == (self@.atime_sec, self@.atime_nsec),
    {
        (self.raw.atime_sec, self.raw.atime_nsec)
    }

    /// The seconds and nanoseconds of the last modification.
    pub fn mtime(&self) -> (t: (i64, i64))
        ensures
            t == (self@.mtime_sec, self@.mtime_nsec),
    {
        (self.raw.mtime_sec, self.raw.mtime_nsec)
    }

    /// The seconds and nanoseconds of the last change of status.
    pub fn ctime(&self) -> (t: (i64, i64))
        ensures
            t == (self@.ctime_sec, self@.ctime_nsec),
    {
        (self.raw.ctime_sec, self.raw.ctime_nsec)
    }
}

/// A call that tells of a file, or fails.
pub struct Attributes;

impl Decode for Attributes {
    type Reply = FsReply;

    type Output = Result<FileAttr, Error>;

    open spec fn accepts(self, reply: FsReply) -> bool {
        true
    }

    open spec fn reads(self, reply: FsReply, out: Result<FileAttr, Error>) -> bool {
        match out {
            Ok(a) => reply.ret == 0 && a@ == reply.attr,
            Err(e) => reply.ret != 0 && e == Error::Os(reply.errno),
        }
    }

    fn decode(self, reply: FsReply) -> (out: Result<FileAttr, Error>) {
        if reply.ret == 0 {
            Ok(FileAttr::from_raw(&reply.attr))
        } else {
            Err(Error::Os(reply.errno))
        }
    }
}

/// The permissions of a file. Their view is the mode they are kept in.
#[derive(Clone, Copy, PartialEq, Eq, Debug)]
pub struct FilePermissions {
    mode: u32,
}

impl View for FilePermissions {
    type V = u32;

    closed spec fn view(&self) -> u32 {
        self.mode
    }
}

/// Whether a mode lets nobody write.
pub open spec fn mode_readonly(mode: u32) -> bool {
    mode & 0o222 == 0
}

/// A mode that lets nobody write, or everybody.
pub open spec fn mode_with_readonly(mode: u32, readonly: bool) -> u32 {
    if readonly {
        mode & !0o222u32
    } else {
        mode | 0o222
    }
}

impl FilePermissions {
    /// The permissions in a mode.
    pub fn from_mode(mode: u32) -> (perm: FilePermissions)
        ensures
            perm@ == mode,
    {
        FilePermissions { mode }
    }

    /// The mode they are kept in.
    pub fn mode(&self) -> (mode: u32)
        ensures
            mode == self@,
    {
        self.mode
    }

    /// Whether nobody may write.
    pub fn readonly(&self) -> (yes: bool)
        ensures
            yes == mode_readonly(self@),
    {
        self.mode & 0o222 == 0
    }

    /// Lets nobody write, or everybody.
    pub fn set_readonly(&mut self, readonly: bool)
        ensures
            final(self)@ == mode_with_readonly(old(self)@, readonly),
    {
        if readonly {
            self.mode = self.mode & !0o222u32;
        } else {
            self.mode = self.mode | 0o222;
        }
    }

    /// The bits that a call to change permissions takes.
    pub fn to_mode_t(&self) -> (mode: u16)
        ensures
            mode == self@ & 0o7777,
    {
        let mode: u32 = self.mode;
        assert(mode & 0o7777 <= 0o7777) by (bit_vector);
        (mode & 0o7777) as u16
    }
}

/// Permissions are read-only after being made so and not after the opposite, and neither
/// touches a bit that does not grant writing.
pub proof fn set_readonly_sets_readonly(mode: u32, readonly: bool)
    ensures
        mode_readonly(mode_with_readonly(mode, readonly)) == readonly,
        mode_with_readonly(mode, readonly) & 0o222 == (if readonly {
            0u32
        } else {
            0o222
        }),
        mode_with_readonly(mode, readonly) & !0o222u32 == mode & !0o222u32,
{
    assert((mode | 0o222) & 0o222 == 0o222) by (bit_vector);
    assert((mode & !0o222u32) & 0o222 == 0) by (bit_vector);
    assert((mode | 0o222) & 0o222 != 0) by (bit_vector);
    assert((mode & !0o222u32) & !0o222u32 == mode & !0o222u32) by (bit_vector);
    assert((mode | 0o222) & !0o222u32 == mode & !0o222u32) by (bit_vector);
}

/// The kind of a file. Its view is the mode it is read from.
#[derive(Clone, Copy, PartialEq, Eq, Hash, Debug)]
pub struct FileType {
    mode: u32,
}

impl View for FileType {
    type V = u32;

    closed spec fn view(&self) -> u32 {
        self.mode
    }
}

/// The kind of file that a mode tells.
pub open spec fn kind_of_mode(mode: u32) -> u32 {
    mode & S_IFMT
}

impl FileType {
    /// The kind of file that a mode tells.
    pub fn from_mode(mode: u32) -> (kind: FileType)
        ensures
            kind@ == mode,
    {
        FileType { mode }
    }

    /// Whether it is a directory.
    pub fn is_dir(&self) -> (yes: bool)
        ensures
            yes == (kind_of_mode(self@) == S_IFDIR),
    {
        self.mode & S_IFMT == S_IFDIR
    }

    /// Whether it is a regular file.
    pub fn is_file(&self) -> (yes: bool)
        ensures
            yes == (kind_of_mode(self@) == S_IFREG),
    {
        self.mode & S_IFMT == S_IFREG
    }

    /// Whether it is a symbolic link.
    pub fn is_symlink(&self) -> (yes: bool)
        ensures
            yes == (kind_of_mode(self@) == S_IFLNK),
    {
        self.mode & S_IFMT == S_IFLNK
    }
}

/// A mode that tells nothing but a kind tells that kind.
pub proof fn kind_of_kind()
    ensures
        kind_of_mode(S_IFDIR) == S_IFDIR,
        kind_of_mode(S_IFREG) == S_IFREG,
        kind_of_mode(S_IFLNK) == S_IFLNK,
{
    assert(0o040000u32 & 0o170000 == 0o040000) by (bit_vector);
    assert(0o100000u32 & 0o170000 == 0o100000) by (bit_vector);
    assert(0o120000u32 & 0o170000 == 0o120000) by (bit_vector);
}

/// The times to give a file; one that is not set leaves the file's own in place.
#[derive(Clone, Copy, Debug)]
pub struct FileTimes {
    /// When the file was last read.
    pub accessed: Option<SystemTime>,
    /// When the file was last written.
    pub modified: Option<SystemTime>,
}

impl Default for FileTimes {
    fn default() -> (t: FileTimes)
        ensures
            t.accessed is None,
            t.modified is None,
    {
        FileTimes { accessed: None, modified: None }
    }
}

impl FileTimes {
    /// Sets when the file was last read.
    pub fn set_accessed(&mut self, t: SystemTime)
        ensures
            *final(self) == (FileTimes { accessed: Some(t), ..*old(self) }),
    {
        self.accessed = Some(t);
    }

    /// Sets when the file was last written.
    pub fn set_modified(&mut self, t: SystemTime)
        ensures
            *final(self) == (FileTimes { modified: Some(t), ..*old(self) }),
    {
        self.modified = Some(t);
    }
}

/// What callers are given of a file.
#[derive(Clone, Copy, Debug)]
pub struct Metadata {
    attr: FileAttr,
}

impl View for Metadata {
    type V = Attr;

    closed spec fn view(&self) -> Attr {
        self.attr@
    }
}

impl Metadata {
    /// Wraps what is known of a file.
    pub fn from_attr(attr: FileAttr) -> (m: Metadata)
        ensures
            m@ == attr@,
    {
        Metadata { attr }
    }
}

/// What AROS tells of a file beyond what every system does.
pub trait MetadataExt {
    /// What the system told.
    spec fn told(&self) -> Attr;

    /// The file's serial number. AROS derives it from the path, so it identifies a file
    /// but is not shared by two hard links to it.
    fn ino(&self) -> (r: u64)
        ensures
            r == self.told().ino,
    ;

    /// The mode, the kind of file in it.
    fn mode(&self) -> (r: u32)
        ensures
            r == self.told().mode,
    ;

    /// The number of hard links.
    fn nlink(&self) -> (r: u32)
        ensures
            r == self.told().nlink,
    ;

    /// The size in bytes.
    fn size(&self) -> (r: u64)
        ensures
            r == self.told().size,
    ;

    /// The last access, in seconds since the epoch.
    fn atime(&self) -> (r: i64)
        ensures
            r == self.told().atime_sec,
    ;

    /// The nanoseconds of the last access.
    fn atime_nsec(&self) -> (r: i64)
        ensures
            r == self.told().atime_nsec,
    ;

    /// The last modification, in seconds since the epoch.
    fn mtime(&self) -> (r: i64)
        ensures
            r == self.told().mtime_sec,
    ;

    /// The nanoseconds of the last modification.
    fn mtime_nsec(&self) -> (r: i64)
        ensures
            r == self.told().mtime_nsec,
    ;

    /// The last change of status, in seconds since the epoch.
    fn ctime(&self) -> (r: i64)
        ensures
            r == self.told().ctime_sec,
    ;

    /// The nanoseconds of the last change of status.
    fn ctime_nsec(&self) -> (r: i64)
        ensures
            r == self.told().ctime_nsec,
    ;
}

impl MetadataExt for Metadata {
    open spec fn told(&self) -> Attr {
        self@
    }

    fn ino(&self) -> (r: u64) {
        self.attr.ino()
    }

    fn mode(&self) -> (r: u32) {
        self.attr.mode()
    }

    fn nlink(&self) -> (r: u32) {
        self.attr.nlink()
    }

    fn size(&self) -> (r: u64) {
        self.attr.size()
    }

    fn atime(&self) -> (r: i64) {
        self.attr.atime().0
    }

    fn atime_nsec(&self) -> (r: i64) {
        self.attr.atime().1
    }

    fn mtime(&self) -> (r: i64) {
        self.attr.mtime().0
    }

    fn mtime_nsec(&self) -> (r: i64) {
        self.attr.mtime().1
    }

    fn ctime(&self) -> (r: i64) {
        self.attr.ctime().0
    }

    fn ctime_nsec(&self) -> (r: i64) {
        self.attr.ctime().1
    }
}

/// A file is what the bits of its mode say, and never two things at once.
pub proof fn a_file_is_of_one_kind(
    mode: u32,
    kind: FileType,
    is_dir: bool,
    is_file: bool,
    is_symlink: bool,
)
    requires
        call_ensures(FileType::from_mode, (mode,), kind),
        call_ensures(FileType::is_dir, (&kind,), is_dir),
        call_ensures(FileType::is_file, (&kind,), is_file),
        call_ensures(FileType::is_symlink, (&kind,), is_symlink),
    ensures
        is_dir <==> mode & 0o170000 == 0o040000,
        is_file <==> mode & 0o170000 == 0o100000,
        is_symlink <==> mode & 0o170000 == 0o120000,
        !(is_dir && is_file) && !(is_dir && is_symlink) && !(is_file && is_symlink),
        kind@ == mode,
{
}

/// Everything that callers are told of a file is what the system told of it, each thing from
/// its own place, and an error is the number that the system left.
pub proof fn attributes_are_what_the_system_told(
    reply: FsReply,
    out: Result<FileAttr, Error>,
)
    requires
        Attributes.reads(reply, out),
    ensures
        out is Ok <==> reply.ret == 0,
        out matches Err(e) ==> e == Error::Os(reply.errno),
        out matches Ok(a) ==> {
            &&& forall|n: u64| #[trigger]
                call_ensures(FileAttr::size, (&a,), n) ==> n == reply.attr.size
            &&& forall|p: FilePermissions| #[trigger]
                call_ensures(FileAttr::perm, (&a,), p) ==> p@ == reply.attr.mode
            &&& forall|k: FileType| #[trigger]
                call_ensures(FileAttr::file_type, (&a,), k) ==> k@ == reply.attr.mode
            &&& forall|n: u64| #[trigger]
                call_ensures(FileAttr::ino, (&a,), n) ==> n == reply.attr.ino
            &&& forall|n: u32| #[trigger]
                call_ensures(FileAttr::mode, (&a,), n) ==> n == reply.attr.mode
            &&& forall|n: u32| #[trigger]
                call_ensures(FileAttr::nlink, (&a,), n) ==> n == reply.attr.nlink
            &&& forall|t: (i64, i64)| #[trigger]
                call_ensures(FileAttr::atime, (&a,), t) ==> t == (
                    reply.attr.atime_sec,
                    reply.attr.atime_nsec,
                )
            &&& forall|t: (i64, i64)| #[trigger]
                call_ensures(FileAttr::mtime, (&a,), t) ==> t == (
                    reply.attr.mtime_sec,
                    reply.attr.mtime_nsec,
                )
            &&& forall|t: (i64, i64)| #[trigger]
                call_ensures(FileAttr::ctime, (&a,), t) ==> t == (
                    reply.attr.ctime_sec,
                    reply.attr.ctime_nsec,
                )
        },
{
}

/// The times of a file are the seconds and nanoseconds that the system told, wherever those
/// are a time of day at all; when the file was made nobody can tell.
pub proof fn file_times_are_what_the_system_told(
    attr: FileAttr,
    modified: Result<SystemTime, Error>,
    accessed: Result<SystemTime, Error>,
    created: Result<SystemTime, Error>,
)
    requires
        call_ensures(FileAttr::modified, (&attr,), modified),
        call_ensures(FileAttr::accessed, (&attr,), accessed),
        call_ensures(FileAttr::created, (&attr,), created),
    ensures
        modified is Ok && accessed is Ok && created is Err,
        attr@.mtime_sec >= 0 && 0 <= attr@.mtime_nsec < 1_000_000_000 ==> modified->Ok_0@
            == attr@.mtime_sec * 1_000_000_000 + attr@.mtime_nsec,
        attr@.atime_sec >= 0 && 0 <= attr@.atime_nsec < 1_000_000_000 ==> accessed->Ok_0@
            == attr@.atime_sec * 1_000_000_000 + attr@.atime_nsec,
        created matches Err(e) ==> e == Error::Message(
            ErrorKind::Unsupported,
            "birth time is not available on AROS",
        ),
{
}

/// Permissions are read-only exactly where none of the three bits that grant writing is set;
/// the mode that they were made of is the mode that they tell, and a change of permissions is
/// handed all of its lower twelve bits.
pub proof fn permissions_are_their_bits(
    mode: u32,
    perm: FilePermissions,
    told: u32,
    readonly: bool,
    bits: u16,
)
    requires
        call_ensures(FilePermissions::from_mode, (mode,), perm),
        call_ensures(FilePermissions::mode, (&perm,), told),
        call_ensures(FilePermissions::readonly, (&perm,), readonly),
        call_ensures(FilePermissions::to_mode_t, (&perm,), bits),
    ensures
        told == mode,
        readonly <==> mode & 0o222 == 0,
        bits as u32 == mode & 0o7777,
{
}

/// What is known of a file is handed on to callers unchanged.
pub proof fn metadata_is_what_is_known(
    attr: FileAttr,
    m: Metadata,
    ino: u64,
    mode: u32,
    nlink: u32,
    size: u64,
)
    requires
        call_ensures(Metadata::from_attr, (attr,), m),
        call_ensures(<Metadata as MetadataExt>::ino, (&m,), ino),
        call_ensures(<Metadata as MetadataExt>::mode, (&m,), mode),
        call_ensures(<Metadata as MetadataExt>::nlink, (&m,), nlink),
        call_ensures(<Metadata as MetadataExt>::size, (&m,), size),
    ensures
        ino == attr@.ino && mode == attr@.mode && nlink == attr@.nlink && size == attr@.size,
        forall|n: i64| #[trigger]
            call_ensures(<Metadata as MetadataExt>::atime, (&m,), n) ==> n == attr@.atime_sec,
        forall|n: i64| #[trigger]
            call_ensures(<Metadata as MetadataExt>::atime_nsec, (&m,), n) ==> n
                == attr@.atime_nsec,
        forall|n: i64| #[trigger]
            call_ensures(<Metadata as MetadataExt>::mtime, (&m,), n) ==> n == attr@.mtime_sec,
        forall|n: i64| #[trigger]
            call_ensures(<Metadata as MetadataExt>::mtime_nsec, (&m,), n) ==> n
                == attr@.mtime_nsec,
        forall|n: i64| #[trigger]
            call_ensures(<Metadata as MetadataExt>::ctime, (&m,), n) ==> n == attr@.ctime_sec,
        forall|n: i64| #[trigger]
            call_ensures(<Metadata as MetadataExt>::ctime_nsec, (&m,), n) ==> n
                == attr@.ctime_nsec,
{
}

/// Making permissions read-only takes the three bits that grant writing away, making them the
/// opposite sets all three, and no other bit is touched.
pub proof fn only_the_writing_bits_are_changed(p: &mut FilePermissions, readonly: bool, r: ())
    requires
        call_ensures(FilePermissions::set_readonly, (p, readonly), r),
    ensures
        final(p)@ & 0o222 == (if readonly {
            0u32
        } else {
            0o222
        }),
        final(p)@ & !0o222u32 == old(p)@ & !0o222u32,
{
    set_readonly_sets_readonly(old(p)@, readonly);
}

/// A time that is set is the one that was given, in its own place, and the other one stays as it
/// was; at first neither is set.
pub proof fn a_time_is_set_in_its_own_place(
    a: &mut FileTimes,
    m: &mut FileTimes,
    t: SystemTime,
    first: FileTimes,
)
    requires
        call_ensures(FileTimes::set_accessed, (a, t), ()),
        call_ensures(FileTimes::set_modified, (m, t), ()),
        call_ensures(<FileTimes as Default>::default, (), first),
    ensures
        final(a).accessed == Some(t) && final(a).modified == old(a).modified,
        final(m).modified == Some(t) && final(m).accessed == old(m).accessed,
        first.accessed is None && first.modified is None,
{
}

} // verus!
