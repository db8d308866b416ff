//! Errors, and what the system's error numbers stand for.
use vstd::prelude::*;

use crate::op::{Decode, Request};
use crate::text::{decimal, first, first_is, lossy, push_decimal, to_string_lossy, until_nul};

verus! {

/// What went wrong, in the coarse classes that callers branch on.
#[derive(Clone, Copy, PartialEq, Eq, Debug, Structural)]
pub enum ErrorKind {
    NotFound,
    PermissionDenied,
    ConnectionRefused,
    ConnectionReset,
    ConnectionAborted,
    NotConnected,
    AddrInUse,
    AddrNotAvailable,
    BrokenPipe,
    AlreadyExists,
    WouldBlock,
    NotADirectory,
    IsADirectory,
    ReadOnlyFilesystem,
    InvalidInput,
    InvalidData,
    TimedOut,
    WriteZero,
    StorageFull,
    Interrupted,
    Unsupported,
    OutOfMemory,
    Other,
    Uncategorized,
}

/// An error.
#[derive(PartialEq, Eq, Debug)]
pub enum Error {
    /// An error number of the system.
    Os(i32),
    /// A class and nothing more.
    Simple(ErrorKind),
    /// A class and a fixed message.
    Message(ErrorKind, &'static str),
    /// A class and a message that was put together for the occasion.
    Custom(ErrorKind, String),
}

/// The class of a system error number (the numbers are NetBSD's).
pub open spec fn kind_of_code(code: i32) -> ErrorKind {
    if code == 1 || code == 13 {
        ErrorKind::PermissionDenied
    } else if code == 2 {
        ErrorKind::NotFound
    } else if code == 4 {
        ErrorKind::Interrupted
    } else if code == 17 {
        ErrorKind::AlreadyExists
    } else if code == 20 {
        ErrorKind::NotADirectory
    } else if code == 21 {
        ErrorKind::IsADirectory
    } else if code == 22 {
        ErrorKind::InvalidInput
    } else if code == 28 {
        ErrorKind::StorageFull
    } else if code == 30 {
        ErrorKind::ReadOnlyFilesystem
    } else if code == 32 {
        ErrorKind::BrokenPipe
    } else if code == 35 {
        ErrorKind::WouldBlock
    } else if code == 48 {
        ErrorKind::AddrInUse
    } else if code == 49 {
        ErrorKind::AddrNotAvailable
    } else if code == 53 {
        ErrorKind::ConnectionAborted
    } else if code == 54 {
        ErrorKind::ConnectionReset
    } else if code == 57 {
        ErrorKind::NotConnected
    } else if code == 60 {
        ErrorKind::TimedOut
    } else if code == 61 {
        ErrorKind::ConnectionRefused
    } else {
        ErrorKind::Uncategorized
    }
}

/// Sorts a system error number into its class.
pub fn decode_error_kind(code: i32) -> (kind: ErrorKind)
    ensures
        kind == kind_of_code(code),
{
    match code {
        1 => ErrorKind::PermissionDenied,  // EPERM
        2 => ErrorKind::NotFound,  // ENOENT
        4 => ErrorKind::Interrupted,  // EINTR
        13 => ErrorKind::PermissionDenied,  // EACCES
        17 => ErrorKind::AlreadyExists,  // EEXIST
        20 => ErrorKind::NotADirectory,  // ENOTDIR
        21 => ErrorKind::IsADirectory,  // EISDIR
        22 => ErrorKind::InvalidInput,  // EINVAL
        28 => ErrorKind::StorageFull,  // ENOSPC
        30 => ErrorKind::ReadOnlyFilesystem,  // EROFS
        32 => ErrorKind::BrokenPipe,  // EPIPE
        35 => ErrorKind::WouldBlock,  // EAGAIN, EWOULDBLOCK
        48 => ErrorKind::AddrInUse,  // EADDRINUSE
        49 => ErrorKind::AddrNotAvailable,  // EADDRNOTAVAIL
        53 => ErrorKind::ConnectionAborted,  // ECONNABORTED
        54 => ErrorKind::ConnectionReset,  // ECONNRESET
        57 => ErrorKind::NotConnected,  // ENOTCONN
        60 => ErrorKind::TimedOut,  // ETIMEDOUT
        61 => ErrorKind::ConnectionRefused,  // ECONNREFUSED
        _ => ErrorKind::Uncategorized,
    }
}

/// Whether an error number says that a call was interrupted and may be made again.
pub fn is_interrupted(code: i32) -> (yes: bool)
    ensures
        yes == (code == 4),
{
    code == 4
}

/// The interrupted numbers are exactly those of the class `Interrupted`.
pub proof fn interrupted_is_a_class(code: i32)
    ensures
        (code == 4) == (kind_of_code(code) == ErrorKind::Interrupted),
{
}

impl Error {
    /// The class of an error.
    pub open spec fn spec_kind(self) -> ErrorKind {
        match self {
            Error::Os(code) => kind_of_code(code),
            Error::Simple(kind) => kind,
            Error::Message(kind, _) => kind,
            Error::Custom(kind, _) => kind,
        }
    }

    /// The class of this error.
    pub fn kind(&self) -> (kind: ErrorKind)
        ensures
            kind == self.spec_kind(),
    {
        match self {
            Error::Os(code) => decode_error_kind(*code),
            Error::Simple(kind) => *kind,
            Error::Message(kind, _) => *kind,
            Error::Custom(kind, _) => *kind,
        }
    }

    /// The system's error number, where the error came with one.
    pub fn raw_os_error(&self) -> (code: Option<i32>)
        ensures
            code == (match *self {
                Error::Os(code) => Some(code),
                _ => None,
            }),
    {
        match self {
            Error::Os(code) => Some(*code),
            _ => None,
        }
    }
}

/// The error of an operation that this platform does not have at all.
pub open spec fn unsupported_platform() -> Error {
    Error::Message(ErrorKind::Unsupported, "operation not supported on this platform")
}

/// Refuses an operation that this platform does not have at all.
pub fn unsupported<T>() -> (r: Result<T, Error>)
    ensures
        r == Err::<T, Error>(unsupported_platform()),
{
    Err(Error::Message(ErrorKind::Unsupported, "operation not supported on this platform"))
}

/// A call for the words of an error number: `strerror`.
#[derive(PartialEq, Eq, Debug)]
pub struct ErrorCall {
    pub errno: i32,
}

/// The words of an error number. The call answers them up to their NUL, or nothing.
pub struct ErrorText {
    pub errno: i32,
}

impl Decode for ErrorText {
    type Reply = Option<Vec<u8>>;

    type Output = String;

    open spec fn accepts(self, reply: Option<Vec<u8>>) -> bool {
        true
    }

    open spec fn reads(self, reply: Option<Vec<u8>>, out: String) -> bool {
        match reply {
            Some(text) => out@ == lossy(text@.take(first(text@, 0))),
            None => out@ == "unknown error (errno "@ + decimal(self.errno as int) + ")"@,
        }
    }

    fn decode(self, reply: Option<Vec<u8>>) -> (out: String) {
        match reply {
            Some(text) => to_string_lossy(until_nul(text.as_slice()).as_slice()),
            None => {
                let mut out: String = String::from_str("unknown error (errno ");
                push_decimal(&mut out, self.errno as i64);
                out.append(")");
                out
            },
        }
    }
}

/// Asks for the words of an error number.
pub fn error_string(errno: i32) -> (r: Request<ErrorCall, ErrorText>)
    ensures
        r.call.errno == errno,
        r.reading.errno == errno,
{
    Request { call: ErrorCall { errno }, reading: ErrorText { errno } }
}

/// Every class that the system has a number for has these numbers and no others.
pub proof fn every_class_has_its_numbers(code: i32, kind: ErrorKind)
    requires
        call_ensures(decode_error_kind, (code,), kind),
    ensures
        kind == ErrorKind::PermissionDenied <==> code == 1 || code == 13,
        kind == ErrorKind::NotFound <==> code == 2,
        kind == ErrorKind::Interrupted <==> code == 4,
        kind == ErrorKind::AlreadyExists <==> code == 17,
        kind == ErrorKind::NotADirectory <==> code == 20,
        kind == ErrorKind::IsADirectory <==> code == 21,
        kind == ErrorKind::InvalidInput <==> code == 22,
        kind == ErrorKind::StorageFull <==> code == 28,
        kind == ErrorKind::ReadOnlyFilesystem <==> code == 30,
        kind == ErrorKind::BrokenPipe <==> code == 32,
        kind == ErrorKind::WouldBlock <==> code == 35,
        kind == ErrorKind::AddrInUse <==> code == 48,
        kind == ErrorKind::AddrNotAvailable <==> code == 49,
        kind == ErrorKind::ConnectionAborted <==> code == 53,
        kind == ErrorKind::ConnectionReset <==> code == 54,
        kind == ErrorKind::NotConnected <==> code == 57,
        kind == ErrorKind::TimedOut <==> code == 60,
        kind == ErrorKind::ConnectionRefused <==> code == 61,
        forall|yes: bool| #[trigger] call_ensures(is_interrupted, (code,), yes) ==> (yes <==> kind
            == ErrorKind::Interrupted),
{
}

/// The numbers that have a class of their own are these; every other one has none.
pub proof fn other_numbers_have_no_class(code: i32, kind: ErrorKind)
    requires
        call_ensures(decode_error_kind, (code,), kind),
    ensures
        kind == ErrorKind::Uncategorized <==> !(seq![
            1int,
            2,
            4,
            13,
            17,
            20,
            21,
            22,
            28,
            30,
            32,
            35,
            48,
            49,
            53,
            54,
            57,
            60,
            61,
        ].contains(code as int)),
{
    let known = seq![1int, 2, 4, 13, 17, 20, 21, 22, 28, 30, 32, 35, 48, 49, 53, 54, 57, 60, 61];
    if kind != ErrorKind::Uncategorized {
        assert(known[0] == 1 && known[1] == 2 && known[2] == 4 && known[3] == 13 && known[4] == 17
            && known[5] == 20 && known[6] == 21 && known[7] == 22 && known[8] == 28 && known[9]
            == 30 && known[10] == 32 && known[11] == 35 && known[12] == 48 && known[13] == 49
            && known[14] == 53 && known[15] == 54 && known[16] == 57 && known[17] == 60
            && known[18] == 61);
    }
}

/// An error is of the class that it was made with, and one that came as a number keeps the
/// number and is of the class of that number.
pub proof fn errors_keep_what_they_were_made_of(e: Error, kind: ErrorKind, code: Option<i32>)
    requires
        call_ensures(Error::kind, (&e,), kind),
        call_ensures(Error::raw_os_error, (&e,), code),
    ensures
        e matches Error::Os(n) ==> code == Some(n) && kind == kind_of_code(n),
        e matches Error::Simple(k) ==> code is None && kind == k,
        e matches Error::Message(k, _) ==> code is None && kind == k,
        e matches Error::Custom(k, _) ==> code is None && kind == k,
        kind == e.spec_kind(),
{
}

/// What the system has no word for is told by the very number that was asked about; what it
/// has words for is told in those words, up to their NUL.
pub proof fn unknown_errors_show_their_number(
    errno: i32,
    request: Request<ErrorCall, ErrorText>,
    words: Option<Vec<u8>>,
    out: String,
)
    requires
        call_ensures(error_string, (errno,), request),
        request.reading.reads(words, out),
    ensures
        request.call.errno == errno,
        words is None ==> out@ == "unknown error (errno "@ + decimal(errno as int) + ")"@,
        words matches Some(text) ==> forall|n: int|
            0 <= n < text@.len() && text@[n] == 0 && (forall|i: int|
                0 <= i < n ==> text@[i] != 0) ==> out@ == lossy(#[trigger] text@.take(n)),
        words matches Some(text) ==> (forall|i: int| 0 <= i < text@.len() ==> text@[i] != 0)
            ==> out@ == lossy(text@),
{
    if let Some(text) = words {
        assert forall|n: int|
            0 <= n < text@.len() && text@[n] == 0 && (forall|i: int|
                0 <= i < n ==> text@[i] != 0) implies out@ == lossy(#[trigger] text@.take(n)) by {
            first_is(text@, 0, n);
        }
        if forall|i: int| 0 <= i < text@.len() ==> text@[i] != 0 {
            first_is(text@, 0, text@.len() as int);
            assert(text@.take(text@.len() as int) == text@);
        }
    }
}

/// What this platform does not have is refused, and never granted.
pub proof fn what_is_missing_is_refused<T>(r: Result<T, Error>)
    requires
        call_ensures(unsupported::<T>, (), r),
    ensures
        r matches Err(e) && e == Error::Message(
            ErrorKind::Unsupported,
            "operation not supported on this platform",
        ),
{
}

} // verus!
