//! The standard streams.
use vstd::prelude::*;

use crate::error::Error;
use crate::fs::call::{Count, FsCall};
use crate::op::Request;
use crate::text::copy_of;

verus! {

/// The descriptor of the standard input.
pub const STDIN_FILENO: i32 = 0;

/// The descriptor of the standard output.
pub const STDOUT_FILENO: i32 = 1;

/// The descriptor of the standard error.
pub const STDERR_FILENO: i32 = 2;

/// The error number of a descriptor that is not open.
pub const EBADF: i32 = 9;

/// The length of the buffer for the standard input.
pub const STDIN_BUF_SIZE: usize = 8192;

/// Writes to a descriptor.
fn write_fd(fd: i32, buf: &[u8]) -> (r: Request<FsCall, Count>)
    ensures
        r.call matches FsCall::Write { fd: f, data } && f == fd && data@ == buf@,
{
    Request { call: FsCall::Write { fd, data: copy_of(buf) }, reading: Count }
}

/// The standard input.
#[derive(Clone, Copy, PartialEq, Eq, Debug)]
pub struct Stdin;

/// The standard output.
#[derive(Clone, Copy, PartialEq, Eq, Debug)]
pub struct Stdout;

/// The standard error.
#[derive(Clone, Copy, PartialEq, Eq, Debug)]
pub struct Stderr;

impl Stdin {
    /// The standard input.
    pub fn new() -> (s: Stdin)
        ensures
            s == Stdin,
    {
        Stdin
    }

    /// Reads into a buffer of that length.
    pub fn read(&mut self, len: usize) -> (r: Request<FsCall, Count>)
        ensures
            *final(self) == *old(self),
            r.call == (FsCall::Read { fd: STDIN_FILENO, len }),
    {
        Request { call: FsCall::Read { fd: STDIN_FILENO, len }, reading: Count }
    }
}

impl Stdout {
    /// The standard output.
    pub fn new() -> (s: Stdout)
        ensures
            s == Stdout,
    {
        Stdout
    }

    /// Writes.
    pub fn write(&mut self, buf: &[u8]) -> (r: Request<FsCall, Count>)
        ensures
            *final(self) == *old(self),
            r.call matches FsCall::Write { fd, data } && fd == STDOUT_FILENO && data@ == buf@,
    {
        write_fd(STDOUT_FILENO, buf)
    }

    /// Nothing is held back that would have to be flushed.
    pub fn flush(&mut self) -> (r: Result<(), Error>)
        ensures
            *final(self) == *old(self),
            r == Ok::<(), Error>(()),
    {
        Ok(())
    }
}

impl Stderr {
    /// The standard error.
    pub fn new() -> (s: Stderr)
        ensures
            s == Stderr,
    {
        Stderr
    }

    /// Writes.
    pub fn write(&mut self, buf: &[u8]) -> (r: Request<FsCall, Count>)
        ensures
            *final(self) == *old(self),
            r.call matches FsCall::Write { fd, data } && fd == STDERR_FILENO && data@ == buf@,
    {
        write_fd(STDERR_FILENO, buf)
    }

    /// Nothing is held back that would have to be flushed.
    pub fn flush(&mut self) -> (r: Result<(), Error>)
        ensures
            *final(self) == *old(self),
            r == Ok::<(), Error>(()),
    {
        Ok(())
    }
}

/// Whether an error says that a descriptor is not open.
pub fn is_ebadf(err: &Error) -> (yes: bool)
    ensures
        yes == (*err == Error::Os(EBADF)),
{
    match err.raw_os_error() {
        Some(code) => code == EBADF,
        None => false,
    }
}

/// Where a panic is reported: the standard error.
pub fn panic_output() -> (out: Option<Stderr>)
    ensures
        out == Some(Stderr),
{
    Some(Stderr::new())
}

/// Each of the standard streams is its own descriptor: the input is read from the first, the
/// output goes to the second and the errors to the third, all of what was given.
pub proof fn every_stream_is_its_own_descriptor(
    input: &mut Stdin,
    output: &mut Stdout,
    errors: &mut Stderr,
    len: usize,
    buf: &[u8],
    r: Request<FsCall, Count>,
    o: Request<FsCall, Count>,
    e: Request<FsCall, Count>,
)
    requires
        call_ensures(Stdin::read, (input, len), r),
        call_ensures(Stdout::write, (output, buf), o),
        call_ensures(Stderr::write, (errors, buf), e),
    ensures
        r.call == (FsCall::Read { fd: 0, len }),
        o.call matches FsCall::Write { fd, data } && fd == 1 && data@ == buf@,
        e.call matches FsCall::Write { fd, data } && fd == 2 && data@ == buf@,
{
}

/// Only the number of a descriptor that is not open says that one is not open, and a panic is
/// reported with the errors.
pub proof fn only_one_number_means_not_open(e: Error, yes: bool)
    requires
        call_ensures(is_ebadf, (&e,), yes),
    ensures
        yes <==> e == Error::Os(9),
        forall|out: Option<Stderr>| #[trigger]
            call_ensures(panic_output, (), out) ==> out == Some(Stderr),
        STDIN_BUF_SIZE == 8192,
{
}

} // verus!
