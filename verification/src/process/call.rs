//! The calls that starting and watching children takes, and what they answer.
use vstd::prelude::*;

use crate::fs::call::{FsCall, FsReply};
use crate::pipe::{PipeCall, PipeHandle, PipeReply};
use crate::text::CString;

verus! {

/// What the system knows a child by. Zero is none.
pub type ChildHandle = i64;

/// What the system knows a task by. Zero is none.
pub type TaskHandle = i64;

/// A call on behalf of a child.
#[derive(PartialEq, Eq, Debug)]
pub enum ChildCall {
    /// Takes the next number from the counter of scripts.
    NextScript,
    /// `aros_proc_spawn`.
    Spawn {
        line: CString,
        in_mode: i32,
        out_mode: i32,
        err_mode: i32,
        interactive: i32,
        cwd: Option<CString>,
    },
    /// `aros_proc_last_fail`.
    LastFail,
    /// `aros_proc_exited`, with what the variable for the exit code holds before it.
    Exited { handle: ChildHandle, code: i32 },
    /// `aros_proc_set_waiter`.
    SetWaiter { handle: ChildHandle, task: TaskHandle, mask: u32 },
    /// `aros_proc_free`.
    Free { handle: ChildHandle },
    /// `aros_task_self`.
    TaskSelf,
    /// `aros_sig_alloc`.
    SigAlloc,
    /// `aros_sig_wait`.
    SigWait { mask: u32 },
    /// `aros_sig_free`.
    SigFree { bit: i32 },
    /// Lets other tasks run.
    Yield,
    /// A call to the file system.
    Fs(FsCall),
    /// A call to the pipe handler.
    Pipe(PipeCall),
}

/// What such a call answers.
#[derive(PartialEq, Eq, Debug)]
pub enum ChildReply {
    /// The number of a script.
    Script(u32),
    /// The child, or zero, and the ends of its pipes, each of them zero where there is none.
    Spawned { handle: ChildHandle, input: PipeHandle, output: PipeHandle, errors: PipeHandle },
    /// Why the last start failed.
    Failed { why: i64, ioerr: i64, step: i64 },
    /// Not zero where the child is gone, and what the variable for the exit code now holds.
    Exited { exited: i32, code: i32 },
    /// Not zero where the child was gone already.
    Waiter(i32),
    /// A task.
    Task(TaskHandle),
    /// A signal, or something negative where there is none to be had.
    Bit(i32),
    /// Nothing that counts.
    Nothing,
    /// What a call to the file system answered.
    Fs(FsReply),
    /// What a call to the pipe handler answered.
    Pipe(PipeReply),
}

impl ChildReply {
    /// The answer of the file system.
    pub(crate) fn into_fs(self) -> (r: FsReply)
        requires
            self is Fs,
        ensures
            self == ChildReply::Fs(r),
    {
        match self {
            ChildReply::Fs(r) => r,
            _ => vstd::pervasive::unreached(),
        }
    }

    /// The answer of the pipe handler.
    pub(crate) fn into_pipe(self) -> (r: PipeReply)
        requires
            self is Pipe,
        ensures
            self == ChildReply::Pipe(r),
    {
        match self {
            ChildReply::Pipe(r) => r,
            _ => vstd::pervasive::unreached(),
        }
    }

    /// The number of a script.
    pub(crate) fn into_script(self) -> (n: u32)
        requires
            self is Script,
        ensures
            self == ChildReply::Script(n),
    {
        match self {
            ChildReply::Script(n) => n,
            _ => vstd::pervasive::unreached(),
        }
    }

    /// The answer to a registration.
    pub(crate) fn into_waiter(self) -> (already: i32)
        requires
            self is Waiter,
        ensures
            self == ChildReply::Waiter(already),
    {
        match self {
            ChildReply::Waiter(already) => already,
            _ => vstd::pervasive::unreached(),
        }
    }

    /// A task.
    pub(crate) fn into_task(self) -> (task: TaskHandle)
        requires
            self is Task,
        ensures
            self == ChildReply::Task(task),
    {
        match self {
            ChildReply::Task(task) => task,
            _ => vstd::pervasive::unreached(),
        }
    }

    /// A signal.
    pub(crate) fn into_bit(self) -> (bit: i32)
        requires
            self is Bit,
        ensures
            self == ChildReply::Bit(bit),
    {
        match self {
            ChildReply::Bit(bit) => bit,
            _ => vstd::pervasive::unreached(),
        }
    }

    /// Whether the child is gone, and its exit code.
    pub(crate) fn into_exited(self) -> (r: (i32, i32))
        requires
            self is Exited,
        ensures
            self == (ChildReply::Exited { exited: r.0, code: r.1 }),
    {
        match self {
            ChildReply::Exited { exited, code } => (exited, code),
            _ => vstd::pervasive::unreached(),
        }
    }
}

} // verus!
