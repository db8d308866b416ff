//! Children that have been started.
use vstd::prelude::*;

use crate::error::{Error, ErrorKind};
use crate::fs::call::FsCall;
use crate::fs::ops::unlink;
use crate::fs::translate::translated;
use crate::op::{follows, runs, runs_before, Operation, Step};
use crate::process::call::{ChildCall, ChildHandle, ChildReply, TaskHandle};
use crate::process::status::ExitStatus;
use crate::text::{nul_free, CString};

verus! {

/// A child. It owns a handle of the system and perhaps a script: [`Process::close`] has to
/// be gone through when it is given up.
#[derive(Debug)]
pub struct Process {
    handle: ChildHandle,
    status: Option<ExitStatus>,
    script: Option<Vec<u8>>,
}

/// The path of a script.
pub open spec fn script_of(script: Option<Vec<u8>>) -> Option<Seq<u8>> {
    match script {
        Some(s) => Some(s@),
        None => None,
    }
}

/// What is left to do about a script that is no longer needed: the file is removed, unless
/// its path is one that no file can have.
pub open spec fn removal(path: Option<CString>, script: Option<Seq<u8>>) -> bool {
    match script {
        Some(s) => if nul_free(s) {
            path matches Some(p) && p@ == translated(s)
        } else {
            path is None
        },
        None => path is None,
    }
}

/// The path of a script to be removed, as the system is given it.
pub(crate) fn path_to_remove(script: Option<Vec<u8>>) -> (path: Option<CString>)
    ensures
        removal(path, script_of(script)),
{
    match script {
        Some(s) => match unlink(s.as_slice()) {
            Ok(request) => match request.call {
                FsCall::Unlink { path } => Some(path),
                _ => None,
            },
            Err(_) => None,
        },
        None => None,
    }
}

impl Process {
    /// What the system knows the child by.
    pub closed spec fn handle(self) -> ChildHandle {
        self.handle
    }

    /// How the child ended, once that is known.
    pub closed spec fn status(self) -> Option<ExitStatus> {
        self.status
    }

    /// The path of the script that the child runs, as long as the file is there.
    pub closed spec fn script(self) -> Option<Seq<u8>> {
        script_of(self.script)
    }

    /// A child that has just been started.
    pub fn started(handle: ChildHandle, script: Option<Vec<u8>>) -> (p: Process)
        ensures
            p.handle() == handle,
            p.status() is None,
            p.script() == script_of(script),
    {
        Process { handle, status: None, script }
    }

    /// Children have no numbers: the system knows them by an address, and that of a shell.
    pub fn id(&self) -> (id: u32)
        ensures
            id == 0,
    {
        0
    }

    /// Nothing can end a child but itself.
    pub fn kill(&mut self) -> (r: Result<(), Error>)
        ensures
            *final(self) == *old(self),
            r == Err::<(), Error>(
                Error::Message(
                    ErrorKind::Unsupported,
                    "killing a child is not supported on AROS",
                ),
            ),
    {
        Err(Error::Message(ErrorKind::Unsupported, "killing a child is not supported on AROS"))
    }

    /// Notes how the child ended. Its script, if any, is then to be removed.
    pub fn reap(self, code: i32) -> (r: (Process, ExitStatus, Option<CString>))
        ensures
            reaped(self, code, r.0, r.1, r.2),
    {
        let status: ExitStatus = ExitStatus::from_code(code);
        let path: Option<CString> = path_to_remove(self.script);
        (Process { handle: self.handle, status: Some(status), script: None }, status, path)
    }

    /// Whether `op` is a wait for this child that has just begun.
    pub open spec fn waited_by(self, op: Wait) -> bool {
        op.process == self && op.at is Allocating
    }

    /// Waits until the child has ended. That it has is learned only once.
    pub fn wait(self) -> (step: Step<Wait, (Process, Result<ExitStatus, Error>)>)
        ensures
            match self.status() {
                Some(status) => step == Step::<Wait, (Process, Result<ExitStatus, Error>)>::Done(
                    (self, Ok(status)),
                ),
                None => step matches Step::Ask(op) && self.waited_by(op),
            },
    {
        match self.status {
            Some(status) => Step::Done((self, Ok(status))),
            None => Step::Ask(Wait { process: self, at: WaitAt::Allocating }),
        }
    }

    /// Asks whether the child has ended.
    pub fn try_wait(self) -> (step: Step<TryWait, (Process, Result<Option<ExitStatus>, Error>)>)
        ensures
            match self.status() {
                Some(status) => step == Step::<
                    TryWait,
                    (Process, Result<Option<ExitStatus>, Error>),
                >::Done((self, Ok(Some(status)))),
                None => step == Step::<
                    TryWait,
                    (Process, Result<Option<ExitStatus>, Error>),
                >::Ask(TryWait::Looking { process: self }),
            },
    {
        match self.status {
            Some(status) => Step::Done((self, Ok(Some(status)))),
            None => Step::Ask(TryWait::Looking { process: self }),
        }
    }

    /// Whether `op` is this child's being given up, which has just begun: what the system
    /// keeps of it may only be released once the child is known to be gone.
    pub open spec fn released_by(self, op: Release) -> bool {
        match self.status() {
            Some(_) => op matches Release::Freeing { handle, script } && handle == self.handle()
                && script_of(script) == self.script(),
            None => op matches Release::Looking { handle, script } && handle == self.handle()
                && script_of(script) == self.script(),
        }
    }

    /// Gives the child up.
    pub fn close(self) -> (op: Release)
        ensures
            self.released_by(op),
    {
        match self.status {
            Some(_) => Release::Freeing { handle: self.handle, script: self.script },
            None => Release::Looking { handle: self.handle, script: self.script },
        }
    }
}

/// Whether a child that ended with a code is known to have ended, with its script to be
/// removed.
pub open spec fn reaped(
    before: Process,
    code: i32,
    after: Process,
    status: ExitStatus,
    path: Option<CString>,
) -> bool {
    &&& after.handle() == before.handle()
    &&& after.status() == Some(status)
    &&& status@ == code
    &&& after.script() is None
    &&& removal(path, before.script())
}

// ------------------------------------------------------------------------------------
// Waiting
// ------------------------------------------------------------------------------------

/// What waiting for a child waits for. The signal that tells of the exit belongs to the one
/// who waits, and the child knows of it only during the wait: a child may outlive its parent.
pub enum WaitAt {
    /// A signal.
    Allocating,
    /// The name of the one who waits.
    Naming { bit: i32, mask: u32 },
    /// That the child knows whom to signal.
    Registering { bit: i32, mask: u32, task: TaskHandle, code: i32 },
    /// Whether the child is gone.
    Looking { bit: i32, mask: u32, task: TaskHandle, code: i32 },
    /// The signal to come.
    Sleeping { bit: i32, mask: u32, task: TaskHandle, code: i32 },
    /// That the child signals nobody any more.
    Clearing { bit: i32, code: i32 },
    /// That the signal is given back.
    Freeing { bit: i32, code: i32 },
    /// The code that the child ended with.
    Reading { code: i32 },
    /// That the script is removed.
    Removing { path: CString, status: ExitStatus },
}

/// Waiting for a child.
pub struct Wait {
    pub process: Process,
    pub at: WaitAt,
}

/// What is said where there is no signal to wait for.
pub open spec fn no_signal() -> Error {
    Error::Message(ErrorKind::Uncategorized, "no free signal to wait for a child")
}

impl Operation for Wait {
    type Call = ChildCall;

    type Reply = ChildReply;

    type Output = (Process, Result<ExitStatus, Error>);

    open spec fn asks(self, call: ChildCall) -> bool {
        let handle = self.process.handle();
        match self.at {
            WaitAt::Allocating => call is SigAlloc,
            WaitAt::Naming { bit, mask } => call is TaskSelf,
            WaitAt::Registering { bit, mask, task, code } => call == (ChildCall::SetWaiter {
                handle,
                task,
                mask,
            }),
            WaitAt::Looking { bit, mask, task, code } => call == (ChildCall::Exited {
                handle,
                code,
            }),
            WaitAt::Sleeping { bit, mask, task, code } => call == (ChildCall::SigWait { mask }),
            WaitAt::Clearing { bit, code } => call == (ChildCall::SetWaiter {
                handle,
                task: 0,
                mask: 0,
            }),
            WaitAt::Freeing { bit, code } => call == (ChildCall::SigFree { bit }),
            WaitAt::Reading { code } => call == (ChildCall::Exited { handle, code }),
            WaitAt::Removing { path, status } => call matches ChildCall::Fs(
                FsCall::Unlink { path: p },
            ) && p@ == path@,
        }
    }

    open spec fn accepts(self, reply: ChildReply) -> bool {
        match self.at {
            WaitAt::Allocating => reply matches ChildReply::Bit(bit) && bit < 32,
            WaitAt::Naming { bit, mask } => reply is Task,
            WaitAt::Registering { bit, mask, task, code } => reply is Waiter,
            WaitAt::Looking { bit, mask, task, code } => reply is Exited,
            WaitAt::Sleeping { bit, mask, task, code } => reply is Nothing,
            WaitAt::Clearing { bit, code } => reply is Waiter,
            WaitAt::Freeing { bit, code } => reply is Nothing,
            WaitAt::Reading { code } => reply is Exited,
            WaitAt::Removing { path, status } => reply is Fs,
        }
    }

    /// The child is registered with before it is looked at, so that an exit in between is
    /// not missed, and it is registered with anew after each signal.
    open spec fn leads_to(
        self,
        reply: ChildReply,
        step: Step<Wait, (Process, Result<ExitStatus, Error>)>,
    ) -> bool {
        let process = self.process;
        match (self.at, reply) {
            (WaitAt::Allocating, ChildReply::Bit(bit)) => if bit < 0 {
                step == Step::<Wait, (Process, Result<ExitStatus, Error>)>::Done(
                    (process, Err(no_signal())),
                )
            } else {
                step == Step::<Wait, (Process, Result<ExitStatus, Error>)>::Ask(
                    Wait { process, at: WaitAt::Naming { bit, mask: 1u32 << (bit as u32) } },
                )
            },
            (WaitAt::Naming { bit, mask }, ChildReply::Task(task)) => step == Step::<
                Wait,
                (Process, Result<ExitStatus, Error>),
            >::Ask(Wait { process, at: WaitAt::Registering { bit, mask, task, code: 0 } }),
            (
                WaitAt::Registering { bit, mask, task, code },
                ChildReply::Waiter(already),
            ) => step == Step::<Wait, (Process, Result<ExitStatus, Error>)>::Ask(
                Wait {
                    process,
                    at: if already != 0 {
                        WaitAt::Clearing { bit, code }
                    } else {
                        WaitAt::Looking { bit, mask, task, code }
                    },
                },
            ),
            (
                WaitAt::Looking { bit, mask, task, code },
                ChildReply::Exited { exited, code: now },
            ) => step == Step::<Wait, (Process, Result<ExitStatus, Error>)>::Ask(
                Wait {
                    process,
                    at: if exited != 0 {
                        WaitAt::Clearing { bit, code: now }
                    } else {
                        WaitAt::Sleeping { bit, mask, task, code: now }
                    },
                },
            ),
            (WaitAt::Sleeping { bit, mask, task, code }, ChildReply::Nothing) => step == Step::<
                Wait,
                (Process, Result<ExitStatus, Error>),
            >::Ask(Wait { process, at: WaitAt::Registering { bit, mask, task, code } }),
            (WaitAt::Clearing { bit, code }, ChildReply::Waiter(_)) => step == Step::<
                Wait,
                (Process, Result<ExitStatus, Error>),
            >::Ask(Wait { process, at: WaitAt::Freeing { bit, code } }),
            (WaitAt::Freeing { bit, code }, ChildReply::Nothing) => step == Step::<
                Wait,
                (Process, Result<ExitStatus, Error>),
            >::Ask(Wait { process, at: WaitAt::Reading { code } }),
            (WaitAt::Reading { code }, ChildReply::Exited { exited, code: now }) => match step {
                Step::Ask(Wait { process: after, at: WaitAt::Removing { path, status } }) => reaped(
                    process,
                    now,
                    after,
                    status,
                    Some(path),
                ),
                Step::Done((after, Ok(status))) => reaped(process, now, after, status, None),
                _ => false,
            },
            (WaitAt::Removing { path, status }, ChildReply::Fs(_)) => step == Step::<
                Wait,
                (Process, Result<ExitStatus, Error>),
            >::Done((process, Ok(status))),
            _ => false,
        }
    }

    fn call(&self) -> (call: ChildCall) {
        let handle: ChildHandle = self.process.handle;
        match &self.at {
            WaitAt::Allocating => ChildCall::SigAlloc,
            WaitAt::Naming { .. } => ChildCall::TaskSelf,
            WaitAt::Registering { mask, task, .. } => ChildCall::SetWaiter {
                handle,
                task: *task,
                mask: *mask,
            },
            WaitAt::Looking { code, .. } => ChildCall::Exited { handle, code: *code },
            WaitAt::Sleeping { mask, .. } => ChildCall::SigWait { mask: *mask },
            WaitAt::Clearing { .. } => ChildCall::SetWaiter { handle, task: 0, mask: 0 },
            WaitAt::Freeing { bit, .. } => ChildCall::SigFree { bit: *bit },
            WaitAt::Reading { code } => ChildCall::Exited { handle, code: *code },
            WaitAt::Removing { path, .. } => ChildCall::Fs(
                FsCall::Unlink { path: path.duplicate() },
            ),
        }
    }

    fn resume(self, reply: ChildReply) -> (step: Step<
        Wait,
        (Process, Result<ExitStatus, Error>),
    >) {
        let Wait { process, at } = self;
        let at: WaitAt = match at {
            WaitAt::Allocating => {
                let bit: i32 = reply.into_bit();
                if bit < 0 {
                    return Step::Done(
                        (
                            process,
                            Err(
                                Error::Message(
                                    ErrorKind::Uncategorized,
                                    "no free signal to wait for a child",
                                ),
                            ),
                        ),
                    );
                }
                WaitAt::Naming { bit, mask: 1u32 << (bit as u32) }
            },
            WaitAt::Naming { bit, mask } => WaitAt::Registering {
                bit,
                mask,
                task: reply.into_task(),
                code: 0,
            },
            WaitAt::Registering { bit, mask, task, code } => if reply.into_waiter() != 0 {
                WaitAt::Clearing { bit, code }
            } else {
                WaitAt::Looking { bit, mask, task, code }
            },
            WaitAt::Looking { bit, mask, task, code: _ } => {
                let (exited, code): (i32, i32) = reply.into_exited();
                if exited != 0 {
                    WaitAt::Clearing { bit, code }
                } else {
                    WaitAt::Sleeping { bit, mask, task, code }
                }
            },
            WaitAt::Sleeping { bit, mask, task, code } => WaitAt::Registering {
                bit,
                mask,
                task,
                code,
            },
            WaitAt::Clearing { bit, code } => WaitAt::Freeing { bit, code },
            WaitAt::Freeing { bit: _, code } => WaitAt::Reading { code },
            WaitAt::Reading { code: _ } => {
                let (_, code): (i32, i32) = reply.into_exited();
                let (process, status, path) = process.reap(code);
                return match path {
                    Some(path) => Step::Ask(
                        Wait { process, at: WaitAt::Removing { path, status } },
                    ),
                    None => Step::Done((process, Ok(status))),
                };
            },
            WaitAt::Removing { path: _, status } => {
                return Step::Done((process, Ok(status)));
            },
        };
        Step::Ask(Wait { process, at })
    }
}

/// The signal that a wait has taken and not given back yet.
pub open spec fn holds_signal(at: WaitAt) -> Option<i32> {
    match at {
        WaitAt::Naming { bit, mask } => Some(bit),
        WaitAt::Registering { bit, mask, task, code } => Some(bit),
        WaitAt::Looking { bit, mask, task, code } => Some(bit),
        WaitAt::Sleeping { bit, mask, task, code } => Some(bit),
        WaitAt::Clearing { bit, code } => Some(bit),
        WaitAt::Freeing { bit, code } => Some(bit),
        _ => None,
    }
}

/// Whether the child may know of a task to signal.
pub open spec fn may_be_registered(at: WaitAt) -> bool {
    at is Looking || at is Sleeping || at is Clearing
}

/// A wait ends only where it holds no signal and the child knows of no task to signal. The
/// signal is the one that was allocated throughout, and it goes only by being freed; what
/// the child was told goes only by being told that there is nobody.
pub proof fn waiting_gives_back_what_it_took(
    op: Wait,
    reply: ChildReply,
    step: Step<Wait, (Process, Result<ExitStatus, Error>)>,
)
    requires
        op.accepts(reply),
        op.leads_to(reply, step),
    ensures
        step is Done ==> !may_be_registered(op.at) && holds_signal(op.at) is None,
        step matches Step::Ask(next) ==> {
            &&& holds_signal(op.at) is Some && holds_signal(next.at) != holds_signal(op.at)
                ==> op.asks(ChildCall::SigFree { bit: holds_signal(op.at)->0 })
            &&& may_be_registered(op.at) && !may_be_registered(next.at) && !(
            next.at is Registering) ==> op.asks(
                ChildCall::SetWaiter { handle: op.process.handle(), task: 0, mask: 0 },
            )
            &&& op.at is Freeing ==> !may_be_registered(next.at)
            &&& next.process.handle() == op.process.handle()
        },
{
}

/// A child that is still running is never taken for one that has ended: a wait goes on to
/// its end only once the system has said that the child is gone.
pub proof fn waiting_ends_with_the_child(op: Wait, reply: ChildReply, next: Wait)
    requires
        follows(op, reply, next),
        next.at is Clearing,
    ensures
        (reply matches ChildReply::Waiter(already) && already != 0) || (
        reply matches ChildReply::Exited { exited, code } && exited != 0),
{
}

/// How far a wait has come.
pub open spec fn stage(at: WaitAt) -> int {
    match at {
        WaitAt::Allocating => 0,
        WaitAt::Naming { bit, mask } => 1,
        WaitAt::Registering { bit, mask, task, code } => 2,
        WaitAt::Looking { bit, mask, task, code } => 2,
        WaitAt::Sleeping { bit, mask, task, code } => 2,
        WaitAt::Clearing { bit, code } => 3,
        WaitAt::Freeing { bit, code } => 4,
        WaitAt::Reading { code } => 5,
        WaitAt::Removing { path, status } => 6,
    }
}

proof fn stages_are_not_skipped(ops: Seq<Wait>, replies: Seq<ChildReply>, s: int)
    requires
        runs(ops, replies),
        stage(ops[0].at) <= s <= stage(ops.last().at),
    ensures
        exists|i: int| 0 <= i < ops.len() && stage(#[trigger] ops[i].at) == s,
    decreases replies.len(),
{
    if stage(ops.last().at) == s {
        assert(stage(ops[ops.len() - 1].at) == s);
    } else {
        runs_before(ops, replies);
        stages_are_not_skipped(ops.drop_last(), replies.drop_last(), s);
        let i = choose|i: int|
            0 <= i < ops.drop_last().len() && stage(#[trigger] ops.drop_last()[i].at) == s;
        assert(stage(ops[i].at) == s);
    }
}

/// Every wait that learns the child's code has, on its way, told the child to signal nobody
/// and given a signal back.
pub proof fn waiting_clears_and_frees(ops: Seq<Wait>, replies: Seq<ChildReply>)
    requires
        runs(ops, replies),
        ops[0].at is Allocating,
        ops.last().at is Reading || ops.last().at is Removing,
    ensures
        exists|i: int| 0 <= i < ops.len() && #[trigger] ops[i].at is Clearing,
        exists|i: int| 0 <= i < ops.len() && #[trigger] ops[i].at is Freeing,
{
    stages_are_not_skipped(ops, replies, 3);
    stages_are_not_skipped(ops, replies, 4);
    let i = choose|i: int| 0 <= i < ops.len() && stage(#[trigger] ops[i].at) == 3;
    assert(ops[i].at is Clearing);
    let j = choose|j: int| 0 <= j < ops.len() && stage(#[trigger] ops[j].at) == 4;
    assert(ops[j].at is Freeing);
}

// ------------------------------------------------------------------------------------
// Asking without waiting
// ------------------------------------------------------------------------------------

/// Asking whether a child has ended.
pub enum TryWait {
    /// Whether it is gone.
    Looking { process: Process },
    /// That its script is removed.
    Removing { process: Process, path: CString, status: ExitStatus },
}

impl Operation for TryWait {
    type Call = ChildCall;

    type Reply = ChildReply;

    type Output = (Process, Result<Option<ExitStatus>, Error>);

    open spec fn asks(self, call: ChildCall) -> bool {
        match self {
            TryWait::Looking { process } => call == (ChildCall::Exited {
                handle: process.handle(),
                code: 0,
            }),
            TryWait::Removing { process, path, status } => call matches ChildCall::Fs(
                FsCall::Unlink { path: p },
            ) && p@ == path@,
        }
    }

    open spec fn accepts(self, reply: ChildReply) -> bool {
        match self {
            TryWait::Looking { process } => reply is Exited,
            TryWait::Removing { process, path, status } => reply is Fs,
        }
    }

    open spec fn leads_to(
        self,
        reply: ChildReply,
        step: Step<TryWait, (Process, Result<Option<ExitStatus>, Error>)>,
    ) -> bool {
        match (self, reply) {
            (TryWait::Looking { process }, ChildReply::Exited { exited, code }) => if exited == 0 {
                step == Step::<TryWait, (Process, Result<Option<ExitStatus>, Error>)>::Done(
                    (process, Ok(None)),
                )
            } else {
                match step {
                    Step::Ask(TryWait::Removing { process: after, path, status }) => reaped(
                        process,
                        code,
                        after,
                        status,
                        Some(path),
                    ),
                    Step::Done((after, Ok(Some(status)))) => reaped(
                        process,
                        code,
                        after,
                        status,
                        None,
                    ),
                    _ => false,
                }
            },
            (TryWait::Removing { process, path, status }, ChildReply::Fs(_)) => step == Step::<
                TryWait,
                (Process, Result<Option<ExitStatus>, Error>),
            >::Done((process, Ok(Some(status)))),
            _ => false,
        }
    }

    fn call(&self) -> (call: ChildCall) {
        match self {
            TryWait::Looking { process } => ChildCall::Exited { handle: process.handle, code: 0 },
            TryWait::Removing { process: _, path, status: _ } => ChildCall::Fs(
                FsCall::Unlink { path: path.duplicate() },
            ),
        }
    }

    fn resume(self, reply: ChildReply) -> (step: Step<
        TryWait,
        (Process, Result<Option<ExitStatus>, Error>),
    >) {
        match self {
            TryWait::Looking { process } => {
                let (exited, code): (i32, i32) = reply.into_exited();
                if exited == 0 {
                    return Step::Done((process, Ok(None)));
                }
                let (process, status, path) = process.reap(code);
                match path {
                    Some(path) => Step::Ask(TryWait::Removing { process, path, status }),
                    None => Step::Done((process, Ok(Some(status)))),
                }
            },
            TryWait::Removing { process, path: _, status } => Step::Done(
                (process, Ok(Some(status))),
            ),
        }
    }
}

// ------------------------------------------------------------------------------------
// Giving a child up
// ------------------------------------------------------------------------------------

/// Giving a child up.
pub enum Release {
    /// Whether it is gone.
    Looking { handle: ChildHandle, script: Option<Vec<u8>> },
    /// That the system forgets it.
    Freeing { handle: ChildHandle, script: Option<Vec<u8>> },
    /// That its script is removed.
    Removing { path: CString },
}

impl Operation for Release {
    type Call = ChildCall;

    type Reply = ChildReply;

    type Output = ();

    open spec fn asks(self, call: ChildCall) -> bool {
        match self {
            Release::Looking { handle, script } => call == (ChildCall::Exited { handle, code: 0 }),
            Release::Freeing { handle, script } => call == (ChildCall::Free { handle }),
            Release::Removing { path } => call matches ChildCall::Fs(FsCall::Unlink { path: p })
                && p@ == path@,
        }
    }

    open spec fn accepts(self, reply: ChildReply) -> bool {
        match self {
            Release::Looking { handle, script } => reply is Exited,
            Release::Freeing { handle, script } => reply is Nothing,
            Release::Removing { path } => reply is Fs,
        }
    }

    /// What belongs to a child that is still running stays: when it ends, it writes to what
    /// the system keeps of it.
    open spec fn leads_to(self, reply: ChildReply, step: Step<Release, ()>) -> bool {
        match (self, reply) {
            (
                Release::Looking { handle, script },
                ChildReply::Exited { exited, code },
            ) => if exited == 0 {
                step is Done
            } else {
                step == Step::<Release, ()>::Ask(Release::Freeing { handle, script })
            },
            (Release::Freeing { handle, script }, ChildReply::Nothing) => match step {
                Step::Ask(Release::Removing { path }) => removal(Some(path), script_of(script)),
                Step::Done(_) => removal(None, script_of(script)),
                _ => false,
            },
            (Release::Removing { path }, ChildReply::Fs(_)) => step is Done,
            _ => false,
        }
    }

    fn call(&self) -> (call: ChildCall) {
        match self {
            Release::Looking { handle, script: _ } => ChildCall::Exited {
                handle: *handle,
                code: 0,
            },
            Release::Freeing { handle, script: _ } => ChildCall::Free { handle: *handle },
            Release::Removing { path } => ChildCall::Fs(FsCall::Unlink { path: path.duplicate() }),
        }
    }

    fn resume(self, reply: ChildReply) -> (step: Step<Release, ()>) {
        match self {
            Release::Looking { handle, script } => {
                let (exited, _): (i32, i32) = reply.into_exited();
                if exited == 0 {
                    Step::Done(())
                } else {
                    Step::Ask(Release::Freeing { handle, script })
                }
            },
            Release::Freeing { handle: _, script } => match path_to_remove(script) {
                Some(path) => Step::Ask(Release::Removing { path }),
                None => Step::Done(()),
            },
            Release::Removing { path: _ } => Step::Done(()),
        }
    }
}

/// The handle of a child is released only once the system has said that the child is gone.
pub proof fn only_what_ended_is_released(op: Release, reply: ChildReply, next: Release)
    requires
        follows(op, reply, next),
        next is Freeing,
    ensures
        reply matches ChildReply::Exited { exited, code } && exited != 0,
{
}

/// A child that has just been started has the handle and the script that it was started with,
/// and how it ended is not known.
pub proof fn a_started_child_is_running(
    handle: ChildHandle,
    script: Option<Vec<u8>>,
    p: Process,
)
    requires
        call_ensures(Process::started, (handle, script), p),
    ensures
        p.handle() == handle,
        p.status() is None,
        script is None ==> p.script() is None,
        script matches Some(path) ==> p.script() == Some(path@),
{
}

/// A child that ended with a code is known to have ended with that code, for every code; it is
/// the same child, and its script, if it had one, is to be removed under its own path and no
/// other.
pub proof fn the_code_of_a_child_is_kept(
    p: Process,
    code: i32,
    r: (Process, ExitStatus, Option<CString>),
    told: Option<i32>,
)
    requires
        call_ensures(Process::reap, (p, code), r),
        call_ensures(ExitStatus::code, (&r.1,), told),
    ensures
        told == Some(code),
        r.1@ == code,
        r.0.handle() == p.handle(),
        r.0.status() == Some(r.1),
        r.0.script() is None,
        p.script() is None ==> r.2 is None,
        p.script() matches Some(path) ==> nul_free(path) ==> (r.2 matches Some(c) && c@
            == translated(path)),
        p.script() matches Some(path) ==> !nul_free(path) ==> r.2 is None,
{
}

/// Whoever waits for a child or asks after it gets what is known already where the child is
/// known to have ended, and else a wait or a question that begins at its beginning.
pub proof fn a_known_end_is_told_at_once(
    p: Process,
    waited: Step<Wait, (Process, Result<ExitStatus, Error>)>,
    tried: Step<TryWait, (Process, Result<Option<ExitStatus>, Error>)>,
)
    requires
        call_ensures(Process::wait, (p,), waited),
        call_ensures(Process::try_wait, (p,), tried),
    ensures
        p.status() matches Some(s) ==> {
            &&& waited == Step::<Wait, (Process, Result<ExitStatus, Error>)>::Done((p, Ok(s)))
            &&& tried == Step::<TryWait, (Process, Result<Option<ExitStatus>, Error>)>::Done(
                (p, Ok(Some(s))),
            )
        },
        p.status() is None ==> {
            &&& waited matches Step::Ask(op) && op.process == p && op.at is Allocating
            &&& tried matches Step::Ask(op) && op == (TryWait::Looking { process: p })
        },
{
}

/// A wait that comes to its end tells the code that the child was last said to have ended
/// with, for every code, and the child is known to have ended with it from then on.
pub proof fn a_wait_tells_the_code_of_the_child(
    ops: Seq<Wait>,
    replies: Seq<ChildReply>,
    last: ChildReply,
    p: Process,
    status: ExitStatus,
    told: Option<i32>,
)
    requires
        runs(ops, replies),
        ops[0].at is Allocating,
        ops.last().accepts(last),
        ops.last().leads_to(last, Step::Done((p, Ok(status)))),
        call_ensures(ExitStatus::code, (&status,), told),
    ensures
        last is Exited || replies.last() is Exited,
        last matches ChildReply::Exited { exited, code } ==> told == Some(code),
        !(last is Exited) ==> (replies.last() matches ChildReply::Exited { exited, code } ==> told
            == Some(code)),
        p.status() == Some(status),
        p.handle() == ops[0].process.handle(),
        p.script() is None,
{
    a_wait_stays_with_its_child(ops, replies);
}

proof fn a_wait_stays_with_its_child(ops: Seq<Wait>, replies: Seq<ChildReply>)
    requires
        runs(ops, replies),
        ops[0].at is Allocating,
    ensures
        ops.last().process.handle() == ops[0].process.handle(),
        !(ops.last().at is Removing) ==> ops.last().process == ops[0].process,
        ops.last().at matches WaitAt::Removing { path, status } ==> {
            &&& replies.len() > 0
            &&& replies.last() matches ChildReply::Exited { exited, code }
            &&& status@ == code
            &&& ops.last().process.status() == Some(status)
            &&& ops.last().process.script() is None
            &&& ops[0].process.script() matches Some(s) && nul_free(s) && path@ == translated(s)
        },
    decreases replies.len(),
{
    if replies.len() > 0 {
        runs_before(ops, replies);
        a_wait_stays_with_its_child(ops.drop_last(), replies.drop_last());
    }
}

/// A wait fails only where there is no signal to be had, and then the child is as it was.
pub proof fn a_wait_fails_only_without_a_signal(
    op: Wait,
    reply: ChildReply,
    p: Process,
    e: Error,
)
    requires
        op.accepts(reply),
        op.leads_to(reply, Step::Done((p, Err(e)))),
    ensures
        op.at is Allocating,
        reply matches ChildReply::Bit(bit) && bit < 0,
        p == op.process,
        e == Error::Message(ErrorKind::Uncategorized, "no free signal to wait for a child"),
{
}

/// The one who waits is registered with the child under the name that the system gave for it,
/// to be sent the signal that was allocated for the wait and no other; that signal is waited
/// for and given back, and the child that is asked after is the one that is waited for.
pub proof fn a_wait_asks_for_its_own_signal(
    ops: Seq<Wait>,
    replies: Seq<ChildReply>,
    call: ChildCall,
)
    requires
        runs(ops, replies),
        ops[0].at is Allocating,
        ops.last().asks(call),
    ensures
        replies.len() == 0 <==> call is SigAlloc,
        replies.len() == 1 <==> call is TaskSelf,
        replies.len() > 0 ==> (replies[0] matches ChildReply::Bit(bit) && 0 <= bit < 32 && {
            &&& call matches ChildCall::SigFree { bit: b } ==> b == bit
            &&& call matches ChildCall::SigWait { mask } ==> mask == 1u32 << (bit as u32)
            &&& call matches ChildCall::SetWaiter { handle, task, mask } ==> handle
                == ops[0].process.handle() && (mask == 0 && task == 0 && ops.last().at is Clearing
                || mask == 1u32 << (bit as u32) && replies.len() > 1 && replies[1]
                == ChildReply::Task(task) && ops.last().at is Registering)
        }),
        call matches ChildCall::Exited { handle, code } ==> handle == ops[0].process.handle(),
        call matches ChildCall::Fs(c) ==> (c matches FsCall::Unlink { path } && (
        ops[0].process.script() matches Some(s) && path@ == translated(s))),
{
    a_wait_stays_with_its_child(ops, replies);
    a_wait_keeps_its_signal(ops, replies);
}

proof fn a_wait_keeps_its_signal(ops: Seq<Wait>, replies: Seq<ChildReply>)
    requires
        runs(ops, replies),
        ops[0].at is Allocating,
    ensures
        ops.last().at is Allocating <==> replies.len() == 0,
        ops.last().at is Naming <==> replies.len() == 1,
        replies.len() > 0 ==> (replies[0] matches ChildReply::Bit(bit) && 0 <= bit < 32
            && match ops.last().at {
            WaitAt::Allocating => false,
            WaitAt::Naming { bit: b, mask } => b == bit && mask == 1u32 << (bit as u32),
            WaitAt::Registering { bit: b, mask, task, code } => b == bit && mask == 1u32 << (
            bit as u32) && replies[1] == ChildReply::Task(task),
            WaitAt::Looking { bit: b, mask, task, code } => b == bit && mask == 1u32 << (
            bit as u32) && replies[1] == ChildReply::Task(task),
            WaitAt::Sleeping { bit: b, mask, task, code } => b == bit && mask == 1u32 << (
            bit as u32) && replies[1] == ChildReply::Task(task),
            WaitAt::Clearing { bit: b, code } => b == bit,
            WaitAt::Freeing { bit: b, code } => b == bit,
            _ => true,
        }),
    decreases replies.len(),
{
    if replies.len() > 0 {
        runs_before(ops, replies);
        a_wait_keeps_its_signal(ops.drop_last(), replies.drop_last());
    }
}

/// A wait looks at the child only once it is registered, sleeps only where the child is still
/// there, registers anew after each sleep, and once the child is gone it is taken off the
/// child's books, gives its signal back and reads the code, in that order.
pub proof fn a_wait_takes_its_steps_in_order(op: Wait, reply: ChildReply, next: Wait)
    requires
        follows(op, reply, next),
    ensures
        op.at is Allocating ==> next.at is Naming,
        op.at is Naming ==> next.at is Registering,
        op.at is Registering ==> (reply matches ChildReply::Waiter(already) && (if already != 0 {
            next.at is Clearing
        } else {
            next.at is Looking
        })),
        op.at is Looking ==> (reply matches ChildReply::Exited { exited, code } && (if exited != 0 {
            next.at is Clearing
        } else {
            next.at is Sleeping
        })),
        op.at is Sleeping ==> next.at is Registering,
        op.at is Clearing ==> next.at is Freeing,
        op.at is Freeing ==> next.at is Reading,
        op.at is Reading ==> next.at is Removing,
        !(op.at is Removing),
{
}

/// Asking after a child tells that it is still running exactly where the system says so, and
/// then the child is as it was; else it tells the very code that the system told, for every
/// code.
pub proof fn asking_tells_the_code_of_the_child(
    op: TryWait,
    p: Process,
    reply: ChildReply,
    step: Step<TryWait, (Process, Result<Option<ExitStatus>, Error>)>,
    removed: ChildReply,
    end: Step<TryWait, (Process, Result<Option<ExitStatus>, Error>)>,
)
    requires
        op == (TryWait::Looking { process: p }),
        op.accepts(reply),
        op.leads_to(reply, step),
        step matches Step::Ask(next) ==> next.accepts(removed) && next.leads_to(removed, end),
        step is Done ==> end == step,
    ensures
        end matches Step::Done((after, Ok(told))) && (reply matches ChildReply::Exited {
            exited,
            code,
        } && {
            &&& exited == 0 ==> told is None && after == p && step is Done
            &&& exited != 0 ==> {
                &&& told matches Some(status)
                &&& status@ == code
                &&& after.status() == Some(status)
                &&& after.handle() == p.handle()
                &&& after.script() is None
                &&& forall|c: Option<i32>| #[trigger]
                    call_ensures(ExitStatus::code, (&status,), c) ==> c == Some(code)
                &&& p.script() is None ==> step is Done
                &&& p.script() matches Some(s) ==> nul_free(s) ==> (step matches Step::Ask(next)
                    && forall|call: ChildCall| #[trigger]
                    next.asks(call) ==> (call matches ChildCall::Fs(FsCall::Unlink { path })
                        && path@ == translated(s)))
            }
        }),
        forall|call: ChildCall| #[trigger]
            op.asks(call) ==> call == (ChildCall::Exited { handle: p.handle(), code: 0 }),
{
}

/// Giving a child up frees what the system keeps of it under its own handle, at once where it
/// is known to have ended, and else only where the system says that it is gone; then its
/// script is removed, under its own path.
pub proof fn giving_up_frees_the_right_child(p: Process, op: Release, call: ChildCall)
    requires
        call_ensures(Process::close, (p,), op),
        op.asks(call),
    ensures
        p.status() is Some ==> call == (ChildCall::Free { handle: p.handle() }),
        p.status() is None ==> call == (ChildCall::Exited { handle: p.handle(), code: 0 }),
        forall|reply: ChildReply, step: Step<Release, ()>|
            p.status() is None && op.accepts(reply) && #[trigger] op.leads_to(reply, step) ==> (
            reply matches ChildReply::Exited { exited, code } && {
                &&& exited == 0 ==> step is Done
                &&& exited != 0 ==> (step matches Step::Ask(next) && next.asks(
                    ChildCall::Free { handle: p.handle() },
                ) && (next matches Release::Freeing { handle, script } && handle == p.handle()
                    && script_of(script) == p.script()))
            }),
        forall|reply: ChildReply, step: Step<Release, ()>|
            p.status() is Some && op.accepts(reply) && #[trigger] op.leads_to(reply, step) ==> {
                &&& p.script() is None ==> step is Done
                &&& p.script() matches Some(s) ==> nul_free(s) ==> (step matches Step::Ask(next)
                    && forall|c: ChildCall| #[trigger]
                    next.asks(c) ==> (c matches ChildCall::Fs(FsCall::Unlink { path }) && path@
                        == translated(s)))
            },
{
}

/// A child has no number, and nothing can end it but itself.
pub proof fn nobody_ends_a_child(p: &mut Process, r: Result<(), Error>, id: u32)
    requires
        call_ensures(Process::kill, (p,), r),
        call_ensures(Process::id, (&*old(p),), id),
    ensures
        *final(p) == *old(p),
        id == 0,
        r == Err::<(), Error>(
            Error::Message(ErrorKind::Unsupported, "killing a child is not supported on AROS"),
        ),
{
}

} // verus!
