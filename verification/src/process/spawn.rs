//! Starting children.
use vstd::prelude::*;
use vstd::utf8::encode_utf8;

use crate::error::{Error, ErrorKind};
use crate::fs::call::FsCall;
use crate::fs::translate::translated;
use crate::op::{follows, runs, runs_before, Decode, Operation, Step};
use crate::pipe::{split_handles, Pipe, PipeCall, PipeHandle, PipeWrite};
use crate::process::call::{ChildCall, ChildHandle, ChildReply};
use crate::process::child::{path_to_remove, removal, script_of, Process};
use crate::process::command::{cstr, setup_text, Command, Resolved, Stdio};
use crate::process::quote::line_of;
use crate::process::script::{
    script_options, script_path, script_path_is_nul_free, script_path_of, write_script, WriteScript,
};
use crate::text::{copy_of, decimal, digits, lossy, nul_free, push_decimal, to_string_lossy, CString};

verus! {

// ------------------------------------------------------------------------------------
// Why a start failed
// ------------------------------------------------------------------------------------

/// Which stream of a child a number stands for.
pub open spec fn stream_name(why: i64) -> Seq<char> {
    if why == 2 {
        "stdin"@
    } else if why == 3 {
        "stdout"@
    } else {
        "stderr"@
    }
}

/// Which end of a pipe a number stands for.
pub open spec fn end_name(step: i64) -> Seq<char> {
    if step == 1 {
        "writing"@
    } else {
        "reading"@
    }
}

/// What is said of a start that failed for a reason that the system has a number for.
pub open spec fn explains(e: Error, why: i64, ioerr: i64, step: i64) -> bool {
    if why == 1 {
        e == Error::Message(ErrorKind::OutOfMemory, "no memory to track the child")
    } else if 2 <= why <= 4 {
        e matches Error::Custom(kind, text) && kind == ErrorKind::BrokenPipe && text@
            == "cannot open the "@ + end_name(step) + " end of the child's "@ + stream_name(why)
            + " pipe (dos error "@ + decimal(ioerr as int) + ")"@
    } else if why == 5 {
        e == Error::Message(ErrorKind::NotFound, "cannot open NIL:")
    } else if why == 8 {
        e matches Error::Custom(kind, text) && kind == ErrorKind::NotFound && text@
            == "cannot reach the working directory (dos error "@ + decimal(ioerr as int) + ")"@
    } else if why == 6 {
        e matches Error::Custom(kind, text) && kind == ErrorKind::Other && text@
            == "the shell could not be started (dos error "@ + decimal(ioerr as int) + ")"@
    } else {
        e == Error::Message(ErrorKind::NotFound, "command could not be run")
    }
}

/// Puts in words why a start failed.
pub fn spawn_error(why: i64, ioerr: i64, step: i64) -> (e: Error)
    ensures
        explains(e, why, ioerr, step),
{
    if why == 1 {
        return Error::Message(ErrorKind::OutOfMemory, "no memory to track the child");
    }
    if why == 5 {
        return Error::Message(ErrorKind::NotFound, "cannot open NIL:");
    }
    let kind: ErrorKind;
    let mut text: String;
    if 2 <= why && why <= 4 {
        kind = ErrorKind::BrokenPipe;
        text = String::from_str("cannot open the ");
        text.append(if step == 1 {
            "writing"
        } else {
            "reading"
        });
        text.append(" end of the child's ");
        text.append(if why == 2 {
            "stdin"
        } else if why == 3 {
            "stdout"
        } else {
            "stderr"
        });
        text.append(" pipe (dos error ");
    } else if why == 8 {
        kind = ErrorKind::NotFound;
        text = String::from_str("cannot reach the working directory (dos error ");
    } else if why == 6 {
        kind = ErrorKind::Other;
        text = String::from_str("the shell could not be started (dos error ");
    } else {
        return Error::Message(ErrorKind::NotFound, "command could not be run");
    }
    push_decimal(&mut text, ioerr);
    text.append(")");
    Error::Custom(kind, text)
}

// ------------------------------------------------------------------------------------
// Starting
// ------------------------------------------------------------------------------------

/// The ends of a child's pipes that this process has.
#[derive(Debug)]
pub struct StdioPipes {
    pub stdin: Option<Pipe>,
    pub stdout: Option<Pipe>,
    pub stderr: Option<Pipe>,
}

/// What a child is started with besides a line.
pub struct Job {
    /// What its input is connected to.
    pub in_mode: i32,
    /// What its output is connected to.
    pub out_mode: i32,
    /// What its errors are connected to.
    pub err_mode: i32,
    /// Its directory, where that is not the current one.
    pub cwd: Option<Vec<u8>>,
    /// What a shell without a command is to be told first.
    pub setup: String,
}

/// What starting a child gives.
pub type Started = Result<(Process, StdioPipes), Error>;

/// Starting a child.
pub enum Spawn {
    /// A number for the script is being taken.
    Numbering { text: String, job: Job },
    /// The script is being written.
    Writing { op: WriteScript, name: String, job: Job },
    /// The child is being started. The setup is that of a shell that reads its input.
    Starting {
        line: CString,
        in_mode: i32,
        out_mode: i32,
        err_mode: i32,
        interactive: bool,
        cwd: Option<CString>,
        setup: String,
        script: Option<Vec<u8>>,
    },
    /// The child was not started, and its script is being removed.
    Removing { path: CString },
    /// The child was not started, and the reason is being asked for.
    Asking,
    /// The shell is being told its setup.
    Typing { process: Process, pipes: StdioPipes, input: PipeHandle, setup: String },
    /// The shell could not be told its setup, and the pipes are being closed.
    Closing { first: PipeHandle, rest: Vec<PipeHandle>, error: Error },
}

/// Whether `pipe` is the end with a handle, or none where the handle is none.
pub open spec fn pipe_of(pipe: Option<Pipe>, fh: PipeHandle) -> bool {
    match pipe {
        Some(p) => fh != 0 && p@ == fh,
        None => fh == 0,
    }
}

/// Takes over the end of a pipe, if there is one.
fn take_pipe(fh: PipeHandle) -> (pipe: Option<Pipe>)
    ensures
        pipe_of(pipe, fh),
{
    if fh != 0 {
        Some(Pipe::from_handle(fh))
    } else {
        None
    }
}

/// The text of a directory as the system is given it.
pub open spec fn directory_bytes(cwd: Option<Seq<u8>>) -> Option<Seq<u8>> {
    match cwd {
        Some(dir) => Some(encode_utf8(lossy(dir))),
        None => None,
    }
}

/// What is said of a text with a NUL.
pub open spec fn has_nul() -> Error {
    Error::Message(ErrorKind::InvalidInput, "command contains a NUL byte")
}

/// What follows once the line is known: the child is started, unless there is a NUL in the
/// line or in the directory. A shell without a line has to go on reading its input.
pub open spec fn starts(
    step: Step<Spawn, Started>,
    line: Seq<char>,
    script: Option<Seq<u8>>,
    job: Job,
) -> bool {
    let dir = directory_bytes(
        match job.cwd {
            Some(dir) => Some(dir@),
            None => None,
        },
    );
    if !nul_free(encode_utf8(line)) || (dir is Some && !nul_free(dir->0)) {
        step matches Step::Done(Err(e)) && e == has_nul()
    } else {
        &&& step matches Step::Ask(
            Spawn::Starting {
                line: l,
                in_mode,
                out_mode,
                err_mode,
                interactive,
                cwd,
                setup,
                script: s,
            },
        )
        &&& l@ == encode_utf8(line)
        &&& in_mode == job.in_mode && out_mode == job.out_mode && err_mode == job.err_mode
        &&& interactive == (line.len() == 0)
        &&& (match cwd {
            Some(c) => dir == Some(c@),
            None => dir is None,
        })
        &&& setup == job.setup
        &&& script_of(s) == script
    }
}

/// Goes on with the line.
fn start(line: String, script: Option<Vec<u8>>, job: Job) -> (step: Step<Spawn, Started>)
    ensures
        starts(step, line@, script_of(script), job),
{
    let text: CString = match cstr(line.as_str()) {
        Ok(text) => text,
        Err(e) => return Step::Done(Err(e)),
    };
    let cwd: Option<CString> = match &job.cwd {
        Some(dir) => {
            let dir: String = to_string_lossy(dir.as_slice());
            match cstr(dir.as_str()) {
                Ok(dir) => Some(dir),
                Err(e) => return Step::Done(Err(e)),
            }
        },
        None => None,
    };
    Step::Ask(
        Spawn::Starting {
            line: text,
            in_mode: job.in_mode,
            out_mode: job.out_mode,
            err_mode: job.err_mode,
            interactive: line.as_str().is_empty(),
            cwd,
            setup: job.setup,
            script,
        },
    )
}

/// What a command is started with besides its line.
pub open spec fn job_of(c: Command, default: Stdio, needs_stdin: bool, job: Job) -> bool {
    &&& job.in_mode == c.input_mode(default, needs_stdin)
    &&& job.out_mode == Command::other_mode(c.output(), default)
    &&& job.err_mode == Command::other_mode(c.errors(), default)
    &&& match job.cwd {
        Some(dir) => c.directory() == Some(dir@),
        None => c.directory() is None,
    }
    &&& job.setup@ == setup_text(c.environment().ordered())
}

impl Command {
    /// Whether `step` is what starting the command begins with. Streams of which nothing was
    /// said are connected as `default` says, except for the input of a child that nobody is
    /// going to write to. A changed environment takes a script, unless there is no command.
    pub open spec fn spawned(
        self,
        default: Stdio,
        needs_stdin: bool,
        step: Step<Spawn, Started>,
    ) -> bool {
        if self.plain_environment() || line_of(self.words()).len() == 0 {
            exists|job: Job|
                job_of(self, default, needs_stdin, job) && #[trigger] starts(
                    step,
                    line_of(self.words()),
                    None,
                    job,
                )
        } else {
            step matches Step::Ask(Spawn::Numbering { text, job }) && text@ == self.script_text()
                && job_of(self, default, needs_stdin, job)
        }
    }

    /// Starts the command.
    pub fn spawn(&self, default: &Stdio, needs_stdin: bool) -> (step: Step<Spawn, Started>)
        ensures
            self.spawned(*default, needs_stdin, step),
    {
        let (in_mode, out_mode, err_mode): (i32, i32, i32) = self.modes(default, needs_stdin);
        let cwd: Option<Vec<u8>> = match self.get_current_dir() {
            Some(dir) => Some(copy_of(dir)),
            None => None,
        };
        let job: Job = Job { in_mode, out_mode, err_mode, cwd, setup: self.setup_lines() };
        match self.resolve() {
            Resolved::Line(line) => {
                let ghost j = job;
                let step: Step<Spawn, Started> = start(line, None, job);
                assert(starts(step, line_of(self.words()), None, j));
                step
            },
            Resolved::Script(text) => Step::Ask(Spawn::Numbering { text, job }),
        }
    }
}

/// The handle of an end that is to be closed when it is given up.
pub open spec fn end_of(pipe: Option<Pipe>) -> Seq<PipeHandle> {
    match pipe {
        Some(p) => if p@ != 0 {
            seq![p@]
        } else {
            Seq::empty()
        },
        None => Seq::empty(),
    }
}

/// The handles of the ends that are to be closed when they are given up, in that order.
pub open spec fn ends_of(pipes: StdioPipes) -> Seq<PipeHandle> {
    end_of(pipes.stdin) + end_of(pipes.stdout) + end_of(pipes.stderr)
}

/// What follows where some ends are to be closed before an error is returned.
pub open spec fn closes_ends(
    step: Step<Spawn, Started>,
    handles: Seq<PipeHandle>,
    error: Error,
) -> bool {
    if handles.len() == 0 {
        step matches Step::Done(Err(e)) && e == error
    } else {
        step matches Step::Ask(Spawn::Closing { first, rest, error: e }) && first == handles[0]
            && rest@ == handles.skip(1) && e == error
    }
}

/// Closes some ends, then returns an error.
fn close_ends(handles: Vec<PipeHandle>, error: Error) -> (step: Step<Spawn, Started>)
    ensures
        closes_ends(step, handles@, error),
{
    match split_handles(handles) {
        Some((first, rest)) => Step::Ask(Spawn::Closing { first, rest, error }),
        None => Step::Done(Err(error)),
    }
}

/// Notes the handle of an end that is given up.
fn give_up(pipe: Option<Pipe>, handles: &mut Vec<PipeHandle>)
    ensures
        final(handles)@ == old(handles)@ + end_of(pipe),
{
    if let Some(p) = pipe {
        if let Some(PipeCall::Close { fh }) = p.close() {
            handles.push(fh);
        }
    }
}

/// Whether a child with these pipes has just been started.
pub open spec fn just_started(
    process: Process,
    pipes: StdioPipes,
    handle: ChildHandle,
    input: PipeHandle,
    output: PipeHandle,
    errors: PipeHandle,
    script: Option<Seq<u8>>,
) -> bool {
    &&& process.handle() == handle
    &&& process.status() is None
    &&& process.script() == script
    &&& pipe_of(pipes.stdin, input)
    &&& pipe_of(pipes.stdout, output)
    &&& pipe_of(pipes.stderr, errors)
}

impl Operation for Spawn {
    type Call = ChildCall;

    type Reply = ChildReply;

    type Output = Started;

    open spec fn asks(self, call: ChildCall) -> bool {
        match self {
            Spawn::Numbering { text, job } => call is NextScript,
            Spawn::Writing { op, name, job } => call matches ChildCall::Fs(c) && op.asks(c),
            Spawn::Starting {
                line,
                in_mode,
                out_mode,
                err_mode,
                interactive,
                cwd,
                setup,
                script,
            } => {
                &&& call matches ChildCall::Spawn {
                    line: l,
                    in_mode: i,
                    out_mode: o,
                    err_mode: e,
                    interactive: n,
                    cwd: c,
                }
                &&& l@ == line@
                &&& i == in_mode && o == out_mode && e == err_mode
                &&& n == if interactive {
                    1i32
                } else {
                    0
                }
                &&& match (cwd, c) {
                    (Some(a), Some(b)) => a@ == b@,
                    (None, None) => true,
                    _ => false,
                }
            },
            Spawn::Removing { path } => call matches ChildCall::Fs(FsCall::Unlink { path: p }) && p@
                == path@,
            Spawn::Asking => call is LastFail,
            Spawn::Typing { process, pipes, input, setup } => call matches ChildCall::Pipe(
                PipeCall::Write { fh, data },
            ) && fh == input && data@ == encode_utf8(setup@),
            Spawn::Closing { first, rest, error } => call == ChildCall::Pipe(
                PipeCall::Close { fh: first },
            ),
        }
    }

    open spec fn accepts(self, reply: ChildReply) -> bool {
        match self {
            Spawn::Numbering { text, job } => reply is Script,
            Spawn::Writing { op, name, job } => reply matches ChildReply::Fs(r) && op.accepts(r),
            Spawn::Starting { .. } => reply is Spawned,
            Spawn::Removing { path } => reply is Fs,
            Spawn::Asking => reply is Failed,
            Spawn::Typing { process, pipes, input, setup } => reply matches ChildReply::Pipe(r)
                && PipeWrite.accepts(r),
            Spawn::Closing { first, rest, error } => reply is Pipe,
        }
    }

    /// A script is written before the child is started that runs it, and it is removed again
    /// where the system refuses the start. A shell that reads its input is told its setup if it
    /// has a pipe to read it from.
    open spec fn leads_to(self, reply: ChildReply, step: Step<Spawn, Started>) -> bool {
        match (self, reply) {
            (Spawn::Numbering { text, job }, ChildReply::Script(n)) => {
                &&& step matches Step::Ask(Spawn::Writing { op, name, job: j })
                &&& name@ == script_path_of(n)
                &&& op matches WriteScript::Opening { path: p, flags, data }
                &&& p@ == translated(encode_utf8(name@))
                &&& flags == script_options().open_flags()
                &&& data@ == encode_utf8(text@)
                &&& j == job
            },
            (Spawn::Writing { op, name, job }, ChildReply::Fs(r)) => {
                ||| step matches Step::Ask(Spawn::Writing { op: next, name: n, job: j })
                    && op.leads_to(r, Step::Ask(next)) && n == name && j == job
                ||| op.leads_to(r, Step::Done(Ok(()))) && starts(
                    step,
                    "Execute "@ + name@,
                    Some(encode_utf8(name@)),
                    job,
                )
                ||| step matches Step::Done(Err(e)) && op.leads_to(r, Step::Done(Err(e)))
            },
            (
                Spawn::Starting {
                    line,
                    in_mode,
                    out_mode,
                    err_mode,
                    interactive,
                    cwd,
                    setup,
                    script,
                },
                ChildReply::Spawned { handle, input, output, errors },
            ) => if handle == 0 {
                match step {
                    Step::Ask(Spawn::Removing { path }) => removal(Some(path), script_of(script)),
                    Step::Ask(Spawn::Asking) => removal(None, script_of(script)),
                    _ => false,
                }
            } else if interactive && input != 0 && setup@.len() > 0 {
                step matches Step::Ask(Spawn::Typing { process, pipes, input: i, setup: s })
                    && just_started(
                    process,
                    pipes,
                    handle,
                    input,
                    output,
                    errors,
                    script_of(script),
                ) && i == input && s == setup
            } else {
                step matches Step::Done(Ok((process, pipes))) && just_started(
                    process,
                    pipes,
                    handle,
                    input,
                    output,
                    errors,
                    script_of(script),
                )
            },
            (Spawn::Removing { path }, ChildReply::Fs(_)) => step == Step::<Spawn, Started>::Ask(
                Spawn::Asking,
            ),
            (Spawn::Asking, ChildReply::Failed { why, ioerr, step: at }) => step matches Step::Done(
                Err(e),
            ) && explains(e, why, ioerr, at),
            (
                Spawn::Typing { process, pipes, input, setup },
                ChildReply::Pipe(r),
            ) => if r.ret < 0 {
                closes_ends(step, ends_of(pipes), Error::Os(r.errno))
            } else {
                step == Step::<Spawn, Started>::Done(Ok((process, pipes)))
            },
            (Spawn::Closing { first, rest, error }, ChildReply::Pipe(_)) => closes_ends(
                step,
                rest@,
                error,
            ),
            _ => false,
        }
    }

    fn call(&self) -> (call: ChildCall) {
        match self {
            Spawn::Numbering { .. } => ChildCall::NextScript,
            Spawn::Writing { op, .. } => ChildCall::Fs(op.call()),
            Spawn::Starting { line, in_mode, out_mode, err_mode, interactive, cwd, .. } => {
                let cwd: Option<CString> = match cwd {
                    Some(dir) => Some(dir.duplicate()),
                    None => None,
                };
                ChildCall::Spawn {
                    line: line.duplicate(),
                    in_mode: *in_mode,
                    out_mode: *out_mode,
                    err_mode: *err_mode,
                    interactive: if *interactive {
                        1
                    } else {
                        0
                    },
                    cwd,
                }
            },
            Spawn::Removing { path } => ChildCall::Fs(FsCall::Unlink { path: path.duplicate() }),
            Spawn::Asking => ChildCall::LastFail,
            Spawn::Typing { input, setup, .. } => ChildCall::Pipe(
                PipeCall::Write { fh: *input, data: copy_of(setup.as_str().as_bytes()) },
            ),
            Spawn::Closing { first, .. } => ChildCall::Pipe(PipeCall::Close { fh: *first }),
        }
    }

    fn resume(self, reply: ChildReply) -> (step: Step<Spawn, Started>) {
        match self {
            Spawn::Numbering { text, job } => {
                let n: u32 = reply.into_script();
                let name: String = script_path(n);
                proof {
                    script_path_is_nul_free(n);
                }
                match write_script(name.as_str().as_bytes(), copy_of(text.as_str().as_bytes())) {
                    Ok(op) => Step::Ask(Spawn::Writing { op, name, job }),
                    Err(e) => Step::Done(Err(e)),
                }
            },
            Spawn::Writing { op, name, job } => match op.resume(reply.into_fs()) {
                Step::Ask(op) => Step::Ask(Spawn::Writing { op, name, job }),
                Step::Done(Ok(done)) => {
                    assert(done == ());
                    let mut line: String = String::from_str("Execute ");
                    line.append(name.as_str());
                    let script: Vec<u8> = copy_of(name.as_str().as_bytes());
                    start(line, Some(script), job)
                },
                Step::Done(Err(e)) => Step::Done(Err(e)),
            },
            Spawn::Starting { interactive, setup, script, .. } => match reply {
                ChildReply::Spawned { handle, input, output, errors } => {
                    if handle == 0 {
                        return match path_to_remove(script) {
                            Some(path) => Step::Ask(Spawn::Removing { path }),
                            None => Step::Ask(Spawn::Asking),
                        };
                    }
                    let process: Process = Process::started(handle, script);
                    let pipes: StdioPipes = StdioPipes {
                        stdin: take_pipe(input),
                        stdout: take_pipe(output),
                        stderr: take_pipe(errors),
                    };
                    if interactive && input != 0 && !setup.as_str().is_empty() {
                        Step::Ask(Spawn::Typing { process, pipes, input, setup })
                    } else {
                        Step::Done(Ok((process, pipes)))
                    }
                },
                _ => vstd::pervasive::unreached(),
            },
            Spawn::Removing { path: _ } => Step::Ask(Spawn::Asking),
            Spawn::Asking => match reply {
                ChildReply::Failed { why, ioerr, step } => Step::Done(
                    Err(spawn_error(why, ioerr, step)),
                ),
                _ => vstd::pervasive::unreached(),
            },
            Spawn::Typing { process, pipes, input: _, setup: _ } => match PipeWrite.decode(
                reply.into_pipe(),
            ) {
                Ok(_) => Step::Done(Ok((process, pipes))),
                Err(e) => {
                    let mut handles: Vec<PipeHandle> = Vec::new();
                    give_up(pipes.stdin, &mut handles);
                    give_up(pipes.stdout, &mut handles);
                    give_up(pipes.stderr, &mut handles);
                    assert(handles@ == ends_of(pipes));
                    close_ends(handles, e)
                },
            },
            Spawn::Closing { first: _, rest, error } => close_ends(rest, error),
        }
    }
}

/// No child is started before its script is there whole, and where the system refuses the
/// start the script goes: the reason is asked for only after its removal was asked for, as far
/// as there was one.
pub proof fn a_script_goes_with_its_child(op: Spawn, reply: ChildReply, next: Spawn)
    requires
        follows(op, reply, next),
    ensures
        op is Writing && next is Starting ==> (
        op->op matches WriteScript::Closing { file, result } && result is Ok),
        op is Starting && next is Asking ==> removal(None, script_of(op->script)),
        op is Starting && next is Removing ==> removal(Some(next->path), script_of(op->script)),
        next is Asking ==> op is Starting || op is Removing,
{
}

/// The bytes that the system takes over for a script with an answer: of the piece that it was
/// handed, the part that it says it wrote.
pub open spec fn script_piece(op: Spawn, reply: ChildReply) -> Seq<u8> {
    match (op, reply) {
        (
            Spawn::Writing { op: WriteScript::Writing { file, rest }, name, job },
            ChildReply::Fs(r),
        ) => rest@.take(r.ret as int),
        _ => Seq::empty(),
    }
}

/// The bytes that the system takes over for a script with some answers, in order.
pub open spec fn script_bytes(ops: Seq<Spawn>, replies: Seq<ChildReply>) -> Seq<u8>
    decreases replies.len(),
{
    if replies.len() == 0 {
        Seq::empty()
    } else {
        script_bytes(ops, replies.drop_last()) + script_piece(
            ops[replies.len() - 1],
            replies.last(),
        )
    }
}

proof fn script_bytes_before(ops: Seq<Spawn>, replies: Seq<ChildReply>)
    requires
        ops.len() > replies.len() + 1,
    ensures
        script_bytes(ops, replies) == script_bytes(ops.drop_last(), replies),
    decreases replies.len(),
{
    if replies.len() > 0 {
        script_bytes_before(ops, replies.drop_last());
    }
}

/// What is true of the script of a child on the way to its start.
spec fn script_stands(op: Spawn, text: Seq<u8>, number: u32, so_far: Seq<u8>) -> bool {
    match op {
        Spawn::Numbering { text: t, job } => encode_utf8(t@) == text && so_far.len() == 0,
        Spawn::Writing { op, name, job } => name@ == script_path_of(number) && match op {
            WriteScript::Opening { path, flags, data } => data@ == text && so_far.len() == 0 && path@
                == translated(encode_utf8(name@)),
            WriteScript::Writing { file, rest } => so_far + rest@ == text,
            WriteScript::Closing { file, result } => result is Ok ==> so_far == text,
        },
        Spawn::Starting {
            line,
            in_mode,
            out_mode,
            err_mode,
            interactive,
            cwd,
            setup,
            script,
        } => {
            &&& so_far == text
            &&& line@ == encode_utf8("Execute "@ + script_path_of(number))
            &&& script_of(script) == Some(encode_utf8(script_path_of(number)))
        },
        _ => false,
    }
}

proof fn script_stands_so_far(ops: Seq<Spawn>, replies: Seq<ChildReply>, text: Seq<u8>, number: u32)
    requires
        runs(ops, replies),
        replies.len() > 0 ==> replies[0] == ChildReply::Script(number),
        ops[0] matches Spawn::Numbering { text: t, job } && encode_utf8(t@) == text,
        forall|i: int| 0 <= i < ops.len() - 1 ==> !((#[trigger] ops[i]) is Starting),
    ensures
        script_stands(ops.last(), text, number, script_bytes(ops, replies)),
        ops.last() is Numbering ==> replies.len() == 0,
    decreases replies.len(),
{
    if replies.len() > 0 {
        let early = ops.drop_last();
        let answers = replies.drop_last();
        runs_before(ops, replies);
        assert forall|i: int| 0 <= i < early.len() - 1 implies !((#[trigger] early[i])
            is Starting) by {
            assert(early[i] == ops[i]);
        }
        script_stands_so_far(early, answers, text, number);
        script_bytes_before(ops, answers);
        assert(early.last() == ops[ops.len() - 2]);
        let so_far = script_bytes(ops, answers);
        if answers.len() == 0 {
            assert(so_far + Seq::<u8>::empty() == Seq::<u8>::empty());
        }
        if let Spawn::Writing { op: WriteScript::Writing { file, rest }, name, job } = early.last() {
            let r = replies.last()->Fs_0.ret as int;
            if r > 0 {
                assert(so_far + rest@.take(r) + rest@.skip(r) == so_far + rest@);
                assert(rest@.skip(r).len() == 0 ==> rest@.take(r) == rest@);
            }
        }
        assert(so_far + Seq::<u8>::empty() == so_far);
    }
}

/// A command that takes a script is started by the line that runs that very script, and only
/// once the system has taken the whole text of it over, in order and each byte once.
pub proof fn a_child_runs_the_script_that_was_written(
    ops: Seq<Spawn>,
    replies: Seq<ChildReply>,
    text: String,
    job: Job,
    number: u32,
)
    requires
        runs(ops, replies),
        ops[0] == (Spawn::Numbering { text, job }),
        ops.last() is Starting,
        forall|i: int| 0 <= i < ops.len() - 1 ==> !((#[trigger] ops[i]) is Starting),
        replies[0] == ChildReply::Script(number),
    ensures
        script_bytes(ops, replies) == encode_utf8(text@),
        ops.last()->line@ == encode_utf8("Execute "@ + script_path_of(number)),
        script_of(ops.last()->script) == Some(encode_utf8(script_path_of(number))),
{
    script_stands_so_far(ops, replies, encode_utf8(text@), number);
}

/// A start that failed is put in words after its reason: which stream and which end of its pipe
/// it was, and the number that the system has for it.
pub proof fn a_failed_start_says_why(why: i64, ioerr: i64, step: i64, e: Error)
    requires
        call_ensures(spawn_error, (why, ioerr, step), e),
    ensures
        why == 1 ==> e == Error::Message(ErrorKind::OutOfMemory, "no memory to track the child"),
        why == 5 ==> e == Error::Message(ErrorKind::NotFound, "cannot open NIL:"),
        why == 2 || why == 3 || why == 4 ==> (e matches Error::Custom(kind, text) && kind
            == ErrorKind::BrokenPipe && text@ == "cannot open the "@ + (if step == 1 {
            "writing"@
        } else {
            "reading"@
        }) + " end of the child's "@ + (if why == 2 {
            "stdin"@
        } else if why == 3 {
            "stdout"@
        } else {
            "stderr"@
        }) + " pipe (dos error "@ + decimal(ioerr as int) + ")"@),
        why == 6 ==> (e matches Error::Custom(kind, text) && kind == ErrorKind::Other && text@
            == "the shell could not be started (dos error "@ + decimal(ioerr as int) + ")"@),
        why == 8 ==> (e matches Error::Custom(kind, text) && kind == ErrorKind::NotFound && text@
            == "cannot reach the working directory (dos error "@ + decimal(ioerr as int) + ")"@),
        why < 1 || why == 7 || why > 8 ==> e == Error::Message(
            ErrorKind::NotFound,
            "command could not be run",
        ),
{
}

/// Whether a call starts a child with this line in this directory, with these streams.
pub open spec fn starts_child(
    call: ChildCall,
    line: Seq<char>,
    dir: Option<Seq<u8>>,
    modes: (i32, i32, i32),
) -> bool {
    &&& call matches ChildCall::Spawn { line: l, in_mode, out_mode, err_mode, interactive, cwd }
    &&& l@ == encode_utf8(line)
    &&& in_mode == modes.0 && out_mode == modes.1 && err_mode == modes.2
    &&& interactive == (if line.len() == 0 {
        1i32
    } else {
        0
    })
    &&& cwd is Some <==> dir is Some
    &&& cwd matches Some(c) ==> c@ == encode_utf8(lossy(dir->0))
}

/// A command whose environment is not changed, or which is no command, is started by its own
/// line in its own directory, with the streams that were said. One with a NUL in the line or
/// the directory is refused before anything is asked of the system.
pub proof fn a_plain_command_is_started_by_its_line(
    c: Command,
    default: Stdio,
    needs_stdin: bool,
    modes: (i32, i32, i32),
    line: String,
    step: Step<Spawn, Started>,
)
    requires
        call_ensures(Command::spawn, (&c, &default, needs_stdin), step),
        call_ensures(Command::modes, (&c, &default, needs_stdin), modes),
        call_ensures(Command::command_line, (&c,), line),
        c.environment().changes() == Map::<Seq<u8>, Option<Seq<u8>>>::empty() || line@.len() == 0,
    ensures
        ({
            let fine = nul_free(encode_utf8(line@)) && (c.directory() matches Some(dir) ==> nul_free(
                encode_utf8(lossy(dir)),
            ));
            &&& !fine ==> (step matches Step::Done(Err(e)) && e == Error::Message(
                ErrorKind::InvalidInput,
                "command contains a NUL byte",
            ))
            &&& fine ==> (step matches Step::Ask(op) && (forall|call: ChildCall| #[trigger]
                op.asks(call) ==> starts_child(call, line@, c.directory(), modes)) && (
            op matches Spawn::Starting {
                line: l,
                in_mode,
                out_mode,
                err_mode,
                interactive,
                cwd,
                setup,
                script,
            } && script is None && interactive == (line@.len() == 0) && setup@ == setup_text(
                c.environment().ordered(),
            )))
        }),
{
}

/// A command whose environment is changed asks for a number for its script first; the script is
/// the one that the shell is to be given, and the streams, the directory and the setup are
/// those of the command.
pub proof fn a_changed_command_asks_for_a_script(
    c: Command,
    default: Stdio,
    needs_stdin: bool,
    modes: (i32, i32, i32),
    resolved: Resolved,
    step: Step<Spawn, Started>,
)
    requires
        call_ensures(Command::spawn, (&c, &default, needs_stdin), step),
        call_ensures(Command::modes, (&c, &default, needs_stdin), modes),
        call_ensures(Command::resolve, (&c,), resolved),
        resolved is Script,
    ensures
        step matches Step::Ask(op) && (op matches Spawn::Numbering { text, job } && {
            &&& text@ == resolved->Script_0@
            &&& job.in_mode == modes.0 && job.out_mode == modes.1 && job.err_mode == modes.2
            &&& job.cwd is Some <==> c.directory() is Some
            &&& job.cwd matches Some(dir) ==> c.directory() == Some(dir@)
            &&& job.setup@ == setup_text(c.environment().ordered())
        }),
        step matches Step::Ask(op) && forall|call: ChildCall| #[trigger]
            op.asks(call) ==> call is NextScript,
{
}

/// The script with the number that was taken is written, and once it is there the child is
/// started by the line that runs it, in the same directory and with the same streams.
pub proof fn a_written_script_is_run_as_the_command_was(
    op: Spawn,
    reply: ChildReply,
    step: Step<Spawn, Started>,
)
    requires
        op.accepts(reply),
        op.leads_to(reply, step),
    ensures
        op matches Spawn::Numbering { text, job } ==> (reply matches ChildReply::Script(n) && (
        step matches Step::Ask(Spawn::Writing { op: writing, name, job: j }) && j == job && name@
            == "MacRW:rustcmd-"@ + digits(n as nat) + ".aros"@ && (
        writing matches WriteScript::Opening { path, flags, data } && path@ == translated(
            encode_utf8(name@),
        ) && flags == 0x242 && data@ == encode_utf8(text@)))),
        op matches Spawn::Writing { op: WriteScript::Closing { file, result }, name, job } ==> {
            &&& result matches Err(e) ==> step == Step::<Spawn, Started>::Done(Err(e))
            &&& result is Ok && (job.cwd matches Some(dir) ==> nul_free(encode_utf8(lossy(dir@))))
                && nul_free(encode_utf8("Execute "@ + name@)) ==> (step matches Step::Ask(next) && (
            forall|call: ChildCall| #[trigger]
                next.asks(call) ==> starts_child(
                    call,
                    "Execute "@ + name@,
                    match job.cwd {
                        Some(dir) => Some(dir@),
                        None => None,
                    },
                    (job.in_mode, job.out_mode, job.err_mode),
                )) && (next matches Spawn::Starting {
                line,
                in_mode,
                out_mode,
                err_mode,
                interactive,
                cwd,
                setup,
                script,
            } && !interactive && (script matches Some(s) && s@ == encode_utf8(name@))))
        },
        op matches Spawn::Writing { op: WriteScript::Closing { file, result }, name, job } ==> (
        result is Ok && (job.cwd matches Some(dir) && !nul_free(encode_utf8(lossy(dir@))))
            ==> step == Step::<Spawn, Started>::Done(
            Err(Error::Message(ErrorKind::InvalidInput, "command contains a NUL byte")),
        )),
        op matches Spawn::Writing { op: writing, name, job } ==> (!(writing is Closing) ==> (
        reply matches ChildReply::Fs(r) && {
            ||| step matches Step::Ask(Spawn::Writing { op: next, name: n, job: j })
                && writing.leads_to(r, Step::Ask(next)) && n == name && j == job
            ||| step matches Step::Done(Err(e)) && writing.leads_to(r, Step::Done(Err(e)))
        })),
        forall|call: ChildCall|
            op is Writing && #[trigger] op.asks(call) ==> (call matches ChildCall::Fs(c)
                && op->op.asks(c)),
{
    assert(2i32 | 0 | (0x40 | 0x200) == 0x242) by (bit_vector);
    reveal_strlit("Execute ");
}

/// A child that was started is the one that the system answered with, and each of its streams
/// is the end that was answered for that stream and for no other. Only a shell that reads its
/// input from a pipe and has something to be told is told it, through that pipe. A child that
/// was not started has none, and its script is removed before anything else is asked.
pub proof fn a_started_child_has_its_own_streams(
    op: Spawn,
    reply: ChildReply,
    step: Step<Spawn, Started>,
)
    requires
        op is Starting,
        op.accepts(reply),
        op.leads_to(reply, step),
    ensures
        reply matches ChildReply::Spawned { handle, input, output, errors } && {
            let told = op->Starting_interactive && input != 0 && op->Starting_setup@.len() > 0;
            let p = if told {
                step->Ask_0->process
            } else {
                step->Done_0->Ok_0.0
            };
            let pipes = if told {
                step->Ask_0->pipes
            } else {
                step->Done_0->Ok_0.1
            };
            &&& handle != 0 && told ==> (step matches Step::Ask(
                Spawn::Typing { process, pipes: e, input: i, setup },
            ) && i == input && setup@ == op->Starting_setup@)
            &&& handle != 0 && !told ==> (step matches Step::Done(Ok(_)))
            &&& handle != 0 ==> {
                &&& p.handle() == handle
                &&& p.status() is None
                &&& p.script() == script_of(op->Starting_script)
                &&& pipes.stdin is Some <==> input != 0
                &&& pipes.stdin matches Some(e) ==> e@ == input
                &&& pipes.stdout is Some <==> output != 0
                &&& pipes.stdout matches Some(e) ==> e@ == output
                &&& pipes.stderr is Some <==> errors != 0
                &&& pipes.stderr matches Some(e) ==> e@ == errors
            }
            &&& handle == 0 && op->Starting_script is None ==> (step matches Step::Ask(next) && next
                is Asking)
            &&& handle == 0 ==> (op->Starting_script matches Some(s) ==> nul_free(s@) ==> (
            step matches Step::Ask(Spawn::Removing { path }) && path@ == translated(s@)))
        },
{
}

/// A shell is told its whole setup through the pipe that is its input. Where that works the
/// start is over; where it does not, all of this process's ends are closed, the input first,
/// and the error is the one that the system left.
pub proof fn a_shell_is_told_its_whole_setup(
    op: Spawn,
    reply: ChildReply,
    step: Step<Spawn, Started>,
)
    requires
        op is Typing,
        op.accepts(reply),
        op.leads_to(reply, step),
    ensures
        forall|call: ChildCall| #[trigger]
            op.asks(call) ==> (call matches ChildCall::Pipe(PipeCall::Write { fh, data }) && fh
                == op->Typing_input && data@ == encode_utf8(op->Typing_setup@)),
        reply matches ChildReply::Pipe(r) && {
            let end = |p: Option<Pipe>|
                match p {
                    Some(e) => if e@ != 0 {
                        seq![e@]
                    } else {
                        Seq::empty()
                    },
                    None => Seq::<PipeHandle>::empty(),
                };
            let pipes = op->Typing_pipes;
            let handles = end(pipes.stdin) + end(pipes.stdout) + end(pipes.stderr);
            &&& r.ret >= 0 ==> step == Step::<Spawn, Started>::Done(
                Ok((op->Typing_process, op->Typing_pipes)),
            )
            &&& r.ret < 0 && handles.len() == 0 ==> step == Step::<Spawn, Started>::Done(
                Err(Error::Os(r.errno)),
            )
            &&& r.ret < 0 && handles.len() > 0 ==> (step matches Step::Ask(
                Spawn::Closing { first, rest, error },
            ) && first == handles[0] && rest@ == handles.skip(1) && error == Error::Os(r.errno))
        },
{
}

/// Ends that are to be closed are closed one after the other, each once, and the error that
/// they are closed for comes out at the end; the reason that a start failed for is the one that
/// the system answers with.
pub proof fn ends_are_closed_one_by_one(op: Spawn, reply: ChildReply, step: Step<Spawn, Started>)
    requires
        op.accepts(reply),
        op.leads_to(reply, step),
    ensures
        op matches Spawn::Closing { first, rest, error } ==> {
            &&& forall|call: ChildCall| #[trigger]
                op.asks(call) ==> call == ChildCall::Pipe(PipeCall::Close { fh: first })
            &&& rest@.len() == 0 ==> (step matches Step::Done(Err(e)) && e == error)
            &&& rest@.len() > 0 ==> (step matches Step::Ask(
                Spawn::Closing { first: f, rest: r, error: e },
            ) && f == rest@[0] && r@ == rest@.skip(1) && e == error)
        },
        op matches Spawn::Removing { path } ==> {
            &&& forall|call: ChildCall| #[trigger]
                op.asks(call) ==> (call matches ChildCall::Fs(FsCall::Unlink { path: p }) && p@
                    == path@)
            &&& step matches Step::Ask(next) && next is Asking
        },
        op is Asking ==> {
            &&& forall|call: ChildCall| #[trigger] op.asks(call) ==> call is LastFail
            &&& step is Done && step->Done_0 is Err
            &&& reply matches ChildReply::Failed { why, ioerr, step: at } && explains(
                step->Done_0->Err_0,
                why,
                ioerr,
                at,
            ) && (forall|e: Error| #[trigger]
                call_ensures(spawn_error, (why, ioerr, at), e) ==> explains(e, why, ioerr, at))
        },
{
}

} // verus!
