//! What children write.
use vstd::prelude::*;

use crate::error::{Error, ErrorKind};
use crate::op::{follows, runs, runs_before, Operation, Step};
use crate::pipe::{
    read_means, split_handles, Pipe, PipeCall, PipeHandle, PipeReply, ReadToEnd, CHUNK, PIPE_EMPTY,
};
use crate::process::call::{ChildCall, ChildReply};
use crate::process::child::{Process, Release, Wait, WaitAt};
use crate::process::command::{Command, Stdio};
use crate::process::spawn::{end_of, starts_child, Spawn, Started, StdioPipes};
use crate::process::status::ExitStatus;
use crate::text::append_range;

verus! {

// ------------------------------------------------------------------------------------
// Emptying two pipes in turn
// ------------------------------------------------------------------------------------

/// Whose turn it is.
#[derive(Clone, Copy, PartialEq, Eq, Debug)]
pub enum Turn {
    /// The output is told not to wait.
    FreeOut,
    /// The errors are told not to wait.
    FreeErr,
    /// The output is read.
    ReadOut,
    /// The errors are read.
    ReadErr,
    /// Others may run, for there was nothing to read.
    Yield,
    /// Nobody's: both are at their end.
    Finish,
}

/// Two pipes that are being emptied.
pub struct Drain {
    /// The end that the child's output comes from.
    pub out: PipeHandle,
    /// The end that the child's errors come from.
    pub err: PipeHandle,
    /// What the child wrote as output.
    pub stdout: Vec<u8>,
    /// What the child wrote as errors.
    pub stderr: Vec<u8>,
    /// Whether the output is at its end.
    pub out_done: bool,
    /// Whether the errors are at their end.
    pub err_done: bool,
    /// Whether there was anything to read in this round.
    pub progressed: bool,
    /// Whose turn it is.
    pub turn: Turn,
}

/// Emptying two pipes up to their ends.
pub enum ReadOutput {
    /// They are being emptied.
    Draining(Drain),
    /// They are being closed.
    Closing {
        first: PipeHandle,
        rest: Vec<PipeHandle>,
        stdout: Vec<u8>,
        stderr: Vec<u8>,
        result: Result<(), Error>,
    },
}

/// What emptying two pipes gives: all that came from each, and whether both came to an end.
pub type Drained = (Vec<u8>, Vec<u8>, Result<(), Error>);

/// Whose turn it is at the start of a round.
pub open spec fn at_start(out_done: bool, err_done: bool) -> (Turn, bool) {
    (
        if !out_done {
            Turn::ReadOut
        } else if !err_done {
            Turn::ReadErr
        } else {
            Turn::Finish
        },
        false,
    )
}

/// Whose turn it is at the end of a round: where there was nothing to read, others may run
/// before the next one.
pub open spec fn at_end(out_done: bool, err_done: bool, progressed: bool) -> (Turn, bool) {
    if out_done && err_done {
        (Turn::Finish, progressed)
    } else if !progressed {
        (Turn::Yield, progressed)
    } else {
        at_start(out_done, err_done)
    }
}

/// Whose turn it is once the output has been read.
pub open spec fn after_out(out_done: bool, err_done: bool, progressed: bool) -> (Turn, bool) {
    if !err_done {
        (Turn::ReadErr, progressed)
    } else {
        at_end(out_done, err_done, progressed)
    }
}

fn start_turn(out_done: bool, err_done: bool) -> (r: (Turn, bool))
    ensures
        r == at_start(out_done, err_done),
{
    if !out_done {
        (Turn::ReadOut, false)
    } else if !err_done {
        (Turn::ReadErr, false)
    } else {
        (Turn::Finish, false)
    }
}

fn end_turn(out_done: bool, err_done: bool, progressed: bool) -> (r: (Turn, bool))
    ensures
        r == at_end(out_done, err_done, progressed),
{
    if out_done && err_done {
        (Turn::Finish, progressed)
    } else if !progressed {
        (Turn::Yield, progressed)
    } else {
        start_turn(out_done, err_done)
    }
}

/// What follows where the pipes are to be closed.
pub open spec fn closes_both(
    step: Step<ReadOutput, Drained>,
    handles: Seq<PipeHandle>,
    stdout: Seq<u8>,
    stderr: Seq<u8>,
    result: Result<(), Error>,
) -> bool {
    if handles.len() == 0 {
        step matches Step::Done((o, e, r)) && o@ == stdout && e@ == stderr && r == result
    } else {
        &&& step matches Step::Ask(
            ReadOutput::Closing { first, rest, stdout: o, stderr: e, result: r },
        )
        &&& first == handles[0]
        &&& rest@ == handles.skip(1)
        &&& o@ == stdout && e@ == stderr && r == result
    }
}

/// The handle of an end that is to be closed when it is given up.
pub open spec fn to_close(fh: PipeHandle) -> Seq<PipeHandle> {
    if fh != 0 {
        seq![fh]
    } else {
        Seq::empty()
    }
}

fn close_both(
    handles: Vec<PipeHandle>,
    stdout: Vec<u8>,
    stderr: Vec<u8>,
    result: Result<(), Error>,
) -> (step: Step<ReadOutput, Drained>)
    ensures
        closes_both(step, handles@, stdout@, stderr@, result),
{
    match split_handles(handles) {
        Some((first, rest)) => Step::Ask(
            ReadOutput::Closing { first, rest, stdout, stderr, result },
        ),
        None => Step::Done((stdout, stderr, result)),
    }
}

impl Drain {
    /// Whether `step` goes on with these pipes, where this has come from them by now.
    pub open spec fn goes(
        self,
        step: Step<ReadOutput, Drained>,
        stdout: Seq<u8>,
        stderr: Seq<u8>,
        out_done: bool,
        err_done: bool,
        next: (Turn, bool),
    ) -> bool {
        if next.0 is Finish {
            self.finishes(step, stdout, stderr, Ok(()))
        } else {
            &&& step matches Step::Ask(ReadOutput::Draining(d))
            &&& d.out == self.out && d.err == self.err
            &&& d.stdout@ == stdout && d.stderr@ == stderr
            &&& d.out_done == out_done && d.err_done == err_done
            &&& d.turn == next.0 && d.progressed == next.1
        }
    }

    /// Whether `step` closes these pipes, the errors first, and gives what came from them.
    pub open spec fn finishes(
        self,
        step: Step<ReadOutput, Drained>,
        stdout: Seq<u8>,
        stderr: Seq<u8>,
        result: Result<(), Error>,
    ) -> bool {
        closes_both(step, to_close(self.err) + to_close(self.out), stdout, stderr, result)
    }

    fn finish(self, result: Result<(), Error>) -> (step: Step<ReadOutput, Drained>)
        ensures
            self.finishes(step, self.stdout@, self.stderr@, result),
    {
        let mut handles: Vec<PipeHandle> = Vec::new();
        if self.err != 0 {
            handles.push(self.err);
        }
        if self.out != 0 {
            handles.push(self.out);
        }
        assert(handles@ == to_close(self.err) + to_close(self.out));
        close_both(handles, self.stdout, self.stderr, result)
    }

    fn go(self, next: (Turn, bool)) -> (step: Step<ReadOutput, Drained>)
        ensures
            self.goes(step, self.stdout@, self.stderr@, self.out_done, self.err_done, next),
    {
        let (turn, progressed): (Turn, bool) = next;
        match turn {
            Turn::Finish => self.finish(Ok(())),
            _ => Step::Ask(ReadOutput::Draining(Drain { turn, progressed, ..self })),
        }
    }
}

/// What a read means for a pipe that is being emptied.
pub enum Piece {
    /// The pipe is at its end.
    End,
    /// There is nothing to read yet.
    Empty,
    /// The read was interrupted.
    Again,
    /// So many bytes came.
    Bytes(usize),
    /// The read failed.
    Failed(Error),
}

/// What a read means for a pipe that is being emptied.
pub open spec fn piece_of(reply: PipeReply) -> Piece {
    match read_means(reply) {
        Ok(n) => if n == 0 {
            Piece::End
        } else {
            Piece::Bytes(n as usize)
        },
        Err(e) => if e.spec_kind() == ErrorKind::WouldBlock {
            Piece::Empty
        } else if e.spec_kind() == ErrorKind::Interrupted {
            Piece::Again
        } else {
            Piece::Failed(e)
        },
    }
}

fn read_piece(reply: &PipeReply) -> (p: Piece)
    requires
        reply.ret <= reply.bytes@.len() <= CHUNK,
    ensures
        p == piece_of(*reply),
{
    if reply.ret == PIPE_EMPTY {
        Piece::Empty
    } else if reply.ret < 0 {
        let e: Error = Error::Os(reply.errno);
        let kind: ErrorKind = e.kind();
        if kind == ErrorKind::WouldBlock {
            Piece::Empty
        } else if kind == ErrorKind::Interrupted {
            Piece::Again
        } else {
            Piece::Failed(e)
        }
    } else if reply.ret == 0 {
        Piece::End
    } else {
        Piece::Bytes(reply.ret as usize)
    }
}

/// The bytes that a read brought.
pub open spec fn brought(reply: PipeReply) -> Seq<u8> {
    match piece_of(reply) {
        Piece::Bytes(n) => reply.bytes@.take(n as int),
        _ => Seq::empty(),
    }
}

/// Whether a read counts as progress, so that the next round begins at once.
pub open spec fn is_progress(piece: Piece) -> bool {
    piece is Bytes || piece is Again
}

impl Operation for ReadOutput {
    type Call = ChildCall;

    type Reply = ChildReply;

    type Output = Drained;

    open spec fn asks(self, call: ChildCall) -> bool {
        match self {
            ReadOutput::Draining(d) => match d.turn {
                Turn::FreeOut => call == ChildCall::Pipe(
                    PipeCall::SetNonblock { fh: d.out, enable: 1 },
                ),
                Turn::FreeErr => call == ChildCall::Pipe(
                    PipeCall::SetNonblock { fh: d.err, enable: 1 },
                ),
                Turn::ReadOut => call == ChildCall::Pipe(PipeCall::Read { fh: d.out, len: CHUNK }),
                Turn::ReadErr => call == ChildCall::Pipe(PipeCall::Read { fh: d.err, len: CHUNK }),
                Turn::Yield => call is Yield,
                Turn::Finish => call is Yield,
            },
            ReadOutput::Closing { first, rest, stdout, stderr, result } => call == ChildCall::Pipe(
                PipeCall::Close { fh: first },
            ),
        }
    }

    open spec fn accepts(self, reply: ChildReply) -> bool {
        match self {
            ReadOutput::Draining(d) => match d.turn {
                Turn::FreeOut => reply is Pipe,
                Turn::FreeErr => reply is Pipe,
                Turn::ReadOut => reply matches ChildReply::Pipe(r) && r.ret <= r.bytes@.len()
                    <= CHUNK,
                Turn::ReadErr => reply matches ChildReply::Pipe(r) && r.ret <= r.bytes@.len()
                    <= CHUNK,
                Turn::Yield => reply is Nothing,
                Turn::Finish => reply is Nothing,
            },
            ReadOutput::Closing { first, rest, stdout, stderr, result } => reply is Pipe,
        }
    }

    /// Both pipes are read in turn, so that a child that fills one while nobody reads it
    /// does not stop the other one.
    open spec fn leads_to(self, reply: ChildReply, step: Step<ReadOutput, Drained>) -> bool {
        match (self, reply) {
            (ReadOutput::Draining(d), ChildReply::Pipe(r)) => match d.turn {
                Turn::FreeOut => d.goes(
                    step,
                    d.stdout@,
                    d.stderr@,
                    d.out_done,
                    d.err_done,
                    (Turn::FreeErr, d.progressed),
                ),
                Turn::FreeErr => d.goes(
                    step,
                    d.stdout@,
                    d.stderr@,
                    d.out_done,
                    d.err_done,
                    at_start(d.out_done, d.err_done),
                ),
                Turn::ReadOut => if piece_of(r) is Failed {
                    d.finishes(step, d.stdout@, d.stderr@, Err(piece_of(r)->Failed_0))
                } else {
                    let done = d.out_done || piece_of(r) is End;
                    d.goes(
                        step,
                        d.stdout@ + brought(r),
                        d.stderr@,
                        done,
                        d.err_done,
                        after_out(done, d.err_done, d.progressed || is_progress(piece_of(r))),
                    )
                },
                Turn::ReadErr => if piece_of(r) is Failed {
                    d.finishes(step, d.stdout@, d.stderr@, Err(piece_of(r)->Failed_0))
                } else {
                    let done = d.err_done || piece_of(r) is End;
                    d.goes(
                        step,
                        d.stdout@,
                        d.stderr@ + brought(r),
                        d.out_done,
                        done,
                        at_end(d.out_done, done, d.progressed || is_progress(piece_of(r))),
                    )
                },
                _ => false,
            },
            (ReadOutput::Draining(d), ChildReply::Nothing) => d.goes(
                step,
                d.stdout@,
                d.stderr@,
                d.out_done,
                d.err_done,
                at_start(d.out_done, d.err_done),
            ),
            (
                ReadOutput::Closing { first, rest, stdout, stderr, result },
                ChildReply::Pipe(_),
            ) => closes_both(step, rest@, stdout@, stderr@, result),
            _ => false,
        }
    }

    fn call(&self) -> (call: ChildCall) {
        match self {
            ReadOutput::Draining(d) => match d.turn {
                Turn::FreeOut => ChildCall::Pipe(PipeCall::SetNonblock { fh: d.out, enable: 1 }),
                Turn::FreeErr => ChildCall::Pipe(PipeCall::SetNonblock { fh: d.err, enable: 1 }),
                Turn::ReadOut => ChildCall::Pipe(PipeCall::Read { fh: d.out, len: CHUNK }),
                Turn::ReadErr => ChildCall::Pipe(PipeCall::Read { fh: d.err, len: CHUNK }),
                Turn::Yield => ChildCall::Yield,
                Turn::Finish => ChildCall::Yield,
            },
            ReadOutput::Closing { first, .. } => ChildCall::Pipe(PipeCall::Close { fh: *first }),
        }
    }

    fn resume(self, reply: ChildReply) -> (step: Step<ReadOutput, Drained>) {
        let d: Drain = match self {
            ReadOutput::Draining(d) => d,
            ReadOutput::Closing { first: _, rest, stdout, stderr, result } => {
                return close_both(rest, stdout, stderr, result);
            },
        };
        match d.turn {
            Turn::FreeOut => {
                let progressed: bool = d.progressed;
                d.go((Turn::FreeErr, progressed))
            },
            Turn::FreeErr => {
                let next: (Turn, bool) = start_turn(d.out_done, d.err_done);
                d.go(next)
            },
            Turn::ReadOut => {
                let r: PipeReply = reply.into_pipe();
                let Drain { out, err, mut stdout, stderr, out_done, err_done, progressed, turn } =
                    d;
                let mut done: bool = out_done;
                let mut moved: bool = progressed;
                match read_piece(&r) {
                    Piece::End => {
                        done = true;
                    },
                    Piece::Empty => {},
                    Piece::Again => {
                        moved = true;
                    },
                    Piece::Bytes(n) => {
                        append_range(&mut stdout, r.bytes.as_slice(), 0, n);
                        moved = true;
                    },
                    Piece::Failed(e) => {
                        let d: Drain = Drain {
                            out,
                            err,
                            stdout,
                            stderr,
                            out_done,
                            err_done,
                            progressed,
                            turn,
                        };
                        return d.finish(Err(e));
                    },
                }
                assert(stdout@ == d.stdout@ + brought(r));
                let next: (Turn, bool) = if !err_done {
                    (Turn::ReadErr, moved)
                } else {
                    end_turn(done, err_done, moved)
                };
                let d: Drain = Drain {
                    out,
                    err,
                    stdout,
                    stderr,
                    out_done: done,
                    err_done,
                    progressed,
                    turn,
                };
                d.go(next)
            },
            Turn::ReadErr => {
                let r: PipeReply = reply.into_pipe();
                let Drain { out, err, stdout, mut stderr, out_done, err_done, progressed, turn } =
                    d;
                let mut done: bool = err_done;
                let mut moved: bool = progressed;
                match read_piece(&r) {
                    Piece::End => {
                        done = true;
                    },
                    Piece::Empty => {},
                    Piece::Again => {
                        moved = true;
                    },
                    Piece::Bytes(n) => {
                        append_range(&mut stderr, r.bytes.as_slice(), 0, n);
                        moved = true;
                    },
                    Piece::Failed(e) => {
                        let d: Drain = Drain {
                            out,
                            err,
                            stdout,
                            stderr,
                            out_done,
                            err_done,
                            progressed,
                            turn,
                        };
                        return d.finish(Err(e));
                    },
                }
                assert(stderr@ == d.stderr@ + brought(r));
                let next: (Turn, bool) = end_turn(out_done, done, moved);
                let d: Drain = Drain {
                    out,
                    err,
                    stdout,
                    stderr,
                    out_done,
                    err_done: done,
                    progressed,
                    turn,
                };
                d.go(next)
            },
            _ => {
                let next: (Turn, bool) = start_turn(d.out_done, d.err_done);
                d.go(next)
            },
        }
    }
}

/// Empties a child's two pipes up to their ends, behind what two buffers hold.
pub fn read_output(out: Pipe, stdout: Vec<u8>, err: Pipe, stderr: Vec<u8>) -> (op: ReadOutput)
    ensures
        op == ReadOutput::Draining(
            Drain {
                out: out@,
                err: err@,
                stdout,
                stderr,
                out_done: false,
                err_done: false,
                progressed: false,
                turn: Turn::FreeOut,
            },
        ),
{
    ReadOutput::Draining(
        Drain {
            out: out.handle(),
            err: err.handle(),
            stdout,
            stderr,
            out_done: false,
            err_done: false,
            progressed: false,
            turn: Turn::FreeOut,
        },
    )
}

/// The bytes that came while it was the turn of one of two pipes, in order.
pub open spec fn came(ops: Seq<ReadOutput>, replies: Seq<ChildReply>, turn: Turn) -> Seq<u8>
    decreases replies.len(),
{
    if replies.len() == 0 {
        Seq::empty()
    } else {
        came(ops, replies.drop_last(), turn) + (match (ops[replies.len() - 1], replies.last()) {
            (ReadOutput::Draining(d), ChildReply::Pipe(r)) => if d.turn == turn {
                brought(r)
            } else {
                Seq::empty()
            },
            _ => Seq::empty(),
        })
    }
}

proof fn came_before(ops: Seq<ReadOutput>, replies: Seq<ChildReply>, turn: Turn)
    requires
        ops.len() > replies.len() + 1,
    ensures
        came(ops, replies, turn) == came(ops.drop_last(), replies, turn),
    decreases replies.len(),
{
    if replies.len() > 0 {
        came_before(ops, replies.drop_last(), turn);
    }
}

/// What has come from the output of a child.
pub open spec fn output_so_far(op: ReadOutput) -> Seq<u8> {
    match op {
        ReadOutput::Draining(d) => d.stdout@,
        ReadOutput::Closing { first, rest, stdout, stderr, result } => stdout@,
    }
}

/// What has come from the errors of a child.
pub open spec fn errors_so_far(op: ReadOutput) -> Seq<u8> {
    match op {
        ReadOutput::Draining(d) => d.stderr@,
        ReadOutput::Closing { first, rest, stdout, stderr, result } => stderr@,
    }
}

/// While two pipes are emptied in turn, each buffer holds what it held at first and behind
/// that everything that was read from its own pipe, in order and nothing else.
pub proof fn streams_are_kept_apart(ops: Seq<ReadOutput>, replies: Seq<ChildReply>)
    requires
        runs(ops, replies),
    ensures
        output_so_far(ops.last()) == output_so_far(ops[0]) + came(ops, replies, Turn::ReadOut),
        errors_so_far(ops.last()) == errors_so_far(ops[0]) + came(ops, replies, Turn::ReadErr),
    decreases replies.len(),
{
    if replies.len() == 0 {
        assert(output_so_far(ops[0]) + came(ops, replies, Turn::ReadOut) == output_so_far(ops[0]));
        assert(errors_so_far(ops[0]) + came(ops, replies, Turn::ReadErr) == errors_so_far(ops[0]));
    } else {
        runs_before(ops, replies);
        streams_are_kept_apart(ops.drop_last(), replies.drop_last());
        came_before(ops, replies.drop_last(), Turn::ReadOut);
        came_before(ops, replies.drop_last(), Turn::ReadErr);
        assert(output_so_far(ops.last()) == output_so_far(ops[0]) + came(
            ops,
            replies,
            Turn::ReadOut,
        ));
        assert(errors_so_far(ops.last()) == errors_so_far(ops[0]) + came(
            ops,
            replies,
            Turn::ReadErr,
        ));
    }
}

/// Two pipes that are emptied without an error are both at their end: each of them was
/// before, or the last read found it there.
pub proof fn both_ends_are_reached(d: Drain, reply: ChildReply, next: ReadOutput)
    requires
        follows(ReadOutput::Draining(d), reply, next),
        next matches ReadOutput::Closing { first, rest, stdout, stderr, result } && result is Ok,
    ensures
        d.out_done || (d.turn is ReadOut && piece_of(reply->Pipe_0) is End),
        d.err_done || (d.turn is ReadErr && piece_of(reply->Pipe_0) is End),
{
}

/// Neither pipe keeps the other one waiting: after the output was read it is the turn of the
/// errors if they are not at their end, and after the errors that of the output, with at
/// most a pause in between.
pub proof fn pipes_take_turns(d: Drain, reply: ChildReply, n: Drain)
    requires
        follows(ReadOutput::Draining(d), reply, ReadOutput::Draining(n)),
    ensures
        d.turn is ReadOut && !d.err_done ==> n.turn is ReadErr,
        (d.turn is ReadErr || d.turn is Yield) && !d.out_done ==> n.turn is ReadOut || (d.turn
            is ReadErr && n.turn is Yield),
        d.out_done ==> !(n.turn is ReadOut),
        n.turn is ReadErr ==> !n.err_done,
{
}

// ------------------------------------------------------------------------------------
// Running a command for its output
// ------------------------------------------------------------------------------------

/// What running a command gives: how it ended, its output and its errors.
pub type Captured = Result<(ExitStatus, Vec<u8>, Vec<u8>), Error>;

/// Running a command for its output.
#[allow(inconsistent_fields)]
pub enum Output {
    /// It is being started.
    Spawning(Spawn),
    /// Both of its streams are being read.
    Draining { op: ReadOutput, process: Process, stdin: Option<Pipe> },
    /// One of its streams is being read, the other is no pipe.
    Reading { op: ReadToEnd, errors: bool, process: Process, stdin: Option<Pipe> },
    /// The stream that was read is being closed.
    ClosingRead {
        fh: PipeHandle,
        stdout: Vec<u8>,
        stderr: Vec<u8>,
        result: Result<(), Error>,
        process: Process,
        stdin: Option<Pipe>,
    },
    /// Its end is being waited for.
    Waiting { op: Wait, stdin: Option<Pipe>, stdout: Vec<u8>, stderr: Vec<u8> },
    /// Its input is being closed.
    ClosingInput { fh: PipeHandle, process: Process, result: Captured },
    /// It is being given up.
    Releasing { op: Release, result: Captured },
}

/// What a result of a run says.
pub open spec fn said(r: Captured) -> Result<(ExitStatus, Seq<u8>, Seq<u8>), Error> {
    match r {
        Ok((status, stdout, stderr)) => Ok((status, stdout@, stderr@)),
        Err(e) => Err(e),
    }
}

/// What follows once nothing is left but to give the child up.
pub open spec fn gives_up(
    step: Step<Output, Captured>,
    process: Process,
    result: Result<(ExitStatus, Seq<u8>, Seq<u8>), Error>,
) -> bool {
    step matches Step::Ask(Output::Releasing { op, result: r }) && process.released_by(op) && said(
        r,
    ) == result
}

/// What follows once the result is known: the input is closed if it is a pipe, and then the
/// child is given up.
pub open spec fn winds_up(
    step: Step<Output, Captured>,
    process: Process,
    stdin: Option<Pipe>,
    result: Result<(ExitStatus, Seq<u8>, Seq<u8>), Error>,
) -> bool {
    if end_of(stdin).len() > 0 {
        step matches Step::Ask(Output::ClosingInput { fh, process: p, result: r }) && fh == end_of(
            stdin,
        )[0] && p == process && said(r) == result
    } else {
        gives_up(step, process, result)
    }
}

/// What follows once all has been read, or reading has failed: the end of the child is
/// waited for, or it does not matter any more.
pub open spec fn waits(
    step: Step<Output, Captured>,
    process: Process,
    stdin: Option<Pipe>,
    stdout: Seq<u8>,
    stderr: Seq<u8>,
    result: Result<(), Error>,
) -> bool {
    match result {
        Err(e) => winds_up(step, process, stdin, Err(e)),
        Ok(_) => match process.status() {
            Some(status) => winds_up(step, process, stdin, Ok((status, stdout, stderr))),
            None => step matches Step::Ask(Output::Waiting { op, stdin: i, stdout: o, stderr: e })
                && process.waited_by(op) && i == stdin && o@ == stdout && e@ == stderr,
        },
    }
}

/// What follows once the only pipe has been read: it is closed.
pub open spec fn closes_read(
    step: Step<Output, Captured>,
    fh: PipeHandle,
    process: Process,
    stdin: Option<Pipe>,
    stdout: Seq<u8>,
    stderr: Seq<u8>,
    result: Result<(), Error>,
) -> bool {
    if fh != 0 {
        &&& step matches Step::Ask(
            Output::ClosingRead { fh: f, stdout: o, stderr: e, result: r, process: p, stdin: i },
        )
        &&& f == fh && o@ == stdout && e@ == stderr && r == result && p == process && i == stdin
    } else {
        waits(step, process, stdin, stdout, stderr, result)
    }
}

/// What follows once the child has been started: what is a pipe is read.
pub open spec fn reads_streams(
    step: Step<Output, Captured>,
    process: Process,
    pipes: StdioPipes,
) -> bool {
    match (pipes.stdout, pipes.stderr) {
        (Some(out), Some(err)) => {
            &&& step matches Step::Ask(Output::Draining { op, process: p, stdin })
            &&& op matches ReadOutput::Draining(d)
            &&& d.out == out@ && d.err == err@
            &&& d.stdout@.len() == 0 && d.stderr@.len() == 0
            &&& !d.out_done && !d.err_done && !d.progressed && d.turn is FreeOut
            &&& p == process && stdin == pipes.stdin
        },
        (Some(out), None) => {
            &&& step matches Step::Ask(Output::Reading { op, errors, process: p, stdin })
            &&& op.fh == out@ && op.start == 0 && op.buf@.len() == 0 && !errors
            &&& p == process && stdin == pipes.stdin
        },
        (None, Some(err)) => {
            &&& step matches Step::Ask(Output::Reading { op, errors, process: p, stdin })
            &&& op.fh == err@ && op.start == 0 && op.buf@.len() == 0 && errors
            &&& p == process && stdin == pipes.stdin
        },
        (None, None) => waits(
            step,
            process,
            pipes.stdin,
            Seq::empty(),
            Seq::empty(),
            Ok(()),
        ),
    }
}

/// What follows once the start has succeeded or failed.
pub open spec fn goes_on(step: Step<Output, Captured>, started: Started) -> bool {
    match started {
        Ok((process, pipes)) => reads_streams(step, process, pipes),
        Err(e) => step matches Step::Done(Err(why)) && why == e,
    }
}

fn give_child_up(process: Process, result: Captured) -> (step: Step<Output, Captured>)
    ensures
        gives_up(step, process, said(result)),
{
    Step::Ask(Output::Releasing { op: process.close(), result })
}

fn wind_up(process: Process, stdin: Option<Pipe>, result: Captured) -> (step: Step<
    Output,
    Captured,
>)
    ensures
        winds_up(step, process, stdin, said(result)),
{
    if let Some(pipe) = stdin {
        let fh: PipeHandle = pipe.handle();
        if fh != 0 {
            return Step::Ask(Output::ClosingInput { fh, process, result });
        }
    }
    give_child_up(process, result)
}

fn wait_for(
    process: Process,
    stdin: Option<Pipe>,
    stdout: Vec<u8>,
    stderr: Vec<u8>,
    result: Result<(), Error>,
) -> (step: Step<Output, Captured>)
    ensures
        waits(step, process, stdin, stdout@, stderr@, result),
{
    if let Err(e) = result {
        return wind_up(process, stdin, Err(e));
    }
    match process.wait() {
        Step::Ask(op) => Step::Ask(Output::Waiting { op, stdin, stdout, stderr }),
        Step::Done((process, Ok(status))) => wind_up(process, stdin, Ok((status, stdout, stderr))),
        Step::Done((process, Err(e))) => wind_up(process, stdin, Err(e)),
    }
}

fn read_streams(process: Process, pipes: StdioPipes) -> (step: Step<Output, Captured>)
    ensures
        reads_streams(step, process, pipes),
{
    let StdioPipes { stdin, stdout, stderr } = pipes;
    match (stdout, stderr) {
        (Some(out), Some(err)) => {
            let op: ReadOutput = read_output(out, Vec::new(), err, Vec::new());
            Step::Ask(Output::Draining { op, process, stdin })
        },
        (Some(out), None) => Step::Ask(
            Output::Reading { op: out.read_to_end(Vec::new()), errors: false, process, stdin },
        ),
        (None, Some(err)) => Step::Ask(
            Output::Reading { op: err.read_to_end(Vec::new()), errors: true, process, stdin },
        ),
        (None, None) => wait_for(process, stdin, Vec::new(), Vec::new(), Ok(())),
    }
}

/// Runs a command and collects what it writes. Nobody writes to it.
pub fn output(cmd: &Command) -> (step: Step<Output, Captured>)
    ensures
        match step {
            Step::Ask(Output::Spawning(op)) => cmd.spawned(
                Stdio::MakePipe,
                false,
                Step::Ask(op),
            ),
            Step::Done(Err(e)) => cmd.spawned(Stdio::MakePipe, false, Step::Done(Err(e))),
            _ => false,
        },
{
    match cmd.spawn(&Stdio::MakePipe, false) {
        Step::Ask(op) => Step::Ask(Output::Spawning(op)),
        Step::Done(Ok((process, pipes))) => read_streams(process, pipes),
        Step::Done(Err(e)) => Step::Done(Err(e)),
    }
}

impl Operation for Output {
    type Call = ChildCall;

    type Reply = ChildReply;

    type Output = Captured;

    open spec fn asks(self, call: ChildCall) -> bool {
        match self {
            Output::Spawning(op) => op.asks(call),
            Output::Draining { op, process, stdin } => op.asks(call),
            Output::Reading { op, errors, process, stdin } => call matches ChildCall::Pipe(c)
                && op.asks(c),
            Output::ClosingRead { fh, .. } => call == ChildCall::Pipe(PipeCall::Close { fh }),
            Output::Waiting { op, stdin, stdout, stderr } => op.asks(call),
            Output::ClosingInput { fh, process, result } => call == ChildCall::Pipe(
                PipeCall::Close { fh },
            ),
            Output::Releasing { op, result } => op.asks(call),
        }
    }

    open spec fn accepts(self, reply: ChildReply) -> bool {
        match self {
            Output::Spawning(op) => op.accepts(reply),
            Output::Draining { op, process, stdin } => op.accepts(reply),
            Output::Reading { op, errors, process, stdin } => reply matches ChildReply::Pipe(r)
                && op.accepts(r),
            Output::ClosingRead { .. } => reply is Pipe,
            Output::Waiting { op, stdin, stdout, stderr } => op.accepts(reply),
            Output::ClosingInput { fh, process, result } => reply is Pipe,
            Output::Releasing { op, result } => op.accepts(reply),
        }
    }

    open spec fn leads_to(self, reply: ChildReply, step: Step<Output, Captured>) -> bool {
        match self {
            Output::Spawning(op) => {
                ||| step matches Step::Ask(Output::Spawning(next)) && op.leads_to(
                    reply,
                    Step::Ask(next),
                )
                ||| exists|started: Started| #[trigger]
                    op.leads_to(reply, Step::Done(started)) && goes_on(step, started)
            },
            Output::Draining { op, process, stdin } => {
                ||| step matches Step::Ask(Output::Draining { op: next, process: p, stdin: i })
                    && op.leads_to(reply, Step::Ask(next)) && p == process && i == stdin
                ||| exists|d: Drained| #[trigger]
                    op.leads_to(reply, Step::Done(d)) && waits(
                        step,
                        process,
                        stdin,
                        d.0@,
                        d.1@,
                        d.2,
                    )
            },
            Output::Reading { op, errors, process, stdin } => reply matches ChildReply::Pipe(r) && {
                ||| step matches Step::Ask(
                    Output::Reading { op: next, errors: x, process: p, stdin: i },
                ) && op.leads_to(r, Step::Ask(next)) && x == errors && p == process && i == stdin
                ||| exists|d: (Vec<u8>, Result<usize, Error>)| #[trigger]
                    op.leads_to(r, Step::Done(d)) && closes_read(
                        step,
                        op.fh,
                        process,
                        stdin,
                        if errors {
                            Seq::empty()
                        } else {
                            d.0@
                        },
                        if errors {
                            d.0@
                        } else {
                            Seq::empty()
                        },
                        match d.1 {
                            Ok(_) => Ok(()),
                            Err(e) => Err(e),
                        },
                    )
            },
            Output::ClosingRead { fh, stdout, stderr, result, process, stdin } => waits(
                step,
                process,
                stdin,
                stdout@,
                stderr@,
                result,
            ),
            Output::Waiting { op, stdin, stdout, stderr } => {
                ||| step matches Step::Ask(
                    Output::Waiting { op: next, stdin: i, stdout: o, stderr: e },
                ) && op.leads_to(reply, Step::Ask(next)) && i == stdin && o == stdout && e == stderr
                ||| exists|d: (Process, Result<ExitStatus, Error>)| #[trigger]
                    op.leads_to(reply, Step::Done(d)) && winds_up(
                        step,
                        d.0,
                        stdin,
                        match d.1 {
                            Ok(status) => Ok((status, stdout@, stderr@)),
                            Err(e) => Err(e),
                        },
                    )
            },
            Output::ClosingInput { fh, process, result } => gives_up(step, process, said(result)),
            Output::Releasing { op, result } => {
                ||| step matches Step::Ask(Output::Releasing { op: next, result: r })
                    && op.leads_to(reply, Step::Ask(next)) && r == result
                ||| op.leads_to(reply, Step::Done(())) && step == Step::<Output, Captured>::Done(
                    result,
                )
            },
        }
    }

    fn call(&self) -> (call: ChildCall) {
        match self {
            Output::Spawning(op) => op.call(),
            Output::Draining { op, .. } => op.call(),
            Output::Reading { op, .. } => ChildCall::Pipe(op.call()),
            Output::ClosingRead { fh, .. } => ChildCall::Pipe(PipeCall::Close { fh: *fh }),
            Output::Waiting { op, .. } => op.call(),
            Output::ClosingInput { fh, .. } => ChildCall::Pipe(PipeCall::Close { fh: *fh }),
            Output::Releasing { op, .. } => op.call(),
        }
    }

    fn resume(self, reply: ChildReply) -> (step: Step<Output, Captured>) {
        match self {
            Output::Spawning(op) => match op.resume(reply) {
                Step::Ask(op) => Step::Ask(Output::Spawning(op)),
                Step::Done(Ok((process, pipes))) => read_streams(process, pipes),
                Step::Done(Err(e)) => Step::Done(Err(e)),
            },
            Output::Draining { op, process, stdin } => match op.resume(reply) {
                Step::Ask(op) => Step::Ask(Output::Draining { op, process, stdin }),
                Step::Done((stdout, stderr, result)) => wait_for(
                    process,
                    stdin,
                    stdout,
                    stderr,
                    result,
                ),
            },
            Output::Reading { op, errors, process, stdin } => {
                let fh: PipeHandle = op.fh;
                match op.resume(reply.into_pipe()) {
                    Step::Ask(op) => Step::Ask(Output::Reading { op, errors, process, stdin }),
                    Step::Done((buf, n)) => {
                        let result: Result<(), Error> = match n {
                            Ok(_) => Ok(()),
                            Err(e) => Err(e),
                        };
                        let (stdout, stderr): (Vec<u8>, Vec<u8>) = if errors {
                            (Vec::new(), buf)
                        } else {
                            (buf, Vec::new())
                        };
                        if fh != 0 {
                            Step::Ask(
                                Output::ClosingRead { fh, stdout, stderr, result, process, stdin },
                            )
                        } else {
                            wait_for(process, stdin, stdout, stderr, result)
                        }
                    },
                }
            },
            Output::ClosingRead { fh: _, stdout, stderr, result, process, stdin } => wait_for(
                process,
                stdin,
                stdout,
                stderr,
                result,
            ),
            Output::Waiting { op, stdin, stdout, stderr } => match op.resume(reply) {
                Step::Ask(op) => Step::Ask(Output::Waiting { op, stdin, stdout, stderr }),
                Step::Done((process, Ok(status))) => wind_up(
                    process,
                    stdin,
                    Ok((status, stdout, stderr)),
                ),
                Step::Done((process, Err(e))) => wind_up(process, stdin, Err(e)),
            },
            Output::ClosingInput { fh: _, process, result } => give_child_up(process, result),
            Output::Releasing { op, result } => match op.resume(reply) {
                Step::Ask(op) => Step::Ask(Output::Releasing { op, result }),
                Step::Done(done) => {
                    assert(done == ());
                    Step::Done(result)
                },
            },
        }
    }
}

/// A command that was started is given up before its result is handed over, whatever went
/// wrong on the way: only a start that failed ends it sooner.
pub proof fn a_child_is_always_given_up(
    op: Output,
    reply: ChildReply,
    step: Step<Output, Captured>,
)
    requires
        op.accepts(reply),
        op.leads_to(reply, step),
        step is Done,
    ensures
        op is Releasing || (op matches Output::Spawning(s) && exists|e: Error| #[trigger]
            s.leads_to(reply, Step::Done(Err(e)))),
{
    if let Output::Spawning(s) = op {
        let started = choose|started: Started| #[trigger]
            s.leads_to(reply, Step::Done(started)) && goes_on(step, started);
        assert(s.leads_to(reply, Step::Done(Err(started->Err_0))));
    }
}

/// What has been kept so far of one of the two streams of a command.
pub open spec fn kept(op: Output, of_errors: bool) -> Seq<u8> {
    match op {
        Output::Spawning(_) => Seq::empty(),
        Output::Draining { op, process, stdin } => if of_errors {
            errors_so_far(op)
        } else {
            output_so_far(op)
        },
        Output::Reading { op, errors, process, stdin } => if of_errors == errors {
            op.buf@
        } else {
            Seq::empty()
        },
        Output::ClosingRead { fh, stdout, stderr, result, process, stdin } => if of_errors {
            stderr@
        } else {
            stdout@
        },
        Output::Waiting { op, stdin, stdout, stderr } => if of_errors {
            stderr@
        } else {
            stdout@
        },
        Output::ClosingInput { fh, process, result } => kept_in(result, of_errors),
        Output::Releasing { op, result } => kept_in(result, of_errors),
    }
}

/// What a result holds of one of the two streams of a command.
pub open spec fn kept_in(result: Captured, of_errors: bool) -> Seq<u8> {
    match result {
        Ok((status, stdout, stderr)) => if of_errors {
            stderr@
        } else {
            stdout@
        },
        Err(_) => Seq::empty(),
    }
}

/// Whether a run is going to return an error.
pub open spec fn doomed(op: Output) -> bool {
    match op {
        Output::ClosingInput { fh, process, result } => result is Err,
        Output::Releasing { op, result } => result is Err,
        _ => false,
    }
}

/// The bytes that an answer brings from one of the two streams of a command.
pub open spec fn news(op: Output, reply: ChildReply, of_errors: bool) -> Seq<u8> {
    match (op, reply) {
        (
            Output::Draining { op: ReadOutput::Draining(d), process, stdin },
            ChildReply::Pipe(r),
        ) => if d.turn == (if of_errors {
            Turn::ReadErr
        } else {
            Turn::ReadOut
        }) {
            brought(r)
        } else {
            Seq::empty()
        },
        (Output::Reading { op, errors, process, stdin }, ChildReply::Pipe(r)) => match read_means(r) {
            Ok(n) => if of_errors == errors {
                r.bytes@.take(n)
            } else {
                Seq::empty()
            },
            Err(_) => Seq::empty(),
        },
        _ => Seq::empty(),
    }
}

proof fn a_step_keeps_what_came(op: Output, reply: ChildReply, next: Output, of_errors: bool)
    requires
        follows(op, reply, next),
        !doomed(next),
    ensures
        !doomed(op),
        kept(next, of_errors) == kept(op, of_errors) + news(op, reply, of_errors),
{
    let step = Step::<Output, Captured>::Ask(next);
    match op {
        Output::Spawning(s) => {
            assert(kept(next, of_errors) == Seq::<u8>::empty());
        },
        Output::Draining { op: inner, process, stdin } => {
            if !(next matches Output::Draining { op: n, process: p, stdin: i } && inner.leads_to(
                reply,
                Step::Ask(n),
            )) {
                let d = choose|d: Drained| #[trigger]
                    inner.leads_to(reply, Step::Done(d)) && waits(
                        step,
                        process,
                        stdin,
                        d.0@,
                        d.1@,
                        d.2,
                    );
                assert(inner.leads_to(reply, Step::Done(d)));
            }
            assert(kept(next, of_errors) == kept(op, of_errors) + news(op, reply, of_errors));
        },
        Output::Reading { op: inner, errors, process, stdin } => {
            assert(kept(next, of_errors) == kept(op, of_errors) + news(op, reply, of_errors));
        },
        _ => {
            assert(kept(next, of_errors) == kept(op, of_errors) + news(op, reply, of_errors));
        },
    }
}

/// The bytes that some answers bring from one of the two streams of a command, in order.
pub open spec fn all_news(ops: Seq<Output>, replies: Seq<ChildReply>, of_errors: bool) -> Seq<u8>
    decreases replies.len(),
{
    if replies.len() == 0 {
        Seq::empty()
    } else {
        all_news(ops, replies.drop_last(), of_errors) + news(
            ops[replies.len() - 1],
            replies.last(),
            of_errors,
        )
    }
}

proof fn all_news_before(ops: Seq<Output>, replies: Seq<ChildReply>, of_errors: bool)
    requires
        ops.len() > replies.len() + 1,
    ensures
        all_news(ops, replies, of_errors) == all_news(ops.drop_last(), replies, of_errors),
    decreases replies.len(),
{
    if replies.len() > 0 {
        all_news_before(ops, replies.drop_last(), of_errors);
    }
}

proof fn kept_is_all_news(ops: Seq<Output>, replies: Seq<ChildReply>, of_errors: bool)
    requires
        runs(ops, replies),
        ops[0] is Spawning,
        !doomed(ops.last()),
    ensures
        kept(ops.last(), of_errors) == all_news(ops, replies, of_errors),
    decreases replies.len(),
{
    if replies.len() > 0 {
        runs_before(ops, replies);
        a_step_keeps_what_came(
            ops.drop_last().last(),
            replies.last(),
            ops.last(),
            of_errors,
        );
        kept_is_all_news(ops.drop_last(), replies.drop_last(), of_errors);
        all_news_before(ops, replies.drop_last(), of_errors);
    }
}

/// What running a command gives as its output and as its errors is all that was read from
/// either stream, each in order and nothing else.
pub proof fn output_is_what_was_read(
    ops: Seq<Output>,
    replies: Seq<ChildReply>,
    last: ChildReply,
    status: ExitStatus,
    stdout: Vec<u8>,
    stderr: Vec<u8>,
)
    requires
        runs(ops, replies),
        ops[0] is Spawning,
        ops.last().accepts(last),
        ops.last().leads_to(last, Step::Done(Ok((status, stdout, stderr)))),
    ensures
        stdout@ == all_news(ops, replies, false),
        stderr@ == all_news(ops, replies, true),
{
    let step = Step::<Output, Captured>::Done(Ok((status, stdout, stderr)));
    a_child_is_always_given_up(ops.last(), last, step);
    if let Output::Spawning(s) = ops.last() {
        let started = choose|started: Started| #[trigger]
            s.leads_to(last, Step::Done(started)) && goes_on(step, started);
        assert(goes_on(step, started));
    }
    kept_is_all_news(ops, replies, false);
    kept_is_all_news(ops, replies, true);
}

/// A read of a pipe that is being emptied means the end where it brings nothing, bytes where it
/// brings some, and that there is nothing yet where the pipe is empty or the read would have to
/// wait; an interrupted one is made again, and any other is a failure with the number that the
/// system left.
pub proof fn a_read_means_one_thing(r: PipeReply)
    requires
        r.ret <= r.bytes@.len() <= 4096,
    ensures
        piece_of(r) is End <==> r.ret == 0,
        piece_of(r) is Bytes <==> r.ret > 0,
        piece_of(r) matches Piece::Bytes(n) ==> n == r.ret,
        piece_of(r) is Empty <==> r.ret == -2 || (r.ret < 0 && r.errno == 35),
        piece_of(r) is Again <==> r.ret < 0 && r.ret != -2 && r.errno == 4,
        piece_of(r) is Failed <==> r.ret < 0 && r.ret != -2 && r.errno != 4 && r.errno != 35,
        piece_of(r) matches Piece::Failed(e) ==> e == Error::Os(r.errno),
        r.ret > 0 ==> brought(r) == r.bytes@.take(r.ret as int),
        r.ret <= 0 ==> brought(r).len() == 0,
{
}

/// Two pipes that are emptied begin with neither at its end, with the buffers as they were
/// handed over, and with the output being told not to wait.
pub proof fn emptying_begins_at_the_beginning(
    out: Pipe,
    stdout: Vec<u8>,
    err: Pipe,
    stderr: Vec<u8>,
    op: ReadOutput,
)
    requires
        call_ensures(read_output, (out, stdout, err, stderr), op),
    ensures
        op matches ReadOutput::Draining(d) && {
            &&& d.out == out@ && d.err == err@
            &&& d.stdout@ == stdout@ && d.stderr@ == stderr@
            &&& !d.out_done && !d.err_done
            &&& d.turn is FreeOut
        },
{
}

/// The turn of a pipe is a call on that pipe: it is told not to wait, or it is read.
pub proof fn every_turn_is_a_call_on_its_pipe(d: Drain, call: ChildCall)
    requires
        ReadOutput::Draining(d).asks(call),
    ensures
        d.turn is FreeOut ==> call == ChildCall::Pipe(
            PipeCall::SetNonblock { fh: d.out, enable: 1 },
        ),
        d.turn is FreeErr ==> call == ChildCall::Pipe(
            PipeCall::SetNonblock { fh: d.err, enable: 1 },
        ),
        d.turn is ReadOut ==> call == ChildCall::Pipe(PipeCall::Read { fh: d.out, len: 4096 }),
        d.turn is ReadErr ==> call == ChildCall::Pipe(PipeCall::Read { fh: d.err, len: 4096 }),
        d.turn is Yield ==> call is Yield,
{
}

/// The handles that are to be closed after two pipes: that of the errors, then that of the
/// output, each unless there is none.
pub open spec fn both_handles(d: Drain) -> Seq<PipeHandle> {
    if d.err != 0 && d.out != 0 {
        seq![d.err, d.out]
    } else if d.err != 0 {
        seq![d.err]
    } else if d.out != 0 {
        seq![d.out]
    } else {
        Seq::empty()
    }
}

/// What comes from a pipe goes behind what came from it before, and nothing else is touched: a
/// read of the output leaves the errors alone, and a read of the errors the output. A pipe is
/// at its end once a read has found it there, and not sooner. Once both are, they are closed
/// with all that came; a failure closes them at once.
pub proof fn what_comes_goes_to_its_own_stream(
    d: Drain,
    r: PipeReply,
    step: Step<ReadOutput, Drained>,
)
    requires
        d.turn is ReadOut || d.turn is ReadErr,
        d.turn is ReadOut ==> !d.out_done,
        d.turn is ReadErr ==> !d.err_done,
        r.ret <= r.bytes@.len() <= 4096,
        ReadOutput::Draining(d).leads_to(ChildReply::Pipe(r), step),
    ensures
        ({
            let failed = r.ret < 0 && r.ret != -2 && r.errno != 4 && r.errno != 35;
            let came = if r.ret > 0 {
                r.bytes@.take(r.ret as int)
            } else {
                Seq::empty()
            };
            let stdout = if d.turn is ReadOut {
                d.stdout@ + came
            } else {
                d.stdout@
            };
            let stderr = if d.turn is ReadErr {
                d.stderr@ + came
            } else {
                d.stderr@
            };
            let out_done = d.out_done || (d.turn is ReadOut && r.ret == 0);
            let err_done = d.err_done || (d.turn is ReadErr && r.ret == 0);
            let over = failed || (out_done && err_done);
            &&& over && both_handles(d).len() > 0 ==> (step matches Step::Ask(
                ReadOutput::Closing { first, rest, stdout: o, stderr: e, result },
            ) && first == both_handles(d)[0] && rest@ == both_handles(d).skip(1) && o@ == stdout
                && e@ == stderr && result == (if failed {
                Err::<(), Error>(Error::Os(r.errno))
            } else {
                Ok(())
            }))
            &&& over && both_handles(d).len() == 0 ==> (step matches Step::Done((o, e, result))
                && o@ == stdout && e@ == stderr && result == (if failed {
                Err::<(), Error>(Error::Os(r.errno))
            } else {
                Ok(())
            }))
            &&& !over ==> (step matches Step::Ask(ReadOutput::Draining(n)) && n.out == d.out
                && n.err == d.err && n.stdout@ == stdout && n.stderr@ == stderr && n.out_done
                == out_done && n.err_done == err_done)
        }),
{
    a_read_means_one_thing(r);
    assert(d.stdout@ + Seq::<u8>::empty() == d.stdout@);
    assert(d.stderr@ + Seq::<u8>::empty() == d.stderr@);
    assert(to_close(d.err) + to_close(d.out) == both_handles(d));
}

/// Whatever is done about two pipes besides reading them leaves both streams as they are: being
/// told not to wait, letting others run, and being closed, which happens to each handle once
/// and in order and hands all over in the end.
pub proof fn nothing_but_a_read_touches_a_stream(
    op: ReadOutput,
    reply: ChildReply,
    step: Step<ReadOutput, Drained>,
)
    requires
        op.accepts(reply),
        op.leads_to(reply, step),
    ensures
        op matches ReadOutput::Draining(d) ==> {
            &&& d.turn is FreeOut ==> (step matches Step::Ask(ReadOutput::Draining(n)) && n.turn
                is FreeErr && n.out == d.out && n.err == d.err && n.stdout@ == d.stdout@
                && n.stderr@ == d.stderr@ && n.out_done == d.out_done && n.err_done == d.err_done)
            &&& (d.turn is FreeErr || d.turn is Yield) && !(d.out_done && d.err_done) ==> (
            step matches Step::Ask(ReadOutput::Draining(n)) && n.turn == (if !d.out_done {
                Turn::ReadOut
            } else {
                Turn::ReadErr
            }) && n.out == d.out && n.err == d.err && n.stdout@ == d.stdout@ && n.stderr@
                == d.stderr@ && n.out_done == d.out_done && n.err_done == d.err_done)
        },
        op matches ReadOutput::Closing { first, rest, stdout, stderr, result } ==> {
            &&& forall|call: ChildCall| #[trigger]
                op.asks(call) ==> call == ChildCall::Pipe(PipeCall::Close { fh: first })
            &&& rest@.len() == 0 ==> (step matches Step::Done((o, e, r)) && o@ == stdout@ && e@
                == stderr@ && r == result)
            &&& rest@.len() > 0 ==> (step matches Step::Ask(
                ReadOutput::Closing { first: f, rest: more, stdout: o, stderr: e, result: r },
            ) && f == rest@[0] && more@ == rest@.skip(1) && o@ == stdout@ && e@ == stderr@ && r
                == result)
        },
{
}

/// Others are let run only where a round has brought nothing from either pipe.
pub proof fn a_pause_comes_only_after_nothing(d: Drain, r: PipeReply, n: Drain)
    requires
        d.turn is ReadOut || d.turn is ReadErr,
        r.ret <= r.bytes@.len() <= 4096,
        follows(ReadOutput::Draining(d), ChildReply::Pipe(r), ReadOutput::Draining(n)),
    ensures
        n.turn is Yield ==> !d.progressed && r.ret <= 0,
{
    a_read_means_one_thing(r);
}

/// Running a command for its output starts it as the command is started, with pipes for those of
/// its output and its errors of which nothing was said, and with nothing for its input if nothing
/// was said of that.
pub proof fn output_is_taken_through_pipes(
    cmd: Command,
    modes: (i32, i32, i32),
    line: String,
    step: Step<Output, Captured>,
)
    requires
        call_ensures(output, (&cmd,), step),
        call_ensures(Command::modes, (&cmd, &Stdio::MakePipe, false), modes),
        call_ensures(Command::command_line, (&cmd,), line),
    ensures
        step is Ask ==> (step matches Step::Ask(Output::Spawning(_))),
        step is Done ==> (step matches Step::Done(Err(_))),
        cmd.input() is None ==> modes.0 == 2,
        cmd.output() is None ==> modes.1 == 1,
        cmd.errors() is None ==> modes.2 == 1,
        forall|call: ChildCall|
            step is Ask && #[trigger] step->Ask_0.asks(call) ==> call is NextScript
                || starts_child(call, line@, cmd.directory(), modes),
        step matches Step::Ask(Output::Spawning(Spawn::Numbering { text, job })) ==> text@
            == cmd.script_text() && job.in_mode == modes.0 && job.out_mode == modes.1
            && job.err_mode == modes.2,
{
}

/// Running a command for its output makes the calls of what it is at: of the start, of the reading
/// of its streams, of the wait for its end, and of giving it up.
pub proof fn every_stage_makes_its_own_calls(op: Output, call: ChildCall)
    requires
        op.asks(call),
    ensures
        op matches Output::Spawning(s) ==> s.asks(call),
        op matches Output::Draining { op: d, process, stdin } ==> d.asks(call),
        op matches Output::Reading { op: r, errors, process, stdin } ==> (
        call matches ChildCall::Pipe(c) && r.asks(c)),
        op matches Output::Waiting { op: w, stdin, stdout, stderr } ==> w.asks(call),
        op matches Output::Releasing { op: r, result } ==> r.asks(call),
{
}

/// The code that the last answer told which said anything of a child's end.
pub open spec fn last_told(replies: Seq<ChildReply>) -> Option<i32>
    decreases replies.len(),
{
    if replies.len() == 0 {
        None
    } else {
        match replies.last() {
            ChildReply::Exited { exited, code } => Some(code),
            _ => last_told(replies.drop_last()),
        }
    }
}

/// What is known of the end of a child on the way to the result of running it.
spec fn end_is_known(op: Output, told: Option<i32>) -> bool {
    match op {
        Output::Spawning(s) => s matches Spawn::Typing { process, pipes, input, setup }
            ==> process.status() is None,
        Output::Draining { op, process, stdin } => process.status() is None,
        Output::Reading { op, errors, process, stdin } => process.status() is None,
        Output::ClosingRead { fh, stdout, stderr, result, process, stdin } => process.status()
            is None,
        Output::Waiting { op, stdin, stdout, stderr } => match op.at {
            WaitAt::Removing { path, status } => op.process.status() == Some(status) && told
                == Some(status@),
            _ => true,
        },
        Output::ClosingInput { fh, process, result } => result matches Ok((status, o, e))
            ==> process.status() is Some && told == Some(status@),
        Output::Releasing { op, result } => result matches Ok((status, o, e)) ==> !(op is Looking)
            && told == Some(status@),
    }
}

proof fn the_end_stays_known(op: Output, reply: ChildReply, next: Output, replies: Seq<ChildReply>)
    requires
        follows(op, reply, next),
        end_is_known(op, last_told(replies)),
    ensures
        end_is_known(next, last_told(replies.push(reply))),
{
    let all = replies.push(reply);
    assert(all.drop_last() == replies);
    let told = last_told(all);
    let step = Step::<Output, Captured>::Ask(next);
    match op {
        Output::Spawning(s) => {
            if !(next matches Output::Spawning(n) && s.leads_to(reply, Step::Ask(n))) {
                let started = choose|started: Started| #[trigger]
                    s.leads_to(reply, Step::Done(started)) && goes_on(step, started);
                assert(s.leads_to(reply, Step::Done(started)) && goes_on(step, started));
            }
        },
        Output::Draining { op: inner, process, stdin } => {
            if !(next matches Output::Draining { op: n, process: p, stdin: i } && inner.leads_to(
                reply,
                Step::Ask(n),
            )) {
                let d = choose|d: Drained| #[trigger]
                    inner.leads_to(reply, Step::Done(d)) && waits(
                        step,
                        process,
                        stdin,
                        d.0@,
                        d.1@,
                        d.2,
                    );
                assert(inner.leads_to(reply, Step::Done(d)));
            }
        },
        Output::Waiting { op: inner, stdin, stdout, stderr } => {
            if !(next matches Output::Waiting { op: n, stdin: i, stdout: o, stderr: e }
                && inner.leads_to(reply, Step::Ask(n))) {
                let d = choose|d: (Process, Result<ExitStatus, Error>)| #[trigger]
                    inner.leads_to(reply, Step::Done(d)) && winds_up(
                        step,
                        d.0,
                        stdin,
                        match d.1 {
                            Ok(status) => Ok((status, stdout@, stderr@)),
                            Err(e) => Err(e),
                        },
                    );
                assert(inner.leads_to(reply, Step::Done(d)));
            }
        },
        _ => {},
    }
}

proof fn the_end_is_known_throughout(ops: Seq<Output>, replies: Seq<ChildReply>)
    requires
        runs(ops, replies),
        ops[0] matches Output::Spawning(s) && !(s is Typing),
    ensures
        end_is_known(ops.last(), last_told(replies)),
    decreases replies.len(),
{
    if replies.len() > 0 {
        runs_before(ops, replies);
        the_end_is_known_throughout(ops.drop_last(), replies.drop_last());
        the_end_stays_known(
            ops.drop_last().last(),
            replies.last(),
            ops.last(),
            replies.drop_last(),
        );
        assert(replies.drop_last().push(replies.last()) == replies);
    }
}

/// Running a command for its output tells the code that the child was last said to have ended
/// with, for every code.
pub proof fn output_tells_the_code_of_the_child(
    ops: Seq<Output>,
    replies: Seq<ChildReply>,
    last: ChildReply,
    status: ExitStatus,
    stdout: Vec<u8>,
    stderr: Vec<u8>,
    told: Option<i32>,
)
    requires
        runs(ops, replies),
        ops[0] matches Output::Spawning(s) && !(s is Typing),
        ops.last().accepts(last),
        ops.last().leads_to(last, Step::Done(Ok((status, stdout, stderr)))),
        call_ensures(ExitStatus::code, (&status,), told),
    ensures
        exists|i: int|
            0 <= i < replies.len() && (#[trigger] replies[i] matches ChildReply::Exited {
                exited,
                code,
            } && told == Some(code)) && forall|j: int|
                i < j < replies.len() ==> !((#[trigger] replies[j]) is Exited),
{
    let step = Step::<Output, Captured>::Done(Ok((status, stdout, stderr)));
    the_end_is_known_throughout(ops, replies);
    a_child_is_always_given_up(ops.last(), last, step);
    if let Output::Spawning(s) = ops.last() {
        let started = choose|started: Started| #[trigger]
            s.leads_to(last, Step::Done(started)) && goes_on(step, started);
        assert(goes_on(step, started));
    }
    last_told_is_last(replies);
}

proof fn last_told_is_last(replies: Seq<ChildReply>)
    ensures
        last_told(replies) matches Some(c) ==> exists|i: int|
            0 <= i < replies.len() && (#[trigger] replies[i] matches ChildReply::Exited {
                exited,
                code,
            } && code == c) && forall|j: int|
                i < j < replies.len() ==> !((#[trigger] replies[j]) is Exited),
    decreases replies.len(),
{
    if replies.len() > 0 {
        let n = replies.len() - 1;
        let early = replies.drop_last();
        if let ChildReply::Exited { exited, code } = replies.last() {
            assert(replies[n] is Exited);
        } else if last_told(replies) is Some {
            last_told_is_last(early);
            let c = last_told(early)->0;
            let i = choose|i: int|
                0 <= i < early.len() && (#[trigger] early[i] matches ChildReply::Exited {
                    exited,
                    code,
                } && code == c) && forall|j: int|
                    i < j < early.len() ==> !((#[trigger] early[j]) is Exited);
            assert(replies[i] == early[i]);
            assert forall|j: int| i < j < replies.len() implies !((#[trigger] replies[j])
                is Exited) by {
                if j < n {
                    assert(early[j] == replies[j]);
                }
            }
        }
    }
}

/// What was read from the streams of a child is what the result holds: it is carried from the
/// reading to the wait for the child, and from there to the result, output as output and errors
/// as errors; a failure to read is the result itself.
pub proof fn what_was_read_is_carried_to_the_result(
    op: Output,
    reply: ChildReply,
    step: Step<Output, Captured>,
)
    requires
        op.accepts(reply),
        op.leads_to(reply, step),
    ensures
        op matches Output::Waiting { op: w, stdin, stdout, stderr } ==> {
            ||| step matches Step::Ask(Output::Waiting { op: n, stdin: i, stdout: o, stderr: e })
                && w.leads_to(reply, Step::Ask(n)) && i == stdin && o@ == stdout@ && e@ == stderr@
            ||| exists|p: Process, status: ExitStatus| #[trigger]
                w.leads_to(reply, Step::Done((p, Ok(status)))) && ends_with(
                    step,
                    p,
                    stdin,
                    Ok((status, stdout@, stderr@)),
                )
            ||| exists|p: Process, e: Error| #[trigger]
                w.leads_to(reply, Step::Done((p, Err(e)))) && ends_with(step, p, stdin, Err(e))
        },
        op matches Output::ClosingRead { fh, stdout, stderr, result, process, stdin } ==> {
            &&& forall|call: ChildCall| #[trigger]
                op.asks(call) ==> call == ChildCall::Pipe(PipeCall::Close { fh })
            &&& result matches Err(e) ==> ends_with(step, process, stdin, Err(e))
            &&& result is Ok && process.status() is None ==> (step matches Step::Ask(
                Output::Waiting { op: w, stdin: i, stdout: o, stderr: e },
            ) && w.process == process && w.at is Allocating && i == stdin && o@ == stdout@ && e@
                == stderr@)
        },
        op matches Output::ClosingInput { fh, process, result } ==> {
            &&& forall|call: ChildCall| #[trigger]
                op.asks(call) ==> call == ChildCall::Pipe(PipeCall::Close { fh })
            &&& ends_with(step, process, None, said(result))
        },
        op matches Output::Releasing { op: r, result } ==> {
            ||| step matches Step::Ask(Output::Releasing { op: n, result: s }) && r.leads_to(
                reply,
                Step::Ask(n),
            ) && s == result
            ||| step == Step::<Output, Captured>::Done(result)
        },
{
    match op {
        Output::Waiting { op: w, stdin, stdout, stderr } => {
            if !(step matches Step::Ask(Output::Waiting { op: n, stdin: i, stdout: o, stderr: e })
                && w.leads_to(reply, Step::Ask(n)) && i == stdin && o == stdout && e == stderr) {
                let d = choose|d: (Process, Result<ExitStatus, Error>)| #[trigger]
                    w.leads_to(reply, Step::Done(d)) && winds_up(
                        step,
                        d.0,
                        stdin,
                        match d.1 {
                            Ok(status) => Ok((status, stdout@, stderr@)),
                            Err(e) => Err(e),
                        },
                    );
                match d.1 {
                    Ok(status) => {
                        assert(w.leads_to(reply, Step::Done((d.0, Ok(status)))));
                    },
                    Err(e) => {
                        assert(w.leads_to(reply, Step::Done((d.0, Err(e)))));
                    },
                }
            }
        },
        _ => {},
    }
}

/// Whether `step` goes to its end with this result: the input is closed where it is a pipe, and
/// the child is given up.
pub open spec fn ends_with(
    step: Step<Output, Captured>,
    process: Process,
    stdin: Option<Pipe>,
    result: Result<(ExitStatus, Seq<u8>, Seq<u8>), Error>,
) -> bool {
    let open = stdin matches Some(p) && p@ != 0;
    &&& open ==> (step matches Step::Ask(Output::ClosingInput { fh, process: p, result: r }) && fh
        == stdin->0@ && p == process && said(r) == result)
    &&& !open ==> (step matches Step::Ask(Output::Releasing { op, result: r })
        && process.released_by(op) && said(r) == result)
}

/// A result says what it holds.
pub proof fn a_result_says_what_it_holds(
    status: ExitStatus,
    stdout: Vec<u8>,
    stderr: Vec<u8>,
    e: Error,
)
    ensures
        said(Ok((status, stdout, stderr))) == Ok::<(ExitStatus, Seq<u8>, Seq<u8>), Error>(
            (status, stdout@, stderr@),
        ),
        said(Err(e)) == Err::<(ExitStatus, Seq<u8>, Seq<u8>), Error>(e),
{
}

/// Once a child has been started, both of its streams are emptied in turn where both are pipes,
/// the one that is a pipe is read up to its end where only one is, and its end is waited for at
/// once where none is.
pub proof fn what_is_a_pipe_is_read(
    p: Process,
    pipes: StdioPipes,
    step: Step<Output, Captured>,
)
    requires
        goes_on(step, Ok((p, pipes))),
        p.status() is None,
    ensures
        pipes.stdout is Some && pipes.stderr is Some ==> (step matches Step::Ask(
            Output::Draining { op: ReadOutput::Draining(d), process, stdin },
        ) && process == p && stdin == pipes.stdin && d.out == pipes.stdout->0@ && d.err
            == pipes.stderr->0@ && d.stdout@.len() == 0 && d.stderr@.len() == 0 && !d.out_done
            && !d.err_done && d.turn is FreeOut),
        pipes.stdout is Some && pipes.stderr is None ==> (step matches Step::Ask(
            Output::Reading { op, errors, process, stdin },
        ) && process == p && stdin == pipes.stdin && op.fh == pipes.stdout->0@ && op.start == 0
            && op.buf@.len() == 0 && !errors),
        pipes.stdout is None && pipes.stderr is Some ==> (step matches Step::Ask(
            Output::Reading { op, errors, process, stdin },
        ) && process == p && stdin == pipes.stdin && op.fh == pipes.stderr->0@ && op.start == 0
            && op.buf@.len() == 0 && errors),
        pipes.stdout is None && pipes.stderr is None ==> (step matches Step::Ask(
            Output::Waiting { op, stdin, stdout, stderr },
        ) && op.process == p && op.at is Allocating && stdin == pipes.stdin && stdout@.len() == 0
            && stderr@.len() == 0),
{
}

/// Whether `step` goes on from all that was read, or from the failure to read it: to the wait
/// for the child, or to the end.
pub open spec fn carries_on(
    step: Step<Output, Captured>,
    process: Process,
    stdin: Option<Pipe>,
    stdout: Seq<u8>,
    stderr: Seq<u8>,
    result: Result<(), Error>,
) -> bool {
    &&& result matches Err(e) ==> ends_with(step, process, stdin, Err(e))
    &&& result is Ok ==> (process.status() matches Some(status) ==> ends_with(
        step,
        process,
        stdin,
        Ok((status, stdout, stderr)),
    ))
    &&& result is Ok && process.status() is None ==> (step matches Step::Ask(
        Output::Waiting { op, stdin: i, stdout: o, stderr: e },
    ) && op.process == process && op.at is Allocating && i == stdin && o@ == stdout && e@ == stderr)
}

/// A command that is being started goes on being started, or fails with what the start failed
/// with, or is read from. What its two streams held is carried on as its output and its errors;
/// what the only stream held is carried on as whichever of them it is, with the other one
/// empty, after that stream is closed.
pub proof fn every_stage_hands_on_what_it_has(
    op: Output,
    reply: ChildReply,
    step: Step<Output, Captured>,
)
    requires
        op.accepts(reply),
        op.leads_to(reply, step),
    ensures
        op matches Output::Spawning(s) ==> {
            ||| step matches Step::Ask(Output::Spawning(n)) && s.leads_to(reply, Step::Ask(n))
            ||| exists|e: Error| #[trigger]
                s.leads_to(reply, Step::Done(Err(e))) && step == Step::<Output, Captured>::Done(
                    Err(e),
                )
            ||| exists|p: Process, pipes: StdioPipes| #[trigger]
                s.leads_to(reply, Step::Done(Ok((p, pipes)))) && goes_on(step, Ok((p, pipes)))
        },
        op matches Output::Draining { op: inner, process, stdin } ==> {
            ||| step matches Step::Ask(Output::Draining { op: n, process: p, stdin: i })
                && inner.leads_to(reply, Step::Ask(n)) && p == process && i == stdin
            ||| exists|o: Vec<u8>, e: Vec<u8>, r: Result<(), Error>| #[trigger]
                inner.leads_to(reply, Step::Done((o, e, r))) && carries_on(
                    step,
                    process,
                    stdin,
                    o@,
                    e@,
                    r,
                )
        },
        op matches Output::Reading { op: inner, errors, process, stdin } ==> (
        reply matches ChildReply::Pipe(r) && {
            ||| step matches Step::Ask(
                Output::Reading { op: n, errors: x, process: p, stdin: i },
            ) && inner.leads_to(r, Step::Ask(n)) && x == errors && p == process && i == stdin
            ||| exists|buf: Vec<u8>, n: Result<usize, Error>| #[trigger]
                inner.leads_to(r, Step::Done((buf, n))) && closes_then_carries_on(
                    step,
                    inner.fh,
                    process,
                    stdin,
                    buf@,
                    errors,
                    n,
                )
        }),
{
    match op {
        Output::Spawning(s) => {
            if !(step matches Step::Ask(Output::Spawning(n)) && s.leads_to(reply, Step::Ask(n))) {
                let started = choose|started: Started| #[trigger]
                    s.leads_to(reply, Step::Done(started)) && goes_on(step, started);
                match started {
                    Ok((p, pipes)) => {
                        assert(s.leads_to(reply, Step::Done(Ok((p, pipes)))));
                    },
                    Err(e) => {
                        assert(s.leads_to(reply, Step::Done(Err(e))));
                    },
                }
            }
        },
        Output::Draining { op: inner, process, stdin } => {
            if !(step matches Step::Ask(Output::Draining { op: n, process: p, stdin: i })
                && inner.leads_to(reply, Step::Ask(n)) && p == process && i == stdin) {
                let d = choose|d: Drained| #[trigger]
                    inner.leads_to(reply, Step::Done(d)) && waits(
                        step,
                        process,
                        stdin,
                        d.0@,
                        d.1@,
                        d.2,
                    );
                assert(inner.leads_to(reply, Step::Done((d.0, d.1, d.2))));
            }
        },
        Output::Reading { op: inner, errors, process, stdin } => {
            let r = reply->Pipe_0;
            if !(step matches Step::Ask(Output::Reading { op: n, errors: x, process: p, stdin: i })
                && inner.leads_to(r, Step::Ask(n)) && x == errors && p == process && i == stdin) {
                let d = choose|d: (Vec<u8>, Result<usize, Error>)| #[trigger]
                    inner.leads_to(r, Step::Done(d)) && closes_read(
                        step,
                        inner.fh,
                        process,
                        stdin,
                        if errors {
                            Seq::empty()
                        } else {
                            d.0@
                        },
                        if errors {
                            d.0@
                        } else {
                            Seq::empty()
                        },
                        match d.1 {
                            Ok(_) => Ok(()),
                            Err(e) => Err(e),
                        },
                    );
                assert(inner.leads_to(r, Step::Done((d.0, d.1))));
            }
        },
        _ => {},
    }
}

/// Whether `step` closes the only stream of a command that is a pipe, and carries on what it
/// held; a stream without a handle is not closed.
pub open spec fn closes_then_carries_on(
    step: Step<Output, Captured>,
    fh: PipeHandle,
    process: Process,
    stdin: Option<Pipe>,
    bytes: Seq<u8>,
    errors: bool,
    result: Result<usize, Error>,
) -> bool {
    let stdout = if errors {
        Seq::empty()
    } else {
        bytes
    };
    let stderr = if errors {
        bytes
    } else {
        Seq::empty()
    };
    let end = match result {
        Ok(_) => Ok(()),
        Err(e) => Err(e),
    };
    &&& fh != 0 ==> (step matches Step::Ask(
        Output::ClosingRead { fh: f, stdout: o, stderr: e, result: r, process: p, stdin: i },
    ) && f == fh && o@ == stdout && e@ == stderr && r == end && p == process && i == stdin)
    &&& fh == 0 ==> carries_on(step, process, stdin, stdout, stderr, end)
}

} // verus!
