//! The scripts that shells are given, and files that are read whole.
use vstd::prelude::*;
use vstd::utf8::{encode_utf8, is_ascii_chars, is_ascii_chars_encode_utf8};

use crate::error::{Error, ErrorKind};
use crate::fs::call::{Count, FsCall, FsReply};
use crate::fs::file::{File, Opened};
use crate::fs::options::OpenOptions;
use crate::fs::translate::translated;
use crate::op::{runs, runs_before, Decode, Operation, Step};
use crate::pipe::CHUNK;
use crate::text::{
    append_range, copy_of, copy_range, digits, digits_are_unique, nul_free, push_decimal, CString,
};

verus! {

/// The path of the script with a number.
pub open spec fn script_path_of(n: u32) -> Seq<char> {
    "MacRW:rustcmd-"@ + digits(n as nat) + ".aros"@
}

proof fn digits_are_plain(n: nat)
    ensures
        is_ascii_chars(digits(n)),
        forall|i: int| 0 <= i < digits(n).len() ==> #[trigger] digits(n)[i] != '\0',
    decreases n,
{
    if n >= 10 {
        digits_are_plain(n / 10);
    }
}

/// The path of a script has no NUL.
pub proof fn script_path_is_nul_free(n: u32)
    ensures
        nul_free(encode_utf8(script_path_of(n))),
{
    let path = script_path_of(n);
    reveal_strlit("MacRW:rustcmd-");
    reveal_strlit(".aros");
    digits_are_plain(n as nat);
    assert forall|i: int| 0 <= i < path.len() implies '\0' < #[trigger] path[i] <= '\u{7f}' by {
        let head = "MacRW:rustcmd-"@;
        let middle = digits(n as nat);
        if i < head.len() {
            assert(path[i] == head[i]);
        } else if i < head.len() + middle.len() {
            assert(path[i] == middle[i - head.len()]);
        } else {
            assert(path[i] == ".aros"@[i - head.len() - middle.len()]);
        }
    }
    is_ascii_chars_encode_utf8(path);
    let bytes = encode_utf8(path);
    assert forall|i: int| 0 <= i < bytes.len() implies #[trigger] bytes[i] != 0 by {
        assert(path[i] as u8 == bytes[i]);
    }
}

/// Two numbers give two script paths.
pub proof fn script_paths_differ(a: u32, b: u32)
    requires
        a != b,
    ensures
        script_path_of(a) != script_path_of(b),
{
    let head = "MacRW:rustcmd-"@.len() as int;
    let tail = ".aros"@.len() as int;
    let x = script_path_of(a);
    let y = script_path_of(b);
    assert(x.subrange(head, x.len() - tail) == digits(a as nat));
    assert(y.subrange(head, y.len() - tail) == digits(b as nat));
    digits_are_unique(a as nat, b as nat);
}

/// The path of the script with a number.
pub fn script_path(n: u32) -> (path: String)
    ensures
        path@ == script_path_of(n),
{
    let mut path: String = String::from_str("MacRW:rustcmd-");
    push_decimal(&mut path, n as i64);
    path.append(".aros");
    path
}

// ------------------------------------------------------------------------------------
// Writing a script
// ------------------------------------------------------------------------------------

/// The options a script is opened with: for writing, made where there is none, and emptied.
pub open spec fn script_options() -> OpenOptions {
    OpenOptions {
        read: false,
        write: true,
        append: false,
        truncate: true,
        create: true,
        create_new: false,
    }
}

/// Writing a script.
pub enum WriteScript {
    /// The file is being opened.
    Opening { path: CString, flags: i32, data: Vec<u8> },
    /// What is left is being written.
    Writing { file: File, rest: Vec<u8> },
    /// The file is being closed.
    Closing { file: File, result: Result<(), Error> },
}

/// What follows once only `rest` is left to be written to a file.
pub open spec fn writes_on(
    step: Step<WriteScript, Result<(), Error>>,
    fd: i32,
    rest: Seq<u8>,
) -> bool {
    if rest.len() > 0 {
        step matches Step::Ask(WriteScript::Writing { file, rest: r }) && file@ == fd && r@ == rest
    } else {
        closes_with(step, fd, Ok(()))
    }
}

/// The file is closed, after which the writing is over.
pub open spec fn closes_with(
    step: Step<WriteScript, Result<(), Error>>,
    fd: i32,
    result: Result<(), Error>,
) -> bool {
    step matches Step::Ask(WriteScript::Closing { file, result: r }) && file@ == fd && r == result
}

/// Starts to write a script.
pub fn write_script(path: &[u8], data: Vec<u8>) -> (r: Result<WriteScript, Error>)
    ensures
        match r {
            Ok(op) => nul_free(path@) && (op matches WriteScript::Opening { path: p, flags, data: d }
                && p@ == translated(path@) && flags == script_options().open_flags() && d == data),
            Err(e) => !nul_free(path@) && e == Error::Simple(ErrorKind::InvalidInput),
        },
{
    let mut opts: OpenOptions = OpenOptions::new();
    opts.write(true);
    opts.create(true);
    opts.truncate(true);
    match File::open(path, &opts) {
        Ok(request) => match request.call {
            FsCall::Open { path, flags, creation_mode: _ } => Ok(
                WriteScript::Opening { path, flags, data },
            ),
            _ => Err(Error::Simple(ErrorKind::InvalidInput)),
        },
        Err(e) => Err(e),
    }
}

impl Operation for WriteScript {
    type Call = FsCall;

    type Reply = FsReply;

    type Output = Result<(), Error>;

    open spec fn asks(self, call: FsCall) -> bool {
        match self {
            WriteScript::Opening { path, flags, data } => call matches FsCall::Open {
                path: p,
                flags: f,
                creation_mode,
            } && p@ == path@ && f == flags && creation_mode == 0o666,
            WriteScript::Writing { file, rest } => call matches FsCall::Write { fd, data } && fd
                == file@ && data@ == rest@,
            WriteScript::Closing { file, result } => call == (FsCall::Close { fd: file@ }),
        }
    }

    open spec fn accepts(self, reply: FsReply) -> bool {
        match self {
            WriteScript::Opening { path, flags, data } => reply.ret <= i32::MAX,
            WriteScript::Writing { file, rest } => reply.ret <= rest@.len(),
            WriteScript::Closing { file, result } => true,
        }
    }

    /// A write that writes nothing ends it, for another one would write nothing either.
    open spec fn leads_to(
        self,
        reply: FsReply,
        step: Step<WriteScript, Result<(), Error>>,
    ) -> bool {
        match self {
            WriteScript::Opening { path, flags, data } => if reply.ret < 0 {
                step == Step::<WriteScript, Result<(), Error>>::Done(Err(Error::Os(reply.errno)))
            } else {
                writes_on(step, reply.ret as i32, data@)
            },
            WriteScript::Writing { file, rest } => if reply.ret < 0 {
                closes_with(step, file@, Err(Error::Os(reply.errno)))
            } else if reply.ret == 0 {
                closes_with(
                    step,
                    file@,
                    Err(Error::Message(ErrorKind::WriteZero, "short script write")),
                )
            } else {
                writes_on(step, file@, rest@.skip(reply.ret as int))
            },
            WriteScript::Closing { file, result } => step == Step::<
                WriteScript,
                Result<(), Error>,
            >::Done(result),
        }
    }

    fn call(&self) -> (call: FsCall) {
        match self {
            WriteScript::Opening { path, flags, data: _ } => FsCall::Open {
                path: path.duplicate(),
                flags: *flags,
                creation_mode: 0o666,
            },
            WriteScript::Writing { file, rest } => FsCall::Write {
                fd: file.descriptor(),
                data: copy_of(rest.as_slice()),
            },
            WriteScript::Closing { file, result: _ } => FsCall::Close { fd: file.descriptor() },
        }
    }

    fn resume(self, reply: FsReply) -> (step: Step<WriteScript, Result<(), Error>>) {
        match self {
            WriteScript::Opening { path: _, flags: _, data } => match Opened.decode(reply) {
                Ok(file) => if data.len() > 0 {
                    Step::Ask(WriteScript::Writing { file, rest: data })
                } else {
                    Step::Ask(WriteScript::Closing { file, result: Ok(()) })
                },
                Err(e) => Step::Done(Err(e)),
            },
            WriteScript::Writing { file, rest } => {
                let len: usize = rest.len();
                let result: Result<(), Error> = match Count.decode(reply) {
                    Ok(n) => {
                        if 0 < n && n < len {
                            let left: Vec<u8> = copy_range(rest.as_slice(), n, len);
                            assert(left@ == rest@.skip(n as int));
                            return Step::Ask(WriteScript::Writing { file, rest: left });
                        }
                        if n == 0 {
                            Err(Error::Message(ErrorKind::WriteZero, "short script write"))
                        } else {
                            Ok(())
                        }
                    },
                    Err(e) => Err(e),
                };
                Step::Ask(WriteScript::Closing { file, result })
            },
            WriteScript::Closing { file: _, result } => Step::Done(result),
        }
    }
}

/// The bytes that the system took over while a script was written: of each piece it was
/// handed, the part that it says it wrote.
pub open spec fn taken(ops: Seq<WriteScript>, replies: Seq<FsReply>) -> Seq<u8>
    decreases replies.len(),
{
    if replies.len() == 0 {
        Seq::empty()
    } else {
        taken(ops, replies.drop_last()) + (match ops[replies.len() - 1] {
            WriteScript::Writing { file, rest } => rest@.take(replies.last().ret as int),
            _ => Seq::empty(),
        })
    }
}

proof fn taken_so_far(ops: Seq<WriteScript>, replies: Seq<FsReply>, data: Seq<u8>)
    requires
        runs(ops, replies),
        ops[0] matches WriteScript::Writing { file, rest } && rest@ == data,
    ensures
        match ops.last() {
            WriteScript::Writing { file, rest } => taken(ops, replies) + rest@ == data,
            WriteScript::Closing { file, result } => result is Ok ==> taken(ops, replies) == data,
            _ => false,
        },
    decreases replies.len(),
{
    let n = replies.len() as int;
    if n == 0 {
        assert(taken(ops, replies) + data == data);
    } else {
        runs_before(ops, replies);
        taken_so_far(ops.drop_last(), replies.drop_last(), data);
        taken_prefix(ops, replies.drop_last());
        if let WriteScript::Writing { file, rest } = ops[n - 1] {
            let r = replies[n - 1].ret as int;
            if r > 0 {
                let before = taken(ops, replies.drop_last());
                assert(before + rest@.take(r) + rest@.skip(r) == before + rest@);
                assert(rest@.skip(r).len() == 0 ==> rest@.take(r) == rest@);
            }
        }
    }
}

proof fn taken_prefix(ops: Seq<WriteScript>, replies: Seq<FsReply>)
    requires
        ops.len() > replies.len() + 1,
    ensures
        taken(ops, replies) == taken(ops.drop_last(), replies),
    decreases replies.len(),
{
    if replies.len() > 0 {
        taken_prefix(ops, replies.drop_last());
    }
}

/// A script whose writing comes to a good end has been taken over by the system whole,
/// in order and each byte once, in however many pieces.
pub proof fn a_script_is_written_whole(
    ops: Seq<WriteScript>,
    replies: Seq<FsReply>,
    data: Seq<u8>,
)
    requires
        runs(ops, replies),
        ops[0] matches WriteScript::Writing { file, rest } && rest@ == data,
        ops.last() matches WriteScript::Closing { file, result } && result is Ok,
    ensures
        taken(ops, replies) == data,
{
    taken_so_far(ops, replies, data);
}

// ------------------------------------------------------------------------------------
// Reading a file whole
// ------------------------------------------------------------------------------------

/// The options a file is read with.
pub open spec fn reading_options() -> OpenOptions {
    OpenOptions {
        read: true,
        write: false,
        append: false,
        truncate: false,
        create: false,
        create_new: false,
    }
}

/// Reading a file whole. Where it fails, there is nothing.
pub enum Slurp {
    /// The file is being opened.
    Opening { path: CString, flags: i32 },
    /// The file is being read.
    Reading { file: File, out: Vec<u8> },
    /// The file is being closed.
    Closing { file: File, out: Vec<u8> },
}

/// Starts to read a file whole. A path that is refused reads as an empty file.
pub fn slurp(path: &[u8]) -> (step: Step<Slurp, Vec<u8>>)
    ensures
        match step {
            Step::Ask(op) => nul_free(path@) && (op matches Slurp::Opening { path: p, flags } && p@
                == translated(path@) && flags == reading_options().open_flags()),
            Step::Done(out) => !nul_free(path@) && out@.len() == 0,
        },
{
    let mut opts: OpenOptions = OpenOptions::new();
    opts.read(true);
    match File::open(path, &opts) {
        Ok(request) => match request.call {
            FsCall::Open { path, flags, creation_mode: _ } => Step::Ask(
                Slurp::Opening { path, flags },
            ),
            _ => Step::Done(Vec::new()),
        },
        Err(_) => Step::Done(Vec::new()),
    }
}

impl Operation for Slurp {
    type Call = FsCall;

    type Reply = FsReply;

    type Output = Vec<u8>;

    open spec fn asks(self, call: FsCall) -> bool {
        match self {
            Slurp::Opening { path, flags } => call matches FsCall::Open {
                path: p,
                flags: f,
                creation_mode,
            } && p@ == path@ && f == flags && creation_mode == 0o666,
            Slurp::Reading { file, out } => call == (FsCall::Read { fd: file@, len: CHUNK }),
            Slurp::Closing { file, out } => call == (FsCall::Close { fd: file@ }),
        }
    }

    open spec fn accepts(self, reply: FsReply) -> bool {
        match self {
            Slurp::Opening { path, flags } => reply.ret <= i32::MAX,
            Slurp::Reading { file, out } => reply.ret <= reply.bytes@.len() <= CHUNK,
            Slurp::Closing { file, out } => true,
        }
    }

    open spec fn leads_to(self, reply: FsReply, step: Step<Slurp, Vec<u8>>) -> bool {
        match self {
            Slurp::Opening { path, flags } => if reply.ret < 0 {
                step matches Step::Done(out) && out@.len() == 0
            } else {
                step matches Step::Ask(Slurp::Reading { file, out }) && file@ == reply.ret
                    && out@.len() == 0
            },
            Slurp::Reading { file, out } => if reply.ret < 0 {
                step matches Step::Ask(Slurp::Closing { file: f, out: o }) && f == file && o@.len()
                    == 0
            } else if reply.ret == 0 {
                step matches Step::Ask(Slurp::Closing { file: f, out: o }) && f == file && o == out
            } else {
                step matches Step::Ask(Slurp::Reading { file: f, out: o }) && f == file && o@
                    == out@ + reply.bytes@.take(reply.ret as int)
            },
            Slurp::Closing { file, out } => step matches Step::Done(o) && o == out,
        }
    }

    fn call(&self) -> (call: FsCall) {
        match self {
            Slurp::Opening { path, flags } => FsCall::Open {
                path: path.duplicate(),
                flags: *flags,
                creation_mode: 0o666,
            },
            Slurp::Reading { file, out: _ } => FsCall::Read { fd: file.descriptor(), len: CHUNK },
            Slurp::Closing { file, out: _ } => FsCall::Close { fd: file.descriptor() },
        }
    }

    fn resume(self, reply: FsReply) -> (step: Step<Slurp, Vec<u8>>) {
        match self {
            Slurp::Opening { path: _, flags: _ } => match Opened.decode(reply) {
                Ok(file) => Step::Ask(Slurp::Reading { file, out: Vec::new() }),
                Err(_) => Step::Done(Vec::new()),
            },
            Slurp::Reading { file, mut out } => {
                if reply.ret < 0 {
                    return Step::Ask(Slurp::Closing { file, out: Vec::new() });
                }
                if reply.ret == 0 {
                    return Step::Ask(Slurp::Closing { file, out });
                }
                let n: usize = reply.ret as usize;
                append_range(&mut out, reply.bytes.as_slice(), 0, n);
                Step::Ask(Slurp::Reading { file, out })
            },
            Slurp::Closing { file: _, out } => Step::Done(out),
        }
    }
}

/// The bytes that some answers bring of a file that is read whole, in order.
pub open spec fn file_bytes(ops: Seq<Slurp>, replies: Seq<FsReply>) -> Seq<u8>
    decreases replies.len(),
{
    if replies.len() == 0 {
        Seq::empty()
    } else {
        file_bytes(ops, replies.drop_last()) + (if ops[replies.len() - 1] is Reading
            && replies.last().ret > 0 {
            replies.last().bytes@.take(replies.last().ret as int)
        } else {
            Seq::empty()
        })
    }
}

proof fn file_bytes_before(ops: Seq<Slurp>, replies: Seq<FsReply>)
    requires
        ops.len() > replies.len() + 1,
    ensures
        file_bytes(ops, replies) == file_bytes(ops.drop_last(), replies),
    decreases replies.len(),
{
    if replies.len() > 0 {
        file_bytes_before(ops, replies.drop_last());
    }
}

/// A file that is read whole is all that was read of it, in order, where its end was reached,
/// and empty where a read failed.
pub proof fn a_file_is_read_in_order(ops: Seq<Slurp>, replies: Seq<FsReply>)
    requires
        runs(ops, replies),
        ops[0] is Opening,
    ensures
        match ops.last() {
            Slurp::Opening { path, flags } => file_bytes(ops, replies) == Seq::<u8>::empty(),
            Slurp::Reading { file, out } => out@ == file_bytes(ops, replies),
            Slurp::Closing { file, out } => if replies.last().ret < 0 {
                out@.len() == 0
            } else {
                replies.last().ret == 0 && out@ == file_bytes(ops, replies)
            },
        },
    decreases replies.len(),
{
    if replies.len() > 0 {
        runs_before(ops, replies);
        a_file_is_read_in_order(ops.drop_last(), replies.drop_last());
        file_bytes_before(ops, replies.drop_last());
    }
}

/// A script lies in the place for scratch files, under a name that ends in its number.
pub proof fn a_script_has_its_number_in_its_path(n: u32, path: String)
    requires
        call_ensures(script_path, (n,), path),
    ensures
        path@ == "MacRW:rustcmd-"@ + digits(n as nat) + ".aros"@,
{
}

/// A script is opened at its path to be written from its beginning, made where there is none;
/// a file that is read whole is opened only to be read.
pub proof fn scripts_are_written_and_files_are_read(
    path: &[u8],
    data: Vec<u8>,
    r: Result<WriteScript, Error>,
    step: Step<Slurp, Vec<u8>>,
)
    requires
        call_ensures(write_script, (path, data), r),
        call_ensures(slurp, (path,), step),
    ensures
        r is Ok <==> nul_free(path@),
        r matches Err(e) ==> e == Error::Simple(ErrorKind::InvalidInput),
        r matches Ok(op) ==> {
            &&& op matches WriteScript::Opening { path: p, flags, data: d } && d@ == data@
            &&& forall|call: FsCall| #[trigger]
                op.asks(call) ==> (call matches FsCall::Open { path: p, flags, creation_mode }
                    && p@ == translated(path@) && flags == 0x242 && creation_mode == 0o666)
        },
        step is Ask <==> nul_free(path@),
        step matches Step::Done(out) ==> out@.len() == 0,
        step matches Step::Ask(op) ==> {
            &&& op is Opening
            &&& forall|call: FsCall| #[trigger]
                op.asks(call) ==> (call matches FsCall::Open { path: p, flags, creation_mode }
                    && p@ == translated(path@) && flags == 1 && creation_mode == 0o666)
        },
{
    assert(2i32 | 0 | (0x40 | 0x200) == 0x242 && 1i32 | 0 | 0 == 1) by (bit_vector);
}

/// A script is written to the file that was opened for it, all that is left of it at a time;
/// what the system took is not written again, and the rest is, until nothing is left. A write
/// that takes nothing or fails ends it with an error, and the file is closed in any case.
pub proof fn what_was_taken_is_not_written_again(
    op: WriteScript,
    reply: FsReply,
    step: Step<WriteScript, Result<(), Error>>,
)
    requires
        op.accepts(reply),
        op.leads_to(reply, step),
    ensures
        op matches WriteScript::Opening { path, flags, data } ==> {
            &&& reply.ret < 0 ==> step == Step::<WriteScript, Result<(), Error>>::Done(
                Err(Error::Os(reply.errno)),
            )
            &&& reply.ret >= 0 && data@.len() > 0 ==> (step matches Step::Ask(
                WriteScript::Writing { file, rest },
            ) && file@ == reply.ret && rest@ == data@)
            &&& reply.ret >= 0 && data@.len() == 0 ==> (step matches Step::Ask(
                WriteScript::Closing { file, result },
            ) && file@ == reply.ret && result is Ok)
        },
        op matches WriteScript::Writing { file, rest } ==> {
            &&& forall|call: FsCall| #[trigger]
                op.asks(call) ==> (call matches FsCall::Write { fd, data } && fd == file@ && data@
                    == rest@)
            &&& reply.ret > 0 && reply.ret < rest@.len() ==> (step matches Step::Ask(
                WriteScript::Writing { file: f, rest: r },
            ) && f@ == file@ && r@ == rest@.skip(reply.ret as int))
            &&& reply.ret > 0 && reply.ret == rest@.len() ==> (step matches Step::Ask(
                WriteScript::Closing { file: f, result },
            ) && f@ == file@ && result is Ok)
            &&& reply.ret == 0 ==> (step matches Step::Ask(
                WriteScript::Closing { file: f, result },
            ) && f@ == file@ && result == Err::<(), Error>(
                Error::Message(ErrorKind::WriteZero, "short script write"),
            ))
            &&& reply.ret < 0 ==> (step matches Step::Ask(
                WriteScript::Closing { file: f, result },
            ) && f@ == file@ && result == Err::<(), Error>(Error::Os(reply.errno)))
        },
        op matches WriteScript::Closing { file, result } ==> {
            &&& forall|call: FsCall| #[trigger]
                op.asks(call) ==> call == (FsCall::Close { fd: file@ })
            &&& step == Step::<WriteScript, Result<(), Error>>::Done(result)
        },
{
}

/// A file that is read whole is read from the file that was opened for it and closed again.
/// What a read brings goes behind what is there, the end gives all of it, and a failure gives
/// nothing.
pub proof fn what_was_read_goes_behind_what_is_there(
    op: Slurp,
    reply: FsReply,
    step: Step<Slurp, Vec<u8>>,
)
    requires
        op.accepts(reply),
        op.leads_to(reply, step),
    ensures
        op is Opening ==> {
            &&& reply.ret < 0 ==> (step matches Step::Done(out) && out@.len() == 0)
            &&& reply.ret >= 0 ==> (step matches Step::Ask(Slurp::Reading { file, out }) && file@
                == reply.ret && out@.len() == 0)
        },
        op matches Slurp::Reading { file, out } ==> {
            &&& forall|call: FsCall| #[trigger]
                op.asks(call) ==> call == (FsCall::Read { fd: file@, len: 4096 })
            &&& reply.ret > 0 ==> (step matches Step::Ask(Slurp::Reading { file: f, out: o }) && f@
                == file@ && o@ == out@ + reply.bytes@.take(reply.ret as int))
            &&& reply.ret == 0 ==> (step matches Step::Ask(Slurp::Closing { file: f, out: o })
                && f@ == file@ && o@ == out@)
            &&& reply.ret < 0 ==> (step matches Step::Ask(Slurp::Closing { file: f, out: o })
                && f@ == file@ && o@.len() == 0)
        },
        op matches Slurp::Closing { file, out } ==> {
            &&& forall|call: FsCall| #[trigger]
                op.asks(call) ==> call == (FsCall::Close { fd: file@ })
            &&& step matches Step::Done(o) && o@ == out@
        },
{
}

} // verus!
