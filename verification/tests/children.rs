use aros_pal::error::{Error, ErrorKind};
use aros_pal::fs::call::{FsCall, FsReply};
use aros_pal::fs::file::Opened;
use aros_pal::op::{Decode, Operation, Step};
use aros_pal::pipe::{pipe, Pipe, PipeCall, PipeReply, ReadToEnd, PIPE_EMPTY};
use aros_pal::process::call::{ChildCall, ChildReply};
use aros_pal::process::child::Process;
use aros_pal::process::command::{cstr, disposition, Command, Resolved, Stdio};
use aros_pal::process::env::{CommandEnv, EnvVar};
use aros_pal::process::output::{output, read_output, Captured};
use aros_pal::process::quote::{quote_into, quote_text};
use aros_pal::process::script::{script_path, slurp, write_script};
use aros_pal::process::spawn::{spawn_error, Started};
use aros_pal::process::status::{getpid, ExitCode, ExitStatus};
use aros_pal::stdio::{Stderr, Stdout};
use aros_pal::text::CString;

fn c(s: &str) -> CString {
    CString::new(s.as_bytes().to_vec()).expect("no NUL")
}

fn run<O: Operation>(op: O, replies: Vec<O::Reply>) -> (Vec<O::Call>, Option<O::Output>) {
    let mut calls = Vec::new();
    let mut op = op;
    for reply in replies {
        calls.push(op.call());
        match op.resume(reply) {
            Step::Ask(next) => op = next,
            Step::Done(out) => return (calls, Some(out)),
        }
    }
    (calls, None)
}

fn begin<O: Operation>(step: Step<O, O::Output>) -> O {
    match step {
        Step::Ask(op) => op,
        Step::Done(_) => panic!("over at once"),
    }
}

fn quoted(s: &str) -> String {
    let mut out = String::new();
    quote_into(s.as_bytes(), &mut out);
    out
}

fn fs(ret: i64, errno: i32) -> ChildReply {
    ChildReply::Fs(FsReply::number(ret, errno))
}

fn piped(ret: i64, errno: i32, bytes: &[u8]) -> ChildReply {
    ChildReply::Pipe(PipeReply { ret, errno, bytes: bytes.to_vec() })
}

fn spawned(handle: i64, input: i64, output: i64, errors: i64) -> ChildReply {
    ChildReply::Spawned { handle, input, output, errors }
}

fn command(words: &[&str]) -> Command {
    let mut cmd = Command::new(words[0].as_bytes());
    for w in &words[1..] {
        cmd.arg(w.as_bytes());
    }
    cmd
}

#[test]
fn words_are_quoted_where_the_shell_needs_it() {
    assert_eq!(quoted("List"), "List");
    assert_eq!(quoted(""), "\"\"");
    assert_eq!(quoted("two words"), "\"two words\"");
    assert_eq!(quoted("a\"b"), "\"a*\"b\"");
    assert_eq!(quoted("a*b"), "\"a**b\"");
    assert_eq!(quoted("a\nb"), "\"a*nb\"");
    assert_eq!(quoted("a\tb"), "\"a\tb\"");
    let mut out = String::from("x ");
    quote_text("y z", &mut out);
    assert_eq!(out, "x \"y z\"");
}

#[test]
fn bytes_that_are_no_text_are_replaced_in_words() {
    let mut out = String::new();
    quote_into(b"a\xffb", &mut out);
    assert_eq!(out, "a\u{fffd}b");
}

#[test]
fn a_command_line_is_the_program_and_its_arguments() {
    assert_eq!(command(&["C:List", "RAM:", "two words"]).command_line(), "C:List RAM: \"two words\"");
    assert_eq!(command(&["C:List"]).command_line(), "C:List");
    assert_eq!(command(&["echo", ""]).command_line(), "echo \"\"");
}

#[test]
fn an_empty_program_is_no_command() {
    assert_eq!(command(&[""]).command_line(), "");
    assert_eq!(command(&["", "x"]).command_line(), "x");
}

#[test]
fn the_environment_is_set_line_by_line() {
    let mut cmd = command(&["x"]);
    cmd.env_mut().set(b"B", b"two words");
    cmd.env_mut().set(b"A", b"1");
    cmd.env_mut().remove(b"C");
    assert_eq!(cmd.setup_lines(), "Set A 1\nSet B \"two words\"\nUnset C\n");
    assert_eq!(command(&["x"]).setup_lines(), "");
}

#[test]
fn a_changed_environment_takes_a_script() {
    let mut cmd = command(&["make", "all"]);
    match cmd.resolve() {
        Resolved::Line(line) => assert_eq!(line, "make all"),
        Resolved::Script(_) => panic!("script"),
    }
    cmd.cwd(b"Work:my dir");
    match cmd.resolve() {
        Resolved::Line(line) => assert_eq!(line, "make all"),
        Resolved::Script(_) => panic!("script"),
    }
    cmd.env_mut().set(b"A", b"1");
    match cmd.resolve() {
        Resolved::Script(text) => {
            assert_eq!(text, "CD \"Work:my dir\"\nSet A 1\nmake all\n")
        }
        Resolved::Line(_) => panic!("line"),
    }
    let mut shell = command(&[""]);
    shell.env_mut().set(b"A", b"1");
    match shell.resolve() {
        Resolved::Line(line) => assert_eq!(line, ""),
        Resolved::Script(_) => panic!("script"),
    }
}

#[test]
fn a_command_remembers_what_it_was_given() {
    let mut cmd = command(&["p", "a", "b"]);
    assert_eq!(cmd.get_program(), &b"p"[..]);
    let mut args = cmd.get_args();
    assert_eq!((args.len(), args.is_empty(), args.size_hint()), (2, false, (2, Some(2))));
    assert_eq!(args.next(), Some(&b"a"[..]));
    assert_eq!(args.next(), Some(&b"b"[..]));
    assert_eq!(args.next(), None);
    assert!(cmd.get_current_dir().is_none());
    cmd.cwd(b"d");
    assert_eq!(cmd.get_current_dir(), Some(&b"d"[..]));
    assert!(!cmd.get_env_clear());
    cmd.env_mut().clear();
    assert!(cmd.get_env_clear());
}

#[test]
fn a_cleared_environment_forgets_what_was_there() {
    let current = vec![
        EnvVar { key: b"HOME".to_vec(), value: Some(b"SYS:".to_vec()) },
        EnvVar { key: b"X".to_vec(), value: Some(b"0".to_vec()) },
    ];
    let mut env = CommandEnv::new();
    env.set(b"X", b"1");
    env.remove(b"HOME");
    let table = env.capture(&current);
    assert_eq!(table.vars().len(), 1);
    assert_eq!(table.vars()[0].key, b"X".to_vec());
    assert_eq!(table.vars()[0].value, Some(b"1".to_vec()));
    env.clear();
    assert!(env.does_clear() && env.iter().is_empty());
    assert!(env.capture(&current).vars().is_empty());
}

#[test]
fn streams_are_told_to_the_system() {
    assert_eq!(disposition(Some(&Stdio::MakePipe)), 1);
    assert_eq!(disposition(Some(&Stdio::Null)), 2);
    assert_eq!(disposition(Some(&Stdio::Inherit)), 0);
    assert_eq!(disposition(Some(&Stdio::from(Stdout::new()))), 0);
    assert_eq!(disposition(Some(&Stdio::from(Stderr::new()))), 0);
    let file = Opened.decode(FsReply::number(3, 0)).expect("open");
    assert_eq!(disposition(Some(&Stdio::from(file))), 0);
    assert_eq!(disposition(None), 0);
    let (stdio, call) = Stdio::from_pipe(Pipe::from_handle(9));
    assert_eq!(disposition(Some(&stdio)), 2);
    assert_eq!(call, Some(PipeCall::Close { fh: 9 }));
}

#[test]
fn an_input_that_nobody_writes_to_is_connected_to_nothing() {
    let mut cmd = command(&["x"]);
    assert_eq!(cmd.modes(&Stdio::Inherit, true), (0, 0, 0));
    assert_eq!(cmd.modes(&Stdio::MakePipe, false), (2, 1, 1));
    cmd.stdin(Stdio::MakePipe);
    cmd.stdout(Stdio::Null);
    cmd.stderr(Stdio::Inherit);
    assert_eq!(cmd.modes(&Stdio::MakePipe, false), (1, 2, 0));
}

#[test]
fn files_of_a_command_are_closed_with_it() {
    let file = |fd: i64| Opened.decode(FsReply::number(fd, 0)).expect("open");
    let mut cmd = command(&["x"]);
    assert!(cmd.stdout(Stdio::from(file(3))).is_none());
    let before = cmd.stdout(Stdio::from(file(4)));
    assert_eq!(before.and_then(|s| s.close()), Some(FsCall::Close { fd: 3 }));
    cmd.stdin(Stdio::from(file(5)));
    cmd.stderr(Stdio::Null);
    assert_eq!(cmd.close(), vec![FsCall::Close { fd: 5 }, FsCall::Close { fd: 4 }]);
    assert_eq!(Stdio::MakePipe.close(), None);
}

#[test]
fn changes_of_the_environment_are_told_in_order() {
    let mut cmd = command(&["x"]);
    cmd.env_mut().set(b"b", b"2");
    cmd.env_mut().set(b"a", b"0");
    cmd.env_mut().set(b"a", b"1");
    cmd.env_mut().remove(b"c");
    let keys: Vec<Vec<u8>> = cmd.get_envs().iter().map(|v| v.key.clone()).collect();
    assert_eq!(keys, vec![b"a".to_vec(), b"b".to_vec(), b"c".to_vec()]);
    assert_eq!(cmd.get_envs()[0].value, Some(b"1".to_vec()));
    assert_eq!(cmd.get_envs()[2].value, None);
    let current = vec![EnvVar { key: b"c".to_vec(), value: Some(b"3".to_vec()) }];
    assert_eq!(cmd.get_resolved_envs(&current).vars().len(), 2);
}

#[test]
fn a_text_with_a_nul_is_no_command() {
    assert_eq!(
        cstr("a\0b").err(),
        Some(Error::Message(ErrorKind::InvalidInput, "command contains a NUL byte"))
    );
    assert_eq!(cstr("\u{e4}").expect("no NUL").as_bytes(), "\u{e4}".as_bytes());
}

#[test]
fn a_plain_command_is_started_by_its_line() {
    let op = begin(command(&["C:List", "RAM:"]).spawn(&Stdio::MakePipe, true));
    let (calls, out) = run(op, vec![spawned(1, 11, 12, 0)]);
    assert_eq!(
        calls,
        vec![ChildCall::Spawn {
            line: c("C:List RAM:"),
            in_mode: 1,
            out_mode: 1,
            err_mode: 1,
            interactive: 0,
            cwd: None,
        }]
    );
    let (process, pipes) = out.expect("over").expect("started");
    assert_eq!(process.id(), 0);
    assert_eq!(pipes.stdin, Some(Pipe::from_handle(11)));
    assert_eq!(pipes.stdout, Some(Pipe::from_handle(12)));
    assert_eq!(pipes.stderr, None);
}

#[test]
fn a_nul_stops_a_start_before_any_call() {
    let refused = Some(Error::Message(ErrorKind::InvalidInput, "command contains a NUL byte"));
    match command(&["a\0"]).spawn(&Stdio::Inherit, true) {
        Step::Done(r) => assert_eq!(r.err(), refused),
        Step::Ask(_) => panic!("asked"),
    }
    let mut cmd = command(&["a"]);
    cmd.cwd(b"d\0");
    match cmd.spawn(&Stdio::Inherit, true) {
        Step::Done(r) => assert_eq!(r.err(), refused),
        Step::Ask(_) => panic!("asked"),
    }
}

#[test]
fn a_script_is_written_in_as_many_pieces_as_it_takes() {
    let mut cmd = command(&["make"]);
    cmd.env_mut().set(b"A", b"1");
    cmd.cwd(b"Work:");
    let op = begin(cmd.spawn(&Stdio::Inherit, true));
    let (calls, out) = run(
        op,
        vec![ChildReply::Script(3), fs(4, 0), fs(9, 0), fs(13, 0), fs(0, 0), spawned(8, 0, 0, 0)],
    );
    let text = b"CD Work:\nSet A 1\nmake\n".to_vec();
    assert_eq!(calls[0], ChildCall::NextScript);
    assert_eq!(
        calls[1],
        ChildCall::Fs(FsCall::Open {
            path: c("MacRW:rustcmd-3.aros"),
            flags: 0x242,
            creation_mode: 0o666,
        })
    );
    assert_eq!(calls[2], ChildCall::Fs(FsCall::Write { fd: 4, data: text.clone() }));
    assert_eq!(calls[3], ChildCall::Fs(FsCall::Write { fd: 4, data: text[9..].to_vec() }));
    assert_eq!(calls[4], ChildCall::Fs(FsCall::Close { fd: 4 }));
    match &calls[5] {
        ChildCall::Spawn { cwd, .. } => assert_eq!(cwd, &Some(c("Work:"))),
        other => panic!("{:?}", other),
    }
    assert!(out.expect("over").is_ok());
}

fn scripted(replies: Vec<ChildReply>) -> (Vec<ChildCall>, Option<Started>) {
    let mut cmd = command(&["make"]);
    cmd.env_mut().set(b"A", b"1");
    let op = begin(cmd.spawn(&Stdio::Inherit, true));
    run(op, replies)
}

#[test]
fn a_child_that_runs_a_script_is_started_once_the_script_is_closed() {
    let (calls, out) =
        scripted(vec![ChildReply::Script(0), fs(4, 0), fs(13, 0), fs(0, 0), spawned(8, 0, 0, 0)]);
    assert_eq!(calls[2], ChildCall::Fs(FsCall::Write { fd: 4, data: b"Set A 1\nmake\n".to_vec() }));
    assert_eq!(calls[3], ChildCall::Fs(FsCall::Close { fd: 4 }));
    match &calls[4] {
        ChildCall::Spawn { line, interactive, .. } => {
            assert_eq!(line, &c("Execute MacRW:rustcmd-0.aros"));
            assert_eq!(*interactive, 0);
        }
        other => panic!("{:?}", other),
    }
    let (process, _) = out.expect("over").expect("started");
    let (calls, out) = run(begin(process.try_wait()), vec![
        ChildReply::Exited { exited: 1, code: 5 },
        fs(0, 0),
    ]);
    assert_eq!(calls[0], ChildCall::Exited { handle: 8, code: 0 });
    assert_eq!(calls[1], ChildCall::Fs(FsCall::Unlink { path: c("MacRW:rustcmd-0.aros") }));
    let (process, r) = out.expect("over");
    assert_eq!(r, Ok(Some(ExitStatus::from_code(5))));
    let (calls, out) = run(process.close(), vec![ChildReply::Nothing]);
    assert_eq!(calls, vec![ChildCall::Free { handle: 8 }]);
    assert!(out.is_some());
}

#[test]
fn a_script_is_removed_where_its_child_is_not_started() {
    let (calls, out) = scripted(vec![
        ChildReply::Script(7),
        fs(4, 0),
        fs(13, 0),
        fs(0, 0),
        spawned(0, 0, 0, 0),
        fs(-1, 2),
        ChildReply::Failed { why: 6, ioerr: 205, step: 0 },
    ]);
    assert_eq!(calls[5], ChildCall::Fs(FsCall::Unlink { path: c("MacRW:rustcmd-7.aros") }));
    assert_eq!(calls[6], ChildCall::LastFail);
    assert_eq!(
        out.expect("over").err(),
        Some(Error::Custom(
            ErrorKind::Other,
            String::from("the shell could not be started (dos error 205)")
        ))
    );
}

#[test]
fn a_script_that_cannot_be_written_starts_nothing() {
    let (calls, out) = scripted(vec![ChildReply::Script(0), fs(-1, 13)]);
    assert_eq!(calls.len(), 2);
    assert_eq!(out.expect("over").err(), Some(Error::Os(13)));
    let (calls, out) = scripted(vec![ChildReply::Script(0), fs(4, 0), fs(0, 0), fs(0, 0)]);
    assert_eq!(calls[3], ChildCall::Fs(FsCall::Close { fd: 4 }));
    assert_eq!(
        out.expect("over").err(),
        Some(Error::Message(ErrorKind::WriteZero, "short script write"))
    );
    let (calls, out) = scripted(vec![ChildReply::Script(0), fs(4, 0), fs(-1, 28), fs(0, 0)]);
    assert_eq!(calls[3], ChildCall::Fs(FsCall::Close { fd: 4 }));
    assert_eq!(out.expect("over").err(), Some(Error::Os(28)));
}

fn shell(replies: Vec<ChildReply>) -> (Vec<ChildCall>, Option<Started>) {
    let mut cmd = command(&[""]);
    cmd.env_mut().set(b"A", b"1");
    let op = begin(cmd.spawn(&Stdio::MakePipe, true));
    run(op, replies)
}

#[test]
fn a_shell_is_told_its_environment_first() {
    let (calls, out) = shell(vec![spawned(8, 11, 12, 13), piped(8, 0, b"")]);
    match &calls[0] {
        ChildCall::Spawn { line, interactive, .. } => {
            assert_eq!(line, &c(""));
            assert_eq!(*interactive, 1);
        }
        other => panic!("{:?}", other),
    }
    assert_eq!(
        calls[1],
        ChildCall::Pipe(PipeCall::Write { fh: 11, data: b"Set A 1\n".to_vec() })
    );
    assert!(out.expect("over").is_ok());
}

#[test]
fn a_shell_without_a_pipe_is_told_nothing() {
    let (calls, out) = shell(vec![spawned(8, 0, 12, 13)]);
    assert_eq!(calls.len(), 1);
    assert!(out.expect("over").is_ok());
}

#[test]
fn a_shell_that_cannot_be_told_loses_its_pipes() {
    let (calls, out) = shell(vec![
        spawned(8, 11, 0, 13),
        piped(-1, 32, b""),
        piped(0, 0, b""),
        piped(0, 0, b""),
    ]);
    assert_eq!(calls[2], ChildCall::Pipe(PipeCall::Close { fh: 11 }));
    assert_eq!(calls[3], ChildCall::Pipe(PipeCall::Close { fh: 13 }));
    assert_eq!(out.expect("over").err(), Some(Error::Os(32)));
}

#[test]
fn a_failed_start_is_explained() {
    assert_eq!(
        spawn_error(1, 0, 0),
        Error::Message(ErrorKind::OutOfMemory, "no memory to track the child")
    );
    assert_eq!(
        spawn_error(2, 103, 1),
        Error::Custom(
            ErrorKind::BrokenPipe,
            String::from("cannot open the writing end of the child's stdin pipe (dos error 103)")
        )
    );
    assert_eq!(
        spawn_error(3, -1, 2),
        Error::Custom(
            ErrorKind::BrokenPipe,
            String::from("cannot open the reading end of the child's stdout pipe (dos error -1)")
        )
    );
    assert_eq!(
        spawn_error(4, 0, 0),
        Error::Custom(
            ErrorKind::BrokenPipe,
            String::from("cannot open the reading end of the child's stderr pipe (dos error 0)")
        )
    );
    assert_eq!(spawn_error(5, 0, 0), Error::Message(ErrorKind::NotFound, "cannot open NIL:"));
    assert_eq!(
        spawn_error(8, 205, 0),
        Error::Custom(
            ErrorKind::NotFound,
            String::from("cannot reach the working directory (dos error 205)")
        )
    );
    assert_eq!(
        spawn_error(7, 0, 0),
        Error::Message(ErrorKind::NotFound, "command could not be run")
    );
    assert_eq!(
        spawn_error(0, 0, 0),
        Error::Message(ErrorKind::NotFound, "command could not be run")
    );
}

#[test]
fn waiting_registers_looks_sleeps_and_gives_the_signal_back() {
    let process = Process::started(8, None);
    let (calls, out) = run(
        begin(process.wait()),
        vec![
            ChildReply::Bit(5),
            ChildReply::Task(77),
            ChildReply::Waiter(0),
            ChildReply::Exited { exited: 0, code: 0 },
            ChildReply::Nothing,
            ChildReply::Waiter(1),
            ChildReply::Waiter(0),
            ChildReply::Nothing,
            ChildReply::Exited { exited: 1, code: 20 },
        ],
    );
    assert_eq!(
        calls,
        vec![
            ChildCall::SigAlloc,
            ChildCall::TaskSelf,
            ChildCall::SetWaiter { handle: 8, task: 77, mask: 32 },
            ChildCall::Exited { handle: 8, code: 0 },
            ChildCall::SigWait { mask: 32 },
            ChildCall::SetWaiter { handle: 8, task: 77, mask: 32 },
            ChildCall::SetWaiter { handle: 8, task: 0, mask: 0 },
            ChildCall::SigFree { bit: 5 },
            ChildCall::Exited { handle: 8, code: 0 },
        ]
    );
    let (process, r) = out.expect("over");
    assert_eq!(r, Ok(ExitStatus::from_code(20)));
    match process.wait() {
        Step::Done((_, r)) => assert_eq!(r, Ok(ExitStatus::from_code(20))),
        Step::Ask(_) => panic!("waits again"),
    }
}

#[test]
fn waiting_without_a_signal_fails() {
    let process = Process::started(8, None);
    let (calls, out) = run(begin(process.wait()), vec![ChildReply::Bit(-1)]);
    assert_eq!(calls, vec![ChildCall::SigAlloc]);
    assert_eq!(
        out.expect("over").1,
        Err(Error::Message(ErrorKind::Uncategorized, "no free signal to wait for a child"))
    );
}

#[test]
fn a_running_child_is_not_released() {
    let process = Process::started(8, Some(b"MacRW:rustcmd-1.aros".to_vec()));
    let (calls, out) = run(process.close(), vec![ChildReply::Exited { exited: 0, code: 0 }]);
    assert_eq!(calls, vec![ChildCall::Exited { handle: 8, code: 0 }]);
    assert!(out.is_some());
    let process = Process::started(8, Some(b"MacRW:rustcmd-1.aros".to_vec()));
    let (calls, out) = run(
        process.close(),
        vec![ChildReply::Exited { exited: 1, code: 0 }, ChildReply::Nothing, fs(0, 0)],
    );
    assert_eq!(calls[1], ChildCall::Free { handle: 8 });
    assert_eq!(calls[2], ChildCall::Fs(FsCall::Unlink { path: c("MacRW:rustcmd-1.aros") }));
    assert!(out.is_some());
}

#[test]
fn a_child_cannot_be_killed() {
    let mut process = Process::started(8, None);
    assert_eq!(process.kill().err().map(|e| e.kind()), Some(ErrorKind::Unsupported));
    match process.try_wait() {
        Step::Ask(op) => {
            let (_, out) = run(op, vec![ChildReply::Exited { exited: 0, code: 0 }]);
            assert_eq!(out.expect("over").1, Ok(None));
        }
        Step::Done(_) => panic!("known"),
    }
}

#[test]
fn two_pipes_are_emptied_in_turn() {
    let op = read_output(Pipe::from_handle(1), vec![], Pipe::from_handle(2), vec![]);
    let (calls, out) = run(
        op,
        vec![
            piped(0, 0, b""),
            piped(-1, 0, b""),
            piped(2, 0, b"ab....."),
            piped(PIPE_EMPTY, 0, b""),
            piped(PIPE_EMPTY, 0, b""),
            piped(PIPE_EMPTY, 0, b""),
            ChildReply::Nothing,
            piped(1, 0, b"c"),
            piped(2, 0, b"xy"),
            piped(0, 0, b""),
            piped(-1, 4, b""),
            piped(1, 0, b"z"),
            piped(0, 0, b""),
            piped(0, 0, b""),
            piped(0, 0, b""),
        ],
    );
    let (stdout, stderr, r) = out.expect("over");
    assert_eq!((stdout, stderr, r), (b"abc".to_vec(), b"xyz".to_vec(), Ok(())));
    let read = |fh: i64| ChildCall::Pipe(PipeCall::Read { fh, len: 4096 });
    assert_eq!(calls[0], ChildCall::Pipe(PipeCall::SetNonblock { fh: 1, enable: 1 }));
    assert_eq!(calls[1], ChildCall::Pipe(PipeCall::SetNonblock { fh: 2, enable: 1 }));
    assert_eq!(calls[2], read(1));
    assert_eq!(calls[3], read(2));
    assert_eq!(calls[4], read(1));
    assert_eq!(calls[5], read(2));
    assert_eq!(calls[6], ChildCall::Yield);
    assert_eq!(calls[9], read(1));
    assert_eq!(calls[10], read(2));
    assert_eq!(calls[11], read(2));
    assert_eq!(calls[13], ChildCall::Pipe(PipeCall::Close { fh: 2 }));
    assert_eq!(calls[14], ChildCall::Pipe(PipeCall::Close { fh: 1 }));
}

#[test]
fn a_failing_pipe_ends_the_emptying_and_closes_both() {
    let op = read_output(Pipe::from_handle(1), vec![], Pipe::from_handle(2), vec![]);
    let (calls, out) = run(
        op,
        vec![
            piped(0, 0, b""),
            piped(0, 0, b""),
            piped(1, 0, b"a"),
            piped(-1, 5, b""),
            piped(0, 0, b""),
            piped(0, 0, b""),
        ],
    );
    assert_eq!(calls[4], ChildCall::Pipe(PipeCall::Close { fh: 2 }));
    assert_eq!(calls[5], ChildCall::Pipe(PipeCall::Close { fh: 1 }));
    let (stdout, _, r) = out.expect("over");
    assert_eq!((stdout, r), (b"a".to_vec(), Err(Error::Os(5))));
}

fn captured(cmd: Command, replies: Vec<ChildReply>) -> (Vec<ChildCall>, Option<Captured>) {
    run(begin(output(&cmd)), replies)
}

fn waited(code: i32) -> Vec<ChildReply> {
    vec![
        ChildReply::Bit(0),
        ChildReply::Task(7),
        ChildReply::Waiter(1),
        ChildReply::Waiter(0),
        ChildReply::Nothing,
        ChildReply::Exited { exited: 1, code },
        ChildReply::Nothing,
    ]
}

#[test]
fn a_command_is_run_for_its_output() {
    let mut replies = vec![
        spawned(8, 0, 1, 2),
        piped(0, 0, b""),
        piped(0, 0, b""),
        piped(2, 0, b"ok"),
        piped(0, 0, b""),
        piped(0, 0, b""),
        piped(0, 0, b""),
        piped(0, 0, b""),
    ];
    replies.append(&mut waited(3));
    let (calls, out) = captured(command(&["x"]), replies);
    match &calls[0] {
        ChildCall::Spawn { in_mode, out_mode, err_mode, .. } => {
            assert_eq!((*in_mode, *out_mode, *err_mode), (2, 1, 1))
        }
        other => panic!("{:?}", other),
    }
    assert_eq!(calls[calls.len() - 1], ChildCall::Free { handle: 8 });
    assert_eq!(out, Some(Ok((ExitStatus::from_code(3), b"ok".to_vec(), vec![]))));
}

#[test]
fn a_command_with_one_pipe_is_read_to_its_end() {
    let mut cmd = command(&["x"]);
    cmd.stderr(Stdio::Null);
    cmd.stdin(Stdio::MakePipe);
    let mut replies = vec![
        spawned(8, 5, 1, 0),
        piped(2, 0, b"ok"),
        piped(0, 0, b""),
        piped(0, 0, b""),
    ];
    let mut rest = waited(0);
    rest.insert(6, piped(0, 0, b""));
    replies.append(&mut rest);
    let (calls, out) = captured(cmd, replies);
    assert_eq!(calls[3], ChildCall::Pipe(PipeCall::Close { fh: 1 }));
    assert_eq!(calls[10], ChildCall::Pipe(PipeCall::Close { fh: 5 }));
    assert_eq!(calls[11], ChildCall::Free { handle: 8 });
    assert_eq!(out, Some(Ok((ExitStatus::from_code(0), b"ok".to_vec(), vec![]))));
}

#[test]
fn a_command_whose_errors_cannot_be_read_is_given_up() {
    let mut cmd = command(&["x"]);
    cmd.stdout(Stdio::Null);
    let (calls, out) = captured(
        cmd,
        vec![
            spawned(8, 0, 0, 2),
            piped(-1, 5, b""),
            piped(0, 0, b""),
            ChildReply::Exited { exited: 0, code: 0 },
        ],
    );
    assert_eq!(calls[2], ChildCall::Pipe(PipeCall::Close { fh: 2 }));
    assert_eq!(calls[3], ChildCall::Exited { handle: 8, code: 0 });
    assert_eq!(out, Some(Err(Error::Os(5))));
}

#[test]
fn a_command_that_is_not_started_has_no_output() {
    let (_, out) = captured(
        command(&["x"]),
        vec![spawned(0, 0, 0, 0), ChildReply::Failed { why: 5, ioerr: 0, step: 0 }],
    );
    assert_eq!(out, Some(Err(Error::Message(ErrorKind::NotFound, "cannot open NIL:"))));
}

#[test]
fn an_empty_script_is_opened_and_closed() {
    let op = write_script(b"T:x", vec![]).expect("no NUL");
    let (calls, out) = run(op, vec![FsReply::number(4, 0), FsReply::number(0, 0)]);
    assert_eq!(calls[1], FsCall::Close { fd: 4 });
    assert_eq!(out, Some(Ok(())));
    assert_eq!(
        write_script(b"\0", vec![]).err(),
        Some(Error::Simple(ErrorKind::InvalidInput))
    );
    assert_eq!(script_path(4294967295), "MacRW:rustcmd-4294967295.aros");
    assert_ne!(script_path(1), script_path(11));
    assert_ne!(script_path(12), script_path(21));
}

#[test]
fn a_file_is_read_whole_or_not_at_all() {
    let piece = |bytes: &[u8], n: i64| {
        let mut reply = FsReply::number(n, 0);
        reply.bytes = bytes.to_vec();
        reply
    };
    let (calls, out) = run(begin(slurp(b"T:x")), vec![
        FsReply::number(4, 0),
        piece(b"abcdef", 3),
        piece(b"gh", 2),
        FsReply::number(0, 0),
        FsReply::number(0, 0),
    ]);
    assert_eq!(calls.len(), 5);
    assert_eq!(calls[4], FsCall::Close { fd: 4 });
    assert_eq!(out, Some(b"abcgh".to_vec()));
    let (calls, out) = run(begin(slurp(b"T:x")), vec![
        FsReply::number(4, 0),
        piece(b"abcdef", 3),
        FsReply::number(-1, 5),
        FsReply::number(0, 0),
    ]);
    assert_eq!(calls[0], FsCall::Open { path: c("T:x"), flags: 1, creation_mode: 0o666 });
    assert_eq!(calls[1], FsCall::Read { fd: 4, len: 4096 });
    assert_eq!(calls[3], FsCall::Close { fd: 4 });
    assert_eq!(out, Some(vec![]));
    let (_, out) = run(begin(slurp(b"T:x")), vec![FsReply::number(-1, 2)]);
    assert_eq!(out, Some(vec![]));
    match slurp(b"\0") {
        Step::Done(out) => assert!(out.is_empty()),
        Step::Ask(_) => panic!("asked"),
    }
}

#[test]
fn a_status_tells_the_code() {
    let bad = ExitStatus::from_code(-5);
    assert_eq!(bad.code(), Some(-5));
    assert_eq!(bad.to_text(), "exit code: -5");
    assert_eq!(bad.exit_ok().err().and_then(|e| e.code()), Some(-5));
    assert_eq!(bad.exit_ok().err().map(|e| e.into_status()), Some(bad));
    assert_eq!(ExitStatus::from_code(0).exit_ok(), Ok(()));
    assert_eq!(ExitStatus::default(), ExitStatus::from_code(0));
    assert_eq!(ExitCode::success().as_i32(), 0);
    assert_eq!(ExitCode::failure().as_i32(), 1);
    assert_eq!(ExitCode::from(200u8).as_i32(), 200);
    assert_eq!(getpid(), 1);
}

fn reply(ret: i64, errno: i32, bytes: &[u8]) -> PipeReply {
    PipeReply { ret, errno, bytes: bytes.to_vec() }
}

#[test]
fn a_pipe_is_read_and_written() {
    let p = Pipe::from_handle(9);
    assert_eq!(p.handle(), 9);
    assert_eq!(p.read(5).call, PipeCall::Read { fh: 9, len: 5 });
    assert_eq!(p.read(5).finish(reply(4, 0, b"")), Ok(4));
    assert_eq!(
        p.read(5).finish(reply(-2, 0, b"")),
        Err(Error::Message(ErrorKind::WouldBlock, "pipe is empty"))
    );
    assert_eq!(p.read(5).finish(reply(-1, 5, b"")), Err(Error::Os(5)));
    assert_eq!(p.read_buf(6).call, PipeCall::Read { fh: 9, len: 6 });
    assert_eq!(p.write(b"x").call, PipeCall::Write { fh: 9, data: b"x".to_vec() });
    assert_eq!(p.write(b"x").finish(reply(1, 0, b"")), Ok(1));
    assert_eq!(p.write(b"x").finish(reply(-1, 32, b"")), Err(Error::Os(32)));
    assert_eq!(p.set_nonblocking(false).call, PipeCall::SetNonblock { fh: 9, enable: 0 });
    assert_eq!(
        p.set_nonblocking(true).finish(reply(-1, 0, b"")),
        Err(Error::Message(ErrorKind::Uncategorized, "cannot set pipe non-blocking"))
    );
    assert_eq!(p.try_clone().err().map(|e| e.kind()), Some(ErrorKind::Unsupported));
    assert!(!p.is_read_vectored() && !p.is_write_vectored());
    match p.read_vectored(&[0, 3]) {
        Step::Ask(into) => assert_eq!(into.index, 1),
        Step::Done(_) => panic!("nothing read"),
    }
    match p.write_vectored(&[vec![], b"q".to_vec()]) {
        Step::Ask(r) => assert_eq!(r.call, PipeCall::Write { fh: 9, data: b"q".to_vec() }),
        Step::Done(_) => panic!("nothing written"),
    }
    assert_eq!(p.close(), Some(PipeCall::Close { fh: 9 }));
    assert_eq!(Pipe::from_handle(0).close(), None);
    assert_eq!(pipe().err().map(|e| e.kind()), Some(ErrorKind::Unsupported));
}

#[test]
fn a_pipe_is_read_to_its_end_behind_what_is_there() {
    let op: ReadToEnd = Pipe::from_handle(9).read_to_end(b"old ".to_vec());
    let (calls, out) = run(op, vec![
        reply(2, 0, b"ab??"),
        reply(-1, 4, b""),
        reply(1, 0, b"c"),
        reply(0, 0, b""),
    ]);
    assert_eq!(calls.len(), 4);
    assert_eq!(calls[0], PipeCall::Read { fh: 9, len: 4096 });
    assert_eq!(out, Some((b"old abc".to_vec(), Ok(3))));
    let op = Pipe::from_handle(9).read_to_end(vec![]);
    let (_, out) = run(op, vec![reply(1, 0, b"a"), reply(-2, 0, b"")]);
    let (buf, r) = out.expect("over");
    assert_eq!(buf, b"a".to_vec());
    assert_eq!(r.err().map(|e| e.kind()), Some(ErrorKind::WouldBlock));
}
