//! Commands: what is to be run, and the line that runs it.
use vstd::prelude::*;
use vstd::utf8::encode_utf8;

use crate::error::{Error, ErrorKind};
use crate::fs::call::FsCall;
use crate::fs::file::File;
use crate::pipe::{Pipe, PipeCall};
use crate::process::env::{captured, entries, sorted, table, CommandEnv, EnvTable, EnvVar};
use crate::process::quote::{
    line_has_no_break, line_of, line_of_push, line_reads_back, quote_into, quoted,
    quoted_is_not_empty, read_script, read_words, script_line_reads_back, special,
};
use crate::stdio::{Stderr, Stdout};
use crate::text::{copy_of, lossy, nul_free, CString};

verus! {

/// What a child's stream is connected to.
#[derive(Debug)]
pub enum Stdio {
    /// The stream of this process.
    Inherit,
    /// Nothing.
    Null,
    /// A new pipe.
    MakePipe,
    /// The standard output of this process.
    ParentStdout,
    /// The standard error of this process.
    ParentStderr,
    /// A file.
    InheritFile(File),
}

impl From<File> for Stdio {
    fn from(file: File) -> (s: Stdio) {
        Stdio::InheritFile(file)
    }
}

impl vstd::std_specs::convert::FromSpecImpl<File> for Stdio {
    open spec fn obeys_from_spec() -> bool {
        true
    }

    open spec fn from_spec(file: File) -> Stdio {
        Stdio::InheritFile(file)
    }
}

impl From<Stdout> for Stdio {
    fn from(stream: Stdout) -> (s: Stdio) {
        Stdio::ParentStdout
    }
}

impl vstd::std_specs::convert::FromSpecImpl<Stdout> for Stdio {
    open spec fn obeys_from_spec() -> bool {
        true
    }

    open spec fn from_spec(stream: Stdout) -> Stdio {
        Stdio::ParentStdout
    }
}

impl From<Stderr> for Stdio {
    fn from(stream: Stderr) -> (s: Stdio) {
        Stdio::ParentStderr
    }
}

impl vstd::std_specs::convert::FromSpecImpl<Stderr> for Stdio {
    open spec fn obeys_from_spec() -> bool {
        true
    }

    open spec fn from_spec(stream: Stderr) -> Stdio {
        Stdio::ParentStderr
    }
}

impl Stdio {
    /// One child's end of a pipe cannot become another's stream. It is given up, and the
    /// stream is connected to nothing.
    pub fn from_pipe(pipe: Pipe) -> (r: (Stdio, Option<PipeCall>))
        ensures
            r.0 is Null,
            r.1 == if pipe@ != 0 {
                Some(PipeCall::Close { fh: pipe@ })
            } else {
                None
            },
    {
        (Stdio::Null, pipe.close())
    }

    /// Gives what a stream is connected to up. Only a file is this process's to close.
    pub fn close(self) -> (call: Option<FsCall>)
        ensures
            call == closing(self),
    {
        match self {
            Stdio::InheritFile(file) => Some(file.close()),
            _ => None,
        }
    }
}

/// The call that gives up what a stream is connected to.
pub open spec fn closing(s: Stdio) -> Option<FsCall> {
    match s {
        Stdio::InheritFile(file) => Some(FsCall::Close { fd: file@ }),
        _ => None,
    }
}

/// The calls that give up what a stream is connected to, where that was said.
pub open spec fn closings(s: Option<Stdio>) -> Seq<FsCall> {
    match s {
        Some(s) => match closing(s) {
            Some(call) => seq![call],
            None => Seq::empty(),
        },
        None => Seq::empty(),
    }
}

/// Notes the call that gives up what a stream is connected to.
fn push_closing(s: Option<Stdio>, calls: &mut Vec<FsCall>)
    ensures
        final(calls)@ == old(calls)@ + closings(s),
{
    if let Some(s) = s {
        if let Some(call) = s.close() {
            calls.push(call);
        }
    }
}

/// A stream that is inherited.
pub const APS_INHERIT: i32 = 0;

/// A stream that is a pipe.
pub const APS_PIPE: i32 = 1;

/// A stream that is connected to nothing.
pub const APS_NULL: i32 = 2;

/// What the system is told of a stream. A file or a stream of this process counts as
/// inherited: the child writes straight to it.
pub open spec fn disposition_of(s: Option<Stdio>) -> i32 {
    match s {
        Some(Stdio::MakePipe) => APS_PIPE,
        Some(Stdio::Null) => APS_NULL,
        _ => APS_INHERIT,
    }
}

/// What the system is told of a stream.
pub fn disposition(s: Option<&Stdio>) -> (mode: i32)
    ensures
        mode == disposition_of(
            match s {
                Some(s) => Some(*s),
                None => None,
            },
        ),
{
    match s {
        Some(Stdio::MakePipe) => APS_PIPE,
        Some(Stdio::Null) => APS_NULL,
        _ => APS_INHERIT,
    }
}

/// Texts of raw bytes.
pub open spec fn texts(words: Seq<Vec<u8>>) -> Seq<Seq<char>> {
    words.map_values(|word: Vec<u8>| lossy(word@))
}

/// The line that sets or unsets one variable.
pub open spec fn setup_line(key: Seq<u8>, value: Option<Seq<u8>>) -> Seq<char> {
    (match value {
        Some(v) => line_of(seq!["Set"@, lossy(key), lossy(v)]),
        None => line_of(seq!["Unset"@, lossy(key)]),
    }).push('\n')
}

/// The lines that set and unset variables.
pub open spec fn setup_text(changes: Seq<(Seq<u8>, Option<Seq<u8>>)>) -> Seq<char>
    decreases changes.len(),
{
    if changes.len() == 0 {
        Seq::empty()
    } else {
        setup_text(changes.drop_last()) + setup_line(changes.last().0, changes.last().1)
    }
}

/// What a shell is given to run a command.
pub enum Resolved {
    /// A line.
    Line(String),
    /// A script of its own.
    Script(String),
}

/// A command to be run.
#[derive(Debug)]
pub struct Command {
    program: Vec<u8>,
    args: Vec<Vec<u8>>,
    env: CommandEnv,
    cwd: Option<Vec<u8>>,
    stdin: Option<Stdio>,
    stdout: Option<Stdio>,
    stderr: Option<Stdio>,
}

proof fn plain_words()
    ensures
        quoted("Set"@) == "Set"@,
        quoted("Unset"@) == "Unset"@,
        quoted("CD"@) == "CD"@,
        quoted("Execute"@) == "Execute"@,
{
    reveal_strlit("Set");
    reveal_strlit("Unset");
    reveal_strlit("CD");
    reveal_strlit("Execute");
    assert forall|i: int| 0 <= i < "Set"@.len() implies !special(#[trigger] "Set"@[i]) by {}
    assert forall|i: int| 0 <= i < "Unset"@.len() implies !special(#[trigger] "Unset"@[i]) by {}
    assert forall|i: int| 0 <= i < "CD"@.len() implies !special(#[trigger] "CD"@[i]) by {}
    assert forall|i: int| 0 <= i < "Execute"@.len() implies !special(
        #[trigger] "Execute"@[i],
    ) by {}
}

proof fn line_of_two(a: Seq<char>, b: Seq<char>)
    ensures
        line_of(seq![a, b]) == quoted(a) + seq![' '] + quoted(b),
{
    reveal_with_fuel(line_of, 3);
    assert(seq![a, b].drop_first() == seq![b]);
}

proof fn line_of_three(a: Seq<char>, b: Seq<char>, c: Seq<char>)
    ensures
        line_of(seq![a, b, c]) == quoted(a) + seq![' '] + (quoted(b) + seq![' '] + quoted(c)),
{
    reveal_with_fuel(line_of, 4);
    assert(seq![a, b, c].drop_first() == seq![b, c]);
    line_of_two(b, c);
}

/// Appends the line that sets or unsets one variable.
fn push_setup_line(var: &EnvVar, out: &mut String)
    ensures
        final(out)@ == old(out)@ + setup_line(var@.0, var@.1),
{
    proof {
        plain_words();
        reveal_strlit("Set ");
        reveal_strlit("Set");
        reveal_strlit("Unset ");
        reveal_strlit("Unset");
        assert("Set "@ == "Set"@ + seq![' ']);
        assert("Unset "@ == "Unset"@ + seq![' ']);
    }
    let ghost before = out@;
    match &var.value {
        Some(value) => {
            out.append("Set ");
            quote_into(var.key.as_slice(), out);
            out.push(' ');
            quote_into(value.as_slice(), out);
            proof {
                line_of_three("Set"@, lossy(var.key@), lossy(value@));
                assert(out@ == before + line_of(seq!["Set"@, lossy(var.key@), lossy(value@)]));
            }
        },
        None => {
            out.append("Unset ");
            quote_into(var.key.as_slice(), out);
            proof {
                line_of_two("Unset"@, lossy(var.key@));
                assert(out@ == before + line_of(seq!["Unset"@, lossy(var.key@)]));
            }
        },
    }
    out.push('\n');
}

impl Command {
    /// What is run; nothing stands for a shell that reads its input.
    pub closed spec fn program(self) -> Seq<u8> {
        self.program@
    }

    /// What follows the program.
    pub closed spec fn arguments(self) -> Seq<Vec<u8>> {
        self.args@
    }

    /// What is changed of the environment.
    pub closed spec fn environment(self) -> CommandEnv {
        self.env
    }

    /// The directory it is run in, where that is not the current one.
    pub closed spec fn directory(self) -> Option<Seq<u8>> {
        match self.cwd {
            Some(dir) => Some(dir@),
            None => None,
        }
    }

    /// What its input is connected to, where that was said.
    pub closed spec fn input(self) -> Option<Stdio> {
        self.stdin
    }

    /// What its output is connected to, where that was said.
    pub closed spec fn output(self) -> Option<Stdio> {
        self.stdout
    }

    /// What its errors are connected to, where that was said.
    pub closed spec fn errors(self) -> Option<Stdio> {
        self.stderr
    }

    /// A command without arguments.
    pub fn new(program: &[u8]) -> (c: Command)
        ensures
            c.program() == program@,
            c.arguments() == Seq::<Vec<u8>>::empty(),
            !c.environment().clears(),
            c.environment().changes() == Map::<Seq<u8>, Option<Seq<u8>>>::empty(),
            c.directory() is None,
            c.input() is None,
            c.output() is None,
            c.errors() is None,
    {
        Command {
            program: copy_of(program),
            args: Vec::new(),
            env: CommandEnv::new(),
            cwd: None,
            stdin: None,
            stdout: None,
            stderr: None,
        }
    }

    /// Adds an argument.
    pub fn arg(&mut self, arg: &[u8])
        ensures
            final(self).arguments().len() == old(self).arguments().len() + 1,
            final(self).arguments().drop_last() == old(self).arguments(),
            final(self).arguments().last()@ == arg@,
            final(self).program() == old(self).program(),
            final(self).environment() == old(self).environment(),
            final(self).directory() == old(self).directory(),
            final(self).input() == old(self).input(),
            final(self).output() == old(self).output(),
            final(self).errors() == old(self).errors(),
    {
        let new: Vec<u8> = copy_of(arg);
        self.args.push(new);
        assert(self.args@.drop_last() == old(self).args@);
    }

    /// What is changed of the environment, to be changed further.
    pub fn env_mut(&mut self) -> (env: &mut CommandEnv)
        ensures
            *env == old(self).environment(),
            final(self).environment() == *final(env),
            final(self).program() == old(self).program(),
            final(self).arguments() == old(self).arguments(),
            final(self).directory() == old(self).directory(),
            final(self).input() == old(self).input(),
            final(self).output() == old(self).output(),
            final(self).errors() == old(self).errors(),
    {
        &mut self.env
    }

    /// Says which directory it is run in.
    pub fn cwd(&mut self, dir: &[u8])
        ensures
            final(self).directory() == Some(dir@),
            final(self).program() == old(self).program(),
            final(self).arguments() == old(self).arguments(),
            final(self).environment() == old(self).environment(),
            final(self).input() == old(self).input(),
            final(self).output() == old(self).output(),
            final(self).errors() == old(self).errors(),
    {
        self.cwd = Some(copy_of(dir));
    }

    /// Says what its input is connected to. What was said before is to be given up.
    pub fn stdin(&mut self, stdin: Stdio) -> (before: Option<Stdio>)
        ensures
            before == old(self).input(),
            final(self).input() == Some(stdin),
            final(self).program() == old(self).program(),
            final(self).arguments() == old(self).arguments(),
            final(self).environment() == old(self).environment(),
            final(self).directory() == old(self).directory(),
            final(self).output() == old(self).output(),
            final(self).errors() == old(self).errors(),
    {
        let mut before: Option<Stdio> = Some(stdin);
        core::mem::swap(&mut self.stdin, &mut before);
        before
    }

    /// Says what its output is connected to. What was said before is to be given up.
    pub fn stdout(&mut self, stdout: Stdio) -> (before: Option<Stdio>)
        ensures
            before == old(self).output(),
            final(self).output() == Some(stdout),
            final(self).program() == old(self).program(),
            final(self).arguments() == old(self).arguments(),
            final(self).environment() == old(self).environment(),
            final(self).directory() == old(self).directory(),
            final(self).input() == old(self).input(),
            final(self).errors() == old(self).errors(),
    {
        let mut before: Option<Stdio> = Some(stdout);
        core::mem::swap(&mut self.stdout, &mut before);
        before
    }

    /// Says what its errors are connected to. What was said before is to be given up.
    pub fn stderr(&mut self, stderr: Stdio) -> (before: Option<Stdio>)
        ensures
            before == old(self).errors(),
            final(self).errors() == Some(stderr),
            final(self).program() == old(self).program(),
            final(self).arguments() == old(self).arguments(),
            final(self).environment() == old(self).environment(),
            final(self).directory() == old(self).directory(),
            final(self).input() == old(self).input(),
            final(self).output() == old(self).output(),
    {
        let mut before: Option<Stdio> = Some(stderr);
        core::mem::swap(&mut self.stderr, &mut before);
        before
    }

    /// What is run.
    pub fn get_program(&self) -> (program: &[u8])
        ensures
            program@ == self.program(),
    {
        self.program.as_slice()
    }

    /// What follows the program.
    pub fn get_args(&self) -> (args: CommandArgs<'_>)
        ensures
            args@ == self.arguments(),
    {
        assert(self.args@.skip(0) == self.args@);
        CommandArgs { args: self.args.as_slice(), at: 0 }
    }

    /// The variables that are changed, in the order of their keys.
    pub fn get_envs(&self) -> (vars: &[EnvVar])
        ensures
            entries(vars@) == self.environment().ordered(),
            sorted(self.environment().ordered()),
            table(self.environment().ordered()) == self.environment().changes(),
    {
        self.env.iter()
    }

    /// Whether it starts from an empty environment.
    pub fn get_env_clear(&self) -> (yes: bool)
        ensures
            yes == self.environment().clears(),
    {
        self.env.does_clear()
    }

    /// The environment it is run in, given the one that is there.
    pub fn get_resolved_envs(&self, current: &[EnvVar]) -> (envs: EnvTable)
        ensures
            envs@ == captured(
                if self.environment().clears() {
                    Map::empty()
                } else {
                    table(entries(current@))
                },
                self.environment().changes(),
            ),
    {
        self.env.capture(current)
    }

    /// The directory it is run in, where that is not the current one.
    pub fn get_current_dir(&self) -> (dir: Option<&[u8]>)
        ensures
            match dir {
                Some(d) => self.directory() == Some(d@),
                None => self.directory() is None,
            },
    {
        match &self.cwd {
            Some(dir) => Some(dir.as_slice()),
            None => None,
        }
    }

    /// The words of the command line. A program without a name is no word at all: the
    /// shell then reads its input.
    pub open spec fn words(self) -> Seq<Seq<char>> {
        (if self.program().len() == 0 {
            Seq::empty()
        } else {
            seq![lossy(self.program())]
        }) + texts(self.arguments())
    }

    /// The command line.
    pub fn command_line(&self) -> (line: String)
        ensures
            line@ == line_of(self.words()),
    {
        let mut line: String = String::new();
        let ghost head: Seq<Seq<char>> = if self.program().len() == 0 {
            Seq::empty()
        } else {
            seq![lossy(self.program())]
        };
        if self.program.len() > 0 {
            quote_into(self.program.as_slice(), &mut line);
        }
        let ghost all = texts(self.args@);
        let mut i: usize = 0;
        assert(head + all.take(0) == head);
        assert(line@ == line_of(head));
        while i < self.args.len()
            invariant
                i <= self.args@.len(),
                all == texts(self.args@),
                line@ == line_of(head + all.take(i as int)),
            decreases self.args@.len() - i,
        {
            let ghost done = head + all.take(i as int);
            proof {
                line_of_push(done, all[i as int]);
                assert(done.push(all[i as int]) == head + all.take(i + 1));
                if done.len() > 0 {
                    quoted_is_not_empty(done[0]);
                }
            }
            if !line.as_str().is_empty() {
                line.push(' ');
            }
            quote_into(self.args[i].as_slice(), &mut line);
            assert(line@ == line_of(done.push(all[i as int])));
            i += 1;
        }
        assert(all.take(self.args@.len() as int) == all);
        line
    }

    /// The lines that give the child shell its environment. The directory is not among
    /// them: the child is started in it.
    pub fn setup_lines(&self) -> (setup: String)
        ensures
            setup@ == setup_text(self.environment().ordered()),
            sorted(self.environment().ordered()),
            table(self.environment().ordered()) == self.environment().changes(),
            (setup@.len() == 0) == (self.environment().changes()
                == Map::<Seq<u8>, Option<Seq<u8>>>::empty()),
    {
        let mut setup: String = String::new();
        let vars: &[EnvVar] = self.env.iter();
        let ghost list = entries(vars@);
        let mut i: usize = 0;
        assert(list.take(0) == Seq::<(Seq<u8>, Option<Seq<u8>>)>::empty());
        while i < vars.len()
            invariant
                i <= vars@.len(),
                list == entries(vars@),
                setup@ == setup_text(list.take(i as int)),
                (setup@.len() == 0) == (i == 0),
            decreases vars@.len() - i,
        {
            assert(list.take(i + 1).drop_last() == list.take(i as int));
            assert(list.take(i + 1).last() == vars@[i as int]@);
            push_setup_line(&vars[i], &mut setup);
            i += 1;
        }
        proof {
            assert(list.take(vars@.len() as int) == list);
            if vars@.len() == 0 {
                assert(table(list) == Map::<Seq<u8>, Option<Seq<u8>>>::empty());
            } else {
                assert(table(list).dom().contains(list.last().0));
            }
        }
        setup
    }

    /// The script that runs the command with its environment. It runs in a shell of its own
    /// within the child, so it goes to the directory although the child starts there.
    pub open spec fn script_text(self) -> Seq<char> {
        (match self.directory() {
            Some(dir) => line_of(seq!["CD"@, lossy(dir)]).push('\n'),
            None => Seq::empty(),
        }) + setup_text(self.environment().ordered()) + line_of(self.words()).push('\n')
    }

    /// Whether nothing of the environment is changed.
    pub open spec fn plain_environment(self) -> bool {
        self.environment().changes() == Map::<Seq<u8>, Option<Seq<u8>>>::empty()
    }

    /// What the shell is given: the command line where nothing of the environment is
    /// changed; else a script, unless there is no command. A shell without a command
    /// reads its input and has to go on doing so, which after a script it would not.
    pub fn resolve(&self) -> (r: Resolved)
        ensures
            match r {
                Resolved::Line(line) => line@ == line_of(self.words()) && (
                self.plain_environment() || line@.len() == 0),
                Resolved::Script(text) => {
                    &&& !self.plain_environment()
                    &&& line_of(self.words()).len() > 0
                    &&& text@ == self.script_text()
                    &&& sorted(self.environment().ordered())
                    &&& table(self.environment().ordered()) == self.environment().changes()
                },
            },
    {
        let line: String = self.command_line();
        let setup: String = self.setup_lines();
        if setup.as_str().is_empty() || line.as_str().is_empty() {
            return Resolved::Line(line);
        }
        let mut script: String = String::new();
        if let Some(dir) = &self.cwd {
            script.append("CD ");
            quote_into(dir.as_slice(), &mut script);
            script.push('\n');
            proof {
                plain_words();
                reveal_strlit("CD");
                reveal_strlit("CD ");
                assert("CD "@ == "CD"@ + seq![' ']);
                line_of_two("CD"@, lossy(dir@));
                assert(script@ == line_of(seq!["CD"@, lossy(dir@)]).push('\n'));
            }
        }
        script.append(setup.as_str());
        script.append(line.as_str());
        script.push('\n');
        assert(script@ == self.script_text());
        Resolved::Script(script)
    }

    /// The stream that a child's input is connected to: the one that was said, or else the
    /// default, but nothing where nobody is going to write. A child that reads a terminal
    /// that nobody types at would wait forever.
    pub open spec fn input_mode(self, default: Stdio, needs_stdin: bool) -> i32 {
        match self.input() {
            Some(s) => disposition_of(Some(s)),
            None => if needs_stdin {
                disposition_of(Some(default))
            } else {
                APS_NULL
            },
        }
    }

    /// The stream that a child's output or errors are connected to.
    pub open spec fn other_mode(said: Option<Stdio>, default: Stdio) -> i32 {
        match said {
            Some(s) => disposition_of(Some(s)),
            None => disposition_of(Some(default)),
        }
    }

    /// What the system is told of the three streams.
    pub fn modes(&self, default: &Stdio, needs_stdin: bool) -> (r: (i32, i32, i32))
        ensures
            r.0 == self.input_mode(*default, needs_stdin),
            r.1 == Command::other_mode(self.output(), *default),
            r.2 == Command::other_mode(self.errors(), *default),
    {
        let input: i32 = match &self.stdin {
            Some(s) => disposition(Some(s)),
            None => if needs_stdin {
                disposition(Some(default))
            } else {
                APS_NULL
            },
        };
        let output: i32 = match &self.stdout {
            Some(s) => disposition(Some(s)),
            None => disposition(Some(default)),
        };
        let errors: i32 = match &self.stderr {
            Some(s) => disposition(Some(s)),
            None => disposition(Some(default)),
        };
        (input, output, errors)
    }

    /// Gives the command up, and with it the files that its streams are connected to. What the
    /// calls answer does not matter.
    pub fn close(self) -> (calls: Vec<FsCall>)
        ensures
            calls@ == closings(self.input()) + closings(self.output()) + closings(self.errors()),
    {
        let mut calls: Vec<FsCall> = Vec::new();
        push_closing(self.stdin, &mut calls);
        push_closing(self.stdout, &mut calls);
        push_closing(self.stderr, &mut calls);
        calls
    }
}

/// Hands a text over to the system, or refuses one with a NUL.
pub fn cstr(text: &str) -> (r: Result<CString, Error>)
    ensures
        match r {
            Ok(c) => nul_free(encode_utf8(text@)) && c@ == encode_utf8(text@),
            Err(e) => !nul_free(encode_utf8(text@)) && e == Error::Message(
                ErrorKind::InvalidInput,
                "command contains a NUL byte",
            ),
        },
{
    match CString::new(copy_of(text.as_bytes())) {
        Some(c) => Ok(c),
        None => Err(Error::Message(ErrorKind::InvalidInput, "command contains a NUL byte")),
    }
}

/// The shell reads the command line back as the program and its arguments, whatever they
/// hold.
pub proof fn command_line_reads_back(c: Command)
    ensures
        read_words(line_of(c.words())) == Some(c.words()),
        !line_of(c.words()).contains('\n'),
{
    line_reads_back(c.words());
    line_has_no_break(c.words());
}

/// The words that set or unset one variable.
pub open spec fn setup_words(key: Seq<u8>, value: Option<Seq<u8>>) -> Seq<Seq<char>> {
    match value {
        Some(v) => seq!["Set"@, lossy(key), lossy(v)],
        None => seq!["Unset"@, lossy(key)],
    }
}

/// The words that set and unset variables, one after the other.
pub open spec fn setup_commands(changes: Seq<(Seq<u8>, Option<Seq<u8>>)>) -> Seq<Seq<Seq<char>>> {
    changes.map_values(|change: (Seq<u8>, Option<Seq<u8>>)| setup_words(change.0, change.1))
}

proof fn setup_reads_back_before(
    changes: Seq<(Seq<u8>, Option<Seq<u8>>)>,
    rest: Seq<char>,
    others: Seq<Seq<Seq<char>>>,
)
    requires
        read_script(rest) == Some(others),
    ensures
        read_script(setup_text(changes) + rest) == Some(setup_commands(changes) + others),
    decreases changes.len(),
{
    if changes.len() == 0 {
        assert(setup_text(changes) + rest == rest);
        assert(setup_commands(changes) + others == others);
    } else {
        let (key, value) = changes.last();
        let words = setup_words(key, value);
        let line = setup_line(key, value);
        assert(line == line_of(words).push('\n'));
        script_line_reads_back(words, rest);
        setup_reads_back_before(changes.drop_last(), line + rest, seq![words] + others);
        assert(setup_text(changes) + rest == setup_text(changes.drop_last()) + (line + rest));
        assert(setup_commands(changes) + others == setup_commands(changes.drop_last()) + (
        seq![words] + others));
    }
}

/// A shell that is told its setup reads in it one line for each change of the environment,
/// with the variable's name and the very value it is to have, whatever they hold.
pub proof fn setup_reads_back(changes: Seq<(Seq<u8>, Option<Seq<u8>>)>)
    ensures
        read_script(setup_text(changes)) == Some(setup_commands(changes)),
{
    setup_reads_back_before(changes, Seq::empty(), Seq::empty());
    assert(setup_text(changes) + Seq::<char>::empty() == setup_text(changes));
    assert(setup_commands(changes) + Seq::<Seq<Seq<char>>>::empty() == setup_commands(changes));
}

/// What a script is to do: to go to the directory, if there is one, to change the
/// environment, and then to run the command.
pub open spec fn script_commands(c: Command) -> Seq<Seq<Seq<char>>> {
    (match c.directory() {
        Some(dir) => seq![seq!["CD"@, lossy(dir)]],
        None => Seq::empty(),
    }) + setup_commands(c.environment().ordered()) + seq![c.words()]
}

/// The shell that runs a script does exactly what it is to do, in that order, whatever the
/// directory, the variables and the command hold.
pub proof fn script_reads_back(c: Command)
    ensures
        read_script(c.script_text()) == Some(script_commands(c)),
{
    let changes = c.environment().ordered();
    let last = line_of(c.words()).push('\n');
    script_line_reads_back(c.words(), Seq::empty());
    assert(last + Seq::<char>::empty() == last);
    assert(seq![c.words()] + Seq::<Seq<Seq<char>>>::empty() == seq![c.words()]);
    assert(read_script(Seq::<char>::empty()) == Some(Seq::<Seq<Seq<char>>>::empty()));
    setup_reads_back_before(changes, last, seq![c.words()]);
    let rest = setup_text(changes) + last;
    match c.directory() {
        Some(dir) => {
            let words = seq!["CD"@, lossy(dir)];
            script_line_reads_back(words, rest);
            assert(c.script_text() == line_of(words).push('\n') + rest);
            assert(script_commands(c) == seq![words] + (setup_commands(changes) + seq![
                c.words(),
            ]));
        },
        None => {
            assert(c.script_text() == rest);
            assert(script_commands(c) == setup_commands(changes) + seq![c.words()]);
        },
    }
}

/// An empty program without arguments is no command: the shell is given an empty line.
pub proof fn no_words_no_line(c: Command)
    ensures
        line_of(c.words()).len() == 0 <==> c.program().len() == 0 && c.arguments().len() == 0,
{
    let w = c.words();
    if w.len() > 0 {
        quoted_is_not_empty(w[0]);
    }
}

/// What follows the program of a command, one after the other. Its view is what is left.
#[derive(Clone, Copy, Debug)]
pub struct CommandArgs<'a> {
    args: &'a [Vec<u8>],
    at: usize,
}

impl<'a> View for CommandArgs<'a> {
    type V = Seq<Vec<u8>>;

    closed spec fn view(&self) -> Seq<Vec<u8>> {
        self.args@.skip(self.at as int)
    }
}

impl<'a> CommandArgs<'a> {
    #[verifier::type_invariant]
    spec fn within(self) -> bool {
        self.at <= self.args@.len()
    }

    /// The next argument.
    pub fn next(&mut self) -> (arg: Option<&'a [u8]>)
        ensures
            match arg {
                Some(a) => old(self)@.len() > 0 && a@ == old(self)@[0]@ && final(self)@
                    == old(self)@.drop_first(),
                None => old(self)@.len() == 0 && final(self)@ == old(self)@,
            },
    {
        proof {
            use_type_invariant(&*self);
        }
        let args: &'a [Vec<u8>] = self.args;
        let at: usize = self.at;
        if at < args.len() {
            self.at = at + 1;
            assert(self@ == old(self)@.drop_first());
            Some(args[at].as_slice())
        } else {
            None
        }
    }

    /// How many arguments are left.
    pub fn len(&self) -> (n: usize)
        ensures
            n == self@.len(),
    {
        proof {
            use_type_invariant(self);
        }
        self.args.len() - self.at
    }

    /// Whether no argument is left.
    pub fn is_empty(&self) -> (yes: bool)
        ensures
            yes == (self@.len() == 0),
    {
        self.len() == 0
    }

    /// How many arguments are left, at least and at most.
    pub fn size_hint(&self) -> (r: (usize, Option<usize>))
        ensures
            r.0 == self@.len(),
            r.1 == Some(r.0),
    {
        let n: usize = self.len();
        (n, Some(n))
    }
}

/// The words of a command are its program, unless that has no name, and its arguments in their
/// order, each as the text it is; the command line is those words in a row.
pub proof fn words_are_the_program_and_its_arguments(c: Command, line: String, i: int)
    requires
        call_ensures(Command::command_line, (&c,), line),
    ensures
        line@ == line_of(c.words()),
        c.program().len() == 0 ==> c.words().len() == c.arguments().len(),
        c.program().len() > 0 ==> c.words().len() == c.arguments().len() + 1 && c.words()[0]
            == lossy(c.program()),
        0 <= i < c.arguments().len() ==> c.words()[i + c.words().len() - c.arguments().len()]
            == lossy(c.arguments()[i]@),
{
}

/// A stream is a pipe where a new one was asked for and nothing where nothing was; a file or a
/// stream of this process is inherited.
pub proof fn a_stream_is_what_was_asked_for(s: Option<&Stdio>, mode: i32)
    requires
        call_ensures(disposition, (s,), mode),
    ensures
        mode == 1 <==> (s matches Some(x) && *x is MakePipe),
        mode == 2 <==> (s matches Some(x) && *x is Null),
        mode == 0 || mode == 1 || mode == 2,
{
}

/// Each stream of a child is what was said of that stream and of no other; of which nothing was
/// said is as the default says, but for an input that nobody is going to write to, which is
/// nothing.
pub proof fn every_stream_has_its_own_mode(
    c: Command,
    default: Stdio,
    needs_stdin: bool,
    r: (i32, i32, i32),
)
    requires
        call_ensures(Command::modes, (&c, &default, needs_stdin), r),
    ensures
        ({
            let mode = |s: Stdio|
                if s is MakePipe {
                    1i32
                } else if s is Null {
                    2
                } else {
                    0
                };
            &&& r.0 == match c.input() {
                Some(s) => mode(s),
                None => if needs_stdin {
                    mode(default)
                } else {
                    2
                },
            }
            &&& r.1 == match c.output() {
                Some(s) => mode(s),
                None => mode(default),
            }
            &&& r.2 == match c.errors() {
                Some(s) => mode(s),
                None => mode(default),
            }
        }),
{
}

/// Every change of the environment is one line: a variable that has a value is set to that
/// value, one that has none is unset, and the lines follow one another in the order of the
/// changes.
pub proof fn every_change_is_one_line(
    changes: Seq<(Seq<u8>, Option<Seq<u8>>)>,
    key: Seq<u8>,
    value: Option<Seq<u8>>,
)
    ensures
        value matches Some(v) ==> setup_line(key, value) == "Set "@ + quoted(lossy(key)) + seq![
            ' ',
        ] + quoted(lossy(v)) + seq!['\n'],
        value is None ==> setup_line(key, value) == "Unset "@ + quoted(lossy(key)) + seq!['\n'],
        setup_text(Seq::empty()) == Seq::<char>::empty(),
        setup_text(changes.push((key, value))) == setup_text(changes) + setup_line(key, value),
{
    plain_words();
    reveal_strlit("Set ");
    reveal_strlit("Set");
    reveal_strlit("Unset ");
    reveal_strlit("Unset");
    assert("Set "@ == "Set"@ + seq![' ']);
    assert("Unset "@ == "Unset"@ + seq![' ']);
    assert(changes.push((key, value)).drop_last() == changes);
    match value {
        Some(v) => {
            line_of_three("Set"@, lossy(key), lossy(v));
            assert(setup_line(key, value) == "Set "@ + quoted(lossy(key)) + seq![' '] + quoted(
                lossy(v),
            ) + seq!['\n']);
        },
        None => {
            line_of_two("Unset"@, lossy(key));
            assert(setup_line(key, value) == "Unset "@ + quoted(lossy(key)) + seq!['\n']);
        },
    }
}

/// A shell is given the command line as it is where nothing of the environment is changed or
/// there is no command; else it is given a script, which goes to the directory, if there is
/// one, makes the changes, and then runs the command line.
pub proof fn a_changed_environment_takes_a_script(
    c: Command,
    r: Resolved,
    setup: String,
    line: String,
)
    requires
        call_ensures(Command::resolve, (&c,), r),
        call_ensures(Command::setup_lines, (&c,), setup),
        call_ensures(Command::command_line, (&c,), line),
    ensures
        r is Line <==> c.environment().changes() == Map::<Seq<u8>, Option<Seq<u8>>>::empty()
            || line@.len() == 0,
        r matches Resolved::Line(l) ==> l@ == line@,
        r matches Resolved::Script(s) ==> s@ == (match c.directory() {
            Some(dir) => "CD "@ + quoted(lossy(dir)) + seq!['\n'],
            None => Seq::empty(),
        }) + setup@ + line@ + seq!['\n'],
        setup@ == setup_text(c.environment().ordered()),
        (setup@.len() == 0) == (c.environment().changes() == Map::<
            Seq<u8>,
            Option<Seq<u8>>,
        >::empty()),
{
    plain_words();
    reveal_strlit("CD");
    reveal_strlit("CD ");
    assert("CD "@ == "CD"@ + seq![' ']);
    if let Resolved::Script(s) = r {
        match c.directory() {
            Some(dir) => {
                line_of_two("CD"@, lossy(dir));
                assert(line_of(seq!["CD"@, lossy(dir)]).push('\n') == "CD "@ + quoted(lossy(dir))
                    + seq!['\n']);
            },
            None => {},
        }
        assert(s@ == (match c.directory() {
            Some(dir) => "CD "@ + quoted(lossy(dir)) + seq!['\n'],
            None => Seq::empty(),
        }) + setup@ + line@ + seq!['\n']);
    }
}

/// A command that is new is its program and nothing else.
pub proof fn a_new_command_is_its_program(program: &[u8], c: Command)
    requires
        call_ensures(Command::new, (program,), c),
    ensures
        c.program() == program@,
        c.arguments().len() == 0,
        !c.environment().clears(),
        c.environment().changes() == Map::<Seq<u8>, Option<Seq<u8>>>::empty(),
        c.directory() is None,
        c.input() is None && c.output() is None && c.errors() is None,
{
}

/// What a command is asked about is told as it was said.
pub proof fn a_command_tells_what_it_was_told(c: Command)
    ensures
        forall|p: &[u8]| #[trigger]
            call_ensures(Command::get_program, (&c,), p) ==> p@ == c.program(),
        forall|a: CommandArgs<'_>| #[trigger]
            call_ensures(Command::get_args, (&c,), a) ==> a@ == c.arguments(),
        forall|yes: bool| #[trigger]
            call_ensures(Command::get_env_clear, (&c,), yes) ==> yes == c.environment().clears(),
        forall|d: Option<&[u8]>| #[trigger]
            call_ensures(Command::get_current_dir, (&c,), d) ==> {
                &&& d is Some <==> c.directory() is Some
                &&& d matches Some(dir) ==> c.directory() == Some(dir@)
            },
        forall|vars: &[EnvVar]| #[trigger]
            call_ensures(Command::get_envs, (&c,), vars) ==> entries(vars@)
                == c.environment().ordered(),
{
}

/// Giving a command up closes the file of each of its streams, the input first, and nothing
/// else is closed.
pub proof fn only_files_are_closed(c: Command, calls: Vec<FsCall>, s: Stdio, call: Option<FsCall>)
    requires
        call_ensures(Command::close, (c,), calls),
        call_ensures(Stdio::close, (s,), call),
    ensures
        s matches Stdio::InheritFile(f) ==> call == Some(FsCall::Close { fd: f@ }),
        !(s is InheritFile) ==> call is None,
        ({
            let file = |s: Option<Stdio>|
                match s {
                    Some(Stdio::InheritFile(f)) => seq![FsCall::Close { fd: f@ }],
                    _ => Seq::empty(),
                };
            calls@ == file(c.input()) + file(c.output()) + file(c.errors())
        }),
        forall|p: Pipe, r: (Stdio, Option<PipeCall>)| #[trigger]
            call_ensures(Stdio::from_pipe, (p,), r) ==> {
                &&& r.0 is Null
                &&& p@ == 0 ==> r.1 is None
                &&& p@ != 0 ==> r.1 == Some(PipeCall::Close { fh: p@ })
            },
{
}

/// The text that the system is handed for a command is the text itself, and only one with a
/// NUL is refused.
pub proof fn command_texts_are_handed_over_whole(text: &str, r: Result<CString, Error>)
    requires
        call_ensures(cstr, (text,), r),
    ensures
        r is Ok <==> nul_free(encode_utf8(text@)),
        r matches Ok(c) ==> c@ == encode_utf8(text@),
        r matches Err(e) ==> e == Error::Message(
            ErrorKind::InvalidInput,
            "command contains a NUL byte",
        ),
{
}

/// The environment that a command is run in has, of every variable, the value that the command
/// gives it, nothing where the command unsets it, and else what was there before, unless the
/// command starts from nothing.
pub proof fn a_command_is_run_in_its_environment(
    c: Command,
    current: &[EnvVar],
    envs: EnvTable,
    key: Seq<u8>,
)
    requires
        call_ensures(Command::get_resolved_envs, (&c, current), envs),
    ensures
        ({
            let changes = c.environment().changes();
            let there = table(entries(current@));
            if changes.dom().contains(key) {
                &&& changes[key] is Some ==> envs@.dom().contains(key) && envs@[key]
                    == changes[key]
                &&& changes[key] is None ==> !envs@.dom().contains(key)
            } else if c.environment().clears() {
                !envs@.dom().contains(key)
            } else {
                &&& envs@.dom().contains(key) <==> there.dom().contains(key)
                &&& there.dom().contains(key) ==> envs@[key] == there[key]
            }
        }),
{
}

/// An argument more stands behind those that are there, and nothing else of the command changes.
pub proof fn an_argument_goes_behind_the_others(c: &mut Command, arg: &[u8])
    requires
        call_ensures(Command::arg, (c, arg), ()),
    ensures
        final(c).arguments().len() == old(c).arguments().len() + 1,
        final(c).arguments().drop_last() == old(c).arguments(),
        final(c).arguments().last()@ == arg@,
        final(c).program() == old(c).program(),
        final(c).environment() == old(c).environment(),
        final(c).directory() == old(c).directory(),
        final(c).input() == old(c).input(),
        final(c).output() == old(c).output(),
        final(c).errors() == old(c).errors(),
{
}

/// The directory of a command is the one that was said last, and nothing else changes.
pub proof fn the_directory_is_the_one_that_was_said(c: &mut Command, dir: &[u8])
    requires
        call_ensures(Command::cwd, (c, dir), ()),
    ensures
        final(c).directory() == Some(dir@),
        final(c).program() == old(c).program(),
        final(c).arguments() == old(c).arguments(),
        final(c).environment() == old(c).environment(),
        final(c).input() == old(c).input(),
        final(c).output() == old(c).output(),
        final(c).errors() == old(c).errors(),
{
}

/// What the input of a command is connected to is what was said last, and what was said before is
/// handed back; nothing else changes.
pub proof fn the_input_is_what_was_said(c: &mut Command, s: Stdio, before: Option<Stdio>)
    requires
        call_ensures(Command::stdin, (c, s), before),
    ensures
        final(c).input() == Some(s),
        before == old(c).input(),
        final(c).program() == old(c).program(),
        final(c).arguments() == old(c).arguments(),
        final(c).environment() == old(c).environment(),
        final(c).directory() == old(c).directory(),
        final(c).output() == old(c).output(),
        final(c).errors() == old(c).errors(),
{
}

/// What the output of a command is connected to is what was said last, and what was said before is
/// handed back; nothing else changes.
pub proof fn the_output_is_what_was_said(c: &mut Command, s: Stdio, before: Option<Stdio>)
    requires
        call_ensures(Command::stdout, (c, s), before),
    ensures
        final(c).output() == Some(s),
        before == old(c).output(),
        final(c).program() == old(c).program(),
        final(c).arguments() == old(c).arguments(),
        final(c).environment() == old(c).environment(),
        final(c).directory() == old(c).directory(),
        final(c).input() == old(c).input(),
        final(c).errors() == old(c).errors(),
{
}

/// What the error stream of a command is connected to is what was said last, and what was said before is
/// handed back; nothing else changes.
pub proof fn the_error_stream_is_what_was_said(c: &mut Command, s: Stdio, before: Option<Stdio>)
    requires
        call_ensures(Command::stderr, (c, s), before),
    ensures
        final(c).errors() == Some(s),
        before == old(c).errors(),
        final(c).program() == old(c).program(),
        final(c).arguments() == old(c).arguments(),
        final(c).environment() == old(c).environment(),
        final(c).directory() == old(c).directory(),
        final(c).input() == old(c).input(),
        final(c).output() == old(c).output(),
{
}

/// The arguments of a command are handed out in their order, each once, and there are as many
/// left as are told.
pub proof fn arguments_are_handed_out_in_order<'a>(
    a: &mut CommandArgs<'a>,
    arg: Option<&'a [u8]>,
    n: usize,
    none: bool,
)
    requires
        call_ensures(CommandArgs::next, (a,), arg),
        call_ensures(CommandArgs::len, (&*old(a),), n),
        call_ensures(CommandArgs::is_empty, (&*old(a),), none),
    ensures
        n == old(a)@.len(),
        none <==> n == 0,
        old(a)@.len() == 0 ==> arg is None && final(a)@ == old(a)@,
        old(a)@.len() > 0 ==> (arg matches Some(word) && word@ == old(a)@[0]@ && final(a)@
            == old(a)@.drop_first()),
{
}

/// A file becomes the stream itself, and a standard stream of this process becomes that stream and
/// not the other one.
pub proof fn streams_become_what_they_are(file: File, out: Stdout, err: Stderr)
    ensures
        <Stdio as vstd::std_specs::convert::FromSpec<File>>::from_spec(file) == Stdio::InheritFile(
            file,
        ),
        <Stdio as vstd::std_specs::convert::FromSpec<Stdout>>::from_spec(out) is ParentStdout,
        <Stdio as vstd::std_specs::convert::FromSpec<Stderr>>::from_spec(err) is ParentStderr,
{
}

/// The environment of a command is changed through what is handed out for that, and nothing else
/// of the command is.
pub proof fn the_environment_is_changed_in_place<'a>(c: &'a mut Command, env: &'a mut CommandEnv)
    requires
        call_ensures(Command::env_mut, (c,), env),
    ensures
        *old(env) == old(c).environment(),
        final(c).environment() == *final(env),
        final(c).program() == old(c).program(),
        final(c).arguments() == old(c).arguments(),
        final(c).directory() == old(c).directory(),
        final(c).input() == old(c).input(),
        final(c).output() == old(c).output(),
        final(c).errors() == old(c).errors(),
{
}

} // verus!
