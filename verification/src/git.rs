//! The Git command-line adapter: how `git` is invoked, how its failures are reported, and
//! how the answers that locate a repository (`rev-parse`, `worktree list`, `core.worktree`,
//! the `.git` pointer file) are interpreted.

use vstd::prelude::*;

use crate::error::{CliError, DetailValue, ErrorCode};
use crate::paths::{is_absolute_spec, join_path, join_path_spec};
use crate::process::{
    describe_process_error, OutputPolicy, ProcessCommand, ProcessError, ProcessOutput,
    ProcessRunner, StdinPolicy,
};
use crate::text::{
    bool_text, chars_of, debug_option_spec, push_bool, push_debug_option, push_quoted, quoted,
    split_bytes, split_on, starts_with_str, string_of, trim_chars, trim_spec, trim_str,
    utf8_lossy, utf8_lossy_string,
};

verus! {

/// Default timeout of one `git` run, in milliseconds.
pub const DEFAULT_GIT_TIMEOUT_MS: u64 = 30000;

/// A `git` run that failed, with everything it produced.
#[derive(Debug)]
pub struct GitCommandFailure {
    pub cwd: String,
    pub args: Vec<String>,
    pub exit_code: Option<i32>,
    pub timed_out: bool,
    pub stdout: Vec<u8>,
    pub stderr: Vec<u8>,
    pub source: Option<ProcessError>,
}

#[derive(Debug)]
pub enum GitCliError {
    NotGitRepository { cwd: String, stderr: Vec<u8> },
    UnsupportedRepositoryLayout { cwd: String, reason: String },
    GitCommandFailed(Box<GitCommandFailure>),
}

pub open spec fn git_error_code(error: GitCliError) -> Seq<char> {
    match error {
        GitCliError::NotGitRepository { .. } => "NOT_GIT_REPOSITORY"@,
        GitCliError::UnsupportedRepositoryLayout { .. } => "UNSUPPORTED_REPOSITORY_LAYOUT"@,
        GitCliError::GitCommandFailed(_) => "GIT_COMMAND_FAILED"@,
    }
}

pub open spec fn args_view(args: Seq<String>) -> Seq<Seq<char>> {
    args.map_values(|a: String| a@)
}

/// `[a, b]` with each argument quoted.
pub open spec fn quoted_list(args: Seq<Seq<char>>) -> Seq<char> {
    "["@ + crate::text::join_spec(args.map_values(|a: Seq<char>| quoted(a)), ", "@) + "]"@
}

/// One-line description of a Git adapter error.
pub open spec fn describe_git_error(error: GitCliError) -> Seq<char> {
    match error {
        GitCliError::NotGitRepository { cwd, .. } => cwd@ + " is not inside a Git repository"@,
        GitCliError::UnsupportedRepositoryLayout { cwd, reason } => "unsupported Git repository layout in "@
            + cwd@ + ": "@ + reason@,
        GitCliError::GitCommandFailed(failure) => "git command failed in "@ + failure.cwd@
            + " (args: "@ + quoted_list(args_view(failure.args@)) + ", exit code: "@
            + debug_option_spec(failure.exit_code) + ", timed out: "@ + bool_text(failure.timed_out)
            + ")"@,
    }
}

fn push_quoted_list(out: &mut String, args: &Vec<String>)
    ensures
        final(out)@ == old(out)@ + quoted_list(args_view(args@)),
{
    let ghost parts = args_view(args@).map_values(|a: Seq<char>| quoted(a));
    out.append("[");
    let ghost start = out@;
    let mut i: usize = 0;
    while i < args.len()
        invariant
            i <= args@.len(),
            parts == args_view(args@).map_values(|a: Seq<char>| quoted(a)),
            out@ == start + crate::text::join_spec(parts.take(i as int), ", "@),
        decreases args.len() - i,
    {
        if i > 0 {
            out.append(", ");
        }
        push_quoted(out, args[i].as_str());
        proof {
            assert(parts.take(i + 1).drop_last() =~= parts.take(i as int));
            assert(parts[i as int] == quoted(args@[i as int]@));
            if i == 0 {
                assert(parts.take(1).len() == 1);
            }
            assert(out@ =~= start + crate::text::join_spec(parts.take(i + 1), ", "@));
        }
        i = i + 1;
    }
    assert(parts.take(args@.len() as int) =~= parts);
    out.append("]");
    assert(final(out)@ =~= old(out)@ + quoted_list(args_view(args@)));
}

impl GitCliError {
    /// The stable error code.
    pub fn code(&self) -> (code: &'static str)
        ensures
            code@ == git_error_code(*self),
    {
        match self {
            GitCliError::NotGitRepository { .. } => "NOT_GIT_REPOSITORY",
            GitCliError::UnsupportedRepositoryLayout { .. } => "UNSUPPORTED_REPOSITORY_LAYOUT",
            GitCliError::GitCommandFailed(_) => "GIT_COMMAND_FAILED",
        }
    }

    /// The error message.
    pub fn describe(&self) -> (text: String)
        ensures
            text@ == describe_git_error(*self),
    {
        match self {
            GitCliError::NotGitRepository { cwd, .. } => {
                let mut text = cwd.clone();
                text.append(" is not inside a Git repository");
                text
            },
            GitCliError::UnsupportedRepositoryLayout { cwd, reason } => {
                let mut text = String::from_str("unsupported Git repository layout in ");
                text.append(cwd.as_str());
                text.append(": ");
                text.append(reason.as_str());
                text
            },
            GitCliError::GitCommandFailed(failure) => {
                let mut text = String::from_str("git command failed in ");
                text.append(failure.cwd.as_str());
                text.append(" (args: ");
                push_quoted_list(&mut text, &failure.args);
                text.append(", exit code: ");
                push_debug_option(&mut text, failure.exit_code);
                text.append(", timed out: ");
                push_bool(&mut text, failure.timed_out);
                text.append(")");
                text
            },
        }
    }
}

/// The failure recorded for a finished `git` run that did not succeed.
pub open spec fn is_command_failure(error: GitCliError, cwd: Seq<char>, args: Seq<Seq<char>>, output: ProcessOutput) -> bool {
    error matches GitCliError::GitCommandFailed(f) && f.cwd@ == cwd && args_view(f.args@) == args
        && f.exit_code == output.exit_code && f.timed_out == output.timed_out && f.stdout
        == output.stdout && f.stderr == output.stderr && f.source is None
}

/// The failure recorded when `git` could not be run at all.
pub open spec fn is_run_failure(error: GitCliError, cwd: Seq<char>, args: Seq<Seq<char>>, source: ProcessError) -> bool {
    error matches GitCliError::GitCommandFailed(f) && f.cwd@ == cwd && args_view(f.args@) == args
        && f.exit_code is None && !f.timed_out && f.stdout@.len() == 0 && f.stderr@.len() == 0
        && f.source == Some(source)
}

fn copy_args(args: &[String]) -> (copy: Vec<String>)
    ensures
        args_view(copy@) == args_view(args@),
{
    let mut copy: Vec<String> = Vec::new();
    let mut i: usize = 0;
    while i < args.len()
        invariant
            i <= args@.len(),
            args_view(copy@) == args_view(args@).take(i as int),
        decreases args.len() - i,
    {
        let ghost before = args_view(copy@);
        copy.push(args[i].clone());
        assert(args_view(copy@) =~= before.push(args@[i as int]@));
        assert(args_view(args@).take(i + 1) =~= args_view(args@).take(i as int).push(args@[i as int]@));
        i = i + 1;
    }
    assert(args_view(args@).take(args@.len() as int) =~= args_view(args@));
    copy
}

pub fn command_failure(cwd: &str, args: &[String], output: ProcessOutput) -> (error: GitCliError)
    ensures
        is_command_failure(error, cwd@, args_view(args@), output),
{
    GitCliError::GitCommandFailed(
        Box::new(
            GitCommandFailure {
                cwd: cwd.to_owned(),
                args: copy_args(args),
                exit_code: output.exit_code,
                timed_out: output.timed_out,
                stdout: output.stdout,
                stderr: output.stderr,
                source: None,
            },
        ),
    )
}

pub fn unsupported_layout(cwd: &str, reason: &str) -> (error: GitCliError)
    ensures
        error matches GitCliError::UnsupportedRepositoryLayout { cwd: c, reason: r } && c@ == cwd@
            && r@ == reason@,
{
    GitCliError::UnsupportedRepositoryLayout { cwd: cwd.to_owned(), reason: reason.to_owned() }
}

/// The process command for `git` with the given arguments: run in `cwd`, no stdin, both
/// output streams captured, bounded by the timeout.
pub open spec fn git_command_spec(command: ProcessCommand, cwd: Seq<char>, args: Seq<Seq<char>>, timeout_ms: u64) -> bool {
    &&& command.program@ == "git"@
    &&& args_view(command.args@) == args
    &&& command.cwd matches Some(c) && c@ == cwd
    &&& command.env@.len() == 0
    &&& command.inherit_env
    &&& command.stdin == StdinPolicy::Null
    &&& command.stdout == OutputPolicy::Capture
    &&& command.stderr == OutputPolicy::Capture
    &&& command.timeout_ms == Some(timeout_ms)
    &&& command.max_output_bytes == crate::process::DEFAULT_MAX_OUTPUT_BYTES
}

pub fn git_command(cwd: &str, args: &[String], timeout_ms: u64) -> (command: ProcessCommand)
    ensures
        git_command_spec(command, cwd@, args_view(args@), timeout_ms),
{
    let mut command = ProcessCommand::new("git");
    command.args = copy_args(args);
    command.cwd = Some(cwd.to_owned());
    command.stdin = StdinPolicy::Null;
    command.stdout = OutputPolicy::Capture;
    command.stderr = OutputPolicy::Capture;
    command.timeout_ms = Some(timeout_ms);
    command
}

/// `result` is what `execute` makes of an answer `runner` may give to the `git` command of
/// `args` in `cwd` with `timeout_ms`.
pub open spec fn git_run_reported<R: ProcessRunner>(runner: R, cwd: Seq<char>, args: Seq<Seq<char>>, timeout_ms: u64, result: Result<ProcessOutput, GitCliError>) -> bool {
    exists|command: ProcessCommand, outcome: Result<ProcessOutput, ProcessError>|
        #[trigger] runner.ran(command, outcome) && git_command_spec(command, cwd, args, timeout_ms)
            && execute_outcome_ok(cwd, args, outcome, result)
}

/// `result` is what `execute_checked` makes of such an answer: a run's failure as it is, a
/// finished run checked for a clean exit.
pub open spec fn git_checked_reported<R: ProcessRunner>(runner: R, cwd: Seq<char>, args: Seq<Seq<char>>, timeout_ms: u64, result: Result<ProcessOutput, GitCliError>) -> bool {
    exists|raw: Result<ProcessOutput, GitCliError>| #[trigger] git_run_reported(runner, cwd, args, timeout_ms, raw) && match raw {
        Err(e) => result == Err::<ProcessOutput, GitCliError>(e),
        Ok(o) => checked_ok(cwd, args, o, result),
    }
}

/// What `execute` returns for a given runner outcome.
pub open spec fn execute_outcome_ok(cwd: Seq<char>, args: Seq<Seq<char>>, outcome: Result<ProcessOutput, ProcessError>, result: Result<ProcessOutput, GitCliError>) -> bool {
    match outcome {
        Ok(output) => result == Ok::<ProcessOutput, GitCliError>(output),
        Err(source) => result matches Err(e) && is_run_failure(e, cwd, args, source),
    }
}

pub fn execute_outcome(cwd: &str, args: &[String], outcome: Result<ProcessOutput, ProcessError>) -> (result: Result<ProcessOutput, GitCliError>)
    ensures
        execute_outcome_ok(cwd@, args_view(args@), outcome, result),
{
    match outcome {
        Ok(output) => Ok(output),
        Err(source) => Err(
            GitCliError::GitCommandFailed(
                Box::new(
                    GitCommandFailure {
                        cwd: cwd.to_owned(),
                        args: copy_args(args),
                        exit_code: None,
                        timed_out: false,
                        stdout: Vec::new(),
                        stderr: Vec::new(),
                        source: Some(source),
                    },
                ),
            ),
        ),
    }
}

/// `Ok` only for a run that exited with status zero within its timeout; otherwise the
/// command failure with everything the run produced.
pub open spec fn checked_ok(cwd: Seq<char>, args: Seq<Seq<char>>, output: ProcessOutput, result: Result<ProcessOutput, GitCliError>) -> bool {
    if output.exit_code == Some(0i32) && !output.timed_out {
        result == Ok::<ProcessOutput, GitCliError>(output)
    } else {
        result matches Err(e) && is_command_failure(e, cwd, args, output)
    }
}

pub fn check_output(cwd: &str, args: &[String], output: ProcessOutput) -> (result: Result<ProcessOutput, GitCliError>)
    ensures
        checked_ok(cwd@, args_view(args@), output, result),
{
    let succeeded = match output.exit_code {
        Some(code) => code == 0,
        None => false,
    };
    if succeeded && !output.timed_out {
        Ok(output)
    } else {
        Err(command_failure(cwd, args, output))
    }
}

/// Runs `git` through a process runner.
#[derive(Debug)]
pub struct GitCli<R> {
    runner: R,
    timeout_ms: u64,
}

impl<R: ProcessRunner> GitCli<R> {
    pub closed spec fn spec_runner(&self) -> R {
        self.runner
    }

    pub closed spec fn spec_timeout_ms(&self) -> u64 {
        self.timeout_ms
    }

    pub fn new(runner: R) -> (git: Self)
        ensures
            git.spec_runner() == runner,
            git.spec_timeout_ms() == DEFAULT_GIT_TIMEOUT_MS,
    {
        GitCli { runner, timeout_ms: DEFAULT_GIT_TIMEOUT_MS }
    }

    pub fn with_timeout(runner: R, timeout_ms: u64) -> (git: Self)
        ensures
            git.spec_runner() == runner,
            git.spec_timeout_ms() == timeout_ms,
    {
        GitCli { runner, timeout_ms }
    }

    /// The runner the adapter drives.
    pub fn runner(&self) -> (runner: &R)
        ensures
            *runner == self.spec_runner(),
    {
        &self.runner
    }

    /// Runs `git <args>` in `cwd`. A run that could not happen becomes a command failure
    /// that carries the process error; a finished run is returned whatever its status.
    pub fn execute(&self, cwd: &str, args: &[String]) -> (result: Result<ProcessOutput, GitCliError>)
        ensures
            exists|outcome: Result<ProcessOutput, ProcessError>|
                #[trigger] execute_outcome_ok(cwd@, args_view(args@), outcome, result),
            git_run_reported(self.spec_runner(), cwd@, args_view(args@), self.spec_timeout_ms(), result),
    {
        let command = git_command(cwd, args, self.timeout_ms);
        let outcome = self.runner.run(&command);
        let ghost seen = outcome;
        let result = execute_outcome(cwd, args, outcome);
        assert(execute_outcome_ok(cwd@, args_view(args@), seen, result));
        assert(self.runner.ran(command, seen) && git_command_spec(command, cwd@, args_view(args@), self.timeout_ms));
        result
    }

    /// Like `execute`, but a run that exits non-zero or times out is an error too.
    pub fn execute_checked(&self, cwd: &str, args: &[String]) -> (result: Result<ProcessOutput, GitCliError>)
        ensures
            result matches Ok(output) ==> output.exit_code == Some(0i32) && !output.timed_out,
            result matches Err(e) ==> (exists|source: ProcessError| #[trigger] is_run_failure(e, cwd@, args_view(args@), source))
                || (exists|output: ProcessOutput| #[trigger] is_command_failure(e, cwd@, args_view(args@), output)),
            git_checked_reported(self.spec_runner(), cwd@, args_view(args@), self.spec_timeout_ms(), result),
    {
        let raw = self.execute(cwd, args);
        let ghost r = raw;
        match raw {
            Ok(output) => {
                let ghost seen = output;
                let result = check_output(cwd, args, output);
                assert(git_checked_reported(self.spec_runner(), cwd@, args_view(args@), self.spec_timeout_ms(), result)) by {
                    assert(git_run_reported(self.spec_runner(), cwd@, args_view(args@), self.spec_timeout_ms(), r));
                }
                proof {
                    if result is Err {
                        assert(is_command_failure(result->Err_0, cwd@, args_view(args@), seen));
                    }
                }
                result
            },
            Err(error) => {
                proof {
                    let outcome = choose|outcome: Result<ProcessOutput, ProcessError>|
                        #[trigger] execute_outcome_ok(cwd@, args_view(args@), outcome, Err::<ProcessOutput, GitCliError>(error));
                    assert(is_run_failure(error, cwd@, args_view(args@), outcome->Err_0));
                    assert(git_run_reported(self.spec_runner(), cwd@, args_view(args@), self.spec_timeout_ms(), r));
                }
                Err(error)
            },
        }
    }
}

// ----- reading git's answers -----

/// `u8::is_ascii_whitespace`: space, tab, line feed, form feed, carriage return.
pub open spec fn is_ascii_ws(b: u8) -> bool {
    b == 32 || b == 9 || b == 10 || b == 12 || b == 13
}

pub open spec fn ascii_trim_start(b: Seq<u8>) -> int
    decreases b.len(),
{
    if b.len() > 0 && is_ascii_ws(b[0]) {
        1 + ascii_trim_start(b.drop_first())
    } else {
        0
    }
}

/// Bytes with leading and trailing ASCII whitespace removed.
pub open spec fn trim_ascii_spec(b: Seq<u8>) -> Seq<u8>
    decreases b.len(),
{
    if b.len() > 0 && is_ascii_ws(b[0]) {
        trim_ascii_spec(b.drop_first())
    } else if b.len() > 0 && is_ascii_ws(b.last()) {
        trim_ascii_spec(b.drop_last())
    } else {
        b
    }
}

/// Leading and trailing ASCII whitespace removed.
pub fn trim_ascii_whitespace(bytes: &[u8]) -> (trimmed: &[u8])
    ensures
        trimmed@ == trim_ascii_spec(bytes@),
{
    let mut start: usize = 0;
    let n = bytes.len();
    assert(bytes@.skip(0) =~= bytes@);
    while start < n && (bytes[start] == 32 || bytes[start] == 9 || bytes[start] == 10 || bytes[start] == 12
        || bytes[start] == 13)
        invariant
            start <= n == bytes@.len(),
            trim_ascii_spec(bytes@) == trim_ascii_spec(bytes@.skip(start as int)),
        decreases n - start,
    {
        assert(bytes@.skip(start as int).drop_first() =~= bytes@.skip(start + 1));
        start = start + 1;
    }
    let mut end: usize = n;
    while end > start && (bytes[end - 1] == 32 || bytes[end - 1] == 9 || bytes[end - 1] == 10
        || bytes[end - 1] == 12 || bytes[end - 1] == 13)
        invariant
            start <= end <= n == bytes@.len(),
            start < n ==> !is_ascii_ws(bytes@[start as int]),
            trim_ascii_spec(bytes@) == trim_ascii_spec(bytes@.subrange(start as int, end as int)),
        decreases end - start,
    {
        let ghost piece = bytes@.subrange(start as int, end as int);
        assert(piece.drop_last() =~= bytes@.subrange(start as int, end - 1));
        if end - 1 > start {
            assert(piece[0] == bytes@[start as int]);
        } else {
            assert(piece.len() == 1);
            assert(piece[0] == bytes@[start as int]);
        }
        end = end - 1;
    }
    assert(bytes@.skip(start as int) =~= bytes@.subrange(start as int, n as int));
    vstd::slice::slice_subrange(bytes, start, end)
}

/// A path from raw bytes; bytes that are not UTF-8 are replaced.
pub fn path_from_bytes(bytes: &[u8]) -> (path: String)
    ensures
        path@ == utf8_lossy(bytes@),
{
    utf8_lossy_string(bytes)
}

pub open spec fn worktree_prefix() -> Seq<u8> {
    seq![119u8, 111u8, 114u8, 107u8, 116u8, 114u8, 101u8, 101u8, 32u8]
}

/// The paths of the `worktree <path>` fields among NUL-separated porcelain fields.
pub open spec fn worktree_paths_in(fields: Seq<Seq<u8>>) -> Seq<Seq<char>>
    decreases fields.len(),
{
    if fields.len() == 0 {
        Seq::empty()
    } else {
        let prev = worktree_paths_in(fields.drop_last());
        let f = fields.last();
        if f.len() >= 9 && f.take(9) == worktree_prefix() {
            prev.push(utf8_lossy(f.skip(9)))
        } else {
            prev
        }
    }
}

pub open spec fn worktree_paths_spec(output: Seq<u8>) -> Seq<Seq<char>> {
    worktree_paths_in(split_on(output, 0u8))
}

fn has_worktree_prefix(field: &Vec<u8>) -> (found: bool)
    ensures
        found == (field@.len() >= 9 && field@.take(9) == worktree_prefix()),
{
    if field.len() < 9 {
        return false;
    }
    let found = field[0] == 119 && field[1] == 111 && field[2] == 114 && field[3] == 107 && field[4]
        == 116 && field[5] == 114 && field[6] == 101 && field[7] == 101 && field[8] == 32;
    proof {
        if found {
            assert(field@.take(9) =~= worktree_prefix());
        } else {
            if field@.take(9) == worktree_prefix() {
                assert(field@.take(9)[0] == field@[0]);
                assert(field@.take(9)[8] == field@[8]);
                assert(false);
            }
        }
    }
    found
}

/// The worktree paths listed by `git worktree list --porcelain -z`, in order.
pub fn worktree_paths_from_porcelain(output: &[u8]) -> (paths: Vec<String>)
    ensures
        paths@.map_values(|p: String| p@) == worktree_paths_spec(output@),
{
    let fields = split_bytes(output, 0u8);
    let ghost fv = fields@.map_values(|f: Vec<u8>| f@);
    let mut paths: Vec<String> = Vec::new();
    let mut i: usize = 0;
    while i < fields.len()
        invariant
            i <= fields@.len(),
            fv == fields@.map_values(|f: Vec<u8>| f@),
            paths@.map_values(|p: String| p@) == worktree_paths_in(fv.take(i as int)),
        decreases fields.len() - i,
    {
        assert(fv.take(i + 1).drop_last() =~= fv.take(i as int));
        assert(fv[i as int] == fields@[i as int]@);
        if has_worktree_prefix(&fields[i]) {
            let rest = vstd::slice::slice_subrange(fields[i].as_slice(), 9, fields[i].len());
            let ghost before = paths@.map_values(|p: String| p@);
            paths.push(path_from_bytes(rest));
            assert(rest@ =~= fields@[i as int]@.skip(9));
            assert(paths@.map_values(|p: String| p@) =~= before.push(utf8_lossy(fv[i as int].skip(9))));
        }
        i = i + 1;
    }
    assert(fv.take(fields@.len() as int) =~= fv);
    paths
}

// ----- locating the repository -----

/// Where a command runs: the primary worktree, the current worktree and the common Git
/// directory.
#[derive(Clone, Debug, PartialEq, Eq)]
pub struct RepoContext {
    pub repo_root: String,
    pub current_worktree_root: String,
    pub git_common_dir: String,
}

fn push_arg(args: &mut Vec<String>, arg: &str)
    ensures
        args_view(final(args)@) == args_view(old(args)@).push(arg@),
{
    args.push(arg.to_owned());
    assert(args_view(args@) =~= args_view(old(args)@).push(arg@));
}

pub open spec fn toplevel_args_spec() -> Seq<Seq<char>> {
    seq!["rev-parse"@, "--show-toplevel"@]
}

pub open spec fn common_dir_args_spec() -> Seq<Seq<char>> {
    seq!["rev-parse"@, "--path-format=absolute"@, "--git-common-dir"@]
}

pub open spec fn worktree_list_args_spec() -> Seq<Seq<char>> {
    seq!["worktree"@, "list"@, "--porcelain"@, "-z"@]
}

pub open spec fn core_worktree_args_spec() -> Seq<Seq<char>> {
    seq!["config"@, "--path"@, "--get"@, "core.worktree"@]
}

pub fn toplevel_args() -> (args: Vec<String>)
    ensures
        args_view(args@) == toplevel_args_spec(),
{
    let mut args: Vec<String> = Vec::new();
    assert(args_view(args@) =~= Seq::<Seq<char>>::empty());
    push_arg(&mut args, "rev-parse");
    push_arg(&mut args, "--show-toplevel");
    assert(args_view(args@) =~= toplevel_args_spec());
    args
}

pub fn common_dir_args() -> (args: Vec<String>)
    ensures
        args_view(args@) == common_dir_args_spec(),
{
    let mut args: Vec<String> = Vec::new();
    assert(args_view(args@) =~= Seq::<Seq<char>>::empty());
    push_arg(&mut args, "rev-parse");
    push_arg(&mut args, "--path-format=absolute");
    push_arg(&mut args, "--git-common-dir");
    assert(args_view(args@) =~= common_dir_args_spec());
    args
}

pub fn worktree_list_args() -> (args: Vec<String>)
    ensures
        args_view(args@) == worktree_list_args_spec(),
{
    let mut args: Vec<String> = Vec::new();
    assert(args_view(args@) =~= Seq::<Seq<char>>::empty());
    push_arg(&mut args, "worktree");
    push_arg(&mut args, "list");
    push_arg(&mut args, "--porcelain");
    push_arg(&mut args, "-z");
    assert(args_view(args@) =~= worktree_list_args_spec());
    args
}

pub fn core_worktree_args() -> (args: Vec<String>)
    ensures
        args_view(args@) == core_worktree_args_spec(),
{
    let mut args: Vec<String> = Vec::new();
    assert(args_view(args@) =~= Seq::<Seq<char>>::empty());
    push_arg(&mut args, "config");
    push_arg(&mut args, "--path");
    push_arg(&mut args, "--get");
    push_arg(&mut args, "core.worktree");
    assert(args_view(args@) =~= core_worktree_args_spec());
    args
}

pub open spec fn succeeded(output: ProcessOutput) -> bool {
    output.exit_code == Some(0i32) && !output.timed_out
}

fn output_succeeded(output: &ProcessOutput) -> (ok: bool)
    ensures
        ok == succeeded(*output),
{
    let zero = match output.exit_code {
        Some(code) => code == 0,
        None => false,
    };
    zero && !output.timed_out
}

/// A path printed by git: the trimmed standard output, which must not be empty.
pub open spec fn stdout_path_ok(cwd: Seq<char>, args: Seq<Seq<char>>, output: ProcessOutput, result: Result<String, GitCliError>) -> bool {
    let trimmed = trim_spec(utf8_lossy(output.stdout@));
    if trimmed.len() == 0 {
        result matches Err(e) && is_command_failure(e, cwd, args, output)
    } else {
        result matches Ok(p) && p@ == trimmed
    }
}

pub fn path_from_stdout(cwd: &str, args: &[String], output: ProcessOutput) -> (result: Result<String, GitCliError>)
    ensures
        stdout_path_ok(cwd@, args_view(args@), output, result),
{
    let text = utf8_lossy_string(output.stdout.as_slice());
    let trimmed = trim_str(text.as_str());
    if trimmed.unicode_len() == 0 {
        return Err(command_failure(cwd, args, output));
    }
    Ok(trimmed)
}

/// The current worktree root from `git rev-parse --show-toplevel`: a run that did not succeed
/// means `cwd` is not inside a repository.
pub open spec fn toplevel_ok(cwd: Seq<char>, output: ProcessOutput, result: Result<String, GitCliError>) -> bool {
    if !succeeded(output) {
        result matches Err(GitCliError::NotGitRepository { cwd: c, stderr }) && c@ == cwd && stderr
            == output.stderr
    } else {
        stdout_path_ok(cwd, toplevel_args_spec(), output, result)
    }
}

pub fn toplevel_answer(cwd: &str, output: ProcessOutput) -> (result: Result<String, GitCliError>)
    ensures
        toplevel_ok(cwd@, output, result),
{
    if !output_succeeded(&output) {
        return Err(GitCliError::NotGitRepository { cwd: cwd.to_owned(), stderr: output.stderr });
    }
    path_from_stdout(cwd, &toplevel_args(), output)
}

/// The common Git directory from `git rev-parse --git-common-dir`.
pub open spec fn common_dir_ok(cwd: Seq<char>, output: ProcessOutput, result: Result<String, GitCliError>) -> bool {
    if !succeeded(output) {
        result matches Err(e) && is_command_failure(e, cwd, common_dir_args_spec(), output)
    } else {
        stdout_path_ok(cwd, common_dir_args_spec(), output, result)
    }
}

pub fn common_dir_answer(cwd: &str, output: ProcessOutput) -> (result: Result<String, GitCliError>)
    ensures
        common_dir_ok(cwd@, output, result),
{
    if !output_succeeded(&output) {
        return Err(command_failure(cwd, &common_dir_args(), output));
    }
    path_from_stdout(cwd, &common_dir_args(), output)
}

/// The first worktree that `git worktree list` names is the primary one; a listing that
/// names none is a command failure.
pub open spec fn listed_primary_ok(cwd: Seq<char>, output: ProcessOutput, result: Result<String, GitCliError>) -> bool {
    let listed = worktree_paths_spec(output.stdout@);
    if listed.len() == 0 {
        result matches Err(e) && is_command_failure(e, cwd, worktree_list_args_spec(), output)
    } else {
        result matches Ok(p) && p@ == listed[0]
    }
}

pub fn listed_primary_answer(cwd: &str, output: ProcessOutput) -> (result: Result<String, GitCliError>)
    ensures
        listed_primary_ok(cwd@, output, result),
{
    let mut listed = worktree_paths_from_porcelain(output.stdout.as_slice());
    if listed.len() == 0 {
        return Err(command_failure(cwd, &worktree_list_args(), output));
    }
    let ghost first = listed@[0]@;
    let primary = listed.swap_remove(0);
    assert(primary@ == first);
    Ok(primary)
}

/// The worktree a separate Git directory names in `core.worktree`: status 1 means it is not
/// set, any other failure is a command failure; the value must not be empty, and a relative
/// value is taken inside the common Git directory.
pub open spec fn configured_worktree_ok(cwd: Seq<char>, common_dir: Seq<char>, output: ProcessOutput, result: Result<String, GitCliError>) -> bool {
    let value = utf8_lossy(trim_ascii_spec(output.stdout@));
    if output.timed_out || !(output.exit_code == Some(0i32) || output.exit_code == Some(1i32)) {
        result matches Err(e) && is_command_failure(e, cwd, core_worktree_args_spec(), output)
    } else if output.exit_code == Some(1i32) {
        result matches Err(GitCliError::UnsupportedRepositoryLayout { cwd: c, reason }) && c@ == cwd
            && reason@ == "separate Git directory does not define core.worktree"@
    } else if value.len() == 0 {
        result matches Err(GitCliError::UnsupportedRepositoryLayout { cwd: c, reason }) && c@ == cwd
            && reason@ == "core.worktree must not be empty"@
    } else {
        result matches Ok(p) && p@ == crate::paths::join_path_spec(common_dir, value)
    }
}

pub fn configured_worktree_answer(cwd: &str, common_dir: &str, output: ProcessOutput) -> (result: Result<String, GitCliError>)
    ensures
        configured_worktree_ok(cwd@, common_dir@, output, result),
{
    let status = match output.exit_code {
        Some(code) => if code == 0 {
            0u8
        } else if code == 1 {
            1u8
        } else {
            2u8
        },
        None => 2u8,
    };
    if output.timed_out || status == 2 {
        return Err(command_failure(cwd, &core_worktree_args(), output));
    }
    if status == 1 {
        return Err(unsupported_layout(cwd, "separate Git directory does not define core.worktree"));
    }
    let value = path_from_bytes(trim_ascii_whitespace(output.stdout.as_slice()));
    if value.unicode_len() == 0 {
        return Err(unsupported_layout(cwd, "core.worktree must not be empty"));
    }
    Ok(join_path(common_dir, value.as_str()))
}

/// The Git directory a worktree's `.git` pointer file names: the trimmed contents must start
/// with `gitdir: `; a relative target is taken inside the worktree.
pub open spec fn pointer_target_ok(cwd: Seq<char>, worktree: Seq<char>, pointer_path: Seq<char>, contents: Seq<char>, result: Result<String, GitCliError>) -> bool {
    let trimmed = trim_spec(contents);
    if trimmed.len() >= 8 && trimmed.take(8) == "gitdir: "@ {
        result matches Ok(p) && p@ == crate::paths::join_path_spec(worktree, trimmed.skip(8))
    } else {
        result matches Err(GitCliError::UnsupportedRepositoryLayout { cwd: c, reason }) && c@ == cwd
            && reason@ == pointer_path + " is not a Git directory pointer"@
    }
}

pub fn pointer_target_answer(cwd: &str, worktree: &str, pointer_path: &str, contents: &str) -> (result: Result<String, GitCliError>)
    ensures
        pointer_target_ok(cwd@, worktree@, pointer_path@, contents@, result),
{
    let trimmed = trim_chars(&chars_of(contents));
    let text = string_of(&trimmed);
    if starts_with_str(text.as_str(), "gitdir: ") {
        proof {
            reveal_strlit("gitdir: ");
        }
        let mut target: Vec<char> = Vec::new();
        let mut i: usize = 8;
        while i < trimmed.len()
            invariant
                8 <= i <= trimmed@.len(),
                target@ == trimmed@.subrange(8, i as int),
            decreases trimmed.len() - i,
        {
            target.push(trimmed[i]);
            i = i + 1;
        }
        assert(trimmed@.subrange(8, trimmed@.len() as int) =~= trimmed@.skip(8));
        let target_text = string_of(&target);
        return Ok(join_path(worktree, target_text.as_str()));
    }
    let mut reason = pointer_path.to_owned();
    reason.append(" is not a Git directory pointer");
    Err(GitCliError::UnsupportedRepositoryLayout { cwd: cwd.to_owned(), reason })
}

/// The layout error for a `.git` pointer that names another Git directory.
pub fn pointer_mismatch(cwd: &str, pointer_path: &str, common_dir: &str) -> (error: GitCliError)
    ensures
        error matches GitCliError::UnsupportedRepositoryLayout { cwd: c, reason } && c@ == cwd@
            && reason@ == pointer_path@ + " does not point to the common Git directory "@ + common_dir@,
{
    let mut reason = pointer_path.to_owned();
    reason.append(" does not point to the common Git directory ");
    reason.append(common_dir);
    GitCliError::UnsupportedRepositoryLayout { cwd: cwd.to_owned(), reason }
}

// ----- repository discovery -----

/// The file-system questions of repository discovery: canonical paths, the text of a `.git`
/// pointer file, and whether two paths name the same location.
pub trait RepositoryFiles {
    /// The canonical path, or why it cannot be resolved.
    fn canonicalize(&self, path: &str) -> Result<String, String>;

    /// A file's text, or why it cannot be read.
    fn read_text(&self, path: &str) -> Result<String, String>;

    /// Whether these files may answer `same` when asked whether `left` and `right` name the
    /// same location. Files that say nothing of their answers may give any.
    open spec fn same_answer(&self, left: Seq<char>, right: Seq<char>, same: bool) -> bool {
        true
    }

    fn same_location(&self, left: &str, right: &str) -> (same: bool)
        ensures
            self.same_answer(left@, right@, same),
    ;
}

pub open spec fn is_layout_error(error: GitCliError, cwd: Seq<char>, reason: Seq<char>) -> bool {
    error matches GitCliError::UnsupportedRepositoryLayout { cwd: c, reason: r } && c@ == cwd && r@ == reason
}

/// A separate Git directory's worktree must resolve, and its `.git` pointer must name the
/// common Git directory.
pub open spec fn pointer_check_ok(
    cwd: Seq<char>,
    configured: Seq<char>,
    common_dir: Seq<char>,
    canonical: Result<String, String>,
    contents: Result<String, String>,
    target: Result<String, GitCliError>,
    same: bool,
    result: Result<String, GitCliError>,
) -> bool {
    match canonical {
        Err(why) => result matches Err(e) && is_layout_error(
            e,
            cwd,
            "core.worktree "@ + configured + " cannot be resolved: "@ + why@,
        ),
        Ok(worktree) => {
            let pointer = crate::paths::join_path_spec(worktree@, ".git"@);
            match contents {
                Err(why) => result matches Err(e) && is_layout_error(e, cwd, "cannot read "@ + pointer + ": "@ + why@),
                Ok(text) => pointer_target_ok(cwd, worktree@, pointer, text@, target) && match target {
                    Err(e) => result == Err::<String, GitCliError>(e),
                    Ok(_) => if same {
                        result matches Ok(r) && r@ == worktree@
                    } else {
                        result matches Err(e) && is_layout_error(
                            e,
                            cwd,
                            pointer + " does not point to the common Git directory "@ + common_dir,
                        )
                    },
                },
            }
        },
    }
}

pub open spec fn pointer_validation(cwd: Seq<char>, configured: Seq<char>, common_dir: Seq<char>, result: Result<String, GitCliError>) -> bool {
    exists|canonical: Result<String, String>, contents: Result<String, String>, target: Result<String, GitCliError>, same: bool|
        #[trigger] pointer_check_ok(cwd, configured, common_dir, canonical, contents, target, same, result)
}

/// Checks the `.git` pointer of the worktree a separate Git directory configures, and gives
/// that worktree's canonical path.
pub fn validate_separate_git_pointer<F: RepositoryFiles>(fs: &F, cwd: &str, configured: &str, common_dir: &str) -> (result: Result<String, GitCliError>)
    ensures
        pointer_validation(cwd@, configured@, common_dir@, result),
{
    let ghost unused_text: Result<String, String> = arbitrary();
    let ghost unused_target: Result<String, GitCliError> = arbitrary();
    let canonical = fs.canonicalize(configured);
    let ghost c = canonical;
    let worktree = match canonical {
        Ok(path) => path,
        Err(why) => {
            let mut reason = String::from_str("core.worktree ");
            reason.append(configured);
            reason.append(" cannot be resolved: ");
            reason.append(why.as_str());
            let result: Result<String, GitCliError> = Err(GitCliError::UnsupportedRepositoryLayout { cwd: cwd.to_owned(), reason });
            assert(pointer_check_ok(cwd@, configured@, common_dir@, c, unused_text, unused_target, false, result));
            return result;
        },
    };
    let pointer = crate::paths::join_path(worktree.as_str(), ".git");
    let contents = fs.read_text(pointer.as_str());
    let ghost t = contents;
    let text = match contents {
        Ok(text) => text,
        Err(why) => {
            let mut reason = String::from_str("cannot read ");
            reason.append(pointer.as_str());
            reason.append(": ");
            reason.append(why.as_str());
            let result: Result<String, GitCliError> = Err(GitCliError::UnsupportedRepositoryLayout { cwd: cwd.to_owned(), reason });
            assert(pointer_check_ok(cwd@, configured@, common_dir@, c, t, unused_target, false, result));
            return result;
        },
    };
    let target = pointer_target_answer(cwd, worktree.as_str(), pointer.as_str(), text.as_str());
    let ghost tg = target;
    let target_path = match target {
        Ok(path) => path,
        Err(error) => {
            let result: Result<String, GitCliError> = Err(error);
            assert(pointer_check_ok(cwd@, configured@, common_dir@, c, t, tg, false, result));
            return result;
        },
    };
    let same = fs.same_location(target_path.as_str(), common_dir);
    let result: Result<String, GitCliError> = if same {
        Ok(worktree)
    } else {
        Err(pointer_mismatch(cwd, pointer.as_str(), common_dir))
    };
    assert(pointer_check_ok(cwd@, configured@, common_dir@, c, t, tg, same, result));
    result
}

/// The primary worktree: the first one listed, unless that is the common Git directory
/// itself, in which case the separate Git directory's configured worktree is checked and
/// used.
pub open spec fn primary_root_ok(
    cwd: Seq<char>,
    common_dir: Seq<char>,
    listing: Result<ProcessOutput, GitCliError>,
    listed: Result<String, GitCliError>,
    same: bool,
    config_run: Result<ProcessOutput, GitCliError>,
    configured: Result<String, GitCliError>,
    result: Result<String, GitCliError>,
) -> bool {
    match listing {
        Err(e) => result == Err::<String, GitCliError>(e),
        Ok(o) => listed_primary_ok(cwd, o, listed) && match listed {
            Err(e) => result == Err::<String, GitCliError>(e),
            Ok(primary) => if !same {
                result matches Ok(r) && r@ == primary@
            } else {
                match config_run {
                    Err(e) => result == Err::<String, GitCliError>(e),
                    Ok(co) => configured_worktree_ok(cwd, common_dir, co, configured) && match configured {
                        Err(e) => result == Err::<String, GitCliError>(e),
                        Ok(w) => pointer_validation(cwd, w@, common_dir, result),
                    },
                }
            },
        },
    }
}

pub open spec fn primary_root_answer(cwd: Seq<char>, common_dir: Seq<char>, result: Result<String, GitCliError>) -> bool {
    exists|
        listing: Result<ProcessOutput, GitCliError>,
        listed: Result<String, GitCliError>,
        same: bool,
        config_run: Result<ProcessOutput, GitCliError>,
        configured: Result<String, GitCliError>,
    | #[trigger] primary_root_ok(cwd, common_dir, listing, listed, same, config_run, configured, result)
}

/// Where the repository is, seen from `cwd`: the current worktree from
/// `git rev-parse --show-toplevel`, the common Git directory, and the primary worktree.
pub open spec fn repo_context_ok(
    cwd: Seq<char>,
    top_run: Result<ProcessOutput, GitCliError>,
    top: Result<String, GitCliError>,
    common_run: Result<ProcessOutput, GitCliError>,
    common: Result<String, GitCliError>,
    primary: Result<String, GitCliError>,
    result: Result<RepoContext, GitCliError>,
) -> bool {
    match top_run {
        Err(e) => result == Err::<RepoContext, GitCliError>(e),
        Ok(o) => toplevel_ok(cwd, o, top) && match top {
            Err(e) => result == Err::<RepoContext, GitCliError>(e),
            Ok(current) => match common_run {
                Err(e) => result == Err::<RepoContext, GitCliError>(e),
                Ok(co) => common_dir_ok(cwd, co, common) && match common {
                    Err(e) => result == Err::<RepoContext, GitCliError>(e),
                    Ok(common_dir) => primary_root_answer(cwd, common_dir@, primary) && match primary {
                        Err(e) => result == Err::<RepoContext, GitCliError>(e),
                        Ok(root) => result matches Ok(ctx) && ctx.repo_root@ == root@ && ctx.current_worktree_root@
                            == current@ && ctx.git_common_dir@ == common_dir@,
                    },
                },
            },
        },
    }
}

/// The answers behind finding the primary worktree are answers the runner and the files may
/// give: the checked worktree listing, whether the first listed worktree is the common Git
/// directory, and then the configured worktree.
pub open spec fn primary_root_reported<R: ProcessRunner, F: RepositoryFiles>(
    runner: R,
    timeout_ms: u64,
    fs: &F,
    cwd: Seq<char>,
    common_dir: Seq<char>,
    result: Result<String, GitCliError>,
) -> bool {
    exists|
        listing: Result<ProcessOutput, GitCliError>,
        listed: Result<String, GitCliError>,
        same: bool,
        config_run: Result<ProcessOutput, GitCliError>,
        configured: Result<String, GitCliError>,
    |
        #[trigger] primary_root_ok(cwd, common_dir, listing, listed, same, config_run, configured, result)
            && git_checked_reported(runner, cwd, worktree_list_args_spec(), timeout_ms, listing)
            && (listing is Ok && listed is Ok ==> fs.same_answer(listed->Ok_0@, common_dir, same))
            && (listing is Ok && listed is Ok && same ==> git_run_reported(runner, cwd, core_worktree_args_spec(), timeout_ms, config_run))
}

/// The answers behind locating the repository are answers the runner and the files may give:
/// `git rev-parse --show-toplevel`, then `git rev-parse --git-common-dir`, then the primary
/// worktree's lookup.
pub open spec fn repo_context_reported<R: ProcessRunner, F: RepositoryFiles>(
    runner: R,
    timeout_ms: u64,
    fs: &F,
    cwd: Seq<char>,
    top_run: Result<ProcessOutput, GitCliError>,
    top: Result<String, GitCliError>,
    common_run: Result<ProcessOutput, GitCliError>,
    common: Result<String, GitCliError>,
    primary: Result<String, GitCliError>,
) -> bool {
    &&& git_run_reported(runner, cwd, toplevel_args_spec(), timeout_ms, top_run)
    &&& (top_run is Ok && top is Ok ==> git_run_reported(runner, cwd, common_dir_args_spec(), timeout_ms, common_run))
    &&& (top_run is Ok && top is Ok && common_run is Ok && common is Ok ==> primary_root_reported(
        runner,
        timeout_ms,
        fs,
        cwd,
        common->Ok_0@,
        primary,
    ))
}

impl<R: ProcessRunner> GitCli<R> {
    /// Finds the primary worktree for the common Git directory.
    pub fn resolve_primary_worktree_root<F: RepositoryFiles>(&self, fs: &F, cwd: &str, common_dir: &str) -> (result: Result<String, GitCliError>)
        ensures
            primary_root_answer(cwd@, common_dir@, result),
            primary_root_reported(self.spec_runner(), self.spec_timeout_ms(), fs, cwd@, common_dir@, result),
    {
        let ghost unused_run: Result<ProcessOutput, GitCliError> = arbitrary();
        let ghost unused_path: Result<String, GitCliError> = arbitrary();
        let listing = self.execute_checked(cwd, &worktree_list_args());
        assert(git_checked_reported(self.spec_runner(), cwd@, worktree_list_args_spec(), self.spec_timeout_ms(), listing));
        let ghost l = listing;
        let output = match listing {
            Ok(output) => output,
            Err(error) => {
                let result: Result<String, GitCliError> = Err(error);
                assert(primary_root_ok(cwd@, common_dir@, l, unused_path, false, unused_run, unused_path, result));
                return result;
            },
        };
        let listed = listed_primary_answer(cwd, output);
        let ghost lp = listed;
        let primary = match listed {
            Ok(primary) => primary,
            Err(error) => {
                let result: Result<String, GitCliError> = Err(error);
                assert(primary_root_ok(cwd@, common_dir@, l, lp, false, unused_run, unused_path, result));
                return result;
            },
        };
        let same = fs.same_location(primary.as_str(), common_dir);
        if !same {
            let result: Result<String, GitCliError> = Ok(primary);
            assert(primary_root_ok(cwd@, common_dir@, l, lp, false, unused_run, unused_path, result));
            return result;
        }
        let config_run = self.execute(cwd, &core_worktree_args());
        assert(git_run_reported(self.spec_runner(), cwd@, core_worktree_args_spec(), self.spec_timeout_ms(), config_run));
        let ghost cr = config_run;
        let config_output = match config_run {
            Ok(output) => output,
            Err(error) => {
                let result: Result<String, GitCliError> = Err(error);
                assert(primary_root_ok(cwd@, common_dir@, l, lp, true, cr, unused_path, result));
                return result;
            },
        };
        let configured = configured_worktree_answer(cwd, common_dir, config_output);
        let ghost cw = configured;
        let result = match configured {
            Err(error) => Err(error),
            Ok(worktree) => validate_separate_git_pointer(fs, cwd, worktree.as_str(), common_dir),
        };
        assert(primary_root_ok(cwd@, common_dir@, l, lp, true, cr, cw, result));
        result
    }

    /// Locates the repository around `cwd`.
    pub fn resolve_repo_context<F: RepositoryFiles>(&self, fs: &F, cwd: &str) -> (result: Result<RepoContext, GitCliError>)
        ensures
            exists|
                top_run: Result<ProcessOutput, GitCliError>,
                top: Result<String, GitCliError>,
                common_run: Result<ProcessOutput, GitCliError>,
                common: Result<String, GitCliError>,
                primary: Result<String, GitCliError>,
            | #[trigger] repo_context_ok(cwd@, top_run, top, common_run, common, primary, result),
        exists|
                top_run: Result<ProcessOutput, GitCliError>,
                top: Result<String, GitCliError>,
                common_run: Result<ProcessOutput, GitCliError>,
                common: Result<String, GitCliError>,
                primary: Result<String, GitCliError>,
            |
                #[trigger] repo_context_ok(cwd@, top_run, top, common_run, common, primary, result)
                    && repo_context_reported(self.spec_runner(), self.spec_timeout_ms(), fs, cwd@, top_run, top, common_run, common, primary),
    {
        let ghost unused_run: Result<ProcessOutput, GitCliError> = arbitrary();
        let ghost unused_path: Result<String, GitCliError> = arbitrary();
        let top_run = self.execute(cwd, &toplevel_args());
        assert(git_run_reported(self.spec_runner(), cwd@, toplevel_args_spec(), self.spec_timeout_ms(), top_run));
        let ghost tr = top_run;
        let top_output = match top_run {
            Ok(output) => output,
            Err(error) => {
                let result: Result<RepoContext, GitCliError> = Err(error);
                assert(repo_context_ok(cwd@, tr, unused_path, unused_run, unused_path, unused_path, result));
                assert(repo_context_reported(self.spec_runner(), self.spec_timeout_ms(), fs, cwd@, tr, unused_path, unused_run, unused_path, unused_path));
                return result;
            },
        };
        let top = toplevel_answer(cwd, top_output);
        let ghost tp = top;
        let current = match top {
            Ok(path) => path,
            Err(error) => {
                let result: Result<RepoContext, GitCliError> = Err(error);
                assert(repo_context_ok(cwd@, tr, tp, unused_run, unused_path, unused_path, result));
                assert(repo_context_reported(self.spec_runner(), self.spec_timeout_ms(), fs, cwd@, tr, tp, unused_run, unused_path, unused_path));
                return result;
            },
        };
        let common_run = self.execute(cwd, &common_dir_args());
        assert(git_run_reported(self.spec_runner(), cwd@, common_dir_args_spec(), self.spec_timeout_ms(), common_run));
        let ghost cr = common_run;
        let common_output = match common_run {
            Ok(output) => output,
            Err(error) => {
                let result: Result<RepoContext, GitCliError> = Err(error);
                assert(repo_context_ok(cwd@, tr, tp, cr, unused_path, unused_path, result));
                assert(repo_context_reported(self.spec_runner(), self.spec_timeout_ms(), fs, cwd@, tr, tp, cr, unused_path, unused_path));
                return result;
            },
        };
        let common = common_dir_answer(cwd, common_output);
        let ghost cd = common;
        let common_dir = match common {
            Ok(path) => path,
            Err(error) => {
                let result: Result<RepoContext, GitCliError> = Err(error);
                assert(repo_context_ok(cwd@, tr, tp, cr, cd, unused_path, result));
                assert(repo_context_reported(self.spec_runner(), self.spec_timeout_ms(), fs, cwd@, tr, tp, cr, cd, unused_path));
                return result;
            },
        };
        let primary = self.resolve_primary_worktree_root(fs, cwd, common_dir.as_str());
        let ghost pr = primary;
        let result: Result<RepoContext, GitCliError> = match primary {
            Err(error) => Err(error),
            Ok(repo_root) => Ok(RepoContext { repo_root, current_worktree_root: current, git_common_dir: common_dir }),
        };
        assert(repo_context_ok(cwd@, tr, tp, cr, cd, pr, result));
        assert(repo_context_reported(self.spec_runner(), self.spec_timeout_ms(), fs, cwd@, tr, tp, cr, cd, pr));
        result
    }
}

} // verus!
