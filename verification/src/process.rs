//! Plain-value description of child processes and the runner abstraction that executes them.

use vstd::prelude::*;

verus! {

/// Where a child's standard input comes from.
#[derive(Clone, Debug, PartialEq, Eq)]
pub enum StdinPolicy {
    Inherit,
    Null,
    Bytes(Vec<u8>),
}

/// What happens to a child's standard output or error stream.
#[derive(Clone, Copy, Debug, PartialEq, Eq, Structural)]
pub enum OutputPolicy {
    Capture,
    Inherit,
    Null,
}

/// One environment variable override: `Some` sets it, `None` removes it.
#[derive(Clone, Debug, PartialEq, Eq)]
pub struct EnvVariable {
    pub name: String,
    pub value: Option<String>,
}

/// A shell-free process invocation.
#[derive(Clone, Debug, PartialEq, Eq)]
pub struct ProcessCommand {
    pub program: String,
    pub args: Vec<String>,
    pub cwd: Option<String>,
    pub env: Vec<EnvVariable>,
    pub inherit_env: bool,
    pub stdin: StdinPolicy,
    pub stdout: OutputPolicy,
    pub stderr: OutputPolicy,
    /// Timeout in milliseconds; `None` waits without limit.
    pub timeout_ms: Option<u64>,
    pub max_output_bytes: usize,
}

/// Default limit on captured bytes per stream.
pub const DEFAULT_MAX_OUTPUT_BYTES: usize = 1048576;

impl ProcessCommand {
    /// A command with no arguments that inherits the environment and all three streams.
    pub fn new(program: &str) -> (command: Self)
        ensures
            command.program@ == program@,
            command.args@.len() == 0,
            command.cwd is None,
            command.env@.len() == 0,
            command.inherit_env,
            command.stdin == StdinPolicy::Inherit,
            command.stdout == OutputPolicy::Inherit,
            command.stderr == OutputPolicy::Inherit,
            command.timeout_ms is None,
            command.max_output_bytes == DEFAULT_MAX_OUTPUT_BYTES,
    {
        ProcessCommand {
            program: program.to_owned(),
            args: Vec::new(),
            cwd: None,
            env: Vec::new(),
            inherit_env: true,
            stdin: StdinPolicy::Inherit,
            stdout: OutputPolicy::Inherit,
            stderr: OutputPolicy::Inherit,
            timeout_ms: None,
            max_output_bytes: DEFAULT_MAX_OUTPUT_BYTES,
        }
    }
}

/// What a finished (or killed) child produced.
#[derive(Clone, Debug, PartialEq, Eq)]
pub struct ProcessOutput {
    pub stdout: Vec<u8>,
    pub stderr: Vec<u8>,
    pub exit_code: Option<i32>,
    pub timed_out: bool,
    pub signal: Option<i32>,
    pub stdout_truncated: bool,
    pub stderr_truncated: bool,
}

impl Default for ProcessOutput {
    fn default() -> (output: Self)
        ensures
            output.stdout@.len() == 0,
            output.stderr@.len() == 0,
            output.exit_code is None,
            !output.timed_out,
            output.signal is None,
            !output.stdout_truncated,
            !output.stderr_truncated,
    {
        ProcessOutput {
            stdout: Vec::new(),
            stderr: Vec::new(),
            exit_code: None,
            timed_out: false,
            signal: None,
            stdout_truncated: false,
            stderr_truncated: false,
        }
    }
}

impl ProcessOutput {
    pub open spec fn spec_is_truncated(&self) -> bool {
        self.stdout_truncated || self.stderr_truncated
    }

    /// Whether either captured stream hit its size limit.
    pub fn is_truncated(&self) -> (truncated: bool)
        ensures
            truncated == self.spec_is_truncated(),
    {
        self.stdout_truncated || self.stderr_truncated
    }

    /// Exit status zero, no timeout and nothing truncated.
    pub open spec fn spec_is_clean_success(&self) -> bool {
        self.exit_code == Some(0i32) && !self.timed_out && !self.spec_is_truncated()
    }
}


/// Classification of an operating-system error, as far as the callers care.
#[derive(Clone, Copy, Debug, PartialEq, Eq, Structural)]
pub enum IoErrorKind {
    NotFound,
    InvalidInput,
    Other,
}

/// An operating-system error carried as plain values.
#[derive(Clone, Debug, PartialEq, Eq)]
pub struct IoFailure {
    pub kind: IoErrorKind,
    pub message: String,
}

/// Why a child process could not be run to completion.
#[derive(Clone, Debug, PartialEq, Eq)]
pub enum ProcessError {
    Spawn(IoFailure),
    Wait(IoFailure),
    Kill(IoFailure),
    Stdin(IoFailure),
    Stdout(IoFailure),
    Stderr(IoFailure),
    ReaderThreadPanicked(String),
    WriterThreadPanicked,
    StreamDrainTimedOut(String),
    /// The child was not reaped within the given number of milliseconds.
    ReapTimedOut(u64),
}

/// One-line description of a process error.
pub open spec fn describe_process_error(error: ProcessError) -> Seq<char> {
    match error {
        ProcessError::Spawn(f) => "failed to spawn process: "@ + f.message@,
        ProcessError::Wait(f) => "failed to wait for process: "@ + f.message@,
        ProcessError::Kill(f) => "failed to kill process: "@ + f.message@,
        ProcessError::Stdin(f) => "failed to write process stdin: "@ + f.message@,
        ProcessError::Stdout(f) => "failed to read process stdout: "@ + f.message@,
        ProcessError::Stderr(f) => "failed to read process stderr: "@ + f.message@,
        ProcessError::ReaderThreadPanicked(stream) => "process reader thread panicked: "@ + stream@,
        ProcessError::WriterThreadPanicked => "process stdin writer thread panicked"@,
        ProcessError::StreamDrainTimedOut(stream) => "timed out draining process stream: "@ + stream@,
        ProcessError::ReapTimedOut(_) => "timed out reaping killed process"@,
    }
}

impl ProcessError {
    pub fn describe(&self) -> (text: String)
        ensures
            text@ == describe_process_error(*self),
    {
        let (prefix, detail): (&str, Option<&String>) = match self {
            ProcessError::Spawn(f) => ("failed to spawn process: ", Some(&f.message)),
            ProcessError::Wait(f) => ("failed to wait for process: ", Some(&f.message)),
            ProcessError::Kill(f) => ("failed to kill process: ", Some(&f.message)),
            ProcessError::Stdin(f) => ("failed to write process stdin: ", Some(&f.message)),
            ProcessError::Stdout(f) => ("failed to read process stdout: ", Some(&f.message)),
            ProcessError::Stderr(f) => ("failed to read process stderr: ", Some(&f.message)),
            ProcessError::ReaderThreadPanicked(stream) => ("process reader thread panicked: ", Some(stream)),
            ProcessError::WriterThreadPanicked => ("process stdin writer thread panicked", None),
            ProcessError::StreamDrainTimedOut(stream) => ("timed out draining process stream: ", Some(stream)),
            ProcessError::ReapTimedOut(_) => ("timed out reaping killed process", None),
        };
        let mut text = String::from_str(prefix);
        match detail {
            Some(d) => text.append(d.as_str()),
            None => {},
        }
        text
    }

    /// The executable could not be found when spawning.
    pub open spec fn spec_is_missing_program(&self) -> bool {
        self matches ProcessError::Spawn(failure) && failure.kind == IoErrorKind::NotFound
    }

    pub fn is_missing_program(&self) -> (missing: bool)
        ensures
            missing == self.spec_is_missing_program(),
    {
        match self {
            ProcessError::Spawn(failure) => match failure.kind {
                IoErrorKind::NotFound => true,
                _ => false,
            },
            _ => false,
        }
    }
}

/// Runs one process command. Implementations perform real I/O (or replay fixtures in tests);
/// no property of the returned output is assumed by the verified callers.
pub trait ProcessRunner {
    /// Whether this runner may answer `result` to `command`. A runner that says nothing of its
    /// answers may give any.
    open spec fn ran(&self, command: ProcessCommand, result: Result<ProcessOutput, ProcessError>) -> bool {
        true
    }

    fn run(&self, command: &ProcessCommand) -> (result: Result<ProcessOutput, ProcessError>)
        ensures
            self.ran(*command, result),
    ;
}

}
