//! `exec`: runs a program, without a shell, in a resolved worktree and reports how it ended.
//! A run that did not end with status zero in time is a partial success carrying the
//! child's failure.

use vstd::prelude::*;

use crate::error::{
    detail_view, object_view, plain_error, CliError, DetailValue, DetailView, ErrorCode, ExecutionPhase,
    ExecutionReport, ExecutionState,
};
use crate::git::args_view;
use crate::probes::push_arg;
use crate::mapping::{int_or_null_value, int_or_null_view};
use crate::pipeline::CommandOutput;
use crate::process::{
    describe_process_error, OutputPolicy, ProcessCommand, ProcessError, ProcessOutput, ProcessRunner,
    StdinPolicy,
};
use crate::text::{utf8_lossy, utf8_lossy_string};

verus! {

/// What the child reads on standard input.
#[derive(Clone, Copy, Debug, PartialEq, Eq, Structural)]
pub enum ExecStdin {
    Null,
    Inherit,
}

/// The options of `exec`.
#[derive(Clone, Copy, Debug, PartialEq, Eq, Structural)]
pub struct ExecOptions {
    pub timeout_ms: u64,
    /// The limit on captured bytes per stream; one MiB when not given.
    pub max_output_bytes: Option<u64>,
    pub stdin: ExecStdin,
}

pub open spec fn output_limit(options: ExecOptions) -> u64 {
    match options.max_output_bytes {
        Some(n) => n,
        None => 1048576,
    }
}

/// The child's command: the first argument is the program and the rest its arguments, run in
/// the target with the given time limit, output limit and standard input; its output is
/// captured for JSON output and passed through otherwise.
pub open spec fn exec_command_ok(target_path: Seq<char>, argv: Seq<Seq<char>>, options: ExecOptions, json: bool, result: Result<ProcessCommand, CliError>) -> bool {
    if argv.len() == 0 {
        result matches Err(e) && plain_error(e, ErrorCode::InvalidArgument, "exec requires an executable after --"@)
    } else if output_limit(options) > usize::MAX {
        result matches Err(e) && plain_error(e, ErrorCode::InvalidArgument, "max-output-bytes exceeds the supported size"@)
    } else {
        result matches Ok(c) && {
            &&& c.program@ == argv[0]
            &&& args_view(c.args@) == argv.drop_first()
            &&& c.cwd matches Some(cwd) && cwd@ == target_path
            &&& c.env@.len() == 0
            &&& c.inherit_env
            &&& c.timeout_ms == Some(options.timeout_ms)
            &&& c.max_output_bytes == output_limit(options)
            &&& c.stdin == (if options.stdin == ExecStdin::Null {
                StdinPolicy::Null
            } else {
                StdinPolicy::Inherit
            })
            &&& c.stdout == (if json {
                OutputPolicy::Capture
            } else {
                OutputPolicy::Inherit
            })
            &&& c.stderr == c.stdout
        }
    }
}

pub fn exec_command(target_path: &str, argv: &[String], options: ExecOptions, json: bool) -> (result: Result<ProcessCommand, CliError>)
    ensures
        exec_command_ok(target_path@, args_view(argv@), options, json, result),
{
    if argv.len() == 0 {
        return Err(CliError::new(ErrorCode::InvalidArgument, "exec requires an executable after --"));
    }
    let limit: u64 = match options.max_output_bytes {
        Some(n) => n,
        None => 1048576,
    };
    if limit > usize::MAX as u64 {
        return Err(CliError::new(ErrorCode::InvalidArgument, "max-output-bytes exceeds the supported size"));
    }
    let mut command = ProcessCommand::new(argv[0].as_str());
    let mut i: usize = 1;
    while i < argv.len()
        invariant
            1 <= i <= argv@.len(),
            args_view(command.args@) == args_view(argv@).subrange(1, i as int),
            command.program@ == argv@[0]@,
            command.env@.len() == 0,
            command.inherit_env,
        decreases argv.len() - i,
    {
        push_arg(&mut command.args, argv[i].as_str());
        assert(args_view(command.args@) =~= args_view(argv@).subrange(1, i + 1));
        i = i + 1;
    }
    assert(args_view(argv@).subrange(1, argv@.len() as int) =~= args_view(argv@).drop_first());
    assert(args_view(argv@)[0] == argv@[0]@);
    command.cwd = Some(target_path.to_owned());
    command.timeout_ms = Some(options.timeout_ms);
    command.max_output_bytes = limit as usize;
    command.stdin = match options.stdin {
        ExecStdin::Null => StdinPolicy::Null,
        ExecStdin::Inherit => StdinPolicy::Inherit,
    };
    command.stdout = if json {
        OutputPolicy::Capture
    } else {
        OutputPolicy::Inherit
    };
    command.stderr = command.stdout;
    Ok(command)
}

pub open spec fn branch_view(branch: Option<Seq<char>>) -> DetailView {
    match branch {
        Some(b) => DetailView::Text(b),
        None => DetailView::Null,
    }
}

/// What `exec` reports of a finished child.
pub open spec fn exec_data(branch: Option<Seq<char>>, path: Seq<char>, o: ProcessOutput) -> Seq<(Seq<char>, DetailView)> {
    seq![
        ("branch"@, branch_view(branch)),
        ("path"@, DetailView::Text(path)),
        ("childExitCode"@, int_or_null_view(o.exit_code)),
        ("childSignal"@, int_or_null_view(o.signal)),
        ("timedOut"@, DetailView::Bool(o.timed_out)),
        ("stdoutTruncated"@, DetailView::Bool(o.stdout_truncated)),
        ("stderrTruncated"@, DetailView::Bool(o.stderr_truncated)),
        ("childStdout"@, DetailView::Text(utf8_lossy(o.stdout@))),
        ("childStderr"@, DetailView::Text(utf8_lossy(o.stderr@))),
    ]
}

/// Why a finished child counts as failed: its time limit first, then a signal, else its status.
pub open spec fn child_failure_message(o: ProcessOutput) -> Seq<char> {
    if o.timed_out {
        "target command exceeded its timeout"@
    } else if o.signal is Some {
        "target command terminated by signal"@
    } else {
        "target command exited with non-zero status"@
    }
}

/// The failure of a finished child, raised while the process ran, after it was spawned.
pub open spec fn is_child_failure(error: CliError, branch: Option<Seq<char>>, path: Seq<char>, o: ProcessOutput) -> bool {
    &&& error.code == ErrorCode::ChildProcessFailed
    &&& error.message@ == child_failure_message(o)
    &&& object_view(error.details@) == exec_data(branch, path, o).take(7)
    &&& error.execution matches Some(x)
    &&& x.phase == ExecutionPhase::Process
    &&& x.state == ExecutionState::Unknown
    &&& x.completed@.map_values(|c: String| c@) == seq!["spawn"@]
    &&& x.recovery@.len() == 0
}

/// The error for a child that could not be run.
pub open spec fn is_launch_failure(error: CliError, branch: Option<Seq<char>>, path: Seq<char>, e: ProcessError) -> bool {
    &&& error.code == ErrorCode::ChildProcessFailed
    &&& error.message@ == "failed to execute target command: "@ + describe_process_error(e)
    &&& object_view(error.details@) == seq![("branch"@, branch_view(branch)), ("path"@, DetailView::Text(path))]
    &&& error.execution matches Some(x)
    &&& x.phase == ExecutionPhase::Process
    &&& x.state == ExecutionState::Unknown
    &&& x.completed@.len() == 0
    &&& x.recovery@.len() == 0
}

/// What `exec` concludes from the child's outcome: a child that could not run is an error; a
/// finished one is reported, and unless it exited with status zero in time the report carries
/// its failure.
pub open spec fn exec_outcome_ok(
    branch: Option<Seq<char>>,
    path: Seq<char>,
    outcome: Result<ProcessOutput, ProcessError>,
    result: Result<CommandOutput, CliError>,
) -> bool {
    match outcome {
        Err(e) => result matches Err(x) && is_launch_failure(x, branch, path, e),
        Ok(o) => result matches Ok(out) && {
            &&& detail_view(out.data) == DetailView::Object(exec_data(branch, path, o))
            &&& out.human_stdout@.len() == 0
            &&& out.human_stderr@.len() == 0
            &&& if o.exit_code == Some(0i32) && !o.timed_out {
                out.partial_error is None
            } else {
                out.partial_error matches Some(x) && is_child_failure(x, branch, path, o)
            }
        },
    }
}

fn opt_text_value(branch: Option<&str>) -> (value: DetailValue)
    ensures
        detail_view(value) == branch_view(match branch {
            Some(b) => Some(b@),
            None => None,
        }),
{
    match branch {
        Some(b) => DetailValue::Text(b.to_owned()),
        None => DetailValue::Null,
    }
}

pub open spec fn opt_str(branch: Option<&str>) -> Option<Seq<char>> {
    match branch {
        Some(b) => Some(b@),
        None => None,
    }
}

/// The report and, for a failed child, its error.
pub fn exec_outcome(branch: Option<&str>, path: &str, outcome: Result<ProcessOutput, ProcessError>) -> (result: Result<CommandOutput, CliError>)
    ensures
        exec_outcome_ok(opt_str(branch), path@, outcome, result),
{
    let output = match outcome {
        Err(error) => {
            let mut message = String::from_str("failed to execute target command: ");
            message.append(error.describe().as_str());
            let mut details: Vec<(String, DetailValue)> = Vec::new();
            details.push(("branch".to_owned(), opt_text_value(branch)));
            details.push(("path".to_owned(), DetailValue::Text(path.to_owned())));
            proof {
                crate::error::lemma_object_view_index(details@);
                assert(object_view(details@) =~= seq![
                    ("branch"@, branch_view(opt_str(branch))),
                    ("path"@, DetailView::Text(path@)),
                ]);
            }
            return Err(CliError {
                code: ErrorCode::ChildProcessFailed,
                message,
                details,
                execution: Some(ExecutionReport {
                    phase: ExecutionPhase::Process,
                    state: ExecutionState::Unknown,
                    completed: Vec::new(),
                    recovery: Vec::new(),
                }),
            });
        },
        Ok(output) => output,
    };
    let ghost o = output;
    let ghost b = opt_str(branch);
    let mut details: Vec<(String, DetailValue)> = Vec::new();
    details.push(("branch".to_owned(), opt_text_value(branch)));
    details.push(("path".to_owned(), DetailValue::Text(path.to_owned())));
    details.push(("childExitCode".to_owned(), int_or_null_value(output.exit_code)));
    details.push(("childSignal".to_owned(), int_or_null_value(output.signal)));
    details.push(("timedOut".to_owned(), DetailValue::Bool(output.timed_out)));
    details.push(("stdoutTruncated".to_owned(), DetailValue::Bool(output.stdout_truncated)));
    details.push(("stderrTruncated".to_owned(), DetailValue::Bool(output.stderr_truncated)));
    proof {
        crate::error::lemma_object_view_index(details@);
        assert(object_view(details@) =~= exec_data(b, path@, o).take(7));
    }
    let mut data: Vec<(String, DetailValue)> = Vec::new();
    let mut i: usize = 0;
    while i < details.len()
        invariant
            i <= details@.len() == 7,
            object_view(data@) == object_view(details@).take(i as int),
        decreases details.len() - i,
    {
        let entry = (details[i].0.clone(), crate::error::copy_detail(&details[i].1));
        proof {
            crate::error::lemma_object_view_index(details@);
            crate::error::lemma_object_view_push(data@, entry);
            assert(entry.0@ == details@[i as int].0@);
            assert(object_view(details@).take(i + 1) =~= object_view(details@).take(i as int).push(object_view(details@)[i as int]));
        }
        data.push(entry);
        i = i + 1;
    }
    let stdout_entry = ("childStdout".to_owned(), DetailValue::Text(utf8_lossy_string(output.stdout.as_slice())));
    let stderr_entry = ("childStderr".to_owned(), DetailValue::Text(utf8_lossy_string(output.stderr.as_slice())));
    proof {
        crate::error::lemma_object_view_push(data@, stdout_entry);
        crate::error::lemma_object_view_push(data@.push(stdout_entry), stderr_entry);
    }
    data.push(stdout_entry);
    data.push(stderr_entry);
    assert(object_view(data@) =~= exec_data(b, path@, o));
    let zero = match output.exit_code {
        Some(code) => code == 0,
        None => false,
    };
    if zero && !output.timed_out {
        return Ok(CommandOutput::new(DetailValue::Object(data)));
    }
    proof {
        reveal_strlit("target command exceeded its timeout");
        reveal_strlit("target command terminated by signal");
        reveal_strlit("target command exited with non-zero status");
    }
    let message = if output.timed_out {
        "target command exceeded its timeout"
    } else if output.signal.is_some() {
        "target command terminated by signal"
    } else {
        "target command exited with non-zero status"
    };
    let mut completed: Vec<String> = Vec::new();
    completed.push(String::from_str("spawn"));
    assert(completed@.map_values(|c: String| c@) =~= seq!["spawn"@]);
    let error = CliError {
        code: ErrorCode::ChildProcessFailed,
        message: message.to_owned(),
        details,
        execution: Some(ExecutionReport {
            phase: ExecutionPhase::Process,
            state: ExecutionState::Unknown,
            completed,
            recovery: Vec::new(),
        }),
    };
    Ok(CommandOutput::partial(DetailValue::Object(data), error))
}

/// Runs `exec` in the resolved target: the command is built from `argv` and the options and
/// run once; its outcome is reported.
pub fn execute_in_worktree<R: ProcessRunner>(
    runner: &R,
    branch: Option<&str>,
    target_path: &str,
    argv: &[String],
    options: ExecOptions,
    json: bool,
) -> (result: Result<CommandOutput, CliError>)
    ensures
        exists|command: Result<ProcessCommand, CliError>| #[trigger] exec_command_ok(target_path@, args_view(argv@), options, json, command) && match command {
            Err(e) => result == Err::<CommandOutput, CliError>(e),
            Ok(_) => exists|outcome: Result<ProcessOutput, ProcessError>| #[trigger] exec_outcome_ok(opt_str(branch), target_path@, outcome, result),
        },
        exists|command: Result<ProcessCommand, CliError>| #[trigger] exec_command_ok(target_path@, args_view(argv@), options, json, command)
            && (command is Ok ==> exists|outcome: Result<ProcessOutput, ProcessError>|
                #[trigger] runner.ran(command->Ok_0, outcome) && exec_outcome_ok(opt_str(branch), target_path@, outcome, result)),
{
    let command = match exec_command(target_path, argv, options, json) {
        Ok(command) => command,
        Err(error) => {
            return Err(error);
        },
    };
    let outcome = runner.run(&command);
    let ghost o = outcome;
    let result = exec_outcome(branch, target_path, outcome);
    assert(exec_outcome_ok(opt_str(branch), target_path@, o, result));
    assert(runner.ran(command, o));
    result
}

} // verus!
