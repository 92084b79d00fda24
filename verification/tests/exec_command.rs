use std::cell::RefCell;
use std::collections::VecDeque;

use vde_worktree::error::{DetailValue, ErrorCode, ExecutionPhase, ExecutionState};
use vde_worktree::exec::{exec_command, exec_outcome, execute_in_worktree, ExecOptions, ExecStdin};
use vde_worktree::process::{
    IoErrorKind, IoFailure, OutputPolicy, ProcessCommand, ProcessError, ProcessOutput, ProcessRunner, StdinPolicy,
};

struct QueueRunner {
    outputs: RefCell<VecDeque<Result<ProcessOutput, ProcessError>>>,
    requests: RefCell<Vec<ProcessCommand>>,
}

impl QueueRunner {
    fn new(outputs: Vec<Result<ProcessOutput, ProcessError>>) -> Self {
        QueueRunner { outputs: RefCell::new(outputs.into_iter().collect()), requests: RefCell::new(Vec::new()) }
    }
}

impl ProcessRunner for QueueRunner {
    fn run(&self, command: &ProcessCommand) -> Result<ProcessOutput, ProcessError> {
        self.requests.borrow_mut().push(command.clone());
        self.outputs.borrow_mut().pop_front().unwrap()
    }
}

fn output(stdout: &[u8], stderr: &[u8], exit_code: i32) -> ProcessOutput {
    ProcessOutput { stdout: stdout.to_vec(), stderr: stderr.to_vec(), exit_code: Some(exit_code), ..Default::default() }
}

fn options() -> ExecOptions {
    ExecOptions { timeout_ms: 300_000, max_output_bytes: None, stdin: ExecStdin::Null }
}

fn argv(values: &[&str]) -> Vec<String> {
    values.iter().map(|value| (*value).to_owned()).collect()
}

fn field<'a>(value: &'a DetailValue, key: &str) -> &'a DetailValue {
    match value {
        DetailValue::Object(entries) => &entries.iter().find(|(k, _)| k == key).expect("missing key").1,
        other => panic!("not an object: {other:?}"),
    }
}

#[test]
fn exec_uses_shell_free_argv_and_captures_json_streams() {
    let child = QueueRunner::new(vec![Ok(output(b"hello\n", b"warning\n", 0))]);
    let result = execute_in_worktree(
        &child,
        Some("topic"),
        "/repo/.worktree/topic",
        &argv(&["tool", "$HOME", "a b"]),
        options(),
        true,
    )
    .unwrap();

    assert_eq!(field(&result.data, "childExitCode"), &DetailValue::Int(0));
    assert_eq!(field(&result.data, "childStdout"), &DetailValue::Text("hello\n".to_owned()));
    assert_eq!(field(&result.data, "childStderr"), &DetailValue::Text("warning\n".to_owned()));
    assert!(result.partial_error.is_none());
    let command = &child.requests.borrow()[0];
    assert_eq!(command.program, "tool");
    assert_eq!(command.args, ["$HOME", "a b"]);
    assert_eq!(command.cwd.as_deref(), Some("/repo/.worktree/topic"));
    assert_eq!(command.stdin, StdinPolicy::Null);
    assert_eq!(command.timeout_ms, Some(300_000));
    assert_eq!(command.max_output_bytes, 1024 * 1024);
    assert_eq!(command.stdout, OutputPolicy::Capture);
    assert_eq!(command.stderr, OutputPolicy::Capture);
}

#[test]
fn exec_nonzero_is_a_partial_child_process_failure() {
    let child = QueueRunner::new(vec![Ok(output(b"partial", b"failed", 7))]);
    let result = execute_in_worktree(&child, Some("topic"), "/repo/.worktree/topic", &argv(&["false"]), options(), true)
        .unwrap();
    let error = result.partial_error.unwrap();
    assert_eq!(error.code, ErrorCode::ChildProcessFailed);
    assert_eq!(error.exit_code(), 21);
    assert_eq!(error.message, "target command exited with non-zero status");
    assert_eq!(field(&result.data, "childExitCode"), &DetailValue::Int(7));
    let execution = error.execution.unwrap();
    assert_eq!(execution.phase, ExecutionPhase::Process);
    assert_eq!(execution.state, ExecutionState::Unknown);
    assert_eq!(execution.completed, ["spawn"]);
    assert_eq!(error.details.len(), 7);
}

#[test]
fn exec_names_timeouts_and_signals_before_exit_statuses() {
    let timed_out = ProcessOutput { exit_code: Some(0), timed_out: true, ..Default::default() };
    let error = exec_outcome(None, "/w", Ok(timed_out)).unwrap().partial_error.unwrap();
    assert_eq!(error.message, "target command exceeded its timeout");
    let signalled = ProcessOutput { exit_code: None, signal: Some(9), ..Default::default() };
    let report = exec_outcome(None, "/w", Ok(signalled)).unwrap();
    assert_eq!(report.partial_error.unwrap().message, "target command terminated by signal");
    assert_eq!(field(&report.data, "branch"), &DetailValue::Null);
    assert_eq!(field(&report.data, "childSignal"), &DetailValue::Int(9));
}

#[test]
fn exec_without_a_program_or_with_an_unstartable_one_is_an_error() {
    let error = exec_command("/w", &[], options(), false).unwrap_err();
    assert_eq!(error.code, ErrorCode::InvalidArgument);
    assert_eq!(error.message, "exec requires an executable after --");

    let command = exec_command("/w", &argv(&["tool"]), ExecOptions { stdin: ExecStdin::Inherit, max_output_bytes: Some(10), ..options() }, false)
        .unwrap();
    assert_eq!(command.stdout, OutputPolicy::Inherit);
    assert_eq!(command.stdin, StdinPolicy::Inherit);
    assert_eq!(command.max_output_bytes, 10);

    let missing = ProcessError::Spawn(IoFailure { kind: IoErrorKind::NotFound, message: "No such file".to_owned() });
    let child = QueueRunner::new(vec![Err(missing)]);
    let error = execute_in_worktree(&child, Some("topic"), "/w", &argv(&["tool"]), options(), true).unwrap_err();
    assert_eq!(error.code, ErrorCode::ChildProcessFailed);
    assert_eq!(error.message, "failed to execute target command: failed to spawn process: No such file");
    assert_eq!(error.detail("path"), Some(&DetailValue::Text("/w".to_owned())));
    assert!(error.execution.unwrap().completed.is_empty());
}
