use std::cell::RefCell;

use vde_worktree::doctor::{
    check_value, dependency_check, doctor_output, error_check, CheckStatus, DoctorCheck, RepositoryReport,
};
use vde_worktree::error::{CliError, DetailValue, ErrorCode, ExecutionPhase, ExecutionState};
use vde_worktree::process::{
    IoErrorKind, IoFailure, ProcessCommand, ProcessError, ProcessOutput, ProcessRunner,
};

/// A runner that answers by program and first argument and records every command.
struct Probes {
    missing: Vec<&'static str>,
    failing: Vec<&'static str>,
    commands: RefCell<Vec<ProcessCommand>>,
}

impl ProcessRunner for Probes {
    fn run(&self, command: &ProcessCommand) -> Result<ProcessOutput, ProcessError> {
        self.commands.borrow_mut().push(command.clone());
        if self.missing.contains(&command.program.as_str()) {
            return Err(ProcessError::Spawn(IoFailure { kind: IoErrorKind::NotFound, message: "not found".to_owned() }));
        }
        let code = if self.failing.contains(&command.program.as_str()) { 1 } else { 0 };
        Ok(ProcessOutput {
            stdout: format!("{} 1.0\n", command.program).into_bytes(),
            exit_code: Some(code),
            ..Default::default()
        })
    }
}

fn probes(missing: Vec<&'static str>, failing: Vec<&'static str>) -> Probes {
    Probes { missing, failing, commands: RefCell::new(Vec::new()) }
}

fn report(effective_gh: Option<bool>, checks: Vec<DoctorCheck>) -> RepositoryReport {
    RepositoryReport {
        repository: None,
        checks,
        config: DetailValue::Null,
        pending: DetailValue::List(Vec::new()),
        effective_gh,
    }
}

fn field<'a>(value: &'a DetailValue, key: &str) -> &'a DetailValue {
    match value {
        DetailValue::Object(entries) => &entries.iter().find(|(k, _)| k == key).expect("missing key").1,
        other => panic!("not an object: {other:?}"),
    }
}

fn names(output: &DetailValue) -> Vec<String> {
    match field(output, "checks") {
        DetailValue::List(items) => items
            .iter()
            .map(|item| match field(item, "name") {
                DetailValue::Text(name) => name.clone(),
                other => panic!("name is {other:?}"),
            })
            .collect(),
        other => panic!("checks is {other:?}"),
    }
}

#[test]
fn a_probe_passes_only_on_a_clean_zero_exit() {
    let ok = ProcessOutput { stdout: b"  git version 2.44\n".to_vec(), exit_code: Some(0), ..Default::default() };
    let check = dependency_check("git", true, true, Ok(ok));
    assert_eq!(check.status, CheckStatus::Passed);
    assert_eq!(check.message, "available");
    assert_eq!(field(&check.details, "version"), &DetailValue::Text("git version 2.44".to_owned()));

    let truncated = ProcessOutput { exit_code: Some(0), stdout_truncated: true, ..Default::default() };
    let check = dependency_check("fzf", false, false, Ok(truncated));
    assert_eq!(check.status, CheckStatus::Warning);
    assert_eq!(check.message, "probe failed");
    assert_eq!(field(&check.details, "version"), &DetailValue::Null);
    assert_eq!(field(&check.details, "stdoutTruncated"), &DetailValue::Bool(true));

    let failed = ProcessOutput { exit_code: Some(2), ..Default::default() };
    assert_eq!(dependency_check("git", true, true, Ok(failed)).status, CheckStatus::Error);

    let missing = ProcessError::Spawn(IoFailure { kind: IoErrorKind::NotFound, message: "No such file".to_owned() });
    let check = dependency_check("tmux", false, true, Err(missing));
    assert_eq!(check.status, CheckStatus::Warning);
    assert_eq!(check.message, "failed to spawn process: No such file");
    assert_eq!(check.details, DetailValue::Object(Vec::new()));
}

#[test]
fn checks_are_written_with_name_status_message_and_details() {
    let check = error_check("repository", CliError::new(ErrorCode::NotGitRepository, "not a git repository"));
    let value = check_value(&check);
    assert_eq!(field(&value, "status"), &DetailValue::Text("error".to_owned()));
    assert_eq!(field(&value, "message"), &DetailValue::Text("not a git repository".to_owned()));
    assert_eq!(field(field(&value, "details"), "code"), &DetailValue::Text("NOT_GIT_REPOSITORY".to_owned()));
}

#[test]
fn doctor_probes_gh_authentication_only_when_gh_is_available() {
    let runner = probes(vec![], vec![]);
    let output = doctor_output(&runner, "/repo", report(Some(true), Vec::new()));
    assert_eq!(names(&output.data), ["git", "gh", "githubAuthentication", "fzf", "tmux"]);
    assert_eq!(field(&output.data, "healthy"), &DetailValue::Bool(true));
    assert!(output.partial_error.is_none());
    let commands = runner.commands.borrow();
    assert_eq!(commands[2].args, ["auth", "status"]);
    assert_eq!(commands[0].timeout_ms, Some(5000));
    assert_eq!(commands[0].cwd.as_deref(), Some("/repo"));

    let runner = probes(vec!["gh"], vec![]);
    let output = doctor_output(&runner, "/repo", report(Some(true), Vec::new()));
    assert_eq!(names(&output.data), ["git", "gh", "fzf", "tmux"]);
    assert_eq!(field(&output.data, "healthy"), &DetailValue::Bool(true));
}

#[test]
fn doctor_skips_gh_when_disabled_or_unknown() {
    let runner = probes(vec![], vec![]);
    let output = doctor_output(&runner, "/repo", report(Some(false), Vec::new()));
    assert_eq!(names(&output.data), ["git", "gh", "fzf", "tmux"]);
    assert!(output.human_stdout.contains("gh: skipped — GitHub integration is disabled\n"));
    let output = doctor_output(&runner, "/repo", report(None, Vec::new()));
    assert!(output.human_stdout.contains("gh: skipped — effective configuration is unavailable\n"));
}

#[test]
fn doctor_is_unhealthy_exactly_when_a_check_failed() {
    let runner = probes(vec![], vec!["git"]);
    let repository_failure = error_check("initialization", CliError::new(ErrorCode::InternalError, "cannot inspect"));
    let output = doctor_output(&runner, "/repo", report(Some(false), vec![repository_failure]));
    assert_eq!(names(&output.data), ["git", "initialization", "gh", "fzf", "tmux"]);
    assert_eq!(field(&output.data, "healthy"), &DetailValue::Bool(false));
    assert!(output.human_stdout.starts_with("git: error — probe failed\ninitialization: error — cannot inspect\n"));
    let error = output.partial_error.expect("an unhealthy report carries an error");
    assert_eq!(error.code, ErrorCode::SafetyRejected);
    assert_eq!(error.message, "doctor found repository setup issues");
    assert_eq!(
        error.detail("failedChecks"),
        Some(&DetailValue::List(vec![
            DetailValue::Text("git".to_owned()),
            DetailValue::Text("initialization".to_owned()),
        ]))
    );
    let execution = error.execution.expect("preflight report");
    assert_eq!(execution.phase, ExecutionPhase::Preflight);
    assert_eq!(execution.state, ExecutionState::NotStarted);

    let tmux_missing = probes(vec!["tmux", "fzf"], vec![]);
    let output = doctor_output(&tmux_missing, "/repo", report(Some(false), Vec::new()));
    assert_eq!(field(&output.data, "healthy"), &DetailValue::Bool(true));
}
