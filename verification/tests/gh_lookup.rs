use std::sync::Mutex;

use vde_worktree::gh::{GhCli, PrStatus, PrUnavailableReason, GH_BRANCH_BATCH_SIZE};
use vde_worktree::process::{
    IoErrorKind, IoFailure, OutputPolicy, ProcessCommand, ProcessError, ProcessOutput,
    ProcessRunner, StdinPolicy,
};

#[derive(Debug, Default)]
struct FakeRunner {
    commands: Mutex<Vec<ProcessCommand>>,
    outputs: Mutex<Vec<Result<ProcessOutput, ProcessError>>>,
}

impl FakeRunner {
    fn with_outputs(outputs: Vec<Result<ProcessOutput, ProcessError>>) -> Self {
        Self { commands: Mutex::new(Vec::new()), outputs: Mutex::new(outputs.into_iter().rev().collect()) }
    }
}

impl ProcessRunner for FakeRunner {
    fn run(&self, command: &ProcessCommand) -> Result<ProcessOutput, ProcessError> {
        self.commands.lock().unwrap().push(command.clone());
        self.outputs.lock().unwrap().pop().unwrap()
    }
}

fn success(stdout: &str) -> ProcessOutput {
    ProcessOutput {
        stdout: stdout.as_bytes().to_vec(),
        stderr: Vec::new(),
        exit_code: Some(0),
        timed_out: false,
        ..Default::default()
    }
}

fn record(branch: &str, state: &str, merged_at: Option<&str>, updated_at: &str, url: &str) -> String {
    let merged = match merged_at {
        Some(value) => format!("\"{value}\""),
        None => "null".to_owned(),
    };
    format!(
        "{{\"headRefName\":\"{branch}\",\"state\":\"{state}\",\"mergedAt\":{merged},\"updatedAt\":\"{updated_at}\",\"url\":\"{url}\"}}"
    )
}

#[test]
fn disabled_lookup_returns_unknown_without_starting_gh() {
    let client = GhCli::new(FakeRunner::default());
    let states = client.resolve_pr_states(
        "/repo",
        Some("main"),
        &[Some("main".into()), Some("feature/a".into()), None],
        false,
    );
    assert_eq!(
        states.get("feature/a").unwrap().diagnostic.as_ref().unwrap().reason,
        PrUnavailableReason::Disabled
    );
    assert!(client.runner().commands.lock().unwrap().is_empty());
}

#[test]
fn maps_all_pr_states_and_prefers_the_latest_record() {
    let output = format!(
        "[{},{},{},{}]",
        record("feature/open", "MERGED", Some("2026-01-01T00:00:00Z"), "2026-01-01T00:00:00Z", "old"),
        record("feature/open", "OPEN", None, "2026-01-02T00:00:00Z", "new"),
        record("feature/merged", "CLOSED", Some("2026-01-02T00:00:00Z"), "2026-01-02T00:00:00Z", "merged"),
        record("feature/closed", "CLOSED", None, "2026-01-02T00:00:00Z", "closed"),
    );
    let client = GhCli::new(FakeRunner::with_outputs(vec![Ok(success(&output))]));
    let states = client.resolve_pr_states(
        "/repo",
        Some("main"),
        &[
            Some("feature/open".into()),
            Some("feature/merged".into()),
            Some("feature/closed".into()),
            Some("feature/none".into()),
        ],
        true,
    );
    assert_eq!(states.get("feature/open").unwrap().status, Some(PrStatus::Open));
    assert_eq!(states.get("feature/open").unwrap().url.as_deref(), Some("new"));
    assert_eq!(states.get("feature/merged").unwrap().status, Some(PrStatus::Merged));
    assert_eq!(states.get("feature/closed").unwrap().status, Some(PrStatus::ClosedUnmerged));
    assert_eq!(states.get("feature/none").unwrap().status, Some(PrStatus::NoPullRequest));
}

#[test]
fn batches_queries_and_merges_success_and_failure_as_unknown() {
    let first = format!("[{}]", record("feature/0", "OPEN", None, "2026-01-01T00:00:00Z", "https://example.test/0"));
    let failed = Ok(ProcessOutput {
        stdout: Vec::new(),
        stderr: b"not logged in".to_vec(),
        exit_code: Some(1),
        timed_out: false,
        ..Default::default()
    });
    let runner = FakeRunner::with_outputs(vec![Ok(success(&first)), failed]);
    let client = GhCli::new(runner);
    let branches = (0..(GH_BRANCH_BATCH_SIZE + 3)).map(|index| Some(format!("feature/{index}"))).collect::<Vec<_>>();
    let states = client.resolve_pr_states("/repo", Some("main"), &branches, true);

    assert_eq!(client.runner().commands.lock().unwrap().len(), 2);
    assert_eq!(states.get("feature/0").unwrap().status, Some(PrStatus::Open));
    assert_eq!(states.get("feature/1").unwrap().status, Some(PrStatus::NoPullRequest));
    assert_eq!(states.get("feature/25").unwrap().status, Some(PrStatus::Unknown));
    assert_eq!(states.len(), GH_BRANCH_BATCH_SIZE + 3);
}

#[test]
fn invalid_json_and_unavailable_process_are_unknown() {
    let client = GhCli::new(FakeRunner::with_outputs(vec![Ok(success("not-json"))]));
    let states = client.resolve_pr_states("/repo", Some("main"), &[Some("feature/a".into())], true);
    assert_eq!(states.get("feature/a").unwrap().status, Some(PrStatus::Unknown));
    assert_eq!(
        states.get("feature/a").unwrap().diagnostic.as_ref().unwrap().reason,
        PrUnavailableReason::InvalidResponse
    );

    let unavailable = GhCli::new(FakeRunner::with_outputs(vec![Err(ProcessError::Spawn(IoFailure {
        kind: IoErrorKind::NotFound,
        message: "gh not found".to_owned(),
    }))]));
    let states = unavailable.resolve_pr_states("/repo", Some("main"), &[Some("feature/a".into())], true);
    assert_eq!(states.get("feature/a").unwrap().status, Some(PrStatus::Unknown));
    assert_eq!(
        states.get("feature/a").unwrap().diagnostic.as_ref().unwrap().reason,
        PrUnavailableReason::DependencyMissing
    );
}

#[test]
fn unknown_states_preserve_authentication_timeout_and_failure_evidence() {
    for (exit_code, timed_out, reason) in [
        (Some(4), false, PrUnavailableReason::AuthenticationRequired),
        (None, true, PrUnavailableReason::TimedOut),
        (Some(1), false, PrUnavailableReason::CommandFailed),
    ] {
        let client = GhCli::new(FakeRunner::with_outputs(vec![Ok(ProcessOutput {
            stdout: Vec::new(),
            stderr: b"probe detail".to_vec(),
            exit_code,
            timed_out,
            ..Default::default()
        })]));
        let states = client.resolve_pr_states("/repo", Some("main"), &[Some("topic".to_owned())], true);
        let diagnostic = states.get("topic").unwrap().diagnostic.as_ref().unwrap();
        assert_eq!(diagnostic.reason, reason);
        assert_eq!(diagnostic.exit_code, exit_code);
        assert_eq!(diagnostic.message.as_deref(), Some("probe detail"));
        assert_eq!(states.get("topic").unwrap().status, Some(PrStatus::Unknown));
    }
}

#[test]
fn a_type_invalid_record_makes_the_whole_batch_unknown() {
    let client = GhCli::new(FakeRunner::with_outputs(vec![Ok(success(
        r#"[
            {"headRefName":"feature/a","state":"OPEN","mergedAt":null,"updatedAt":"2026-01-01T00:00:00Z","url":"https://example.test/a"},
            {"headRefName":"feature/b","state":42,"mergedAt":null,"updatedAt":"2026-01-01T00:00:00Z","url":"https://example.test/b"}
        ]"#,
    ))]));
    let states = client.resolve_pr_states(
        "/repo",
        Some("main"),
        &[Some("feature/a".into()), Some("feature/b".into())],
        true,
    );
    assert_eq!(states.get("feature/a").unwrap().status, Some(PrStatus::Unknown));
    assert_eq!(states.get("feature/b").unwrap().status, Some(PrStatus::Unknown));
}

#[test]
fn missing_required_fields_or_invalid_timestamps_make_the_batch_unknown() {
    for response in [
        r#"[{"state":"OPEN","mergedAt":null,"updatedAt":"2026-01-01T00:00:00Z","url":"https://example.test/a"}]"#,
        r#"[{"headRefName":"feature/a","state":"OPEN","mergedAt":null,"updatedAt":"not-a-time","url":"https://example.test/a"}]"#,
        r#"[{"headRefName":"feature/a","state":"OPEN","mergedAt":null,"updatedAt":"2026-01-01T00:00:00Z"}]"#,
    ] {
        let client = GhCli::new(FakeRunner::with_outputs(vec![Ok(success(response))]));
        let states = client.resolve_pr_states("/repo", Some("main"), &[Some("feature/a".into())], true);
        assert_eq!(states.get("feature/a").unwrap().status, Some(PrStatus::Unknown));
    }
}

#[test]
fn command_contract_uses_bounded_search_and_expected_process_policy() {
    let client = GhCli::with_timeout(FakeRunner::with_outputs(vec![Ok(success("[]"))]), 7000);
    let states = client.resolve_pr_states(
        "/repo",
        Some("main"),
        &[Some("main".into()), Some("feature/a".into())],
        true,
    );
    assert_eq!(states.get("feature/a").unwrap().status, Some(PrStatus::NoPullRequest));
    let commands = client.runner().commands.lock().unwrap();
    let command = &commands[0];
    assert_eq!(command.program, "gh");
    assert_eq!(command.cwd.as_deref(), Some("/repo"));
    assert_eq!(command.timeout_ms, Some(7000));
    assert_eq!(command.stdin, StdinPolicy::Null);
    assert_eq!(command.stdout, OutputPolicy::Capture);
    assert_eq!(command.stderr, OutputPolicy::Capture);
    assert_eq!(command.args[7], "head:feature/a");
}

#[test]
fn no_base_branch_or_no_targets_asks_nothing() {
    let client = GhCli::new(FakeRunner::default());
    assert_eq!(client.resolve_pr_states("/repo", None, &[Some("feature/a".into())], true).len(), 0);
    assert_eq!(client.resolve_pr_states("/repo", Some("main"), &[Some("main".into()), Some(String::new()), None], true).len(), 0);
    assert!(client.runner().commands.lock().unwrap().is_empty());
}

#[test]
fn merge_timestamp_wins_over_state_and_state_is_case_insensitive() {
    let output = format!(
        "[{},{}]",
        record("feature/a", "closed", Some("2026-02-01T00:00:00Z"), "2026-02-01T00:00:00Z", "u1"),
        record("feature/b", "open", None, "2026-02-01T00:00:00Z", "u2"),
    );
    let client = GhCli::new(FakeRunner::with_outputs(vec![Ok(success(&output))]));
    let states = client.resolve_pr_states(
        "/repo",
        Some("main"),
        &[Some("feature/a".into()), Some("feature/b".into())],
        true,
    );
    assert_eq!(states.get("feature/a").unwrap().status, Some(PrStatus::Merged));
    assert_eq!(states.get("feature/b").unwrap().status, Some(PrStatus::Open));
}

#[test]
fn equal_update_times_prefer_the_later_record() {
    let output = format!(
        "[{},{}]",
        record("feature/a", "OPEN", None, "2026-03-01T00:00:00Z", "first"),
        record("feature/a", "CLOSED", None, "2026-03-01T00:00:00Z", "second"),
    );
    let client = GhCli::new(FakeRunner::with_outputs(vec![Ok(success(&output))]));
    let states = client.resolve_pr_states("/repo", Some("main"), &[Some("feature/a".into())], true);
    assert_eq!(states.get("feature/a").unwrap().url.as_deref(), Some("second"));
    assert_eq!(states.get("feature/a").unwrap().status, Some(PrStatus::ClosedUnmerged));
}

#[test]
fn duplicate_branches_are_asked_once() {
    let client = GhCli::new(FakeRunner::with_outputs(vec![Ok(success("[]"))]));
    let states = client.resolve_pr_states(
        "/repo",
        Some("main"),
        &[Some("feature/a".into()), Some("feature/a".into())],
        true,
    );
    assert_eq!(states.len(), 1);
    let commands = client.runner().commands.lock().unwrap();
    assert_eq!(commands[0].args[7], "head:feature/a");
}

#[test]
fn lookup_runs_one_bounded_gh_command_per_batch_and_none_when_disabled() {
    let client = GhCli::new(FakeRunner::default());
    let branches: Vec<Option<String>> = (0..30).map(|i| Some(format!("feature/{i}"))).collect();
    assert!(client.lookup_commands("/repo", Some("main"), &branches, false).is_empty());
    assert!(client.lookup_commands("/repo", None, &branches, true).is_empty());
    let commands = client.lookup_commands("/repo", Some("main"), &branches, true);
    assert_eq!(commands.len(), 2);
    for command in &commands {
        assert_eq!(command.program, "gh");
        assert_eq!(command.cwd.as_deref(), Some("/repo"));
        assert_eq!(command.timeout_ms, Some(30000));
    }
    assert!(commands[0].args.iter().any(|a| a.contains("head:feature/0")));
    assert!(commands[1].args.iter().any(|a| a.contains("head:feature/29")));
}
