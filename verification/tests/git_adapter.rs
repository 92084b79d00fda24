use std::cell::RefCell;

use vde_worktree::error::{DetailValue, ErrorCode};
use vde_worktree::git::{
    configured_worktree_answer, listed_primary_answer, pointer_target_answer, toplevel_answer,
    trim_ascii_whitespace, worktree_paths_from_porcelain, GitCli, GitCliError, RepoContext,
};
use vde_worktree::mapping::MapToCliError;
use vde_worktree::process::{
    IoErrorKind, IoFailure, OutputPolicy, ProcessCommand, ProcessError, ProcessOutput,
    ProcessRunner, StdinPolicy,
};

struct FixedRunner {
    result: Result<ProcessOutput, ProcessError>,
    commands: RefCell<Vec<ProcessCommand>>,
}

impl ProcessRunner for FixedRunner {
    fn run(&self, command: &ProcessCommand) -> Result<ProcessOutput, ProcessError> {
        self.commands.borrow_mut().push(command.clone());
        self.result.clone()
    }
}

fn failing() -> FixedRunner {
    FixedRunner {
        result: Ok(ProcessOutput {
            stdout: b"partial".to_vec(),
            stderr: b"fatal: broken".to_vec(),
            exit_code: Some(128),
            timed_out: false,
            ..Default::default()
        }),
        commands: RefCell::new(Vec::new()),
    }
}

fn args(values: &[&str]) -> Vec<String> {
    values.iter().map(|value| (*value).to_owned()).collect()
}

fn output(stdout: &[u8], exit_code: Option<i32>) -> ProcessOutput {
    ProcessOutput { stdout: stdout.to_vec(), exit_code, ..Default::default() }
}

#[test]
fn maps_a_fake_adapter_failure_through_cli_error_to_json() {
    let adapter = GitCli::new(failing());
    let source = adapter.execute_checked("/repo", &args(&["status", "--porcelain"])).expect_err("fake git must fail");
    let error = source.map_to_cli_error();
    assert_eq!(error.code, ErrorCode::GitCommandFailed);
    assert_eq!(error.exit_code(), 20);
    assert_eq!(error.detail("exitCode"), Some(&DetailValue::Int(128)));
    assert_eq!(error.detail("stderr"), Some(&DetailValue::Text("fatal: broken".to_owned())));
    assert_eq!(error.code.as_str(), "GIT_COMMAND_FAILED");
}

#[test]
fn maps_unsupported_repository_layout_to_safety_exit() {
    let error = GitCliError::UnsupportedRepositoryLayout {
        cwd: "/linked/repository".into(),
        reason: "core.worktree is missing".to_owned(),
    }
    .map_to_cli_error();
    assert_eq!(error.code, ErrorCode::UnsupportedRepositoryLayout);
    assert_eq!(error.exit_code(), 4);
    assert_eq!(error.detail("cwd"), Some(&DetailValue::Text("/linked/repository".to_owned())));
    assert_eq!(error.detail("reason"), Some(&DetailValue::Text("core.worktree is missing".to_owned())));
}

#[test]
fn git_runs_without_stdin_and_captures_both_streams() {
    let adapter = GitCli::with_timeout(failing(), 1234);
    let output = adapter.execute("/repo", &args(&["--version"])).unwrap();
    assert_eq!(output.exit_code, Some(128));
    let commands = adapter.runner().commands.borrow();
    assert_eq!(commands[0].program, "git");
    assert_eq!(commands[0].args, ["--version"]);
    assert_eq!(commands[0].cwd.as_deref(), Some("/repo"));
    assert_eq!(commands[0].stdin, StdinPolicy::Null);
    assert_eq!(commands[0].stdout, OutputPolicy::Capture);
    assert_eq!(commands[0].stderr, OutputPolicy::Capture);
    assert_eq!(commands[0].timeout_ms, Some(1234));
}

#[test]
fn a_run_that_cannot_start_is_a_command_failure_with_its_cause() {
    let adapter = GitCli::new(FixedRunner {
        result: Err(ProcessError::Spawn(IoFailure { kind: IoErrorKind::NotFound, message: "missing".to_owned() })),
        commands: RefCell::new(Vec::new()),
    });
    let error = adapter.execute("/repo", &args(&["status"])).unwrap_err();
    assert_eq!(error.code(), "GIT_COMMAND_FAILED");
    let mapped = error.map_to_cli_error();
    assert_eq!(mapped.detail("exitCode"), Some(&DetailValue::Null));
    assert_eq!(mapped.detail("cause"), Some(&DetailValue::Text("failed to spawn process: missing".to_owned())));
}

#[test]
fn reports_not_git_repository_with_a_stable_code() {
    let error = toplevel_answer("/tmp/x", ProcessOutput { stderr: b"fatal: not a git repository".to_vec(), exit_code: Some(128), ..Default::default() })
        .unwrap_err();
    assert!(matches!(error, GitCliError::NotGitRepository { .. }));
    assert_eq!(error.code(), "NOT_GIT_REPOSITORY");
    assert_eq!(error.describe(), "/tmp/x is not inside a Git repository");
}

#[test]
fn toplevel_path_is_the_trimmed_output() {
    assert_eq!(toplevel_answer("/repo/sub", output(b"/repo\n", Some(0))).unwrap(), "/repo");
    assert!(matches!(toplevel_answer("/repo", output(b" \n", Some(0))), Err(GitCliError::GitCommandFailed(_))));
}

#[test]
fn porcelain_listing_yields_worktree_paths_in_order() {
    let listing = b"worktree /repo\0HEAD abc\0branch refs/heads/main\0\0worktree /repo/.worktree/a\0HEAD def\0detached\0\0";
    assert_eq!(worktree_paths_from_porcelain(listing), ["/repo", "/repo/.worktree/a"]);
    assert_eq!(listed_primary_answer("/repo", output(listing, Some(0))).unwrap(), "/repo");
    assert!(listed_primary_answer("/repo", output(b"HEAD abc\0", Some(0))).is_err());
}

#[test]
fn ascii_whitespace_is_trimmed_from_both_ends() {
    assert_eq!(trim_ascii_whitespace(b" \t/repo/x\r\n"), b"/repo/x");
    assert_eq!(trim_ascii_whitespace(b" \n "), b"");
}

#[test]
fn rejects_a_separate_git_directory_without_core_worktree() {
    let error = configured_worktree_answer("/linked", "/meta/repo.git", output(b"", Some(1))).unwrap_err();
    assert!(matches!(error, GitCliError::UnsupportedRepositoryLayout { .. }));
    assert_eq!(error.code(), "UNSUPPORTED_REPOSITORY_LAYOUT");
    let empty = configured_worktree_answer("/linked", "/meta/repo.git", output(b"  \n", Some(0))).unwrap_err();
    assert_eq!(empty.describe(), "unsupported Git repository layout in /linked: core.worktree must not be empty");
    assert!(matches!(
        configured_worktree_answer("/linked", "/meta/repo.git", output(b"", Some(2))),
        Err(GitCliError::GitCommandFailed(_))
    ));
}

#[test]
fn configured_worktree_is_resolved_against_the_common_directory() {
    assert_eq!(configured_worktree_answer("/x", "/meta/repo.git", output(b"../work\n", Some(0))).unwrap(), "/meta/repo.git/../work");
    assert_eq!(configured_worktree_answer("/x", "/meta/repo.git", output(b"/abs/work\n", Some(0))).unwrap(), "/abs/work");
}

#[test]
fn git_pointer_must_name_a_git_directory() {
    assert_eq!(pointer_target_answer("/x", "/work", "/work/.git", "gitdir: /meta/repo.git\n").unwrap(), "/meta/repo.git");
    assert_eq!(pointer_target_answer("/x", "/work", "/work/.git", "gitdir: ../meta").unwrap(), "/work/../meta");
    let error = pointer_target_answer("/x", "/work", "/work/.git", "nonsense").unwrap_err();
    assert_eq!(error.describe(), "unsupported Git repository layout in /x: /work/.git is not a Git directory pointer");
}

#[test]
fn command_failure_message_lists_its_arguments() {
    let adapter = GitCli::new(failing());
    let error = adapter.execute_checked("/repo", &args(&["log", "a\"b"])).unwrap_err();
    assert_eq!(
        error.describe(),
        "git command failed in /repo (args: [\"log\", \"a\\\"b\"], exit code: Some(128), timed out: false)"
    );
}

/// Answers git by its arguments.
struct ScriptedRunner {
    replies: Vec<(Vec<String>, ProcessOutput)>,
}

impl ProcessRunner for ScriptedRunner {
    fn run(&self, command: &ProcessCommand) -> Result<ProcessOutput, ProcessError> {
        for (expected, reply) in &self.replies {
            if expected == &command.args {
                return Ok(reply.clone());
            }
        }
        Ok(output(b"", Some(1)))
    }
}

/// A file system with a few canonical paths and files; locations are the same when their
/// canonical forms are.
struct Files {
    canonical: Vec<(&'static str, &'static str)>,
    files: Vec<(&'static str, &'static str)>,
}

impl Files {
    fn resolve<'a>(&'a self, path: &'a str) -> &'a str {
        self.canonical.iter().find(|(from, _)| *from == path).map_or(path, |(_, to)| *to)
    }
}

impl vde_worktree::git::RepositoryFiles for Files {
    fn canonicalize(&self, path: &str) -> Result<String, String> {
        self.canonical
            .iter()
            .find(|(from, _)| *from == path)
            .map(|(_, to)| (*to).to_owned())
            .ok_or_else(|| "No such file or directory (os error 2)".to_owned())
    }

    fn read_text(&self, path: &str) -> Result<String, String> {
        self.files
            .iter()
            .find(|(name, _)| *name == path)
            .map(|(_, text)| (*text).to_owned())
            .ok_or_else(|| "No such file or directory (os error 2)".to_owned())
    }

    fn same_location(&self, left: &str, right: &str) -> bool {
        self.resolve(left) == self.resolve(right)
    }
}

fn discovery(extra: Vec<(&[&str], ProcessOutput)>) -> GitCli<ScriptedRunner> {
    let mut replies = vec![
        (args(&["rev-parse", "--show-toplevel"]), output(b"/w/feature\n", Some(0))),
        (args(&["rev-parse", "--path-format=absolute", "--git-common-dir"]), output(b"/repo/.git\n", Some(0))),
    ];
    replies.extend(extra.into_iter().map(|(a, reply)| (args(a), reply)));
    GitCli::new(ScriptedRunner { replies })
}

#[test]
fn repository_context_names_the_current_primary_and_common_locations() {
    let git = discovery(vec![(
        &["worktree", "list", "--porcelain", "-z"],
        output(b"worktree /repo\0HEAD 1\0branch refs/heads/main\0\0worktree /w/feature\0HEAD 2\0\0", Some(0)),
    )]);
    let files = Files { canonical: vec![], files: vec![] };
    let context = git.resolve_repo_context(&files, "/w/feature/src").unwrap();
    assert_eq!(
        context,
        RepoContext {
            repo_root: "/repo".to_owned(),
            current_worktree_root: "/w/feature".to_owned(),
            git_common_dir: "/repo/.git".to_owned(),
        }
    );
}

#[test]
fn outside_a_repository_the_toplevel_probe_fails() {
    let git = GitCli::new(ScriptedRunner {
        replies: vec![(args(&["rev-parse", "--show-toplevel"]), ProcessOutput {
            stderr: b"fatal: not a git repository".to_vec(),
            exit_code: Some(128),
            ..Default::default()
        })],
    });
    let error = git.resolve_repo_context(&Files { canonical: vec![], files: vec![] }, "/tmp").unwrap_err();
    assert!(matches!(error, GitCliError::NotGitRepository { ref cwd, .. } if cwd == "/tmp"));
}

#[test]
fn a_separate_git_directory_is_followed_to_its_checked_pointer() {
    let listing = output(b"worktree /repo/.git\0bare\0\0", Some(0));
    let configured = (&["config", "--path", "--get", "core.worktree"][..], output(b"../work\n", Some(0)));
    let git = discovery(vec![(&["worktree", "list", "--porcelain", "-z"], listing.clone()), configured.clone()]);
    let files = Files {
        canonical: vec![("/repo/.git/../work", "/work"), ("/repo/.git", "/repo/.git")],
        files: vec![("/work/.git", "gitdir: /repo/.git\n")],
    };
    assert_eq!(git.resolve_repo_context(&files, "/work").unwrap().repo_root, "/work");

    let elsewhere = Files {
        canonical: vec![("/repo/.git/../work", "/work")],
        files: vec![("/work/.git", "gitdir: /other.git\n")],
    };
    let error = git.resolve_repo_context(&elsewhere, "/work").unwrap_err();
    assert_eq!(error.map_to_cli_error().code, ErrorCode::UnsupportedRepositoryLayout);

    let unset = discovery(vec![
        (&["worktree", "list", "--porcelain", "-z"], listing),
        (&["config", "--path", "--get", "core.worktree"], output(b"", Some(1))),
    ]);
    let error = unset.resolve_repo_context(&files, "/work").unwrap_err();
    assert!(matches!(error, GitCliError::UnsupportedRepositoryLayout { ref reason, .. }
        if reason == "separate Git directory does not define core.worktree"));

    let unresolved = Files { canonical: vec![], files: vec![] };
    let error = git.resolve_repo_context(&unresolved, "/work").unwrap_err();
    assert!(matches!(error, GitCliError::UnsupportedRepositoryLayout { ref reason, .. }
        if reason == "core.worktree /repo/.git/../work cannot be resolved: No such file or directory (os error 2)"));
}
