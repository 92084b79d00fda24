use std::cell::RefCell;

use vde_worktree::adoption::{apply_adopt, at_phase, revalidate_absent_target};
use vde_worktree::change::SnapshotWorktree;
use vde_worktree::config::{
    CommonOptions, FzfConfig, GitConfig, GithubConfig, HooksConfig, LocksConfig, PathsConfig, ResolvedConfig,
    SelectorCdConfig,
};
use vde_worktree::create::TargetFilesystem;
use vde_worktree::error::{CliError, DetailValue, ErrorCode, ExecutionPhase, ExecutionState};
use vde_worktree::fzf::SelectorCdSurface;
use vde_worktree::invoke::{hook_invocation, invocation_phase, invoke_hook, HookInvocation, HookRun, HookRunner};
use vde_worktree::mapping::{HookExecution, HookOutcome, HookPhase, HookRunReport};
use vde_worktree::plans::{AdoptCandidate, AdoptPlan, AdoptSkipped, AdoptSkippedReason};
use vde_worktree::probes::CreateMutationGit;
use vde_worktree::process::ProcessOutput;

fn output(code: i32, stdout: &str) -> ProcessOutput {
    ProcessOutput {
        exit_code: Some(code),
        stdout: stdout.as_bytes().to_vec(),
        stderr: Vec::new(),
        timed_out: false,
        signal: None,
        stdout_truncated: false,
        stderr_truncated: false,
    }
}

/// Git that lists each candidate's branch at its original path and fails moves of the
/// listed sources.
struct Git {
    listing: String,
    failing_moves: Vec<&'static str>,
    moves: RefCell<Vec<String>>,
}

impl CreateMutationGit for Git {
    fn run_git(&self, _cwd: &str, args: &[String]) -> Result<ProcessOutput, CliError> {
        if args.first().map(String::as_str) == Some("worktree") && args.get(1).map(String::as_str) == Some("list") {
            return Ok(output(0, &self.listing));
        }
        Ok(output(0, ""))
    }

    fn run_git_checked(&self, cwd: &str, args: &[String]) -> Result<ProcessOutput, CliError> {
        if args.first().map(String::as_str) == Some("worktree") && args.get(1).map(String::as_str) == Some("move") {
            self.moves.borrow_mut().push(args[2..].join(" "));
            if self.failing_moves.iter().any(|from| args[2] == *from) {
                return Err(CliError::new(ErrorCode::GitCommandFailed, "git command failed"));
            }
            return Ok(output(0, ""));
        }
        self.run_git(cwd, args)
    }
}

struct Fs {
    taken: Vec<&'static str>,
}

impl TargetFilesystem for Fs {
    fn ensure_contained(&self, _managed_root: &str, _path: &str) -> Result<(), CliError> {
        Ok(())
    }

    fn path_exists(&self, path: &str) -> Result<bool, CliError> {
        Ok(self.taken.contains(&path))
    }

    fn ensure_target_writable(&self, _path: &str) -> Result<(), CliError> {
        Ok(())
    }

    fn ensure_target_path_empty(&self, _path: &str) -> Result<(), CliError> {
        Ok(())
    }

    fn create_parent(&self, _path: &str) -> Result<(), CliError> {
        Ok(())
    }

    fn prune_empty_target_parents(&self, _target: &str, _managed_root: &str) {}

    fn same_location(&self, left: &str, right: &str) -> bool {
        left == right
    }
}

fn candidate(branch: &str) -> AdoptCandidate {
    AdoptCandidate {
        branch: branch.to_owned(),
        from_path: format!("/elsewhere/{branch}"),
        to_path: format!("/repo/.worktree/{branch}"),
    }
}

fn listing() -> String {
    "worktree /repo\0HEAD a\0branch refs/heads/main\0\0worktree /elsewhere/one\0HEAD b\0branch refs/heads/one\0\0worktree /elsewhere/two\0HEAD c\0branch refs/heads/two\0\0".to_owned()
}

fn plan(dry_run: bool) -> AdoptPlan {
    AdoptPlan {
        repo_root: "/repo".to_owned(),
        managed_worktree_root: "/repo/.worktree".to_owned(),
        dry_run,
        candidates: vec![candidate("one"), candidate("two")],
        skipped: vec![AdoptSkipped {
            branch: None,
            from_path: "/elsewhere/detached".to_owned(),
            to_path: None,
            reason: AdoptSkippedReason::Detached,
        }],
    }
}

#[test]
fn adopt_dry_run_moves_nothing() {
    let git = Git { listing: listing(), failing_moves: vec![], moves: RefCell::new(Vec::new()) };
    let result = apply_adopt(&git, &Fs { taken: vec![] }, &plan(true));
    assert!(result.dry_run);
    assert_eq!(result.candidates.len(), 2);
    assert!(result.moved.is_empty());
    assert_eq!(result.skipped.len(), 1);
    assert!(git.moves.borrow().is_empty());
}

#[test]
fn adopt_moves_each_candidate_and_reports_failures() {
    let git = Git { listing: listing(), failing_moves: vec!["/elsewhere/two"], moves: RefCell::new(Vec::new()) };
    let result = apply_adopt(&git, &Fs { taken: vec![] }, &plan(false));
    assert_eq!(
        *git.moves.borrow(),
        vec!["/elsewhere/one /repo/.worktree/one".to_owned(), "/elsewhere/two /repo/.worktree/two".to_owned()]
    );
    assert_eq!(result.moved, vec![candidate("one")]);
    assert!(result.has_failures());
    let failed = &result.failed[0];
    assert_eq!(failed.branch, "two");
    assert_eq!(failed.code, "GIT_COMMAND_FAILED");
    assert_eq!(failed.execution.phase, ExecutionPhase::Apply);
    assert_eq!(failed.execution.state, ExecutionState::Unknown);
}

#[test]
fn adopt_target_taken_after_preflight_is_a_failure_of_that_candidate() {
    let git = Git { listing: listing(), failing_moves: vec![], moves: RefCell::new(Vec::new()) };
    let result = apply_adopt(&git, &Fs { taken: vec!["/repo/.worktree/one"] }, &plan(false));
    assert_eq!(result.moved, vec![candidate("two")]);
    let failed = &result.failed[0];
    assert_eq!(failed.code, "TARGET_PATH_NOT_EMPTY");
    assert_eq!(failed.message, "target path is not empty: /repo/.worktree/one");
    assert_eq!(failed.execution.phase, ExecutionPhase::Apply);
}

#[test]
fn absent_target_revalidation_reports_a_changed_target() {
    let result = revalidate_absent_target(&Fs { taken: vec![] }, "/repo/.worktree", "one", "/repo/.worktree/other");
    let error = result.unwrap_err();
    assert_eq!(error.code, ErrorCode::PathOutsideRepo);
    assert_eq!(error.detail("actualPath"), Some(&DetailValue::Text("/repo/.worktree/one".to_owned())));
    assert_eq!(error.detail("expectedPath"), Some(&DetailValue::Text("/repo/.worktree/other".to_owned())));
}

#[test]
fn at_phase_replaces_phase_state_and_steps() {
    let error = at_phase(CliError::new(ErrorCode::InternalError, "x"), ExecutionPhase::Preflight, ExecutionState::NotStarted);
    let execution = error.execution.unwrap();
    assert_eq!(execution.phase, ExecutionPhase::Preflight);
    assert_eq!(execution.state, ExecutionState::NotStarted);
    assert!(execution.completed.is_empty());
}

fn config() -> ResolvedConfig {
    ResolvedConfig {
        paths: PathsConfig { worktree_root: ".worktree".to_owned() },
        git: GitConfig { base_branch: None, base_remote: "origin".to_owned() },
        github: GithubConfig { enabled: true },
        hooks: HooksConfig { enabled: true, timeout_ms: 30000 },
        locks: LocksConfig { timeout_ms: 15000, stale_lock_ttl_seconds: 1800 },
        list_columns: Vec::new(),
        selector_cd: SelectorCdConfig {
            prompt: "worktree> ".to_owned(),
            surface: SelectorCdSurface::Auto,
            tmux_popup_opts: "80%,70%".to_owned(),
            fzf: FzfConfig { extra_args: Vec::new() },
        },
    }
}

fn common(hook_timeout_ms: Option<u64>) -> CommonOptions {
    CommonOptions {
        json: true,
        hooks: false,
        no_hooks: false,
        gh: false,
        no_gh: false,
        strict_post_hooks: false,
        hook_timeout_ms,
        lock_timeout_ms: None,
        prompt: None,
        fzf_args: Vec::new(),
    }
}

struct Runner {
    outcome: HookOutcome,
    fatal: bool,
    seen: RefCell<Vec<(HookPhase, String, Vec<String>, HookInvocation)>>,
}

impl HookRunner for Runner {
    fn run_hook(&self, phase: HookPhase, hook: &str, arguments: &[String], context: &HookInvocation) -> Result<HookRun, CliError> {
        self.seen.borrow_mut().push((
            phase,
            hook.to_owned(),
            arguments.to_vec(),
            HookInvocation {
                repo_root: context.repo_root.clone(),
                command: context.command.clone(),
                branch: context.branch.clone(),
                worktree_path: context.worktree_path.clone(),
                execution_cwd: context.execution_cwd.clone(),
                is_tty: context.is_tty,
                timeout_ms: context.timeout_ms,
            },
        ));
        Ok(HookRun {
            report: HookRunReport {
                hook: hook.to_owned(),
                phase,
                log_path: "/repo/.vde/worktree/logs/x.log".to_owned(),
                outcome: self.outcome.clone(),
            },
            fatal: self.fatal,
        })
    }
}

fn execution(code: Option<i32>) -> HookExecution {
    HookExecution {
        started_at: "s".to_owned(),
        ended_at: "e".to_owned(),
        exit_code: code,
        timed_out: false,
        stderr: String::new(),
    }
}

fn worktrees() -> Vec<SnapshotWorktree> {
    vec![
        SnapshotWorktree { path: "/repo".to_owned(), branch: Some("main".to_owned()), dirty: false },
        SnapshotWorktree { path: "/repo/.worktree/topic".to_owned(), branch: Some("topic".to_owned()), dirty: false },
    ]
}

#[test]
fn invoke_runs_the_hook_in_the_current_worktree() {
    let runner = Runner { outcome: HookOutcome::Success(execution(Some(0))), fatal: false, seen: RefCell::new(Vec::new()) };
    let output = invoke_hook(
        &runner,
        "/repo",
        "/repo/.worktree/topic",
        &worktrees(),
        &common(None),
        &config(),
        "post-switch",
        &["a".to_owned()],
        true,
    )
    .unwrap();
    assert_eq!(output.data, DetailValue::Object(vec![("hook".to_owned(), DetailValue::Text("post-switch".to_owned()))]));
    let seen = runner.seen.borrow();
    let (phase, hook, arguments, context) = &seen[0];
    assert_eq!(*phase, HookPhase::Post);
    assert_eq!(hook, "post-switch");
    assert_eq!(arguments, &vec!["a".to_owned()]);
    assert_eq!(context.command, "invoke:post-switch");
    assert_eq!(context.branch, Some("topic".to_owned()));
    assert_eq!(context.execution_cwd, "/repo/.worktree/topic");
    assert_eq!(context.timeout_ms, 30000);
    assert!(context.is_tty);
}

#[test]
fn invoke_fatal_hook_failure_is_mapped() {
    let runner = Runner { outcome: HookOutcome::NonZero(execution(Some(3))), fatal: true, seen: RefCell::new(Vec::new()) };
    let error = invoke_hook(&runner, "/repo", "/repo", &worktrees(), &common(Some(25)), &config(), "pre-new", &[], false)
        .unwrap_err();
    assert_eq!(error.code, ErrorCode::HookFailed);
    assert_eq!(error.detail("logPath"), Some(&DetailValue::Text("/repo/.vde/worktree/logs/x.log".to_owned())));
    let seen = runner.seen.borrow();
    assert_eq!(seen[0].0, HookPhase::Pre);
    assert_eq!(seen[0].3.timeout_ms, 25);
}

#[test]
fn invoke_outside_a_listed_worktree_is_rejected() {
    let runner = Runner { outcome: HookOutcome::Success(execution(Some(0))), fatal: false, seen: RefCell::new(Vec::new()) };
    let error = invoke_hook(&runner, "/repo", "/tmp/x", &worktrees(), &common(None), &config(), "post-new", &[], false)
        .unwrap_err();
    assert_eq!(error.code, ErrorCode::WorktreeNotFound);
    assert_eq!(error.message, "current worktree is not present in Git worktree metadata");
    assert!(runner.seen.borrow().is_empty());
}

#[test]
fn invoked_hook_phase_follows_its_name() {
    assert_eq!(invocation_phase("pre-new"), HookPhase::Pre);
    assert_eq!(invocation_phase("post-new"), HookPhase::Post);
    assert_eq!(invocation_phase("prelude"), HookPhase::Post);
    let current = SnapshotWorktree { path: "/w".to_owned(), branch: None, dirty: true };
    let context = hook_invocation("/repo", "pre-x", &current, false, 7);
    assert_eq!(context.worktree_path, "/w");
    assert_eq!(context.branch, None);
}
