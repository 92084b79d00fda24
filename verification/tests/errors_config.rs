use vde_worktree::config::{
    apply_cli_values, effective_configuration, CommonOptions, ConfigSource, FzfConfig, GitConfig,
    GithubConfig, HooksConfig, LoadedConfig, LocksConfig, PathsConfig, ResolvedConfig,
    SelectorCdConfig,
};
use vde_worktree::error::{CliError, DetailValue, ErrorCode, ExecutionPhase, ExecutionState};
use vde_worktree::fzf::{FzfCommandFailure, FzfError, SelectorCdSurface};
use vde_worktree::mapping::{
    map_hook_outcome, map_hook_report, map_metadata_transaction_error, map_transaction_error, HookExecution,
    HookOutcome, HookPhase, HookRunReport, MapToCliError, MetadataTransactionError, MetadataTransactionFailure,
};
use vde_worktree::paths::{
    managed_root_exclude_entry, path_components, path_is_managed, resolve_managed_worktree_root,
};
use vde_worktree::pipeline::{attach_post_hook_error, hook_error_with_restore_failure, CommandOutput};

fn config() -> ResolvedConfig {
    ResolvedConfig {
        paths: PathsConfig { worktree_root: ".worktree".to_owned() },
        git: GitConfig { base_branch: None, base_remote: "origin".to_owned() },
        github: GithubConfig { enabled: true },
        hooks: HooksConfig { enabled: true, timeout_ms: 30000 },
        locks: LocksConfig { timeout_ms: 15000, stale_lock_ttl_seconds: 1800 },
        list_columns: vec!["branch".to_owned()],
        selector_cd: SelectorCdConfig {
            prompt: "worktree> ".to_owned(),
            surface: SelectorCdSurface::Auto,
            tmux_popup_opts: "80%,70%".to_owned(),
            fzf: FzfConfig { extra_args: vec!["--cycle".to_owned()] },
        },
    }
}

fn common() -> CommonOptions {
    CommonOptions {
        json: false,
        hooks: false,
        no_hooks: false,
        gh: false,
        no_gh: false,
        strict_post_hooks: false,
        hook_timeout_ms: None,
        lock_timeout_ms: None,
        prompt: None,
        fzf_args: Vec::new(),
    }
}

fn execution(timed_out: bool) -> HookExecution {
    HookExecution {
        started_at: "2026-01-01T00:00:00Z".to_owned(),
        ended_at: "2026-01-01T00:00:01Z".to_owned(),
        exit_code: None,
        timed_out,
        stderr: "slow".to_owned(),
    }
}

#[test]
fn preserves_public_exit_contract_for_representative_state_errors() {
    let hook_timeout = map_hook_outcome(&HookOutcome::TimedOut(execution(true)));
    assert_eq!(hook_timeout.code, ErrorCode::HookTimeout);
    assert_eq!(hook_timeout.exit_code(), 10);
    assert_eq!(hook_timeout.detail("timedOut"), Some(&DetailValue::Bool(true)));
    assert_eq!(CliError::new(ErrorCode::RepoLockTimeout, "x").exit_code(), 6);
    assert_eq!(CliError::new(ErrorCode::LockConflict, "x").exit_code(), 4);
}

#[test]
fn missing_and_spawn_failed_hooks_have_typed_errors() {
    let missing = map_hook_outcome(&HookOutcome::Missing { path: "/repo/.vde/worktree/hooks/pre-new".to_owned() });
    assert_eq!(missing.code, ErrorCode::HookNotFound);
    assert_eq!(missing.message, "hook was not found: /repo/.vde/worktree/hooks/pre-new");
    let spawn = map_hook_outcome(&HookOutcome::SpawnFailure { execution: execution(false), message: "denied".to_owned() });
    assert_eq!(spawn.code, ErrorCode::HookFailed);
    assert_eq!(spawn.detail("cause"), Some(&DetailValue::Text("denied".to_owned())));
    assert_eq!(map_hook_outcome(&HookOutcome::Success(execution(false))).code, ErrorCode::InternalError);
}

#[test]
fn hook_reports_name_the_hook_phase_and_log() {
    let error = map_hook_report(&HookRunReport {
        hook: "post-new".to_owned(),
        phase: HookPhase::Post,
        log_path: "/repo/.vde/worktree/logs/x.json".to_owned(),
        outcome: HookOutcome::NonZero(execution(false)),
    });
    assert_eq!(error.code, ErrorCode::HookFailed);
    assert_eq!(error.detail("hook"), Some(&DetailValue::Text("post-new".to_owned())));
    assert_eq!(error.detail("phase"), Some(&DetailValue::Text("post".to_owned())));
    assert_eq!(error.execution.as_ref().unwrap().phase, ExecutionPhase::PostHook);
    assert_eq!(error.execution.as_ref().unwrap().state, ExecutionState::Unknown);
}

#[test]
fn transaction_errors_report_their_state_and_recovery_material() {
    let mut error = CliError::new(ErrorCode::InternalError, "commit failed");
    error.insert_detail("committed", DetailValue::Bool(true));
    error.insert_detail("backupPath", DetailValue::Text("/tmp/backup".to_owned()));
    let mapped = map_transaction_error(error, ExecutionPhase::Finalize);
    let report = mapped.execution.as_ref().unwrap();
    assert_eq!(report.phase, ExecutionPhase::Finalize);
    assert_eq!(report.state, ExecutionState::Applied);
    assert_eq!(report.completed, ["apply"]);
    assert_eq!(report.recovery, [("backupPath".to_owned(), DetailValue::Text("/tmp/backup".to_owned()))]);
    assert_eq!(mapped.detail("backupPath"), Some(&DetailValue::Text("/tmp/backup".to_owned())));

    let mut failed = CliError::new(ErrorCode::InternalError, "rollback failed");
    failed.insert_detail("committed", DetailValue::Bool(true));
    failed.insert_detail("rollbackFailed", DetailValue::Bool(true));
    let mapped = map_transaction_error(failed, ExecutionPhase::Apply);
    assert_eq!(mapped.execution.as_ref().unwrap().state, ExecutionState::RecoveryRequired);
    assert!(mapped.execution.as_ref().unwrap().completed.is_empty());

    let mut rolled_back = CliError::new(ErrorCode::InternalError, "x");
    rolled_back.insert_detail("committed", DetailValue::Bool(false));
    assert_eq!(map_transaction_error(rolled_back, ExecutionPhase::Apply).execution.unwrap().state, ExecutionState::RolledBack);
    assert_eq!(
        map_transaction_error(CliError::new(ErrorCode::InternalError, "x"), ExecutionPhase::Apply).execution.unwrap().state,
        ExecutionState::Unknown
    );
}

#[test]
fn inserting_a_detail_twice_keeps_the_last_value_once() {
    let mut error = CliError::new(ErrorCode::InternalError, "x");
    error.insert_detail("k", DetailValue::Int(1));
    error.insert_detail("other", DetailValue::Null);
    error.insert_detail("k", DetailValue::Int(2));
    assert_eq!(error.detail("k"), Some(&DetailValue::Int(2)));
    assert_eq!(error.details.len(), 2);
    assert_eq!(error.detail("missing"), None);
}

#[test]
fn fzf_errors_map_to_cli_codes_and_messages() {
    let failure = FzfError::CommandFailed(FzfCommandFailure {
        signal: None,
        stdout_truncated: false,
        stderr_truncated: false,
        exit_code: Some(2),
        timed_out: false,
        stdout: Vec::new(),
        stderr: b"bad".to_vec(),
    })
    .map_to_cli_error();
    assert_eq!(failure.code, ErrorCode::ChildProcessFailed);
    assert_eq!(failure.message, "fzf selection failed (exit code: Some(2), timed out: false)");
    assert_eq!(failure.detail("stderr"), Some(&DetailValue::Text("bad".to_owned())));
    assert_eq!(FzfError::NoCandidates.map_to_cli_error().code, ErrorCode::WorktreeNotFound);
    assert_eq!(FzfError::TmuxPopupUnsupported.map_to_cli_error().code, ErrorCode::DependencyMissing);
    let invalid = FzfError::InvalidArgument("bad arg".to_owned()).map_to_cli_error();
    assert_eq!(invalid.message, "bad arg");
    assert_eq!(invalid.detail("reason"), Some(&DetailValue::Text("bad arg".to_owned())));
}

#[test]
fn restore_failure_and_post_hook_failure_are_recorded_in_details() {
    let combined = hook_error_with_restore_failure(
        CliError::new(ErrorCode::HookTimeout, "pre"),
        CliError::new(ErrorCode::StashApplyFailed, "restore"),
    );
    assert_eq!(combined.code, ErrorCode::HookTimeout);
    assert_eq!(combined.detail("autoRestoreFailed"), Some(&DetailValue::Bool(true)));

    let full = attach_post_hook_error(CommandOutput::new(DetailValue::Null), CliError::new(ErrorCode::HookFailed, "post"));
    assert_eq!(full.unwrap_err().code, ErrorCode::HookFailed);
}

#[test]
fn cli_values_override_the_configuration() {
    let mut configured = config();
    let mut options = common();
    options.no_hooks = true;
    options.hook_timeout_ms = Some(5);
    options.prompt = Some("pick> ".to_owned());
    options.fzf_args = vec!["--exact".to_owned()];
    apply_cli_values(&mut configured, &options);
    assert!(!configured.hooks.enabled);
    assert_eq!(configured.hooks.timeout_ms, 5);
    assert_eq!(configured.locks.timeout_ms, 15000);
    assert_eq!(configured.selector_cd.prompt, "pick> ");
    assert_eq!(configured.selector_cd.fzf.extra_args, ["--cycle", "--exact"]);
    assert!(configured.github.enabled);
}

#[test]
fn effective_configuration_records_command_line_sources() {
    let loaded = LoadedConfig {
        config: config(),
        loaded_files: vec!["/repo/.vde/worktree/config.yml".to_owned()],
        sources: vec![
            ("hooks.enabled".to_owned(), vec![ConfigSource::Default]),
            ("selector.cd.fzf.extraArgs".to_owned(), vec![ConfigSource::File { path: "/c.yml".to_owned() }]),
        ],
    };
    let mut options = common();
    options.hooks = true;
    options.lock_timeout_ms = Some(1);
    options.fzf_args = vec!["--exact".to_owned()];
    let effective = effective_configuration(loaded, &options);
    assert_eq!(effective.config.locks.timeout_ms, 1);
    assert_eq!(
        effective.sources,
        vec![
            ("hooks.enabled".to_owned(), vec![ConfigSource::CommandLine { argument: "--hooks".to_owned() }]),
            (
                "selector.cd.fzf.extraArgs".to_owned(),
                vec![
                    ConfigSource::File { path: "/c.yml".to_owned() },
                    ConfigSource::CommandLine { argument: "--fzf-arg".to_owned() }
                ]
            ),
            ("locks.timeoutMs".to_owned(), vec![ConfigSource::CommandLine { argument: "--lock-timeout-ms".to_owned() }]),
        ]
    );
}

#[test]
fn managed_root_paths_follow_path_semantics() {
    assert_eq!(resolve_managed_worktree_root("/repo", ".worktree"), "/repo/.worktree");
    assert_eq!(resolve_managed_worktree_root("/repo", "/abs/wt"), "/abs/wt");
    assert_eq!(path_components("/a//b/./c/"), ["/", "a", "b", "c"]);
    assert_eq!(path_components("./a/../b"), [".", "a", "..", "b"]);
    assert!(path_is_managed("/repo/.worktree/a", "/repo/.worktree"));
    assert!(path_is_managed("/repo/.worktree/a", "/repo/.worktree/"));
    assert!(!path_is_managed("/repo/.worktree", "/repo/.worktree/"));
    assert!(!path_is_managed("/repo/.worktree-x/a", "/repo/.worktree"));
    assert_eq!(managed_root_exclude_entry("/repo", "/repo/.worktree/nested").as_deref(), Some(".worktree/nested/"));
    assert_eq!(managed_root_exclude_entry("/repo", "/repo").as_deref(), Some("./"));
    assert_eq!(managed_root_exclude_entry("/repo", "/elsewhere"), None);
}

#[test]
fn gh_and_hooks_flags_override_the_configuration_both_ways() {
    let mut disabled = config();
    disabled.github.enabled = false;
    disabled.hooks.enabled = false;
    let mut options = common();
    options.gh = true;
    options.hooks = true;
    let mut applied = disabled.clone();
    apply_cli_values(&mut applied, &options);
    assert!(applied.github.enabled);
    assert!(applied.hooks.enabled);

    let mut options = common();
    options.no_gh = true;
    options.no_hooks = true;
    let mut applied = config();
    apply_cli_values(&mut applied, &options);
    assert!(!applied.github.enabled);
    assert!(!applied.hooks.enabled);

    let mut applied = disabled.clone();
    apply_cli_values(&mut applied, &common());
    assert!(!applied.github.enabled);
    assert!(!applied.hooks.enabled);
}

#[test]
fn mutation_hooks_need_the_configuration_and_no_opt_out() {
    let mut options = common();
    options.hooks = true;
    assert!(!options.mutation_hooks(false));
    assert!(options.mutation_hooks(true));
    options.no_hooks = true;
    assert!(!options.mutation_hooks(true));
}

#[test]
fn metadata_transaction_conflicts_are_lock_conflicts_and_the_rest_internal() {
    let conflict = MetadataTransactionError {
        failure: MetadataTransactionFailure::PendingTransaction,
        message: "a metadata transaction is pending".to_owned(),
    };
    let mapped = map_metadata_transaction_error(&conflict);
    assert_eq!(mapped.code, ErrorCode::LockConflict);
    assert_eq!(mapped.message, "a metadata transaction is pending");
    assert!(mapped.details.is_empty());
    let journal = MetadataTransactionError {
        failure: MetadataTransactionFailure::InvalidJournal,
        message: "journal is corrupt".to_owned(),
    };
    assert_eq!(map_metadata_transaction_error(&journal).code, ErrorCode::InternalError);
    let invalid = MetadataTransactionError { failure: MetadataTransactionFailure::InvalidMetadata, message: "bad".to_owned() };
    assert_eq!(map_metadata_transaction_error(&invalid).code, ErrorCode::LockConflict);
}
