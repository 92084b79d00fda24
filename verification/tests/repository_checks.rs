use vde_worktree::config::{
    CommonOptions, FzfConfig, GitConfig, GithubConfig, HooksConfig, LoadedConfig, LocksConfig, PathsConfig,
    ResolvedConfig, SelectorCdConfig,
};
use vde_worktree::diagnostics::{repository_checks, PendingRecoveries, RepositoryAnswers};
use vde_worktree::doctor::CheckStatus;
use vde_worktree::error::{CliError, DetailValue, ErrorCode};
use vde_worktree::fzf::SelectorCdSurface;
use vde_worktree::git::RepoContext;

fn loaded(gh: bool) -> LoadedConfig {
    LoadedConfig {
        config: ResolvedConfig {
            paths: PathsConfig { worktree_root: ".worktree".to_owned() },
            git: GitConfig { base_branch: None, base_remote: "origin".to_owned() },
            github: GithubConfig { enabled: gh },
            hooks: HooksConfig { enabled: true, timeout_ms: 30000 },
            locks: LocksConfig { timeout_ms: 15000, stale_lock_ttl_seconds: 1800 },
            list_columns: vec!["branch".to_owned()],
            selector_cd: SelectorCdConfig {
                prompt: "worktree> ".to_owned(),
                surface: SelectorCdSurface::Auto,
                tmux_popup_opts: "80%,70%".to_owned(),
                fzf: FzfConfig { extra_args: Vec::new() },
            },
        },
        loaded_files: vec!["/repo/.vde/worktree/config.yml".to_owned()],
        sources: Vec::new(),
    }
}

fn common(gh: bool) -> CommonOptions {
    CommonOptions {
        json: false,
        hooks: false,
        no_hooks: false,
        gh,
        no_gh: false,
        strict_post_hooks: false,
        hook_timeout_ms: None,
        lock_timeout_ms: None,
        prompt: None,
        fzf_args: Vec::new(),
    }
}

fn context() -> RepoContext {
    RepoContext {
        repo_root: "/repo".to_owned(),
        current_worktree_root: "/repo".to_owned(),
        git_common_dir: "/repo/.git".to_owned(),
    }
}

#[test]
fn unresolved_repository_is_the_only_repository_check() {
    let report = repository_checks(
        RepositoryAnswers {
            context: Err(CliError::new(ErrorCode::NotGitRepository, "not a git repository")),
            path_error: None,
            initialized: Ok(true),
            configuration: Ok(loaded(true)),
            config_value: Ok(DetailValue::Null),
            base_branch: Ok("main".to_owned()),
            pending: Err(CliError::new(ErrorCode::InternalError, "unreadable")),
        },
        &common(false),
    );
    assert_eq!(report.checks.len(), 1);
    assert_eq!(report.checks[0].name, "repository");
    assert_eq!(report.checks[0].status, CheckStatus::Error);
    assert_eq!(report.effective_gh, None);
    assert!(report.repository.is_none());
}

#[test]
fn healthy_repository_reports_each_check_in_order() {
    let report = repository_checks(
        RepositoryAnswers {
            context: Ok(context()),
            path_error: None,
            initialized: Ok(false),
            configuration: Ok(loaded(false)),
            config_value: Ok(DetailValue::Bool(true)),
            base_branch: Ok("main".to_owned()),
            pending: Ok(PendingRecoveries { count: 2, value: Err("cannot describe".to_owned()) }),
        },
        &common(true),
    );
    let names: Vec<&str> = report.checks.iter().map(|c| c.name.as_str()).collect();
    assert_eq!(
        names,
        vec!["repository", "initialization", "configuration", "baseBranch", "pendingRecoveries", "pendingRecoveryPaths"]
    );
    assert_eq!(report.checks[1].status, CheckStatus::Error);
    assert_eq!(report.checks[1].message, "run vw init to initialize repository state");
    assert_eq!(report.checks[3].details, DetailValue::Object(vec![("branch".to_owned(), DetailValue::Text("main".to_owned()))]));
    assert_eq!(report.checks[4].details, DetailValue::Object(vec![("count".to_owned(), DetailValue::Int(2))]));
    assert_eq!(report.checks[5].message, "cannot describe");
    assert_eq!(report.effective_gh, Some(true));
    assert_eq!(report.config, DetailValue::Bool(true));
    assert_eq!(report.pending, DetailValue::List(Vec::new()));
}

#[test]
fn failed_configuration_and_paths_are_reported_as_errors() {
    let report = repository_checks(
        RepositoryAnswers {
            context: Ok(context()),
            path_error: Some(CliError::new(ErrorCode::PathOutsideRepo, "bad path")),
            initialized: Ok(true),
            configuration: Err(CliError::new(ErrorCode::InvalidConfig, "invalid configuration")),
            config_value: Ok(DetailValue::Null),
            base_branch: Ok("main".to_owned()),
            pending: Ok(PendingRecoveries { count: 0, value: Ok(DetailValue::List(Vec::new())) }),
        },
        &common(false),
    );
    let names: Vec<&str> = report.checks.iter().map(|c| c.name.as_str()).collect();
    assert_eq!(names, vec!["repository", "repositoryPaths", "initialization", "configuration", "pendingRecoveries"]);
    assert_eq!(report.checks[3].status, CheckStatus::Error);
    assert_eq!(report.checks[4].status, CheckStatus::Passed);
    assert_eq!(report.effective_gh, None);
}
