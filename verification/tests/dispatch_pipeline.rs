use std::cell::{Cell, RefCell};

use vde_worktree::config::{
    CommonOptions, FzfConfig, GitConfig, GithubConfig, HooksConfig, LocksConfig, PathsConfig,
    ResolvedConfig, SelectorCdConfig,
};
use vde_worktree::error::{CliError, DetailValue, ErrorCode};
use vde_worktree::fzf::SelectorCdSurface;
use vde_worktree::git::RepoContext;
use vde_worktree::mapping::HookPhase;
use vde_worktree::pipeline::{
    initialization_outcome, pre_hook_outcome, result_with_warnings,
    dispatch_request, is_write_command, next_stage, ApplicationBackend, ApplicationHookResult,
    CommandKind, CommandOutput, DispatchStep, PipelineStage, PlannedMutation,
};

fn config() -> ResolvedConfig {
    ResolvedConfig {
        paths: PathsConfig { worktree_root: ".worktree".to_owned() },
        git: GitConfig { base_branch: None, base_remote: "origin".to_owned() },
        github: GithubConfig { enabled: true },
        hooks: HooksConfig { enabled: true, timeout_ms: 30000 },
        locks: LocksConfig { timeout_ms: 15000, stale_lock_ttl_seconds: 1800 },
        list_columns: Vec::new(),
        selector_cd: SelectorCdConfig {
            prompt: "worktree> ".to_owned(),
            surface: SelectorCdSurface::Auto,
            tmux_popup_opts: "80%,70%".to_owned(),
            fzf: FzfConfig { extra_args: Vec::new() },
        },
    }
}

fn common() -> CommonOptions {
    CommonOptions {
        json: true,
        hooks: false,
        no_hooks: false,
        gh: false,
        no_gh: false,
        strict_post_hooks: false,
        hook_timeout_ms: None,
        lock_timeout_ms: None,
        prompt: None,
        fzf_args: Vec::new(),
    }
}

#[derive(Clone, Copy, PartialEq, Eq)]
enum StateResult {
    Full,
    Partial,
    Failed,
}

struct FakePlan;

impl PlannedMutation for FakePlan {}

struct FakeBackend {
    config: ResolvedConfig,
    initialized: bool,
    lock_error: Option<(ErrorCode, &'static str)>,
    plan_error: Option<(ErrorCode, &'static str)>,
    pre_error: Option<(ErrorCode, &'static str)>,
    rollback_error: Option<(ErrorCode, &'static str)>,
    apply_error: Option<(ErrorCode, &'static str)>,
    post_error: Option<(ErrorCode, &'static str)>,
    post_warning: Option<&'static str>,
    state_result: StateResult,
    initialized_calls: Cell<usize>,
    lock_timeouts: RefCell<Vec<u64>>,
    hook_timeouts: RefCell<Vec<u64>>,
    hook_calls: RefCell<Vec<HookPhase>>,
    execute_calls: Cell<usize>,
    trace: RefCell<Vec<&'static str>>,
}

impl Default for FakeBackend {
    fn default() -> Self {
        Self {
            config: config(),
            initialized: true,
            lock_error: None,
            plan_error: None,
            pre_error: None,
            rollback_error: None,
            apply_error: None,
            post_error: None,
            post_warning: None,
            state_result: StateResult::Full,
            initialized_calls: Cell::new(0),
            lock_timeouts: RefCell::new(Vec::new()),
            hook_timeouts: RefCell::new(Vec::new()),
            hook_calls: RefCell::new(Vec::new()),
            execute_calls: Cell::new(0),
            trace: RefCell::new(Vec::new()),
        }
    }
}

fn err(value: Option<(ErrorCode, &'static str)>) -> Result<(), CliError> {
    match value {
        Some((code, message)) => Err(CliError::new(code, message)),
        None => Ok(()),
    }
}

impl ApplicationBackend for FakeBackend {
    type Request = ();
    type LockGuard = ();
    type MutationPlan = FakePlan;
    type MutationStage = ();
    type MutationResult = ();

    fn resolve_repo_context(&self) -> Result<RepoContext, CliError> {
        Ok(RepoContext {
            repo_root: "/repo".to_owned(),
            current_worktree_root: "/repo".to_owned(),
            git_common_dir: "/repo/.git".to_owned(),
        })
    }

    fn resolve_config(&self, _context: &RepoContext) -> Result<ResolvedConfig, CliError> {
        Ok(self.config.clone())
    }

    fn is_initialized(&self, _repo_root: &str) -> Result<bool, CliError> {
        self.initialized_calls.set(self.initialized_calls.get() + 1);
        Ok(self.initialized)
    }

    fn acquire_repo_lock(&self, _context: &RepoContext, timeout_ms: u64, _command: &str) -> Result<(), CliError> {
        self.lock_timeouts.borrow_mut().push(timeout_ms);
        self.trace.borrow_mut().push("lock");
        err(self.lock_error)
    }

    fn run_hook(&self, phase: HookPhase, _request: &(), _plan: &FakePlan, timeout_ms: u64) -> Result<ApplicationHookResult, CliError> {
        self.hook_calls.borrow_mut().push(phase);
        self.hook_timeouts.borrow_mut().push(timeout_ms);
        self.trace.borrow_mut().push(match phase {
            HookPhase::Pre => "pre-hook",
            HookPhase::Post => "post-hook",
        });
        match phase {
            HookPhase::Pre => err(self.pre_error).map(|()| ApplicationHookResult::Continue),
            HookPhase::Post => err(self.post_error).map(|()| match self.post_warning {
                Some(text) => ApplicationHookResult::Warning(text.to_owned()),
                None => ApplicationHookResult::Continue,
            }),
        }
    }

    fn prepare_mutation(&self, _request: &(), _context: &RepoContext) -> Result<FakePlan, CliError> {
        self.trace.borrow_mut().push("plan");
        err(self.plan_error).map(|()| FakePlan)
    }

    fn stage_mutation(&self, _request: &(), _context: &RepoContext, _plan: &FakePlan) -> Result<(), CliError> {
        self.trace.borrow_mut().push("stage");
        Ok(())
    }

    fn rollback_mutation_stage(&self, _request: &(), _context: &RepoContext, _plan: &FakePlan, _stage: &()) -> Result<(), CliError> {
        self.trace.borrow_mut().push("rollback-stage");
        err(self.rollback_error)
    }

    fn apply_mutation(&self, _request: &(), _context: &RepoContext, _plan: &FakePlan, _stage: ()) -> Result<(), CliError> {
        self.trace.borrow_mut().push("apply");
        err(self.apply_error)
    }

    fn update_mutation_state(&self, _request: &(), _context: &RepoContext, _plan: &FakePlan, _result: ()) -> Result<CommandOutput, CliError> {
        self.trace.borrow_mut().push("state");
        match self.state_result {
            StateResult::Full => Ok(CommandOutput::new(DetailValue::Bool(true))),
            StateResult::Partial => Ok(CommandOutput::partial(
                DetailValue::Text("partial".to_owned()),
                CliError::new(ErrorCode::GitCommandFailed, "partial mutation failure"),
            )),
            StateResult::Failed => Err(CliError::new(ErrorCode::InternalError, "state update failed")),
        }
    }

    fn execute(&self, _request: &(), _context: Option<&RepoContext>) -> Result<CommandOutput, CliError> {
        self.execute_calls.set(self.execute_calls.get() + 1);
        Ok(CommandOutput::new(DetailValue::Null))
    }
}

fn error_code_of(result: &Result<CommandOutput, CliError>) -> ErrorCode {
    match result {
        Err(error) => error.code,
        Ok(output) => output.partial_error.as_ref().expect("error").code,
    }
}

#[test]
fn all_thirteen_non_init_write_commands_reject_uninitialized_repositories_first() {
    let cases = [
        CommandKind::New,
        CommandKind::Switch,
        CommandKind::Mv,
        CommandKind::Del,
        CommandKind::Gone,
        CommandKind::Adopt,
        CommandKind::Get,
        CommandKind::Extract,
        CommandKind::Absorb,
        CommandKind::Unabsorb,
        CommandKind::Use,
        CommandKind::Lock,
        CommandKind::Unlock,
    ];
    for command in cases {
        let backend = FakeBackend { initialized: false, ..FakeBackend::default() };
        let dispatched = dispatch_request(&(), command, &common(), &backend);
        let error = dispatched.result.as_ref().err().expect("not initialized");
        assert_eq!(error.exit_code(), 4);
        assert_eq!(error.code.as_str(), "NOT_INITIALIZED");
        assert_eq!(backend.initialized_calls.get(), 1);
        assert!(backend.trace.borrow().is_empty());
        assert_eq!(backend.execute_calls.get(), 0);
    }
}

#[test]
fn lock_timeout_is_rendered_before_hooks_or_command_execution() {
    let backend = FakeBackend {
        lock_error: Some((ErrorCode::RepoLockTimeout, "repository lock timed out")),
        ..FakeBackend::default()
    };
    let mut options = common();
    options.lock_timeout_ms = Some(25);
    let dispatched = dispatch_request(&(), CommandKind::New, &options, &backend);
    let error = dispatched.result.as_ref().err().unwrap();
    assert_eq!(error.exit_code(), 6);
    assert_eq!(error.code.as_str(), "REPO_LOCK_TIMEOUT");
    assert_eq!(*backend.lock_timeouts.borrow(), [25]);
    assert_eq!(*backend.trace.borrow(), ["lock"]);
    assert!(backend.hook_calls.borrow().is_empty());
    assert_eq!(backend.execute_calls.get(), 0);
}

#[test]
fn resolved_config_controls_hooks_and_timeouts_with_cli_timeout_precedence() {
    let mut configured = config();
    configured.hooks.timeout_ms = 123;
    configured.locks.timeout_ms = 456;
    let backend = FakeBackend { config: configured.clone(), ..FakeBackend::default() };
    let dispatched = dispatch_request(&(), CommandKind::New, &common(), &backend);
    assert!(dispatched.result.is_ok());
    assert_eq!(*backend.lock_timeouts.borrow(), [456]);
    assert_eq!(*backend.hook_timeouts.borrow(), [123, 123]);

    let cli_override = FakeBackend { config: configured, ..FakeBackend::default() };
    let mut options = common();
    options.hook_timeout_ms = Some(25);
    options.lock_timeout_ms = Some(35);
    let dispatched = dispatch_request(&(), CommandKind::New, &options, &cli_override);
    assert!(dispatched.result.is_ok());
    assert_eq!(*cli_override.lock_timeouts.borrow(), [35]);
    assert_eq!(*cli_override.hook_timeouts.borrow(), [25, 25]);
}

#[test]
fn config_hook_disable_needs_no_unsafe_flag_and_cannot_be_forced_by_hooks_flag() {
    let mut configured = config();
    configured.hooks.enabled = false;
    let backend = FakeBackend { config: configured, ..FakeBackend::default() };
    let mut options = common();
    options.hooks = true;
    let dispatched = dispatch_request(&(), CommandKind::New, &options, &backend);
    assert!(dispatched.result.is_ok());
    assert!(backend.hook_calls.borrow().is_empty());
    assert_eq!(*backend.trace.borrow(), ["lock", "plan", "stage", "apply", "state"]);
}

#[test]
fn mutation_pipeline_runs_in_order() {
    let backend = FakeBackend::default();
    let dispatched = dispatch_request(&(), CommandKind::New, &common(), &backend);
    assert!(dispatched.result.is_ok());
    assert_eq!(*backend.trace.borrow(), ["lock", "plan", "stage", "pre-hook", "apply", "state", "post-hook"]);
    assert_eq!(
        dispatched.stages,
        [
            PipelineStage::Plan,
            PipelineStage::Stage,
            PipelineStage::PreHook,
            PipelineStage::Apply,
            PipelineStage::UpdateState,
            PipelineStage::PostHook
        ]
    );
    assert_eq!(
        dispatched.steps,
        [
            DispatchStep::ResolveContext,
            DispatchStep::ResolveConfig,
            DispatchStep::CheckInitialized,
            DispatchStep::AcquireLock,
            DispatchStep::Mutate
        ]
    );
}

#[test]
fn mutation_failures_never_run_a_later_pipeline_stage() {
    let plan_failure = FakeBackend {
        plan_error: Some((ErrorCode::LockConflict, "target already exists")),
        ..FakeBackend::default()
    };
    let dispatched = dispatch_request(&(), CommandKind::New, &common(), &plan_failure);
    assert_eq!(dispatched.result.as_ref().err().unwrap().exit_code(), 4);
    assert_eq!(*plan_failure.trace.borrow(), ["lock", "plan"]);

    let apply_failure = FakeBackend {
        apply_error: Some((ErrorCode::GitCommandFailed, "apply failed")),
        ..FakeBackend::default()
    };
    let dispatched = dispatch_request(&(), CommandKind::New, &common(), &apply_failure);
    assert_eq!(dispatched.result.as_ref().err().unwrap().exit_code(), 20);
    assert_eq!(*apply_failure.trace.borrow(), ["lock", "plan", "stage", "pre-hook", "apply"]);
    assert_eq!(*apply_failure.hook_calls.borrow(), [HookPhase::Pre]);

    let state_failure = FakeBackend { state_result: StateResult::Failed, ..FakeBackend::default() };
    let dispatched = dispatch_request(&(), CommandKind::New, &common(), &state_failure);
    assert_eq!(dispatched.result.as_ref().err().unwrap().exit_code(), 30);
    assert_eq!(*state_failure.trace.borrow(), ["lock", "plan", "stage", "pre-hook", "apply", "state"]);
    assert_eq!(*state_failure.hook_calls.borrow(), [HookPhase::Pre]);
}

#[test]
fn pre_hook_failure_stops_execution_and_strict_post_failure_changes_success_to_error() {
    let pre_failure = FakeBackend {
        pre_error: Some((ErrorCode::HookTimeout, "pre hook timed out")),
        ..FakeBackend::default()
    };
    let mut options = common();
    options.hook_timeout_ms = Some(25);
    let dispatched = dispatch_request(&(), CommandKind::New, &options, &pre_failure);
    let error = dispatched.result.as_ref().err().unwrap();
    assert_eq!(error.exit_code(), 10);
    assert_eq!(error.code.as_str(), "HOOK_TIMEOUT");
    assert_eq!(*pre_failure.hook_calls.borrow(), [HookPhase::Pre]);
    assert_eq!(*pre_failure.trace.borrow(), ["lock", "plan", "stage", "pre-hook", "rollback-stage"]);

    let post_failure = FakeBackend {
        post_error: Some((ErrorCode::HookFailed, "post hook failed")),
        ..FakeBackend::default()
    };
    let mut options = common();
    options.strict_post_hooks = true;
    let dispatched = dispatch_request(&(), CommandKind::New, &options, &post_failure);
    let error = dispatched.result.as_ref().err().unwrap();
    assert_eq!(error.exit_code(), 10);
    assert_eq!(error.code.as_str(), "HOOK_FAILED");
    assert_eq!(*post_failure.hook_calls.borrow(), [HookPhase::Pre, HookPhase::Post]);
    assert_eq!(post_failure.execute_calls.get(), 0);
}

#[test]
fn pre_hook_error_remains_primary_when_stage_rollback_also_fails() {
    let backend = FakeBackend {
        pre_error: Some((ErrorCode::HookTimeout, "pre hook timed out")),
        rollback_error: Some((ErrorCode::StashApplyFailed, "automatic stash restore failed")),
        ..FakeBackend::default()
    };
    let dispatched = dispatch_request(&(), CommandKind::New, &common(), &backend);
    let error = dispatched.result.as_ref().err().unwrap();
    assert_eq!(error.exit_code(), 10);
    assert_eq!(error.code.as_str(), "HOOK_TIMEOUT");
    assert_eq!(error.detail("autoRestoreFailed"), Some(&DetailValue::Bool(true)));
    match error.detail("autoRestoreError") {
        Some(DetailValue::Object(entries)) => {
            assert_eq!(entries[0].0, "code");
            assert_eq!(entries[0].1, DetailValue::Text("STASH_APPLY_FAILED".to_owned()));
        }
        other => panic!("unexpected restore detail: {other:?}"),
    }
    assert_eq!(*backend.trace.borrow(), ["lock", "plan", "stage", "pre-hook", "rollback-stage"]);
}

#[test]
fn partial_result_survives_a_strict_post_hook_failure() {
    let backend = FakeBackend {
        post_error: Some((ErrorCode::HookFailed, "post hook failed")),
        state_result: StateResult::Partial,
        ..FakeBackend::default()
    };
    let dispatched = dispatch_request(&(), CommandKind::New, &common(), &backend);
    let output = dispatched.result.as_ref().ok().expect("partial output survives");
    assert_eq!(output.data, DetailValue::Text("partial".to_owned()));
    let partial = output.partial_error.as_ref().unwrap();
    assert_eq!(partial.exit_code(), 20);
    assert_eq!(partial.code.as_str(), "GIT_COMMAND_FAILED");
    match partial.detail("postHookError") {
        Some(DetailValue::Object(entries)) => {
            assert_eq!(entries[0].1, DetailValue::Text("HOOK_FAILED".to_owned()));
        }
        other => panic!("unexpected post hook detail: {other:?}"),
    }
}

#[test]
fn non_strict_post_hook_warning_reaches_human_stderr() {
    let backend = FakeBackend { post_warning: Some("Warning: hook execution failed\n"), ..FakeBackend::default() };
    let dispatched = dispatch_request(&(), CommandKind::New, &common(), &backend);
    let output = dispatched.result.as_ref().ok().unwrap();
    assert_eq!(output.human_stderr, "Warning: hook execution failed\n");
}

#[test]
fn partial_result_preserves_non_strict_post_hook_warning_on_stderr() {
    let backend = FakeBackend {
        post_warning: Some("Warning: hook execution failed\n"),
        state_result: StateResult::Partial,
        ..FakeBackend::default()
    };
    let dispatched = dispatch_request(&(), CommandKind::New, &common(), &backend);
    assert_eq!(error_code_of(&dispatched.result), ErrorCode::GitCommandFailed);
    assert_eq!(dispatched.result.as_ref().ok().unwrap().human_stderr, "Warning: hook execution failed\n");
}

#[test]
fn lock_and_unlock_never_run_command_hooks() {
    for command in [CommandKind::Lock, CommandKind::Unlock] {
        let backend = FakeBackend::default();
        let dispatched = dispatch_request(&(), command, &common(), &backend);
        assert!(dispatched.result.is_ok());
        assert!(backend.hook_calls.borrow().is_empty());
    }
}

#[test]
fn read_commands_take_no_lock_and_completion_needs_no_repository() {
    let backend = FakeBackend::default();
    let dispatched = dispatch_request(&(), CommandKind::List, &common(), &backend);
    assert!(dispatched.result.is_ok());
    assert!(backend.lock_timeouts.borrow().is_empty());
    assert_eq!(backend.execute_calls.get(), 1);

    let dispatched = dispatch_request(&(), CommandKind::Completion, &common(), &backend);
    assert!(dispatched.context.is_none());
    assert_eq!(dispatched.steps, [DispatchStep::Execute]);
}

#[test]
fn init_is_a_write_command_that_needs_no_initialization() {
    assert!(is_write_command(&CommandKind::Init));
    let backend = FakeBackend { initialized: false, ..FakeBackend::default() };
    let dispatched = dispatch_request(&(), CommandKind::Init, &common(), &backend);
    assert!(dispatched.result.is_ok());
    assert_eq!(backend.initialized_calls.get(), 0);
}

#[test]
fn a_failed_stage_leads_nowhere_but_a_failed_pre_hook_rolls_back() {
    for stage in [
        PipelineStage::Plan,
        PipelineStage::Stage,
        PipelineStage::Apply,
        PipelineStage::UpdateState,
        PipelineStage::PostHook,
        PipelineStage::RollbackStage,
    ] {
        assert_eq!(next_stage(stage, false, true), None);
    }
    assert_eq!(next_stage(PipelineStage::PreHook, false, true), Some(PipelineStage::RollbackStage));
    assert_eq!(next_stage(PipelineStage::Stage, true, false), Some(PipelineStage::Apply));
    assert_eq!(next_stage(PipelineStage::UpdateState, true, false), None);
}

#[test]
fn initialization_answer_decides_the_refusal() {
    assert!(initialization_outcome("/repo", Ok(true)).is_none());
    let refusal = initialization_outcome("/repo", Ok(false)).unwrap();
    assert_eq!(refusal.code, ErrorCode::NotInitialized);
    assert_eq!(refusal.details, vec![("repoRoot".to_owned(), DetailValue::Text("/repo".to_owned()))]);
    let failed = initialization_outcome("/repo", Err(CliError::new(ErrorCode::InternalError, "cannot inspect"))).unwrap();
    assert_eq!(failed.message, "cannot inspect");
}

#[test]
fn pre_hook_error_stays_primary_when_the_restore_fails() {
    let hook = CliError::new(ErrorCode::HookFailed, "hook failed");
    let plain = pre_hook_outcome(CliError::new(ErrorCode::HookFailed, "hook failed"), Ok(())).unwrap_err();
    assert_eq!(plain.message, "hook failed");
    assert!(plain.details.is_empty());
    let restored = pre_hook_outcome(hook, Err(CliError::new(ErrorCode::InternalError, "restore failed"))).unwrap_err();
    assert_eq!(restored.code, ErrorCode::HookFailed);
    assert_eq!(restored.details[0], ("autoRestoreFailed".to_owned(), DetailValue::Bool(true)));
    assert_eq!(restored.details[1].0, "autoRestoreError");
}

#[test]
fn warnings_are_appended_to_human_stderr() {
    let mut output = CommandOutput::new(DetailValue::Null);
    output.human_stderr = "first\n".to_owned();
    let result = result_with_warnings(Ok(output), "Warning: hook execution failed\n").unwrap();
    assert_eq!(result.human_stderr, "first\nWarning: hook execution failed\n");
}
