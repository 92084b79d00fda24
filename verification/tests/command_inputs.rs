use vde_worktree::adopt::AdoptWorktree;
use vde_worktree::change::{LifecycleRecords, SnapshotWorktree};
use vde_worktree::commands::{
    command_inputs, exclude_addition, generated_wip_branch, prepare_command, prepare_init, prepare_mutation, CommandEnvironment,
    MutationCommand, PlanningState, PrepareRequest,
};
use vde_worktree::mutation_hooks::PreparedCommand;
use vde_worktree::create::{TargetFilesystem, WorktreeLookup};
use vde_worktree::error::{CliError, ErrorCode};
use vde_worktree::locks::{LockRecordState, StoredLock};
use vde_worktree::probes::CreateMutationGit;
use vde_worktree::process::ProcessOutput;
use vde_worktree::git::RepoContext;
use vde_worktree::pipeline::CommandKind;

fn context() -> RepoContext {
    RepoContext {
        repo_root: "/repo".to_owned(),
        current_worktree_root: "/repo/.worktree/current".to_owned(),
        git_common_dir: "/repo/.git".to_owned(),
    }
}

fn environment(branch: Option<&str>) -> CommandEnvironment {
    CommandEnvironment {
        context: context(),
        worktrees: vec![SnapshotWorktree {
            path: "/repo/.worktree/current".to_owned(),
            branch: branch.map(str::to_owned),
            dirty: false,
        }],
        base_branch: Some("main".to_owned()),
        managed_root: "/repo/.worktree".to_owned(),
        interactive: false,
        allow_unsafe: false,
        generated_branch: "wip-000042".to_owned(),
        default_owner: Some("alice".to_owned()),
    }
}

#[test]
fn new_without_a_branch_takes_the_generated_one() {
    match command_inputs(&MutationCommand::New { branch: None }, &environment(Some("a"))).unwrap() {
        PrepareRequest::New { branch, base_branch } => {
            assert_eq!(branch, "wip-000042");
            assert_eq!(base_branch, "main");
        }
        other => panic!("unexpected {other:?}"),
    }
    let mut env = environment(Some("a"));
    env.base_branch = None;
    let error = command_inputs(&MutationCommand::New { branch: Some("x".to_owned()) }, &env).unwrap_err();
    assert_eq!(error.message, "base branch is unavailable");
}

#[test]
fn generated_branch_keeps_six_digits_of_the_clock() {
    assert_eq!(generated_wip_branch(1_700_000_001_234_567), "wip-234567");
    assert_eq!(generated_wip_branch(-42), "wip-000042");
    assert_eq!(generated_wip_branch(0), "wip-000000");
}

#[test]
fn extract_needs_a_listed_worktree_on_a_branch() {
    let error = command_inputs(&MutationCommand::Extract { stash: false }, &environment(None)).unwrap_err();
    assert_eq!(error.code, ErrorCode::DetachedHead);
    assert_eq!(error.message, "extract requires a branch checkout");
    let mut env = environment(Some("a"));
    env.worktrees.clear();
    let error = command_inputs(&MutationCommand::Extract { stash: false }, &env).unwrap_err();
    assert_eq!(error.code, ErrorCode::WorktreeNotFound);
    match command_inputs(&MutationCommand::Extract { stash: true }, &environment(Some("feature/a"))).unwrap() {
        PrepareRequest::Extract { branch, target_path, allow_stash, .. } => {
            assert_eq!(branch, "feature/a");
            assert_eq!(target_path, "/repo/.worktree/feature/a");
            assert!(allow_stash);
        }
        other => panic!("unexpected {other:?}"),
    }
}

#[test]
fn locks_default_their_reason_and_owner() {
    let lock = MutationCommand::Lock { branch: "main".to_owned(), owner: None, reason: None };
    match command_inputs(&lock, &environment(Some("a"))).unwrap() {
        PrepareRequest::Lock { owner, reason, .. } => {
            assert_eq!(owner, "alice");
            assert_eq!(reason, "locked");
        }
        other => panic!("unexpected {other:?}"),
    }
    let mut env = environment(Some("a"));
    env.default_owner = None;
    let unlock = MutationCommand::Unlock { branch: "main".to_owned(), owner: None, force: false };
    let error = command_inputs(&unlock, &env).unwrap_err();
    assert_eq!(error.message, "lock owner is unavailable; pass --owner explicitly");
    let error = command_inputs(&MutationCommand::Unsupported(CommandKind::Gone), &env).unwrap_err();
    assert_eq!(error.message, "gone mutation is not implemented yet");
}

#[test]
fn init_plans_metadata_directories_and_the_exclude_block() {
    let plan = prepare_init(&context(), "/repo/.worktree", false);
    assert_eq!(
        plan.metadata_directories,
        vec![
            "/repo/.vde/worktree/hooks".to_owned(),
            "/repo/.vde/worktree/logs".to_owned(),
            "/repo/.vde/worktree/locks".to_owned(),
            "/repo/.vde/worktree/state".to_owned(),
        ]
    );
    assert_eq!(plan.exclude_path, "/repo/.git/info/exclude");
    assert_eq!(plan.exclude_block.as_deref(), Some("# vde-worktree (managed)\n.worktree/\n.vde/worktree/\n"));
    assert!(prepare_init(&context(), "/elsewhere", true).exclude_block.is_none());
}

/// Stands in for Git, the file system and the records where a preflight must not reach them.
struct Untouched;

impl CreateMutationGit for Untouched {
    fn run_git(&self, _cwd: &str, args: &[String]) -> Result<ProcessOutput, CliError> {
        panic!("git was asked to run {args:?}")
    }

    fn run_git_checked(&self, _cwd: &str, args: &[String]) -> Result<ProcessOutput, CliError> {
        panic!("git was asked to run {args:?}")
    }
}

impl TargetFilesystem for Untouched {
    fn ensure_contained(&self, _managed_root: &str, path: &str) -> Result<(), CliError> {
        panic!("containment of {path} was checked")
    }
    fn path_exists(&self, path: &str) -> Result<bool, CliError> {
        panic!("{path} was probed")
    }
    fn ensure_target_writable(&self, path: &str) -> Result<(), CliError> {
        panic!("{path} was probed")
    }
    fn ensure_target_path_empty(&self, path: &str) -> Result<(), CliError> {
        panic!("{path} was probed")
    }
    fn create_parent(&self, path: &str) -> Result<(), CliError> {
        panic!("{path} was created")
    }
    fn prune_empty_target_parents(&self, target: &str, _managed_root: &str) {
        panic!("{target} was pruned")
    }
    fn same_location(&self, left: &str, _right: &str) -> bool {
        panic!("{left} was compared")
    }
}

impl WorktreeLookup for Untouched {
    fn optional_branch(&self, branch: &str) -> Result<Option<String>, CliError> {
        panic!("{branch} was looked up")
    }
}

impl LifecycleRecords for Untouched {
    fn invalid_lifecycle(&self, _repo_root: &str, branch: &str) -> Option<(String, String)> {
        panic!("the record of {branch} was read")
    }
}

fn planning() -> PlanningState {
    PlanningState {
        already_initialized: false,
        adoptable: Vec::<AdoptWorktree>::new(),
        host: "host-a".to_owned(),
        pid: 7,
        existing_lock: StoredLock { path: "/repo/.vde/worktree/locks/a.json".to_owned(), state: LockRecordState::Missing },
    }
}

fn prepare(command: MutationCommand, env: &CommandEnvironment) -> Result<PreparedCommand, CliError> {
    prepare_command(&Untouched, &Untouched, &Untouched, &Untouched, &command, env, &planning())
}

#[test]
fn each_command_reaches_its_own_preflight() {
    let env = environment(Some("a"));
    let lock = MutationCommand::Lock { branch: "a".to_owned(), owner: None, reason: None };
    match prepare(lock, &env).unwrap() {
        PreparedCommand::Lock(plan) => {
            assert_eq!(plan.owner, "alice");
            assert_eq!(plan.reason, "locked");
            assert_eq!(plan.host, "host-a");
            assert_eq!(plan.pid, 7);
        }
        other => panic!("unexpected {other:?}"),
    }
    let unlock = MutationCommand::Unlock { branch: "a".to_owned(), owner: Some("bob".to_owned()), force: false };
    assert!(matches!(prepare(unlock, &env).unwrap(), PreparedCommand::Unlock(_)));
    match prepare(MutationCommand::Init, &env).unwrap() {
        PreparedCommand::Init(plan) => assert_eq!(plan.managed_worktree_root, "/repo/.worktree"),
        other => panic!("unexpected {other:?}"),
    }
    match prepare(MutationCommand::Adopt { apply: false }, &env).unwrap() {
        PreparedCommand::Adopt(plan) => assert!(plan.dry_run && plan.candidates.is_empty()),
        other => panic!("unexpected {other:?}"),
    }
}

#[test]
fn refusals_before_the_preflight_reach_nothing() {
    let detached = prepare(MutationCommand::Extract { stash: true }, &environment(None)).unwrap_err();
    assert_eq!(detached.code, ErrorCode::DetachedHead);
    let mut env = environment(Some("a"));
    env.default_owner = None;
    let lock = MutationCommand::Lock { branch: "a".to_owned(), owner: None, reason: None };
    assert_eq!(prepare(lock, &env).unwrap_err().message, "lock owner is unavailable; pass --owner explicitly");
    env.base_branch = None;
    let switch = MutationCommand::Switch { branch: "b".to_owned() };
    assert_eq!(prepare(switch, &env).unwrap_err().message, "base branch is unavailable");
}

#[test]
fn exclude_block_is_appended_once_on_a_line_of_its_own() {
    let block = "# vde-worktree (managed)\n/.worktree/\n.vde/worktree/\n";
    assert_eq!(exclude_addition("", block).as_deref(), Some(block));
    assert_eq!(exclude_addition("*.log", block), Some(format!("\n{block}")));
    assert_eq!(exclude_addition("*.log\n", block).as_deref(), Some(block));
    assert_eq!(exclude_addition(&format!("*.log\n{block}"), block), None);
}

#[test]
fn a_prepared_mutation_carries_its_hook_request() {
    let env = environment(Some("a"));
    let lock = MutationCommand::Lock { branch: "a".to_owned(), owner: None, reason: Some("review".to_owned()) };
    let plan = prepare_mutation(&Untouched, &Untouched, &Untouched, &Untouched, &lock, &env, &planning()).unwrap();
    assert!(matches!(&plan.command, PreparedCommand::Lock(p) if p.reason == "review"));
    assert_eq!(plan.hooks.action, "lock");
    assert_eq!(plan.hooks.branch.as_deref(), Some("a"));
    assert_eq!(plan.hooks.pre_cwd, "/repo");
    assert!(!plan.hooks.requires_hooks);
    let init = prepare_mutation(&Untouched, &Untouched, &Untouched, &Untouched, &MutationCommand::Init, &env, &planning()).unwrap();
    assert!(init.hooks.requires_hooks);
    assert_eq!(init.hooks.target_path, "/repo");
}
