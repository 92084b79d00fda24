//! The preflight of each mutation command: the arguments handed to the command's `prepare`
//! function, decided from the command line, the repository context and snapshot, and the
//! defaults (the generated `wip-` branch of `new`, the lock owner and reason); the refusals
//! that come before any preflight; the dispatch of each command to its own `prepare`
//! function; and the `init` plan with the text it adds to the exclude file.

use vstd::prelude::*;

use crate::adopt::{adopt_answered, adopt_consults_filesystem, adopt_plan_ok, prepare_adopt, AdoptWorktree};
use crate::change::{
    extract_plan_ok, mv_plan_ok, prepare_extract, prepare_mv, prepare_use, use_plan_ok, LifecycleRecords, SnapshotWorktree,
};
use crate::create::{
    get_plan_ok, new_plan_ok, prepare_get, prepare_new, prepare_switch, switch_plan_ok, TargetFilesystem, WorktreeLookup,
};
use crate::locks::{lock_preflight_ok, prepare_lock, prepare_unlock, unlock_preflight_ok, StoredLock};
use crate::mutation_hooks::{hook_request_ok, mutation_hook_request, prepared_kind, MutationHookRequest, PreparedCommand};
use crate::probes::CreateMutationGit;
use crate::text::{chars_of, contains_subseq, find_in};
use crate::error::{plain_error, CliError, ErrorCode};
use crate::git::RepoContext;
use crate::paths::{exclude_entry_spec, join_path, join_path_spec, managed_root_exclude_entry};
use crate::pipeline::{command_name_spec, CommandKind};
use crate::plans::{
    opt_text, remote_branch_spec, AdoptPlan, ExtractPlan, GetPlan, InitPlan, LockPlan, MvPlan, NewPlan, SwitchPlan, UnlockPlan,
    UseInvocation, UseOptions, UsePlan, UseSharing,
};

verus! {

/// A mutation command as the command line gave it.
#[derive(Debug)]
pub enum MutationCommand {
    Init,
    New { branch: Option<String> },
    Switch { branch: String },
    Get { remote_branch: String },
    Adopt { apply: bool },
    Mv { new_branch: String },
    Extract { stash: bool },
    Use { branch: String, allow_agent: bool, allow_shared: bool },
    Lock { branch: String, owner: Option<String>, reason: Option<String> },
    Unlock { branch: String, owner: Option<String>, force: bool },
    /// A write command whose mutation this crate does not carry out.
    Unsupported(CommandKind),
}

/// The arguments of a command's preflight.
#[derive(Debug)]
pub enum PrepareRequest {
    Init,
    New { branch: String, base_branch: String },
    Switch { branch: String, base_branch: String },
    Get { remote_branch: String, base_branch: String },
    Adopt { dry_run: bool },
    Mv { new_branch: String, target_path: String },
    Extract { branch: String, base_branch: String, target_path: String, allow_stash: bool },
    Use { branch: String, options: UseOptions },
    Lock { branch: String, owner: String, reason: String },
    Unlock { branch: String, owner: String, force: bool },
}

/// What the preflight of a command needs beyond the command line: the repository context,
/// its worktrees, its base branch, the managed root, whether stdout and stderr are terminals,
/// whether unsafe overrides were allowed, the generated branch name for `new`, and the lock
/// owner the environment names.
#[derive(Debug)]
pub struct CommandEnvironment {
    pub context: RepoContext,
    pub worktrees: Vec<SnapshotWorktree>,
    pub base_branch: Option<String>,
    pub managed_root: String,
    pub interactive: bool,
    pub allow_unsafe: bool,
    pub generated_branch: String,
    pub default_owner: Option<String>,
}

/// The first listed worktree at `path`, if any.
pub open spec fn worktree_at_path(ws: Seq<SnapshotWorktree>, path: Seq<char>) -> Option<SnapshotWorktree>
    decreases ws.len(),
{
    if ws.len() == 0 {
        None
    } else if ws[0].path@ == path {
        Some(ws[0])
    } else {
        worktree_at_path(ws.drop_first(), path)
    }
}

pub open spec fn base_unavailable(e: CliError) -> bool {
    plain_error(e, ErrorCode::InvalidArgument, "base branch is unavailable"@)
}

pub open spec fn owner_unavailable(e: CliError) -> bool {
    plain_error(e, ErrorCode::InvalidArgument, "lock owner is unavailable; pass --owner explicitly"@)
}

/// The owner of a lock: the one given, else the one the environment names.
pub open spec fn owner_spec(given: Option<String>, default_owner: Option<String>) -> Option<Seq<char>> {
    match given {
        Some(o) => Some(o@),
        None => opt_text(default_owner),
    }
}

/// The preflight arguments of each command: `new` without a branch takes the generated one;
/// creation and extraction need the base branch; `extract` needs the current worktree to be
/// listed and on a branch, and targets that branch inside the managed root, as `mv` targets
/// the new branch; `use` runs interactively exactly when both output streams are terminals;
/// a lock's reason defaults to `locked` and its owner to the environment's.
pub open spec fn command_inputs_ok(command: MutationCommand, env: CommandEnvironment, result: Result<PrepareRequest, CliError>) -> bool {
    match command {
        MutationCommand::Init => result matches Ok(PrepareRequest::Init),
        MutationCommand::New { branch } => match env.base_branch {
            None => result matches Err(e) && base_unavailable(e),
            Some(base) => result matches Ok(PrepareRequest::New { branch: b, base_branch: bb }) && bb@ == base@ && b@ == match branch {
                Some(given) => given@,
                None => env.generated_branch@,
            },
        },
        MutationCommand::Switch { branch } => match env.base_branch {
            None => result matches Err(e) && base_unavailable(e),
            Some(base) => result matches Ok(PrepareRequest::Switch { branch: b, base_branch: bb }) && b@ == branch@ && bb@ == base@,
        },
        MutationCommand::Get { remote_branch } => match env.base_branch {
            None => result matches Err(e) && base_unavailable(e),
            Some(base) => result matches Ok(PrepareRequest::Get { remote_branch: r, base_branch: bb }) && r@ == remote_branch@
                && bb@ == base@,
        },
        MutationCommand::Adopt { apply } => result matches Ok(PrepareRequest::Adopt { dry_run }) && dry_run == !apply,
        MutationCommand::Mv { new_branch } => result matches Ok(PrepareRequest::Mv { new_branch: b, target_path: t }) && b@
            == new_branch@ && t@ == join_path_spec(env.managed_root@, new_branch@),
        MutationCommand::Extract { stash } => match env.base_branch {
            None => result matches Err(e) && base_unavailable(e),
            Some(base) => match worktree_at_path(env.worktrees@, env.context.current_worktree_root@) {
                None => result matches Err(e) && plain_error(e, ErrorCode::WorktreeNotFound, "current worktree was not found"@),
                Some(current) => match current.branch {
                    None => result matches Err(e) && plain_error(e, ErrorCode::DetachedHead, "extract requires a branch checkout"@),
                    Some(b) => result matches Ok(PrepareRequest::Extract { branch: rb, base_branch: bb, target_path: t, allow_stash })
                        && rb@ == b@ && bb@ == base@ && t@ == join_path_spec(env.managed_root@, b@) && allow_stash == stash,
                },
            },
        },
        MutationCommand::Use { branch, allow_agent, allow_shared } => result matches Ok(PrepareRequest::Use { branch: b, options })
            && b@ == branch@ && options == (UseOptions {
            invocation: if env.interactive {
                UseInvocation::Interactive
            } else {
                UseInvocation::NonInteractive { allow_agent, allow_unsafe: env.allow_unsafe }
            },
            sharing: if allow_shared {
                UseSharing::Allow
            } else {
                UseSharing::Reject
            },
        }),
        MutationCommand::Lock { branch, owner, reason } => match owner_spec(owner, env.default_owner) {
            None => result matches Err(e) && owner_unavailable(e),
            Some(o) => result matches Ok(PrepareRequest::Lock { branch: b, owner: ro, reason: rr }) && b@ == branch@ && ro@ == o
                && rr@ == match reason {
                Some(r) => r@,
                None => "locked"@,
            },
        },
        MutationCommand::Unlock { branch, owner, force } => match owner_spec(owner, env.default_owner) {
            None => result matches Err(e) && owner_unavailable(e),
            Some(o) => result matches Ok(PrepareRequest::Unlock { branch: b, owner: ro, force: f }) && b@ == branch@ && ro@ == o
                && f == force,
        },
        MutationCommand::Unsupported(kind) => result matches Err(e) && plain_error(
            e,
            ErrorCode::InternalError,
            command_name_spec(kind) + " mutation is not implemented yet"@,
        ),
    }
}

fn base_or_refuse(base: &Option<String>) -> (result: Result<String, CliError>)
    ensures
        match *base {
            None => result matches Err(e) && base_unavailable(e),
            Some(b) => result matches Ok(r) && r@ == b@,
        },
{
    match base {
        Some(b) => Ok(b.clone()),
        None => Err(CliError::new(ErrorCode::InvalidArgument, "base branch is unavailable")),
    }
}

fn owner_or_refuse(given: &Option<String>, default_owner: &Option<String>) -> (result: Result<String, CliError>)
    ensures
        match owner_spec(*given, *default_owner) {
            None => result matches Err(e) && owner_unavailable(e),
            Some(o) => result matches Ok(r) && r@ == o,
        },
{
    match given {
        Some(o) => Ok(o.clone()),
        None => match default_owner {
            Some(o) => Ok(o.clone()),
            None => Err(CliError::new(ErrorCode::InvalidArgument, "lock owner is unavailable; pass --owner explicitly")),
        },
    }
}

fn find_worktree(ws: &Vec<SnapshotWorktree>, path: &str) -> (found: Option<usize>)
    ensures
        match found {
            None => worktree_at_path(ws@, path@) is None,
            Some(i) => i < ws@.len() && worktree_at_path(ws@, path@) == Some(ws@[i as int]),
        },
{
    let mut i: usize = 0;
    assert(ws@.skip(0) =~= ws@);
    while i < ws.len()
        invariant
            i <= ws@.len(),
            worktree_at_path(ws@, path@) == worktree_at_path(ws@.skip(i as int), path@),
        decreases ws.len() - i,
    {
        assert(ws@.skip(i as int).drop_first() =~= ws@.skip(i + 1));
        if crate::text::str_eq(ws[i].path.as_str(), path) {
            return Some(i);
        }
        i = i + 1;
    }
    None
}

/// The preflight arguments of a mutation command.
pub fn command_inputs(command: &MutationCommand, env: &CommandEnvironment) -> (result: Result<PrepareRequest, CliError>)
    ensures
        command_inputs_ok(*command, *env, result),
{
    proof {
        reveal_strlit("locked");
    }
    match command {
        MutationCommand::Init => Ok(PrepareRequest::Init),
        MutationCommand::New { branch } => {
            let base_branch = base_or_refuse(&env.base_branch)?;
            let branch = match branch {
                Some(given) => given.clone(),
                None => env.generated_branch.clone(),
            };
            Ok(PrepareRequest::New { branch, base_branch })
        },
        MutationCommand::Switch { branch } => {
            let base_branch = base_or_refuse(&env.base_branch)?;
            Ok(PrepareRequest::Switch { branch: branch.clone(), base_branch })
        },
        MutationCommand::Get { remote_branch } => {
            let base_branch = base_or_refuse(&env.base_branch)?;
            Ok(PrepareRequest::Get { remote_branch: remote_branch.clone(), base_branch })
        },
        MutationCommand::Adopt { apply } => Ok(PrepareRequest::Adopt { dry_run: !*apply }),
        MutationCommand::Mv { new_branch } => Ok(
            PrepareRequest::Mv { new_branch: new_branch.clone(), target_path: join_path(env.managed_root.as_str(), new_branch.as_str()) },
        ),
        MutationCommand::Extract { stash } => {
            let base_branch = base_or_refuse(&env.base_branch)?;
            let index = match find_worktree(&env.worktrees, env.context.current_worktree_root.as_str()) {
                Some(i) => i,
                None => {
                    return Err(CliError::new(ErrorCode::WorktreeNotFound, "current worktree was not found"));
                },
            };
            match &env.worktrees[index].branch {
                None => Err(CliError::new(ErrorCode::DetachedHead, "extract requires a branch checkout")),
                Some(branch) => Ok(
                    PrepareRequest::Extract {
                        branch: branch.clone(),
                        base_branch,
                        target_path: join_path(env.managed_root.as_str(), branch.as_str()),
                        allow_stash: *stash,
                    },
                ),
            }
        },
        MutationCommand::Use { branch, allow_agent, allow_shared } => {
            let invocation = if env.interactive {
                UseInvocation::Interactive
            } else {
                UseInvocation::NonInteractive { allow_agent: *allow_agent, allow_unsafe: env.allow_unsafe }
            };
            let sharing = if *allow_shared {
                UseSharing::Allow
            } else {
                UseSharing::Reject
            };
            Ok(PrepareRequest::Use { branch: branch.clone(), options: UseOptions { invocation, sharing } })
        },
        MutationCommand::Lock { branch, owner, reason } => {
            let owner = owner_or_refuse(owner, &env.default_owner)?;
            let reason = match reason {
                Some(r) => r.clone(),
                None => "locked".to_owned(),
            };
            Ok(PrepareRequest::Lock { branch: branch.clone(), owner, reason })
        },
        MutationCommand::Unlock { branch, owner, force } => {
            let owner = owner_or_refuse(owner, &env.default_owner)?;
            Ok(PrepareRequest::Unlock { branch: branch.clone(), owner, force: *force })
        },
        MutationCommand::Unsupported(kind) => Err(crate::mutation_hooks::unsupported_mutation(*kind)),
    }
}

// ----- the generated branch of `new` -----

/// `n` written with at least six decimal digits.
pub open spec fn six_digits(n: nat) -> Seq<char> {
    seq![
        digit((n / 100000) % 10),
        digit((n / 10000) % 10),
        digit((n / 1000) % 10),
        digit((n / 100) % 10),
        digit((n / 10) % 10),
        digit(n % 10),
    ]
}

pub open spec fn digit(d: nat) -> char {
    if d == 0 {
        '0'
    } else if d == 1 {
        '1'
    } else if d == 2 {
        '2'
    } else if d == 3 {
        '3'
    } else if d == 4 {
        '4'
    } else if d == 5 {
        '5'
    } else if d == 6 {
        '6'
    } else if d == 7 {
        '7'
    } else if d == 8 {
        '8'
    } else {
        '9'
    }
}

pub open spec fn abs_int(x: int) -> nat {
    if x < 0 {
        (-x) as nat
    } else {
        x as nat
    }
}

fn digit_char(d: u32) -> (c: char)
    requires
        d < 10,
    ensures
        c == digit(d as nat),
{
    if d == 0 {
        '0'
    } else if d == 1 {
        '1'
    } else if d == 2 {
        '2'
    } else if d == 3 {
        '3'
    } else if d == 4 {
        '4'
    } else if d == 5 {
        '5'
    } else if d == 6 {
        '6'
    } else if d == 7 {
        '7'
    } else if d == 8 {
        '8'
    } else {
        '9'
    }
}

/// The branch `new` makes when none is given: `wip-` and the last six decimal digits of the
/// current time in nanoseconds since the epoch.
pub fn generated_wip_branch(unix_nanos: i128) -> (branch: String)
    ensures
        branch@ == "wip-"@ + six_digits(abs_int(unix_nanos as int) % 1000000),
{
    let magnitude: u128 = if unix_nanos < 0 {
        if unix_nanos == i128::MIN {
            (i128::MAX as u128) + 1
        } else {
            (-unix_nanos) as u128
        }
    } else {
        unix_nanos as u128
    };
    assert(magnitude == abs_int(unix_nanos as int));
    let n = (magnitude % 1000000) as u32;
    let mut branch = String::from_str("wip-");
    proof {
        reveal_strlit("wip-");
    }
    let digits: [char; 6] = [
        digit_char((n / 100000) % 10),
        digit_char((n / 10000) % 10),
        digit_char((n / 1000) % 10),
        digit_char((n / 100) % 10),
        digit_char((n / 10) % 10),
        digit_char(n % 10),
    ];
    let mut i: usize = 0;
    while i < 6
        invariant
            i <= 6,
            digits@ == six_digits(n as nat),
            branch@ == "wip-"@ + digits@.take(i as int),
        decreases 6 - i,
    {
        branch.push(digits[i]);
        assert(digits@.take(i + 1) =~= digits@.take(i as int).push(digits@[i as int]));
        i = i + 1;
    }
    assert(digits@.take(6) =~= digits@);
    branch
}

/// The current time in nanoseconds since the Unix epoch, from
/// `time::OffsetDateTime::now_utc().unix_timestamp_nanos()`. Nothing is claimed of it: it is
/// the clock's reading.
#[verifier::external_body]
fn now_unix_nanos() -> (nanos: i128) {
    time::OffsetDateTime::now_utc().unix_timestamp_nanos()
}

/// A fresh branch name for `new` without a branch, from the current time.
pub fn new_wip_branch() -> (branch: String)
    ensures
        exists|nanos: i128| branch@ == "wip-"@ + six_digits(abs_int(nanos as int) % 1000000),
{
    let nanos = now_unix_nanos();
    generated_wip_branch(nanos)
}

// ----- `init` -----

/// The line that marks the block `init` adds to the repository's exclude file.
pub open spec fn exclude_marker() -> Seq<char> {
    "# vde-worktree (managed)"@
}

/// The `init` plan: the metadata directories under `.vde/worktree`, the exclude file of the
/// common Git directory, the exclude block for the managed root (when it lies inside the
/// repository) and the metadata directory, and whether the repository was initialized.
pub open spec fn init_plan_ok(context: RepoContext, managed_root: Seq<char>, already_initialized: bool, plan: InitPlan) -> bool {
    let metadata = join_path_spec(context.repo_root@, ".vde/worktree"@);
    &&& plan.repo_root@ == context.repo_root@
    &&& plan.managed_worktree_root@ == managed_root
    &&& plan.metadata_directories@.map_values(|d: String| d@) == seq![
        join_path_spec(metadata, "hooks"@),
        join_path_spec(metadata, "logs"@),
        join_path_spec(metadata, "locks"@),
        join_path_spec(metadata, "state"@),
    ]
    &&& plan.exclude_path@ == join_path_spec(context.git_common_dir@, "info/exclude"@)
    &&& opt_text(plan.exclude_block) == match exclude_entry_spec(context.repo_root@, managed_root) {
        Some(entry) => Some(exclude_marker() + "\n"@ + entry + "\n.vde/worktree/\n"@),
        None => None,
    }
    &&& plan.already_initialized == already_initialized
}

/// Plans `init`, given whether the metadata directory already exists.
pub fn prepare_init(context: &RepoContext, managed_root: &str, already_initialized: bool) -> (plan: InitPlan)
    ensures
        init_plan_ok(*context, managed_root@, already_initialized, plan),
{
    let metadata = join_path(context.repo_root.as_str(), ".vde/worktree");
    let mut directories: Vec<String> = Vec::new();
    directories.push(join_path(metadata.as_str(), "hooks"));
    directories.push(join_path(metadata.as_str(), "logs"));
    directories.push(join_path(metadata.as_str(), "locks"));
    directories.push(join_path(metadata.as_str(), "state"));
    assert(directories@.map_values(|d: String| d@) =~= seq![
        join_path_spec(metadata@, "hooks"@),
        join_path_spec(metadata@, "logs"@),
        join_path_spec(metadata@, "locks"@),
        join_path_spec(metadata@, "state"@),
    ]);
    let exclude_block = match managed_root_exclude_entry(context.repo_root.as_str(), managed_root) {
        Some(entry) => {
            let mut block = String::from_str("# vde-worktree (managed)");
            block.append("\n");
            block.append(entry.as_str());
            block.append("\n.vde/worktree/\n");
            Some(block)
        },
        None => None,
    };
    InitPlan {
        repo_root: context.repo_root.clone(),
        managed_worktree_root: managed_root.to_owned(),
        metadata_directories: directories,
        exclude_path: join_path(context.git_common_dir.as_str(), "info/exclude"),
        exclude_block,
        already_initialized,
    }
}

/// What `init` appends to an exclude file that holds `current`: nothing when the block is
/// already there; otherwise the block, after a line break when `current` ends mid-line.
pub open spec fn exclude_addition_spec(current: Seq<char>, block: Seq<char>) -> Option<Seq<char>> {
    if contains_subseq(current, block) {
        None
    } else if current.len() > 0 && current.last() != '\n' {
        Some(seq!['\n'] + block)
    } else {
        Some(block)
    }
}

/// The text `init` appends to the exclude file holding `current`, if any.
pub fn exclude_addition(current: &str, block: &str) -> (addition: Option<String>)
    ensures
        match addition {
            Some(a) => exclude_addition_spec(current@, block@) == Some(a@),
            None => exclude_addition_spec(current@, block@) is None,
        },
{
    let text = chars_of(current);
    let needle = chars_of(block);
    let found = find_in(text.as_slice(), needle.as_slice(), 0);
    proof {
        crate::text::lemma_find_from_bounds(text@, needle@, 0);
    }
    if let Some(k) = found {
        assert(crate::text::matches_at(current@, block@, k as int));
        return None;
    }
    assert(!contains_subseq(current@, block@));
    let mut addition = String::new();
    if text.len() > 0 && text[text.len() - 1] != '\n' {
        addition.push('\n');
    }
    let ghost prefix = addition@;
    addition.append(block);
    proof {
        if current@.len() > 0 && current@.last() != '\n' {
            assert(prefix =~= seq!['\n']);
        } else {
            assert(prefix =~= Seq::<char>::empty());
            assert(addition@ =~= block@);
        }
    }
    Some(addition)
}

// ----- the preflight of a command -----

/// What the preflights read besides the command environment: whether the metadata directory
/// exists, the worktrees as `adopt` sees them, this host and process, and the lock record
/// stored for the branch that `lock` or `unlock` names.
#[derive(Debug)]
pub struct PlanningState {
    pub already_initialized: bool,
    pub adoptable: Vec<AdoptWorktree>,
    pub host: String,
    pub pid: u32,
    pub existing_lock: StoredLock,
}

/// The branches of the listed worktrees, in order.
pub open spec fn worktree_branches(ws: Seq<SnapshotWorktree>) -> Seq<Option<String>> {
    ws.map_values(|w: SnapshotWorktree| w.branch)
}

/// The outcome of the `new` preflight, as `prepare_new` states it.
pub open spec fn new_prepared(repo_root: Seq<char>, managed: Seq<char>, branches: Seq<Option<String>>, branch: Seq<char>, base: Seq<char>, result: Result<NewPlan, CliError>) -> bool {
    &&& (result matches Ok(plan) ==> plan.target_path@ == join_path_spec(managed, branch))
    &&& exists|validated: Result<(), CliError>, exists: Result<bool, CliError>, target: Result<String, CliError>, writable: Result<(), CliError>|
        #[trigger] new_plan_ok(repo_root, managed, branches, branch, base, validated, exists, target, writable, result)
}

/// The outcome of the `switch` preflight, as `prepare_switch` states it.
pub open spec fn switch_prepared(repo_root: Seq<char>, managed: Seq<char>, branch: Seq<char>, base: Seq<char>, result: Result<SwitchPlan, CliError>) -> bool {
    &&& (result matches Ok(SwitchPlan::Create { target_path, .. }) ==> target_path@ == join_path_spec(managed, branch))
    &&& exists|
        validated: Result<(), CliError>,
        existing: Result<Option<String>, CliError>,
        target: Result<String, CliError>,
        writable: Result<(), CliError>,
        exists: Result<bool, CliError>,
    | #[trigger] switch_plan_ok(repo_root, managed, branch, base, validated, existing, target, writable, exists, result)
}

/// The outcome of the `get` preflight, as `prepare_get` states it.
pub open spec fn get_prepared(repo_root: Seq<char>, managed: Seq<char>, remote_branch: Seq<char>, base: Seq<char>, result: Result<GetPlan, CliError>) -> bool {
    &&& (result matches Ok(GetPlan::Create { branch, target_path, .. }) ==> target_path@ == join_path_spec(managed, branch@))
    &&& match remote_branch_spec(remote_branch) {
        None => result matches Err(e) && e.code == ErrorCode::InvalidRemoteBranchFormat && e.message@
            == "invalid remote branch format: "@ + remote_branch,
        Some((remote, branch)) => exists|
            validated: Result<(), CliError>,
            remote_checked: Result<(), CliError>,
            remote_branch_checked: Result<(), CliError>,
            existing: Result<Option<String>, CliError>,
            target: Result<String, CliError>,
            writable: Result<(), CliError>,
            exists: Result<bool, CliError>,
        | #[trigger] get_plan_ok(
            repo_root,
            managed,
            remote,
            branch,
            base,
            validated,
            remote_checked,
            remote_branch_checked,
            existing,
            target,
            writable,
            exists,
            result,
        ),
    }
}

/// The outcome of the `adopt` preflight, as `prepare_adopt` states it.
pub open spec fn adopt_prepared(ws: Seq<AdoptWorktree>, repo_root: Seq<char>, managed: Seq<char>, dry_run: bool, result: Result<AdoptPlan, CliError>) -> bool {
    &&& (result matches Ok(plan) ==> adopt_plan_ok(plan, ws, repo_root, managed, dry_run))
    &&& (result is Err ==> adopt_consults_filesystem(ws, repo_root, managed))
    &&& (result matches Ok(plan) ==> forall|k: int|
        0 <= k < plan.candidates@.len() ==> #[trigger] plan.candidates@[k].to_path@ == join_path_spec(managed, plan.candidates@[k].branch@))
    &&& exists|order: Seq<int>, targets: Seq<Result<String, CliError>>, present: Seq<Result<bool, CliError>>|
        #[trigger] adopt_answered(ws, repo_root, managed, dry_run, order, targets, present, result)
}

/// The outcome of the `mv` preflight, as `prepare_mv` states it.
pub open spec fn mv_prepared(env: CommandEnvironment, new_branch: Seq<char>, target_path: Seq<char>, result: Result<MvPlan, CliError>) -> bool {
    exists|validated: Result<(), CliError>, exists: Result<bool, CliError>, target: Result<(), CliError>, empty: Result<(), CliError>|
        #[trigger] mv_plan_ok(
            env.context.repo_root@,
            env.context.current_worktree_root@,
            env.managed_root@,
            env.worktrees@,
            env.base_branch,
            new_branch,
            target_path,
            validated,
            exists,
            target,
            empty,
            result,
        )
}

/// The outcome of the `extract` preflight, as `prepare_extract` states it.
pub open spec fn extract_prepared(env: CommandEnvironment, base: Seq<char>, target_path: Seq<char>, allow_stash: bool, result: Result<ExtractPlan, CliError>) -> bool {
    exists|exists: Result<bool, CliError>, target: Result<(), CliError>, empty: Result<(), CliError>, invalid: Option<(String, String)>|
        #[trigger] extract_plan_ok(
            env.context.repo_root@,
            env.context.current_worktree_root@,
            env.managed_root@,
            env.worktrees@,
            base,
            target_path,
            allow_stash,
            exists,
            target,
            empty,
            invalid,
            result,
        )
}

/// The outcome of the `use` preflight, as `prepare_use` states it.
pub open spec fn use_prepared(env: CommandEnvironment, branch: Seq<char>, options: UseOptions, result: Result<UsePlan, CliError>) -> bool {
    exists|exists: Result<bool, CliError>| #[trigger] use_plan_ok(env.context.repo_root@, env.worktrees@, branch, options, exists, result)
}

/// `result` carries a plan of the kind `kind` names, or an error.
pub open spec fn of_kind(result: Result<PreparedCommand, CliError>, kind: CommandKind) -> bool {
    result matches Ok(c) ==> prepared_kind(c) == kind
}

/// What each preflight answers, handed the arguments that `command_inputs` decided: `init`
/// plans from the context alone; every other command answers as its own `prepare_` function
/// states, on the repository root, the managed root and the worktrees of the environment.
pub open spec fn prepared_ok(request: PrepareRequest, env: CommandEnvironment, state: PlanningState, result: Result<PreparedCommand, CliError>) -> bool {
    let repo_root = env.context.repo_root@;
    let managed = env.managed_root@;
    match request {
        PrepareRequest::Init => result matches Ok(PreparedCommand::Init(plan))
            && init_plan_ok(env.context, managed, state.already_initialized, plan),
        PrepareRequest::New { branch, base_branch } => of_kind(result, CommandKind::New) && new_prepared(
            repo_root,
            managed,
            worktree_branches(env.worktrees@),
            branch@,
            base_branch@,
            match result { Ok(c) => Ok(c->New_0), Err(e) => Err(e) },
        ),
        PrepareRequest::Switch { branch, base_branch } => of_kind(result, CommandKind::Switch) && switch_prepared(
            repo_root,
            managed,
            branch@,
            base_branch@,
            match result { Ok(c) => Ok(c->Switch_0), Err(e) => Err(e) },
        ),
        PrepareRequest::Get { remote_branch, base_branch } => of_kind(result, CommandKind::Get) && get_prepared(
            repo_root,
            managed,
            remote_branch@,
            base_branch@,
            match result { Ok(c) => Ok(c->Get_0), Err(e) => Err(e) },
        ),
        PrepareRequest::Adopt { dry_run } => of_kind(result, CommandKind::Adopt) && adopt_prepared(
            state.adoptable@,
            repo_root,
            managed,
            dry_run,
            match result { Ok(c) => Ok(c->Adopt_0), Err(e) => Err(e) },
        ),
        PrepareRequest::Mv { new_branch, target_path } => of_kind(result, CommandKind::Mv) && mv_prepared(
            env,
            new_branch@,
            target_path@,
            match result { Ok(c) => Ok(c->Mv_0), Err(e) => Err(e) },
        ),
        PrepareRequest::Extract { branch, base_branch, target_path, allow_stash } => of_kind(result, CommandKind::Extract)
            && extract_prepared(
            env,
            base_branch@,
            target_path@,
            allow_stash,
            match result { Ok(c) => Ok(c->Extract_0), Err(e) => Err(e) },
        ),
        PrepareRequest::Use { branch, options } => of_kind(result, CommandKind::Use) && use_prepared(
            env,
            branch@,
            options,
            match result { Ok(c) => Ok(c->Use_0), Err(e) => Err(e) },
        ),
        PrepareRequest::Lock { branch, owner, reason } => of_kind(result, CommandKind::Lock) && lock_preflight_ok(
            repo_root,
            worktree_branches(env.worktrees@),
            branch@,
            reason@,
            owner@,
            state.host@,
            state.pid,
            state.existing_lock,
            match result { Ok(c) => Ok(c->Lock_0), Err(e) => Err(e) },
        ),
        PrepareRequest::Unlock { branch, owner, force } => of_kind(result, CommandKind::Unlock) && unlock_preflight_ok(
            repo_root,
            branch@,
            owner@,
            force,
            state.existing_lock,
            match result { Ok(c) => Ok(c->Unlock_0), Err(e) => Err(e) },
        ),
    }
}

fn worktree_branch_list(ws: &Vec<SnapshotWorktree>) -> (branches: Vec<Option<String>>)
    ensures
        branches@ == worktree_branches(ws@),
{
    let mut branches: Vec<Option<String>> = Vec::new();
    let mut i: usize = 0;
    while i < ws.len()
        invariant
            i <= ws@.len(),
            branches@ == worktree_branches(ws@.take(i as int)),
        decreases ws.len() - i,
    {
        branches.push(ws[i].branch.clone());
        assert(worktree_branches(ws@.take(i + 1)) =~= worktree_branches(ws@.take(i as int)).push(ws@[i as int].branch));
        i = i + 1;
    }
    assert(ws@.take(ws@.len() as int) =~= ws@);
    branches
}

/// Runs the preflight of a mutation command: decides its arguments with `command_inputs`, then
/// hands them to the command's own `prepare_` function.
pub fn prepare_command<G: CreateMutationGit, F: TargetFilesystem, L: WorktreeLookup, R: LifecycleRecords>(
    git: &G,
    fs: &F,
    lookup: &L,
    records: &R,
    command: &MutationCommand,
    env: &CommandEnvironment,
    state: &PlanningState,
) -> (result: Result<PreparedCommand, CliError>)
    ensures
        exists|inputs: Result<PrepareRequest, CliError>| #[trigger] command_inputs_ok(*command, *env, inputs) && match inputs {
            Err(e) => result == Err::<PreparedCommand, CliError>(e),
            Ok(request) => prepared_ok(request, *env, *state, result),
        },
{
    let inputs = command_inputs(command, env);
    let ghost i = inputs;
    let request = match inputs {
        Err(error) => {
            return Err(error);
        },
        Ok(request) => request,
    };
    let ghost rq = request;
    let repo_root = env.context.repo_root.as_str();
    let managed = env.managed_root.as_str();
    let result = match request {
        PrepareRequest::Init => Ok(PreparedCommand::Init(prepare_init(&env.context, managed, state.already_initialized))),
        PrepareRequest::New { branch, base_branch } => {
            let branches = worktree_branch_list(&env.worktrees);
            let planned = prepare_new(git, fs, repo_root, managed, branches.as_slice(), branch.as_str(), base_branch.as_str());
            let ghost p = planned;
            let result = match planned {
                Ok(plan) => Ok(PreparedCommand::New(plan)),
                Err(error) => Err(error),
            };
            assert(new_prepared(repo_root@, managed@, worktree_branches(env.worktrees@), branch@, base_branch@, p));
            assert((match result { Ok(c) => Ok(c->New_0), Err(e) => Err(e) }) == p);
            result
        },
        PrepareRequest::Switch { branch, base_branch } => {
            let planned = prepare_switch(git, fs, lookup, repo_root, managed, branch.as_str(), base_branch.as_str());
            let ghost p = planned;
            let result = match planned {
                Ok(plan) => Ok(PreparedCommand::Switch(plan)),
                Err(error) => Err(error),
            };
            assert(switch_prepared(repo_root@, managed@, branch@, base_branch@, p));
            assert((match result { Ok(c) => Ok(c->Switch_0), Err(e) => Err(e) }) == p);
            result
        },
        PrepareRequest::Get { remote_branch, base_branch } => {
            let planned = prepare_get(git, fs, lookup, repo_root, managed, remote_branch.as_str(), base_branch.as_str());
            let ghost p = planned;
            let result = match planned {
                Ok(plan) => Ok(PreparedCommand::Get(plan)),
                Err(error) => Err(error),
            };
            assert(get_prepared(repo_root@, managed@, remote_branch@, base_branch@, p));
            assert((match result { Ok(c) => Ok(c->Get_0), Err(e) => Err(e) }) == p);
            result
        },
        PrepareRequest::Adopt { dry_run } => {
            let planned = prepare_adopt(fs, repo_root, managed, state.adoptable.as_slice(), dry_run);
            let ghost p = planned;
            let result = match planned {
                Ok(plan) => Ok(PreparedCommand::Adopt(plan)),
                Err(error) => Err(error),
            };
            assert(adopt_prepared(state.adoptable@, repo_root@, managed@, dry_run, p));
            assert((match result { Ok(c) => Ok(c->Adopt_0), Err(e) => Err(e) }) == p);
            result
        },
        PrepareRequest::Mv { new_branch, target_path } => {
            let planned = prepare_mv(
                git,
                fs,
                repo_root,
                env.context.current_worktree_root.as_str(),
                managed,
                env.worktrees.as_slice(),
                &env.base_branch,
                new_branch.as_str(),
                target_path.as_str(),
            );
            let ghost p = planned;
            let result = match planned {
                Ok(plan) => Ok(PreparedCommand::Mv(plan)),
                Err(error) => Err(error),
            };
            assert(mv_prepared(*env, new_branch@, target_path@, p));
            assert((match result { Ok(c) => Ok(c->Mv_0), Err(e) => Err(e) }) == p);
            result
        },
        PrepareRequest::Extract { branch, base_branch, target_path, allow_stash } => {
            let planned = prepare_extract(
                git,
                fs,
                records,
                repo_root,
                env.context.current_worktree_root.as_str(),
                managed,
                env.worktrees.as_slice(),
                base_branch.as_str(),
                target_path.as_str(),
                allow_stash,
            );
            let ghost p = planned;
            let result = match planned {
                Ok(plan) => Ok(PreparedCommand::Extract(plan)),
                Err(error) => Err(error),
            };
            assert(extract_prepared(*env, base_branch@, target_path@, allow_stash, p));
            assert((match result { Ok(c) => Ok(c->Extract_0), Err(e) => Err(e) }) == p);
            result
        },
        PrepareRequest::Use { branch, options } => {
            let planned = prepare_use(git, repo_root, env.worktrees.as_slice(), branch.as_str(), options);
            let ghost p = planned;
            let result = match planned {
                Ok(plan) => Ok(PreparedCommand::Use(plan)),
                Err(error) => Err(error),
            };
            assert(use_prepared(*env, branch@, options, p));
            assert((match result { Ok(c) => Ok(c->Use_0), Err(e) => Err(e) }) == p);
            result
        },
        PrepareRequest::Lock { branch, owner, reason } => {
            let branches = worktree_branch_list(&env.worktrees);
            let planned = prepare_lock(
                repo_root,
                branches.as_slice(),
                branch.as_str(),
                reason.as_str(),
                owner.as_str(),
                state.host.as_str(),
                state.pid,
                &state.existing_lock,
            );
            let ghost p = planned;
            let result = match planned {
                Ok(plan) => Ok(PreparedCommand::Lock(plan)),
                Err(error) => Err(error),
            };
            assert((match result { Ok(c) => Ok(c->Lock_0), Err(e) => Err(e) }) == p);
            result
        },
        PrepareRequest::Unlock { branch, owner, force } => {
            let planned = prepare_unlock(repo_root, branch.as_str(), owner.as_str(), force, &state.existing_lock);
            let ghost p = planned;
            let result = match planned {
                Ok(plan) => Ok(PreparedCommand::Unlock(plan)),
                Err(error) => Err(error),
            };
            assert((match result { Ok(c) => Ok(c->Unlock_0), Err(e) => Err(e) }) == p);
            result
        },
    };
    assert(prepared_ok(rq, *env, *state, result));
    result
}

/// A mutation ready to run: its plan and what its hooks are told.
#[derive(Debug)]
pub struct SystemMutationPlan {
    pub command: PreparedCommand,
    pub hooks: MutationHookRequest,
}

/// Prepares a mutation command: its preflight, as `prepare_command` runs it, and, for the
/// plan it makes, the hook request, which is interactive exactly when both output streams
/// are terminals.
pub fn prepare_mutation<G: CreateMutationGit, F: TargetFilesystem, L: WorktreeLookup, R: LifecycleRecords>(
    git: &G,
    fs: &F,
    lookup: &L,
    records: &R,
    command: &MutationCommand,
    env: &CommandEnvironment,
    state: &PlanningState,
) -> (result: Result<SystemMutationPlan, CliError>)
    ensures
        exists|inputs: Result<PrepareRequest, CliError>| #[trigger] command_inputs_ok(*command, *env, inputs) && match inputs {
            Err(e) => result == Err::<SystemMutationPlan, CliError>(e),
            Ok(request) => prepared_ok(
                request,
                *env,
                *state,
                match result {
                    Ok(plan) => Ok(plan.command),
                    Err(e) => Err(e),
                },
            ),
        },
        result matches Ok(plan) ==> hook_request_ok(plan.command, env.context, env.interactive, plan.hooks),
{
    let prepared = prepare_command(git, fs, lookup, records, command, env, state);
    let ghost p = prepared;
    let result = match prepared {
        Err(error) => Err(error),
        Ok(planned) => {
            let hooks = mutation_hook_request(&planned, &env.context, env.interactive);
            Ok(SystemMutationPlan { command: planned, hooks })
        },
    };
    assert((match result {
        Ok(plan) => Ok(plan.command),
        Err(e) => Err(e),
    }) == p);
    result
}

} // verus!
