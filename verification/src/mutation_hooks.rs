//! The hook request of each prepared mutation: for which branch and target the hooks run,
//! in which directory the pre- and post-hooks start, which extra variables they see, and
//! whether the mutation needs hooks at all. Also the refusals that come before any plan: a
//! missing base branch and a command without a mutation.

use vstd::prelude::*;

use crate::error::{plain_error, CliError, ErrorCode};
use crate::git::RepoContext;
use crate::pipeline::{command_name_spec, CommandKind};
use crate::plans::{
    opt_text, AdoptPlan, ExtractPlan, GetPlan, InitPlan, LockPlan, MvPlan, NewPlan, SwitchPlan, UnlockPlan, UsePlan,
};

verus! {

/// A prepared mutation, by command.
#[derive(Debug)]
pub enum PreparedCommand {
    Init(InitPlan),
    New(NewPlan),
    Switch(SwitchPlan),
    Get(GetPlan),
    Adopt(AdoptPlan),
    Mv(MvPlan),
    Extract(ExtractPlan),
    Use(UsePlan),
    Lock(LockPlan),
    Unlock(UnlockPlan),
}

/// What the hooks of a mutation are told.
#[derive(Debug)]
pub struct MutationHookRequest {
    pub action: String,
    pub branch: Option<String>,
    pub target_path: String,
    pub pre_cwd: String,
    pub post_cwd: String,
    pub extra_env: Vec<(String, String)>,
    pub interactive: bool,
    pub requires_hooks: bool,
}

pub open spec fn prepared_kind(command: PreparedCommand) -> CommandKind {
    match command {
        PreparedCommand::Init(_) => CommandKind::Init,
        PreparedCommand::New(_) => CommandKind::New,
        PreparedCommand::Switch(_) => CommandKind::Switch,
        PreparedCommand::Get(_) => CommandKind::Get,
        PreparedCommand::Adopt(_) => CommandKind::Adopt,
        PreparedCommand::Mv(_) => CommandKind::Mv,
        PreparedCommand::Extract(_) => CommandKind::Extract,
        PreparedCommand::Use(_) => CommandKind::Use,
        PreparedCommand::Lock(_) => CommandKind::Lock,
        PreparedCommand::Unlock(_) => CommandKind::Unlock,
    }
}

pub open spec fn unlock_branch(plan: UnlockPlan) -> Seq<char> {
    match plan {
        UnlockPlan::Noop { branch } => branch@,
        UnlockPlan::RemoveValid { branch, .. } => branch@,
        UnlockPlan::RemoveInvalid { branch, .. } => branch@,
    }
}

/// The branch the hooks run for, their target, the pre- and post-hook directories, and the
/// extra variables: creation commands start in the current worktree and finish in the
/// target; `init`, `adopt` and `extract` start in the repository root; `use`, `lock` and
/// `unlock` run entirely in the repository root; a rename names the old and the new branch.
pub open spec fn hook_request_spec(
    command: PreparedCommand,
    repo_root: Seq<char>,
    current: Seq<char>,
) -> (Option<Seq<char>>, Seq<char>, Seq<char>, Seq<char>, Seq<(Seq<char>, Seq<char>)>, bool) {
    match command {
        PreparedCommand::Init(p) => (None, p.repo_root@, repo_root, repo_root, Seq::empty(), true),
        PreparedCommand::New(p) => (Some(p.branch@), p.target_path@, current, p.target_path@, Seq::empty(), true),
        PreparedCommand::Switch(p) => match p {
            SwitchPlan::Existing { branch, path, .. } => (Some(branch@), path@, current, path@, Seq::empty(), true),
            SwitchPlan::Create { branch, target_path, .. } => (Some(branch@), target_path@, current, target_path@, Seq::empty(), true),
        },
        PreparedCommand::Get(p) => match p {
            GetPlan::Existing { branch, path, .. } => (Some(branch@), path@, current, path@, Seq::empty(), true),
            GetPlan::Create { branch, target_path, .. } => (Some(branch@), target_path@, current, target_path@, Seq::empty(), true),
        },
        PreparedCommand::Adopt(p) => (None, p.managed_worktree_root@, repo_root, p.managed_worktree_root@, Seq::empty(), !p.dry_run),
        PreparedCommand::Mv(p) => match p {
            MvPlan::Noop(r) => (Some(r.branch@), r.path@, current, r.path@, Seq::empty(), false),
            MvPlan::Apply(a) => (
                Some(a.new_branch@),
                a.target_path@,
                current,
                a.target_path@,
                seq![("WT_OLD_BRANCH"@, a.old_branch@), ("WT_NEW_BRANCH"@, a.new_branch@)],
                true,
            ),
        },
        PreparedCommand::Extract(p) => (Some(p.branch@), p.target_path@, repo_root, p.target_path@, Seq::empty(), true),
        PreparedCommand::Use(p) => (Some(p.branch@), repo_root, repo_root, repo_root, Seq::empty(), true),
        PreparedCommand::Lock(p) => (Some(p.branch@), repo_root, repo_root, repo_root, Seq::empty(), false),
        PreparedCommand::Unlock(p) => (Some(unlock_branch(p)), repo_root, repo_root, repo_root, Seq::empty(), false),
    }
}

pub open spec fn hook_request_ok(command: PreparedCommand, context: RepoContext, interactive: bool, r: MutationHookRequest) -> bool {
    let (branch, target, pre, post, env, needs_hooks) = hook_request_spec(command, context.repo_root@, context.current_worktree_root@);
    &&& r.action@ == command_name_spec(prepared_kind(command))
    &&& opt_text(r.branch) == branch
    &&& r.target_path@ == target
    &&& r.pre_cwd@ == pre
    &&& r.post_cwd@ == post
    &&& r.extra_env@.map_values(|e: (String, String)| (e.0@, e.1@)) == env
    &&& r.interactive == interactive
    &&& r.requires_hooks == needs_hooks
}

fn request(
    kind: CommandKind,
    branch: Option<String>,
    target_path: String,
    pre_cwd: String,
    post_cwd: String,
    interactive: bool,
    requires_hooks: bool,
) -> (r: MutationHookRequest)
    ensures
        r.action@ == command_name_spec(kind),
        r.branch == branch,
        r.target_path == target_path,
        r.pre_cwd == pre_cwd,
        r.post_cwd == post_cwd,
        r.extra_env@.len() == 0,
        r.extra_env@.map_values(|e: (String, String)| (e.0@, e.1@)) == Seq::<(Seq<char>, Seq<char>)>::empty(),
        r.interactive == interactive,
        r.requires_hooks == requires_hooks,
{
    let r = MutationHookRequest {
        action: kind.name().to_owned(),
        branch,
        target_path,
        pre_cwd,
        post_cwd,
        extra_env: Vec::new(),
        interactive,
        requires_hooks,
    };
    assert(r.extra_env@.map_values(|e: (String, String)| (e.0@, e.1@)) =~= Seq::<(Seq<char>, Seq<char>)>::empty());
    r
}

/// What the hooks of a prepared mutation are told; `interactive` is whether stdout and
/// stderr are both terminals.
pub fn mutation_hook_request(command: &PreparedCommand, context: &RepoContext, interactive: bool) -> (r: MutationHookRequest)
    ensures
        hook_request_ok(*command, *context, interactive, r),
{
    let root = &context.repo_root;
    let current = &context.current_worktree_root;
    let r = match command {
        PreparedCommand::Init(p) => request(CommandKind::Init, None, p.repo_root.clone(), root.clone(), root.clone(), interactive, true),
        PreparedCommand::New(p) => request(
            CommandKind::New,
            Some(p.branch.clone()),
            p.target_path.clone(),
            current.clone(),
            p.target_path.clone(),
            interactive,
            true,
        ),
        PreparedCommand::Switch(p) => match p {
            SwitchPlan::Existing { branch, path, .. } => request(
                CommandKind::Switch,
                Some(branch.clone()),
                path.clone(),
                current.clone(),
                path.clone(),
                interactive,
                true,
            ),
            SwitchPlan::Create { branch, target_path, .. } => request(
                CommandKind::Switch,
                Some(branch.clone()),
                target_path.clone(),
                current.clone(),
                target_path.clone(),
                interactive,
                true,
            ),
        },
        PreparedCommand::Get(p) => match p {
            GetPlan::Existing { branch, path, .. } => request(
                CommandKind::Get,
                Some(branch.clone()),
                path.clone(),
                current.clone(),
                path.clone(),
                interactive,
                true,
            ),
            GetPlan::Create { branch, target_path, .. } => request(
                CommandKind::Get,
                Some(branch.clone()),
                target_path.clone(),
                current.clone(),
                target_path.clone(),
                interactive,
                true,
            ),
        },
        PreparedCommand::Adopt(p) => request(
            CommandKind::Adopt,
            None,
            p.managed_worktree_root.clone(),
            root.clone(),
            p.managed_worktree_root.clone(),
            interactive,
            !p.dry_run,
        ),
        PreparedCommand::Mv(p) => match p {
            MvPlan::Noop(r) => request(CommandKind::Mv, Some(r.branch.clone()), r.path.clone(), current.clone(), r.path.clone(), interactive, false),
            MvPlan::Apply(a) => {
                let mut r = request(
                    CommandKind::Mv,
                    Some(a.new_branch.clone()),
                    a.target_path.clone(),
                    current.clone(),
                    a.target_path.clone(),
                    interactive,
                    true,
                );
                r.extra_env.push(("WT_OLD_BRANCH".to_owned(), a.old_branch.clone()));
                r.extra_env.push(("WT_NEW_BRANCH".to_owned(), a.new_branch.clone()));
                assert(r.extra_env@.map_values(|e: (String, String)| (e.0@, e.1@)) =~= seq![
                    ("WT_OLD_BRANCH"@, a.old_branch@),
                    ("WT_NEW_BRANCH"@, a.new_branch@),
                ]);
                r
            },
        },
        PreparedCommand::Extract(p) => request(
            CommandKind::Extract,
            Some(p.branch.clone()),
            p.target_path.clone(),
            root.clone(),
            p.target_path.clone(),
            interactive,
            true,
        ),
        PreparedCommand::Use(p) => request(CommandKind::Use, Some(p.branch.clone()), root.clone(), root.clone(), root.clone(), interactive, true),
        PreparedCommand::Lock(p) => request(CommandKind::Lock, Some(p.branch.clone()), root.clone(), root.clone(), root.clone(), interactive, false),
        PreparedCommand::Unlock(p) => {
            let branch = match p {
                UnlockPlan::Noop { branch } => branch.clone(),
                UnlockPlan::RemoveValid { branch, .. } => branch.clone(),
                UnlockPlan::RemoveInvalid { branch, .. } => branch.clone(),
            };
            request(CommandKind::Unlock, Some(branch), root.clone(), root.clone(), root.clone(), interactive, false)
        },
    };
    assert(Seq::<(String, String)>::empty().map_values(|e: (String, String)| (e.0@, e.1@)) =~= Seq::empty());
    r
}

/// The base branch a creation or extraction starts from, which the repository snapshot
/// must have resolved.
pub fn require_base_branch(base_branch: &Option<String>) -> (result: Result<String, CliError>)
    ensures
        match *base_branch {
            Some(b) => result matches Ok(r) && r@ == b@,
            None => result matches Err(e) && plain_error(e, ErrorCode::InvalidArgument, "base branch is unavailable"@),
        },
{
    match base_branch {
        Some(branch) => Ok(branch.clone()),
        None => Err(CliError::new(ErrorCode::InvalidArgument, "base branch is unavailable")),
    }
}

/// The refusal of a write command that has no mutation.
pub fn unsupported_mutation(command: CommandKind) -> (error: CliError)
    ensures
        plain_error(error, ErrorCode::InternalError, command_name_spec(command) + " mutation is not implemented yet"@),
{
    let mut message = String::from_str(command.name());
    message.append(" mutation is not implemented yet");
    CliError::new(ErrorCode::InternalError, message.as_str())
}

} // verus!
