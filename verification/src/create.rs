//! `new`, `switch` and `get`: the preflight that fixes a creation plan, and the Git step
//! that carries it out after asking the probes once more.
//!
//! Git and the file system are reached through `CreateMutationGit`, `TargetFilesystem` and
//! `WorktreeLookup`; what they answer is not known here, so each contract says what comes
//! back for every answer they may give.

use vstd::prelude::*;

use crate::error::{object_view, CliError, DetailValue, DetailView};
use crate::git::args_view;
use crate::plans::{
    opt_text, branch_listed, has_worktree, parse_remote_branch, remote_branch_spec, BranchCreationMode, GetPlan,
    NewPlan, SwitchPlan, WorktreeDisposition, WorktreeGitApplied,
};
use crate::probes::{
    branch_already_attached, branch_already_exists, branch_check_ok, branch_text_acceptable,
    answers_only_status, attachment_reported, branch_check_reported, is_branch_error, new_branch_reported, local_branch_exists, probe_ok, probe_reported,
    remote_branch_check_ok, remote_branch_reported, remote_reported,
    remote_check_ok,
    attached_worktree_path, attachment_ok, branch_mode_answer, branch_mode_ok, new_branch_ok, push_arg,
    revalidate_new_branch, show_ref_args, validate_branch, validate_remote_branch_exists,
    validate_remote_exists, CreateMutationGit,
};
use crate::text::{str_eq, trim_spec, trim_str, utf8_lossy, utf8_lossy_string};
use crate::error::ErrorCode;
use crate::misc::validate_relative;
use crate::paths::{is_absolute_spec, is_repository_relative, join_path, join_path_spec};
use crate::process::ProcessOutput;

verus! {

/// The file-system work around a worktree's target: whether a target inside the managed root
/// escapes it through a symbolic link, whether a path exists, whether a target may be written
/// (absent or an empty directory, not followed through a link) or is empty (followed),
/// making or pruning the directories above it, and whether two paths name the same location.
pub trait TargetFilesystem {
    /// Whether this file system may answer `result` when asked to contain `path` in
    /// `managed_root`. One that says nothing of its answers may give any.
    open spec fn contained_answer(&self, managed_root: Seq<char>, path: Seq<char>, result: Result<(), CliError>) -> bool {
        true
    }

    /// Whether this file system may answer `result` when asked whether `path` exists.
    open spec fn exists_answer(&self, path: Seq<char>, result: Result<bool, CliError>) -> bool {
        true
    }

    /// Whether this file system may answer `result` when asked whether `path` may be written.
    open spec fn writable_answer(&self, path: Seq<char>, result: Result<(), CliError>) -> bool {
        true
    }

    /// Whether this file system may answer `result` when asked whether `path` is empty.
    open spec fn empty_answer(&self, path: Seq<char>, result: Result<(), CliError>) -> bool {
        true
    }

    /// Refuses `path` when, followed through its existing directories, it leaves
    /// `managed_root`.
    fn ensure_contained(&self, managed_root: &str, path: &str) -> (result: Result<(), CliError>)
        ensures
            self.contained_answer(managed_root@, path@, result),
    ;

    fn path_exists(&self, path: &str) -> (result: Result<bool, CliError>)
        ensures
            self.exists_answer(path@, result),
    ;

    fn ensure_target_writable(&self, path: &str) -> (result: Result<(), CliError>)
        ensures
            self.writable_answer(path@, result),
    ;

    fn ensure_target_path_empty(&self, path: &str) -> (result: Result<(), CliError>)
        ensures
            self.empty_answer(path@, result),
    ;

    /// Whether this file system may answer `result` when asked to make the parent of `path`.
    open spec fn parent_answer(&self, path: Seq<char>, result: Result<(), CliError>) -> bool {
        true
    }

    /// Whether this file system may answer `same` when asked whether `left` and `right` name
    /// the same location.
    open spec fn same_location_answer(&self, left: Seq<char>, right: Seq<char>, same: bool) -> bool {
        true
    }

    fn create_parent(&self, path: &str) -> (result: Result<(), CliError>)
        ensures
            self.parent_answer(path@, result),
    ;

    fn prune_empty_target_parents(&self, target: &str, managed_root: &str);

    fn same_location(&self, left: &str, right: &str) -> (same: bool)
        ensures
            self.same_location_answer(left@, right@, same),
    ;
}

/// `error` is the refusal of `path` as a relative path inside a root: an absolute path, or
/// one that climbs out with `..`.
pub open spec fn relative_refusal(path: Seq<char>, error: CliError) -> bool {
    if is_absolute_spec(path) {
        error.code == ErrorCode::AbsolutePathNotAllowed && error.message@ == "absolute path is not allowed: "@ + path
    } else {
        error.code == ErrorCode::PathOutsideRepo && error.message@ == "path must be repository-relative without traversal"@
            && object_view(error.details@) == seq![("path"@, DetailView::Text(path))]
    }
}

/// Where a branch's worktree goes: the branch, as a relative path, inside the managed root.
/// A branch that is no relative path is refused; a target that escapes the managed root
/// through a symbolic link is refused by the file system.
pub open spec fn target_resolution(managed_root: Seq<char>, branch: Seq<char>, target: Result<String, CliError>) -> bool {
    if is_absolute_spec(branch) || !is_repository_relative(branch) {
        target matches Err(e) && relative_refusal(branch, e)
    } else {
        target matches Ok(t) ==> t@ == join_path_spec(managed_root, branch)
    }
}

/// For a branch that is a relative path, `target` is what the file system may answer when
/// asked to contain the joined path in the managed root: that path, or its refusal.
pub open spec fn target_reported<F: TargetFilesystem>(fs: &F, managed_root: Seq<char>, branch: Seq<char>, target: Result<String, CliError>) -> bool {
    !(is_absolute_spec(branch) || !is_repository_relative(branch)) ==> exists|answer: Result<(), CliError>|
        #[trigger] fs.contained_answer(managed_root, join_path_spec(managed_root, branch), answer) && (answer is Ok
            <==> target is Ok) && (answer matches Err(e) ==> target == Err::<String, CliError>(e))
}

/// The target of `branch`'s worktree inside `managed_root`.
pub fn resolve_target<F: TargetFilesystem>(fs: &F, managed_root: &str, branch: &str) -> (target: Result<String, CliError>)
    ensures
        target_resolution(managed_root@, branch@, target),
        target_reported(fs, managed_root@, branch@, target),
{
    match validate_relative(branch) {
        Ok(()) => {},
        Err(error) => {
            return Err(error);
        },
    }
    let path = join_path(managed_root, branch);
    let contained = fs.ensure_contained(managed_root, path.as_str());
    let ghost c = contained;
    let target = match contained {
        Ok(()) => Ok(path),
        Err(error) => Err(error),
    };
    assert(fs.contained_answer(managed_root@, path@, c));
    target
}

/// The worktree, if any, that the repository snapshot lists with a branch checked out.
pub trait WorktreeLookup {
    /// Whether this snapshot may answer `result` for where `branch` is checked out. One that
    /// says nothing of its answers may give any.
    open spec fn lookup_answer(&self, branch: Seq<char>, result: Result<Option<String>, CliError>) -> bool {
        true
    }

    fn optional_branch(&self, branch: &str) -> (result: Result<Option<String>, CliError>)
        ensures
            self.lookup_answer(branch@, result),
    ;
}

/// What `validate_branch` may answer for a branch.
pub open spec fn branch_validation(repo_root: Seq<char>, branch: Seq<char>, result: Result<(), CliError>) -> bool {
    if branch_text_acceptable(branch) {
        exists|outcome: Result<ProcessOutput, CliError>| #[trigger] branch_check_ok(repo_root, branch, outcome, result)
    } else {
        result matches Err(e) && is_branch_error(e, ErrorCode::InvalidArgument, "invalid branch name: "@, branch)
    }
}

/// What `local_branch_exists` may answer for a branch.
pub open spec fn branch_probe(repo_root: Seq<char>, branch: Seq<char>, result: Result<bool, CliError>) -> bool {
    exists|outcome: Result<ProcessOutput, CliError>| #[trigger] probe_ok(repo_root, show_ref_args(branch), outcome, result)
}

/// What `validate_remote_exists` may answer for a remote.
pub open spec fn remote_validation(repo_root: Seq<char>, remote: Seq<char>, result: Result<(), CliError>) -> bool {
    exists|outcome: Result<ProcessOutput, CliError>| #[trigger] remote_check_ok(repo_root, remote, outcome, result)
}

/// What `validate_remote_branch_exists` may answer for a remote branch.
pub open spec fn remote_branch_validation(repo_root: Seq<char>, remote: Seq<char>, branch: Seq<char>, result: Result<(), CliError>) -> bool {
    exists|outcome: Result<ProcessOutput, CliError>|
        #[trigger] remote_branch_check_ok(repo_root, remote, branch, outcome, result)
}

/// The `new` preflight, for the answers of the branch check, the local-branch probe, the
/// target lookup and the writability check: a branch checked out in a listed worktree or
/// already present locally is refused; the first failing step's error is returned.
pub open spec fn new_plan_ok(
    repo_root: Seq<char>,
    managed_root: Seq<char>,
    branches: Seq<Option<String>>,
    branch: Seq<char>,
    base_branch: Seq<char>,
    validated: Result<(), CliError>,
    exists: Result<bool, CliError>,
    target: Result<String, CliError>,
    writable: Result<(), CliError>,
    result: Result<NewPlan, CliError>,
) -> bool {
    branch_validation(repo_root, branch, validated) && match validated {
        Err(e) => result == Err::<NewPlan, CliError>(e),
        Ok(_) => if has_worktree(branches, branch) {
            result matches Err(e) && is_branch_error(
                e,
                ErrorCode::BranchAlreadyAttached,
                "branch is already attached to a worktree: "@,
                branch,
            )
        } else {
            branch_probe(repo_root, branch, exists) && match exists {
                Err(e) => result == Err::<NewPlan, CliError>(e),
                Ok(true) => result matches Err(e) && is_branch_error(
                    e,
                    ErrorCode::BranchAlreadyExists,
                    "branch already exists locally: "@,
                    branch,
                ),
                Ok(false) => target_resolution(managed_root, branch, target) && match target {
                    Err(e) => result == Err::<NewPlan, CliError>(e),
                    Ok(t) => match writable {
                        Err(e) => result == Err::<NewPlan, CliError>(e),
                        Ok(_) => result matches Ok(plan) && plan.repo_root@ == repo_root
                            && plan.managed_worktree_root@ == managed_root && plan.branch@ == branch
                            && plan.target_path@ == t@ && plan.base_branch@ == base_branch,
                    },
                },
            }
        },
    }
}

/// Plans `new`: the branch must be a valid name, checked out nowhere and absent locally, and
/// its target inside the managed root must be writable.
pub fn prepare_new<G: CreateMutationGit, F: TargetFilesystem>(
    git: &G,
    fs: &F,
    repo_root: &str,
    managed_worktree_root: &str,
    branches: &[Option<String>],
    branch: &str,
    base_branch: &str,
) -> (result: Result<NewPlan, CliError>)
    ensures
        result matches Ok(plan) ==> plan.target_path@ == join_path_spec(managed_worktree_root@, branch@),
        result is Ok ==> local_branch_reported(git, repo_root@, branch@, false),
        exists|
            validated: Result<(), CliError>,
            exists: Result<bool, CliError>,
            target: Result<String, CliError>,
            writable: Result<(), CliError>,
        |
            #[trigger] new_plan_ok(repo_root@, managed_worktree_root@, branches@, branch@, base_branch@, validated, exists, target, writable, result)
                && new_answers_reported(git, fs, repo_root@, managed_worktree_root@, branches@, branch@, validated, exists, target, writable),
        exists|
            validated: Result<(), CliError>,
            exists: Result<bool, CliError>,
            target: Result<String, CliError>,
            writable: Result<(), CliError>,
        |
            #[trigger] new_plan_ok(
                repo_root@,
                managed_worktree_root@,
                branches@,
                branch@,
                base_branch@,
                validated,
                exists,
                target,
                writable,
                result,
            ),
{
    let ghost unused_probe: Result<bool, CliError> = arbitrary();
    let ghost unused_target: Result<String, CliError> = arbitrary();
    let ghost unused_check: Result<(), CliError> = arbitrary();
    let validated = validate_branch(git, repo_root, branch);
    let ghost v = validated;
    if let Err(error) = validated {
        let result: Result<NewPlan, CliError> = Err(error);
        assert(new_plan_ok(repo_root@, managed_worktree_root@, branches@, branch@, base_branch@, v, unused_probe, unused_target, unused_check, result));
        assert(new_answers_reported(git, fs, repo_root@, managed_worktree_root@, branches@, branch@, v, unused_probe, unused_target, unused_check));
        return result;
    }
    if branch_listed(branches, branch) {
        let result: Result<NewPlan, CliError> = Err(branch_already_attached(branch));
        assert(new_plan_ok(repo_root@, managed_worktree_root@, branches@, branch@, base_branch@, v, unused_probe, unused_target, unused_check, result));
        assert(new_answers_reported(git, fs, repo_root@, managed_worktree_root@, branches@, branch@, v, unused_probe, unused_target, unused_check));
        return result;
    }
    let exists = local_branch_exists(git, repo_root, branch);
    let ghost x = exists;
    let absent = match exists {
        Ok(found) => !found,
        Err(error) => {
            let result: Result<NewPlan, CliError> = Err(error);
            assert(new_plan_ok(repo_root@, managed_worktree_root@, branches@, branch@, base_branch@, v, x, unused_target, unused_check, result));
            assert(new_answers_reported(git, fs, repo_root@, managed_worktree_root@, branches@, branch@, v, x, unused_target, unused_check));
            return result;
        },
    };
    if !absent {
        let result: Result<NewPlan, CliError> = Err(branch_already_exists(branch));
        assert(new_plan_ok(repo_root@, managed_worktree_root@, branches@, branch@, base_branch@, v, x, unused_target, unused_check, result));
        assert(new_answers_reported(git, fs, repo_root@, managed_worktree_root@, branches@, branch@, v, x, unused_target, unused_check));
        return result;
    }
    let target = resolve_target(fs, managed_worktree_root, branch);
    let ghost t = target;
    let target_path = match target {
        Ok(path) => path,
        Err(error) => {
            let result: Result<NewPlan, CliError> = Err(error);
            assert(new_plan_ok(repo_root@, managed_worktree_root@, branches@, branch@, base_branch@, v, x, t, unused_check, result));
            assert(new_answers_reported(git, fs, repo_root@, managed_worktree_root@, branches@, branch@, v, x, t, unused_check));
            return result;
        },
    };
    let writable = fs.ensure_target_writable(target_path.as_str());
    let ghost w = writable;
    if let Err(error) = writable {
        let result: Result<NewPlan, CliError> = Err(error);
        assert(new_plan_ok(repo_root@, managed_worktree_root@, branches@, branch@, base_branch@, v, x, t, w, result));
        assert(new_answers_reported(git, fs, repo_root@, managed_worktree_root@, branches@, branch@, v, x, t, w));
        return result;
    }
    let result: Result<NewPlan, CliError> = Ok(NewPlan {
        repo_root: repo_root.to_owned(),
        managed_worktree_root: managed_worktree_root.to_owned(),
        branch: branch.to_owned(),
        target_path,
        base_branch: base_branch.to_owned(),
    });
    assert(new_plan_ok(repo_root@, managed_worktree_root@, branches@, branch@, base_branch@, v, x, t, w, result));
    assert(new_answers_reported(git, fs, repo_root@, managed_worktree_root@, branches@, branch@, v, x, t, w));
    result
}

/// The answers behind a `new` preflight are answers Git and the file system may give: the
/// branch-name check, then (for a branch not listed in a worktree) the local-branch probe,
/// then the target's containment and its writability, each asked only after the ones before
/// allowed it.
pub open spec fn new_answers_reported<G: CreateMutationGit, F: TargetFilesystem>(
    git: &G,
    fs: &F,
    repo_root: Seq<char>,
    managed_root: Seq<char>,
    branches: Seq<Option<String>>,
    branch: Seq<char>,
    validated: Result<(), CliError>,
    exists: Result<bool, CliError>,
    target: Result<String, CliError>,
    writable: Result<(), CliError>,
) -> bool {
    let probed = validated is Ok && !has_worktree(branches, branch);
    &&& branch_check_reported(git, repo_root, branch, validated)
    &&& (probed ==> probe_reported(git, repo_root, show_ref_args(branch), exists))
    &&& (probed && exists == Ok::<bool, CliError>(false) ==> target_reported(fs, managed_root, branch, target))
    &&& (probed && exists == Ok::<bool, CliError>(false) && target is Ok ==> fs.writable_answer(target->Ok_0@, writable))
}

/// The answers behind a `switch` preflight are answers Git, the snapshot and the file system
/// may give, each asked only after the ones before allowed it.
pub open spec fn switch_answers_reported<G: CreateMutationGit, F: TargetFilesystem, L: WorktreeLookup>(
    git: &G,
    fs: &F,
    worktrees: &L,
    repo_root: Seq<char>,
    managed_root: Seq<char>,
    branch: Seq<char>,
    validated: Result<(), CliError>,
    existing: Result<Option<String>, CliError>,
    target: Result<String, CliError>,
    writable: Result<(), CliError>,
    exists: Result<bool, CliError>,
) -> bool {
    let unlisted = validated is Ok && existing == Ok::<Option<String>, CliError>(None);
    &&& branch_check_reported(git, repo_root, branch, validated)
    &&& (validated is Ok ==> worktrees.lookup_answer(branch, existing))
    &&& (unlisted ==> target_reported(fs, managed_root, branch, target))
    &&& (unlisted && target is Ok ==> fs.writable_answer(target->Ok_0@, writable))
    &&& (unlisted && target is Ok && writable is Ok ==> probe_reported(git, repo_root, show_ref_args(branch), exists))
}

/// The answers behind a `get` preflight are answers Git, the snapshot and the file system may
/// give, each asked only after the ones before allowed it.
pub open spec fn get_answers_reported<G: CreateMutationGit, F: TargetFilesystem, L: WorktreeLookup>(
    git: &G,
    fs: &F,
    worktrees: &L,
    repo_root: Seq<char>,
    managed_root: Seq<char>,
    remote: Seq<char>,
    branch: Seq<char>,
    validated: Result<(), CliError>,
    remote_checked: Result<(), CliError>,
    remote_branch_checked: Result<(), CliError>,
    existing: Result<Option<String>, CliError>,
    target: Result<String, CliError>,
    writable: Result<(), CliError>,
    exists: Result<bool, CliError>,
) -> bool {
    let on_remote = validated is Ok && remote_checked is Ok && remote_branch_checked is Ok;
    let unlisted = on_remote && existing == Ok::<Option<String>, CliError>(None);
    &&& branch_check_reported(git, repo_root, branch, validated)
    &&& (validated is Ok ==> remote_reported(git, repo_root, remote, remote_checked))
    &&& (validated is Ok && remote_checked is Ok ==> remote_branch_reported(git, repo_root, remote, branch, remote_branch_checked))
    &&& (on_remote ==> worktrees.lookup_answer(branch, existing))
    &&& (unlisted ==> target_reported(fs, managed_root, branch, target))
    &&& (unlisted && target is Ok ==> fs.writable_answer(target->Ok_0@, writable))
    &&& (unlisted && target is Ok && writable is Ok ==> probe_reported(git, repo_root, show_ref_args(branch), exists))
}

/// `git` may report `branch` as present in `repo_root` exactly as `present` says, asked with
/// `git show-ref --verify --quiet refs/heads/<branch>`.
pub open spec fn local_branch_reported<G: CreateMutationGit>(git: &G, repo_root: Seq<char>, branch: Seq<char>, present: bool) -> bool {
    probe_reported(git, repo_root, show_ref_args(branch), Ok::<bool, CliError>(present))
}

/// A planned worktree attaches an existing local branch exactly when `git` reports the branch
/// as present, and creates it otherwise.
pub open spec fn creation_mode_reported<G: CreateMutationGit>(git: &G, repo_root: Seq<char>, branch: Seq<char>, mode: BranchCreationMode) -> bool {
    local_branch_reported(git, repo_root, branch, mode == BranchCreationMode::ExistingLocalBranch)
}

/// A probe of the local branch reads a clean exit 0 as present and exit 1 as absent: where
/// every answer Git may give is one of these, the reading is fixed.
pub proof fn law_local_branch_reading_follows_git<G: CreateMutationGit>(git: &G, repo_root: Seq<char>, branch: Seq<char>, present: bool)
    requires
        local_branch_reported(git, repo_root, branch, present),
    ensures
        answers_only_status(git, repo_root, show_ref_args(branch), 0) ==> present,
        answers_only_status(git, repo_root, show_ref_args(branch), 1) ==> !present,
{
    let args = show_ref_args(branch);
    let o = choose|o: Result<ProcessOutput, CliError>| #[trigger] git.answers(repo_root, args, o)
        && probe_ok(repo_root, args, o, Ok::<bool, CliError>(present));
    assert(git.answers(repo_root, args, o));
}

/// `get` and `switch` plan a new worktree on the existing local branch when Git can only
/// report that branch present (`show-ref` exits 0), and create the branch when Git can only
/// report it absent (`show-ref` exits 1).
pub proof fn law_planned_creation_mode_follows_git<G: CreateMutationGit>(git: &G, repo_root: Seq<char>, branch: Seq<char>, mode: BranchCreationMode)
    requires
        creation_mode_reported(git, repo_root, branch, mode),
    ensures
        answers_only_status(git, repo_root, show_ref_args(branch), 0) ==> mode == BranchCreationMode::ExistingLocalBranch,
        answers_only_status(git, repo_root, show_ref_args(branch), 1) ==> mode == BranchCreationMode::NewBranch,
{
    law_local_branch_reading_follows_git(git, repo_root, branch, mode == BranchCreationMode::ExistingLocalBranch);
}

/// A `get` that plans a new worktree attaches the existing local branch when Git can only
/// report that branch present (`show-ref --verify --quiet refs/heads/<branch>` exits 0), and
/// creates a tracking branch when Git can only report it absent (exit 1); `result` is what
/// `prepare_get` answered against `git` in `repo_root`.
pub proof fn law_get_attaches_an_existing_local_branch<G: CreateMutationGit>(git: &G, repo_root: Seq<char>, result: Result<GetPlan, CliError>)
    requires
        result matches Ok(GetPlan::Create { branch, mode, .. }) ==> creation_mode_reported(git, repo_root, branch@, mode),
    ensures
        result matches Ok(GetPlan::Create { branch, mode, .. }) ==> (answers_only_status(git, repo_root, show_ref_args(branch@), 0)
            ==> mode == BranchCreationMode::ExistingLocalBranch),
        result matches Ok(GetPlan::Create { branch, mode, .. }) ==> (answers_only_status(git, repo_root, show_ref_args(branch@), 1)
            ==> mode == BranchCreationMode::NewBranch),
{
    if let Ok(GetPlan::Create { branch, mode, .. }) = result {
        law_planned_creation_mode_follows_git(git, repo_root, branch@, mode);
    }
}

/// The same for `switch`: a planned creation reuses the local branch Git can only report
/// present, and creates the one Git can only report absent.
pub proof fn law_switch_attaches_an_existing_local_branch<G: CreateMutationGit>(git: &G, repo_root: Seq<char>, result: Result<SwitchPlan, CliError>)
    requires
        result matches Ok(SwitchPlan::Create { branch, mode, .. }) ==> creation_mode_reported(git, repo_root, branch@, mode),
    ensures
        result matches Ok(SwitchPlan::Create { branch, mode, .. }) ==> (answers_only_status(git, repo_root, show_ref_args(branch@), 0)
            ==> mode == BranchCreationMode::ExistingLocalBranch),
        result matches Ok(SwitchPlan::Create { branch, mode, .. }) ==> (answers_only_status(git, repo_root, show_ref_args(branch@), 1)
            ==> mode == BranchCreationMode::NewBranch),
{
    if let Ok(SwitchPlan::Create { branch, mode, .. }) = result {
        law_planned_creation_mode_follows_git(git, repo_root, branch@, mode);
    }
}

/// `new` plans a worktree only for a branch Git reports absent, so never for one that Git can
/// only report present (`show-ref` exits 0).
pub proof fn law_new_plans_only_absent_branches<G: CreateMutationGit>(git: &G, repo_root: Seq<char>, branch: Seq<char>, result: Result<NewPlan, CliError>)
    requires
        result is Ok ==> local_branch_reported(git, repo_root, branch, false),
    ensures
        answers_only_status(git, repo_root, show_ref_args(branch), 0) ==> result is Err,
{
    if result is Ok {
        law_local_branch_reading_follows_git(git, repo_root, branch, false);
    }
}

/// The mode a new worktree's branch is attached in: an existing local branch is checked out,
/// otherwise the branch is created from the base.
pub open spec fn mode_for(exists: bool) -> BranchCreationMode {
    if exists {
        BranchCreationMode::ExistingLocalBranch
    } else {
        BranchCreationMode::NewBranch
    }
}

/// The `switch` preflight, for the answers of the branch check, the snapshot lookup, the
/// target lookup, the writability check and the local-branch probe: a branch already checked
/// out is switched to where it is; otherwise a worktree is planned at its target, for the
/// existing local branch or a new one.
pub open spec fn switch_plan_ok(
    repo_root: Seq<char>,
    managed_root: Seq<char>,
    branch: Seq<char>,
    base_branch: Seq<char>,
    validated: Result<(), CliError>,
    existing: Result<Option<String>, CliError>,
    target: Result<String, CliError>,
    writable: Result<(), CliError>,
    exists: Result<bool, CliError>,
    result: Result<SwitchPlan, CliError>,
) -> bool {
    branch_validation(repo_root, branch, validated) && match validated {
        Err(e) => result == Err::<SwitchPlan, CliError>(e),
        Ok(_) => match existing {
            Err(e) => result == Err::<SwitchPlan, CliError>(e),
            Ok(Some(path)) => result matches Ok(SwitchPlan::Existing { repo_root: r, branch: b, path: p, base_branch: bb })
                && r@ == repo_root && b@ == branch && p@ == path@ && bb@ == base_branch,
            Ok(None) => target_resolution(managed_root, branch, target) && match target {
                Err(e) => result == Err::<SwitchPlan, CliError>(e),
                Ok(t) => match writable {
                    Err(e) => result == Err::<SwitchPlan, CliError>(e),
                    Ok(_) => branch_probe(repo_root, branch, exists) && match exists {
                        Err(e) => result == Err::<SwitchPlan, CliError>(e),
                        Ok(found) => result matches Ok(
                            SwitchPlan::Create { repo_root: r, managed_worktree_root: m, branch: b, target_path: tp, base_branch: bb, mode },
                        ) && r@ == repo_root && m@ == managed_root && b@ == branch && tp@ == t@ && bb@ == base_branch
                            && mode == mode_for(found),
                    },
                },
            },
        },
    }
}

/// Plans `switch`: the branch must be a valid name; where a listed worktree has it, that
/// worktree is used, otherwise its writable target inside the managed root.
pub fn prepare_switch<G: CreateMutationGit, F: TargetFilesystem, L: WorktreeLookup>(
    git: &G,
    fs: &F,
    worktrees: &L,
    repo_root: &str,
    managed_worktree_root: &str,
    branch: &str,
    base_branch: &str,
) -> (result: Result<SwitchPlan, CliError>)
    ensures
        result matches Ok(SwitchPlan::Create { target_path, .. }) ==> target_path@ == join_path_spec(managed_worktree_root@, branch@),
        result matches Ok(SwitchPlan::Create { branch: b, mode, .. }) ==> creation_mode_reported(git, repo_root@, b@, mode),
        exists|
            validated: Result<(), CliError>,
            existing: Result<Option<String>, CliError>,
            target: Result<String, CliError>,
            writable: Result<(), CliError>,
            exists: Result<bool, CliError>,
        |
            #[trigger] switch_plan_ok(repo_root@, managed_worktree_root@, branch@, base_branch@, validated, existing, target, writable, exists, result)
                && switch_answers_reported(git, fs, worktrees, repo_root@, managed_worktree_root@, branch@, validated, existing, target, writable, exists),
        exists|
            validated: Result<(), CliError>,
            existing: Result<Option<String>, CliError>,
            target: Result<String, CliError>,
            writable: Result<(), CliError>,
            exists: Result<bool, CliError>,
        |
            #[trigger] switch_plan_ok(
                repo_root@,
                managed_worktree_root@,
                branch@,
                base_branch@,
                validated,
                existing,
                target,
                writable,
                exists,
                result,
            ),
{
    let ghost unused_lookup: Result<Option<String>, CliError> = arbitrary();
    let ghost unused_target: Result<String, CliError> = arbitrary();
    let ghost unused_check: Result<(), CliError> = arbitrary();
    let ghost unused_probe: Result<bool, CliError> = arbitrary();
    let validated = validate_branch(git, repo_root, branch);
    let ghost v = validated;
    if let Err(error) = validated {
        let result: Result<SwitchPlan, CliError> = Err(error);
        assert(switch_plan_ok(repo_root@, managed_worktree_root@, branch@, base_branch@, v, unused_lookup, unused_target, unused_check, unused_probe, result));
        assert(switch_answers_reported(git, fs, worktrees, repo_root@, managed_worktree_root@, branch@, v, unused_lookup, unused_target, unused_check, unused_probe));
        return result;
    }
    let existing = worktrees.optional_branch(branch);
    let ghost l = existing;
    match existing {
        Err(error) => {
            let result: Result<SwitchPlan, CliError> = Err(error);
            assert(switch_plan_ok(repo_root@, managed_worktree_root@, branch@, base_branch@, v, l, unused_target, unused_check, unused_probe, result));
            assert(switch_answers_reported(git, fs, worktrees, repo_root@, managed_worktree_root@, branch@, v, l, unused_target, unused_check, unused_probe));
            return result;
        },
        Ok(Some(path)) => {
            let result: Result<SwitchPlan, CliError> = Ok(SwitchPlan::Existing {
                repo_root: repo_root.to_owned(),
                branch: branch.to_owned(),
                path,
                base_branch: base_branch.to_owned(),
            });
            assert(switch_plan_ok(repo_root@, managed_worktree_root@, branch@, base_branch@, v, l, unused_target, unused_check, unused_probe, result));
            assert(switch_answers_reported(git, fs, worktrees, repo_root@, managed_worktree_root@, branch@, v, l, unused_target, unused_check, unused_probe));
            return result;
        },
        Ok(None) => {},
    }
    let target = resolve_target(fs, managed_worktree_root, branch);
    let ghost t = target;
    let target_path = match target {
        Ok(path) => path,
        Err(error) => {
            let result: Result<SwitchPlan, CliError> = Err(error);
            assert(switch_plan_ok(repo_root@, managed_worktree_root@, branch@, base_branch@, v, l, t, unused_check, unused_probe, result));
            assert(switch_answers_reported(git, fs, worktrees, repo_root@, managed_worktree_root@, branch@, v, l, t, unused_check, unused_probe));
            return result;
        },
    };
    let writable = fs.ensure_target_writable(target_path.as_str());
    let ghost w = writable;
    if let Err(error) = writable {
        let result: Result<SwitchPlan, CliError> = Err(error);
        assert(switch_plan_ok(repo_root@, managed_worktree_root@, branch@, base_branch@, v, l, t, w, unused_probe, result));
        assert(switch_answers_reported(git, fs, worktrees, repo_root@, managed_worktree_root@, branch@, v, l, t, w, unused_probe));
        return result;
    }
    let exists = local_branch_exists(git, repo_root, branch);
    let ghost x = exists;
    let mode = match exists {
        Ok(true) => BranchCreationMode::ExistingLocalBranch,
        Ok(false) => BranchCreationMode::NewBranch,
        Err(error) => {
            let result: Result<SwitchPlan, CliError> = Err(error);
            assert(switch_plan_ok(repo_root@, managed_worktree_root@, branch@, base_branch@, v, l, t, w, x, result));
            assert(switch_answers_reported(git, fs, worktrees, repo_root@, managed_worktree_root@, branch@, v, l, t, w, x));
            return result;
        },
    };
    let result: Result<SwitchPlan, CliError> = Ok(SwitchPlan::Create {
        repo_root: repo_root.to_owned(),
        managed_worktree_root: managed_worktree_root.to_owned(),
        branch: branch.to_owned(),
        target_path,
        base_branch: base_branch.to_owned(),
        mode,
    });
    assert(switch_plan_ok(repo_root@, managed_worktree_root@, branch@, base_branch@, v, l, t, w, x, result));
    assert(switch_answers_reported(git, fs, worktrees, repo_root@, managed_worktree_root@, branch@, v, l, t, w, x));
    result
}

/// The `get` preflight after `<remote>/<branch>` was split, for the answers of the branch
/// check, the remote and remote-branch checks, the snapshot lookup, the target lookup, the
/// writability check and the local-branch probe.
pub open spec fn get_plan_ok(
    repo_root: Seq<char>,
    managed_root: Seq<char>,
    remote: Seq<char>,
    branch: Seq<char>,
    base_branch: Seq<char>,
    validated: Result<(), CliError>,
    remote_checked: Result<(), CliError>,
    remote_branch_checked: Result<(), CliError>,
    existing: Result<Option<String>, CliError>,
    target: Result<String, CliError>,
    writable: Result<(), CliError>,
    exists: Result<bool, CliError>,
    result: Result<GetPlan, CliError>,
) -> bool {
    branch_validation(repo_root, branch, validated) && match validated {
        Err(e) => result == Err::<GetPlan, CliError>(e),
        Ok(_) => remote_validation(repo_root, remote, remote_checked) && match remote_checked {
            Err(e) => result == Err::<GetPlan, CliError>(e),
            Ok(_) => remote_branch_validation(repo_root, remote, branch, remote_branch_checked) && match remote_branch_checked {
                Err(e) => result == Err::<GetPlan, CliError>(e),
                Ok(_) => match existing {
                    Err(e) => result == Err::<GetPlan, CliError>(e),
                    Ok(Some(path)) => result matches Ok(
                        GetPlan::Existing { repo_root: r, remote: rm, branch: b, path: p, base_branch: bb },
                    ) && r@ == repo_root && rm@ == remote && b@ == branch && p@ == path@ && bb@ == base_branch,
                    Ok(None) => target_resolution(managed_root, branch, target) && match target {
                        Err(e) => result == Err::<GetPlan, CliError>(e),
                        Ok(t) => match writable {
                            Err(e) => result == Err::<GetPlan, CliError>(e),
                            Ok(_) => branch_probe(repo_root, branch, exists) && match exists {
                                Err(e) => result == Err::<GetPlan, CliError>(e),
                                Ok(found) => result matches Ok(
                                    GetPlan::Create {
                                        repo_root: r,
                                        managed_worktree_root: m,
                                        remote: rm,
                                        branch: b,
                                        target_path: tp,
                                        base_branch: bb,
                                        mode,
                                    },
                                ) && r@ == repo_root && m@ == managed_root && rm@ == remote && b@ == branch && tp@ == t@
                                    && bb@ == base_branch && mode == mode_for(found),
                            },
                        },
                    },
                },
            },
        },
    }
}

/// Plans `get`: `<remote>/<branch>` must split into a remote and a valid branch name that the
/// remote has; then, as for `switch`, a listed worktree of the branch is used or a writable
/// target inside the managed root is planned.
pub fn prepare_get<G: CreateMutationGit, F: TargetFilesystem, L: WorktreeLookup>(
    git: &G,
    fs: &F,
    worktrees: &L,
    repo_root: &str,
    managed_worktree_root: &str,
    remote_branch: &str,
    base_branch: &str,
) -> (result: Result<GetPlan, CliError>)
    ensures
        result matches Ok(GetPlan::Create { branch, target_path, .. }) ==> target_path@ == join_path_spec(managed_worktree_root@, branch@),
        result matches Ok(GetPlan::Create { branch, mode, .. }) ==> creation_mode_reported(git, repo_root@, branch@, mode),
        match remote_branch_spec(remote_branch@) {
            None => true,
            Some((remote, branch)) => exists|
                validated: Result<(), CliError>,
                remote_checked: Result<(), CliError>,
                remote_branch_checked: Result<(), CliError>,
                existing: Result<Option<String>, CliError>,
                target: Result<String, CliError>,
                writable: Result<(), CliError>,
                exists: Result<bool, CliError>,
            |
                #[trigger] get_plan_ok(repo_root@, managed_worktree_root@, remote, branch, base_branch@, validated, remote_checked,
                    remote_branch_checked, existing, target, writable, exists, result)
                    && get_answers_reported(git, fs, worktrees, repo_root@, managed_worktree_root@, remote, branch, validated,
                    remote_checked, remote_branch_checked, existing, target, writable, exists),
        },
        match remote_branch_spec(remote_branch@) {
            None => result matches Err(e) && e.code == ErrorCode::InvalidRemoteBranchFormat && e.message@
                == "invalid remote branch format: "@ + remote_branch@,
            Some((remote, branch)) => exists|
                validated: Result<(), CliError>,
                remote_checked: Result<(), CliError>,
                remote_branch_checked: Result<(), CliError>,
                existing: Result<Option<String>, CliError>,
                target: Result<String, CliError>,
                writable: Result<(), CliError>,
                exists: Result<bool, CliError>,
            |
                #[trigger] get_plan_ok(
                    repo_root@,
                    managed_worktree_root@,
                    remote,
                    branch,
                    base_branch@,
                    validated,
                    remote_checked,
                    remote_branch_checked,
                    existing,
                    target,
                    writable,
                    exists,
                    result,
                ),
        },
{
    let (remote, branch) = match parse_remote_branch(remote_branch) {
        Ok(parts) => parts,
        Err(error) => {
            return Err(error);
        },
    };
    let ghost rm = remote@;
    let ghost b = branch@;
    let ghost unused_check: Result<(), CliError> = arbitrary();
    let ghost unused_lookup: Result<Option<String>, CliError> = arbitrary();
    let ghost unused_target: Result<String, CliError> = arbitrary();
    let ghost unused_probe: Result<bool, CliError> = arbitrary();
    let validated = validate_branch(git, repo_root, branch.as_str());
    let ghost v = validated;
    if let Err(error) = validated {
        let result: Result<GetPlan, CliError> = Err(error);
        assert(get_plan_ok(repo_root@, managed_worktree_root@, rm, b, base_branch@, v, unused_check, unused_check, unused_lookup, unused_target, unused_check, unused_probe, result));
        assert(get_answers_reported(git, fs, worktrees, repo_root@, managed_worktree_root@, rm, b, v, unused_check, unused_check, unused_lookup, unused_target, unused_check, unused_probe));
        return result;
    }
    let remote_checked = validate_remote_exists(git, repo_root, remote.as_str());
    let ghost rc = remote_checked;
    if let Err(error) = remote_checked {
        let result: Result<GetPlan, CliError> = Err(error);
        assert(get_plan_ok(repo_root@, managed_worktree_root@, rm, b, base_branch@, v, rc, unused_check, unused_lookup, unused_target, unused_check, unused_probe, result));
        assert(get_answers_reported(git, fs, worktrees, repo_root@, managed_worktree_root@, rm, b, v, rc, unused_check, unused_lookup, unused_target, unused_check, unused_probe));
        return result;
    }
    let remote_branch_checked = validate_remote_branch_exists(git, repo_root, remote.as_str(), branch.as_str());
    let ghost rbc = remote_branch_checked;
    if let Err(error) = remote_branch_checked {
        let result: Result<GetPlan, CliError> = Err(error);
        assert(get_plan_ok(repo_root@, managed_worktree_root@, rm, b, base_branch@, v, rc, rbc, unused_lookup, unused_target, unused_check, unused_probe, result));
        assert(get_answers_reported(git, fs, worktrees, repo_root@, managed_worktree_root@, rm, b, v, rc, rbc, unused_lookup, unused_target, unused_check, unused_probe));
        return result;
    }
    let existing = worktrees.optional_branch(branch.as_str());
    let ghost l = existing;
    match existing {
        Err(error) => {
            let result: Result<GetPlan, CliError> = Err(error);
            assert(get_plan_ok(repo_root@, managed_worktree_root@, rm, b, base_branch@, v, rc, rbc, l, unused_target, unused_check, unused_probe, result));
            assert(get_answers_reported(git, fs, worktrees, repo_root@, managed_worktree_root@, rm, b, v, rc, rbc, l, unused_target, unused_check, unused_probe));
            return result;
        },
        Ok(Some(path)) => {
            let result: Result<GetPlan, CliError> = Ok(GetPlan::Existing {
                repo_root: repo_root.to_owned(),
                remote,
                branch,
                path,
                base_branch: base_branch.to_owned(),
            });
            assert(get_plan_ok(repo_root@, managed_worktree_root@, rm, b, base_branch@, v, rc, rbc, l, unused_target, unused_check, unused_probe, result));
            assert(get_answers_reported(git, fs, worktrees, repo_root@, managed_worktree_root@, rm, b, v, rc, rbc, l, unused_target, unused_check, unused_probe));
            return result;
        },
        Ok(None) => {},
    }
    let target = resolve_target(fs, managed_worktree_root, branch.as_str());
    let ghost t = target;
    let target_path = match target {
        Ok(path) => path,
        Err(error) => {
            let result: Result<GetPlan, CliError> = Err(error);
            assert(get_plan_ok(repo_root@, managed_worktree_root@, rm, b, base_branch@, v, rc, rbc, l, t, unused_check, unused_probe, result));
            assert(get_answers_reported(git, fs, worktrees, repo_root@, managed_worktree_root@, rm, b, v, rc, rbc, l, t, unused_check, unused_probe));
            return result;
        },
    };
    let writable = fs.ensure_target_writable(target_path.as_str());
    let ghost w = writable;
    if let Err(error) = writable {
        let result: Result<GetPlan, CliError> = Err(error);
        assert(get_plan_ok(repo_root@, managed_worktree_root@, rm, b, base_branch@, v, rc, rbc, l, t, w, unused_probe, result));
        assert(get_answers_reported(git, fs, worktrees, repo_root@, managed_worktree_root@, rm, b, v, rc, rbc, l, t, w, unused_probe));
        return result;
    }
    let exists = local_branch_exists(git, repo_root, branch.as_str());
    let ghost x = exists;
    let mode = match exists {
        Ok(true) => BranchCreationMode::ExistingLocalBranch,
        Ok(false) => BranchCreationMode::NewBranch,
        Err(error) => {
            let result: Result<GetPlan, CliError> = Err(error);
            assert(get_plan_ok(repo_root@, managed_worktree_root@, rm, b, base_branch@, v, rc, rbc, l, t, w, x, result));
            assert(get_answers_reported(git, fs, worktrees, repo_root@, managed_worktree_root@, rm, b, v, rc, rbc, l, t, w, x));
            return result;
        },
    };
    let result: Result<GetPlan, CliError> = Ok(GetPlan::Create {
        repo_root: repo_root.to_owned(),
        managed_worktree_root: managed_worktree_root.to_owned(),
        remote,
        branch,
        target_path,
        base_branch: base_branch.to_owned(),
        mode,
    });
    assert(get_plan_ok(repo_root@, managed_worktree_root@, rm, b, base_branch@, v, rc, rbc, l, t, w, x, result));
    assert(get_answers_reported(git, fs, worktrees, repo_root@, managed_worktree_root@, rm, b, v, rc, rbc, l, t, w, x));
    result
}

// ----- revalidation just before the Git step -----

/// What `git worktree list` may tell about where a branch is checked out.
pub open spec fn attachment_answered(branch: Seq<char>, result: Result<Option<String>, CliError>) -> bool {
    exists|outcome: Result<ProcessOutput, CliError>| #[trigger] attachment_ok(branch, outcome, result)
}

/// What `revalidate_new_branch` may answer.
pub open spec fn new_branch_revalidation(repo_root: Seq<char>, branch: Seq<char>, result: Result<(), CliError>) -> bool {
    exists|listed: Result<ProcessOutput, CliError>, probed: Result<ProcessOutput, CliError>|
        #[trigger] new_branch_ok(repo_root, branch, listed, probed, result)
}

/// A branch still fits the planned mode when it is checked out nowhere and its local
/// existence matches the mode.
pub open spec fn branch_mode_check_ok(
    repo_root: Seq<char>,
    branch: Seq<char>,
    mode: BranchCreationMode,
    attached: Result<Option<String>, CliError>,
    exists: Result<bool, CliError>,
    result: Result<(), CliError>,
) -> bool {
    attachment_answered(branch, attached) && match attached {
        Err(e) => result == Err::<(), CliError>(e),
        Ok(Some(_)) => result matches Err(e) && is_branch_error(
            e,
            ErrorCode::BranchAlreadyAttached,
            "branch is already attached to a worktree: "@,
            branch,
        ),
        Ok(None) => branch_probe(repo_root, branch, exists) && match exists {
            Err(e) => result == Err::<(), CliError>(e),
            Ok(found) => branch_mode_ok(mode, found, branch, result),
        },
    }
}

pub open spec fn branch_mode_revalidation(repo_root: Seq<char>, branch: Seq<char>, mode: BranchCreationMode, result: Result<(), CliError>) -> bool {
    exists|attached: Result<Option<String>, CliError>, exists: Result<bool, CliError>|
        #[trigger] branch_mode_check_ok(repo_root, branch, mode, attached, exists, result)
}

/// The answers behind a mode revalidation are answers `git` may give: the checked worktree
/// listing and, for a branch attached nowhere, the local-branch probe.
pub open spec fn mode_answers_reported<G: CreateMutationGit>(
    git: &G,
    repo_root: Seq<char>,
    branch: Seq<char>,
    attached: Result<Option<String>, CliError>,
    exists: Result<bool, CliError>,
) -> bool {
    &&& attachment_reported(git, repo_root, branch, attached)
    &&& (attached == Ok::<Option<String>, CliError>(None) ==> probe_reported(git, repo_root, show_ref_args(branch), exists))
}

/// `result` is what the mode revalidation makes of answers `git` may give.
pub open spec fn mode_revalidation_reported<G: CreateMutationGit>(git: &G, repo_root: Seq<char>, branch: Seq<char>, mode: BranchCreationMode, result: Result<(), CliError>) -> bool {
    exists|attached: Result<Option<String>, CliError>, exists: Result<bool, CliError>|
        #[trigger] branch_mode_check_ok(repo_root, branch, mode, attached, exists, result)
            && mode_answers_reported(git, repo_root, branch, attached, exists)
}

/// Checks again, just before the Git step, that the branch is checked out nowhere and still
/// fits the planned mode.
pub fn revalidate_branch_mode<G: CreateMutationGit>(git: &G, repo_root: &str, branch: &str, mode: BranchCreationMode) -> (result: Result<(), CliError>)
    ensures
        branch_mode_revalidation(repo_root@, branch@, mode, result),
        result is Ok ==> creation_mode_reported(git, repo_root@, branch@, mode),
        mode_revalidation_reported(git, repo_root@, branch@, mode, result),
{
    let ghost unused_probe: Result<bool, CliError> = arbitrary();
    let attached = attached_worktree_path(git, repo_root, branch);
    let ghost a = attached;
    match attached {
        Err(error) => {
            let result: Result<(), CliError> = Err(error);
            assert(branch_mode_check_ok(repo_root@, branch@, mode, a, unused_probe, result));
            assert(mode_answers_reported(git, repo_root@, branch@, a, unused_probe));
            return result;
        },
        Ok(Some(_)) => {
            let result: Result<(), CliError> = Err(branch_already_attached(branch));
            assert(branch_mode_check_ok(repo_root@, branch@, mode, a, unused_probe, result));
            assert(mode_answers_reported(git, repo_root@, branch@, a, unused_probe));
            return result;
        },
        Ok(None) => {},
    }
    let exists = local_branch_exists(git, repo_root, branch);
    let ghost x = exists;
    let result = match exists {
        Err(error) => Err(error),
        Ok(found) => branch_mode_answer(mode, found, branch),
    };
    assert(branch_mode_check_ok(repo_root@, branch@, mode, a, x, result));
    assert(mode_answers_reported(git, repo_root@, branch@, a, x));
    result
}

/// The error for a branch whose worktree moved after preflight.
pub open spec fn is_attachment_changed(error: CliError, branch: Seq<char>, expected: Seq<char>, actual: Seq<char>) -> bool {
    &&& error.code == ErrorCode::BranchInUse
    &&& error.message@ == "branch attachment changed after preflight: "@ + branch
    &&& error.execution is None
    &&& object_view(error.details@) == seq![
        ("actualPath"@, DetailView::Text(actual)),
        ("branch"@, DetailView::Text(branch)),
        ("expectedPath"@, DetailView::Text(expected)),
    ]
}

/// A branch is still where preflight found it when `git worktree list` shows it checked out
/// at the same location.
pub open spec fn existing_attachment_ok(
    branch: Seq<char>,
    expected: Seq<char>,
    attached: Result<Option<String>, CliError>,
    same: bool,
    result: Result<(), CliError>,
) -> bool {
    attachment_answered(branch, attached) && match attached {
        Err(e) => result == Err::<(), CliError>(e),
        Ok(Some(actual)) => if same {
            result is Ok
        } else {
            result matches Err(e) && is_attachment_changed(e, branch, expected, actual@)
        },
        Ok(None) => result matches Err(e) && e.code == ErrorCode::WorktreeNotFound && e.message@
            == "worktree disappeared after preflight: "@ + branch && e.execution is None && object_view(e.details@)
            == seq![("branch"@, DetailView::Text(branch))],
    }
}

pub open spec fn attachment_revalidation(branch: Seq<char>, expected: Seq<char>, result: Result<(), CliError>) -> bool {
    exists|attached: Result<Option<String>, CliError>, same: bool|
        #[trigger] existing_attachment_ok(branch, expected, attached, same, result)
}

fn text_entry(key: &str, value: &str) -> (entry: (String, DetailValue))
    ensures
        entry.0@ == key@,
        entry.1 == DetailValue::Text(entry.1->Text_0) && entry.1->Text_0@ == value@,
{
    (key.to_owned(), DetailValue::Text(value.to_owned()))
}

/// `result` is what the attachment revalidation makes of answers `git` and the file system
/// may give: the checked worktree listing and, for a listed worktree, whether it is at the
/// expected location.
pub open spec fn attachment_revalidation_reported<G: CreateMutationGit, F: TargetFilesystem>(
    git: &G,
    fs: &F,
    repo_root: Seq<char>,
    branch: Seq<char>,
    expected: Seq<char>,
    result: Result<(), CliError>,
) -> bool {
    exists|attached: Result<Option<String>, CliError>, same: bool|
        #[trigger] existing_attachment_ok(branch, expected, attached, same, result)
            && attachment_reported(git, repo_root, branch, attached)
            && (attached matches Ok(Some(actual)) ==> fs.same_location_answer(actual@, expected, same))
}

/// Checks again, just before the Git step, that the branch is checked out where preflight
/// found it.
pub fn revalidate_existing_attachment<G: CreateMutationGit, F: TargetFilesystem>(
    git: &G,
    fs: &F,
    repo_root: &str,
    branch: &str,
    expected_path: &str,
) -> (result: Result<(), CliError>)
    ensures
        attachment_revalidation(branch@, expected_path@, result),
        attachment_revalidation_reported(git, fs, repo_root@, branch@, expected_path@, result),
{
    let attached = attached_worktree_path(git, repo_root, branch);
    let ghost a = attached;
    match attached {
        Err(error) => {
            let result: Result<(), CliError> = Err(error);
            assert(existing_attachment_ok(branch@, expected_path@, a, false, result));
            assert(attachment_reported(git, repo_root@, branch@, a));
            result
        },
        Ok(Some(actual)) => {
            let same = fs.same_location(actual.as_str(), expected_path);
            if same {
                let result: Result<(), CliError> = Ok(());
                assert(existing_attachment_ok(branch@, expected_path@, a, true, result));
                assert(fs.same_location_answer(actual@, expected_path@, same));
                assert(attachment_reported(git, repo_root@, branch@, a));
                result
            } else {
                let mut message = String::from_str("branch attachment changed after preflight: ");
                message.append(branch);
                let mut details: Vec<(String, DetailValue)> = Vec::new();
                details.push(text_entry("actualPath", actual.as_str()));
                details.push(text_entry("branch", branch));
                details.push(text_entry("expectedPath", expected_path));
                proof {
                    crate::error::lemma_object_view_index(details@);
                    assert(object_view(details@) =~= seq![
                        ("actualPath"@, DetailView::Text(actual@)),
                        ("branch"@, DetailView::Text(branch@)),
                        ("expectedPath"@, DetailView::Text(expected_path@)),
                    ]);
                }
                let result: Result<(), CliError> = Err(
                    CliError { code: ErrorCode::BranchInUse, message, details, execution: None },
                );
                assert(existing_attachment_ok(branch@, expected_path@, a, false, result));
                assert(attachment_reported(git, repo_root@, branch@, a));
                result
            }
        },
        Ok(None) => {
            let mut message = String::from_str("worktree disappeared after preflight: ");
            message.append(branch);
            let mut details: Vec<(String, DetailValue)> = Vec::new();
            details.push(text_entry("branch", branch));
            proof {
                crate::error::lemma_object_view_index(details@);
                assert(object_view(details@) =~= seq![("branch"@, DetailView::Text(branch@))]);
            }
            let result: Result<(), CliError> = Err(
                CliError { code: ErrorCode::WorktreeNotFound, message, details, execution: None },
            );
            assert(existing_attachment_ok(branch@, expected_path@, a, false, result));
            assert(attachment_reported(git, repo_root@, branch@, a));
            result
        },
    }
}

/// The error for a managed target that resolves elsewhere than preflight found it.
pub open spec fn is_target_changed(error: CliError, expected: Seq<char>, actual: Seq<char>) -> bool {
    &&& error.code == ErrorCode::PathOutsideRepo
    &&& error.message@ == "managed worktree target changed after preflight"@
    &&& error.execution is None
    &&& object_view(error.details@) == seq![
        ("actualPath"@, DetailView::Text(actual)),
        ("expectedPath"@, DetailView::Text(expected)),
    ]
}

/// The target must resolve to the planned path and still be writable.
pub open spec fn writable_target_ok(
    expected: Seq<char>,
    target: Result<String, CliError>,
    writable: Result<(), CliError>,
    result: Result<String, CliError>,
) -> bool {
    match target {
        Err(e) => result == Err::<String, CliError>(e),
        Ok(t) => if t@ != expected {
            result matches Err(e) && is_target_changed(e, expected, t@)
        } else {
            match writable {
                Err(e) => result == Err::<String, CliError>(e),
                Ok(_) => result matches Ok(p) && p@ == expected,
            }
        },
    }
}

pub open spec fn writable_revalidation(expected: Seq<char>, result: Result<String, CliError>) -> bool {
    exists|target: Result<String, CliError>, writable: Result<(), CliError>|
        #[trigger] writable_target_ok(expected, target, writable, result)
}

/// `result` is what the target revalidation makes of answers the file system may give: the
/// branch's target resolved again and, when it is the expected one, its writability.
pub open spec fn writable_revalidation_reported<F: TargetFilesystem>(fs: &F, managed_root: Seq<char>, branch: Seq<char>, expected: Seq<char>, result: Result<String, CliError>) -> bool {
    exists|target: Result<String, CliError>, writable: Result<(), CliError>|
        #[trigger] writable_target_ok(expected, target, writable, result)
            && target_resolution(managed_root, branch, target)
            && target_reported(fs, managed_root, branch, target)
            && (target matches Ok(t) && t@ == expected ==> fs.writable_answer(expected, writable))
}

/// Resolves the branch's target again and checks that it is the planned one and still
/// writable.
pub fn revalidate_writable_target<F: TargetFilesystem>(fs: &F, managed_root: &str, branch: &str, expected_path: &str) -> (result: Result<String, CliError>)
    ensures
        writable_revalidation(expected_path@, result),
        writable_revalidation_reported(fs, managed_root@, branch@, expected_path@, result),
{
    let ghost unused_check: Result<(), CliError> = arbitrary();
    let target = resolve_target(fs, managed_root, branch);
    let ghost t = target;
    let path = match target {
        Ok(path) => path,
        Err(error) => {
            let result: Result<String, CliError> = Err(error);
            assert(writable_target_ok(expected_path@, t, unused_check, result));
            assert(target_resolution(managed_root@, branch@, t) && target_reported(fs, managed_root@, branch@, t));
            return result;
        },
    };
    if !str_eq(path.as_str(), expected_path) {
        let mut details: Vec<(String, DetailValue)> = Vec::new();
        details.push(text_entry("actualPath", path.as_str()));
        details.push(text_entry("expectedPath", expected_path));
        proof {
            crate::error::lemma_object_view_index(details@);
            assert(object_view(details@) =~= seq![
                ("actualPath"@, DetailView::Text(path@)),
                ("expectedPath"@, DetailView::Text(expected_path@)),
            ]);
        }
        let result: Result<String, CliError> = Err(
            CliError {
                code: ErrorCode::PathOutsideRepo,
                message: String::from_str("managed worktree target changed after preflight"),
                details,
                execution: None,
            },
        );
        assert(writable_target_ok(expected_path@, t, unused_check, result));
        assert(target_resolution(managed_root@, branch@, t) && target_reported(fs, managed_root@, branch@, t));
        return result;
    }
    let writable = fs.ensure_target_writable(path.as_str());
    let ghost w = writable;
    let result: Result<String, CliError> = match writable {
        Err(error) => Err(error),
        Ok(()) => Ok(path),
    };
    assert(writable_target_ok(expected_path@, t, w, result));
    assert(target_resolution(managed_root@, branch@, t) && target_reported(fs, managed_root@, branch@, t));
    assert(fs.writable_answer(expected_path@, w));
    result
}

// ----- branch object ids -----

pub open spec fn rev_parse_args(branch: Seq<char>) -> Seq<Seq<char>> {
    seq!["rev-parse"@, "--verify"@, "refs/heads/"@ + branch]
}

/// The object id `git rev-parse --verify` prints, trimmed; an empty answer is an internal
/// error.
pub open spec fn oid_ok(branch: Seq<char>, outcome: Result<ProcessOutput, CliError>, result: Result<String, CliError>) -> bool {
    match outcome {
        Err(e) => result == Err::<String, CliError>(e),
        Ok(o) => if trim_spec(utf8_lossy(o.stdout@)).len() == 0 {
            result matches Err(e) && e.code == ErrorCode::InternalError && e.message@
                == "failed to resolve branch before rollback: "@ + branch && e.details@.len() == 0 && e.execution is None
        } else {
            result matches Ok(oid) && oid@ == trim_spec(utf8_lossy(o.stdout@))
        },
    }
}

pub open spec fn oid_resolution(branch: Seq<char>, result: Result<String, CliError>) -> bool {
    exists|outcome: Result<ProcessOutput, CliError>| #[trigger] oid_ok(branch, outcome, result)
}

fn branch_args(first: &str, second: &str, branch: &str) -> (args: Vec<String>)
    ensures
        args_view(args@) == seq![first@, second@, "refs/heads/"@ + branch@],
{
    let mut args: Vec<String> = Vec::new();
    assert(args_view(args@) =~= Seq::<Seq<char>>::empty());
    push_arg(&mut args, first);
    push_arg(&mut args, second);
    let mut reference = String::from_str("refs/heads/");
    reference.append(branch);
    push_arg(&mut args, reference.as_str());
    args
}

/// The object id `refs/heads/<branch>` points at, from `git rev-parse --verify`.
pub fn resolve_local_branch_oid<G: CreateMutationGit>(git: &G, repo_root: &str, branch: &str) -> (result: Result<String, CliError>)
    ensures
        oid_resolution(branch@, result),
        oid_reported(git, repo_root@, branch@, result),
{
    let args = branch_args("rev-parse", "--verify", branch);
    let outcome = git.run_git_checked(repo_root, &args);
    let ghost o = outcome;
    let result = match outcome {
        Err(error) => Err(error),
        Ok(output) => {
            let oid = trim_str(utf8_lossy_string(output.stdout.as_slice()).as_str());
            if oid.unicode_len() == 0 {
                let mut message = String::from_str("failed to resolve branch before rollback: ");
                message.append(branch);
                Err(CliError { code: ErrorCode::InternalError, message, details: Vec::new(), execution: None })
            } else {
                Ok(oid)
            }
        },
    };
    assert(oid_ok(branch@, o, result));
    assert(git.checked_answers(repo_root@, rev_parse_args(branch@), o));
    result
}

/// `result` is how the object-id lookup reads an answer `git` may give to a checked
/// `git rev-parse --verify refs/heads/<branch>`.
pub open spec fn oid_reported<G: CreateMutationGit>(git: &G, repo_root: Seq<char>, branch: Seq<char>, result: Result<String, CliError>) -> bool {
    exists|outcome: Result<ProcessOutput, CliError>|
        #[trigger] git.checked_answers(repo_root, rev_parse_args(branch), outcome) && oid_ok(branch, outcome, result)
}

/// Deletes `refs/heads/<branch>` only while it still points at `expected_oid`, with
/// `git update-ref -d`.
pub(crate) fn delete_local_branch_if_unchanged<G: CreateMutationGit>(git: &G, repo_root: &str, branch: &str, expected_oid: &str) -> (result: Result<(), CliError>)
    ensures
        exists|outcome: Result<ProcessOutput, CliError>| #[trigger] checked_step(outcome, result),
        step_reported(git, repo_root@, update_ref_delete_args(branch@, expected_oid@), result),
{
    let mut args = branch_args("update-ref", "-d", branch);
    push_arg(&mut args, expected_oid);
    assert(args_view(args@) =~= update_ref_delete_args(branch@, expected_oid@));
    let outcome = git.run_git_checked(repo_root, &args);
    let ghost o = outcome;
    let result = match outcome {
        Err(error) => Err(error),
        Ok(_) => Ok(()),
    };
    assert(checked_step(o, result));
    assert(git.checked_answers(repo_root@, update_ref_delete_args(branch@, expected_oid@), o));
    result
}

/// `git update-ref -d refs/heads/<branch> <oid>`.
pub open spec fn update_ref_delete_args(branch: Seq<char>, oid: Seq<char>) -> Seq<Seq<char>> {
    seq!["update-ref"@, "-d"@, "refs/heads/"@ + branch, oid]
}

/// A checked Git step succeeds exactly when its run does.
pub open spec fn checked_step(outcome: Result<ProcessOutput, CliError>, result: Result<(), CliError>) -> bool {
    match outcome {
        Err(e) => result == Err::<(), CliError>(e),
        Ok(_) => result is Ok,
    }
}

/// `git fetch <remote> +refs/heads/<branch>:refs/remotes/<remote>/<branch>`.
pub open spec fn fetch_args(remote: Seq<char>, branch: Seq<char>) -> Seq<Seq<char>> {
    seq!["fetch"@, remote, "+refs/heads/"@ + branch + ":refs/remotes/"@ + remote + "/"@ + branch]
}

/// `result` is how a checked Git step reads an answer `git` may give to `args` in `repo_root`.
pub open spec fn step_reported<G: CreateMutationGit>(git: &G, repo_root: Seq<char>, args: Seq<Seq<char>>, result: Result<(), CliError>) -> bool {
    exists|outcome: Result<ProcessOutput, CliError>|
        #[trigger] git.checked_answers(repo_root, args, outcome) && checked_step(outcome, result)
}

/// Fetches `<remote>/<branch>` into its remote-tracking ref, forced.
fn fetch_remote_branch<G: CreateMutationGit>(git: &G, repo_root: &str, remote: &str, branch: &str) -> (result: Result<(), CliError>)
    ensures
        exists|outcome: Result<ProcessOutput, CliError>| #[trigger] checked_step(outcome, result),
        step_reported(git, repo_root@, fetch_args(remote@, branch@), result),
{
    let mut refspec = String::from_str("+refs/heads/");
    refspec.append(branch);
    refspec.append(":refs/remotes/");
    refspec.append(remote);
    refspec.append("/");
    refspec.append(branch);
    let mut args: Vec<String> = Vec::new();
    assert(args_view(args@) =~= Seq::<Seq<char>>::empty());
    push_arg(&mut args, "fetch");
    push_arg(&mut args, remote);
    push_arg(&mut args, refspec.as_str());
    proof {
        reveal_strlit("fetch");
    }
    assert(args_view(args@) =~= fetch_args(remote@, branch@));
    let outcome = git.run_git_checked(repo_root, &args);
    let ghost o = outcome;
    let result = match outcome {
        Err(error) => Err(error),
        Ok(_) => Ok(()),
    };
    assert(checked_step(o, result));
    assert(git.checked_answers(repo_root@, fetch_args(remote@, branch@), o));
    result
}

// ----- the Git step -----

/// A worktree attached by a creating command: at the planned target, in the managed root,
/// removed again should its lifecycle state fail to persist.
pub open spec fn created_applied(
    a: WorktreeGitApplied,
    repo_root: Seq<char>,
    managed_root: Seq<char>,
    branch: Seq<char>,
    path: Seq<char>,
    base_branch: Seq<char>,
    disposition: Option<WorktreeDisposition>,
    oid: Option<Seq<char>>,
) -> bool {
    &&& a.repo_root@ == repo_root
    &&& a.managed_worktree_root matches Some(m) && m@ == managed_root
    &&& a.branch@ == branch
    &&& a.path@ == path
    &&& a.base_branch@ == base_branch
    &&& a.disposition == disposition
    &&& opt_text(a.created_branch_oid) == oid
    &&& a.remove_worktree_on_state_failure
}

/// A worktree that was already attached: nothing was created, so nothing is removed should
/// its lifecycle state fail to persist.
pub open spec fn existing_applied(a: WorktreeGitApplied, repo_root: Seq<char>, branch: Seq<char>, path: Seq<char>, base_branch: Seq<char>) -> bool {
    &&& a.repo_root@ == repo_root
    &&& a.managed_worktree_root is None
    &&& a.branch@ == branch
    &&& a.path@ == path
    &&& a.base_branch@ == base_branch
    &&& a.disposition == Some(WorktreeDisposition::Existing)
    &&& a.created_branch_oid is None
    &&& !a.remove_worktree_on_state_failure
}

/// `new`'s Git step, for the answers of the revalidations, the parent directory creation,
/// `git worktree add -b` and the object-id lookup: the first failing step's error is returned.
pub open spec fn new_git_ok(
    plan: NewPlan,
    revalidated: Result<(), CliError>,
    target: Result<String, CliError>,
    parent: Result<(), CliError>,
    added: Result<ProcessOutput, CliError>,
    oid: Result<String, CliError>,
    result: Result<WorktreeGitApplied, CliError>,
) -> bool {
    new_branch_revalidation(plan.repo_root@, plan.branch@, revalidated) && match revalidated {
        Err(e) => result == Err::<WorktreeGitApplied, CliError>(e),
        Ok(_) => writable_revalidation(plan.target_path@, target) && match target {
            Err(e) => result == Err::<WorktreeGitApplied, CliError>(e),
            Ok(_) => match parent {
                Err(e) => result == Err::<WorktreeGitApplied, CliError>(e),
                Ok(_) => match added {
                    Err(e) => result == Err::<WorktreeGitApplied, CliError>(e),
                    Ok(_) => oid_resolution(plan.branch@, oid) && match oid {
                        Err(e) => result == Err::<WorktreeGitApplied, CliError>(e),
                        Ok(o) => result matches Ok(a) && created_applied(
                            a,
                            plan.repo_root@,
                            plan.managed_worktree_root@,
                            plan.branch@,
                            plan.target_path@,
                            plan.base_branch@,
                            None,
                            Some(o@),
                        ),
                    },
                },
            },
        },
    }
}

/// `git worktree add [-b <branch>] <target> <start>`.
pub open spec fn worktree_add_args_spec(new_branch: bool, branch: Seq<char>, target: Seq<char>, start: Seq<char>) -> Seq<Seq<char>> {
    if new_branch {
        seq!["worktree"@, "add"@, "-b"@, branch, target, start]
    } else {
        seq!["worktree"@, "add"@, target, start]
    }
}

/// `git branch --track <branch> <remote>/<branch>`.
pub open spec fn track_args(remote: Seq<char>, branch: Seq<char>) -> Seq<Seq<char>> {
    seq!["branch"@, "--track"@, branch, remote + "/"@ + branch]
}

/// The answers behind `new`'s Git step are answers Git and the file system may give, each
/// asked only after the ones before allowed it: the branch revalidation, the target
/// revalidation, the parent directory, `git worktree add -b <branch> <target> <base>` and the
/// object-id lookup.
pub open spec fn new_git_answers_reported<G: CreateMutationGit, F: TargetFilesystem>(
    git: &G,
    fs: &F,
    plan: NewPlan,
    revalidated: Result<(), CliError>,
    target: Result<String, CliError>,
    parent: Result<(), CliError>,
    added: Result<ProcessOutput, CliError>,
    oid: Result<String, CliError>,
) -> bool {
    let repo = plan.repo_root@;
    let placed = revalidated is Ok && target is Ok;
    &&& new_branch_reported(git, repo, plan.branch@, revalidated)
    &&& (revalidated is Ok ==> writable_revalidation_reported(fs, plan.managed_worktree_root@, plan.branch@, plan.target_path@, target))
    &&& (placed ==> fs.parent_answer(plan.target_path@, parent))
    &&& (placed && parent is Ok ==> git.checked_answers(
        repo,
        worktree_add_args_spec(true, plan.branch@, plan.target_path@, plan.base_branch@),
        added,
    ))
    &&& (placed && parent is Ok && added is Ok ==> oid_reported(git, repo, plan.branch@, oid))
}

/// The answers behind `switch`'s Git step are answers Git and the file system may give: for
/// an existing worktree, the attachment revalidation; for a creation, the mode and target
/// revalidations, the parent directory, `git worktree add` (with `-b` from the base for a new
/// branch) and, for a new branch, the object-id lookup.
pub open spec fn switch_git_answers_reported<G: CreateMutationGit, F: TargetFilesystem>(
    git: &G,
    fs: &F,
    plan: SwitchPlan,
    checked: Result<(), CliError>,
    target: Result<String, CliError>,
    parent: Result<(), CliError>,
    added: Result<ProcessOutput, CliError>,
    oid: Result<String, CliError>,
) -> bool {
    match plan {
        SwitchPlan::Existing { repo_root, branch, path, .. } => attachment_revalidation_reported(git, fs, repo_root@, branch@, path@, checked),
        SwitchPlan::Create { repo_root, managed_worktree_root, branch, target_path, base_branch, mode } => {
            let new_branch = mode == BranchCreationMode::NewBranch;
            let placed = checked is Ok && target is Ok;
            &&& mode_revalidation_reported(git, repo_root@, branch@, mode, checked)
            &&& (checked is Ok ==> writable_revalidation_reported(fs, managed_worktree_root@, branch@, target_path@, target))
            &&& (placed ==> fs.parent_answer(target_path@, parent))
            &&& (placed && parent is Ok ==> git.checked_answers(
                repo_root@,
                worktree_add_args_spec(new_branch, branch@, target_path@, if new_branch { base_branch@ } else { branch@ }),
                added,
            ))
            &&& (new_branch && placed && parent is Ok && added is Ok ==> oid_reported(git, repo_root@, branch@, oid))
        },
    }
}

/// The answers behind `get`'s Git step are answers Git and the file system may give: for an
/// existing worktree, the attachment revalidation and the fetch; for a creation, the mode and
/// target revalidations, the fetch, for a new branch `git branch --track` and the object-id
/// lookup, the parent directory and `git worktree add <target> <branch>`.
pub open spec fn get_git_answers_reported<G: CreateMutationGit, F: TargetFilesystem>(
    git: &G,
    fs: &F,
    plan: GetPlan,
    checked: Result<(), CliError>,
    target: Result<String, CliError>,
    fetched: Result<(), CliError>,
    track_run: Result<ProcessOutput, CliError>,
    oid: Result<String, CliError>,
    parent: Result<(), CliError>,
    added: Result<ProcessOutput, CliError>,
) -> bool {
    match plan {
        GetPlan::Existing { repo_root, remote, branch, path, .. } => {
            &&& attachment_revalidation_reported(git, fs, repo_root@, branch@, path@, checked)
            &&& (checked is Ok ==> step_reported(git, repo_root@, fetch_args(remote@, branch@), fetched))
        },
        GetPlan::Create { repo_root, managed_worktree_root, remote, branch, target_path, mode, .. } => {
            let new_branch = mode == BranchCreationMode::NewBranch;
            let fetched_ok = checked is Ok && target is Ok && fetched is Ok;
            let branched = fetched_ok && (new_branch ==> (track_run is Ok && oid is Ok));
            &&& mode_revalidation_reported(git, repo_root@, branch@, mode, checked)
            &&& (checked is Ok ==> writable_revalidation_reported(fs, managed_worktree_root@, branch@, target_path@, target))
            &&& (checked is Ok && target is Ok ==> step_reported(git, repo_root@, fetch_args(remote@, branch@), fetched))
            &&& (new_branch && fetched_ok ==> git.checked_answers(repo_root@, track_args(remote@, branch@), track_run))
            &&& (new_branch && fetched_ok && track_run is Ok ==> oid_reported(git, repo_root@, branch@, oid))
            &&& (branched ==> fs.parent_answer(target_path@, parent))
            &&& (branched && parent is Ok ==> git.checked_answers(
                repo_root@,
                worktree_add_args_spec(false, branch@, target_path@, branch@),
                added,
            ))
        },
    }
}

/// `git worktree add [-b <branch>] <target> <start>`.
fn worktree_add_args(new_branch: bool, branch: &str, target: &str, start: &str) -> (args: Vec<String>)
    ensures
        crate::git::args_view(args@) == worktree_add_args_spec(new_branch, branch@, target@, start@),
{
    let mut args: Vec<String> = Vec::new();
    assert(crate::git::args_view(args@) =~= Seq::<Seq<char>>::empty());
    push_arg(&mut args, "worktree");
    push_arg(&mut args, "add");
    if new_branch {
        push_arg(&mut args, "-b");
        push_arg(&mut args, branch);
    }
    push_arg(&mut args, target);
    push_arg(&mut args, start);
    args
}

/// Carries out a `new` plan: the branch and target are checked again, the target's parent is
/// created and `git worktree add -b <branch> <target> <base>` runs; should it fail, the empty
/// directories made for the target are pruned and nothing else is undone, since the failure
/// does not prove that an observed branch was made here.
pub fn apply_new_git<G: CreateMutationGit, F: TargetFilesystem>(git: &G, fs: &F, plan: &NewPlan) -> (result: Result<WorktreeGitApplied, CliError>)
    ensures
        exists|
            revalidated: Result<(), CliError>,
            target: Result<String, CliError>,
            parent: Result<(), CliError>,
            added: Result<ProcessOutput, CliError>,
            oid: Result<String, CliError>,
        | #[trigger] new_git_ok(*plan, revalidated, target, parent, added, oid, result),
        exists|
            revalidated: Result<(), CliError>,
            target: Result<String, CliError>,
            parent: Result<(), CliError>,
            added: Result<ProcessOutput, CliError>,
            oid: Result<String, CliError>,
        |
            #[trigger] new_git_ok(*plan, revalidated, target, parent, added, oid, result)
                && new_git_answers_reported(git, fs, *plan, revalidated, target, parent, added, oid),
{
    let ghost unused_target: Result<String, CliError> = arbitrary();
    let ghost unused_check: Result<(), CliError> = arbitrary();
    let ghost unused_run: Result<ProcessOutput, CliError> = arbitrary();
    let ghost unused_oid: Result<String, CliError> = arbitrary();
    let revalidated = revalidate_new_branch(git, plan.repo_root.as_str(), plan.branch.as_str());
    let ghost r = revalidated;
    if let Err(error) = revalidated {
        let result: Result<WorktreeGitApplied, CliError> = Err(error);
        assert(new_git_ok(*plan, r, unused_target, unused_check, unused_run, unused_oid, result));
        assert(new_git_answers_reported(git, fs, *plan, r, unused_target, unused_check, unused_run, unused_oid));
        return result;
    }
    let target = revalidate_writable_target(fs, plan.managed_worktree_root.as_str(), plan.branch.as_str(), plan.target_path.as_str());
    let ghost t = target;
    let path = match target {
        Ok(path) => path,
        Err(error) => {
            let result: Result<WorktreeGitApplied, CliError> = Err(error);
            assert(new_git_ok(*plan, r, t, unused_check, unused_run, unused_oid, result));
            assert(new_git_answers_reported(git, fs, *plan, r, t, unused_check, unused_run, unused_oid));
            return result;
        },
    };
    let parent = fs.create_parent(path.as_str());
    let ghost p = parent;
    if let Err(error) = parent {
        let result: Result<WorktreeGitApplied, CliError> = Err(error);
        assert(new_git_ok(*plan, r, t, p, unused_run, unused_oid, result));
        assert(new_git_answers_reported(git, fs, *plan, r, t, p, unused_run, unused_oid));
        return result;
    }
    let args = worktree_add_args(true, plan.branch.as_str(), path.as_str(), plan.base_branch.as_str());
    let added = git.run_git_checked(plan.repo_root.as_str(), &args);
    let ghost ad = added;
    if let Err(error) = added {
        fs.prune_empty_target_parents(path.as_str(), plan.managed_worktree_root.as_str());
        let result: Result<WorktreeGitApplied, CliError> = Err(error);
        assert(new_git_ok(*plan, r, t, p, ad, unused_oid, result));
        assert(new_git_answers_reported(git, fs, *plan, r, t, p, ad, unused_oid));
        return result;
    }
    let oid = resolve_local_branch_oid(git, plan.repo_root.as_str(), plan.branch.as_str());
    let ghost o = oid;
    let result: Result<WorktreeGitApplied, CliError> = match oid {
        Err(error) => Err(error),
        Ok(oid) => Ok(WorktreeGitApplied {
            repo_root: plan.repo_root.clone(),
            managed_worktree_root: Some(plan.managed_worktree_root.clone()),
            branch: plan.branch.clone(),
            path,
            base_branch: plan.base_branch.clone(),
            disposition: None,
            created_branch_oid: Some(oid),
            remove_worktree_on_state_failure: true,
        }),
    };
    assert(new_git_ok(*plan, r, t, p, ad, o, result));
    assert(new_git_answers_reported(git, fs, *plan, r, t, p, ad, o));
    result
}

/// After the target checks of a `switch` or `get` creation: the parent directory is made and
/// `git worktree add` runs; the object id of a branch made here is `oid`.
pub open spec fn attach_ok(
    repo_root: Seq<char>,
    managed_root: Seq<char>,
    branch: Seq<char>,
    target_path: Seq<char>,
    base_branch: Seq<char>,
    oid: Option<Seq<char>>,
    parent: Result<(), CliError>,
    added: Result<ProcessOutput, CliError>,
    result: Result<WorktreeGitApplied, CliError>,
) -> bool {
    match parent {
        Err(e) => result == Err::<WorktreeGitApplied, CliError>(e),
        Ok(_) => match added {
            Err(e) => result == Err::<WorktreeGitApplied, CliError>(e),
            Ok(_) => result matches Ok(a) && created_applied(
                a,
                repo_root,
                managed_root,
                branch,
                target_path,
                base_branch,
                Some(WorktreeDisposition::Created),
                oid,
            ),
        },
    }
}

/// `switch`'s Git step, for the answers of the revalidations, the parent directory creation,
/// `git worktree add` and (for a new branch) the object-id lookup.
pub open spec fn switch_git_ok(
    plan: SwitchPlan,
    checked: Result<(), CliError>,
    target: Result<String, CliError>,
    parent: Result<(), CliError>,
    added: Result<ProcessOutput, CliError>,
    oid: Result<String, CliError>,
    result: Result<WorktreeGitApplied, CliError>,
) -> bool {
    match plan {
        SwitchPlan::Existing { repo_root, branch, path, base_branch } => attachment_revalidation(branch@, path@, checked)
            && match checked {
            Err(e) => result == Err::<WorktreeGitApplied, CliError>(e),
            Ok(_) => result matches Ok(a) && existing_applied(a, repo_root@, branch@, path@, base_branch@),
        },
        SwitchPlan::Create { repo_root, managed_worktree_root, branch, target_path, base_branch, mode } =>
            branch_mode_revalidation(repo_root@, branch@, mode, checked) && match checked {
            Err(e) => result == Err::<WorktreeGitApplied, CliError>(e),
            Ok(_) => writable_revalidation(target_path@, target) && match target {
                Err(e) => result == Err::<WorktreeGitApplied, CliError>(e),
                Ok(_) => if mode == BranchCreationMode::NewBranch {
                    match parent {
                        Err(e) => result == Err::<WorktreeGitApplied, CliError>(e),
                        Ok(_) => match added {
                            Err(e) => result == Err::<WorktreeGitApplied, CliError>(e),
                            Ok(_) => oid_resolution(branch@, oid) && match oid {
                                Err(e) => result == Err::<WorktreeGitApplied, CliError>(e),
                                Ok(o) => attach_ok(
                                    repo_root@,
                                    managed_worktree_root@,
                                    branch@,
                                    target_path@,
                                    base_branch@,
                                    Some(o@),
                                    parent,
                                    added,
                                    result,
                                ),
                            },
                        },
                    }
                } else {
                    attach_ok(repo_root@, managed_worktree_root@, branch@, target_path@, base_branch@, None, parent, added, result)
                },
            },
        },
    }
}

/// Carries out a `switch` plan. An existing worktree is checked to be still where it was; a
/// new one is created after the branch and target are checked again, with `git worktree add
/// -b <branch> <target> <base>` for a new branch or `git worktree add <target> <branch>` for
/// an existing local one; should that fail, the empty directories made for it are pruned.
pub fn apply_switch_git<G: CreateMutationGit, F: TargetFilesystem>(git: &G, fs: &F, plan: &SwitchPlan) -> (result: Result<WorktreeGitApplied, CliError>)
    ensures
        exists|
            checked: Result<(), CliError>,
            target: Result<String, CliError>,
            parent: Result<(), CliError>,
            added: Result<ProcessOutput, CliError>,
            oid: Result<String, CliError>,
        | #[trigger] switch_git_ok(*plan, checked, target, parent, added, oid, result),
        exists|
            checked: Result<(), CliError>,
            target: Result<String, CliError>,
            parent: Result<(), CliError>,
            added: Result<ProcessOutput, CliError>,
            oid: Result<String, CliError>,
        |
            #[trigger] switch_git_ok(*plan, checked, target, parent, added, oid, result)
                && switch_git_answers_reported(git, fs, *plan, checked, target, parent, added, oid),
{
    let ghost unused_target: Result<String, CliError> = arbitrary();
    let ghost unused_check: Result<(), CliError> = arbitrary();
    let ghost unused_run: Result<ProcessOutput, CliError> = arbitrary();
    let ghost unused_oid: Result<String, CliError> = arbitrary();
    match plan {
        SwitchPlan::Existing { repo_root, branch, path, base_branch } => {
            let checked = revalidate_existing_attachment(git, fs, repo_root.as_str(), branch.as_str(), path.as_str());
            let ghost c = checked;
            let result: Result<WorktreeGitApplied, CliError> = match checked {
                Err(error) => Err(error),
                Ok(()) => Ok(WorktreeGitApplied {
                    repo_root: repo_root.clone(),
                    managed_worktree_root: None,
                    branch: branch.clone(),
                    path: path.clone(),
                    base_branch: base_branch.clone(),
                    disposition: Some(WorktreeDisposition::Existing),
                    created_branch_oid: None,
                    remove_worktree_on_state_failure: false,
                }),
            };
            assert(switch_git_ok(*plan, c, unused_target, unused_check, unused_run, unused_oid, result));
            assert(switch_git_answers_reported(git, fs, *plan, c, unused_target, unused_check, unused_run, unused_oid));
            result
        },
        SwitchPlan::Create { repo_root, managed_worktree_root, branch, target_path, base_branch, mode } => {
            let checked = revalidate_branch_mode(git, repo_root.as_str(), branch.as_str(), *mode);
            let ghost c = checked;
            if let Err(error) = checked {
                let result: Result<WorktreeGitApplied, CliError> = Err(error);
                assert(switch_git_ok(*plan, c, unused_target, unused_check, unused_run, unused_oid, result));
                assert(switch_git_answers_reported(git, fs, *plan, c, unused_target, unused_check, unused_run, unused_oid));
                return result;
            }
            let target = revalidate_writable_target(fs, managed_worktree_root.as_str(), branch.as_str(), target_path.as_str());
            let ghost t = target;
            let path = match target {
                Ok(path) => path,
                Err(error) => {
                    let result: Result<WorktreeGitApplied, CliError> = Err(error);
                    assert(switch_git_ok(*plan, c, t, unused_check, unused_run, unused_oid, result));
                    assert(switch_git_answers_reported(git, fs, *plan, c, t, unused_check, unused_run, unused_oid));
                    return result;
                },
            };
            let parent = fs.create_parent(path.as_str());
            let ghost p = parent;
            if let Err(error) = parent {
                let result: Result<WorktreeGitApplied, CliError> = Err(error);
                assert(switch_git_ok(*plan, c, t, p, unused_run, unused_oid, result));
                assert(switch_git_answers_reported(git, fs, *plan, c, t, p, unused_run, unused_oid));
                return result;
            }
            let new_branch = match mode {
                BranchCreationMode::NewBranch => true,
                BranchCreationMode::ExistingLocalBranch => false,
            };
            let args = if new_branch {
                worktree_add_args(true, branch.as_str(), path.as_str(), base_branch.as_str())
            } else {
                worktree_add_args(false, branch.as_str(), path.as_str(), branch.as_str())
            };
            let added = git.run_git_checked(repo_root.as_str(), &args);
            let ghost ad = added;
            if let Err(error) = added {
                fs.prune_empty_target_parents(path.as_str(), managed_worktree_root.as_str());
                let result: Result<WorktreeGitApplied, CliError> = Err(error);
                assert(switch_git_ok(*plan, c, t, p, ad, unused_oid, result));
                assert(switch_git_answers_reported(git, fs, *plan, c, t, p, ad, unused_oid));
                return result;
            }
            let created_branch_oid = if new_branch {
                let oid = resolve_local_branch_oid(git, repo_root.as_str(), branch.as_str());
                let ghost o = oid;
                match oid {
                    Ok(oid) => Some(oid),
                    Err(error) => {
                        let result: Result<WorktreeGitApplied, CliError> = Err(error);
                        assert(switch_git_ok(*plan, c, t, p, ad, o, result));
                        assert(switch_git_answers_reported(git, fs, *plan, c, t, p, ad, o));
                        return result;
                    },
                }
            } else {
                None
            };
            let result: Result<WorktreeGitApplied, CliError> = Ok(WorktreeGitApplied {
                repo_root: repo_root.clone(),
                managed_worktree_root: Some(managed_worktree_root.clone()),
                branch: branch.clone(),
                path,
                base_branch: base_branch.clone(),
                disposition: Some(WorktreeDisposition::Created),
                created_branch_oid,
                remove_worktree_on_state_failure: true,
            });
            if new_branch {
                let ghost o: Result<String, CliError> = Ok(result->Ok_0.created_branch_oid->Some_0);
                assert(switch_git_ok(*plan, c, t, p, ad, o, result));
                assert(switch_git_answers_reported(git, fs, *plan, c, t, p, ad, o));
            } else {
                assert(switch_git_ok(*plan, c, t, p, ad, unused_oid, result));
                assert(switch_git_answers_reported(git, fs, *plan, c, t, p, ad, unused_oid));
            }
            result
        },
    }
}

/// `get`'s Git step, for the answers of the revalidations, the fetch, (for a new branch) the
/// upstream-branch creation and the object-id lookup, the parent directory creation and
/// `git worktree add`.
pub open spec fn get_git_ok(
    plan: GetPlan,
    checked: Result<(), CliError>,
    target: Result<String, CliError>,
    fetched: Result<(), CliError>,
    track_run: Result<ProcessOutput, CliError>,
    oid: Result<String, CliError>,
    parent: Result<(), CliError>,
    added: Result<ProcessOutput, CliError>,
    result: Result<WorktreeGitApplied, CliError>,
) -> bool {
    match plan {
        GetPlan::Existing { repo_root, remote, branch, path, base_branch } => attachment_revalidation(branch@, path@, checked)
            && match checked {
            Err(e) => result == Err::<WorktreeGitApplied, CliError>(e),
            Ok(_) => match fetched {
                Err(e) => result == Err::<WorktreeGitApplied, CliError>(e),
                Ok(_) => result matches Ok(a) && existing_applied(a, repo_root@, branch@, path@, base_branch@),
            },
        },
        GetPlan::Create { repo_root, managed_worktree_root, remote, branch, target_path, base_branch, mode } =>
            branch_mode_revalidation(repo_root@, branch@, mode, checked) && match checked {
            Err(e) => result == Err::<WorktreeGitApplied, CliError>(e),
            Ok(_) => writable_revalidation(target_path@, target) && match target {
                Err(e) => result == Err::<WorktreeGitApplied, CliError>(e),
                Ok(_) => match fetched {
                    Err(e) => result == Err::<WorktreeGitApplied, CliError>(e),
                    Ok(_) => if mode == BranchCreationMode::NewBranch {
                        match track_run {
                            Err(e) => result == Err::<WorktreeGitApplied, CliError>(e),
                            Ok(_) => oid_resolution(branch@, oid) && match oid {
                                Err(e) => result == Err::<WorktreeGitApplied, CliError>(e),
                                Ok(o) => attach_ok(
                                    repo_root@,
                                    managed_worktree_root@,
                                    branch@,
                                    target_path@,
                                    base_branch@,
                                    Some(o@),
                                    parent,
                                    added,
                                    result,
                                ),
                            },
                        }
                    } else {
                        attach_ok(repo_root@, managed_worktree_root@, branch@, target_path@, base_branch@, None, parent, added, result)
                    },
                },
            },
        },
    }
}

/// Carries out a `get` plan. An existing worktree is checked to be still where it was and its
/// branch fetched. Otherwise, after the branch and target are checked again and the branch
/// fetched, a new local branch tracks the remote one; should the parent directory or `git
/// worktree add <target> <branch>` then fail, a branch made here is deleted while it still
/// points where it was made, and the empty directories made for the target are pruned.
pub fn apply_get_git<G: CreateMutationGit, F: TargetFilesystem>(git: &G, fs: &F, plan: &GetPlan) -> (result: Result<WorktreeGitApplied, CliError>)
    ensures
        exists|
            checked: Result<(), CliError>,
            target: Result<String, CliError>,
            fetched: Result<(), CliError>,
            track_run: Result<ProcessOutput, CliError>,
            oid: Result<String, CliError>,
            parent: Result<(), CliError>,
            added: Result<ProcessOutput, CliError>,
        | #[trigger] get_git_ok(*plan, checked, target, fetched, track_run, oid, parent, added, result),
        exists|
            checked: Result<(), CliError>,
            target: Result<String, CliError>,
            fetched: Result<(), CliError>,
            track_run: Result<ProcessOutput, CliError>,
            oid: Result<String, CliError>,
            parent: Result<(), CliError>,
            added: Result<ProcessOutput, CliError>,
        |
            #[trigger] get_git_ok(*plan, checked, target, fetched, track_run, oid, parent, added, result)
                && get_git_answers_reported(git, fs, *plan, checked, target, fetched, track_run, oid, parent, added),
{
    let ghost unused_target: Result<String, CliError> = arbitrary();
    let ghost unused_check: Result<(), CliError> = arbitrary();
    let ghost unused_run: Result<ProcessOutput, CliError> = arbitrary();
    let ghost unused_oid: Result<String, CliError> = arbitrary();
    match plan {
        GetPlan::Existing { repo_root, remote, branch, path, base_branch } => {
            let checked = revalidate_existing_attachment(git, fs, repo_root.as_str(), branch.as_str(), path.as_str());
            let ghost c = checked;
            if let Err(error) = checked {
                let result: Result<WorktreeGitApplied, CliError> = Err(error);
                assert(get_git_ok(*plan, c, unused_target, unused_check, unused_run, unused_oid, unused_check, unused_run, result));
                assert(get_git_answers_reported(git, fs, *plan, c, unused_target, unused_check, unused_run, unused_oid, unused_check, unused_run));
                return result;
            }
            let fetched = fetch_remote_branch(git, repo_root.as_str(), remote.as_str(), branch.as_str());
            let ghost f = fetched;
            let result: Result<WorktreeGitApplied, CliError> = match fetched {
                Err(error) => Err(error),
                Ok(()) => Ok(WorktreeGitApplied {
                    repo_root: repo_root.clone(),
                    managed_worktree_root: None,
                    branch: branch.clone(),
                    path: path.clone(),
                    base_branch: base_branch.clone(),
                    disposition: Some(WorktreeDisposition::Existing),
                    created_branch_oid: None,
                    remove_worktree_on_state_failure: false,
                }),
            };
            assert(get_git_ok(*plan, c, unused_target, f, unused_run, unused_oid, unused_check, unused_run, result));
            assert(get_git_answers_reported(git, fs, *plan, c, unused_target, f, unused_run, unused_oid, unused_check, unused_run));
            result
        },
        GetPlan::Create { repo_root, managed_worktree_root, remote, branch, target_path, base_branch, mode } => {
            let checked = revalidate_branch_mode(git, repo_root.as_str(), branch.as_str(), *mode);
            let ghost c = checked;
            if let Err(error) = checked {
                let result: Result<WorktreeGitApplied, CliError> = Err(error);
                assert(get_git_ok(*plan, c, unused_target, unused_check, unused_run, unused_oid, unused_check, unused_run, result));
                assert(get_git_answers_reported(git, fs, *plan, c, unused_target, unused_check, unused_run, unused_oid, unused_check, unused_run));
                return result;
            }
            let target = revalidate_writable_target(fs, managed_worktree_root.as_str(), branch.as_str(), target_path.as_str());
            let ghost t = target;
            let path = match target {
                Ok(path) => path,
                Err(error) => {
                    let result: Result<WorktreeGitApplied, CliError> = Err(error);
                    assert(get_git_ok(*plan, c, t, unused_check, unused_run, unused_oid, unused_check, unused_run, result));
                    assert(get_git_answers_reported(git, fs, *plan, c, t, unused_check, unused_run, unused_oid, unused_check, unused_run));
                    return result;
                },
            };
            let fetched = fetch_remote_branch(git, repo_root.as_str(), remote.as_str(), branch.as_str());
            let ghost f = fetched;
            if let Err(error) = fetched {
                let result: Result<WorktreeGitApplied, CliError> = Err(error);
                assert(get_git_ok(*plan, c, t, f, unused_run, unused_oid, unused_check, unused_run, result));
                assert(get_git_answers_reported(git, fs, *plan, c, t, f, unused_run, unused_oid, unused_check, unused_run));
                return result;
            }
            let new_branch = match mode {
                BranchCreationMode::NewBranch => true,
                BranchCreationMode::ExistingLocalBranch => false,
            };
            let ghost mut tr = unused_run;
            let ghost mut o = unused_oid;
            let created_branch_oid = if new_branch {
                let mut upstream = remote.clone();
                upstream.append("/");
                upstream.append(branch.as_str());
                let mut args: Vec<String> = Vec::new();
                assert(args_view(args@) =~= Seq::<Seq<char>>::empty());
                push_arg(&mut args, "branch");
                push_arg(&mut args, "--track");
                push_arg(&mut args, branch.as_str());
                push_arg(&mut args, upstream.as_str());
                assert(args_view(args@) =~= track_args(remote@, branch@));
                let track_run = git.run_git_checked(repo_root.as_str(), &args);
                proof {
                    tr = track_run;
                }
                if let Err(error) = track_run {
                    let result: Result<WorktreeGitApplied, CliError> = Err(error);
                    assert(get_git_ok(*plan, c, t, f, tr, unused_oid, unused_check, unused_run, result));
                    assert(get_git_answers_reported(git, fs, *plan, c, t, f, tr, unused_oid, unused_check, unused_run));
                    return result;
                }
                let oid = resolve_local_branch_oid(git, repo_root.as_str(), branch.as_str());
                proof {
                    o = oid;
                }
                match oid {
                    Ok(oid) => Some(oid),
                    Err(error) => {
                        let result: Result<WorktreeGitApplied, CliError> = Err(error);
                        assert(get_git_ok(*plan, c, t, f, tr, o, unused_check, unused_run, result));
                        assert(get_git_answers_reported(git, fs, *plan, c, t, f, tr, o, unused_check, unused_run));
                        return result;
                    },
                }
            } else {
                None
            };
            assert(new_branch ==> o == Ok::<String, CliError>(created_branch_oid->Some_0));
            let parent = fs.create_parent(path.as_str());
            let ghost p = parent;
            if let Err(error) = parent {
                if let Some(oid) = &created_branch_oid {
                    let _ = delete_local_branch_if_unchanged(git, repo_root.as_str(), branch.as_str(), oid.as_str());
                }
                fs.prune_empty_target_parents(path.as_str(), managed_worktree_root.as_str());
                let result: Result<WorktreeGitApplied, CliError> = Err(error);
                assert(get_git_ok(*plan, c, t, f, tr, o, p, unused_run, result));
                assert(get_git_answers_reported(git, fs, *plan, c, t, f, tr, o, p, unused_run));
                return result;
            }
            let args = worktree_add_args(false, branch.as_str(), path.as_str(), branch.as_str());
            let added = git.run_git_checked(repo_root.as_str(), &args);
            let ghost ad = added;
            if let Err(error) = added {
                if let Some(oid) = &created_branch_oid {
                    let _ = delete_local_branch_if_unchanged(git, repo_root.as_str(), branch.as_str(), oid.as_str());
                }
                fs.prune_empty_target_parents(path.as_str(), managed_worktree_root.as_str());
                let result: Result<WorktreeGitApplied, CliError> = Err(error);
                assert(get_git_ok(*plan, c, t, f, tr, o, p, ad, result));
                assert(get_git_answers_reported(git, fs, *plan, c, t, f, tr, o, p, ad));
                return result;
            }
            let result: Result<WorktreeGitApplied, CliError> = Ok(WorktreeGitApplied {
                repo_root: repo_root.clone(),
                managed_worktree_root: Some(managed_worktree_root.clone()),
                branch: branch.clone(),
                path,
                base_branch: base_branch.clone(),
                disposition: Some(WorktreeDisposition::Created),
                created_branch_oid,
                remove_worktree_on_state_failure: true,
            });
            assert(get_git_ok(*plan, c, t, f, tr, o, p, ad, result));
            assert(get_git_answers_reported(git, fs, *plan, c, t, f, tr, o, p, ad));
            result
        },
    }
}

} // verus!
