//! Plans of the commands that create or connect worktrees (`init`, `new`, `switch`, `get`,
//! `adopt`) and of the commands that change one (`mv`, `extract`, `use`, `lock`,
//! `unlock`): what each plan fixes before anything is mutated, and where its hooks run.

use vstd::prelude::*;

use crate::error::{object_view, CliError, DetailValue, DetailView, ErrorCode, ExecutionReport};
use crate::paths::{components, path_components};
use crate::text::{chars_of, split_bytes, split_on, str_eq, trim_spec, trim_str, utf8_lossy};

verus! {

/// The branch and worktree a mutation's hooks see.
#[derive(Clone, Debug, PartialEq, Eq)]
pub struct MutationHookTarget {
    pub branch: Option<String>,
    pub worktree_path: String,
}

pub open spec fn opt_text(o: Option<String>) -> Option<Seq<char>> {
    match o {
        Some(s) => Some(s@),
        None => None,
    }
}

/// Whether one of the listed worktrees (each by the branch it has checked out) has `branch`.
pub open spec fn has_worktree(branches: Seq<Option<String>>, branch: Seq<char>) -> bool {
    exists|i: int| 0 <= i < branches.len() && opt_text(#[trigger] branches[i]) == Some(branch)
}

pub fn branch_listed(branches: &[Option<String>], branch: &str) -> (found: bool)
    ensures
        found == has_worktree(branches@, branch@),
{
    let mut i: usize = 0;
    while i < branches.len()
        invariant
            i <= branches@.len(),
            forall|j: int| 0 <= j < i ==> opt_text(#[trigger] branches@[j]) != Some(branch@),
        decreases branches.len() - i,
    {
        match &branches[i] {
            Some(name) => {
                if str_eq(name.as_str(), branch) {
                    return true;
                }
            },
            None => {},
        }
        i = i + 1;
    }
    false
}

/// The hook target is the given branch (if any) and path.
pub open spec fn target_is(t: MutationHookTarget, branch: Option<Seq<char>>, path: Seq<char>) -> bool {
    opt_text(t.branch) == branch && t.worktree_path@ == path
}

#[derive(Clone, Debug, PartialEq, Eq)]
pub struct InitPlan {
    pub repo_root: String,
    pub managed_worktree_root: String,
    pub metadata_directories: Vec<String>,
    pub exclude_path: String,
    pub exclude_block: Option<String>,
    pub already_initialized: bool,
}

impl InitPlan {
    /// `init` hooks run at the repository root, for no branch.
    pub fn hook_target(&self) -> (target: MutationHookTarget)
        ensures
            target_is(target, None, self.repo_root@),
    {
        MutationHookTarget { branch: None, worktree_path: self.repo_root.clone() }
    }
}

#[derive(Clone, Debug, PartialEq, Eq)]
pub struct InitResult {
    pub already_initialized: bool,
}

#[derive(Clone, Copy, Debug, PartialEq, Eq, Structural)]
pub enum BranchCreationMode {
    NewBranch,
    ExistingLocalBranch,
}

#[derive(Clone, Debug, PartialEq, Eq)]
pub struct NewPlan {
    pub repo_root: String,
    pub managed_worktree_root: String,
    pub branch: String,
    pub target_path: String,
    pub base_branch: String,
}

impl NewPlan {
    /// `new` hooks see the new branch and its target path.
    pub fn hook_target(&self) -> (target: MutationHookTarget)
        ensures
            target_is(target, Some(self.branch@), self.target_path@),
    {
        MutationHookTarget { branch: Some(self.branch.clone()), worktree_path: self.target_path.clone() }
    }
}

#[derive(Clone, Debug, PartialEq, Eq)]
pub enum SwitchPlan {
    Existing { repo_root: String, branch: String, path: String, base_branch: String },
    Create {
        repo_root: String,
        managed_worktree_root: String,
        branch: String,
        target_path: String,
        base_branch: String,
        mode: BranchCreationMode,
    },
}

impl SwitchPlan {
    /// `switch` hooks see the branch and the worktree it is (or will be) checked out in.
    pub fn hook_target(&self) -> (target: MutationHookTarget)
        ensures
            match *self {
                SwitchPlan::Existing { branch, path, .. } => target_is(target, Some(branch@), path@),
                SwitchPlan::Create { branch, target_path, .. } => target_is(target, Some(branch@), target_path@),
            },
    {
        match self {
            SwitchPlan::Existing { branch, path, .. } => MutationHookTarget {
                branch: Some(branch.clone()),
                worktree_path: path.clone(),
            },
            SwitchPlan::Create { branch, target_path, .. } => MutationHookTarget {
                branch: Some(branch.clone()),
                worktree_path: target_path.clone(),
            },
        }
    }
}

#[derive(Clone, Copy, Debug, PartialEq, Eq, Structural)]
pub enum WorktreeDisposition {
    Created,
    Existing,
}

#[derive(Clone, Debug, PartialEq, Eq)]
pub struct WorktreeMutationResult {
    pub branch: String,
    pub path: String,
    pub disposition: Option<WorktreeDisposition>,
}

/// A successful Git and filesystem transition whose lifecycle state is not durable yet.
#[derive(Clone, Debug, PartialEq, Eq)]
pub struct WorktreeGitApplied {
    pub repo_root: String,
    pub managed_worktree_root: Option<String>,
    pub branch: String,
    pub path: String,
    pub base_branch: String,
    pub disposition: Option<WorktreeDisposition>,
    pub created_branch_oid: Option<String>,
    pub remove_worktree_on_state_failure: bool,
}

#[derive(Clone, Debug, PartialEq, Eq)]
pub enum GetPlan {
    Existing { repo_root: String, remote: String, branch: String, path: String, base_branch: String },
    Create {
        repo_root: String,
        managed_worktree_root: String,
        remote: String,
        branch: String,
        target_path: String,
        base_branch: String,
        mode: BranchCreationMode,
    },
}

impl GetPlan {
    /// `get` hooks see the fetched branch and its worktree.
    pub fn hook_target(&self) -> (target: MutationHookTarget)
        ensures
            match *self {
                GetPlan::Existing { branch, path, .. } => target_is(target, Some(branch@), path@),
                GetPlan::Create { branch, target_path, .. } => target_is(target, Some(branch@), target_path@),
            },
    {
        match self {
            GetPlan::Existing { branch, path, .. } => MutationHookTarget {
                branch: Some(branch.clone()),
                worktree_path: path.clone(),
            },
            GetPlan::Create { branch, target_path, .. } => MutationHookTarget {
                branch: Some(branch.clone()),
                worktree_path: target_path.clone(),
            },
        }
    }
}

#[derive(Clone, Debug, PartialEq, Eq)]
pub struct AdoptCandidate {
    pub branch: String,
    pub from_path: String,
    pub to_path: String,
}

#[derive(Clone, Copy, Debug, PartialEq, Eq, Structural)]
pub enum AdoptSkippedReason {
    Detached,
    Locked,
    TargetExists,
    TargetConflict,
}

#[derive(Clone, Debug, PartialEq, Eq)]
pub struct AdoptSkipped {
    pub branch: Option<String>,
    pub from_path: String,
    pub to_path: Option<String>,
    pub reason: AdoptSkippedReason,
}

#[derive(Clone, Debug, PartialEq, Eq)]
pub struct AdoptPlan {
    pub repo_root: String,
    pub managed_worktree_root: String,
    pub dry_run: bool,
    pub candidates: Vec<AdoptCandidate>,
    pub skipped: Vec<AdoptSkipped>,
}

impl AdoptPlan {
    /// `adopt` hooks run in the managed worktree root, for no branch.
    pub fn hook_target(&self) -> (target: MutationHookTarget)
        ensures
            target_is(target, None, self.managed_worktree_root@),
    {
        MutationHookTarget { branch: None, worktree_path: self.managed_worktree_root.clone() }
    }
}

// ----- remote branches -----

/// `<remote>/<branch>`, split at the first `/`; both parts must be non-empty.
pub open spec fn remote_branch_spec(value: Seq<char>) -> Option<(Seq<char>, Seq<char>)> {
    match crate::text::find_from(value, seq!['/'], 0) {
        Some(i) => if i > 0 && i + 1 < value.len() {
            Some((value.take(i), value.skip(i + 1)))
        } else {
            None
        },
        None => None,
    }
}

pub fn invalid_remote_branch(value: &str) -> (error: CliError)
    ensures
        error.code == ErrorCode::InvalidRemoteBranchFormat,
        error.message@ == "invalid remote branch format: "@ + value@,
        object_view(error.details@) == seq![("value"@, DetailView::Text(value@))],
        error.execution is None,
{
    let mut message = String::from_str("invalid remote branch format: ");
    message.append(value);
    let mut details: Vec<(String, DetailValue)> = Vec::new();
    details.push(("value".to_owned(), DetailValue::Text(value.to_owned())));
    proof {
        crate::error::lemma_object_view_index(details@);
        assert(object_view(details@) =~= seq![("value"@, DetailView::Text(value@))]);
    }
    CliError { code: ErrorCode::InvalidRemoteBranchFormat, message, details, execution: None }
}

/// Splits `origin/feature/a` into `origin` and `feature/a`; anything else is an invalid
/// remote branch.
pub fn parse_remote_branch(value: &str) -> (result: Result<(String, String), CliError>)
    ensures
        match remote_branch_spec(value@) {
            Some((remote, branch)) => result matches Ok((r, b)) && r@ == remote && b@ == branch,
            None => result matches Err(e) && e.code == ErrorCode::InvalidRemoteBranchFormat && e.message@
                == "invalid remote branch format: "@ + value@ && object_view(e.details@) == seq![("value"@, DetailView::Text(value@))]
                && e.execution is None,
        },
{
    let chars = chars_of(value);
    let slash: Vec<char> = vec!['/'];
    assert(slash@ =~= seq!['/']);
    match crate::text::find_in(chars.as_slice(), slash.as_slice(), 0) {
        Some(i) => {
            proof {
                crate::text::lemma_find_from_bounds(chars@, slash@, 0);
            }
            assert(i + 1 <= chars@.len());
            let n = chars.len();
            if i > 0 && n - i > 1 {
                let mut remote: Vec<char> = Vec::new();
                let mut k: usize = 0;
                while k < i
                    invariant
                        k <= i < chars@.len(),
                        remote@ == chars@.take(k as int),
                    decreases i - k,
                {
                    remote.push(chars[k]);
                    assert(remote@ =~= chars@.take(k + 1));
                    k = k + 1;
                }
                let mut branch: Vec<char> = Vec::new();
                let mut k: usize = i + 1;
                while k < chars.len()
                    invariant
                        i + 1 <= k <= chars@.len(),
                        branch@ == chars@.subrange(i + 1, k as int),
                    decreases chars.len() - k,
                {
                    branch.push(chars[k]);
                    assert(branch@ =~= chars@.subrange(i + 1, k + 1));
                    k = k + 1;
                }
                assert(chars@.subrange(i + 1, chars@.len() as int) =~= chars@.skip(i + 1));
                Ok((crate::text::string_of(&remote), crate::text::string_of(&branch)))
            } else {
                Err(invalid_remote_branch(value))
            }
        },
        None => Err(invalid_remote_branch(value)),
    }
}

// ----- NUL-separated path lists -----

/// The non-empty NUL-separated fields of `git ls-files -z`-style output, as paths.
pub open spec fn nul_paths_in(fields: Seq<Seq<u8>>) -> Seq<Seq<char>>
    decreases fields.len(),
{
    if fields.len() == 0 {
        Seq::empty()
    } else {
        let prev = nul_paths_in(fields.drop_last());
        if fields.last().len() > 0 && !prev.contains(utf8_lossy(fields.last())) {
            prev.push(utf8_lossy(fields.last()))
        } else {
            prev
        }
    }
}

/// The distinct paths named by non-empty NUL-separated fields, in first-seen order.
pub fn paths_from_nul(output: &[u8]) -> (paths: Vec<String>)
    ensures
        paths@.map_values(|p: String| p@) == nul_paths_in(split_on(output@, 0u8)),
{
    let fields = split_bytes(output, 0u8);
    let ghost fv = fields@.map_values(|f: Vec<u8>| f@);
    let mut paths: Vec<String> = Vec::new();
    let mut i: usize = 0;
    while i < fields.len()
        invariant
            i <= fields@.len(),
            fv == fields@.map_values(|f: Vec<u8>| f@),
            paths@.map_values(|p: String| p@) == nul_paths_in(fv.take(i as int)),
        decreases fields.len() - i,
    {
        assert(fv.take(i + 1).drop_last() =~= fv.take(i as int));
        assert(fv[i as int] == fields@[i as int]@);
        if fields[i].len() > 0 {
            let path = crate::git::path_from_bytes(fields[i].as_slice());
            let ghost pv = paths@.map_values(|p: String| p@);
            let mut seen = false;
            let mut k: usize = 0;
            while k < paths.len()
                invariant
                    k <= paths@.len(),
                    pv == paths@.map_values(|p: String| p@),
                    seen == exists|j: int| 0 <= j < k && pv[j] == path@,
                decreases paths.len() - k,
            {
                assert(pv[k as int] == paths@[k as int]@);
                if str_eq(paths[k].as_str(), path.as_str()) {
                    seen = true;
                }
                k = k + 1;
            }
            assert(seen == pv.contains(path@));
            if !seen {
                paths.push(path);
                assert(paths@.map_values(|p: String| p@) =~= pv.push(utf8_lossy(fv[i as int])));
            }
        }
        i = i + 1;
    }
    assert(fv.take(fields@.len() as int) =~= fv);
    paths
}

// ----- changing an existing worktree -----

/// What committing a rename's metadata moved: the worktree lock and the lifecycle record
/// of the old branch.
#[derive(Clone, Copy, Debug, PartialEq, Eq, Structural)]
pub struct MetadataRenameOutcome {
    pub lock_moved: bool,
    pub lifecycle_moved: bool,
}

#[derive(Clone, Debug, PartialEq, Eq)]
pub struct MvResult {
    pub branch: String,
    pub path: String,
    /// What the metadata commit moved; none for a rename to the current name.
    pub metadata: Option<MetadataRenameOutcome>,
}

/// A rename of the current worktree's branch and directory.
#[derive(Clone, Debug, PartialEq, Eq)]
pub struct MvApplyPlan {
    pub old_branch: String,
    pub new_branch: String,
    pub current_path: String,
    pub target_path: String,
}

#[derive(Clone, Debug, PartialEq, Eq)]
pub enum MvPlan {
    Noop(MvResult),
    Apply(Box<MvApplyPlan>),
}

#[derive(Clone, Debug, PartialEq, Eq)]
pub enum StagedMvPlan {
    Noop(MvResult),
    Apply(Box<MvApplyPlan>),
}

#[derive(Clone, Debug, PartialEq, Eq)]
pub enum MvGitApplied {
    Noop(MvResult),
    Apply { plan: Box<MvApplyPlan>, target_path: String },
}

impl MvPlan {
    /// Only a real rename runs hooks; renaming to the current name does nothing.
    pub fn requires_hooks(&self) -> (hooks: bool)
        ensures
            hooks == (*self is Apply),
    {
        matches!(self, MvPlan::Apply(_))
    }

    /// The branch after the rename.
    pub fn branch(&self) -> (branch: &String)
        ensures
            match *self {
                MvPlan::Noop(result) => *branch == result.branch,
                MvPlan::Apply(plan) => *branch == plan.new_branch,
            },
    {
        match self {
            MvPlan::Noop(result) => &result.branch,
            MvPlan::Apply(plan) => &plan.new_branch,
        }
    }

    /// The worktree path after the rename.
    pub fn target_path(&self) -> (path: &String)
        ensures
            match *self {
                MvPlan::Noop(result) => *path == result.path,
                MvPlan::Apply(plan) => *path == plan.target_path,
            },
    {
        match self {
            MvPlan::Noop(result) => &result.path,
            MvPlan::Apply(plan) => &plan.target_path,
        }
    }
}

#[derive(Clone, Debug, PartialEq, Eq)]
pub struct ExtractPlan {
    pub repo_root: String,
    pub managed_root: String,
    pub branch: String,
    pub base_branch: String,
    pub target_path: String,
    pub dirty: bool,
}

#[derive(Clone, Debug, PartialEq, Eq)]
pub struct StagedExtractPlan {
    pub plan: ExtractPlan,
    pub stash_oid: Option<String>,
}

#[derive(Clone, Debug, PartialEq, Eq)]
pub struct ExtractResult {
    pub branch: String,
    pub path: String,
    pub stash_oid: Option<String>,
}

#[derive(Clone, Debug, PartialEq, Eq)]
pub struct ExtractGitApplied {
    pub plan: ExtractPlan,
    pub stash_oid: Option<String>,
    pub target_path: String,
}

#[derive(Clone, Debug, PartialEq, Eq)]
pub struct UsePlan {
    pub repo_root: String,
    pub branch: String,
    pub shared_worktree: Option<String>,
}

#[derive(Clone, Debug, PartialEq, Eq)]
pub struct UseResult {
    pub branch: String,
    pub path: String,
    pub shared: bool,
}

#[derive(Clone, Copy, Debug, PartialEq, Eq, Structural)]
pub enum UseInvocation {
    Interactive,
    NonInteractive { allow_agent: bool, allow_unsafe: bool },
}

#[derive(Clone, Copy, Debug, PartialEq, Eq, Structural)]
pub enum UseSharing {
    Reject,
    Allow,
}

#[derive(Clone, Copy, Debug, PartialEq, Eq, Structural)]
pub struct UseOptions {
    pub invocation: UseInvocation,
    pub sharing: UseSharing,
}

impl Default for UseOptions {
    /// Non-interactive, neither agents nor unsafe use allowed, sharing rejected.
    fn default() -> (options: Self)
        ensures
            options.invocation == (UseInvocation::NonInteractive { allow_agent: false, allow_unsafe: false }),
            options.sharing == UseSharing::Reject,
    {
        UseOptions {
            invocation: UseInvocation::NonInteractive { allow_agent: false, allow_unsafe: false },
            sharing: UseSharing::Reject,
        }
    }
}

#[derive(Clone, Debug, PartialEq, Eq)]
pub struct LockPlan {
    pub repo_root: String,
    pub branch: String,
    pub reason: String,
    pub owner: String,
    pub host: String,
    pub pid: u32,
}

/// The stored lock of a worktree.
#[derive(Clone, Debug, PartialEq, Eq)]
pub struct WorktreeLockRecord {
    pub branch: String,
    pub reason: String,
    pub owner: String,
    pub host: String,
    pub pid: u32,
}

#[derive(Clone, Debug, PartialEq, Eq)]
pub enum UnlockPlan {
    Noop { branch: String },
    RemoveValid { repo_root: String, branch: String, expected: WorktreeLockRecord },
    RemoveInvalid { repo_root: String, path: String, branch: String },
}

} // verus!
