//! `lock` and `unlock` preflight: who may lock or unlock a worktree, decided from the stored
//! lock record.

use vstd::prelude::*;

use crate::error::{object_view, CliError, DetailValue, DetailView, ErrorCode};
use crate::plans::{branch_listed, has_worktree, LockPlan, UnlockPlan, WorktreeLockRecord};
use crate::text::{is_unicode_whitespace, str_eq, trim_spec, trim_str};

verus! {

/// What is stored for a worktree's lock.
#[derive(Clone, Debug, PartialEq, Eq)]
pub enum LockRecordState {
    Missing,
    Invalid { reason: String },
    Valid(WorktreeLockRecord),
}

/// A stored lock record and the file it lives in.
#[derive(Clone, Debug, PartialEq, Eq)]
pub struct StoredLock {
    pub path: String,
    pub state: LockRecordState,
}

pub fn ensure_non_empty_branch(branch: &str) -> (result: Result<(), CliError>)
    ensures
        trim_spec(branch@).len() == 0 ==> (result matches Err(e) && e.code == ErrorCode::InvalidArgument
            && e.message@ == "branch must be non-empty"@),
        trim_spec(branch@).len() > 0 ==> result is Ok,
{
    let trimmed = trim_str(branch);
    if trimmed.unicode_len() == 0 {
        return Err(CliError::new(ErrorCode::InvalidArgument, "branch must be non-empty"));
    }
    Ok(())
}

fn text_detail(key: &str, value: &str) -> (entry: (String, DetailValue))
    ensures
        entry.0@ == key@,
        entry.1 matches DetailValue::Text(t) && t@ == value@,
{
    (key.to_owned(), DetailValue::Text(value.to_owned()))
}

/// An error with a message and text details, in order.
pub open spec fn error_with(error: CliError, code: ErrorCode, message: Seq<char>, details: Seq<(Seq<char>, Seq<char>)>) -> bool {
    &&& error.code == code
    &&& error.message@ == message
    &&& error.execution is None
    &&& object_view(error.details@) == details.map_values(|d: (Seq<char>, Seq<char>)| (d.0, DetailView::Text(d.1)))
}

fn make_error(code: ErrorCode, message: &str, details: Vec<(String, DetailValue)>, ghost_pairs: Ghost<Seq<(Seq<char>, Seq<char>)>>) -> (error: CliError)
    requires
        details@.len() == ghost_pairs@.len(),
        forall|i: int| 0 <= i < details@.len() ==> #[trigger] details@[i].0@ == ghost_pairs@[i].0 && (details@[i].1 matches DetailValue::Text(t) && t@ == ghost_pairs@[i].1),
    ensures
        error_with(error, code, message@, ghost_pairs@),
{
    proof {
        crate::error::lemma_object_view_index(details@);
        assert(object_view(details@) =~= ghost_pairs@.map_values(|d: (Seq<char>, Seq<char>)| (d.0, DetailView::Text(d.1))));
    }
    CliError { code, message: message.to_owned(), details, execution: None }
}

/// The reason, owner and host must not be blank.
pub open spec fn first_blank(reason: Seq<char>, owner: Seq<char>, host: Seq<char>) -> Option<(Seq<char>, Seq<char>)> {
    if trim_spec(reason).len() == 0 {
        Some(("reason"@, reason))
    } else if trim_spec(owner).len() == 0 {
        Some(("owner"@, owner))
    } else if trim_spec(host).len() == 0 {
        Some(("host"@, host))
    } else {
        None
    }
}

/// What `lock` preflight concludes.
pub open spec fn lock_preflight_ok(repo_root: Seq<char>, branches: Seq<Option<String>>, branch: Seq<char>, reason: Seq<char>, owner: Seq<char>, host: Seq<char>, pid: u32, existing: StoredLock, result: Result<LockPlan, CliError>) -> bool {
    if trim_spec(branch).len() == 0 {
        result matches Err(e) && e.code == ErrorCode::InvalidArgument && e.message@ == "branch must be non-empty"@
    } else if first_blank(reason, owner, host) is Some {
        let (name, value) = first_blank(reason, owner, host).unwrap();
        result matches Err(e) && error_with(e, ErrorCode::InvalidArgument, name + " must be non-empty"@, seq![(name, value)])
    } else if !has_worktree(branches, branch) {
        result matches Err(e) && error_with(e, ErrorCode::WorktreeNotFound, "worktree not found for branch: "@ + branch, seq![("branch"@, branch)])
    } else {
        match existing.state {
            LockRecordState::Invalid { reason: why } => result matches Err(e) && error_with(
                e,
                ErrorCode::LockConflict,
                "cannot update lock with invalid metadata; remove the lock first"@,
                seq![("branch"@, branch), ("path"@, existing.path@), ("reason"@, why@)],
            ),
            LockRecordState::Valid(record) => if record.owner@ != owner {
                result matches Err(e) && error_with(
                    e,
                    ErrorCode::LockConflict,
                    "lock is owned by another owner"@,
                    seq![("branch"@, branch), ("owner"@, record.owner@)],
                )
            } else {
                result matches Ok(plan) && plan.repo_root@ == repo_root && plan.branch@ == branch && plan.reason@ == reason
                    && plan.owner@ == owner && plan.host@ == host && plan.pid == pid
            },
            LockRecordState::Missing => result matches Ok(plan) && plan.repo_root@ == repo_root && plan.branch@
                == branch && plan.reason@ == reason && plan.owner@ == owner && plan.host@ == host && plan.pid == pid,
        }
    }
}

fn blank_error(name: &str, value: &str) -> (error: CliError)
    ensures
        error_with(error, ErrorCode::InvalidArgument, name@ + " must be non-empty"@, seq![(name@, value@)]),
{
    let mut message = name.to_owned();
    message.append(" must be non-empty");
    let mut details: Vec<(String, DetailValue)> = Vec::new();
    details.push(text_detail(name, value));
    let ghost pairs1 = seq![(name@, value@)];
    let error = make_error(ErrorCode::InvalidArgument, message.as_str(), details, Ghost(pairs1));
    error
}

/// Checks a `lock` request against the worktrees and the stored lock: the branch, reason,
/// owner and host must not be blank, the branch must have a worktree, an invalid stored lock
/// must be removed first, and a valid one may only be updated by its owner.
pub fn prepare_lock(repo_root: &str, branches: &[Option<String>], branch: &str, reason: &str, owner: &str, host: &str, pid: u32, existing: &StoredLock) -> (result: Result<LockPlan, CliError>)
    ensures
        lock_preflight_ok(repo_root@, branches@, branch@, reason@, owner@, host@, pid, *existing, result),
{
    match ensure_non_empty_branch(branch) {
        Ok(()) => {},
        Err(error) => {
            return Err(error);
        },
    }
    proof {
        reveal_strlit("reason");
        reveal_strlit("owner");
        reveal_strlit("host");
    }
    if trim_str(reason).unicode_len() == 0 {
        return Err(blank_error("reason", reason));
    }
    if trim_str(owner).unicode_len() == 0 {
        return Err(blank_error("owner", owner));
    }
    if trim_str(host).unicode_len() == 0 {
        return Err(blank_error("host", host));
    }
    let found = branch_listed(branches, branch);
    if !found {
        let mut message = String::from_str("worktree not found for branch: ");
        message.append(branch);
        let mut details: Vec<(String, DetailValue)> = Vec::new();
        details.push(text_detail("branch", branch));
        let ghost pairs2 = seq![("branch"@, branch@)];
        return Err(make_error(ErrorCode::WorktreeNotFound, message.as_str(), details, Ghost(pairs2)));
    }
    match &existing.state {
        LockRecordState::Invalid { reason: why } => {
            let mut details: Vec<(String, DetailValue)> = Vec::new();
            details.push(text_detail("branch", branch));
            details.push(text_detail("path", existing.path.as_str()));
            details.push(text_detail("reason", why.as_str()));
            let ghost pairs3 = seq![("branch"@, branch@), ("path"@, existing.path@), ("reason"@, why@)];
            return Err(make_error(
                ErrorCode::LockConflict,
                "cannot update lock with invalid metadata; remove the lock first",
                details,
                Ghost(pairs3),
            ));
        },
        LockRecordState::Valid(record) => {
            if !str_eq(record.owner.as_str(), owner) {
                let mut details: Vec<(String, DetailValue)> = Vec::new();
                details.push(text_detail("branch", branch));
                details.push(text_detail("owner", record.owner.as_str()));
                let ghost pairs4 = seq![("branch"@, branch@), ("owner"@, record.owner@)];
                return Err(make_error(
                    ErrorCode::LockConflict,
                    "lock is owned by another owner",
                    details,
                    Ghost(pairs4),
                ));
            }
        },
        LockRecordState::Missing => {},
    }
    Ok(LockPlan {
        repo_root: repo_root.to_owned(),
        branch: branch.to_owned(),
        reason: reason.to_owned(),
        owner: owner.to_owned(),
        host: host.to_owned(),
        pid,
    })
}

/// What `unlock` preflight concludes.
pub open spec fn unlock_preflight_ok(repo_root: Seq<char>, branch: Seq<char>, owner: Seq<char>, force: bool, existing: StoredLock, result: Result<UnlockPlan, CliError>) -> bool {
    if trim_spec(branch).len() == 0 {
        result matches Err(e) && e.code == ErrorCode::InvalidArgument && e.message@ == "branch must be non-empty"@
    } else {
        match existing.state {
            LockRecordState::Missing => result matches Ok(UnlockPlan::Noop { branch: b }) && b@ == branch,
            LockRecordState::Invalid { reason } => if force {
                result matches Ok(UnlockPlan::RemoveInvalid { repo_root: r, path, branch: b }) && r@ == repo_root
                    && path@ == existing.path@ && b@ == branch
            } else {
                result matches Err(e) && error_with(
                    e,
                    ErrorCode::LockConflict,
                    "lock metadata is invalid; use --force to unlock"@,
                    seq![("branch"@, branch), ("path"@, existing.path@), ("reason"@, reason@)],
                )
            },
            LockRecordState::Valid(record) => if record.owner@ != owner && !force {
                result matches Err(e) && error_with(
                    e,
                    ErrorCode::LockConflict,
                    "lock is owned by another owner; use --force to unlock"@,
                    seq![("branch"@, branch), ("owner"@, record.owner@)],
                )
            } else {
                result matches Ok(UnlockPlan::RemoveValid { repo_root: r, branch: b, expected }) && r@ == repo_root
                    && b@ == branch && expected.branch@ == record.branch@ && expected.reason@ == record.reason@
                    && expected.owner@ == record.owner@ && expected.host@ == record.host@ && expected.pid == record.pid
            },
        }
    }
}

/// Checks an `unlock` request against the stored lock: nothing to do without a lock; an
/// invalid lock is removed only with `--force`; another owner's lock only with `--force`.
pub fn prepare_unlock(repo_root: &str, branch: &str, owner: &str, force: bool, existing: &StoredLock) -> (result: Result<UnlockPlan, CliError>)
    ensures
        unlock_preflight_ok(repo_root@, branch@, owner@, force, *existing, result),
{
    match ensure_non_empty_branch(branch) {
        Ok(()) => {},
        Err(error) => {
            return Err(error);
        },
    }
    match &existing.state {
        LockRecordState::Missing => Ok(UnlockPlan::Noop { branch: branch.to_owned() }),
        LockRecordState::Invalid { reason } => {
            if force {
                Ok(UnlockPlan::RemoveInvalid {
                    repo_root: repo_root.to_owned(),
                    path: existing.path.clone(),
                    branch: branch.to_owned(),
                })
            } else {
                let mut details: Vec<(String, DetailValue)> = Vec::new();
                details.push(text_detail("branch", branch));
                details.push(text_detail("path", existing.path.as_str()));
                details.push(text_detail("reason", reason.as_str()));
                let ghost pairs5 = seq![("branch"@, branch@), ("path"@, existing.path@), ("reason"@, reason@)];
                Err(make_error(
                    ErrorCode::LockConflict,
                    "lock metadata is invalid; use --force to unlock",
                    details,
                    Ghost(pairs5),
                ))
            }
        },
        LockRecordState::Valid(record) => {
            if !str_eq(record.owner.as_str(), owner) && !force {
                let mut details: Vec<(String, DetailValue)> = Vec::new();
                details.push(text_detail("branch", branch));
                details.push(text_detail("owner", record.owner.as_str()));
                let ghost pairs6 = seq![("branch"@, branch@), ("owner"@, record.owner@)];
                Err(make_error(
                    ErrorCode::LockConflict,
                    "lock is owned by another owner; use --force to unlock",
                    details,
                    Ghost(pairs6),
                ))
            } else {
                Ok(UnlockPlan::RemoveValid {
                    repo_root: repo_root.to_owned(),
                    branch: branch.to_owned(),
                    expected: WorktreeLockRecord {
                        branch: record.branch.clone(),
                        reason: record.reason.clone(),
                        owner: record.owner.clone(),
                        host: record.host.clone(),
                        pid: record.pid,
                    },
                })
            }
        },
    }
}

} // verus!
