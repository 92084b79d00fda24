//! Carrying out `lock` and `unlock` on the stored lock records, which live outside this
//! crate behind [`LockStore`]: an unlock removes a record only if it is still the one that
//! preflight saw.

use vstd::prelude::*;

use crate::error::{object_view, CliError, DetailValue, DetailView, ErrorCode};
use crate::locks::{LockRecordState, StoredLock};
use crate::mapping::text_view;
use crate::paths::{paths_equal, same_path};
use crate::plans::{LockPlan, UnlockPlan, WorktreeLockRecord};
use crate::text::str_eq;

verus! {

/// Why removing a file failed.
#[derive(Debug)]
pub enum RemovalError {
    /// There was nothing to remove.
    NotFound,
    Failed(CliError),
}

/// The stored lock records of a repository.
pub trait LockStore {
    /// Whether this store may answer `stored` when asked for the record of `branch`. A store
    /// that says nothing of its answers may give any; so for the relations below.
    open spec fn read_answer(&self, repo_root: Seq<char>, branch: Seq<char>, stored: StoredLock) -> bool {
        true
    }

    /// Whether this store may answer `result` when asked to store these fields for `branch`.
    open spec fn upsert_answer(
        &self,
        repo_root: Seq<char>,
        branch: Seq<char>,
        reason: Seq<char>,
        owner: Seq<char>,
        host: Seq<char>,
        pid: u32,
        result: Result<(), CliError>,
    ) -> bool {
        true
    }

    /// Whether this store may answer `result` when asked to delete the record of `branch`.
    open spec fn delete_answer(&self, repo_root: Seq<char>, branch: Seq<char>, result: Result<(), CliError>) -> bool {
        true
    }

    /// Whether this store may name `path` as the file of `branch`'s record.
    open spec fn path_answer(&self, repo_root: Seq<char>, branch: Seq<char>, path: String) -> bool {
        true
    }

    /// Whether this store may answer `result` when asked to remove the file at `path`.
    open spec fn removal_answer(&self, path: Seq<char>, result: Result<(), RemovalError>) -> bool {
        true
    }

    /// The record stored for `branch`, and its file.
    fn read(&self, repo_root: &str, branch: &str) -> (stored: StoredLock)
        ensures
            self.read_answer(repo_root@, branch@, stored),
    ;

    /// Stores a lock for `branch` with these fields, replacing any other.
    fn upsert(&self, repo_root: &str, branch: &str, reason: &str, owner: &str, host: &str, pid: u32) -> (result: Result<(), CliError>)
        ensures
            self.upsert_answer(repo_root@, branch@, reason@, owner@, host@, pid, result),
    ;

    /// Deletes the record of `branch`.
    fn delete(&self, repo_root: &str, branch: &str) -> (result: Result<(), CliError>)
        ensures
            self.delete_answer(repo_root@, branch@, result),
    ;

    /// The file that holds the record of `branch`.
    fn lock_file_path(&self, repo_root: &str, branch: &str) -> (path: String)
        ensures
            self.path_answer(repo_root@, branch@, path),
    ;

    /// Removes the file at `path`.
    fn remove_file(&self, path: &str) -> (result: Result<(), RemovalError>)
        ensures
            self.removal_answer(path@, result),
    ;
}

/// The record that a `lock` plan stores: its branch, reason, owner, host and process.
pub open spec fn planned_record(plan: LockPlan, record: WorktreeLockRecord) -> bool {
    &&& record.branch@ == plan.branch@
    &&& record.reason@ == plan.reason@
    &&& record.owner@ == plan.owner@
    &&& record.host@ == plan.host@
    &&& record.pid == plan.pid
}

/// What a lock answers for what the store answered: the plan's record once it was stored,
/// the store's error otherwise.
pub open spec fn lock_stored(plan: LockPlan, stored: Result<(), CliError>, result: Result<WorktreeLockRecord, CliError>) -> bool {
    match stored {
        Ok(_) => result matches Ok(record) && planned_record(plan, record),
        Err(e) => result == Err::<WorktreeLockRecord, CliError>(e),
    }
}

/// Stores the lock of a `lock` plan and answers the stored record; a refusal of the store
/// is returned as it is.
pub fn apply_lock<S: LockStore>(store: &S, plan: &LockPlan) -> (result: Result<WorktreeLockRecord, CliError>)
    ensures
        result matches Ok(record) ==> planned_record(*plan, record),
        exists|stored: Result<(), CliError>| #[trigger] lock_stored(*plan, stored, result),
        exists|stored: Result<(), CliError>|
            #[trigger] lock_stored(*plan, stored, result) && store.upsert_answer(
                plan.repo_root@,
                plan.branch@,
                plan.reason@,
                plan.owner@,
                plan.host@,
                plan.pid,
                stored,
            ),
{
    let stored = store.upsert(
        plan.repo_root.as_str(),
        plan.branch.as_str(),
        plan.reason.as_str(),
        plan.owner.as_str(),
        plan.host.as_str(),
        plan.pid,
    );
    let ghost answer = stored;
    let result = match stored {
        Ok(()) => Ok(
            WorktreeLockRecord {
                branch: plan.branch.clone(),
                reason: plan.reason.clone(),
                owner: plan.owner.clone(),
                host: plan.host.clone(),
                pid: plan.pid,
            },
        ),
        Err(error) => Err(error),
    };
    assert(lock_stored(*plan, answer, result));
    result
}

/// Two lock records say the same.
pub open spec fn same_record_spec(a: WorktreeLockRecord, b: WorktreeLockRecord) -> bool {
    &&& a.branch@ == b.branch@
    &&& a.reason@ == b.reason@
    &&& a.owner@ == b.owner@
    &&& a.host@ == b.host@
    &&& a.pid == b.pid
}

fn same_record(a: &WorktreeLockRecord, b: &WorktreeLockRecord) -> (same: bool)
    ensures
        same == same_record_spec(*a, *b),
{
    str_eq(a.branch.as_str(), b.branch.as_str()) && str_eq(a.reason.as_str(), b.reason.as_str())
        && str_eq(a.owner.as_str(), b.owner.as_str()) && str_eq(a.host.as_str(), b.host.as_str()) && a.pid == b.pid
}

/// An unlock conflict: the record of `branch` at `path` is not the one preflight saw.
pub open spec fn is_unlock_conflict(error: CliError, message: Seq<char>, branch: Seq<char>, path: Seq<char>) -> bool {
    &&& error.code == ErrorCode::LockConflict
    &&& error.message@ == message
    &&& error.execution is None
    &&& object_view(error.details@) == seq![("branch"@, text_view(branch)), ("path"@, text_view(path))]
}

fn unlock_conflict(message: &str, branch: &str, path: &str) -> (error: CliError)
    ensures
        is_unlock_conflict(error, message@, branch@, path@),
{
    let mut details: Vec<(String, DetailValue)> = Vec::new();
    details.push(("branch".to_owned(), DetailValue::Text(branch.to_owned())));
    details.push(("path".to_owned(), DetailValue::Text(path.to_owned())));
    proof {
        crate::error::lemma_object_view_index(details@);
        assert(object_view(details@) =~= seq![("branch"@, text_view(branch@)), ("path"@, text_view(path@))]);
    }
    CliError { code: ErrorCode::LockConflict, message: message.to_owned(), details, execution: None }
}

/// What an unlock answers for what the store answers: the record read again, the record
/// file's path, and the outcome of the removal.
pub open spec fn unlock_applied(
    plan: UnlockPlan,
    current: StoredLock,
    file_path: String,
    deletion: Result<(), CliError>,
    removal: Result<(), RemovalError>,
    result: Result<(), CliError>,
) -> bool {
    match plan {
        UnlockPlan::Noop { .. } => result is Ok,
        UnlockPlan::RemoveValid { branch, expected, .. } => if !(current.state matches LockRecordState::Valid(r)
            && same_record_spec(r, expected)) {
            result matches Err(e) && is_unlock_conflict(e, "lock metadata changed after unlock preflight"@, branch@, current.path@)
        } else {
            result == deletion
        },
        UnlockPlan::RemoveInvalid { path, branch, .. } => if !same_path(file_path@, path@) {
            result matches Err(e) && crate::error::plain_error(e, ErrorCode::InternalError, "invalid forced unlock target"@)
        } else {
            match current.state {
                LockRecordState::Missing => result is Ok,
                LockRecordState::Invalid { .. } => if same_path(current.path@, path@) {
                    result == match removal {
                        Ok(_) => Ok::<(), CliError>(()),
                        Err(RemovalError::NotFound) => Ok::<(), CliError>(()),
                        Err(RemovalError::Failed(e)) => Err::<(), CliError>(e),
                    }
                } else {
                    result matches Err(e) && is_unlock_conflict(e, "lock metadata changed after forced unlock preflight"@, branch@, current.path@)
                },
                LockRecordState::Valid(_) => result matches Err(e) && is_unlock_conflict(
                    e,
                    "lock metadata changed after forced unlock preflight"@,
                    branch@,
                    current.path@,
                ),
            }
        },
    }
}

/// The store's answers behind an unlock are answers it may give: the record read again (for
/// a forced unlock, after the record file's path), then the deletion of a record still as
/// preflight saw it, or the removal of the invalid record's file.
pub open spec fn unlock_answers_reported<S: LockStore>(
    store: &S,
    plan: UnlockPlan,
    current: StoredLock,
    file_path: String,
    deletion: Result<(), CliError>,
    removal: Result<(), RemovalError>,
) -> bool {
    match plan {
        UnlockPlan::Noop { .. } => true,
        UnlockPlan::RemoveValid { repo_root, branch, expected } => {
            &&& store.read_answer(repo_root@, branch@, current)
            &&& (current.state matches LockRecordState::Valid(r) && same_record_spec(r, expected)
                ==> store.delete_answer(repo_root@, branch@, deletion))
        },
        UnlockPlan::RemoveInvalid { repo_root, path, branch } => {
            &&& store.path_answer(repo_root@, branch@, file_path)
            &&& (same_path(file_path@, path@) ==> store.read_answer(repo_root@, branch@, current))
            &&& (same_path(file_path@, path@) && current.state is Invalid && same_path(current.path@, path@)
                ==> store.removal_answer(path@, removal))
        },
    }
}

/// Removes the lock of an `unlock` plan, but only if the record (or, for a forced unlock,
/// the invalid record's file) is still what preflight saw; a file already gone counts as
/// removed.
pub fn apply_unlock<S: LockStore>(store: &S, plan: &UnlockPlan) -> (result: Result<(), CliError>)
    ensures
        exists|current: StoredLock, file_path: String, deletion: Result<(), CliError>, removal: Result<(), RemovalError>|
            #[trigger] unlock_applied(*plan, current, file_path, deletion, removal, result),
        exists|current: StoredLock, file_path: String, deletion: Result<(), CliError>, removal: Result<(), RemovalError>|
            #[trigger] unlock_applied(*plan, current, file_path, deletion, removal, result)
                && unlock_answers_reported(store, *plan, current, file_path, deletion, removal),
{
    let ghost unread: StoredLock = arbitrary();
    let ghost no_path: String = arbitrary();
    let ghost unasked: Result<(), CliError> = Ok(());
    let ghost unremoved: Result<(), RemovalError> = Ok(());
    match plan {
        UnlockPlan::Noop { .. } => {
            let result = Ok(());
            assert(unlock_applied(*plan, unread, no_path, unasked, unremoved, result));
            assert(unlock_answers_reported(store, *plan, unread, no_path, unasked, unremoved));
            result
        },
        UnlockPlan::RemoveValid { repo_root, branch, expected } => {
            let current = store.read(repo_root.as_str(), branch.as_str());
            let still = match &current.state {
                LockRecordState::Valid(record) => same_record(record, expected),
                _ => false,
            };
            if !still {
                let result = Err(unlock_conflict("lock metadata changed after unlock preflight", branch.as_str(), current.path.as_str()));
                assert(unlock_applied(*plan, current, no_path, unasked, unremoved, result));
                assert(unlock_answers_reported(store, *plan, current, no_path, unasked, unremoved));
                return result;
            }
            let removal = store.delete(repo_root.as_str(), branch.as_str());
            let ghost r = removal;
            assert(unlock_applied(*plan, current, no_path, r, unremoved, removal));
            assert(unlock_answers_reported(store, *plan, current, no_path, r, unremoved));
            removal
        },
        UnlockPlan::RemoveInvalid { repo_root, path, branch } => {
            let file_path = store.lock_file_path(repo_root.as_str(), branch.as_str());
            if !paths_equal(file_path.as_str(), path.as_str()) {
                let result = Err(CliError::new(ErrorCode::InternalError, "invalid forced unlock target"));
                assert(unlock_applied(*plan, unread, file_path, unasked, unremoved, result));
                assert(unlock_answers_reported(store, *plan, unread, file_path, unasked, unremoved));
                return result;
            }
            let current = store.read(repo_root.as_str(), branch.as_str());
            match &current.state {
                LockRecordState::Missing => {
                    let result = Ok(());
                    assert(unlock_applied(*plan, current, file_path, unasked, unremoved, result));
                    assert(unlock_answers_reported(store, *plan, current, file_path, unasked, unremoved));
                    result
                },
                LockRecordState::Invalid { .. } => if paths_equal(current.path.as_str(), path.as_str()) {
                    let removal = store.remove_file(path.as_str());
                    let ghost r = removal;
                    let result = match removal {
                        Ok(()) => Ok(()),
                        Err(RemovalError::NotFound) => Ok(()),
                        Err(RemovalError::Failed(error)) => Err(error),
                    };
                    assert(unlock_applied(*plan, current, file_path, unasked, r, result));
                    assert(unlock_answers_reported(store, *plan, current, file_path, unasked, r));
                    result
                } else {
                    let result = Err(unlock_conflict(
                        "lock metadata changed after forced unlock preflight",
                        branch.as_str(),
                        current.path.as_str(),
                    ));
                    assert(unlock_applied(*plan, current, file_path, unasked, unremoved, result));
                    assert(unlock_answers_reported(store, *plan, current, file_path, unasked, unremoved));
                    result
                },
                LockRecordState::Valid(_) => {
                    let result = Err(unlock_conflict(
                        "lock metadata changed after forced unlock preflight",
                        branch.as_str(),
                        current.path.as_str(),
                    ));
                    assert(unlock_applied(*plan, current, file_path, unasked, unremoved, result));
                    assert(unlock_answers_reported(store, *plan, current, file_path, unasked, unremoved));
                    result
                },
            }
        },
    }
}

} // verus!
