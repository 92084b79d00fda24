use std::cell::RefCell;

use vde_worktree::error::{CliError, DetailValue, ErrorCode};
use vde_worktree::lock_apply::{apply_lock, apply_unlock, LockStore, RemovalError};
use vde_worktree::locks::{LockRecordState, StoredLock};
use vde_worktree::plans::{LockPlan, UnlockPlan, WorktreeLockRecord};

fn record(owner: &str) -> WorktreeLockRecord {
    WorktreeLockRecord {
        branch: "topic".to_owned(),
        reason: "review".to_owned(),
        owner: owner.to_owned(),
        host: "host".to_owned(),
        pid: 7,
    }
}

struct Store {
    state: LockRecordState,
    path: String,
    missing_file: bool,
    calls: RefCell<Vec<String>>,
}

impl LockStore for Store {
    fn read(&self, _repo_root: &str, _branch: &str) -> StoredLock {
        self.calls.borrow_mut().push("read".to_owned());
        StoredLock { path: self.path.clone(), state: self.state.clone() }
    }

    fn upsert(&self, _repo_root: &str, _branch: &str, _reason: &str, _owner: &str, _host: &str, _pid: u32) -> Result<(), CliError> {
        self.calls.borrow_mut().push("upsert".to_owned());
        Ok(())
    }

    fn delete(&self, _repo_root: &str, _branch: &str) -> Result<(), CliError> {
        self.calls.borrow_mut().push("delete".to_owned());
        Ok(())
    }

    fn lock_file_path(&self, repo_root: &str, branch: &str) -> String {
        format!("{repo_root}/.vde/worktree/locks/{branch}.json")
    }

    fn remove_file(&self, path: &str) -> Result<(), RemovalError> {
        self.calls.borrow_mut().push(format!("remove {path}"));
        if self.missing_file {
            Err(RemovalError::NotFound)
        } else {
            Ok(())
        }
    }
}

const LOCK_PATH: &str = "/repo/.vde/worktree/locks/topic.json";

fn store(state: LockRecordState) -> Store {
    Store { state, path: LOCK_PATH.to_owned(), missing_file: false, calls: RefCell::new(Vec::new()) }
}

#[test]
fn lock_stores_the_planned_record() {
    let plan = LockPlan {
        repo_root: "/repo".to_owned(),
        branch: "topic".to_owned(),
        reason: "review".to_owned(),
        owner: "me".to_owned(),
        host: "host".to_owned(),
        pid: 7,
    };
    let store = store(LockRecordState::Missing);
    assert_eq!(apply_lock(&store, &plan).unwrap(), record("me"));
}

#[test]
fn unlock_removes_the_record_preflight_saw() {
    let store = store(LockRecordState::Valid(record("me")));
    let plan = UnlockPlan::RemoveValid { repo_root: "/repo".to_owned(), branch: "topic".to_owned(), expected: record("me") };
    apply_unlock(&store, &plan).unwrap();
    assert_eq!(*store.calls.borrow(), vec!["read".to_owned(), "delete".to_owned()]);
}

#[test]
fn unlock_refuses_a_record_changed_after_preflight() {
    let store = store(LockRecordState::Valid(record("someone else")));
    let plan = UnlockPlan::RemoveValid { repo_root: "/repo".to_owned(), branch: "topic".to_owned(), expected: record("me") };
    let error = apply_unlock(&store, &plan).unwrap_err();
    assert_eq!(error.code, ErrorCode::LockConflict);
    assert_eq!(error.message, "lock metadata changed after unlock preflight");
    assert_eq!(error.detail("path"), Some(&DetailValue::Text(LOCK_PATH.to_owned())));
    assert!(!store.calls.borrow().contains(&"delete".to_owned()));
}

#[test]
fn forced_unlock_removes_an_invalid_record_file() {
    let mut invalid = store(LockRecordState::Invalid { reason: "bad json".to_owned() });
    invalid.missing_file = true;
    let plan = UnlockPlan::RemoveInvalid { repo_root: "/repo".to_owned(), path: LOCK_PATH.to_owned(), branch: "topic".to_owned() };
    apply_unlock(&invalid, &plan).unwrap();
    assert_eq!(invalid.calls.borrow().last().unwrap(), &format!("remove {LOCK_PATH}"));

    let missing = store(LockRecordState::Missing);
    apply_unlock(&missing, &plan).unwrap();
    assert_eq!(*missing.calls.borrow(), vec!["read".to_owned()]);

    let valid = store(LockRecordState::Valid(record("me")));
    let error = apply_unlock(&valid, &plan).unwrap_err();
    assert_eq!(error.message, "lock metadata changed after forced unlock preflight");
}

#[test]
fn forced_unlock_refuses_a_path_other_than_the_lock_file() {
    let store = store(LockRecordState::Invalid { reason: "bad json".to_owned() });
    let plan = UnlockPlan::RemoveInvalid { repo_root: "/repo".to_owned(), path: "/etc/passwd".to_owned(), branch: "topic".to_owned() };
    let error = apply_unlock(&store, &plan).unwrap_err();
    assert_eq!(error.code, ErrorCode::InternalError);
    assert_eq!(error.message, "invalid forced unlock target");
    assert!(store.calls.borrow().is_empty());
    let noop = UnlockPlan::Noop { branch: "topic".to_owned() };
    assert!(apply_unlock(&store, &noop).is_ok());
}
