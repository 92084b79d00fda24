use std::cell::RefCell;

use vde_worktree::adopt::{prepare_adopt, AdoptWorktree};
use vde_worktree::create::TargetFilesystem;
use vde_worktree::error::{CliError, DetailValue, ErrorCode};
use vde_worktree::locks::{ensure_non_empty_branch, prepare_lock, prepare_unlock, LockRecordState, StoredLock};
use vde_worktree::plans::{AdoptCandidate, AdoptSkipped, AdoptSkippedReason, LockPlan, UnlockPlan, WorktreeLockRecord};

struct Targets {
    taken: Vec<String>,
    asked: RefCell<Vec<String>>,
}

impl TargetFilesystem for Targets {
    fn ensure_contained(&self, _managed_root: &str, _path: &str) -> Result<(), CliError> {
        Ok(())
    }

    fn path_exists(&self, path: &str) -> Result<bool, CliError> {
        self.asked.borrow_mut().push(path.to_owned());
        Ok(self.taken.iter().any(|taken| taken == path))
    }

    fn ensure_target_writable(&self, _path: &str) -> Result<(), CliError> {
        Ok(())
    }

    fn ensure_target_path_empty(&self, path: &str) -> Result<(), CliError> {
        self.ensure_target_writable(path)
    }

    fn create_parent(&self, _path: &str) -> Result<(), CliError> {
        Ok(())
    }

    fn prune_empty_target_parents(&self, _target: &str, _managed_root: &str) {}

    fn same_location(&self, left: &str, right: &str) -> bool {
        left == right
    }
}

fn worktree(path: &str, branch: Option<&str>, locked: bool) -> AdoptWorktree {
    AdoptWorktree { path: path.to_owned(), branch: branch.map(str::to_owned), locked }
}

#[test]
fn adopt_walks_worktrees_in_path_order_and_explains_each_skip() {
    let fs = Targets { taken: vec!["/repo/.worktrees/t".to_owned()], asked: RefCell::new(Vec::new()) };
    let worktrees = [
        worktree("/z/b", Some("b"), false),
        worktree("/repo", Some("main"), false),
        worktree("/y/taken", Some("t"), false),
        worktree("/a/det", None, false),
        worktree("/repo/.worktrees/x", Some("x"), false),
        worktree("/m/locked", Some("l"), true),
        worktree("/d/two", Some("dup"), false),
        worktree("/c/one", Some("dup"), false),
    ];
    let plan = prepare_adopt(&fs, "/repo", "/repo/.worktrees", &worktrees, true).unwrap();
    assert!(plan.dry_run);
    assert_eq!(
        plan.candidates,
        [
            AdoptCandidate { branch: "dup".to_owned(), from_path: "/c/one".to_owned(), to_path: "/repo/.worktrees/dup".to_owned() },
            AdoptCandidate { branch: "b".to_owned(), from_path: "/z/b".to_owned(), to_path: "/repo/.worktrees/b".to_owned() },
        ]
    );
    let reasons: Vec<(String, AdoptSkippedReason)> =
        plan.skipped.iter().map(|skipped| (skipped.from_path.clone(), skipped.reason)).collect();
    assert_eq!(
        reasons,
        [
            ("/a/det".to_owned(), AdoptSkippedReason::Detached),
            ("/m/locked".to_owned(), AdoptSkippedReason::Locked),
            ("/d/two".to_owned(), AdoptSkippedReason::TargetConflict),
            ("/y/taken".to_owned(), AdoptSkippedReason::TargetExists),
        ]
    );
    assert_eq!(
        plan.skipped[0],
        AdoptSkipped { branch: None, from_path: "/a/det".to_owned(), to_path: None, reason: AdoptSkippedReason::Detached }
    );
    assert!(!fs.asked.borrow().iter().any(|path| path.ends_with("/x")));
}

fn record(owner: &str) -> WorktreeLockRecord {
    WorktreeLockRecord {
        branch: "feature".to_owned(),
        reason: "busy".to_owned(),
        owner: owner.to_owned(),
        host: "host".to_owned(),
        pid: 7,
    }
}

fn stored(state: LockRecordState) -> StoredLock {
    StoredLock { path: "/repo/.vde/worktree/locks/feature.json".to_owned(), state }
}

#[test]
fn branch_names_must_not_be_blank() {
    let error = ensure_non_empty_branch(" \t").unwrap_err();
    assert_eq!(error.code, ErrorCode::InvalidArgument);
    assert_eq!(error.message, "branch must be non-empty");
    assert!(ensure_non_empty_branch("feature").is_ok());
}

#[test]
fn lock_requires_reason_owner_host_and_an_existing_worktree() {
    let branches = [Some("feature".to_owned())];
    let missing = stored(LockRecordState::Missing);
    let error = prepare_lock("/repo", &branches, "feature", " ", "me", "host", 7, &missing).unwrap_err();
    assert_eq!(error.message, "reason must be non-empty");
    assert_eq!(error.detail("reason"), Some(&DetailValue::Text(" ".to_owned())));
    let error = prepare_lock("/repo", &branches, "feature", "busy", "", "host", 7, &missing).unwrap_err();
    assert_eq!(error.message, "owner must be non-empty");
    let error = prepare_lock("/repo", &branches, "other", "busy", "me", "host", 7, &missing).unwrap_err();
    assert_eq!(error.code, ErrorCode::WorktreeNotFound);
    assert_eq!(error.message, "worktree not found for branch: other");

    let plan = prepare_lock("/repo", &branches, "feature", "busy", "me", "host", 7, &missing).unwrap();
    assert_eq!(
        plan,
        LockPlan {
            repo_root: "/repo".to_owned(),
            branch: "feature".to_owned(),
            reason: "busy".to_owned(),
            owner: "me".to_owned(),
            host: "host".to_owned(),
            pid: 7,
        }
    );
}

#[test]
fn lock_may_only_be_updated_by_its_owner_and_never_over_invalid_metadata() {
    let branches = [Some("feature".to_owned())];
    let theirs = stored(LockRecordState::Valid(record("them")));
    let error = prepare_lock("/repo", &branches, "feature", "busy", "me", "host", 7, &theirs).unwrap_err();
    assert_eq!(error.code, ErrorCode::LockConflict);
    assert_eq!(error.detail("owner"), Some(&DetailValue::Text("them".to_owned())));
    assert!(prepare_lock("/repo", &branches, "feature", "busy", "them", "host", 7, &theirs).is_ok());

    let invalid = stored(LockRecordState::Invalid { reason: "bad json".to_owned() });
    let error = prepare_lock("/repo", &branches, "feature", "busy", "me", "host", 7, &invalid).unwrap_err();
    assert_eq!(error.code, ErrorCode::LockConflict);
    assert_eq!(error.message, "cannot update lock with invalid metadata; remove the lock first");
    assert_eq!(error.detail("reason"), Some(&DetailValue::Text("bad json".to_owned())));
}

#[test]
fn unlock_needs_force_for_invalid_or_foreign_locks() {
    assert_eq!(
        prepare_unlock("/repo", "feature", "me", false, &stored(LockRecordState::Missing)).unwrap(),
        UnlockPlan::Noop { branch: "feature".to_owned() }
    );

    let invalid = stored(LockRecordState::Invalid { reason: "bad json".to_owned() });
    let error = prepare_unlock("/repo", "feature", "me", false, &invalid).unwrap_err();
    assert_eq!(error.message, "lock metadata is invalid; use --force to unlock");
    assert_eq!(
        prepare_unlock("/repo", "feature", "me", true, &invalid).unwrap(),
        UnlockPlan::RemoveInvalid {
            repo_root: "/repo".to_owned(),
            path: "/repo/.vde/worktree/locks/feature.json".to_owned(),
            branch: "feature".to_owned(),
        }
    );

    let theirs = stored(LockRecordState::Valid(record("them")));
    let error = prepare_unlock("/repo", "feature", "me", false, &theirs).unwrap_err();
    assert_eq!(error.code, ErrorCode::LockConflict);
    assert_eq!(error.message, "lock is owned by another owner; use --force to unlock");
    assert_eq!(
        prepare_unlock("/repo", "feature", "me", true, &theirs).unwrap(),
        UnlockPlan::RemoveValid { repo_root: "/repo".to_owned(), branch: "feature".to_owned(), expected: record("them") }
    );
}
