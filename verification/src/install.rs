//! The atomic installation of a completion script: the new script is written into a private
//! transaction directory next to the destination, the previous script (if any) is moved
//! into that transaction as a backup, the new one is moved into place without clobbering
//! anything, and the directory is synced. A failure after the backup rolls the destination
//! back to the previous script; a rollback that fails keeps the transaction for recovery.
//!
//! As with placements, the decisions are a state machine: [`CompletionInstall::next_action`]
//! names the filesystem step, [`CompletionInstall::advance`] takes its outcome.

use vstd::prelude::*;

use crate::error::{object_view, CliError, DetailValue, DetailView, ErrorCode};
use crate::mapping::text_view;
use crate::paths::{join_path, join_path_spec};
use crate::placement::{
    bool_entry, extended, insert_all, lemma_insert_one, lemma_insert_push, lemma_lookup_insert_all,
    lemma_view_insert_new, text_entry, view_lookup,
};

verus! {

/// A filesystem step of the installation.
#[derive(Clone, Copy, Debug, PartialEq, Eq, Structural)]
pub enum InstallAction {
    /// Open the destination's parent, create the transaction, write and sync the new script
    /// there, and see whether a previous script exists.
    Prepare,
    /// Move the previous script into the transaction as its backup.
    BackUp,
    /// Check that the backup is the script that was found.
    VerifyBackup,
    /// Move the new script into place, refusing to replace anything.
    Install,
    /// Check that the installed entry is the script that was written.
    VerifyInstall,
    /// Sync the destination's parent directory.
    SyncParent,
    /// Check that the parent directory is still the one that was opened.
    ValidateParent,
    /// Undo the installation: move the installed script aside when `installed`, and restore
    /// the backup when `existing`.
    RollBack { existing: bool, installed: bool },
    /// Keep the transaction for recovery and report where it is.
    KeepTransaction,
    /// Report where the transaction directory is.
    ResolveTransactionPath,
    /// Remove the transaction directory.
    CloseTransaction,
    /// The result is ready.
    Finish,
}

/// The outcome of a step.
#[derive(Debug)]
pub enum InstallEvent {
    /// The preparation succeeded: whether a previous script exists, and the transaction
    /// directory's path.
    Prepared { existing: bool, transaction: String },
    Completed,
    Failed(CliError),
    /// The entry checked is not the one expected.
    Changed,
    /// The rollback ended, with what went wrong in it.
    RolledBack(Vec<String>),
    PathReady(String),
    PathUnavailable(String),
    CleanupFailed(String),
}

/// Where the installation stands.
#[derive(Debug)]
pub enum InstallStage {
    Preparing,
    BackingUp { transaction: String },
    VerifyingBackup { transaction: String },
    Installing { transaction: String, existing: bool },
    VerifyingInstall { transaction: String, existing: bool },
    Syncing { transaction: String, existing: bool },
    Validating { transaction: String, existing: bool },
    RollingBack { error: CliError, existing: bool, installed: bool },
    Closing { error: CliError },
    Keeping { error: CliError },
    ResolvingPath { transaction: String },
    ClosingCommitted { transaction: String, path: Result<String, String> },
    FinalSync { transaction: String },
    FinalValidate { transaction: String },
    Done { result: Result<Option<CliError>, CliError> },
}

/// An installation of a completion script at `destination`.
#[derive(Debug)]
pub struct CompletionInstall {
    pub destination: String,
    pub stage: InstallStage,
}

#[derive(Clone, Copy, PartialEq, Eq)]
pub enum InstallEventKind {
    Prepared { existing: bool },
    Completed,
    Failed,
    Changed,
    RolledBack { clean: bool },
    PathReady,
    PathUnavailable,
    CleanupFailed,
}

#[derive(Clone, Copy, PartialEq, Eq)]
pub enum InstallControl {
    Preparing,
    BackingUp,
    VerifyingBackup,
    Installing { existing: bool },
    VerifyingInstall { existing: bool },
    Syncing { existing: bool },
    Validating { existing: bool },
    RollingBack { existing: bool, installed: bool },
    Closing,
    Keeping,
    ResolvingPath,
    ClosingCommitted { path_found: bool },
    FinalSync,
    FinalValidate,
    Done,
}

pub open spec fn install_event_kind(event: InstallEvent) -> InstallEventKind {
    match event {
        InstallEvent::Prepared { existing, .. } => InstallEventKind::Prepared { existing },
        InstallEvent::Completed => InstallEventKind::Completed,
        InstallEvent::Failed(_) => InstallEventKind::Failed,
        InstallEvent::Changed => InstallEventKind::Changed,
        InstallEvent::RolledBack(failures) => InstallEventKind::RolledBack { clean: failures@.len() == 0 },
        InstallEvent::PathReady(_) => InstallEventKind::PathReady,
        InstallEvent::PathUnavailable(_) => InstallEventKind::PathUnavailable,
        InstallEvent::CleanupFailed(_) => InstallEventKind::CleanupFailed,
    }
}

pub open spec fn install_control(stage: InstallStage) -> InstallControl {
    match stage {
        InstallStage::Preparing => InstallControl::Preparing,
        InstallStage::BackingUp { .. } => InstallControl::BackingUp,
        InstallStage::VerifyingBackup { .. } => InstallControl::VerifyingBackup,
        InstallStage::Installing { existing, .. } => InstallControl::Installing { existing },
        InstallStage::VerifyingInstall { existing, .. } => InstallControl::VerifyingInstall { existing },
        InstallStage::Syncing { existing, .. } => InstallControl::Syncing { existing },
        InstallStage::Validating { existing, .. } => InstallControl::Validating { existing },
        InstallStage::RollingBack { existing, installed, .. } => InstallControl::RollingBack { existing, installed },
        InstallStage::Closing { .. } => InstallControl::Closing,
        InstallStage::Keeping { .. } => InstallControl::Keeping,
        InstallStage::ResolvingPath { .. } => InstallControl::ResolvingPath,
        InstallStage::ClosingCommitted { path, .. } => InstallControl::ClosingCommitted { path_found: path is Ok },
        InstallStage::FinalSync { .. } => InstallControl::FinalSync,
        InstallStage::FinalValidate { .. } => InstallControl::FinalValidate,
        InstallStage::Done { .. } => InstallControl::Done,
    }
}

pub open spec fn install_action_of(c: InstallControl) -> InstallAction {
    match c {
        InstallControl::Preparing => InstallAction::Prepare,
        InstallControl::BackingUp => InstallAction::BackUp,
        InstallControl::VerifyingBackup => InstallAction::VerifyBackup,
        InstallControl::Installing { .. } => InstallAction::Install,
        InstallControl::VerifyingInstall { .. } => InstallAction::VerifyInstall,
        InstallControl::Syncing { .. } => InstallAction::SyncParent,
        InstallControl::Validating { .. } => InstallAction::ValidateParent,
        InstallControl::RollingBack { existing, installed } => InstallAction::RollBack { existing, installed },
        InstallControl::Closing => InstallAction::CloseTransaction,
        InstallControl::Keeping => InstallAction::KeepTransaction,
        InstallControl::ResolvingPath => InstallAction::ResolveTransactionPath,
        InstallControl::ClosingCommitted { .. } => InstallAction::CloseTransaction,
        InstallControl::FinalSync => InstallAction::SyncParent,
        InstallControl::FinalValidate => InstallAction::ValidateParent,
        InstallControl::Done => InstallAction::Finish,
    }
}

/// The outcomes that a control state can receive.
pub open spec fn install_fits(c: InstallControl, k: InstallEventKind) -> bool {
    match c {
        InstallControl::Preparing => k is Prepared || k is Failed,
        InstallControl::VerifyingBackup | InstallControl::VerifyingInstall { .. } => k is Completed || k is Failed
            || k is Changed,
        InstallControl::BackingUp | InstallControl::Installing { .. } | InstallControl::Syncing { .. }
        | InstallControl::Validating { .. } | InstallControl::FinalSync | InstallControl::FinalValidate =>
            k is Completed || k is Failed,
        InstallControl::RollingBack { .. } => k is RolledBack,
        InstallControl::Closing | InstallControl::ClosingCommitted { .. } => k is Completed || k is CleanupFailed,
        InstallControl::Keeping | InstallControl::ResolvingPath => k is PathReady || k is PathUnavailable,
        InstallControl::Done => false,
    }
}

pub open spec fn is_failure(k: InstallEventKind) -> bool {
    k is Failed || k is Changed
}

pub open spec fn install_next(c: InstallControl, k: InstallEventKind) -> InstallControl {
    match c {
        InstallControl::Preparing => match k {
            InstallEventKind::Prepared { existing } => if existing {
                InstallControl::BackingUp
            } else {
                InstallControl::Installing { existing: false }
            },
            _ => InstallControl::Done,
        },
        InstallControl::BackingUp => if is_failure(k) {
            InstallControl::Done
        } else {
            InstallControl::VerifyingBackup
        },
        InstallControl::VerifyingBackup => if is_failure(k) {
            InstallControl::RollingBack { existing: true, installed: false }
        } else {
            InstallControl::Installing { existing: true }
        },
        InstallControl::Installing { existing } => if is_failure(k) {
            InstallControl::RollingBack { existing, installed: false }
        } else {
            InstallControl::VerifyingInstall { existing }
        },
        InstallControl::VerifyingInstall { existing } => if is_failure(k) {
            InstallControl::RollingBack { existing, installed: true }
        } else {
            InstallControl::Syncing { existing }
        },
        InstallControl::Syncing { existing } => if is_failure(k) {
            InstallControl::RollingBack { existing, installed: true }
        } else {
            InstallControl::Validating { existing }
        },
        InstallControl::Validating { existing } => if is_failure(k) {
            InstallControl::RollingBack { existing, installed: true }
        } else {
            InstallControl::ResolvingPath
        },
        InstallControl::RollingBack { .. } => match k {
            InstallEventKind::RolledBack { clean } => if clean {
                InstallControl::Closing
            } else {
                InstallControl::Keeping
            },
            _ => InstallControl::Done,
        },
        InstallControl::Closing => InstallControl::Done,
        InstallControl::Keeping => InstallControl::Done,
        InstallControl::ResolvingPath => InstallControl::ClosingCommitted { path_found: k is PathReady },
        InstallControl::ClosingCommitted { path_found } => if path_found && k is Completed {
            InstallControl::FinalSync
        } else {
            InstallControl::Done
        },
        InstallControl::FinalSync => if is_failure(k) {
            InstallControl::Done
        } else {
            InstallControl::FinalValidate
        },
        InstallControl::FinalValidate => InstallControl::Done,
        InstallControl::Done => InstallControl::Done,
    }
}

// ----- error payloads -----

/// An error saying that the entry at `path` changed under the installation.
pub open spec fn is_path_changed(e: CliError, message: Seq<char>, path: Seq<char>) -> bool {
    &&& e.code == ErrorCode::PathOutsideRepo
    &&& e.message@ == message
    &&& e.execution is None
    &&& object_view(e.details@) == seq![("path"@, text_view(path))]
}

pub open spec fn texts_view(texts: Seq<String>) -> Seq<DetailView> {
    texts.map_values(|t: String| text_view(t@))
}

/// What a rollback adds to the error: that nothing was committed, and the rollback's own
/// failures, if any.
pub open spec fn install_rollback_entries(failures: Seq<String>) -> Seq<(Seq<char>, DetailView)> {
    seq![("committed"@, DetailView::Bool(false))] + if failures.len() == 0 {
        Seq::empty()
    } else {
        seq![
            ("rollbackFailed"@, DetailView::Bool(true)),
            ("rollbackFailures"@, DetailView::List(texts_view(failures))),
            ("recoveryRequired"@, DetailView::Bool(true)),
        ]
    }
}

/// What keeping the transaction adds to the error.
pub open spec fn install_recovery_entries(kept: Result<Seq<char>, Seq<char>>) -> Seq<(Seq<char>, DetailView)> {
    let located = match kept {
        Ok(path) => seq![
            ("recoveryPath"@, text_view(path)),
            ("backupPath"@, text_view(join_path_spec(path, "backup"@))),
        ],
        Err(message) => seq![("recoveryPathUnavailable"@, DetailView::Bool(true)), ("recoveryPathError"@, text_view(message))],
    };
    located + seq![("phase"@, text_view("rollback"@)), ("committedState"@, text_view("recovery-required"@))]
}

/// The error of an installation that committed but could not make its cleanup durable.
pub open spec fn is_committed_cleanup_error(e: CliError, transaction: Seq<char>, cleanup: Seq<char>) -> bool {
    &&& e.code == ErrorCode::InternalError
    &&& e.message@ == "completion installed, but transaction cleanup durability failed"@
    &&& e.execution is None
    &&& object_view(e.details@) == seq![
        ("committed"@, DetailView::Bool(true)),
        ("transactionPath"@, text_view(transaction)),
        ("cleanupError"@, text_view(cleanup)),
    ]
}

/// What an installation that committed reports about closing its transaction.
pub open spec fn closed_report(path: Result<String, String>, cleanup: Option<String>, report: Option<CliError>) -> bool {
    match (path, cleanup) {
        (Ok(_), None) => report is None,
        (Ok(p), Some(c)) => report matches Some(e) && is_committed_cleanup_error(e, p@, c@),
        (Err(m), None) => report matches Some(e) && e.code == ErrorCode::PathOutsideRepo
            && e.message@ == "completion installed, but its parent path changed before cleanup"@
            && e.execution is None
            && object_view(e.details@) == seq![("committed"@, DetailView::Bool(true)), ("pathError"@, text_view(m@))],
        (Err(m), Some(c)) => report matches Some(e) && e.code == ErrorCode::InternalError
            && e.message@ == "completion installed, but transaction cleanup failed and its path is unavailable"@
            && e.execution is None
            && object_view(e.details@) == seq![
                ("committed"@, DetailView::Bool(true)),
                ("transactionPathUnavailable"@, DetailView::Bool(true)),
                ("pathError"@, text_view(m@)),
                ("cleanupError"@, text_view(c@)),
            ],
    }
}

/// The name of an error code as Rust's `Debug` writes it.
pub open spec fn code_debug(code: ErrorCode) -> Seq<char> {
    match code {
        ErrorCode::InvalidArgument => "InvalidArgument"@,
        ErrorCode::InvalidConfig => "InvalidConfig"@,
        ErrorCode::InvalidRemoteBranchFormat => "InvalidRemoteBranchFormat"@,
        ErrorCode::AbsolutePathNotAllowed => "AbsolutePathNotAllowed"@,
        ErrorCode::PathOutsideRepo => "PathOutsideRepo"@,
        ErrorCode::UnsafeFlagRequired => "UnsafeFlagRequired"@,
        ErrorCode::NotGitRepository => "NotGitRepository"@,
        ErrorCode::NotInitialized => "NotInitialized"@,
        ErrorCode::UnsupportedRepositoryLayout => "UnsupportedRepositoryLayout"@,
        ErrorCode::WorktreeNotFound => "WorktreeNotFound"@,
        ErrorCode::BranchAlreadyExists => "BranchAlreadyExists"@,
        ErrorCode::BranchAlreadyAttached => "BranchAlreadyAttached"@,
        ErrorCode::BranchInUse => "BranchInUse"@,
        ErrorCode::DetachedHead => "DetachedHead"@,
        ErrorCode::DirtyWorktree => "DirtyWorktree"@,
        ErrorCode::TargetPathNotEmpty => "TargetPathNotEmpty"@,
        ErrorCode::LockConflict => "LockConflict"@,
        ErrorCode::SafetyRejected => "SafetyRejected"@,
        ErrorCode::RemoteNotFound => "RemoteNotFound"@,
        ErrorCode::RemoteBranchNotFound => "RemoteBranchNotFound"@,
        ErrorCode::DependencyMissing => "DependencyMissing"@,
        ErrorCode::RepoLockTimeout => "RepoLockTimeout"@,
        ErrorCode::HookNotFound => "HookNotFound"@,
        ErrorCode::HookNotExecutable => "HookNotExecutable"@,
        ErrorCode::HookTimeout => "HookTimeout"@,
        ErrorCode::HookFailed => "HookFailed"@,
        ErrorCode::GitCommandFailed => "GitCommandFailed"@,
        ErrorCode::StashApplyFailed => "StashApplyFailed"@,
        ErrorCode::ChildProcessFailed => "ChildProcessFailed"@,
        ErrorCode::InternalError => "InternalError"@,
        ErrorCode::Cancelled => "Cancelled"@,
    }
}

pub fn code_debug_text(code: ErrorCode) -> (text: &'static str)
    ensures
        text@ == code_debug(code),
{
    match code {
        ErrorCode::InvalidArgument => "InvalidArgument",
        ErrorCode::InvalidConfig => "InvalidConfig",
        ErrorCode::InvalidRemoteBranchFormat => "InvalidRemoteBranchFormat",
        ErrorCode::AbsolutePathNotAllowed => "AbsolutePathNotAllowed",
        ErrorCode::PathOutsideRepo => "PathOutsideRepo",
        ErrorCode::UnsafeFlagRequired => "UnsafeFlagRequired",
        ErrorCode::NotGitRepository => "NotGitRepository",
        ErrorCode::NotInitialized => "NotInitialized",
        ErrorCode::UnsupportedRepositoryLayout => "UnsupportedRepositoryLayout",
        ErrorCode::WorktreeNotFound => "WorktreeNotFound",
        ErrorCode::BranchAlreadyExists => "BranchAlreadyExists",
        ErrorCode::BranchAlreadyAttached => "BranchAlreadyAttached",
        ErrorCode::BranchInUse => "BranchInUse",
        ErrorCode::DetachedHead => "DetachedHead",
        ErrorCode::DirtyWorktree => "DirtyWorktree",
        ErrorCode::TargetPathNotEmpty => "TargetPathNotEmpty",
        ErrorCode::LockConflict => "LockConflict",
        ErrorCode::SafetyRejected => "SafetyRejected",
        ErrorCode::RemoteNotFound => "RemoteNotFound",
        ErrorCode::RemoteBranchNotFound => "RemoteBranchNotFound",
        ErrorCode::DependencyMissing => "DependencyMissing",
        ErrorCode::RepoLockTimeout => "RepoLockTimeout",
        ErrorCode::HookNotFound => "HookNotFound",
        ErrorCode::HookNotExecutable => "HookNotExecutable",
        ErrorCode::HookTimeout => "HookTimeout",
        ErrorCode::HookFailed => "HookFailed",
        ErrorCode::GitCommandFailed => "GitCommandFailed",
        ErrorCode::StashApplyFailed => "StashApplyFailed",
        ErrorCode::ChildProcessFailed => "ChildProcessFailed",
        ErrorCode::InternalError => "InternalError",
        ErrorCode::Cancelled => "Cancelled",
    }
}

/// `<code>: <message>` for an error that broke the cleanup after the commit.
pub open spec fn cleanup_failure_text(e: CliError) -> Seq<char> {
    code_debug(e.code) + ": "@ + e.message@
}


pub fn path_changed(message: &str, path: &str) -> (error: CliError)
    ensures
        is_path_changed(error, message@, path@),
{
    let mut error = CliError::new(ErrorCode::PathOutsideRepo, message);
    assert(object_view(error.details@) == Seq::<(Seq<char>, DetailView)>::empty());
    text_entry(&mut error, "path", path);
    proof {
        lemma_view_insert_new(Seq::empty(), "path"@, text_view(path@));
        assert(Seq::<(Seq<char>, DetailView)>::empty().push(("path"@, text_view(path@))) =~= seq![("path"@, text_view(path@))]);
    }
    error
}

pub(crate) fn texts_value(texts: &Vec<String>) -> (value: DetailValue)
    ensures
        crate::error::detail_view(value) == DetailView::List(texts_view(texts@)),
{
    let mut items: Vec<DetailValue> = Vec::new();
    let mut i: usize = 0;
    assert(crate::error::list_view(items@) =~= Seq::<DetailView>::empty());
    while i < texts.len()
        invariant
            i <= texts@.len(),
            crate::error::list_view(items@) == texts_view(texts@.take(i as int)),
        decreases texts.len() - i,
    {
        let item = DetailValue::Text(texts[i].clone());
        proof {
            crate::error::lemma_list_view_push(items@, item);
            assert(texts@.take(i + 1) =~= texts@.take(i as int).push(texts@[i as int]));
            assert(texts_view(texts@.take(i + 1)) =~= texts_view(texts@.take(i as int)).push(text_view(texts@[i as int]@)));
        }
        items.push(item);
        i = i + 1;
    }
    assert(texts@.take(texts@.len() as int) =~= texts@);
    DetailValue::List(items)
}

/// Adds the rollback's result to an error: nothing committed, and the rollback's own
/// failures with the need for recovery, if it failed.
pub fn attach_install_rollback(error: CliError, failures: Vec<String>) -> (out: CliError)
    ensures
        extended(error, out, install_rollback_entries(failures@)),
{
    let mut out = error;
    let ghost d0 = object_view(out.details@);
    let ghost es = install_rollback_entries(failures@);
    insert_bool(&mut out, "committed", false);
    proof {
        lemma_insert_one(d0, es[0]);
        assert(es.take(1) =~= seq![es[0]]);
    }
    if failures.len() == 0 {
        assert(es =~= es.take(1));
        return out;
    }
    bool_entry(&mut out, "rollbackFailed");
    proof {
        lemma_insert_push(d0, es.take(1), es[1]);
        assert(es.take(1).push(es[1]) =~= es.take(2));
    }
    let list = texts_value(&failures);
    crate::error::insert_entry(&mut out.details, "rollbackFailures", list);
    proof {
        lemma_insert_push(d0, es.take(2), es[2]);
        assert(es.take(2).push(es[2]) =~= es.take(3));
    }
    bool_entry(&mut out, "recoveryRequired");
    proof {
        lemma_insert_push(d0, es.take(3), es[3]);
        assert(es.take(3).push(es[3]) =~= es);
    }
    out
}

fn insert_bool(error: &mut CliError, key: &str, value: bool)
    ensures
        final(error).code == old(error).code,
        final(error).message == old(error).message,
        final(error).execution == old(error).execution,
        object_view(final(error).details@) == crate::error::view_insert(object_view(old(error).details@), key@, DetailView::Bool(value)),
{
    crate::error::insert_entry(&mut error.details, key, DetailValue::Bool(value));
}

pub open spec fn kept_view(kept: Result<String, String>) -> Result<Seq<char>, Seq<char>> {
    match kept {
        Ok(p) => Ok(p@),
        Err(m) => Err(m@),
    }
}

/// Adds where the kept transaction is (or why that is unknown) to an error.
pub fn keep_error(error: CliError, kept: Result<String, String>) -> (out: CliError)
    ensures
        extended(error, out, install_recovery_entries(kept_view(kept))),
{
    let mut out = error;
    let ghost d0 = object_view(out.details@);
    let ghost es = install_recovery_entries(kept_view(kept));
    match kept {
        Ok(path) => {
            text_entry(&mut out, "recoveryPath", path.as_str());
            proof {
                lemma_insert_one(d0, es[0]);
                assert(es.take(1) =~= seq![es[0]]);
            }
            let backup = join_path(path.as_str(), "backup");
            text_entry(&mut out, "backupPath", backup.as_str());
        },
        Err(message) => {
            bool_entry(&mut out, "recoveryPathUnavailable");
            proof {
                lemma_insert_one(d0, es[0]);
                assert(es.take(1) =~= seq![es[0]]);
            }
            text_entry(&mut out, "recoveryPathError", message.as_str());
        },
    }
    proof {
        lemma_insert_push(d0, es.take(1), es[1]);
        assert(es.take(1).push(es[1]) =~= es.take(2));
    }
    text_entry(&mut out, "phase", "rollback");
    proof {
        lemma_insert_push(d0, es.take(2), es[2]);
        assert(es.take(2).push(es[2]) =~= es.take(3));
    }
    text_entry(&mut out, "committedState", "recovery-required");
    proof {
        lemma_insert_push(d0, es.take(3), es[3]);
        assert(es.take(3).push(es[3]) =~= es);
    }
    out
}

proof fn lemma_fresh_entries(es: Seq<(Seq<char>, DetailView)>)
    requires
        forall|i: int, j: int| 0 <= i < j < es.len() ==> #[trigger] es[i].0 != #[trigger] es[j].0,
    ensures
        insert_all(Seq::empty(), es) == es,
    decreases es.len(),
{
    if es.len() > 0 {
        let init = es.drop_last();
        lemma_fresh_entries(init);
        assert forall|j: int| 0 <= j < init.len() implies #[trigger] init[j].0 != es.last().0 by {
            assert(es[j].0 != es[es.len() - 1].0);
        }
        lemma_view_insert_new(init, es.last().0, es.last().1);
        assert(init.push(es.last()) =~= es);
    }
}

/// The error of an installation that committed but could not make its cleanup durable.
pub fn committed_cleanup_error(transaction: &str, cleanup: &str) -> (error: CliError)
    ensures
        is_committed_cleanup_error(error, transaction@, cleanup@),
{
    let mut e = CliError::new(ErrorCode::InternalError, "completion installed, but transaction cleanup durability failed");
    assert(object_view(e.details@) == Seq::<(Seq<char>, DetailView)>::empty());
    let ghost es = seq![
        ("committed"@, DetailView::Bool(true)),
        ("transactionPath"@, text_view(transaction@)),
        ("cleanupError"@, text_view(cleanup@)),
    ];
    bool_entry(&mut e, "committed");
    text_entry(&mut e, "transactionPath", transaction);
    text_entry(&mut e, "cleanupError", cleanup);
    proof {
        reveal_strlit("committed");
        reveal_strlit("transactionPath");
        reveal_strlit("cleanupError");
        assert(es[0].0 != es[1].0) by { assert(es[0].0.len() != es[1].0.len()); }
        assert(es[0].0 != es[2].0) by { assert(es[0].0.len() != es[2].0.len()); }
        assert(es[1].0 != es[2].0) by { assert(es[1].0.len() != es[2].0.len()); }
        lemma_fresh_entries(es);
        lemma_insert_one(Seq::empty(), es[0]);
        assert(es.take(1) =~= seq![es[0]]);
        lemma_insert_push(Seq::empty(), es.take(1), es[1]);
        assert(es.take(1).push(es[1]) =~= es.take(2));
        lemma_insert_push(Seq::empty(), es.take(2), es[2]);
        assert(es.take(2).push(es[2]) =~= es);
    }
    e
}

/// What an installation that committed reports about closing its transaction.
pub fn closed_error(path: Result<String, String>, cleanup: Option<String>) -> (report: Option<CliError>)
    ensures
        closed_report(path, cleanup, report),
{
    match (path, cleanup) {
        (Ok(_), None) => None,
        (Ok(p), Some(c)) => Some(committed_cleanup_error(p.as_str(), c.as_str())),
        (Err(m), None) => {
            let mut e = CliError::new(
                ErrorCode::PathOutsideRepo,
                "completion installed, but its parent path changed before cleanup",
            );
            assert(object_view(e.details@) == Seq::<(Seq<char>, DetailView)>::empty());
            let ghost es = seq![("committed"@, DetailView::Bool(true)), ("pathError"@, text_view(m@))];
            bool_entry(&mut e, "committed");
            text_entry(&mut e, "pathError", m.as_str());
            proof {
                reveal_strlit("committed");
                reveal_strlit("pathError");
                assert(es[0].0 != es[1].0) by { assert(es[0].0[0] != es[1].0[0]); }
                lemma_fresh_entries(es);
                lemma_insert_one(Seq::empty(), es[0]);
                assert(es.take(1) =~= seq![es[0]]);
                lemma_insert_push(Seq::empty(), es.take(1), es[1]);
                assert(es.take(1).push(es[1]) =~= es);
            }
            Some(e)
        },
        (Err(m), Some(c)) => {
            let mut e = CliError::new(
                ErrorCode::InternalError,
                "completion installed, but transaction cleanup failed and its path is unavailable",
            );
            assert(object_view(e.details@) == Seq::<(Seq<char>, DetailView)>::empty());
            let ghost es = seq![
                ("committed"@, DetailView::Bool(true)),
                ("transactionPathUnavailable"@, DetailView::Bool(true)),
                ("pathError"@, text_view(m@)),
                ("cleanupError"@, text_view(c@)),
            ];
            bool_entry(&mut e, "committed");
            bool_entry(&mut e, "transactionPathUnavailable");
            text_entry(&mut e, "pathError", m.as_str());
            text_entry(&mut e, "cleanupError", c.as_str());
            proof {
                reveal_strlit("committed");
                reveal_strlit("transactionPathUnavailable");
                reveal_strlit("pathError");
                reveal_strlit("cleanupError");
                assert(es[0].0 != es[1].0) by { assert(es[0].0.len() != es[1].0.len()); }
                assert(es[0].0 != es[2].0) by { assert(es[0].0[0] != es[2].0[0]); }
                assert(es[0].0 != es[3].0) by { assert(es[0].0.len() != es[3].0.len()); }
                assert(es[1].0 != es[2].0) by { assert(es[1].0.len() != es[2].0.len()); }
                assert(es[1].0 != es[3].0) by { assert(es[1].0.len() != es[3].0.len()); }
                assert(es[2].0 != es[3].0) by { assert(es[2].0.len() != es[3].0.len()); }
                lemma_fresh_entries(es);
                lemma_insert_one(Seq::empty(), es[0]);
                assert(es.take(1) =~= seq![es[0]]);
                lemma_insert_push(Seq::empty(), es.take(1), es[1]);
                assert(es.take(1).push(es[1]) =~= es.take(2));
                lemma_insert_push(Seq::empty(), es.take(2), es[2]);
                assert(es.take(2).push(es[2]) =~= es.take(3));
                lemma_insert_push(Seq::empty(), es.take(3), es[3]);
                assert(es.take(3).push(es[3]) =~= es);
            }
            Some(e)
        },
    }
}

/// `<code>: <message>` of an error.
pub fn cleanup_failure(error: &CliError) -> (text: String)
    ensures
        text@ == cleanup_failure_text(*error),
{
    let mut text = String::new();
    text.append(code_debug_text(error.code));
    text.append(": ");
    text.append(error.message.as_str());
    text
}


// ----- the machine -----

/// The stage a failure before the commit leads to: the rollback, with the error as given.
pub open spec fn rolls_back(e: CliError, existing: bool, installed: bool, next: InstallStage) -> bool {
    next == InstallStage::RollingBack { error: e, existing, installed }
}

/// The stage that the outcome `event` of the step asked for in `old` leads to.
pub open spec fn install_advanced(destination: Seq<char>, old: InstallStage, event: InstallEvent, next: InstallStage) -> bool {
    match old {
        InstallStage::Preparing => match event {
            InstallEvent::Prepared { existing, transaction } => next == if existing {
                InstallStage::BackingUp { transaction }
            } else {
                InstallStage::Installing { transaction, existing: false }
            },
            InstallEvent::Failed(e) => next == InstallStage::Done { result: Err(e) },
            _ => true,
        },
        InstallStage::BackingUp { transaction } => match event {
            InstallEvent::Failed(e) => next == InstallStage::Done { result: Err(e) },
            _ => next == InstallStage::VerifyingBackup { transaction },
        },
        InstallStage::VerifyingBackup { transaction } => match event {
            InstallEvent::Failed(e) => rolls_back(e, true, false, next),
            InstallEvent::Changed => next matches InstallStage::RollingBack { error, existing, installed } && existing
                && !installed && is_path_changed(error, "completion changed while it was moved into transaction backup"@, destination),
            _ => next == InstallStage::Installing { transaction, existing: true },
        },
        InstallStage::Installing { transaction, existing } => match event {
            InstallEvent::Failed(e) => rolls_back(e, existing, false, next),
            _ => next == InstallStage::VerifyingInstall { transaction, existing },
        },
        InstallStage::VerifyingInstall { transaction, existing } => match event {
            InstallEvent::Failed(e) => rolls_back(e, existing, true, next),
            InstallEvent::Changed => next matches InstallStage::RollingBack { error, existing: x, installed } && x == existing
                && installed && is_path_changed(error, "completion changed immediately after atomic install"@, destination),
            _ => next == InstallStage::Syncing { transaction, existing },
        },
        InstallStage::Syncing { transaction, existing } => match event {
            InstallEvent::Failed(e) => rolls_back(e, existing, true, next),
            _ => next == InstallStage::Validating { transaction, existing },
        },
        InstallStage::Validating { transaction, existing } => match event {
            InstallEvent::Failed(e) => rolls_back(e, existing, true, next),
            _ => next == InstallStage::ResolvingPath { transaction },
        },
        InstallStage::RollingBack { error, .. } => match event {
            InstallEvent::RolledBack(failures) => if failures@.len() == 0 {
                next matches InstallStage::Closing { error: e2 } && extended(error, e2, install_rollback_entries(failures@))
            } else {
                next matches InstallStage::Keeping { error: e2 } && extended(error, e2, install_rollback_entries(failures@))
            },
            _ => true,
        },
        InstallStage::Closing { error } => match event {
            InstallEvent::CleanupFailed(m) => next matches InstallStage::Done { result: Err(e2) }
                && extended(error, e2, crate::placement::cleanup_entries(m@)),
            _ => next == InstallStage::Done { result: Err(error) },
        },
        InstallStage::Keeping { error } => match event {
            InstallEvent::PathReady(p) => next matches InstallStage::Done { result: Ok(Some(e2)) }
                && extended(error, e2, install_recovery_entries(Ok(p@))),
            InstallEvent::PathUnavailable(m) => next matches InstallStage::Done { result: Ok(Some(e2)) }
                && extended(error, e2, install_recovery_entries(Err(m@))),
            _ => true,
        },
        InstallStage::ResolvingPath { transaction } => match event {
            InstallEvent::PathReady(p) => next == InstallStage::ClosingCommitted { transaction, path: Ok(p) },
            InstallEvent::PathUnavailable(m) => next == InstallStage::ClosingCommitted { transaction, path: Err(m) },
            _ => true,
        },
        InstallStage::ClosingCommitted { transaction, path } => {
            let cleanup = match event {
                InstallEvent::CleanupFailed(m) => Some(m),
                _ => None,
            };
            if path is Ok && cleanup is None {
                next == InstallStage::FinalSync { transaction }
            } else {
                next matches InstallStage::Done { result: Ok(report) } && closed_report(path, cleanup, report)
            }
        },
        InstallStage::FinalSync { transaction } => match event {
            InstallEvent::Failed(e) => next matches InstallStage::Done { result: Ok(Some(e2)) }
                && is_committed_cleanup_error(e2, transaction@, cleanup_failure_text(e)),
            _ => next == InstallStage::FinalValidate { transaction },
        },
        InstallStage::FinalValidate { transaction } => match event {
            InstallEvent::Failed(e) => next matches InstallStage::Done { result: Ok(Some(e2)) }
                && is_committed_cleanup_error(e2, transaction@, cleanup_failure_text(e)),
            _ => next == InstallStage::Done { result: Ok(None) },
        },
        InstallStage::Done { result } => next == InstallStage::Done { result },
    }
}

impl CompletionInstall {
    pub fn new(destination: String) -> (install: Self)
        ensures
            install.destination == destination,
            install.stage == InstallStage::Preparing,
    {
        CompletionInstall { destination, stage: InstallStage::Preparing }
    }

    /// The step to take next.
    pub fn next_action(&self) -> (action: InstallAction)
        ensures
            action == install_action_of(install_control(self.stage)),
    {
        match &self.stage {
            InstallStage::Preparing => InstallAction::Prepare,
            InstallStage::BackingUp { .. } => InstallAction::BackUp,
            InstallStage::VerifyingBackup { .. } => InstallAction::VerifyBackup,
            InstallStage::Installing { .. } => InstallAction::Install,
            InstallStage::VerifyingInstall { .. } => InstallAction::VerifyInstall,
            InstallStage::Syncing { .. } => InstallAction::SyncParent,
            InstallStage::Validating { .. } => InstallAction::ValidateParent,
            InstallStage::RollingBack { existing, installed, .. } => InstallAction::RollBack {
                existing: *existing,
                installed: *installed,
            },
            InstallStage::Closing { .. } => InstallAction::CloseTransaction,
            InstallStage::Keeping { .. } => InstallAction::KeepTransaction,
            InstallStage::ResolvingPath { .. } => InstallAction::ResolveTransactionPath,
            InstallStage::ClosingCommitted { .. } => InstallAction::CloseTransaction,
            InstallStage::FinalSync { .. } => InstallAction::SyncParent,
            InstallStage::FinalValidate { .. } => InstallAction::ValidateParent,
            InstallStage::Done { .. } => InstallAction::Finish,
        }
    }

    /// Whether `event` is an outcome of the step that the installation asks for.
    pub fn accepts(&self, event: &InstallEvent) -> (fit: bool)
        ensures
            fit == install_fits(install_control(self.stage), install_event_kind(*event)),
    {
        match &self.stage {
            InstallStage::Preparing => matches!(event, InstallEvent::Prepared { .. } | InstallEvent::Failed(_)),
            InstallStage::VerifyingBackup { .. } | InstallStage::VerifyingInstall { .. } => matches!(
                event,
                InstallEvent::Completed | InstallEvent::Failed(_) | InstallEvent::Changed
            ),
            InstallStage::BackingUp { .. } | InstallStage::Installing { .. } | InstallStage::Syncing { .. }
            | InstallStage::Validating { .. } | InstallStage::FinalSync { .. } | InstallStage::FinalValidate { .. } =>
                matches!(event, InstallEvent::Completed | InstallEvent::Failed(_)),
            InstallStage::RollingBack { .. } => matches!(event, InstallEvent::RolledBack(_)),
            InstallStage::Closing { .. } | InstallStage::ClosingCommitted { .. } => matches!(
                event,
                InstallEvent::Completed | InstallEvent::CleanupFailed(_)
            ),
            InstallStage::Keeping { .. } | InstallStage::ResolvingPath { .. } => matches!(
                event,
                InstallEvent::PathReady(_) | InstallEvent::PathUnavailable(_)
            ),
            InstallStage::Done { .. } => false,
        }
    }

    /// Takes the outcome of the step that [`Self::next_action`] named.
    pub fn advance(self, event: InstallEvent) -> (next: Self)
        requires
            install_fits(install_control(self.stage), install_event_kind(event)),
        ensures
            next.destination == self.destination,
            install_control(next.stage) == install_next(install_control(self.stage), install_event_kind(event)),
            install_advanced(self.destination@, self.stage, event, next.stage),
    {
        let destination = self.destination;
        let stage = match self.stage {
            InstallStage::Preparing => match event {
                InstallEvent::Prepared { existing, transaction } => if existing {
                    InstallStage::BackingUp { transaction }
                } else {
                    InstallStage::Installing { transaction, existing: false }
                },
                InstallEvent::Failed(e) => InstallStage::Done { result: Err(e) },
                _ => InstallStage::Preparing,
            },
            InstallStage::BackingUp { transaction } => match event {
                InstallEvent::Failed(e) => InstallStage::Done { result: Err(e) },
                _ => InstallStage::VerifyingBackup { transaction },
            },
            InstallStage::VerifyingBackup { transaction } => match event {
                InstallEvent::Failed(e) => InstallStage::RollingBack { error: e, existing: true, installed: false },
                InstallEvent::Changed => InstallStage::RollingBack {
                    error: path_changed("completion changed while it was moved into transaction backup", destination.as_str()),
                    existing: true,
                    installed: false,
                },
                _ => InstallStage::Installing { transaction, existing: true },
            },
            InstallStage::Installing { transaction, existing } => match event {
                InstallEvent::Failed(e) => InstallStage::RollingBack { error: e, existing, installed: false },
                _ => InstallStage::VerifyingInstall { transaction, existing },
            },
            InstallStage::VerifyingInstall { transaction, existing } => match event {
                InstallEvent::Failed(e) => InstallStage::RollingBack { error: e, existing, installed: true },
                InstallEvent::Changed => InstallStage::RollingBack {
                    error: path_changed("completion changed immediately after atomic install", destination.as_str()),
                    existing,
                    installed: true,
                },
                _ => InstallStage::Syncing { transaction, existing },
            },
            InstallStage::Syncing { transaction, existing } => match event {
                InstallEvent::Failed(e) => InstallStage::RollingBack { error: e, existing, installed: true },
                _ => InstallStage::Validating { transaction, existing },
            },
            InstallStage::Validating { transaction, existing } => match event {
                InstallEvent::Failed(e) => InstallStage::RollingBack { error: e, existing, installed: true },
                _ => InstallStage::ResolvingPath { transaction },
            },
            InstallStage::RollingBack { error, existing, installed } => match event {
                InstallEvent::RolledBack(failures) => {
                    let clean = failures.len() == 0;
                    let error = attach_install_rollback(error, failures);
                    if clean {
                        InstallStage::Closing { error }
                    } else {
                        InstallStage::Keeping { error }
                    }
                },
                _ => InstallStage::RollingBack { error, existing, installed },
            },
            InstallStage::Closing { error } => {
                let cleanup = match event {
                    InstallEvent::CleanupFailed(message) => Some(message),
                    _ => None,
                };
                InstallStage::Done { result: Err(crate::placement::attach_transaction_cleanup(error, cleanup)) }
            },
            InstallStage::Keeping { error } => {
                let kept = match event {
                    InstallEvent::PathReady(path) => Ok(path),
                    InstallEvent::PathUnavailable(message) => Err(message),
                    _ => Err(String::new()),
                };
                InstallStage::Done { result: Ok(Some(keep_error(error, kept))) }
            },
            InstallStage::ResolvingPath { transaction } => {
                let path = match event {
                    InstallEvent::PathReady(path) => Ok(path),
                    InstallEvent::PathUnavailable(message) => Err(message),
                    _ => Err(String::new()),
                };
                InstallStage::ClosingCommitted { transaction, path }
            },
            InstallStage::ClosingCommitted { transaction, path } => {
                let cleanup = match event {
                    InstallEvent::CleanupFailed(message) => Some(message),
                    _ => None,
                };
                if path.is_ok() && cleanup.is_none() {
                    InstallStage::FinalSync { transaction }
                } else {
                    InstallStage::Done { result: Ok(closed_error(path, cleanup)) }
                }
            },
            InstallStage::FinalSync { transaction } => match event {
                InstallEvent::Failed(e) => {
                    let text = cleanup_failure(&e);
                    InstallStage::Done {
                        result: Ok(Some(committed_cleanup_error(transaction.as_str(), text.as_str()))),
                    }
                },
                _ => InstallStage::FinalValidate { transaction },
            },
            InstallStage::FinalValidate { transaction } => match event {
                InstallEvent::Failed(e) => {
                    let text = cleanup_failure(&e);
                    InstallStage::Done {
                        result: Ok(Some(committed_cleanup_error(transaction.as_str(), text.as_str()))),
                    }
                },
                _ => InstallStage::Done { result: Ok(None) },
            },
            InstallStage::Done { result } => InstallStage::Done { result },
        };
        CompletionInstall { destination, stage }
    }

    /// The installation's result once it is done: `Err` when the previous state was
    /// restored, a committed-but-unclean or recovery report in `Ok(Some(..))`, and
    /// `Ok(None)` for a clean installation.
    pub fn into_result(self) -> (result: Result<Option<CliError>, CliError>)
        requires
            self.stage is Done,
        ensures
            self.stage == (InstallStage::Done { result }),
    {
        match self.stage {
            InstallStage::Done { result } => result,
            _ => Ok(None),
        }
    }
}


// ----- laws -----

/// The steps asked for from control state `c` when the steps have the outcomes `ks`, for as
/// long as the outcomes fit the steps.
pub open spec fn install_trace(c: InstallControl, ks: Seq<InstallEventKind>) -> Seq<InstallAction>
    decreases ks.len(),
{
    if ks.len() == 0 || !install_fits(c, ks[0]) {
        Seq::empty()
    } else {
        seq![install_action_of(c)] + install_trace(install_next(c, ks[0]), ks.drop_first())
    }
}

pub open spec fn install_after(c: InstallControl, ks: Seq<InstallEventKind>) -> InstallControl
    decreases ks.len(),
{
    if ks.len() == 0 || !install_fits(c, ks[0]) {
        c
    } else {
        install_after(install_next(c, ks[0]), ks.drop_first())
    }
}

/// The outcomes of an installation in which every step succeeds.
pub open spec fn clean_install_outcomes(existing: bool) -> Seq<InstallEventKind> {
    seq![InstallEventKind::Prepared { existing }] + if existing {
        seq![InstallEventKind::Completed, InstallEventKind::Completed]
    } else {
        Seq::empty()
    } + seq![
        InstallEventKind::Completed,
        InstallEventKind::Completed,
        InstallEventKind::Completed,
        InstallEventKind::Completed,
        InstallEventKind::PathReady,
        InstallEventKind::Completed,
        InstallEventKind::Completed,
        InstallEventKind::Completed,
    ]
}

/// The steps of an installation in which every step succeeds.
pub open spec fn clean_install_steps(existing: bool) -> Seq<InstallAction> {
    seq![InstallAction::Prepare] + if existing {
        seq![InstallAction::BackUp, InstallAction::VerifyBackup]
    } else {
        Seq::empty()
    } + seq![
        InstallAction::Install,
        InstallAction::VerifyInstall,
        InstallAction::SyncParent,
        InstallAction::ValidateParent,
        InstallAction::ResolveTransactionPath,
        InstallAction::CloseTransaction,
        InstallAction::SyncParent,
        InstallAction::ValidateParent,
    ]
}

proof fn lemma_install_tail(existing: bool)
    ensures
        install_trace(InstallControl::Installing { existing }, clean_install_outcomes(false).drop_first())
            == clean_install_steps(false).drop_first(),
        install_after(InstallControl::Installing { existing }, clean_install_outcomes(false).drop_first())
            == InstallControl::Done,
{
    let ks = clean_install_outcomes(false).drop_first();
    let c0 = InstallControl::Installing { existing };
    let c1 = InstallControl::VerifyingInstall { existing };
    let c2 = InstallControl::Syncing { existing };
    let c3 = InstallControl::Validating { existing };
    let c4 = InstallControl::ResolvingPath;
    let c5 = InstallControl::ClosingCommitted { path_found: true };
    let c6 = InstallControl::FinalSync;
    let c7 = InstallControl::FinalValidate;
    let c8 = InstallControl::Done;
    assert(ks =~= seq![
        InstallEventKind::Completed,
        InstallEventKind::Completed,
        InstallEventKind::Completed,
        InstallEventKind::Completed,
        InstallEventKind::PathReady,
        InstallEventKind::Completed,
        InstallEventKind::Completed,
        InstallEventKind::Completed,
    ]);
    let k8 = ks.skip(8);
    let k7 = ks.skip(7);
    let k6 = ks.skip(6);
    let k5 = ks.skip(5);
    let k4 = ks.skip(4);
    let k3 = ks.skip(3);
    let k2 = ks.skip(2);
    let k1 = ks.skip(1);
    assert(k8.len() == 0);
    assert(install_trace(c8, k8) == Seq::<InstallAction>::empty());
    assert(install_after(c8, k8) == c8);
    assert(k7.drop_first() =~= k8);
    assert(install_trace(c7, k7) =~= seq![InstallAction::ValidateParent]);
    assert(install_after(c7, k7) == c8);
    assert(k6.drop_first() =~= k7);
    assert(install_trace(c6, k6) =~= seq![InstallAction::SyncParent, InstallAction::ValidateParent]);
    assert(install_after(c6, k6) == c8);
    assert(k5.drop_first() =~= k6);
    assert(install_trace(c5, k5) =~= seq![InstallAction::CloseTransaction, InstallAction::SyncParent, InstallAction::ValidateParent]);
    assert(install_after(c5, k5) == c8);
    assert(k4.drop_first() =~= k5);
    assert(install_after(c4, k4) == c8);
    assert(install_trace(c4, k4) =~= seq![
        InstallAction::ResolveTransactionPath, InstallAction::CloseTransaction, InstallAction::SyncParent,
        InstallAction::ValidateParent,
    ]);
    assert(k3.drop_first() =~= k4);
    assert(install_after(c3, k3) == c8);
    assert(install_trace(c3, k3) =~= seq![
        InstallAction::ValidateParent, InstallAction::ResolveTransactionPath, InstallAction::CloseTransaction,
        InstallAction::SyncParent, InstallAction::ValidateParent,
    ]);
    assert(k2.drop_first() =~= k3);
    assert(install_after(c2, k2) == c8);
    assert(install_trace(c2, k2) =~= seq![
        InstallAction::SyncParent, InstallAction::ValidateParent, InstallAction::ResolveTransactionPath,
        InstallAction::CloseTransaction, InstallAction::SyncParent, InstallAction::ValidateParent,
    ]);
    assert(k1.drop_first() =~= k2);
    assert(install_after(c1, k1) == c8);
    assert(install_trace(c1, k1) =~= seq![
        InstallAction::VerifyInstall, InstallAction::SyncParent, InstallAction::ValidateParent,
        InstallAction::ResolveTransactionPath, InstallAction::CloseTransaction, InstallAction::SyncParent,
        InstallAction::ValidateParent,
    ]);
    assert(ks.drop_first() =~= k1);
    assert(install_trace(c0, ks) =~= clean_install_steps(false).drop_first());
}

/// An installation in which every step succeeds prepares the new script, moves a previous
/// script aside (and checks it) only when there is one, installs and checks the new script,
/// makes the directory durable, removes the transaction and makes that durable too, and ends
/// with a clean result.
pub proof fn law_clean_install_order(existing: bool)
    ensures
        install_trace(InstallControl::Preparing, clean_install_outcomes(existing)) == clean_install_steps(existing),
        install_after(InstallControl::Preparing, clean_install_outcomes(existing)) == InstallControl::Done,
{
    let ks = clean_install_outcomes(existing);
    lemma_install_tail(existing);
    let tail = clean_install_outcomes(false).drop_first();
    let steps_tail = clean_install_steps(false).drop_first();
    if existing {
        let k1 = ks.drop_first();
        let k2 = k1.drop_first();
        assert(k2.drop_first() =~= tail);
        assert(install_trace(InstallControl::VerifyingBackup, k2) == seq![InstallAction::VerifyBackup] + steps_tail);
        assert(install_trace(InstallControl::BackingUp, k1) == seq![InstallAction::BackUp]
            + (seq![InstallAction::VerifyBackup] + steps_tail));
        assert(install_trace(InstallControl::Preparing, ks) =~= clean_install_steps(existing));
        assert(install_after(InstallControl::VerifyingBackup, k2) == InstallControl::Done);
        assert(install_after(InstallControl::BackingUp, k1) == InstallControl::Done);
        assert(install_after(InstallControl::Preparing, ks) == InstallControl::Done);
    } else {
        assert(ks.drop_first() =~= tail);
        assert(install_trace(InstallControl::Preparing, ks) =~= clean_install_steps(existing));
    }
}

/// Every failure once the previous script was moved aside rolls back: the rollback restores
/// the previous script exactly when there was one, and moves the new script away exactly when
/// it was already installed. A failure before that (preparing or moving the previous script)
/// ends the installation with nothing to roll back.
pub proof fn law_failure_rolls_back(existing: bool, k: InstallEventKind)
    requires
        is_failure(k),
    ensures
        install_next(InstallControl::Preparing, k) == InstallControl::Done,
        install_next(InstallControl::BackingUp, k) == InstallControl::Done,
        install_next(InstallControl::VerifyingBackup, k) == (InstallControl::RollingBack { existing: true, installed: false }),
        install_next(InstallControl::Installing { existing }, k) == (InstallControl::RollingBack { existing, installed: false }),
        install_next(InstallControl::VerifyingInstall { existing }, k) == (InstallControl::RollingBack { existing, installed: true }),
        install_next(InstallControl::Syncing { existing }, k) == (InstallControl::RollingBack { existing, installed: true }),
        install_next(InstallControl::Validating { existing }, k) == (InstallControl::RollingBack { existing, installed: true }),
{
}

/// A clean rollback closes the transaction and reports the error with nothing committed; a
/// rollback that fails keeps the transaction and reports that recovery is required.
pub proof fn law_rollback_result(
    destination: Seq<char>,
    error: CliError,
    existing: bool,
    installed: bool,
    rolled: InstallEvent,
    middle: InstallStage,
    last: InstallEvent,
    end: InstallStage,
)
    requires
        rolled is RolledBack,
        install_advanced(destination, InstallStage::RollingBack { error, existing, installed }, rolled, middle),
        install_fits(install_control(middle), install_event_kind(last)),
        install_advanced(destination, middle, last, end),
    ensures
        install_event_kind(rolled) == (InstallEventKind::RolledBack { clean: true }) ==> (end matches InstallStage::Done {
            result: Err(e) } && view_lookup(object_view(e.details@), "committed"@) == Some(DetailView::Bool(false))),
        install_event_kind(rolled) == (InstallEventKind::RolledBack { clean: false }) ==> (end matches InstallStage::Done {
            result: Ok(Some(e)) } && view_lookup(object_view(e.details@), "recoveryRequired"@) == Some(DetailView::Bool(true))
            && view_lookup(object_view(e.details@), "committed"@) == Some(DetailView::Bool(false))),
{
    reveal_strlit("committed");
    reveal_strlit("rollbackFailed");
    reveal_strlit("rollbackFailures");
    reveal_strlit("recoveryRequired");
    reveal_strlit("recoveryPath");
    reveal_strlit("backupPath");
    reveal_strlit("recoveryPathUnavailable");
    reveal_strlit("recoveryPathError");
    reveal_strlit("phase");
    reveal_strlit("committedState");
    reveal_strlit("transactionCleanupFailed");
    reveal_strlit("transactionCleanupError");
    let failures = match rolled {
        InstallEvent::RolledBack(f) => f@,
        _ => Seq::empty(),
    };
    let d0 = object_view(error.details@);
    let es = install_rollback_entries(failures);
    if failures.len() == 0 {
        let e2 = match middle {
            InstallStage::Closing { error } => error,
            _ => error,
        };
        assert(es =~= seq![("committed"@, DetailView::Bool(false))]);
        lemma_lookup_insert_all(d0, es, 0);
        let d2 = object_view(e2.details@);
        match last {
            InstallEvent::CleanupFailed(m) => {
                let cs = crate::placement::cleanup_entries(m@);
                let all = es + cs;
                assert(all.take(1) =~= es);
                crate::placement::lemma_insert_all_split(d0, es, cs);
                assert forall|j: int| 0 < j < all.len() implies #[trigger] all[j].0 != all[0].0 by {
                    assert(all[j].0.len() != all[0].0.len());
                }
                lemma_lookup_insert_all(d0, all, 0);
            },
            _ => {},
        }
    } else {
        let e2 = match middle {
            InstallStage::Keeping { error } => error,
            _ => error,
        };
        let kept = match last {
            InstallEvent::PathReady(p) => Ok(p@),
            InstallEvent::PathUnavailable(m) => Err(m@),
            _ => Err(Seq::empty()),
        };
        let rs = install_recovery_entries(kept);
        let all = es + rs;
        crate::placement::lemma_insert_all_split(d0, es, rs);
        assert forall|j: int| 0 < j < all.len() implies #[trigger] all[j].0 != all[0].0 by {
            assert(all[j].0.len() != all[0].0.len());
        }
        assert forall|j: int| 3 < j < all.len() implies #[trigger] all[j].0 != all[3].0 by {
            assert(all[j].0.len() != all[3].0.len());
        }
        lemma_lookup_insert_all(d0, all, 0);
        lemma_lookup_insert_all(d0, all, 3);
    }
}

} // verus!
