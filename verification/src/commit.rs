//! Committing one staged placement: the destination it replaces (if any) is moved into the
//! transaction's backup and checked, the staged entry is moved into place without
//! replacing anything, and the installed entry is checked. Whatever fails after the
//! destination was moved aside puts it back; an installed entry that cannot be confirmed is
//! moved aside first, so that nothing that appeared concurrently is destroyed.
//!
//! The filesystem steps are named by [`CommitPlacement::next_action`] and their outcomes
//! taken by [`CommitPlacement::advance`].

use vstd::prelude::*;

use crate::error::{object_view, CliError, DetailValue, DetailView};
use crate::install::{is_path_changed, path_changed};
use crate::mapping::{flag_is, text_view};
use crate::placement::{attach_rollback_failures, extended, lemma_lookup_insert_all, rollback_entries, view_lookup};

verus! {

/// A filesystem step of a commit.
#[derive(Clone, Copy, Debug, PartialEq, Eq, Structural)]
pub enum CommitAction {
    /// Check the target root and the destination again and open the destination's parent.
    CheckDestination,
    /// Look up the staged entry in the transaction.
    ReadStaged,
    /// Move the destination into the transaction's backup.
    MoveToBackup,
    /// Check that the backup is the destination that was validated.
    VerifyBackup,
    /// Move the backup back to the destination, refusing to replace anything.
    RestoreBackup,
    /// Move the staged entry to the destination, refusing to replace anything.
    Install,
    /// Check that the destination is the staged entry.
    VerifyInstalled,
    /// Move the unconfirmed installed entry aside into the transaction.
    PreserveInstalled,
    /// Check that what was moved aside is the staged entry.
    VerifyPreserved,
    /// Move what was moved aside back to the destination, refusing to replace anything.
    RestorePreserved,
    Finish,
}

/// The outcome of a step.
#[derive(Debug)]
pub enum CommitEvent {
    Completed,
    Failed(CliError),
    /// The entry checked is not the expected one.
    Changed,
    /// The entry looked up is absent.
    Absent,
    /// A restoring or preserving rename failed, with what went wrong.
    RenameFailed(String),
}

/// Where the commit stands.
#[derive(Debug)]
pub enum CommitStage {
    Checking,
    ReadingStaged,
    BackingUp,
    VerifyingBackup,
    /// Restoring the backup after `error`; a failed restore is recorded under `phase`.
    RestoringBackup { error: CliError, phase: String },
    Installing,
    VerifyingInstall,
    Preserving { error: CliError },
    VerifyingPreserved { error: CliError },
    RestoringPreserved { error: CliError },
    Done { result: Result<(), CliError> },
}

/// The commit of one plan: whether its destination existed (and so gets a backup), the
/// destination's parent and the destination itself, for the errors.
#[derive(Debug)]
pub struct CommitPlacement {
    pub had_backup: bool,
    pub parent_path: String,
    pub destination: String,
    pub stage: CommitStage,
}

pub open spec fn commit_action_of(stage: CommitStage) -> CommitAction {
    match stage {
        CommitStage::Checking => CommitAction::CheckDestination,
        CommitStage::ReadingStaged => CommitAction::ReadStaged,
        CommitStage::BackingUp => CommitAction::MoveToBackup,
        CommitStage::VerifyingBackup => CommitAction::VerifyBackup,
        CommitStage::RestoringBackup { .. } => CommitAction::RestoreBackup,
        CommitStage::Installing => CommitAction::Install,
        CommitStage::VerifyingInstall => CommitAction::VerifyInstalled,
        CommitStage::Preserving { .. } => CommitAction::PreserveInstalled,
        CommitStage::VerifyingPreserved { .. } => CommitAction::VerifyPreserved,
        CommitStage::RestoringPreserved { .. } => CommitAction::RestorePreserved,
        CommitStage::Done { .. } => CommitAction::Finish,
    }
}

/// The outcomes that each step can have.
pub open spec fn commit_fits(stage: CommitStage, event: CommitEvent) -> bool {
    match stage {
        CommitStage::Checking | CommitStage::BackingUp | CommitStage::Installing => event is Completed || event is Failed,
        CommitStage::ReadingStaged => event is Completed || event is Failed || event is Absent,
        CommitStage::VerifyingBackup | CommitStage::VerifyingPreserved { .. } => event is Completed || event is Failed
            || event is Changed,
        CommitStage::VerifyingInstall => event is Completed || event is Failed || event is Changed || event is Absent,
        CommitStage::RestoringBackup { .. } | CommitStage::Preserving { .. } | CommitStage::RestoringPreserved { .. } =>
            event is Completed || event is RenameFailed,
        CommitStage::Done { .. } => false,
    }
}

/// A failure record `{phase, message}`.
pub open spec fn phase_failure_view(phase: Seq<char>, message: Seq<char>) -> DetailView {
    DetailView::Object(seq![("phase"@, text_view(phase)), ("message"@, text_view(message))])
}

/// `out` is `e` with one failure record attached.
pub open spec fn with_failure(e: CliError, phase: Seq<char>, message: Seq<char>, out: CliError) -> bool {
    extended(e, out, rollback_entries(seq![phase_failure_view(phase, message)]))
}

/// The stage after a failed commit step that happened with the destination moved aside:
/// the backup is restored, with the failure recorded under `phase` if that fails too.
pub open spec fn restoring(e: CliError, phase: Seq<char>, next: CommitStage) -> bool {
    next matches CommitStage::RestoringBackup { error, phase: p } && error == e && p@ == phase
}

/// How a commit step's outcome changes the stage, for a commit with or without a backup,
/// the destination's parent and the destination.
pub open spec fn commit_advanced(
    had_backup: bool,
    parent: Seq<char>,
    destination: Seq<char>,
    old: CommitStage,
    event: CommitEvent,
    next: CommitStage,
) -> bool {
    match old {
        CommitStage::Checking => match event {
            CommitEvent::Failed(e) => next == CommitStage::Done { result: Err(e) },
            _ => next == CommitStage::ReadingStaged,
        },
        CommitStage::ReadingStaged => match event {
            CommitEvent::Failed(e) => next == CommitStage::Done { result: Err(e) },
            CommitEvent::Absent => next matches CommitStage::Done { result: Err(e) }
                && is_path_changed(e, "staged placement disappeared before install"@, parent),
            _ => next == if had_backup { CommitStage::BackingUp } else { CommitStage::Installing },
        },
        CommitStage::BackingUp => match event {
            CommitEvent::Failed(e) => next == CommitStage::Done { result: Err(e) },
            _ => next == CommitStage::VerifyingBackup,
        },
        CommitStage::VerifyingBackup => match event {
            CommitEvent::Failed(e) => restoring(e, "restore-after-backup-inspection"@, next),
            CommitEvent::Changed => next matches CommitStage::RestoringBackup { error, phase } && phase@ == "restore-mismatched-backup"@
                && is_path_changed(error, "destination changed while it was moved into transaction backup"@, destination),
            _ => next == CommitStage::Installing,
        },
        CommitStage::RestoringBackup { error, phase } => match event {
            CommitEvent::RenameFailed(m) => next matches CommitStage::Done { result: Err(e2) } && with_failure(error, phase@, m@, e2),
            _ => next == CommitStage::Done { result: Err(error) },
        },
        CommitStage::Installing => match event {
            CommitEvent::Failed(e) => if had_backup {
                restoring(e, "restore-current"@, next)
            } else {
                next == CommitStage::Done { result: Err(e) }
            },
            _ => next == CommitStage::VerifyingInstall,
        },
        CommitStage::VerifyingInstall => match event {
            CommitEvent::Completed => next == CommitStage::Done { result: Ok(()) },
            CommitEvent::Absent => next matches CommitStage::Done { result: Err(e) } && exists|e0: CliError|
                is_path_changed(e0, "installed placement disappeared"@, parent) && #[trigger] with_failure(
                e0,
                "inspect-installed"@,
                "installed destination disappeared before identity confirmation"@,
                e,
            ),
            CommitEvent::Failed(e) => next == CommitStage::Preserving { error: e },
            _ => next matches CommitStage::Preserving { error } && is_path_changed(
                error,
                "destination changed immediately after atomic install"@,
                destination,
            ),
        },
        CommitStage::Preserving { error } => match event {
            CommitEvent::RenameFailed(m) => next matches CommitStage::Done { result: Err(e2) } && with_failure(
                error,
                "preserve-unverified-install"@,
                m@,
                e2,
            ),
            _ => next == CommitStage::VerifyingPreserved { error },
        },
        CommitStage::VerifyingPreserved { error } => match event {
            CommitEvent::Completed => if had_backup {
                restoring(error, "restore-after-install-inspection"@, next)
            } else {
                next == CommitStage::Done { result: Err(error) }
            },
            _ => next == CommitStage::RestoringPreserved { error },
        },
        CommitStage::RestoringPreserved { error } => match event {
            CommitEvent::RenameFailed(m) => next matches CommitStage::Done { result: Err(e2) } && with_failure(
                error,
                "unverified-install-identity"@,
                "concurrent destination recovery failed: "@ + m@,
                e2,
            ),
            _ => next matches CommitStage::Done { result: Err(e2) } && with_failure(
                error,
                "unverified-install-identity"@,
                "concurrent destination restored; validated backup retained"@,
                e2,
            ),
        },
        CommitStage::Done { result } => next == CommitStage::Done { result },
    }
}

fn phase_failure(phase: &str, message: &str) -> (value: DetailValue)
    ensures
        crate::error::detail_view(value) == phase_failure_view(phase@, message@),
{
    let mut entries: Vec<(String, DetailValue)> = Vec::new();
    entries.push(("phase".to_owned(), DetailValue::Text(phase.to_owned())));
    entries.push(("message".to_owned(), DetailValue::Text(message.to_owned())));
    proof {
        crate::error::lemma_object_view_index(entries@);
        assert(object_view(entries@) =~= seq![("phase"@, text_view(phase@)), ("message"@, text_view(message@))]);
    }
    DetailValue::Object(entries)
}

fn attach_failure(error: CliError, phase: &str, message: &str) -> (out: CliError)
    ensures
        with_failure(error, phase@, message@, out),
{
    let mut failures: Vec<DetailValue> = Vec::new();
    let entry = phase_failure(phase, message);
    proof {
        crate::error::lemma_list_view_push(failures@, entry);
        assert(crate::error::list_view(Seq::<DetailValue>::empty()) =~= Seq::empty());
        assert(Seq::<DetailView>::empty().push(crate::error::detail_view(entry)) =~= seq![phase_failure_view(phase@, message@)]);
    }
    failures.push(entry);
    attach_rollback_failures(error, failures)
}

impl CommitPlacement {
    pub fn new(had_backup: bool, parent_path: String, destination: String) -> (commit: Self)
        ensures
            commit.had_backup == had_backup,
            commit.parent_path == parent_path,
            commit.destination == destination,
            commit.stage == CommitStage::Checking,
    {
        CommitPlacement { had_backup, parent_path, destination, stage: CommitStage::Checking }
    }

    /// The step to take next.
    pub fn next_action(&self) -> (action: CommitAction)
        ensures
            action == commit_action_of(self.stage),
    {
        match &self.stage {
            CommitStage::Checking => CommitAction::CheckDestination,
            CommitStage::ReadingStaged => CommitAction::ReadStaged,
            CommitStage::BackingUp => CommitAction::MoveToBackup,
            CommitStage::VerifyingBackup => CommitAction::VerifyBackup,
            CommitStage::RestoringBackup { .. } => CommitAction::RestoreBackup,
            CommitStage::Installing => CommitAction::Install,
            CommitStage::VerifyingInstall => CommitAction::VerifyInstalled,
            CommitStage::Preserving { .. } => CommitAction::PreserveInstalled,
            CommitStage::VerifyingPreserved { .. } => CommitAction::VerifyPreserved,
            CommitStage::RestoringPreserved { .. } => CommitAction::RestorePreserved,
            CommitStage::Done { .. } => CommitAction::Finish,
        }
    }

    /// Whether `event` is an outcome of the step that the commit asks for.
    pub fn accepts(&self, event: &CommitEvent) -> (fit: bool)
        ensures
            fit == commit_fits(self.stage, *event),
    {
        match &self.stage {
            CommitStage::Checking | CommitStage::BackingUp | CommitStage::Installing => matches!(
                event,
                CommitEvent::Completed | CommitEvent::Failed(_)
            ),
            CommitStage::ReadingStaged => matches!(
                event,
                CommitEvent::Completed | CommitEvent::Failed(_) | CommitEvent::Absent
            ),
            CommitStage::VerifyingBackup | CommitStage::VerifyingPreserved { .. } => matches!(
                event,
                CommitEvent::Completed | CommitEvent::Failed(_) | CommitEvent::Changed
            ),
            CommitStage::VerifyingInstall => matches!(
                event,
                CommitEvent::Completed | CommitEvent::Failed(_) | CommitEvent::Changed | CommitEvent::Absent
            ),
            CommitStage::RestoringBackup { .. } | CommitStage::Preserving { .. }
            | CommitStage::RestoringPreserved { .. } => matches!(
                event,
                CommitEvent::Completed | CommitEvent::RenameFailed(_)
            ),
            CommitStage::Done { .. } => false,
        }
    }

    /// Takes the outcome of the step that [`Self::next_action`] named.
    pub fn advance(self, event: CommitEvent) -> (next: Self)
        requires
            commit_fits(self.stage, event),
        ensures
            next.had_backup == self.had_backup,
            next.parent_path == self.parent_path,
            next.destination == self.destination,
            commit_advanced(self.had_backup, self.parent_path@, self.destination@, self.stage, event, next.stage),
    {
        let had_backup = self.had_backup;
        let parent_path = self.parent_path;
        let destination = self.destination;
        let stage = match self.stage {
            CommitStage::Checking => match event {
                CommitEvent::Failed(e) => CommitStage::Done { result: Err(e) },
                _ => CommitStage::ReadingStaged,
            },
            CommitStage::ReadingStaged => match event {
                CommitEvent::Failed(e) => CommitStage::Done { result: Err(e) },
                CommitEvent::Absent => CommitStage::Done {
                    result: Err(path_changed("staged placement disappeared before install", parent_path.as_str())),
                },
                _ => if had_backup { CommitStage::BackingUp } else { CommitStage::Installing },
            },
            CommitStage::BackingUp => match event {
                CommitEvent::Failed(e) => CommitStage::Done { result: Err(e) },
                _ => CommitStage::VerifyingBackup,
            },
            CommitStage::VerifyingBackup => match event {
                CommitEvent::Failed(e) => CommitStage::RestoringBackup {
                    error: e,
                    phase: "restore-after-backup-inspection".to_owned(),
                },
                CommitEvent::Changed => CommitStage::RestoringBackup {
                    error: path_changed(
                        "destination changed while it was moved into transaction backup",
                        destination.as_str(),
                    ),
                    phase: "restore-mismatched-backup".to_owned(),
                },
                _ => CommitStage::Installing,
            },
            CommitStage::RestoringBackup { error, phase } => match event {
                CommitEvent::RenameFailed(message) => CommitStage::Done {
                    result: Err(attach_failure(error, phase.as_str(), message.as_str())),
                },
                _ => CommitStage::Done { result: Err(error) },
            },
            CommitStage::Installing => match event {
                CommitEvent::Failed(e) => if had_backup {
                    CommitStage::RestoringBackup { error: e, phase: "restore-current".to_owned() }
                } else {
                    CommitStage::Done { result: Err(e) }
                },
                _ => CommitStage::VerifyingInstall,
            },
            CommitStage::VerifyingInstall => match event {
                CommitEvent::Completed => CommitStage::Done { result: Ok(()) },
                CommitEvent::Absent => {
                    let e0 = path_changed("installed placement disappeared", parent_path.as_str());
                    let ghost g0 = e0;
                    let e = attach_failure(
                        e0,
                        "inspect-installed",
                        "installed destination disappeared before identity confirmation",
                    );
                    assert(with_failure(
                        g0,
                        "inspect-installed"@,
                        "installed destination disappeared before identity confirmation"@,
                        e,
                    ));
                    CommitStage::Done { result: Err(e) }
                },
                CommitEvent::Failed(e) => CommitStage::Preserving { error: e },
                _ => CommitStage::Preserving {
                    error: path_changed("destination changed immediately after atomic install", destination.as_str()),
                },
            },
            CommitStage::Preserving { error } => match event {
                CommitEvent::RenameFailed(message) => CommitStage::Done {
                    result: Err(attach_failure(error, "preserve-unverified-install", message.as_str())),
                },
                _ => CommitStage::VerifyingPreserved { error },
            },
            CommitStage::VerifyingPreserved { error } => match event {
                CommitEvent::Completed => if had_backup {
                    CommitStage::RestoringBackup { error, phase: "restore-after-install-inspection".to_owned() }
                } else {
                    CommitStage::Done { result: Err(error) }
                },
                _ => CommitStage::RestoringPreserved { error },
            },
            CommitStage::RestoringPreserved { error } => match event {
                CommitEvent::RenameFailed(message) => {
                    let mut text = String::from_str("concurrent destination recovery failed: ");
                    text.append(message.as_str());
                    CommitStage::Done {
                        result: Err(attach_failure(error, "unverified-install-identity", text.as_str())),
                    }
                },
                _ => CommitStage::Done {
                    result: Err(attach_failure(
                        error,
                        "unverified-install-identity",
                        "concurrent destination restored; validated backup retained",
                    )),
                },
            },
            CommitStage::Done { result } => CommitStage::Done { result },
        };
        CommitPlacement { had_backup, parent_path, destination, stage }
    }

    /// The commit's result once it is done.
    pub fn into_result(self) -> (result: Result<(), CliError>)
        requires
            self.stage is Done,
        ensures
            self.stage == (CommitStage::Done { result }),
    {
        match self.stage {
            CommitStage::Done { result } => result,
            _ => Ok(()),
        }
    }
}


// ----- laws -----

/// Once the destination was moved into the backup, a failure of the commit puts it back:
/// a backup that cannot be confirmed, a failed install, or an unconfirmed install whose
/// entry was safely moved aside all lead to restoring the backup.
pub proof fn law_backup_is_restored_after_failure(
    parent: Seq<char>,
    destination: Seq<char>,
    old: CommitStage,
    event: CommitEvent,
    next: CommitStage,
)
    requires
        commit_fits(old, event),
        commit_advanced(true, parent, destination, old, event, next),
    ensures
        old is VerifyingBackup && (event is Failed || event is Changed) ==> commit_action_of(next) == CommitAction::RestoreBackup,
        old is Installing && event is Failed ==> commit_action_of(next) == CommitAction::RestoreBackup,
        old is VerifyingPreserved && event is Completed ==> commit_action_of(next) == CommitAction::RestoreBackup,
{
}

/// A commit without a destination to replace never enters the backup steps: from any stage
/// outside them, the next step is not a backup step.
pub proof fn law_no_backup_no_restore(parent: Seq<char>, destination: Seq<char>, old: CommitStage, event: CommitEvent, next: CommitStage)
    requires
        commit_fits(old, event),
        !(old is BackingUp || old is VerifyingBackup || old is RestoringBackup),
        commit_advanced(false, parent, destination, old, event, next),
    ensures
        !(next is BackingUp || next is VerifyingBackup || next is RestoringBackup),
{
}

/// A commit whose restoring or preserving rename fails ends with an error that reports the
/// failed rollback; one whose restore works ends with the original error unchanged.
pub proof fn law_failed_restore_is_reported(
    had_backup: bool,
    parent: Seq<char>,
    destination: Seq<char>,
    old: CommitStage,
    event: CommitEvent,
    next: CommitStage,
)
    requires
        old is RestoringBackup || old is Preserving || old is RestoringPreserved,
        commit_fits(old, event),
        commit_advanced(had_backup, parent, destination, old, event, next),
    ensures
        event is RenameFailed ==> (next matches CommitStage::Done { result: Err(e) } && view_lookup(
            object_view(e.details@),
            "rollbackFailed"@,
        ) == Some(DetailView::Bool(true))),
        event is Completed ==> (old matches CommitStage::RestoringBackup { error, .. } ==> next == (CommitStage::Done {
            result: Err(error),
        })),
{
    reveal_strlit("rollbackFailed");
    reveal_strlit("rollbackFailures");
    if event is RenameFailed {
        let (error, phase, message) = match old {
            CommitStage::RestoringBackup { error, phase } => (error, phase@, event->RenameFailed_0@),
            CommitStage::Preserving { error } => (error, "preserve-unverified-install"@, event->RenameFailed_0@),
            CommitStage::RestoringPreserved { error } => (
                error,
                "unverified-install-identity"@,
                "concurrent destination recovery failed: "@ + event->RenameFailed_0@,
            ),
            _ => (arbitrary(), Seq::empty(), Seq::empty()),
        };
        let es = rollback_entries(seq![phase_failure_view(phase, message)]);
        assert(es[1].0 != es[0].0) by {
            assert(es[1].0.len() != es[0].0.len());
        }
        lemma_lookup_insert_all(object_view(error.details@), es, 0);
    }
}


// ----- rolling back a committed placement -----

/// A filesystem step of rolling back one committed placement.
#[derive(Clone, Copy, Debug, PartialEq, Eq, Structural)]
pub enum RollbackAction {
    /// Check that the destination is still the entry that was installed.
    CheckInstalled,
    /// Move the installed entry aside into the transaction.
    PreserveInstalled,
    /// Check that what was moved aside is the installed entry.
    VerifyPreserved,
    /// Move what was moved aside back to the destination, refusing to replace anything.
    RestorePreserved,
    /// Move the backup back to the destination, refusing to replace anything.
    RestoreBackup,
    Finish,
}

/// The outcome of a rollback step.
#[derive(Debug)]
pub enum RollbackEvent {
    Completed,
    /// The step failed, with what went wrong.
    Failed(String),
    /// The entry looked up is absent.
    Absent,
    /// The entry checked is not the expected one.
    Changed,
}

#[derive(Debug)]
pub enum RollbackStage {
    Checking,
    Preserving,
    VerifyingPreserved,
    RestoringPreserved,
    RestoringBackup,
    Done { result: Result<(), String> },
}

/// The rollback of one committed placement, which restores its backup when it had one.
#[derive(Debug)]
pub struct RollbackPlacement {
    pub had_backup: bool,
    pub stage: RollbackStage,
}

pub open spec fn rollback_action_of(stage: RollbackStage) -> RollbackAction {
    match stage {
        RollbackStage::Checking => RollbackAction::CheckInstalled,
        RollbackStage::Preserving => RollbackAction::PreserveInstalled,
        RollbackStage::VerifyingPreserved => RollbackAction::VerifyPreserved,
        RollbackStage::RestoringPreserved => RollbackAction::RestorePreserved,
        RollbackStage::RestoringBackup => RollbackAction::RestoreBackup,
        RollbackStage::Done { .. } => RollbackAction::Finish,
    }
}

pub open spec fn rollback_fits(stage: RollbackStage, event: RollbackEvent) -> bool {
    match stage {
        RollbackStage::Checking | RollbackStage::VerifyingPreserved => true,
        RollbackStage::Preserving | RollbackStage::RestoringPreserved | RollbackStage::RestoringBackup => event is Completed
            || event is Failed,
        RollbackStage::Done { .. } => false,
    }
}

pub open spec fn text_result(r: Result<(), String>) -> Result<(), Seq<char>> {
    match r {
        Ok(_) => Ok(()),
        Err(m) => Err(m@),
    }
}

/// How a rollback step's outcome changes the stage.
pub open spec fn rollback_advanced(had_backup: bool, old: RollbackStage, event: RollbackEvent, next: RollbackStage) -> bool {
    let after_preserve = if had_backup { RollbackStage::RestoringBackup } else { RollbackStage::Done { result: Ok(()) } };
    match old {
        RollbackStage::Checking => match event {
            RollbackEvent::Completed => next == RollbackStage::Preserving,
            RollbackEvent::Failed(m) => next matches RollbackStage::Done { result } && text_result(result) == Err::<(), Seq<char>>(m@),
            RollbackEvent::Absent => next matches RollbackStage::Done { result } && text_result(result) == Err::<(), Seq<char>>(
                "installed destination disappeared before rollback"@,
            ),
            RollbackEvent::Changed => next matches RollbackStage::Done { result } && text_result(result) == Err::<(), Seq<char>>(
                "installed destination changed before rollback"@,
            ),
        },
        RollbackStage::Preserving => match event {
            RollbackEvent::Failed(m) => next matches RollbackStage::Done { result } && text_result(result) == Err::<(), Seq<char>>(
                "preserve installed value before rollback: "@ + m@,
            ),
            _ => next == RollbackStage::VerifyingPreserved,
        },
        RollbackStage::VerifyingPreserved => match event {
            RollbackEvent::Completed => next == after_preserve,
            RollbackEvent::Failed(m) => next matches RollbackStage::Done { result } && text_result(result) == Err::<(), Seq<char>>(m@),
            RollbackEvent::Absent => next matches RollbackStage::Done { result } && text_result(result) == Err::<(), Seq<char>>(
                "installed destination disappeared while preserving rollback"@,
            ),
            RollbackEvent::Changed => next == RollbackStage::RestoringPreserved,
        },
        RollbackStage::RestoringPreserved => next matches RollbackStage::Done { result } && text_result(result)
            == Err::<(), Seq<char>>(
            "installed destination changed while preserving rollback; restore="@ + match event {
                RollbackEvent::Failed(m) => m@,
                _ => "completed"@,
            },
        ),
        RollbackStage::RestoringBackup => match event {
            RollbackEvent::Failed(m) => next matches RollbackStage::Done { result } && text_result(result) == Err::<(), Seq<char>>(
                "restore transaction backup: "@ + m@,
            ),
            _ => next matches RollbackStage::Done { result } && result is Ok,
        },
        RollbackStage::Done { result } => next == RollbackStage::Done { result },
    }
}

fn prefixed(prefix: &str, message: &str) -> (text: String)
    ensures
        text@ == prefix@ + message@,
{
    let mut text = String::from_str(prefix);
    text.append(message);
    text
}

impl RollbackPlacement {
    pub fn new(had_backup: bool) -> (rollback: Self)
        ensures
            rollback.had_backup == had_backup,
            rollback.stage == RollbackStage::Checking,
    {
        RollbackPlacement { had_backup, stage: RollbackStage::Checking }
    }

    pub fn next_action(&self) -> (action: RollbackAction)
        ensures
            action == rollback_action_of(self.stage),
    {
        match &self.stage {
            RollbackStage::Checking => RollbackAction::CheckInstalled,
            RollbackStage::Preserving => RollbackAction::PreserveInstalled,
            RollbackStage::VerifyingPreserved => RollbackAction::VerifyPreserved,
            RollbackStage::RestoringPreserved => RollbackAction::RestorePreserved,
            RollbackStage::RestoringBackup => RollbackAction::RestoreBackup,
            RollbackStage::Done { .. } => RollbackAction::Finish,
        }
    }

    /// Whether `event` is an outcome of the step that the rollback asks for.
    pub fn accepts(&self, event: &RollbackEvent) -> (fit: bool)
        ensures
            fit == rollback_fits(self.stage, *event),
    {
        match &self.stage {
            RollbackStage::Checking | RollbackStage::VerifyingPreserved => true,
            RollbackStage::Preserving | RollbackStage::RestoringPreserved | RollbackStage::RestoringBackup => matches!(
                event,
                RollbackEvent::Completed | RollbackEvent::Failed(_)
            ),
            RollbackStage::Done { .. } => false,
        }
    }

    /// Takes the outcome of the step that [`Self::next_action`] named.
    pub fn advance(self, event: RollbackEvent) -> (next: Self)
        requires
            rollback_fits(self.stage, event),
        ensures
            next.had_backup == self.had_backup,
            rollback_advanced(self.had_backup, self.stage, event, next.stage),
    {
        let had_backup = self.had_backup;
        let stage = match self.stage {
            RollbackStage::Checking => match event {
                RollbackEvent::Completed => RollbackStage::Preserving,
                RollbackEvent::Failed(message) => RollbackStage::Done { result: Err(message) },
                RollbackEvent::Absent => RollbackStage::Done {
                    result: Err("installed destination disappeared before rollback".to_owned()),
                },
                RollbackEvent::Changed => RollbackStage::Done {
                    result: Err("installed destination changed before rollback".to_owned()),
                },
            },
            RollbackStage::Preserving => match event {
                RollbackEvent::Failed(message) => RollbackStage::Done {
                    result: Err(prefixed("preserve installed value before rollback: ", message.as_str())),
                },
                _ => RollbackStage::VerifyingPreserved,
            },
            RollbackStage::VerifyingPreserved => match event {
                RollbackEvent::Completed => if had_backup {
                    RollbackStage::RestoringBackup
                } else {
                    RollbackStage::Done { result: Ok(()) }
                },
                RollbackEvent::Failed(message) => RollbackStage::Done { result: Err(message) },
                RollbackEvent::Absent => RollbackStage::Done {
                    result: Err("installed destination disappeared while preserving rollback".to_owned()),
                },
                RollbackEvent::Changed => RollbackStage::RestoringPreserved,
            },
            RollbackStage::RestoringPreserved => {
                let outcome = match event {
                    RollbackEvent::Failed(message) => message,
                    _ => "completed".to_owned(),
                };
                RollbackStage::Done {
                    result: Err(prefixed(
                        "installed destination changed while preserving rollback; restore=",
                        outcome.as_str(),
                    )),
                }
            },
            RollbackStage::RestoringBackup => match event {
                RollbackEvent::Failed(message) => RollbackStage::Done {
                    result: Err(prefixed("restore transaction backup: ", message.as_str())),
                },
                _ => RollbackStage::Done { result: Ok(()) },
            },
            RollbackStage::Done { result } => RollbackStage::Done { result },
        };
        RollbackPlacement { had_backup, stage }
    }

    pub fn into_result(self) -> (result: Result<(), String>)
        requires
            self.stage is Done,
        ensures
            self.stage == (RollbackStage::Done { result }),
    {
        match self.stage {
            RollbackStage::Done { result } => result,
            _ => Ok(()),
        }
    }
}

/// A rollback that succeeds has moved the installed entry aside after confirming it, and
/// restored the backup when there was one.
pub proof fn law_successful_rollback_restores_backup(had_backup: bool, event: RollbackEvent, next: RollbackStage)
    requires
        rollback_advanced(had_backup, RollbackStage::VerifyingPreserved, event, next),
        event is Completed,
    ensures
        had_backup ==> rollback_action_of(next) == RollbackAction::RestoreBackup,
        !had_backup ==> (next matches RollbackStage::Done { result } && result is Ok),
{
}

} // verus!
