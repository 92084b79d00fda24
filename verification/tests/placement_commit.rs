use vde_worktree::commit::{
    CommitAction, CommitEvent, CommitPlacement, RollbackAction, RollbackEvent, RollbackPlacement,
};
use vde_worktree::error::{CliError, DetailValue, ErrorCode};

fn commit(
    had_backup: bool,
    mut answer: impl FnMut(CommitAction) -> Option<CommitEvent>,
) -> (Vec<CommitAction>, Result<(), CliError>) {
    let mut machine = CommitPlacement::new(had_backup, "/target/config".to_owned(), "/target/config/value".to_owned());
    let mut actions = Vec::new();
    loop {
        let action = machine.next_action();
        if action == CommitAction::Finish {
            return (actions, machine.into_result());
        }
        actions.push(action);
        let event = answer(action).unwrap_or(CommitEvent::Completed);
        assert!(machine.accepts(&event), "{action:?}");
        machine = machine.advance(event);
    }
}

fn failures(error: &CliError) -> &[DetailValue] {
    match error.detail("rollbackFailures") {
        Some(DetailValue::List(items)) => items.as_slice(),
        _ => &[],
    }
}

fn failure(phase: &str, message: &str) -> DetailValue {
    DetailValue::Object(vec![
        ("phase".to_owned(), DetailValue::Text(phase.to_owned())),
        ("message".to_owned(), DetailValue::Text(message.to_owned())),
    ])
}

#[test]
fn commit_replacing_a_destination_backs_it_up_then_installs() {
    let (actions, result) = commit(true, |_| None);
    assert_eq!(
        actions,
        vec![
            CommitAction::CheckDestination,
            CommitAction::ReadStaged,
            CommitAction::MoveToBackup,
            CommitAction::VerifyBackup,
            CommitAction::Install,
            CommitAction::VerifyInstalled,
        ]
    );
    assert!(result.is_ok());
    let (actions, _) = commit(false, |_| None);
    assert_eq!(actions.len(), 4);
}

#[test]
fn commit_failed_install_restores_the_backup() {
    let (actions, result) = commit(true, |action| match action {
        CommitAction::Install => Some(CommitEvent::Failed(CliError::new(ErrorCode::PathOutsideRepo, "destination exists"))),
        _ => None,
    });
    assert_eq!(actions.last(), Some(&CommitAction::RestoreBackup));
    let error = result.unwrap_err();
    assert_eq!(error.message, "destination exists");
    assert_eq!(error.detail("rollbackFailed"), None);
}

#[test]
fn commit_swapped_destination_is_restored_without_clobber() {
    let (actions, result) = commit(true, |action| match action {
        CommitAction::VerifyBackup => Some(CommitEvent::Changed),
        CommitAction::RestoreBackup => Some(CommitEvent::RenameFailed("destination exists".to_owned())),
        _ => None,
    });
    assert_eq!(actions[3..], [CommitAction::VerifyBackup, CommitAction::RestoreBackup]);
    let error = result.unwrap_err();
    assert_eq!(error.message, "destination changed while it was moved into transaction backup");
    assert_eq!(error.detail("path"), Some(&DetailValue::Text("/target/config/value".to_owned())));
    assert_eq!(error.detail("rollbackFailed"), Some(&DetailValue::Bool(true)));
    assert_eq!(failures(&error), vec![failure("restore-mismatched-backup", "destination exists")]);
}

#[test]
fn commit_unconfirmed_install_is_preserved_before_the_backup_returns() {
    let (actions, result) = commit(true, |action| match action {
        CommitAction::VerifyInstalled => Some(CommitEvent::Changed),
        _ => None,
    });
    assert_eq!(
        actions[5..],
        [
            CommitAction::VerifyInstalled,
            CommitAction::PreserveInstalled,
            CommitAction::VerifyPreserved,
            CommitAction::RestoreBackup,
        ]
    );
    let error = result.unwrap_err();
    assert_eq!(error.message, "destination changed immediately after atomic install");
    assert!(failures(&error).is_empty());
}

#[test]
fn commit_concurrent_install_is_put_back_and_reported() {
    let (actions, result) = commit(false, |action| match action {
        CommitAction::VerifyInstalled => Some(CommitEvent::Changed),
        CommitAction::VerifyPreserved => Some(CommitEvent::Changed),
        _ => None,
    });
    assert_eq!(actions.last(), Some(&CommitAction::RestorePreserved));
    let error = result.unwrap_err();
    assert_eq!(
        failures(&error),
        vec![failure("unverified-install-identity", "concurrent destination restored; validated backup retained")]
    );
}

#[test]
fn commit_vanished_install_and_staged_entry_are_reported() {
    let (_, result) = commit(false, |action| match action {
        CommitAction::VerifyInstalled => Some(CommitEvent::Absent),
        _ => None,
    });
    let error = result.unwrap_err();
    assert_eq!(error.message, "installed placement disappeared");
    assert_eq!(
        failures(&error),
        vec![failure("inspect-installed", "installed destination disappeared before identity confirmation")]
    );

    let (actions, result) = commit(true, |action| match action {
        CommitAction::ReadStaged => Some(CommitEvent::Absent),
        _ => None,
    });
    assert_eq!(actions.len(), 2);
    assert_eq!(result.unwrap_err().message, "staged placement disappeared before install");
}

fn rollback(had_backup: bool, mut answer: impl FnMut(RollbackAction) -> Option<RollbackEvent>) -> (Vec<RollbackAction>, Result<(), String>) {
    let mut machine = RollbackPlacement::new(had_backup);
    let mut actions = Vec::new();
    loop {
        let action = machine.next_action();
        if action == RollbackAction::Finish {
            return (actions, machine.into_result());
        }
        actions.push(action);
        let event = answer(action).unwrap_or(RollbackEvent::Completed);
        assert!(machine.accepts(&event));
        machine = machine.advance(event);
    }
}

#[test]
fn rollback_moves_the_install_aside_and_restores_the_backup() {
    let (actions, result) = rollback(true, |_| None);
    assert_eq!(
        actions,
        vec![
            RollbackAction::CheckInstalled,
            RollbackAction::PreserveInstalled,
            RollbackAction::VerifyPreserved,
            RollbackAction::RestoreBackup,
        ]
    );
    assert!(result.is_ok());
    let (actions, _) = rollback(false, |_| None);
    assert_eq!(actions.len(), 3);
}

#[test]
fn rollback_failures_are_described() {
    let (_, result) = rollback(true, |action| match action {
        RollbackAction::RestoreBackup => Some(RollbackEvent::Failed("destination exists".to_owned())),
        _ => None,
    });
    assert_eq!(result.unwrap_err(), "restore transaction backup: destination exists");
    let (_, result) = rollback(true, |action| match action {
        RollbackAction::CheckInstalled => Some(RollbackEvent::Changed),
        _ => None,
    });
    assert_eq!(result.unwrap_err(), "installed destination changed before rollback");
    let (_, result) = rollback(true, |action| match action {
        RollbackAction::VerifyPreserved => Some(RollbackEvent::Changed),
        _ => None,
    });
    assert_eq!(result.unwrap_err(), "installed destination changed while preserving rollback; restore=completed");
}
