use vde_worktree::error::{CliError, DetailValue, ErrorCode};
use vde_worktree::install::{code_debug_text, CompletionInstall, InstallAction, InstallEvent};

fn drive(
    existing: bool,
    mut answer: impl FnMut(InstallAction) -> Option<InstallEvent>,
) -> (Vec<InstallAction>, Result<Option<CliError>, CliError>) {
    let mut install = CompletionInstall::new("/home/u/.zsh/completions/_vw".to_owned());
    let mut actions = Vec::new();
    loop {
        let action = install.next_action();
        if action == InstallAction::Finish {
            return (actions, install.into_result());
        }
        actions.push(action);
        let event = answer(action).unwrap_or_else(|| match action {
            InstallAction::Prepare => InstallEvent::Prepared {
                existing,
                transaction: "/home/u/.zsh/completions/.vde-completion-1".to_owned(),
            },
            InstallAction::RollBack { .. } => InstallEvent::RolledBack(Vec::new()),
            InstallAction::KeepTransaction | InstallAction::ResolveTransactionPath => {
                InstallEvent::PathReady("/home/u/.zsh/completions/.vde-completion-1".to_owned())
            }
            _ => InstallEvent::Completed,
        });
        assert!(install.accepts(&event), "{action:?}");
        install = install.advance(event);
    }
}

fn text(value: &str) -> DetailValue {
    DetailValue::Text(value.to_owned())
}

#[test]
fn install_replacing_a_completion_backs_it_up_first_and_ends_clean() {
    let (actions, result) = drive(true, |_| None);
    assert_eq!(
        actions,
        vec![
            InstallAction::Prepare,
            InstallAction::BackUp,
            InstallAction::VerifyBackup,
            InstallAction::Install,
            InstallAction::VerifyInstall,
            InstallAction::SyncParent,
            InstallAction::ValidateParent,
            InstallAction::ResolveTransactionPath,
            InstallAction::CloseTransaction,
            InstallAction::SyncParent,
            InstallAction::ValidateParent,
        ]
    );
    assert!(matches!(result, Ok(None)));
}

#[test]
fn install_of_a_new_completion_has_nothing_to_back_up() {
    let (actions, result) = drive(false, |_| None);
    assert_eq!(actions[1], InstallAction::Install);
    assert_eq!(actions.len(), 9);
    assert!(matches!(result, Ok(None)));
}

#[test]
fn install_sync_failure_restores_previous_completion_before_returning_error() {
    let mut step = 0;
    let (actions, result) = drive(true, |action| {
        step += 1;
        match action {
            InstallAction::SyncParent => Some(InstallEvent::Failed(CliError::new(
                ErrorCode::InternalError,
                "injected directory sync failure",
            ))),
            _ => None,
        }
    });
    assert_eq!(
        &actions[5..],
        &[InstallAction::SyncParent, InstallAction::RollBack { existing: true, installed: true }, InstallAction::CloseTransaction]
    );
    let error = result.unwrap_err();
    assert_eq!(error.message, "injected directory sync failure");
    assert_eq!(error.detail("committed"), Some(&DetailValue::Bool(false)));
    assert_eq!(error.detail("rollbackFailed"), None);
    assert!(step > 0);
}

#[test]
fn install_rollback_failure_keeps_previous_completion_in_a_recovery_transaction() {
    let (actions, result) = drive(true, |action| match action {
        InstallAction::SyncParent => Some(InstallEvent::Failed(CliError::new(
            ErrorCode::InternalError,
            "injected install durability failure",
        ))),
        InstallAction::RollBack { .. } => Some(InstallEvent::RolledBack(vec!["sync rollback: InternalError: again".to_owned()])),
        _ => None,
    });
    assert_eq!(actions.last(), Some(&InstallAction::KeepTransaction));
    let error = result.expect("rollback failure must be a partial recovery result").unwrap();
    assert_eq!(error.detail("committed"), Some(&DetailValue::Bool(false)));
    assert_eq!(error.detail("recoveryRequired"), Some(&DetailValue::Bool(true)));
    assert_eq!(error.detail("rollbackFailed"), Some(&DetailValue::Bool(true)));
    assert_eq!(
        error.detail("rollbackFailures"),
        Some(&DetailValue::List(vec![text("sync rollback: InternalError: again")]))
    );
    assert_eq!(error.detail("phase"), Some(&text("rollback")));
    assert_eq!(error.detail("committedState"), Some(&text("recovery-required")));
    assert_eq!(
        error.detail("backupPath"),
        Some(&text("/home/u/.zsh/completions/.vde-completion-1/backup"))
    );
}

#[test]
fn install_detects_a_completion_swapped_before_backup() {
    let (actions, result) = drive(true, |action| match action {
        InstallAction::VerifyBackup => Some(InstallEvent::Changed),
        _ => None,
    });
    assert_eq!(actions[3], InstallAction::RollBack { existing: true, installed: false });
    let error = result.unwrap_err();
    assert_eq!(error.code, ErrorCode::PathOutsideRepo);
    assert_eq!(error.message, "completion changed while it was moved into transaction backup");
    assert_eq!(error.detail("path"), Some(&text("/home/u/.zsh/completions/_vw")));
}

#[test]
fn install_detects_a_completion_changed_right_after_install() {
    let (_, result) = drive(false, |action| match action {
        InstallAction::VerifyInstall => Some(InstallEvent::Changed),
        _ => None,
    });
    let error = result.unwrap_err();
    assert_eq!(error.message, "completion changed immediately after atomic install");
}

#[test]
fn install_failure_before_backup_needs_no_rollback() {
    let (actions, result) = drive(true, |action| match action {
        InstallAction::BackUp => Some(InstallEvent::Failed(CliError::new(ErrorCode::InternalError, "rename failed"))),
        _ => None,
    });
    assert_eq!(actions, vec![InstallAction::Prepare, InstallAction::BackUp]);
    assert_eq!(result.unwrap_err().message, "rename failed");
}

#[test]
fn install_post_commit_cleanup_sync_failure_is_an_explicit_partial_error() {
    let mut syncs = 0;
    let (_, result) = drive(true, |action| match action {
        InstallAction::SyncParent => {
            syncs += 1;
            if syncs == 2 {
                Some(InstallEvent::Failed(CliError::new(ErrorCode::InternalError, "injected cleanup durability failure")))
            } else {
                None
            }
        }
        _ => None,
    });
    let error = result.expect("committed cleanup failure").unwrap();
    assert_eq!(error.message, "completion installed, but transaction cleanup durability failed");
    assert_eq!(error.detail("committed"), Some(&DetailValue::Bool(true)));
    assert_eq!(error.detail("transactionPath"), Some(&text("/home/u/.zsh/completions/.vde-completion-1")));
    assert_eq!(error.detail("cleanupError"), Some(&text("InternalError: injected cleanup durability failure")));
}

#[test]
fn install_close_failures_after_commit_are_reported() {
    let (_, result) = drive(false, |action| match action {
        InstallAction::CloseTransaction => Some(InstallEvent::CleanupFailed("busy".to_owned())),
        _ => None,
    });
    let error = result.unwrap().unwrap();
    assert_eq!(error.detail("transactionPath"), Some(&text("/home/u/.zsh/completions/.vde-completion-1")));
    assert_eq!(error.detail("cleanupError"), Some(&text("busy")));

    let (_, result) = drive(false, |action| match action {
        InstallAction::ResolveTransactionPath => Some(InstallEvent::PathUnavailable("parent moved".to_owned())),
        _ => None,
    });
    let error = result.unwrap().unwrap();
    assert_eq!(error.code, ErrorCode::PathOutsideRepo);
    assert_eq!(error.message, "completion installed, but its parent path changed before cleanup");
    assert_eq!(error.detail("pathError"), Some(&text("parent moved")));

    let (_, result) = drive(false, |action| match action {
        InstallAction::ResolveTransactionPath => Some(InstallEvent::PathUnavailable("parent moved".to_owned())),
        InstallAction::CloseTransaction => Some(InstallEvent::CleanupFailed("busy".to_owned())),
        _ => None,
    });
    let error = result.unwrap().unwrap();
    assert_eq!(error.code, ErrorCode::InternalError);
    assert_eq!(error.detail("transactionPathUnavailable"), Some(&DetailValue::Bool(true)));
}

#[test]
fn error_code_debug_names_match_their_variants() {
    assert_eq!(code_debug_text(ErrorCode::InternalError), format!("{:?}", ErrorCode::InternalError));
    assert_eq!(code_debug_text(ErrorCode::PathOutsideRepo), format!("{:?}", ErrorCode::PathOutsideRepo));
    assert_eq!(code_debug_text(ErrorCode::Cancelled), "Cancelled");
}
