use vde_worktree::error::{CliError, DetailValue, ErrorCode, ExecutionPhase, ExecutionState};
use vde_worktree::pipeline::CommandOutput;
use vde_worktree::placement::PlacementAction::{
    CloseTransaction, Commit, CreateTransaction, KeepTransaction, RemoveCreatedDirectories, ResolveTransactionPath,
    Revalidate, RevalidateRoot, Rollback, Stage,
};
use vde_worktree::placement::{
    include_copy_result, placement_output, FilePlacement, PlacementAction, PlacementBatch, PlacementEvent,
};

/// Runs a batch, answering each step with `answer`, and returns the steps and the result.
fn drive(
    count: usize,
    mut answer: impl FnMut(PlacementAction) -> PlacementEvent,
) -> (Vec<PlacementAction>, Result<Option<CliError>, CliError>) {
    let mut batch = PlacementBatch::new(count);
    let mut actions = Vec::new();
    loop {
        let action = batch.next_action();
        if action == PlacementAction::Finish {
            return (actions, batch.into_result());
        }
        actions.push(action);
        let event = answer(action);
        assert!(batch.accepts(&event), "{action:?}");
        assert!(batch.is_well_formed());
        batch = batch.advance(event);
    }
}

fn succeed(action: PlacementAction) -> PlacementEvent {
    match action {
        PlacementAction::KeepTransaction | PlacementAction::ResolveTransactionPath => {
            PlacementEvent::PathReady("/target/.vde-placement-1".to_owned())
        }
        _ => PlacementEvent::Completed,
    }
}

fn detail<'a>(error: &'a CliError, key: &str) -> Option<&'a DetailValue> {
    error.detail(key)
}

fn text(value: &str) -> DetailValue {
    DetailValue::Text(value.to_owned())
}

#[test]
fn placement_batch_stages_and_revalidates_everything_before_committing_in_order() {
    let (actions, result) = drive(2, succeed);
    assert_eq!(
        actions,
        vec![
            CreateTransaction,
            Stage(0),
            Stage(1),
            Revalidate(0),
            Revalidate(1),
            Commit(0),
            RevalidateRoot(0),
            Commit(1),
            RevalidateRoot(1),
            ResolveTransactionPath,
            CloseTransaction,
        ]
    );
    assert!(matches!(result, Ok(None)));
}

#[test]
fn placement_batch_without_plans_requires_a_path() {
    let (actions, result) = drive(0, succeed);
    assert!(actions.is_empty());
    let error = result.unwrap_err();
    assert_eq!(error.code, ErrorCode::InvalidArgument);
    assert_eq!(error.message, "copy/link requires a path");
}

#[test]
fn placement_batch_staging_failure_commits_nothing() {
    let (actions, result) = drive(2, |action| match action {
        PlacementAction::Stage(1) => {
            PlacementEvent::Failed(CliError::new(ErrorCode::PathOutsideRepo, "copy/link source changed after validation"))
        }
        other => succeed(other),
    });
    assert_eq!(actions, vec![CreateTransaction, Stage(0), Stage(1), CloseTransaction]);
    let error = result.unwrap_err();
    assert_eq!(error.code, ErrorCode::PathOutsideRepo);
    let execution = error.execution.unwrap();
    assert_eq!(execution.phase, ExecutionPhase::Apply);
    assert_eq!(execution.state, ExecutionState::Unknown);
}

#[test]
fn placement_batch_failed_close_after_failure_is_reported_with_the_error() {
    let (_, result) = drive(1, |action| match action {
        PlacementAction::Revalidate(0) => {
            PlacementEvent::Failed(CliError::new(ErrorCode::PathOutsideRepo, "destination changed"))
        }
        PlacementAction::CloseTransaction => PlacementEvent::CleanupFailed("busy".to_owned()),
        other => succeed(other),
    });
    let error = result.unwrap_err();
    assert_eq!(detail(&error, "transactionCleanupFailed"), Some(&DetailValue::Bool(true)));
    assert_eq!(detail(&error, "transactionCleanupError"), Some(&text("busy")));
    let execution = error.execution.unwrap();
    assert!(execution.recovery.iter().any(|(key, _)| key == "transactionCleanupError"));
}

#[test]
fn placement_batch_commit_failure_rolls_back_all_earlier_destinations() {
    let (actions, result) = drive(3, |action| match action {
        PlacementAction::Commit(2) => PlacementEvent::Failed(CliError::new(ErrorCode::InternalError, "injected commit failure")),
        other => succeed(other),
    });
    assert_eq!(
        &actions[7..],
        &[Commit(0), RevalidateRoot(0), Commit(1), RevalidateRoot(1), Commit(2), Rollback(1), Rollback(0), RemoveCreatedDirectories, CloseTransaction]
    );
    let error = result.unwrap_err();
    assert_eq!(error.message, "injected commit failure");
    assert_eq!(detail(&error, "rollbackFailed"), None);
    let execution = error.execution.unwrap();
    assert_eq!(execution.phase, ExecutionPhase::Apply);
}

#[test]
fn placement_batch_root_change_after_a_commit_rolls_back_that_commit_too() {
    let (actions, result) = drive(2, |action| match action {
        PlacementAction::RevalidateRoot(0) => {
            PlacementEvent::Failed(CliError::new(ErrorCode::PathOutsideRepo, "target root changed"))
        }
        other => succeed(other),
    });
    assert_eq!(&actions[5..], &[Commit(0), RevalidateRoot(0), Rollback(0), CloseTransaction]);
    assert!(result.is_err());
}

#[test]
fn placement_batch_rollback_failure_keeps_transaction_for_recovery() {
    let (actions, result) = drive(2, |action| match action {
        PlacementAction::Commit(1) => PlacementEvent::Failed(CliError::new(ErrorCode::InternalError, "injected commit failure")),
        PlacementAction::Rollback(0) => {
            PlacementEvent::RollbackFailed("/target/first".to_owned(), "injected rollback failure".to_owned())
        }
        PlacementAction::KeepTransaction => PlacementEvent::PathReady("/target/.vde-placement-1".to_owned()),
        other => succeed(other),
    });
    assert_eq!(&actions[5..], &[Commit(0), RevalidateRoot(0), Commit(1), Rollback(0), KeepTransaction]);
    let error = result.unwrap_err();
    assert_eq!(detail(&error, "recoveryRequired"), Some(&DetailValue::Bool(true)));
    assert_eq!(detail(&error, "rollbackFailed"), Some(&DetailValue::Bool(true)));
    assert_eq!(detail(&error, "phase"), Some(&text("rollback")));
    assert_eq!(detail(&error, "committedState"), Some(&text("partial")));
    assert_eq!(detail(&error, "committed"), Some(&DetailValue::Bool(true)));
    assert_eq!(detail(&error, "recoveryPath"), Some(&text("/target/.vde-placement-1")));
    assert_eq!(detail(&error, "backupPath"), Some(&text("/target/.vde-placement-1/backup")));
    assert_eq!(detail(&error, "stagedPath"), Some(&text("/target/.vde-placement-1/staged")));
    let failures = match detail(&error, "rollbackFailures") {
        Some(DetailValue::List(items)) => items,
        other => panic!("{other:?}"),
    };
    assert_eq!(
        failures,
        &vec![DetailValue::Object(vec![
            ("path".to_owned(), text("/target/first")),
            ("phase".to_owned(), text("rollback-committed-destination")),
            ("message".to_owned(), text("injected rollback failure")),
        ])]
    );
    let execution = error.execution.unwrap();
    assert_eq!(execution.state, ExecutionState::RecoveryRequired);
}

#[test]
fn placement_batch_unknown_recovery_path_is_reported() {
    let (_, result) = drive(1, |action| match action {
        PlacementAction::Commit(0) => {
            let mut error = CliError::new(ErrorCode::PathOutsideRepo, "installed placement disappeared");
            error.insert_detail("rollbackFailed", DetailValue::Bool(true));
            PlacementEvent::Failed(error)
        }
        PlacementAction::KeepTransaction => PlacementEvent::PathUnavailable("moved".to_owned()),
        other => succeed(other),
    });
    let error = result.unwrap_err();
    assert_eq!(detail(&error, "recoveryPathUnavailable"), Some(&DetailValue::Bool(true)));
    assert_eq!(detail(&error, "recoveryPathError"), Some(&text("moved")));
    assert_eq!(detail(&error, "recoveryRequired"), Some(&DetailValue::Bool(true)));
}

#[test]
fn placement_batch_failed_directory_removal_keeps_transaction() {
    let (actions, result) = drive(1, |action| match action {
        PlacementAction::Commit(0) => PlacementEvent::Failed(CliError::new(ErrorCode::InternalError, "no space")),
        PlacementAction::RemoveCreatedDirectories => PlacementEvent::CleanupFailed("remove shared: busy".to_owned()),
        other => succeed(other),
    });
    assert_eq!(&actions[3..], &[Commit(0), RemoveCreatedDirectories, KeepTransaction]);
    let error = result.unwrap_err();
    assert_eq!(
        detail(&error, "rollbackFailures"),
        Some(&DetailValue::List(vec![DetailValue::Object(vec![
            ("phase".to_owned(), text("remove-created-directory")),
            ("message".to_owned(), text("remove shared: busy")),
        ])]))
    );
}

#[test]
fn placement_batch_cleanup_failure_after_commit_is_a_partial_result() {
    let (_, result) = drive(1, |action| match action {
        PlacementAction::CloseTransaction => PlacementEvent::CleanupFailed("directory not empty".to_owned()),
        other => succeed(other),
    });
    let error = result.unwrap().unwrap();
    assert_eq!(error.code, ErrorCode::InternalError);
    assert_eq!(error.message, "copy/link committed, but transaction cleanup failed");
    assert_eq!(detail(&error, "committed"), Some(&DetailValue::Bool(true)));
    assert_eq!(detail(&error, "recoveryRequired"), Some(&DetailValue::Bool(true)));
    assert_eq!(detail(&error, "recoveryPath"), Some(&text("/target/.vde-placement-1")));
    assert_eq!(error.execution.unwrap().phase, ExecutionPhase::Finalize);

    let (_, result) = drive(1, |action| match action {
        PlacementAction::ResolveTransactionPath => PlacementEvent::PathUnavailable("target moved".to_owned()),
        other => succeed(other),
    });
    let error = result.unwrap().unwrap();
    assert_eq!(error.code, ErrorCode::PathOutsideRepo);
    assert_eq!(detail(&error, "pathError"), Some(&text("target moved")));
    assert_eq!(error.execution.unwrap().state, ExecutionState::Applied);
}

fn listing(output: &CommandOutput) -> &Vec<(String, DetailValue)> {
    match &output.data {
        DetailValue::Object(entries) => entries,
        other => panic!("{other:?}"),
    }
}

#[test]
fn placement_output_reports_placed_and_attempted_paths() {
    let paths = vec!["config/a".to_owned(), "b".to_owned()];
    let output = placement_output(FilePlacement::Copy, &paths, "/repo/.worktree/topic", Ok(None)).unwrap();
    assert_eq!(
        listing(&output),
        &vec![
            ("copied".to_owned(), DetailValue::List(vec![text("config/a"), text("b")])),
            ("worktreePath".to_owned(), text("/repo/.worktree/topic")),
        ]
    );
    assert!(output.partial_error.is_none());

    let output = placement_output(FilePlacement::Link, &paths, "/t", Ok(None)).unwrap();
    assert_eq!(listing(&output)[0].0, "linked");

    let mut recovery = CliError::new(ErrorCode::InternalError, "rollback failed");
    recovery.insert_detail("recoveryRequired", DetailValue::Bool(true));
    let output = placement_output(FilePlacement::Copy, &paths, "/t", Err(recovery)).unwrap();
    assert_eq!(listing(&output)[0].0, "attempted");
    assert_eq!(listing(&output)[2], ("transactionState".to_owned(), text("recovery-required")));
    assert!(output.partial_error.is_some());

    let plain = CliError::new(ErrorCode::PathOutsideRepo, "outside");
    assert!(placement_output(FilePlacement::Copy, &paths, "/t", Err(plain)).is_err());
}

#[test]
fn include_copy_fails_on_any_batch_error() {
    assert!(include_copy_result(Ok(None)).is_ok());
    let cleanup = CliError::new(ErrorCode::InternalError, "copy/link committed, but transaction cleanup failed");
    assert_eq!(include_copy_result(Ok(Some(cleanup))).unwrap_err().code, ErrorCode::InternalError);
    let failed = CliError::new(ErrorCode::PathOutsideRepo, "outside");
    assert_eq!(include_copy_result(Err(failed)).unwrap_err().code, ErrorCode::PathOutsideRepo);
}
