//! The placement transaction behind `copy`, `link` and the include-file copy of a new
//! worktree: every plan is staged into a private transaction directory, every source and
//! destination is revalidated, and only then are the staged entries moved into place one by
//! one. A failed commit rolls back what was already installed, newest first; a rollback that
//! itself fails keeps the transaction directory for recovery.
//!
//! The decisions are a state machine: [`PlacementBatch::next_action`] names the filesystem
//! step to take, and [`PlacementBatch::advance`] takes its outcome.

use vstd::prelude::*;

use crate::error::{
    insert_entry, object_view, view_insert, CliError, DetailValue, DetailView, ErrorCode, ExecutionPhase,
    ExecutionReport, ExecutionState,
};
use crate::mapping::{flag, flag_is, map_transaction_error, text_value, text_view};
use crate::paths::{join_path, join_path_spec};
use crate::pipeline::CommandOutput;
use crate::git::args_view;
use crate::mapping::{is_text_list, text_list_value};

verus! {

/// A filesystem step of the batch.
#[derive(Clone, Copy, Debug, PartialEq, Eq, Structural)]
pub enum PlacementAction {
    /// Create the transaction directory next to the target root.
    CreateTransaction,
    /// Copy or link the source of plan `i` into the transaction's staging area.
    Stage(usize),
    /// Check that the source and the destination of plan `i` are still what was validated.
    Revalidate(usize),
    /// Move the staged entry of plan `i` into place, backing up what it replaces.
    Commit(usize),
    /// Check, after plan `i` was committed, that the target root is still the validated one.
    RevalidateRoot(usize),
    /// Undo the commit of plan `i`, restoring its backup.
    Rollback(usize),
    /// Remove the destination parent directories that the commits created.
    RemoveCreatedDirectories,
    /// Keep the transaction directory for recovery and report where it is.
    KeepTransaction,
    /// Report where the transaction directory is.
    ResolveTransactionPath,
    /// Remove the transaction directory.
    CloseTransaction,
    /// Nothing is left to do: the result is ready.
    Finish,
}

/// The outcome of a step.
#[derive(Debug)]
pub enum PlacementEvent {
    /// The step succeeded.
    Completed,
    /// Creating, staging, revalidating, committing or checking the root failed.
    Failed(CliError),
    /// Rolling back a commit failed: the destination path and what went wrong.
    RollbackFailed(String, String),
    /// Removing created directories or the transaction directory failed.
    CleanupFailed(String),
    /// The transaction directory is at this path.
    PathReady(String),
    /// The transaction directory's path could not be established.
    PathUnavailable(String),
}

/// Where the batch stands.
#[derive(Debug)]
pub enum BatchStage {
    Creating,
    Staging(usize),
    Revalidating(usize),
    Committing(usize),
    CheckingRoot(usize),
    /// Plans `0..remaining` are still installed and get rolled back, newest first.
    RollingBack { error: CliError, remaining: usize, failures: Vec<DetailValue>, commit_failed: bool },
    RemovingDirectories { error: CliError },
    Keeping { error: CliError },
    Closing { error: CliError },
    ResolvingPath,
    ClosingCommitted { path: Result<String, String> },
    Done { result: Result<Option<CliError>, CliError> },
}

/// A placement batch over `count` plans.
#[derive(Debug)]
pub struct PlacementBatch {
    pub count: usize,
    pub stage: BatchStage,
}

/// The kind of an outcome, as far as the next step depends on it.
#[derive(Clone, Copy, PartialEq, Eq)]
pub enum EventKind {
    Completed,
    /// A failure; `flagged` when its error already reports a failed rollback.
    Failed { flagged: bool },
    RollbackFailed,
    CleanupFailed,
    PathReady,
    PathUnavailable,
}

/// The control state: the stage without the errors it carries.
#[derive(Clone, Copy, PartialEq, Eq)]
pub enum BatchControl {
    Creating,
    Staging(usize),
    Revalidating(usize),
    Committing(usize),
    CheckingRoot(usize),
    RollingBack { remaining: usize, failed: bool, flagged: bool, commit_failed: bool },
    RemovingDirectories { flagged: bool },
    Keeping,
    Closing,
    ResolvingPath,
    ClosingCommitted,
    Done,
}

pub open spec fn event_kind(event: PlacementEvent) -> EventKind {
    match event {
        PlacementEvent::Completed => EventKind::Completed,
        PlacementEvent::Failed(e) => EventKind::Failed { flagged: flag_is(e.details@, "rollbackFailed"@, true) },
        PlacementEvent::RollbackFailed(_, _) => EventKind::RollbackFailed,
        PlacementEvent::CleanupFailed(_) => EventKind::CleanupFailed,
        PlacementEvent::PathReady(_) => EventKind::PathReady,
        PlacementEvent::PathUnavailable(_) => EventKind::PathUnavailable,
    }
}

pub open spec fn control(stage: BatchStage) -> BatchControl {
    match stage {
        BatchStage::Creating => BatchControl::Creating,
        BatchStage::Staging(i) => BatchControl::Staging(i),
        BatchStage::Revalidating(i) => BatchControl::Revalidating(i),
        BatchStage::Committing(i) => BatchControl::Committing(i),
        BatchStage::CheckingRoot(i) => BatchControl::CheckingRoot(i),
        BatchStage::RollingBack { error, remaining, failures, commit_failed } => BatchControl::RollingBack {
            remaining,
            failed: failures@.len() > 0,
            flagged: flag_is(error.details@, "rollbackFailed"@, true),
            commit_failed,
        },
        BatchStage::RemovingDirectories { error } => BatchControl::RemovingDirectories {
            flagged: flag_is(error.details@, "rollbackFailed"@, true),
        },
        BatchStage::Keeping { .. } => BatchControl::Keeping,
        BatchStage::Closing { .. } => BatchControl::Closing,
        BatchStage::ResolvingPath => BatchControl::ResolvingPath,
        BatchStage::ClosingCommitted { .. } => BatchControl::ClosingCommitted,
        BatchStage::Done { .. } => BatchControl::Done,
    }
}

/// The step that a control state asks for.
pub open spec fn action_of(c: BatchControl) -> PlacementAction {
    match c {
        BatchControl::Creating => PlacementAction::CreateTransaction,
        BatchControl::Staging(i) => PlacementAction::Stage(i),
        BatchControl::Revalidating(i) => PlacementAction::Revalidate(i),
        BatchControl::Committing(i) => PlacementAction::Commit(i),
        BatchControl::CheckingRoot(i) => PlacementAction::RevalidateRoot(i),
        BatchControl::RollingBack { remaining, .. } => PlacementAction::Rollback(
            if remaining > 0 { (remaining - 1) as usize } else { 0 },
        ),
        BatchControl::RemovingDirectories { .. } => PlacementAction::RemoveCreatedDirectories,
        BatchControl::Keeping => PlacementAction::KeepTransaction,
        BatchControl::Closing => PlacementAction::CloseTransaction,
        BatchControl::ResolvingPath => PlacementAction::ResolveTransactionPath,
        BatchControl::ClosingCommitted => PlacementAction::CloseTransaction,
        BatchControl::Done => PlacementAction::Finish,
    }
}

/// The outcomes that a control state can receive.
pub open spec fn fits(c: BatchControl, k: EventKind) -> bool {
    match c {
        BatchControl::Creating | BatchControl::Staging(_) | BatchControl::Revalidating(_)
        | BatchControl::Committing(_) | BatchControl::CheckingRoot(_) => k is Completed || k is Failed,
        BatchControl::RollingBack { .. } => k is Completed || k is RollbackFailed,
        BatchControl::RemovingDirectories { .. } | BatchControl::Closing | BatchControl::ClosingCommitted =>
            k is Completed || k is CleanupFailed,
        BatchControl::Keeping | BatchControl::ResolvingPath => k is PathReady || k is PathUnavailable,
        BatchControl::Done => false,
    }
}

/// Where the rollback leads once every installed plan was handled: with no failed rollback
/// after a failed commit, the created directories are removed first; a failed rollback (here
/// or inside the commit) keeps the transaction for recovery; otherwise it is closed.
pub open spec fn after_rollback(failed: bool, flagged: bool, commit_failed: bool) -> BatchControl {
    if !failed && commit_failed {
        BatchControl::RemovingDirectories { flagged }
    } else if failed || flagged {
        BatchControl::Keeping
    } else {
        BatchControl::Closing
    }
}

/// Rolling back the `installed` plans, newest first.
pub open spec fn start_rollback(installed: usize, flagged: bool, commit_failed: bool) -> BatchControl {
    if installed > 0 {
        BatchControl::RollingBack { remaining: installed, failed: false, flagged, commit_failed }
    } else {
        after_rollback(false, flagged, commit_failed)
    }
}

/// The next control state of a batch of `n` plans.
pub open spec fn next_control(n: usize, c: BatchControl, k: EventKind) -> BatchControl {
    match c {
        BatchControl::Creating => match k {
            EventKind::Failed { .. } => BatchControl::Done,
            _ => BatchControl::Staging(0),
        },
        BatchControl::Staging(i) => match k {
            EventKind::Failed { .. } => BatchControl::Closing,
            _ => if i + 1 < n { BatchControl::Staging((i + 1) as usize) } else { BatchControl::Revalidating(0) },
        },
        BatchControl::Revalidating(i) => match k {
            EventKind::Failed { .. } => BatchControl::Closing,
            _ => if i + 1 < n { BatchControl::Revalidating((i + 1) as usize) } else { BatchControl::Committing(0) },
        },
        BatchControl::Committing(i) => match k {
            EventKind::Failed { flagged } => start_rollback(i, flagged, true),
            _ => BatchControl::CheckingRoot(i),
        },
        BatchControl::CheckingRoot(i) => match k {
            EventKind::Failed { flagged } => start_rollback((i + 1) as usize, flagged, false),
            _ => if i + 1 < n { BatchControl::Committing((i + 1) as usize) } else { BatchControl::ResolvingPath },
        },
        BatchControl::RollingBack { remaining, failed, flagged, commit_failed } => {
            let failed2 = failed || k is RollbackFailed;
            if remaining > 1 {
                BatchControl::RollingBack { remaining: (remaining - 1) as usize, failed: failed2, flagged, commit_failed }
            } else {
                after_rollback(failed2, flagged, commit_failed)
            }
        },
        BatchControl::RemovingDirectories { flagged } => if k is CleanupFailed || flagged {
            BatchControl::Keeping
        } else {
            BatchControl::Closing
        },
        BatchControl::Keeping => BatchControl::Done,
        BatchControl::Closing => BatchControl::Done,
        BatchControl::ResolvingPath => BatchControl::ClosingCommitted,
        BatchControl::ClosingCommitted => BatchControl::Done,
        BatchControl::Done => BatchControl::Done,
    }
}

/// The indices that a control state carries are those of the batch's plans.
pub open spec fn control_wf(n: usize, c: BatchControl) -> bool {
    match c {
        BatchControl::Creating => n > 0,
        BatchControl::Staging(i) | BatchControl::Revalidating(i) | BatchControl::Committing(i)
        | BatchControl::CheckingRoot(i) => i < n,
        BatchControl::RollingBack { remaining, .. } => 0 < remaining <= n,
        _ => true,
    }
}


// ----- error payloads -----

/// The entry list after inserting `entries` one after another.
pub open spec fn insert_all(d: Seq<(Seq<char>, DetailView)>, entries: Seq<(Seq<char>, DetailView)>) -> Seq<(Seq<char>, DetailView)>
    decreases entries.len(),
{
    if entries.len() == 0 {
        d
    } else {
        view_insert(insert_all(d, entries.drop_last()), entries.last().0, entries.last().1)
    }
}

/// `after` is `before` with `entries` added to its details, and nothing else changed.
pub open spec fn extended(before: CliError, after: CliError, entries: Seq<(Seq<char>, DetailView)>) -> bool {
    &&& after.code == before.code
    &&& after.message == before.message
    &&& after.execution == before.execution
    &&& object_view(after.details@) == insert_all(object_view(before.details@), entries)
}

/// What a failed removal of the transaction directory adds to an error.
pub open spec fn cleanup_entries(message: Seq<char>) -> Seq<(Seq<char>, DetailView)> {
    seq![("transactionCleanupFailed"@, DetailView::Bool(true)), ("transactionCleanupError"@, text_view(message))]
}

/// What failed rollbacks add to an error: nothing when none failed.
pub open spec fn rollback_entries(failures: Seq<DetailView>) -> Seq<(Seq<char>, DetailView)> {
    if failures.len() == 0 {
        Seq::empty()
    } else {
        seq![("rollbackFailed"@, DetailView::Bool(true)), ("rollbackFailures"@, DetailView::List(failures))]
    }
}

/// The record of a committed plan whose rollback failed.
pub open spec fn rollback_failure_view(path: Seq<char>, message: Seq<char>) -> DetailView {
    DetailView::Object(seq![
        ("path"@, text_view(path)),
        ("phase"@, text_view("rollback-committed-destination"@)),
        ("message"@, text_view(message)),
    ])
}

/// The record of created directories that could not be removed.
pub open spec fn remove_failure_view(message: Seq<char>) -> DetailView {
    DetailView::Object(seq![("phase"@, text_view("remove-created-directory"@)), ("message"@, text_view(message))])
}

/// What a failed rollback adds to the error when the transaction is kept: where it is (or
/// why that is unknown), and that the batch stopped half committed.
pub open spec fn recovery_entries(kept: Result<Seq<char>, Seq<char>>) -> Seq<(Seq<char>, DetailView)> {
    seq![("recoveryRequired"@, DetailView::Bool(true))] + match kept {
        Ok(path) => seq![
            ("recoveryPath"@, text_view(path)),
            ("backupPath"@, text_view(join_path_spec(path, "backup"@))),
            ("stagedPath"@, text_view(join_path_spec(path, "staged"@))),
        ],
        Err(message) => seq![
            ("recoveryPathUnavailable"@, DetailView::Bool(true)),
            ("recoveryPathError"@, text_view(message)),
        ],
    } + seq![
        ("phase"@, text_view("rollback"@)),
        ("committedState"@, text_view("partial"@)),
        ("committed"@, DetailView::Bool(true)),
    ]
}

/// `after` is `before` marked as rolled back, with the rollback listed as completed.
pub open spec fn rolled_back(before: CliError, after: CliError) -> bool {
    &&& after.code == before.code
    &&& after.message == before.message
    &&& after.details == before.details
    &&& after.execution matches Some(x) && x.state == ExecutionState::RolledBack && match before.execution {
        Some(old) => x.phase == old.phase && x.recovery == old.recovery
            && x.completed@.map_values(|c: String| c@) == old.completed@.map_values(|c: String| c@).push("rollbackPlacement"@),
        None => x.phase == ExecutionPhase::Apply && x.recovery@.len() == 0
            && x.completed@.map_values(|c: String| c@) == seq!["rollbackPlacement"@],
    }
}

/// What a batch that committed every plan reports about the cleanup: nothing when the
/// transaction path was found and removed; otherwise an error that says the plans are in place.
pub open spec fn committed_report(path: Result<String, String>, cleanup: Option<String>, report: Option<CliError>) -> bool {
    match cleanup {
        None => match path {
            Ok(_) => report is None,
            Err(m) => report matches Some(e) && e.code == ErrorCode::PathOutsideRepo
                && e.message@ == "copy/link committed, but the target path changed before cleanup"@
                && e.execution is None
                && object_view(e.details@) == seq![("committed"@, DetailView::Bool(true)), ("pathError"@, text_view(m@))],
        },
        Some(c) => report matches Some(e) && e.code == ErrorCode::InternalError
            && e.message@ == "copy/link committed, but transaction cleanup failed"@
            && e.execution is None
            && object_view(e.details@) == seq![("committed"@, DetailView::Bool(true)), ("cleanupError"@, text_view(c@))]
                + match path {
                    Ok(p) => seq![("recoveryRequired"@, DetailView::Bool(true)), ("recoveryPath"@, text_view(p@))],
                    Err(_) => Seq::empty(),
                },
    }
}

/// Inserting two lists one after the other is inserting their concatenation.
pub proof fn lemma_insert_all_split(d: Seq<(Seq<char>, DetailView)>, a: Seq<(Seq<char>, DetailView)>, b: Seq<(Seq<char>, DetailView)>)
    ensures
        insert_all(insert_all(d, a), b) == insert_all(d, a + b),
    decreases b.len(),
{
    if b.len() > 0 {
        lemma_insert_all_split(d, a, b.drop_last());
        assert((a + b).drop_last() =~= a + b.drop_last());
        assert((a + b).last() == b.last());
    } else {
        assert(a + b =~= a);
    }
}

pub(crate) proof fn lemma_insert_one(d: Seq<(Seq<char>, DetailView)>, a: (Seq<char>, DetailView))
    ensures
        insert_all(d, seq![a]) == view_insert(d, a.0, a.1),
{
    assert(seq![a].drop_last() =~= Seq::<(Seq<char>, DetailView)>::empty());
    assert(insert_all(d, Seq::empty()) == d);
}

pub(crate) proof fn lemma_insert_push(d: Seq<(Seq<char>, DetailView)>, entries: Seq<(Seq<char>, DetailView)>, a: (Seq<char>, DetailView))
    ensures
        insert_all(d, entries.push(a)) == view_insert(insert_all(d, entries), a.0, a.1),
{
    assert(entries.push(a).drop_last() =~= entries);
}

pub(crate) proof fn lemma_view_insert_new(d: Seq<(Seq<char>, DetailView)>, k: Seq<char>, v: DetailView)
    requires
        forall|j: int| 0 <= j < d.len() ==> #[trigger] d[j].0 != k,
    ensures
        view_insert(d, k, v) == d.push((k, v)),
    decreases d.len(),
{
    if d.len() > 0 {
        lemma_view_insert_new(d.drop_first(), k, v);
        assert(view_insert(d, k, v) =~= d.push((k, v)));
    } else {
        assert(view_insert(d, k, v) =~= d.push((k, v)));
    }
}

pub(crate) fn bool_entry(error: &mut CliError, key: &str)
    ensures
        final(error).code == old(error).code,
        final(error).message == old(error).message,
        final(error).execution == old(error).execution,
        object_view(final(error).details@) == view_insert(object_view(old(error).details@), key@, DetailView::Bool(true)),
{
    insert_entry(&mut error.details, key, DetailValue::Bool(true));
}

pub(crate) fn text_entry(error: &mut CliError, key: &str, text: &str)
    ensures
        final(error).code == old(error).code,
        final(error).message == old(error).message,
        final(error).execution == old(error).execution,
        object_view(final(error).details@) == view_insert(object_view(old(error).details@), key@, text_view(text@)),
{
    let value = text_value(text);
    insert_entry(&mut error.details, key, value);
}

/// Adds a failed removal of the transaction directory to an error.
pub fn attach_transaction_cleanup(error: CliError, cleanup: Option<String>) -> (out: CliError)
    ensures
        match cleanup {
            None => out == error,
            Some(m) => extended(error, out, cleanup_entries(m@)),
        },
{
    match cleanup {
        None => error,
        Some(message) => {
            let mut out = error;
            let ghost d0 = object_view(out.details@);
            bool_entry(&mut out, "transactionCleanupFailed");
            let ghost d1 = object_view(out.details@);
            text_entry(&mut out, "transactionCleanupError", message.as_str());
            proof {
                let es = cleanup_entries(message@);
                lemma_insert_one(d0, es[0]);
                assert(es.drop_last() =~= seq![es[0]]);
                lemma_insert_push(d0, seq![es[0]], es[1]);
                assert(seq![es[0]].push(es[1]) =~= es);
            }
            out
        },
    }
}

/// Adds the failed rollbacks, if any, to an error.
pub fn attach_rollback_failures(error: CliError, failures: Vec<DetailValue>) -> (out: CliError)
    ensures
        failures@.len() == 0 ==> out == error,
        failures@.len() > 0 ==> extended(error, out, rollback_entries(crate::error::list_view(failures@))),
        failures@.len() > 0 ==> flag_is(out.details@, "rollbackFailed"@, true),
{
    if failures.len() == 0 {
        error
    } else {
        let mut out = error;
        let ghost d0 = object_view(out.details@);
        let ghost fv = crate::error::list_view(failures@);
        insert_entry(&mut out.details, "rollbackFailed", DetailValue::Bool(true));
        assert(flag_is(out.details@, "rollbackFailed"@, true));
        proof {
            reveal_strlit("rollbackFailures");
            reveal_strlit("rollbackFailed");
            assert("rollbackFailures"@ != "rollbackFailed"@) by {
                assert("rollbackFailures"@.len() != "rollbackFailed"@.len());
            }
        }
        insert_entry(&mut out.details, "rollbackFailures", DetailValue::List(failures));
        assert(flag_is(out.details@, "rollbackFailed"@, true));
        proof {
            let es = rollback_entries(fv);
            lemma_insert_one(d0, es[0]);
            assert(es.drop_last() =~= seq![es[0]]);
            lemma_insert_push(d0, seq![es[0]], es[1]);
            assert(seq![es[0]].push(es[1]) =~= es);
        }
        out
    }
}


fn object_of_texts(keys: Vec<&str>, texts: Vec<String>) -> (value: DetailValue)
    requires
        keys@.len() == texts@.len(),
    ensures
        crate::error::detail_view(value) == DetailView::Object(
            Seq::new(keys@.len(), |i: int| (keys@[i]@, text_view(texts@[i]@))),
        ),
{
    let mut entries: Vec<(String, DetailValue)> = Vec::new();
    let mut i: usize = 0;
    while i < keys.len()
        invariant
            i <= keys@.len(),
            keys@.len() == texts@.len(),
            object_view(entries@) == Seq::new(i as nat, |j: int| (keys@[j]@, text_view(texts@[j]@))),
        decreases keys.len() - i,
    {
        let entry = (keys[i].to_owned(), DetailValue::Text(texts[i].clone()));
        proof {
            crate::error::lemma_object_view_push(entries@, entry);
        }
        entries.push(entry);
        assert(object_view(entries@) =~= Seq::new((i + 1) as nat, |j: int| (keys@[j]@, text_view(texts@[j]@))));
        i = i + 1;
    }
    DetailValue::Object(entries)
}

/// The record of a committed plan whose rollback failed.
pub fn rollback_failure(path: String, message: String) -> (value: DetailValue)
    ensures
        crate::error::detail_view(value) == rollback_failure_view(path@, message@),
{
    let keys = vec!["path", "phase", "message"];
    let texts = vec![path, "rollback-committed-destination".to_owned(), message];
    let value = object_of_texts(keys, texts);
    assert(Seq::new(3, |i: int| (keys@[i]@, text_view(texts@[i]@))) =~= seq![
        ("path"@, text_view(path@)),
        ("phase"@, text_view("rollback-committed-destination"@)),
        ("message"@, text_view(message@)),
    ]);
    value
}

/// The record of created directories that could not be removed.
pub fn remove_failure(message: String) -> (value: DetailValue)
    ensures
        crate::error::detail_view(value) == remove_failure_view(message@),
{
    let keys = vec!["phase", "message"];
    let texts = vec!["remove-created-directory".to_owned(), message];
    let value = object_of_texts(keys, texts);
    assert(Seq::new(2, |i: int| (keys@[i]@, text_view(texts@[i]@))) =~= seq![
        ("phase"@, text_view("remove-created-directory"@)),
        ("message"@, text_view(message@)),
    ]);
    value
}

/// Marks an error as rolled back, with the rollback listed as completed.
pub fn mark_rolled_back(error: CliError) -> (out: CliError)
    ensures
        rolled_back(error, out),
{
    let mut out = error;
    let report = match out.execution {
        Some(old) => {
            let mut completed = old.completed;
            let ghost before = completed@;
            completed.push("rollbackPlacement".to_owned());
            assert(completed@.map_values(|c: String| c@) =~= before.map_values(|c: String| c@).push("rollbackPlacement"@));
            ExecutionReport { phase: old.phase, state: ExecutionState::RolledBack, completed, recovery: old.recovery }
        },
        None => {
            let mut completed: Vec<String> = Vec::new();
            completed.push("rollbackPlacement".to_owned());
            assert(completed@.map_values(|c: String| c@) =~= seq!["rollbackPlacement"@]);
            ExecutionReport {
                phase: ExecutionPhase::Apply,
                state: ExecutionState::RolledBack,
                completed,
                recovery: Vec::new(),
            }
        },
    };
    out.execution = Some(report);
    out
}

pub open spec fn result_view(r: Result<String, String>) -> Result<Seq<char>, Seq<char>> {
    match r {
        Ok(p) => Ok(p@),
        Err(m) => Err(m@),
    }
}

/// Adds to an error that the transaction was kept for recovery: where it is, or why that is
/// unknown.
pub fn recovery_error(error: CliError, kept: Result<String, String>) -> (out: CliError)
    ensures
        extended(error, out, recovery_entries(result_view(kept))),
{
    let mut out = error;
    let ghost d0 = object_view(out.details@);
    let ghost es = recovery_entries(result_view(kept));
    bool_entry(&mut out, "recoveryRequired");
    proof {
        lemma_insert_one(d0, es[0]);
        assert(es.take(1) =~= seq![es[0]]);
    }
    match kept {
        Ok(path) => {
            text_entry(&mut out, "recoveryPath", path.as_str());
            proof {
                lemma_insert_push(d0, es.take(1), es[1]);
                assert(es.take(1).push(es[1]) =~= es.take(2));
            }
            let backup = join_path(path.as_str(), "backup");
            text_entry(&mut out, "backupPath", backup.as_str());
            proof {
                lemma_insert_push(d0, es.take(2), es[2]);
                assert(es.take(2).push(es[2]) =~= es.take(3));
            }
            let staged = join_path(path.as_str(), "staged");
            text_entry(&mut out, "stagedPath", staged.as_str());
            proof {
                lemma_insert_push(d0, es.take(3), es[3]);
                assert(es.take(3).push(es[3]) =~= es.take(4));
            }
        },
        Err(message) => {
            bool_entry(&mut out, "recoveryPathUnavailable");
            proof {
                lemma_insert_push(d0, es.take(1), es[1]);
                assert(es.take(1).push(es[1]) =~= es.take(2));
            }
            text_entry(&mut out, "recoveryPathError", message.as_str());
            proof {
                lemma_insert_push(d0, es.take(2), es[2]);
                assert(es.take(2).push(es[2]) =~= es.take(3));
            }
        },
    }
    let ghost m = es.len() - 3;
    assert(object_view(out.details@) == insert_all(d0, es.take(m)));
    text_entry(&mut out, "phase", "rollback");
    proof {
        lemma_insert_push(d0, es.take(m), es[m]);
        assert(es.take(m).push(es[m]) =~= es.take(m + 1));
    }
    text_entry(&mut out, "committedState", "partial");
    proof {
        lemma_insert_push(d0, es.take(m + 1), es[m + 1]);
        assert(es.take(m + 1).push(es[m + 1]) =~= es.take(m + 2));
    }
    bool_entry(&mut out, "committed");
    proof {
        lemma_insert_push(d0, es.take(m + 2), es[m + 2]);
        assert(es.take(m + 2).push(es[m + 2]) =~= es);
    }
    out
}

/// What a batch that committed every plan reports about removing its transaction directory.
pub fn committed_error(path: Result<String, String>, cleanup: Option<String>) -> (report: Option<CliError>)
    ensures
        committed_report(path, cleanup, report),
{
    proof {
        reveal_strlit("committed");
        reveal_strlit("pathError");
        reveal_strlit("cleanupError");
        reveal_strlit("recoveryRequired");
        reveal_strlit("recoveryPath");
        assert("committed"@ != "pathError"@) by { assert("committed"@[0] != "pathError"@[0]); }
        assert("committed"@ != "cleanupError"@) by { assert("committed"@.len() != "cleanupError"@.len()); }
        assert("recoveryRequired"@ != "committed"@) by { assert("committed"@.len() != "recoveryRequired"@.len()); }
        assert("recoveryRequired"@ != "cleanupError"@) by { assert("cleanupError"@.len() != "recoveryRequired"@.len()); }
        assert("recoveryPath"@ != "committed"@) by { assert("committed"@.len() != "recoveryPath"@.len()); }
        assert("recoveryPath"@ != "cleanupError"@) by { assert("cleanupError"@[0] != "recoveryPath"@[0]); }
        assert("recoveryPath"@ != "recoveryRequired"@) by { assert("recoveryRequired"@.len() != "recoveryPath"@.len()); }
    }
    match cleanup {
        None => match path {
            Ok(_) => None,
            Err(message) => {
                let mut e = CliError::new(
                    ErrorCode::PathOutsideRepo,
                    "copy/link committed, but the target path changed before cleanup",
                );
                assert(object_view(e.details@) == Seq::<(Seq<char>, DetailView)>::empty());
                bool_entry(&mut e, "committed");
                proof {
                    lemma_view_insert_new(Seq::empty(), "committed"@, DetailView::Bool(true));
                }
                text_entry(&mut e, "pathError", message.as_str());
                proof {
                    lemma_view_insert_new(seq![("committed"@, DetailView::Bool(true))], "pathError"@, text_view(message@));
                    assert(Seq::<(Seq<char>, DetailView)>::empty().push(("committed"@, DetailView::Bool(true)))
                        =~= seq![("committed"@, DetailView::Bool(true))]);
                    assert(seq![("committed"@, DetailView::Bool(true))].push(("pathError"@, text_view(message@)))
                        =~= seq![("committed"@, DetailView::Bool(true)), ("pathError"@, text_view(message@))]);
                }
                Some(e)
            },
        },
        Some(cleanup) => {
            let mut e = CliError::new(ErrorCode::InternalError, "copy/link committed, but transaction cleanup failed");
            assert(object_view(e.details@) == Seq::<(Seq<char>, DetailView)>::empty());
            bool_entry(&mut e, "committed");
            proof {
                lemma_view_insert_new(Seq::empty(), "committed"@, DetailView::Bool(true));
            }
            text_entry(&mut e, "cleanupError", cleanup.as_str());
            let ghost d2 = seq![("committed"@, DetailView::Bool(true)), ("cleanupError"@, text_view(cleanup@))];
            proof {
                lemma_view_insert_new(seq![("committed"@, DetailView::Bool(true))], "cleanupError"@, text_view(cleanup@));
                assert(Seq::<(Seq<char>, DetailView)>::empty().push(("committed"@, DetailView::Bool(true)))
                    =~= seq![("committed"@, DetailView::Bool(true))]);
                assert(seq![("committed"@, DetailView::Bool(true))].push(("cleanupError"@, text_view(cleanup@))) =~= d2);
            }
            match path {
                Ok(p) => {
                    bool_entry(&mut e, "recoveryRequired");
                    proof {
                        lemma_view_insert_new(d2, "recoveryRequired"@, DetailView::Bool(true));
                    }
                    text_entry(&mut e, "recoveryPath", p.as_str());
                    proof {
                        lemma_view_insert_new(d2.push(("recoveryRequired"@, DetailView::Bool(true))), "recoveryPath"@, text_view(p@));
                        assert(d2.push(("recoveryRequired"@, DetailView::Bool(true))).push(("recoveryPath"@, text_view(p@)))
                            =~= d2 + seq![("recoveryRequired"@, DetailView::Bool(true)), ("recoveryPath"@, text_view(p@))]);
                    }
                },
                Err(_) => {
                    assert(d2 + Seq::empty() =~= d2);
                },
            }
            assert(committed_report(path, Some(cleanup), Some(e)));
            Some(e)
        },
    }
}


// ----- the machine -----

pub proof fn lemma_list_view_len(s: Seq<DetailValue>)
    ensures
        crate::error::list_view(s).len() == s.len(),
    decreases s.len(),
{
    if s.len() > 0 {
        lemma_list_view_len(s.drop_first());
    }
}

/// The stage after a rollback ends without a failure of its own: a transaction whose error
/// already reports a failed rollback is kept, otherwise it is closed and the error says
/// that the batch was rolled back.
pub open spec fn concluded(e: CliError, next: BatchStage) -> bool {
    if flag_is(e.details@, "rollbackFailed"@, true) {
        next == BatchStage::Keeping { error: e }
    } else {
        next matches BatchStage::Closing { error } && rolled_back(e, error)
    }
}

/// The stage after every installed plan was rolled back, with the failures `fv`.
pub open spec fn rollback_finished(e: CliError, fv: Seq<DetailView>, commit_failed: bool, next: BatchStage) -> bool {
    if fv.len() == 0 && commit_failed {
        next == BatchStage::RemovingDirectories { error: e }
    } else if fv.len() == 0 {
        concluded(e, next)
    } else {
        next matches BatchStage::Keeping { error } && extended(e, error, rollback_entries(fv))
    }
}

/// The stage after a failure with `installed` plans in place.
pub open spec fn rollback_begun(e: CliError, installed: usize, commit_failed: bool, next: BatchStage) -> bool {
    if installed > 0 {
        next matches BatchStage::RollingBack { error, remaining, failures, commit_failed: cf }
            && error == e && remaining == installed && failures@.len() == 0 && cf == commit_failed
    } else {
        rollback_finished(e, Seq::empty(), commit_failed, next)
    }
}

/// The failures collected by a rollback step.
pub open spec fn failures_after(failures: Seq<DetailValue>, event: PlacementEvent) -> Seq<DetailView> {
    crate::error::list_view(failures) + match event {
        PlacementEvent::RollbackFailed(p, m) => seq![rollback_failure_view(p@, m@)],
        _ => Seq::empty(),
    }
}

/// The stage that the outcome `event` of the step asked for in `old` leads to, in a batch of
/// `n` plans.
pub open spec fn advanced(n: usize, old: BatchStage, event: PlacementEvent, next: BatchStage) -> bool {
    match old {
        BatchStage::Creating => match event {
            PlacementEvent::Failed(e) => next == BatchStage::Done { result: Err(e) },
            _ => next == BatchStage::Staging(0),
        },
        BatchStage::Staging(i) => match event {
            PlacementEvent::Failed(e) => next == BatchStage::Closing { error: e },
            _ => next == if i + 1 < n { BatchStage::Staging((i + 1) as usize) } else { BatchStage::Revalidating(0) },
        },
        BatchStage::Revalidating(i) => match event {
            PlacementEvent::Failed(e) => next == BatchStage::Closing { error: e },
            _ => next == if i + 1 < n {
                BatchStage::Revalidating((i + 1) as usize)
            } else {
                BatchStage::Committing(0)
            },
        },
        BatchStage::Committing(i) => match event {
            PlacementEvent::Failed(e) => rollback_begun(e, i, true, next),
            _ => next == BatchStage::CheckingRoot(i),
        },
        BatchStage::CheckingRoot(i) => match event {
            PlacementEvent::Failed(e) => rollback_begun(e, (i + 1) as usize, false, next),
            _ => next == if i + 1 < n { BatchStage::Committing((i + 1) as usize) } else { BatchStage::ResolvingPath },
        },
        BatchStage::RollingBack { error, remaining, failures, commit_failed } => if remaining > 1 {
            next matches BatchStage::RollingBack { error: e2, remaining: r2, failures: f2, commit_failed: c2 }
                && e2 == error && r2 == remaining - 1 && crate::error::list_view(f2@) == failures_after(failures@, event)
                && c2 == commit_failed
        } else {
            rollback_finished(error, failures_after(failures@, event), commit_failed, next)
        },
        BatchStage::RemovingDirectories { error } => match event {
            PlacementEvent::CleanupFailed(m) => next matches BatchStage::Keeping { error: e2 }
                && extended(error, e2, rollback_entries(seq![remove_failure_view(m@)])),
            _ => concluded(error, next),
        },
        BatchStage::Keeping { error } => match event {
            PlacementEvent::PathReady(p) => next matches BatchStage::Done { result: Err(e2) }
                && extended(error, e2, recovery_entries(Ok(p@))),
            PlacementEvent::PathUnavailable(m) => next matches BatchStage::Done { result: Err(e2) }
                && extended(error, e2, recovery_entries(Err(m@))),
            _ => true,
        },
        BatchStage::Closing { error } => match event {
            PlacementEvent::CleanupFailed(m) => next matches BatchStage::Done { result: Err(e2) }
                && extended(error, e2, cleanup_entries(m@)),
            _ => next == BatchStage::Done { result: Err(error) },
        },
        BatchStage::ResolvingPath => match event {
            PlacementEvent::PathReady(p) => next == BatchStage::ClosingCommitted { path: Ok(p) },
            PlacementEvent::PathUnavailable(m) => next == BatchStage::ClosingCommitted { path: Err(m) },
            _ => true,
        },
        BatchStage::ClosingCommitted { path } => next matches BatchStage::Done { result: Ok(report) }
            && committed_report(path, match event {
                PlacementEvent::CleanupFailed(m) => Some(m),
                _ => None,
            }, report),
        BatchStage::Done { result } => next == BatchStage::Done { result },
    }
}

fn conclude_rollback(error: CliError) -> (next: BatchStage)
    ensures
        concluded(error, next),
{
    if flag(&error, "rollbackFailed", true) {
        BatchStage::Keeping { error }
    } else {
        BatchStage::Closing { error: mark_rolled_back(error) }
    }
}

fn finish_rollback(error: CliError, failures: Vec<DetailValue>, commit_failed: bool) -> (next: BatchStage)
    ensures
        rollback_finished(error, crate::error::list_view(failures@), commit_failed, next),
{
    proof {
        lemma_list_view_len(failures@);
    }
    if failures.len() == 0 && commit_failed {
        BatchStage::RemovingDirectories { error }
    } else if failures.len() == 0 {
        conclude_rollback(error)
    } else {
        BatchStage::Keeping { error: attach_rollback_failures(error, failures) }
    }
}

fn begin_rollback(error: CliError, installed: usize, commit_failed: bool) -> (next: BatchStage)
    ensures
        rollback_begun(error, installed, commit_failed, next),
{
    if installed > 0 {
        BatchStage::RollingBack { error, remaining: installed, failures: Vec::new(), commit_failed }
    } else {
        let next = finish_rollback(error, Vec::new(), commit_failed);
        assert(crate::error::list_view(Seq::<DetailValue>::empty()) =~= Seq::empty());
        next
    }
}

/// `m` is `e` marked as a transaction failure in `phase`.
pub open spec fn marked(e: CliError, m: CliError, phase: ExecutionPhase) -> bool {
    &&& m.code == e.code
    &&& m.message == e.message
    &&& m.details == e.details
    &&& m.execution matches Some(x) && x.phase == phase && x.state == crate::mapping::transaction_state(e.details@)
}

impl PlacementBatch {
    /// The batch is well formed: its stage names plans that exist.
    pub open spec fn wf(self) -> bool {
        control_wf(self.count, control(self.stage))
    }

    /// A batch over `count` plans; with none, it is done at once with the error that a
    /// path is required.
    pub fn new(count: usize) -> (batch: Self)
        ensures
            batch.wf(),
            batch.count == count,
            count > 0 ==> batch.stage == BatchStage::Creating,
            count == 0 ==> (batch.stage matches BatchStage::Done { result: Err(e) }
                && crate::error::plain_error(e, ErrorCode::InvalidArgument, "copy/link requires a path"@)),
    {
        if count == 0 {
            PlacementBatch {
                count,
                stage: BatchStage::Done {
                    result: Err(CliError::new(ErrorCode::InvalidArgument, "copy/link requires a path")),
                },
            }
        } else {
            PlacementBatch { count, stage: BatchStage::Creating }
        }
    }

    pub fn is_well_formed(&self) -> (wf: bool)
        ensures
            wf == self.wf(),
    {
        match &self.stage {
            BatchStage::Creating => self.count > 0,
            BatchStage::Staging(i) | BatchStage::Revalidating(i) | BatchStage::Committing(i)
            | BatchStage::CheckingRoot(i) => *i < self.count,
            BatchStage::RollingBack { remaining, .. } => 0 < *remaining && *remaining <= self.count,
            _ => true,
        }
    }

    /// The step to take next.
    pub fn next_action(&self) -> (action: PlacementAction)
        ensures
            action == action_of(control(self.stage)),
    {
        match &self.stage {
            BatchStage::Creating => PlacementAction::CreateTransaction,
            BatchStage::Staging(i) => PlacementAction::Stage(*i),
            BatchStage::Revalidating(i) => PlacementAction::Revalidate(*i),
            BatchStage::Committing(i) => PlacementAction::Commit(*i),
            BatchStage::CheckingRoot(i) => PlacementAction::RevalidateRoot(*i),
            BatchStage::RollingBack { remaining, .. } => PlacementAction::Rollback(
                if *remaining > 0 { *remaining - 1 } else { 0 },
            ),
            BatchStage::RemovingDirectories { .. } => PlacementAction::RemoveCreatedDirectories,
            BatchStage::Keeping { .. } => PlacementAction::KeepTransaction,
            BatchStage::Closing { .. } => PlacementAction::CloseTransaction,
            BatchStage::ResolvingPath => PlacementAction::ResolveTransactionPath,
            BatchStage::ClosingCommitted { .. } => PlacementAction::CloseTransaction,
            BatchStage::Done { .. } => PlacementAction::Finish,
        }
    }

    /// Whether `event` is an outcome of the step that the batch asks for.
    pub fn accepts(&self, event: &PlacementEvent) -> (fit: bool)
        ensures
            fit == fits(control(self.stage), event_kind(*event)),
    {
        match &self.stage {
            BatchStage::Creating | BatchStage::Staging(_) | BatchStage::Revalidating(_)
            | BatchStage::Committing(_) | BatchStage::CheckingRoot(_) => matches!(
                event,
                PlacementEvent::Completed | PlacementEvent::Failed(_)
            ),
            BatchStage::RollingBack { .. } => matches!(
                event,
                PlacementEvent::Completed | PlacementEvent::RollbackFailed(_, _)
            ),
            BatchStage::RemovingDirectories { .. } | BatchStage::Closing { .. }
            | BatchStage::ClosingCommitted { .. } => matches!(
                event,
                PlacementEvent::Completed | PlacementEvent::CleanupFailed(_)
            ),
            BatchStage::Keeping { .. } | BatchStage::ResolvingPath => matches!(
                event,
                PlacementEvent::PathReady(_) | PlacementEvent::PathUnavailable(_)
            ),
            BatchStage::Done { .. } => false,
        }
    }

    /// Takes the outcome of the step that [`Self::next_action`] named.
    pub fn advance(self, event: PlacementEvent) -> (next: Self)
        requires
            self.wf(),
            fits(control(self.stage), event_kind(event)),
        ensures
            next.count == self.count,
            next.wf(),
            control(next.stage) == next_control(self.count, control(self.stage), event_kind(event)),
            advanced(self.count, self.stage, event, next.stage),
    {
        let n = self.count;
        let ghost old_stage = self.stage;
        let stage = match self.stage {
            BatchStage::Creating => match event {
                PlacementEvent::Failed(e) => BatchStage::Done { result: Err(e) },
                _ => BatchStage::Staging(0),
            },
            BatchStage::Staging(i) => match event {
                PlacementEvent::Failed(e) => BatchStage::Closing { error: e },
                _ => if i + 1 < n { BatchStage::Staging(i + 1) } else { BatchStage::Revalidating(0) },
            },
            BatchStage::Revalidating(i) => match event {
                PlacementEvent::Failed(e) => BatchStage::Closing { error: e },
                _ => if i + 1 < n { BatchStage::Revalidating(i + 1) } else { BatchStage::Committing(0) },
            },
            BatchStage::Committing(i) => match event {
                PlacementEvent::Failed(e) => begin_rollback(e, i, true),
                _ => BatchStage::CheckingRoot(i),
            },
            BatchStage::CheckingRoot(i) => match event {
                PlacementEvent::Failed(e) => begin_rollback(e, i + 1, false),
                _ => if i + 1 < n { BatchStage::Committing(i + 1) } else { BatchStage::ResolvingPath },
            },
            BatchStage::RollingBack { error, remaining, failures, commit_failed } => {
                let mut failures = failures;
                let ghost before = failures@;
                match event {
                    PlacementEvent::RollbackFailed(path, message) => {
                        let entry = rollback_failure(path, message);
                        proof {
                            crate::error::lemma_list_view_push(failures@, entry);
                        }
                        failures.push(entry);
                    },
                    _ => {},
                }
                assert(crate::error::list_view(failures@) =~= failures_after(before, event));
                proof {
                    lemma_list_view_len(failures@);
                    lemma_list_view_len(before);
                }
                if remaining > 1 {
                    BatchStage::RollingBack { error, remaining: remaining - 1, failures, commit_failed }
                } else {
                    finish_rollback(error, failures, commit_failed)
                }
            },
            BatchStage::RemovingDirectories { error } => match event {
                PlacementEvent::CleanupFailed(message) => {
                    let mut failures: Vec<DetailValue> = Vec::new();
                    let entry = remove_failure(message);
                    proof {
                        crate::error::lemma_list_view_push(failures@, entry);
                        assert(crate::error::list_view(Seq::<DetailValue>::empty()) =~= Seq::empty());
                        assert(Seq::<DetailView>::empty().push(crate::error::detail_view(entry)) =~= seq![crate::error::detail_view(entry)]);
                    }
                    failures.push(entry);
                    BatchStage::Keeping { error: attach_rollback_failures(error, failures) }
                },
                _ => conclude_rollback(error),
            },
            BatchStage::Keeping { error } => {
                let kept = match event {
                    PlacementEvent::PathReady(path) => Ok(path),
                    PlacementEvent::PathUnavailable(message) => Err(message),
                    _ => Err(String::new()),
                };
                BatchStage::Done { result: Err(recovery_error(error, kept)) }
            },
            BatchStage::Closing { error } => {
                let cleanup = match event {
                    PlacementEvent::CleanupFailed(message) => Some(message),
                    _ => None,
                };
                BatchStage::Done { result: Err(attach_transaction_cleanup(error, cleanup)) }
            },
            BatchStage::ResolvingPath => {
                let path = match event {
                    PlacementEvent::PathReady(path) => Ok(path),
                    PlacementEvent::PathUnavailable(message) => Err(message),
                    _ => Err(String::new()),
                };
                BatchStage::ClosingCommitted { path }
            },
            BatchStage::ClosingCommitted { path } => {
                let cleanup = match event {
                    PlacementEvent::CleanupFailed(message) => Some(message),
                    _ => None,
                };
                BatchStage::Done { result: Ok(committed_error(path, cleanup)) }
            },
            BatchStage::Done { result } => BatchStage::Done { result },
        };
        PlacementBatch { count: n, stage }
    }

    /// The batch's result once it is done, marked with the phase it failed in: the apply step
    /// for a failed batch, the cleanup after a committed one.
    pub fn into_result(self) -> (result: Result<Option<CliError>, CliError>)
        requires
            self.stage is Done,
        ensures
            self.stage matches BatchStage::Done { result: inner } && match inner {
                Ok(None) => result == Ok::<Option<CliError>, CliError>(None),
                Ok(Some(e)) => result matches Ok(Some(m)) && marked(e, m, ExecutionPhase::Finalize),
                Err(e) => result matches Err(m) && marked(e, m, ExecutionPhase::Apply),
            },
    {
        match self.stage {
            BatchStage::Done { result } => match result {
                Ok(None) => Ok(None),
                Ok(Some(e)) => Ok(Some(map_transaction_error(e, ExecutionPhase::Finalize))),
                Err(e) => Err(map_transaction_error(e, ExecutionPhase::Apply)),
            },
            _ => Ok(None),
        }
    }
}


// ----- laws -----

/// The steps that a batch of `n` plans in control state `c` asks for when its steps have the
/// outcomes `ks`, for as long as the outcomes fit the steps.
pub open spec fn trace(n: usize, c: BatchControl, ks: Seq<EventKind>) -> Seq<PlacementAction>
    decreases ks.len(),
{
    if ks.len() == 0 || !fits(c, ks[0]) {
        Seq::empty()
    } else {
        seq![action_of(c)] + trace(n, next_control(n, c, ks[0]), ks.drop_first())
    }
}

/// The control state after the outcomes `ks`.
pub open spec fn after(n: usize, c: BatchControl, ks: Seq<EventKind>) -> BatchControl
    decreases ks.len(),
{
    if ks.len() == 0 || !fits(c, ks[0]) {
        c
    } else {
        after(n, next_control(n, c, ks[0]), ks.drop_first())
    }
}

pub open spec fn is_rollback_outcome(k: EventKind) -> bool {
    k is Completed || k is RollbackFailed
}

pub open spec fn touches_destinations(a: PlacementAction) -> bool {
    a is Commit || a is Rollback || a is RemoveCreatedDirectories || a is KeepTransaction
}

/// A batch whose staging or revalidation of some plan fails touches no destination: the
/// only step left is removing the transaction directory.
pub proof fn law_failure_before_commit_touches_nothing(n: usize, i: usize, flagged: bool, ks: Seq<EventKind>)
    requires
        i < n,
    ensures
        trace(n, next_control(n, BatchControl::Staging(i), EventKind::Failed { flagged }), ks).len() <= 1,
        trace(n, next_control(n, BatchControl::Revalidating(i), EventKind::Failed { flagged }), ks).len() <= 1,
        forall|j: int| 0 <= j < trace(n, next_control(n, BatchControl::Staging(i), EventKind::Failed { flagged }), ks).len()
            ==> trace(n, next_control(n, BatchControl::Staging(i), EventKind::Failed { flagged }), ks)[j]
            == PlacementAction::CloseTransaction,
        forall|j: int| 0 <= j < trace(n, next_control(n, BatchControl::Revalidating(i), EventKind::Failed { flagged }), ks).len()
            ==> trace(n, next_control(n, BatchControl::Revalidating(i), EventKind::Failed { flagged }), ks)[j]
            == PlacementAction::CloseTransaction,
{
    lemma_closing_trace(n, ks);
}

proof fn lemma_closing_trace(n: usize, ks: Seq<EventKind>)
    ensures
        trace(n, BatchControl::Closing, ks).len() <= 1,
        trace(n, BatchControl::Closing, ks).len() == 1 ==> trace(n, BatchControl::Closing, ks)[0]
            == PlacementAction::CloseTransaction,
{
    if ks.len() > 0 && fits(BatchControl::Closing, ks[0]) {
        let rest = ks.drop_first();
        assert(trace(n, BatchControl::Done, rest) == Seq::<PlacementAction>::empty()) by {
            if rest.len() > 0 {
                assert(!fits(BatchControl::Done, rest[0]));
            }
        }
    }
}

/// Rolling back visits the installed plans newest first, one step each, whatever each
/// step's outcome.
pub proof fn law_rollback_is_newest_first(
    n: usize,
    remaining: usize,
    failed: bool,
    flagged: bool,
    commit_failed: bool,
    ks: Seq<EventKind>,
)
    requires
        0 < remaining <= n,
        ks.len() == remaining,
        forall|j: int| 0 <= j < ks.len() ==> is_rollback_outcome(#[trigger] ks[j]),
    ensures
        trace(n, BatchControl::RollingBack { remaining, failed, flagged, commit_failed }, ks)
            == Seq::new(remaining as nat, |j: int| PlacementAction::Rollback((remaining - 1 - j) as usize)),
        after(n, BatchControl::RollingBack { remaining, failed, flagged, commit_failed }, ks) == after_rollback(
            failed || exists|j: int| 0 <= j < ks.len() && (#[trigger] ks[j]) is RollbackFailed,
            flagged,
            commit_failed,
        ),
    decreases remaining,
{
    let c = BatchControl::RollingBack { remaining, failed, flagged, commit_failed };
    let rest = ks.drop_first();
    assert(fits(c, ks[0]));
    let failed2 = failed || ks[0] is RollbackFailed;
    if remaining > 1 {
        assert forall|j: int| 0 <= j < rest.len() implies is_rollback_outcome(#[trigger] rest[j]) by {
            assert(rest[j] == ks[j + 1]);
        }
        law_rollback_is_newest_first(n, (remaining - 1) as usize, failed2, flagged, commit_failed, rest);
        assert(trace(n, c, ks) =~= Seq::new(remaining as nat, |j: int| PlacementAction::Rollback((remaining - 1 - j) as usize)));
        let any_rest = exists|j: int| 0 <= j < rest.len() && (#[trigger] rest[j]) is RollbackFailed;
        let any_all = exists|j: int| 0 <= j < ks.len() && (#[trigger] ks[j]) is RollbackFailed;
        if any_rest {
            let j = choose|j: int| 0 <= j < rest.len() && (#[trigger] rest[j]) is RollbackFailed;
            assert(ks[j + 1] is RollbackFailed);
        }
        if any_all && !(ks[0] is RollbackFailed) {
            let j = choose|j: int| 0 <= j < ks.len() && (#[trigger] ks[j]) is RollbackFailed;
            assert(j > 0);
            assert(rest[j - 1] is RollbackFailed);
        }
    } else {
        assert(rest.len() == 0);
        let nc = next_control(n, c, ks[0]);
        assert(trace(n, nc, rest) == Seq::<PlacementAction>::empty());
        assert(after(n, nc, rest) == nc);
        assert(trace(n, c, ks) =~= Seq::new(remaining as nat, |j: int| PlacementAction::Rollback((remaining - 1 - j) as usize)));
        let any_all = exists|j: int| 0 <= j < ks.len() && (#[trigger] ks[j]) is RollbackFailed;
        if any_all {
            let j = choose|j: int| 0 <= j < ks.len() && (#[trigger] ks[j]) is RollbackFailed;
            assert(j == 0);
        }
        if ks[0] is RollbackFailed {
            assert(ks[0] is RollbackFailed);
        }
    }
}

/// A commit that fails after `i` plans were installed rolls back exactly those `i` plans,
/// newest first; a target root found changed after the commit of plan `i` rolls back plans
/// `i` down to 0.
pub proof fn law_commit_failure_rolls_back_earlier_plans(n: usize, i: usize, flagged: bool, ks: Seq<EventKind>)
    requires
        i < n,
        forall|j: int| 0 <= j < ks.len() ==> is_rollback_outcome(#[trigger] ks[j]),
    ensures
        ks.len() == i ==> trace(n, next_control(n, BatchControl::Committing(i), EventKind::Failed { flagged }), ks)
            == Seq::new(i as nat, |j: int| PlacementAction::Rollback((i - 1 - j) as usize)),
        ks.len() == i + 1 ==> trace(n, next_control(n, BatchControl::CheckingRoot(i), EventKind::Failed { flagged }), ks)
            == Seq::new((i + 1) as nat, |j: int| PlacementAction::Rollback((i - j) as usize)),
{
    if ks.len() == i && i > 0 {
        law_rollback_is_newest_first(n, i, false, flagged, true, ks);
    }
    if ks.len() == i && i == 0 {
        assert(trace(n, next_control(n, BatchControl::Committing(i), EventKind::Failed { flagged }), ks)
            =~= Seq::new(i as nat, |j: int| PlacementAction::Rollback((i - 1 - j) as usize)));
    }
    if ks.len() == i + 1 {
        law_rollback_is_newest_first(n, (i + 1) as usize, false, flagged, false, ks);
        assert(Seq::new((i + 1) as nat, |j: int| PlacementAction::Rollback(((i + 1) as usize - 1 - j) as usize))
            =~= Seq::new((i + 1) as nat, |j: int| PlacementAction::Rollback((i - j) as usize)));
    }
}

/// A rollback that fails, here or inside the failed commit, keeps the transaction for
/// recovery: the next step is keeping it, never closing it. A clean rollback after a failed
/// commit first removes the directories the commits created; after a clean rollback the
/// transaction is closed.
pub proof fn law_failed_rollback_keeps_transaction(failed: bool, flagged: bool, commit_failed: bool, k: EventKind)
    ensures
        (failed || flagged) && !(!failed && commit_failed) ==> action_of(after_rollback(failed, flagged, commit_failed))
            == PlacementAction::KeepTransaction,
        !failed && commit_failed ==> action_of(after_rollback(failed, flagged, commit_failed))
            == PlacementAction::RemoveCreatedDirectories,
        !failed && commit_failed && fits(after_rollback(failed, flagged, commit_failed), k) ==> action_of(
            next_control(0, after_rollback(failed, flagged, commit_failed), k),
        ) == if flagged || k is CleanupFailed {
            PlacementAction::KeepTransaction
        } else {
            PlacementAction::CloseTransaction
        },
        !failed && !flagged && !commit_failed ==> action_of(after_rollback(failed, flagged, commit_failed))
            == PlacementAction::CloseTransaction,
{
}


pub open spec fn completions(k: nat) -> Seq<EventKind> {
    Seq::new(k, |j: int| EventKind::Completed)
}

/// Committing plans `from..n`, each followed by the check of the target root.
pub open spec fn commit_steps(from: nat, n: nat) -> Seq<PlacementAction> {
    Seq::new((2 * (n - from)) as nat, |j: int| if j % 2 == 0 {
        PlacementAction::Commit((from + j / 2) as usize)
    } else {
        PlacementAction::RevalidateRoot((from + j / 2) as usize)
    })
}

/// The steps of a batch of `n` plans in which every step succeeds.
pub open spec fn successful_steps(n: nat) -> Seq<PlacementAction> {
    seq![PlacementAction::CreateTransaction]
        + Seq::new(n, |j: int| PlacementAction::Stage(j as usize))
        + Seq::new(n, |j: int| PlacementAction::Revalidate(j as usize))
        + commit_steps(0, n)
        + seq![PlacementAction::ResolveTransactionPath, PlacementAction::CloseTransaction]
}

/// The outcomes of a batch of `n` plans in which every step succeeds.
pub open spec fn successful_outcomes(n: nat) -> Seq<EventKind> {
    seq![EventKind::Completed] + completions(n) + completions(n) + completions(2 * n)
        + seq![EventKind::PathReady, EventKind::Completed]
}

proof fn lemma_staging_run(n: usize, i: usize, rest: Seq<EventKind>)
    requires
        i < n,
    ensures
        trace(n, BatchControl::Staging(i), completions((n - i) as nat) + rest)
            == Seq::new((n - i) as nat, |j: int| PlacementAction::Stage((i + j) as usize))
            + trace(n, BatchControl::Revalidating(0), rest),
        after(n, BatchControl::Staging(i), completions((n - i) as nat) + rest) == after(n, BatchControl::Revalidating(0), rest),
    decreases n - i,
{
    let ks = completions((n - i) as nat) + rest;
    assert(ks[0] == EventKind::Completed);
    if i + 1 < n {
        assert(ks.drop_first() =~= completions((n - (i + 1)) as nat) + rest);
        lemma_staging_run(n, (i + 1) as usize, rest);
        assert(trace(n, BatchControl::Staging(i), ks) =~= Seq::new((n - i) as nat, |j: int| PlacementAction::Stage((i + j) as usize))
            + trace(n, BatchControl::Revalidating(0), rest));
    } else {
        assert(ks.drop_first() =~= rest);
        assert(trace(n, BatchControl::Staging(i), ks) =~= Seq::new((n - i) as nat, |j: int| PlacementAction::Stage((i + j) as usize))
            + trace(n, BatchControl::Revalidating(0), rest));
    }
}

proof fn lemma_revalidation_run(n: usize, i: usize, rest: Seq<EventKind>)
    requires
        i < n,
    ensures
        trace(n, BatchControl::Revalidating(i), completions((n - i) as nat) + rest)
            == Seq::new((n - i) as nat, |j: int| PlacementAction::Revalidate((i + j) as usize))
            + trace(n, BatchControl::Committing(0), rest),
        after(n, BatchControl::Revalidating(i), completions((n - i) as nat) + rest) == after(n, BatchControl::Committing(0), rest),
    decreases n - i,
{
    let ks = completions((n - i) as nat) + rest;
    assert(ks[0] == EventKind::Completed);
    if i + 1 < n {
        assert(ks.drop_first() =~= completions((n - (i + 1)) as nat) + rest);
        lemma_revalidation_run(n, (i + 1) as usize, rest);
        assert(trace(n, BatchControl::Revalidating(i), ks) =~= Seq::new((n - i) as nat, |j: int| PlacementAction::Revalidate((i + j) as usize))
            + trace(n, BatchControl::Committing(0), rest));
    } else {
        assert(ks.drop_first() =~= rest);
        assert(trace(n, BatchControl::Revalidating(i), ks) =~= Seq::new((n - i) as nat, |j: int| PlacementAction::Revalidate((i + j) as usize))
            + trace(n, BatchControl::Committing(0), rest));
    }
}

proof fn lemma_commit_run(n: usize, i: usize, rest: Seq<EventKind>)
    requires
        i < n,
    ensures
        trace(n, BatchControl::Committing(i), completions((2 * (n - i)) as nat) + rest)
            == commit_steps(i as nat, n as nat) + trace(n, BatchControl::ResolvingPath, rest),
        after(n, BatchControl::Committing(i), completions((2 * (n - i)) as nat) + rest) == after(n, BatchControl::ResolvingPath, rest),
    decreases n - i,
{
    let ks = completions((2 * (n - i)) as nat) + rest;
    let ks1 = ks.drop_first();
    let ks2 = ks1.drop_first();
    assert(ks[0] == EventKind::Completed);
    assert(ks1[0] == EventKind::Completed);
    let root = BatchControl::CheckingRoot(i);
    assert(next_control(n, BatchControl::Committing(i), EventKind::Completed) == root);
    assert(after(n, BatchControl::Committing(i), ks) == after(n, root, ks1));
    if i + 1 < n {
        assert(ks2 =~= completions((2 * (n - (i + 1))) as nat) + rest);
        lemma_commit_run(n, (i + 1) as usize, rest);
        assert(after(n, root, ks1) == after(n, BatchControl::Committing((i + 1) as usize), ks2));
        assert(trace(n, root, ks1) == seq![PlacementAction::RevalidateRoot(i)] + trace(n, BatchControl::Committing((i + 1) as usize), ks2));
        assert(commit_steps(i as nat, n as nat) =~= seq![PlacementAction::Commit(i), PlacementAction::RevalidateRoot(i)]
            + commit_steps((i + 1) as nat, n as nat));
        assert(trace(n, BatchControl::Committing(i), ks) =~= commit_steps(i as nat, n as nat) + trace(n, BatchControl::ResolvingPath, rest));
    } else {
        assert(ks2 =~= rest);
        assert(after(n, root, ks1) == after(n, BatchControl::ResolvingPath, ks2));
        assert(trace(n, root, ks1) == seq![PlacementAction::RevalidateRoot(i)] + trace(n, BatchControl::ResolvingPath, ks2));
        assert(commit_steps(i as nat, n as nat) =~= seq![PlacementAction::Commit(i), PlacementAction::RevalidateRoot(i)]);
        assert(trace(n, BatchControl::Committing(i), ks) =~= commit_steps(i as nat, n as nat) + trace(n, BatchControl::ResolvingPath, rest));
    }
}

/// A batch whose every step succeeds creates its transaction, stages every plan, then
/// revalidates every plan, and only then commits the plans in order, checking the target
/// root after each; it ends by finding and removing the transaction directory.
pub proof fn law_successful_batch_order(n: usize)
    requires
        n > 0,
    ensures
        trace(n, BatchControl::Creating, successful_outcomes(n as nat)) == successful_steps(n as nat),
        after(n, BatchControl::Creating, successful_outcomes(n as nat)) == BatchControl::Done,
{
    let tail = seq![EventKind::PathReady, EventKind::Completed];
    let ks = successful_outcomes(n as nat);
    let r3 = completions((2 * n) as nat) + tail;
    let r2 = completions(n as nat) + r3;
    let r1 = completions(n as nat) + r2;
    assert(ks.drop_first() =~= r1);
    assert(ks[0] == EventKind::Completed);
    assert(completions((n - 0) as nat) =~= completions(n as nat));
    lemma_staging_run(n, 0, r2);
    lemma_revalidation_run(n, 0, r3);
    assert(completions((2 * (n - 0)) as nat) =~= completions((2 * n) as nat));
    lemma_commit_run(n, 0, tail);
    let t1 = tail.drop_first();
    assert(t1.drop_first() =~= Seq::<EventKind>::empty());
    assert(trace(n, BatchControl::Done, t1.drop_first()) == Seq::<PlacementAction>::empty());
    assert(tail[0] == EventKind::PathReady);
    assert(t1[0] == EventKind::Completed);
    assert(t1.len() == 1);
    assert(trace(n, BatchControl::ClosingCommitted, t1) =~= seq![PlacementAction::CloseTransaction]);
    assert(after(n, BatchControl::Done, t1.drop_first()) == BatchControl::Done);
    assert(after(n, BatchControl::ClosingCommitted, t1) == BatchControl::Done);
    assert(trace(n, BatchControl::ResolvingPath, tail) =~= seq![
        PlacementAction::ResolveTransactionPath,
        PlacementAction::CloseTransaction,
    ]);
    assert(after(n, BatchControl::ResolvingPath, tail) == BatchControl::Done);
    assert(Seq::new((n - 0) as nat, |j: int| PlacementAction::Stage((0 + j) as usize))
        =~= Seq::new(n as nat, |j: int| PlacementAction::Stage(j as usize)));
    assert(Seq::new((n - 0) as nat, |j: int| PlacementAction::Revalidate((0 + j) as usize))
        =~= Seq::new(n as nat, |j: int| PlacementAction::Revalidate(j as usize)));
    assert(trace(n, BatchControl::Creating, ks) =~= successful_steps(n as nat));
}


/// The first value stored under `key` in an entry list.
pub open spec fn view_lookup(d: Seq<(Seq<char>, DetailView)>, key: Seq<char>) -> Option<DetailView>
    decreases d.len(),
{
    if d.len() == 0 {
        None
    } else if d[0].0 == key {
        Some(d[0].1)
    } else {
        view_lookup(d.drop_first(), key)
    }
}

proof fn lemma_lookup_insert(d: Seq<(Seq<char>, DetailView)>, k: Seq<char>, v: DetailView, q: Seq<char>)
    ensures
        view_lookup(view_insert(d, k, v), q) == if q == k { Some(v) } else { view_lookup(d, q) },
    decreases d.len(),
{
    let r = view_insert(d, k, v);
    if d.len() == 0 {
        assert(r == seq![(k, v)]);
        assert(r.drop_first() =~= Seq::<(Seq<char>, DetailView)>::empty());
        assert(view_lookup(r.drop_first(), q) == None::<DetailView>);
    } else if d[0].0 == k {
        assert(r == d.update(0, (k, v)));
        assert(r.drop_first() =~= d.drop_first());
        assert(r[0] == (k, v));
    } else {
        lemma_lookup_insert(d.drop_first(), k, v, q);
        assert(r == seq![d[0]] + view_insert(d.drop_first(), k, v));
        assert(r.drop_first() =~= view_insert(d.drop_first(), k, v));
        assert(r[0] == d[0]);
    }
}

pub(crate) proof fn lemma_lookup_insert_all(d: Seq<(Seq<char>, DetailView)>, es: Seq<(Seq<char>, DetailView)>, i: int)
    requires
        0 <= i < es.len(),
        forall|j: int| i < j < es.len() ==> #[trigger] es[j].0 != es[i].0,
    ensures
        view_lookup(insert_all(d, es), es[i].0) == Some(es[i].1),
    decreases es.len(),
{
    let last = es.last();
    lemma_lookup_insert(insert_all(d, es.drop_last()), last.0, last.1, es[i].0);
    if i < es.len() - 1 {
        assert(es[es.len() - 1].0 != es[i].0);
        lemma_lookup_insert_all(d, es.drop_last(), i);
    }
}

/// A batch whose rollback failed ends with an error that reports that recovery is required
/// and that the batch is partly committed, whether or not the kept transaction's path
/// could be established.
pub proof fn law_kept_transaction_reports_recovery(n: usize, error: CliError, event: PlacementEvent, next: BatchStage)
    requires
        fits(BatchControl::Keeping, event_kind(event)),
        advanced(n, BatchStage::Keeping { error }, event, next),
    ensures
        next matches BatchStage::Done { result: Err(e) } && view_lookup(object_view(e.details@), "recoveryRequired"@)
            == Some(DetailView::Bool(true)) && view_lookup(object_view(e.details@), "committed"@) == Some(DetailView::Bool(true)),
{
    reveal_strlit("recoveryRequired");
    reveal_strlit("recoveryPath");
    reveal_strlit("backupPath");
    reveal_strlit("stagedPath");
    reveal_strlit("recoveryPathUnavailable");
    reveal_strlit("recoveryPathError");
    reveal_strlit("phase");
    reveal_strlit("committedState");
    reveal_strlit("committed");
    let kept = match event {
        PlacementEvent::PathReady(p) => Ok(p@),
        PlacementEvent::PathUnavailable(m) => Err(m@),
        _ => Err(Seq::empty()),
    };
    let es = recovery_entries(kept);
    assert forall|j: int| 0 < j < es.len() implies #[trigger] es[j].0 != es[0].0 by {
        assert(es[j].0.len() != es[0].0.len());
    }
    lemma_lookup_insert_all(object_view(error.details@), es, 0);
    lemma_lookup_insert_all(object_view(error.details@), es, es.len() - 1);
}


// ----- reporting -----

/// Whether plans copy their sources or link to them.
#[derive(Clone, Copy, Debug, PartialEq, Eq, Structural)]
pub enum FilePlacement {
    Copy,
    Link,
}

pub open spec fn placement_key(placement: FilePlacement) -> Seq<char> {
    match placement {
        FilePlacement::Copy => "copied"@,
        FilePlacement::Link => "linked"@,
    }
}

pub open spec fn text_is(value: DetailValue, text: Seq<char>) -> bool {
    value matches DetailValue::Text(t) && t@ == text
}

/// The data of a placement: the paths under `key`, then the worktree they went to, then
/// `extra`, if any.
pub open spec fn placement_data(data: DetailValue, key: Seq<char>, paths: Seq<Seq<char>>, target: Seq<char>, extra: Option<(Seq<char>, Seq<char>)>) -> bool {
    data matches DetailValue::Object(entries) && entries@.len() == 2 + if extra is Some { 1int } else { 0 }
        && entries@[0].0@ == key && is_text_list(entries@[0].1, paths)
        && entries@[1].0@ == "worktreePath"@ && text_is(entries@[1].1, target)
        && match extra {
            Some((k, v)) => entries@[2].0@ == k && text_is(entries@[2].1, v),
            None => true,
        }
}

fn listing(key: &str, paths: &Vec<String>, target_root: &str, extra: Option<(&str, &str)>) -> (data: DetailValue)
    ensures
        placement_data(data, key@, args_view(paths@), target_root@, match extra {
            Some((k, v)) => Some((k@, v@)),
            None => None,
        }),
{
    let mut entries: Vec<(String, DetailValue)> = Vec::new();
    entries.push((key.to_owned(), text_list_value(paths)));
    entries.push(("worktreePath".to_owned(), text_value(target_root)));
    match extra {
        Some((k, v)) => entries.push((k.to_owned(), text_value(v))),
        None => {},
    }
    DetailValue::Object(entries)
}

/// What `copy` and `link` report for a finished batch: the placed paths, with the cleanup
/// error when the plans were committed but the transaction could not be removed cleanly; a
/// failure that left the transaction for recovery is a partial result that lists the
/// attempted paths; any other failure is the command's error.
pub fn placement_output(
    placement: FilePlacement,
    paths: &Vec<String>,
    target_root: &str,
    batch: Result<Option<CliError>, CliError>,
) -> (result: Result<CommandOutput, CliError>)
    ensures
        match batch {
            Ok(None) => result matches Ok(out) && out.partial_error is None
                && placement_data(out.data, placement_key(placement), args_view(paths@), target_root@, None),
            Ok(Some(e)) => result matches Ok(out) && out.partial_error == Some(e)
                && placement_data(out.data, placement_key(placement), args_view(paths@), target_root@, None),
            Err(e) => if flag_is(e.details@, "recoveryRequired"@, true) {
                result matches Ok(out) && out.partial_error == Some(e) && placement_data(
                    out.data,
                    "attempted"@,
                    args_view(paths@),
                    target_root@,
                    Some(("transactionState"@, "recovery-required"@)),
                )
            } else {
                result == Err::<CommandOutput, CliError>(e)
            },
        },
{
    let key = match placement {
        FilePlacement::Copy => "copied",
        FilePlacement::Link => "linked",
    };
    match batch {
        Ok(None) => Ok(CommandOutput::new(listing(key, paths, target_root, None))),
        Ok(Some(cleanup)) => Ok(CommandOutput::partial(listing(key, paths, target_root, None), cleanup)),
        Err(error) => if flag(&error, "recoveryRequired", true) {
            let data = listing("attempted", paths, target_root, Some(("transactionState", "recovery-required")));
            Ok(CommandOutput::partial(data, error))
        } else {
            Err(error)
        },
    }
}

/// The include-file copy into a new worktree succeeds only when its batch committed and
/// cleaned up; any error, including one after the commit, is the copy's error.
pub fn include_copy_result(batch: Result<Option<CliError>, CliError>) -> (result: Result<(), CliError>)
    ensures
        match batch {
            Ok(None) => result is Ok,
            Ok(Some(e)) => result == Err::<(), CliError>(e),
            Err(e) => result == Err::<(), CliError>(e),
        },
{
    match batch {
        Ok(None) => Ok(()),
        Ok(Some(error)) => Err(error),
        Err(error) => Err(error),
    }
}

} // verus!
