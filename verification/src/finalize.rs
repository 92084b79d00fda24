//! Finalizing a worktree that `new`, `switch` or `get` put in place: copying the
//! `.worktreeinclude` files into a freshly created worktree and recording the branch's
//! lifecycle. When either fails for a worktree this run created, the worktree is removed
//! again (and a branch this run created is deleted), and the error says what was undone or
//! what is left for recovery.

use vstd::prelude::*;

use crate::create::{checked_step, delete_local_branch_if_unchanged, step_reported, update_ref_delete_args, TargetFilesystem};
use crate::git::args_view;
use crate::error::{
    insert_entry, object_view, view_insert, CliError, DetailValue, DetailView, ExecutionPhase, ExecutionReport,
    ExecutionState,
};
use crate::install::{texts_value, texts_view};
use crate::mapping::text_view;
use crate::placement::insert_all;
use crate::plans::{WorktreeGitApplied, WorktreeMutationResult};
use crate::probes::{push_arg, CreateMutationGit};
use crate::process::ProcessOutput;
use crate::text::str_eq;

verus! {

/// The work of finalization that lives outside this crate: the include-file copy and the
/// lifecycle record.
pub trait WorktreeFinalization {
    /// Whether this may answer `result` when asked to copy the include files into `target`.
    /// One that says nothing of its answers may give any; so for the record below.
    open spec fn copy_answer(&self, repo_root: Seq<char>, managed_root: Seq<char>, target: Seq<char>, result: Result<(), CliError>) -> bool {
        true
    }

    /// Whether this may answer `result` when asked to record `branch` with its base branch.
    open spec fn record_answer(&self, repo_root: Seq<char>, branch: Seq<char>, base_branch: Seq<char>, result: Result<(), CliError>) -> bool {
        true
    }

    /// Copies the files that `.worktreeinclude` selects from the repository into a freshly
    /// created worktree.
    fn copy_worktree_include(&self, repo_root: &str, managed_root: &str, target: &str) -> (result: Result<(), CliError>)
        ensures
            self.copy_answer(repo_root@, managed_root@, target@, result),
    ;

    /// Records that `branch` now has a worktree, with its base branch.
    fn merge_lifecycle_observation(&self, repo_root: &str, branch: &str, base_branch: &str) -> (result: Result<(), CliError>)
        ensures
            self.record_answer(repo_root@, branch@, base_branch@, result),
    ;
}

/// The detail keys of a transaction that no longer apply once the created worktree is gone.
pub open spec fn rollback_keys() -> Seq<Seq<char>> {
    seq![
        "backupPath"@, "committed"@, "committedState"@, "recoveryPath"@, "recoveryPathError"@,
        "recoveryPathUnavailable"@, "recoveryRequired"@, "rollbackFailed"@, "rollbackFailures"@, "stagedPath"@,
        "transactionCleanupError"@, "transactionCleanupFailed"@,
    ]
}

fn rollback_key_list() -> (keys: Vec<&'static str>)
    ensures
        keys@.map_values(|k: &str| k@) == rollback_keys(),
{
    let keys = vec![
        "backupPath", "committed", "committedState", "recoveryPath", "recoveryPathError",
        "recoveryPathUnavailable", "recoveryRequired", "rollbackFailed", "rollbackFailures", "stagedPath",
        "transactionCleanupError", "transactionCleanupFailed",
    ];
    assert(keys@.map_values(|k: &str| k@) =~= rollback_keys());
    keys
}

/// The entries whose keys are not in `keys`, in order.
pub open spec fn drop_keys(d: Seq<(Seq<char>, DetailView)>, keys: Seq<Seq<char>>) -> Seq<(Seq<char>, DetailView)>
    decreases d.len(),
{
    if d.len() == 0 {
        d
    } else {
        let rest = drop_keys(d.drop_last(), keys);
        if keys.contains(d.last().0) {
            rest
        } else {
            rest.push(d.last())
        }
    }
}

fn key_listed(keys: &Vec<&str>, key: &str) -> (listed: bool)
    ensures
        listed == keys@.map_values(|k: &str| k@).contains(key@),
{
    let ghost ks = keys@.map_values(|k: &str| k@);
    let mut i: usize = 0;
    while i < keys.len()
        invariant
            i <= keys@.len(),
            ks == keys@.map_values(|k: &str| k@),
            forall|j: int| 0 <= j < i ==> ks[j] != key@,
        decreases keys.len() - i,
    {
        if str_eq(keys[i], key) {
            assert(ks[i as int] == key@);
            return true;
        }
        i = i + 1;
    }
    assert forall|j: int| 0 <= j < ks.len() implies ks[j] != key@ by {}
    false
}

fn remove_keys(entries: Vec<(String, DetailValue)>, keys: &Vec<&str>) -> (out: Vec<(String, DetailValue)>)
    ensures
        object_view(out@) == drop_keys(object_view(entries@), keys@.map_values(|k: &str| k@)),
{
    let ghost v = object_view(entries@);
    let ghost ks = keys@.map_values(|k: &str| k@);
    proof {
        crate::error::lemma_object_view_index(entries@);
    }
    let mut out: Vec<(String, DetailValue)> = Vec::new();
    let mut i: usize = 0;
    assert(v.take(0).len() == 0);
    assert(object_view(out@) =~= drop_keys(v.take(0), ks));
    while i < entries.len()
        invariant
            i <= entries@.len(),
            v == object_view(entries@),
            v.len() == entries@.len(),
            forall|j: int| 0 <= j < entries@.len() ==> #[trigger] v[j] == (entries@[j].0@, crate::error::detail_view(entries@[j].1)),
            ks == keys@.map_values(|k: &str| k@),
            object_view(out@) == drop_keys(v.take(i as int), ks),
        decreases entries.len() - i,
    {
        let ghost prefix = v.take(i + 1);
        assert(prefix.drop_last() =~= v.take(i as int));
        assert(prefix.last() == v[i as int]);
        if !key_listed(keys, entries[i].0.as_str()) {
            let entry = (entries[i].0.clone(), crate::error::copy_detail(&entries[i].1));
            proof {
                crate::error::lemma_object_view_push(out@, entry);
            }
            out.push(entry);
        }
        i = i + 1;
    }
    assert(v.take(entries@.len() as int) =~= v);
    out
}

/// The phase of an error's execution report; one without a report is in the apply step.
pub open spec fn base_phase(execution: Option<ExecutionReport>) -> ExecutionPhase {
    match execution {
        Some(x) => x.phase,
        None => ExecutionPhase::Apply,
    }
}

pub open spec fn base_completed(execution: Option<ExecutionReport>) -> Seq<Seq<char>> {
    match execution {
        Some(x) => x.completed@.map_values(|c: String| c@),
        None => Seq::empty(),
    }
}

pub open spec fn base_recovery(execution: Option<ExecutionReport>) -> Seq<(Seq<char>, DetailView)> {
    match execution {
        Some(x) => object_view(x.recovery@),
        None => Seq::empty(),
    }
}

/// What went wrong while undoing the creation: the removal of the worktree, then the
/// deletion of the branch.
pub open spec fn undo_failures(removal: Result<(), CliError>, deletion: Option<Result<(), CliError>>) -> Seq<String> {
    let first = match removal {
        Err(e) => seq![e.message],
        Ok(_) => Seq::empty(),
    };
    let second = match deletion {
        Some(Err(e)) => seq![e.message],
        _ => Seq::empty(),
    };
    first + second
}

/// `out` is `original` after undoing the creation of the worktree at `target` on `branch`:
/// once the worktree is removed, the transaction details no longer apply, the removal is
/// listed as completed and the error says the worktree was rolled back; the state is
/// rolled back when nothing failed, and otherwise the failures are recorded for recovery.
pub open spec fn creation_undone(
    original: CliError,
    target: Seq<char>,
    branch: Seq<char>,
    removal: Result<(), CliError>,
    deletion: Option<Result<(), CliError>>,
    out: CliError,
) -> bool {
    let removed = removal is Ok;
    let failures = undo_failures(removal, deletion);
    let d0 = object_view(original.details@);
    let d1 = if removed {
        view_insert(drop_keys(d0, rollback_keys()), "worktreeRolledBack"@, DetailView::Bool(true))
    } else {
        d0
    };
    let r1 = if removed { Seq::empty() } else { base_recovery(original.execution) };
    &&& out.code == original.code
    &&& out.message == original.message
    &&& object_view(out.details@) == if failures.len() > 0 {
        view_insert(d1, "worktreeRollbackFailures"@, DetailView::List(texts_view(failures)))
    } else {
        d1
    }
    &&& out.execution matches Some(x) && x.phase == base_phase(original.execution) && x.state == if failures.len() == 0 {
        ExecutionState::RolledBack
    } else {
        ExecutionState::RecoveryRequired
    } && x.completed@.map_values(|c: String| c@) == base_completed(original.execution) + if removed {
        seq!["removeCreatedWorktree"@]
    } else {
        Seq::empty()
    } && object_view(x.recovery@) == if failures.len() > 0 {
        insert_all(r1, seq![
            ("worktreePath"@, text_view(target)),
            ("branch"@, text_view(branch)),
            ("rollbackFailures"@, DetailView::List(texts_view(failures))),
        ])
    } else {
        r1
    }
}

/// Records on `original` what undoing the creation did, given how the removal of the
/// worktree and the deletion of the branch (when there was one to delete) went.
pub fn creation_undo_error(
    original: CliError,
    target: &str,
    branch: &str,
    removal: Result<(), CliError>,
    deletion: Option<Result<(), CliError>>,
) -> (out: CliError)
    ensures
        creation_undone(original, target@, branch@, removal, deletion, out),
{
    let ghost orig = original;
    let ghost rm = removal;
    let ghost del = deletion;
    let mut error = original;
    let mut report = match error.execution {
        Some(x) => x,
        None => ExecutionReport {
            phase: ExecutionPhase::Apply,
            state: ExecutionState::Unknown,
            completed: Vec::new(),
            recovery: Vec::new(),
        },
    };
    error.execution = None;
    let ghost base = report;
    assert(base.completed@.map_values(|c: String| c@) =~= base_completed(orig.execution));
    assert(object_view(base.recovery@) == base_recovery(orig.execution));
    let mut failures: Vec<String> = Vec::new();
    let removed = removal.is_ok();
    match removal {
        Err(e) => failures.push(e.message),
        Ok(_) => {},
    }
    if removed {
        let keys = rollback_key_list();
        let kept = remove_keys(error.details, &keys);
        error.details = kept;
        insert_entry(&mut error.details, "worktreeRolledBack", DetailValue::Bool(true));
        report.recovery = Vec::new();
        let ghost before = report.completed@;
        report.completed.push("removeCreatedWorktree".to_owned());
        assert(report.completed@.map_values(|c: String| c@) =~= before.map_values(|c: String| c@).push(
            "removeCreatedWorktree"@,
        ));
        assert(object_view(report.recovery@) =~= Seq::<(Seq<char>, DetailView)>::empty());
    } else {
        assert(report.completed@.map_values(|c: String| c@) =~= base.completed@.map_values(|c: String| c@) + Seq::empty());
        assert(object_view(report.recovery@) == base_recovery(orig.execution));
    }
    match deletion {
        Some(Err(e)) => failures.push(e.message),
        _ => {},
    }
    assert(failures@ =~= undo_failures(rm, del));
    if failures.len() == 0 {
        report.state = ExecutionState::RolledBack;
    } else {
        report.state = ExecutionState::RecoveryRequired;
        let ghost r0 = object_view(report.recovery@);
        let ghost es = seq![
            ("worktreePath"@, text_view(target@)),
            ("branch"@, text_view(branch@)),
            ("rollbackFailures"@, DetailView::List(texts_view(failures@))),
        ];
        insert_entry(&mut report.recovery, "worktreePath", DetailValue::Text(target.to_owned()));
        proof {
            crate::placement::lemma_insert_one(r0, es[0]);
            assert(es.take(1) =~= seq![es[0]]);
        }
        insert_entry(&mut report.recovery, "branch", DetailValue::Text(branch.to_owned()));
        proof {
            crate::placement::lemma_insert_push(r0, es.take(1), es[1]);
            assert(es.take(1).push(es[1]) =~= es.take(2));
        }
        let list = texts_value(&failures);
        insert_entry(&mut report.recovery, "rollbackFailures", list);
        proof {
            crate::placement::lemma_insert_push(r0, es.take(2), es[2]);
            assert(es.take(2).push(es[2]) =~= es);
        }
        let list = texts_value(&failures);
        insert_entry(&mut error.details, "worktreeRollbackFailures", list);
    }
    error.execution = Some(report);
    assert(error.code == orig.code);
    assert(error.message == orig.message);
    assert(error.execution matches Some(x) && x.phase == base_phase(orig.execution));
    assert(error.execution matches Some(x) && x.completed@.map_values(|c: String| c@) == base_completed(orig.execution) + if removed {
        seq!["removeCreatedWorktree"@]
    } else {
        Seq::<Seq<char>>::empty()
    });
    error
}

/// `git worktree remove --force <target>`.
pub open spec fn worktree_remove_args(target: Seq<char>) -> Seq<Seq<char>> {
    seq!["worktree"@, "remove"@, "--force"@, target]
}

/// The Git answers behind undoing a creation are answers `git` may give: the forced removal
/// of the worktree and, for a branch made by this run, its guarded deletion.
pub open spec fn undo_reported<G: CreateMutationGit>(
    git: &G,
    repo_root: Seq<char>,
    target: Seq<char>,
    branch: Seq<char>,
    created_branch_oid: Option<Seq<char>>,
    removal: Result<(), CliError>,
    deletion: Option<Result<(), CliError>>,
) -> bool {
    &&& step_reported(git, repo_root, worktree_remove_args(target), removal)
    &&& (deletion matches Some(d) ==> step_reported(git, repo_root, update_ref_delete_args(branch, created_branch_oid->Some_0), d))
}

/// Undoes the creation of the worktree at `target`: removes it with
/// `git worktree remove --force`, deletes the branch this run created when it still points
/// at `created_branch_oid`, and prunes the target's empty parent directories.
pub fn rollback_created_worktree<G: CreateMutationGit, F: TargetFilesystem>(
    git: &G,
    fs: &F,
    repo_root: &str,
    target: &str,
    managed_root: &str,
    branch: &str,
    created_branch_oid: Option<&str>,
    original: CliError,
) -> (out: CliError)
    ensures
        exists|removal: Result<(), CliError>, deletion: Option<Result<(), CliError>>|
            (deletion is Some <==> created_branch_oid is Some) && #[trigger] creation_undone(
                original,
                target@,
                branch@,
                removal,
                deletion,
                out,
            ),
        exists|removal: Result<(), CliError>, deletion: Option<Result<(), CliError>>|
            (deletion is Some <==> created_branch_oid is Some) && #[trigger] creation_undone(
                original,
                target@,
                branch@,
                removal,
                deletion,
                out,
            ) && undo_reported(git, repo_root@, target@, branch@, opt_str_view(created_branch_oid), removal, deletion),
{
    let mut args: Vec<String> = Vec::new();
    assert(args_view(args@) =~= Seq::<Seq<char>>::empty());
    push_arg(&mut args, "worktree");
    push_arg(&mut args, "remove");
    push_arg(&mut args, "--force");
    push_arg(&mut args, target);
    assert(args_view(args@) =~= worktree_remove_args(target@));
    let run = git.run_git_checked(repo_root, &args);
    let ghost ran = run;
    let removal = match run {
        Ok(_) => Ok(()),
        Err(error) => Err(error),
    };
    assert(checked_step(ran, removal));
    let deletion = match created_branch_oid {
        Some(oid) => Some(delete_local_branch_if_unchanged(git, repo_root, branch, oid)),
        None => None,
    };
    let ghost rm = removal;
    let ghost del = deletion;
    let out = creation_undo_error(original, target, branch, removal, deletion);
    fs.prune_empty_target_parents(target, managed_root);
    assert(creation_undone(original, target@, branch@, rm, del, out));
    assert(undo_reported(git, repo_root@, target@, branch@, opt_str_view(created_branch_oid), rm, del));
    out
}

/// The text of an optional string.
pub open spec fn opt_str_view(o: Option<&str>) -> Option<Seq<char>> {
    match o {
        Some(s) => Some(s@),
        None => None,
    }
}

/// What finalization answers, for the outcomes of the include copy (asked only for a
/// worktree this run created) and of the lifecycle record (asked only when the copy did not
/// fail), and the undo of the creation when one of them failed.
pub open spec fn finalized_ok(
    applied: WorktreeGitApplied,
    copy: Option<Result<(), CliError>>,
    record: Option<Result<(), CliError>>,
    undone: Option<(Result<(), CliError>, Option<Result<(), CliError>>)>,
    result: Result<WorktreeMutationResult, CliError>,
) -> bool {
    let created = applied.remove_worktree_on_state_failure;
    let failure = match copy {
        Some(Err(e)) => Some(e),
        _ => match record {
            Some(Err(e)) => Some(e),
            _ => None::<CliError>,
        },
    };
    &&& (copy is Some <==> created)
    &&& (record is Some <==> !(copy matches Some(Err(_))))
    &&& match failure {
        None => undone is None && result == Ok::<WorktreeMutationResult, CliError>(
            WorktreeMutationResult { branch: applied.branch, path: applied.path, disposition: applied.disposition },
        ),
        Some(e) => if created {
            match (undone, result) {
                (Some((removal, deletion)), Err(out)) => (deletion is Some <==> applied.created_branch_oid is Some)
                    && creation_undone(e, applied.path@, applied.branch@, removal, deletion, out),
                _ => false,
            }
        } else {
            undone is None && result == Err::<WorktreeMutationResult, CliError>(e)
        },
    }
}

/// The answers behind finalization are answers the finalizer and Git may give: the include
/// copy into the created worktree, the lifecycle record of the branch, and the undo of the
/// creation.
pub open spec fn finalize_answers_reported<G: CreateMutationGit, W: WorktreeFinalization>(
    git: &G,
    work: &W,
    applied: WorktreeGitApplied,
    copy: Option<Result<(), CliError>>,
    record: Option<Result<(), CliError>>,
    undone: Option<(Result<(), CliError>, Option<Result<(), CliError>>)>,
) -> bool {
    let repo = applied.repo_root@;
    &&& (copy matches Some(c) ==> work.copy_answer(repo, applied.managed_worktree_root->Some_0@, applied.path@, c))
    &&& (record matches Some(r) ==> work.record_answer(repo, applied.branch@, applied.base_branch@, r))
    &&& (undone matches Some((removal, deletion)) ==> undo_reported(
        git,
        repo,
        applied.path@,
        applied.branch@,
        crate::plans::opt_text(applied.created_branch_oid),
        removal,
        deletion,
    ))
}

/// Finalizes a worktree after its Git step: for a worktree this run created, copies its
/// include files first; then records the lifecycle. A failure of either undoes a created
/// worktree; for an existing one, the lifecycle failure is returned as it is.
pub fn finalize_worktree_state<G: CreateMutationGit, F: TargetFilesystem, W: WorktreeFinalization>(
    git: &G,
    fs: &F,
    work: &W,
    applied: WorktreeGitApplied,
) -> (result: Result<WorktreeMutationResult, CliError>)
    requires
        applied.remove_worktree_on_state_failure ==> applied.managed_worktree_root is Some,
    ensures
        exists|
            copy: Option<Result<(), CliError>>,
            record: Option<Result<(), CliError>>,
            undone: Option<(Result<(), CliError>, Option<Result<(), CliError>>)>,
        | #[trigger] finalized_ok(applied, copy, record, undone, result),
        exists|
            copy: Option<Result<(), CliError>>,
            record: Option<Result<(), CliError>>,
            undone: Option<(Result<(), CliError>, Option<Result<(), CliError>>)>,
        |
            #[trigger] finalized_ok(applied, copy, record, undone, result)
                && finalize_answers_reported(git, work, applied, copy, record, undone),
{
    let ghost a = applied;
    let created = applied.remove_worktree_on_state_failure;
    let managed_root: String = match &applied.managed_worktree_root {
        Some(root) => root.clone(),
        None => String::new(),
    };
    let oid: Option<&str> = match &applied.created_branch_oid {
        Some(oid) => Some(oid.as_str()),
        None => None,
    };
    let ghost mut copied: Option<Result<(), CliError>> = None;
    if created {
        let copy = work.copy_worktree_include(applied.repo_root.as_str(), managed_root.as_str(), applied.path.as_str());
        let ghost c = copy;
        match copy {
            Err(error) => {
                let out = rollback_created_worktree(
                    git,
                    fs,
                    applied.repo_root.as_str(),
                    applied.path.as_str(),
                    managed_root.as_str(),
                    applied.branch.as_str(),
                    oid,
                    error,
                );
                let ghost (removal, deletion) = choose|removal: Result<(), CliError>, deletion: Option<Result<(), CliError>>|
                    (deletion is Some <==> oid is Some) && #[trigger] creation_undone(c->Err_0, a.path@, a.branch@, removal, deletion, out)
                        && undo_reported(git, a.repo_root@, a.path@, a.branch@, opt_str_view(oid), removal, deletion);
                let result: Result<WorktreeMutationResult, CliError> = Err(out);
                assert(finalized_ok(a, Some(c), None, Some((removal, deletion)), result));
                assert(finalize_answers_reported(git, work, a, Some(c), None, Some((removal, deletion))));
                return result;
            },
            Ok(()) => {
                proof {
                    copied = Some(c);
                }
            },
        }
    }
    let record = work.merge_lifecycle_observation(applied.repo_root.as_str(), applied.branch.as_str(), applied.base_branch.as_str());
    let ghost r = record;
    match record {
        Err(error) => {
            if created {
                let out = rollback_created_worktree(
                    git,
                    fs,
                    applied.repo_root.as_str(),
                    applied.path.as_str(),
                    managed_root.as_str(),
                    applied.branch.as_str(),
                    oid,
                    error,
                );
                let ghost (removal, deletion) = choose|removal: Result<(), CliError>, deletion: Option<Result<(), CliError>>|
                    (deletion is Some <==> oid is Some) && #[trigger] creation_undone(r->Err_0, a.path@, a.branch@, removal, deletion, out)
                        && undo_reported(git, a.repo_root@, a.path@, a.branch@, opt_str_view(oid), removal, deletion);
                let result: Result<WorktreeMutationResult, CliError> = Err(out);
                assert(finalized_ok(a, copied, Some(r), Some((removal, deletion)), result));
                assert(finalize_answers_reported(git, work, a, copied, Some(r), Some((removal, deletion))));
                result
            } else {
                let result: Result<WorktreeMutationResult, CliError> = Err(error);
                assert(finalized_ok(a, copied, Some(r), None, result));
                assert(finalize_answers_reported(git, work, a, copied, Some(r), None));
                result
            }
        },
        Ok(()) => {
            let result: Result<WorktreeMutationResult, CliError> = Ok(
                WorktreeMutationResult { branch: applied.branch, path: applied.path, disposition: applied.disposition },
            );
            assert(finalized_ok(a, copied, Some(r), None, result));
            assert(finalize_answers_reported(git, work, a, copied, Some(r), None));
            result
        },
    }
}

} // verus!
