//! `mv`: renaming the current worktree's branch and moving its directory, as a sequence of
//! steps each of which is undone when a later one fails. The rename's metadata transaction
//! and the validated target live outside this crate, behind [`RenameTransaction`].

use vstd::prelude::*;

use crate::create::{branch_probe, TargetFilesystem};
use crate::error::{insert_entry, object_view, view_insert, CliError, DetailValue, DetailView, ErrorCode, ExecutionReport, ExecutionState};
use crate::finalize::{base_completed, base_phase, base_recovery};
use crate::install::{texts_value, texts_view};
use crate::mapping::text_view;
use crate::placement::insert_all;
use crate::plans::{MetadataRenameOutcome, MvApplyPlan, MvGitApplied, MvPlan, MvResult, StagedMvPlan};
use crate::process::ProcessOutput;
use crate::change::checked_run_reported;
use crate::probes::{branch_error, is_branch_error, local_branch_exists, probe_reported, push_arg, show_ref_args, CreateMutationGit};

verus! {

/// The parts of a rename that live outside this crate: its metadata transaction, and the
/// target that preflight validated.
pub trait RenameTransaction {
    /// Whether the transaction may answer `result` when asked to stage `plan`. A transaction
    /// that says nothing of its answers may give any; so for the relations below.
    open spec fn stage_answer(&self, plan: MvApplyPlan, result: Result<(), CliError>) -> bool {
        true
    }

    /// Whether the transaction may answer `result` when asked to drop the staged `plan`.
    open spec fn rollback_answer(&self, plan: MvApplyPlan, result: Result<(), CliError>) -> bool {
        true
    }

    /// Whether the transaction may answer `result` when asked to refresh the lifecycle.
    open spec fn refresh_answer(&self, repo_root: Seq<char>, plan: MvApplyPlan, result: Result<(), CliError>) -> bool {
        true
    }

    /// Whether the transaction may answer `result` when asked to record the branch rename.
    open spec fn renamed_answer(&self, plan: MvApplyPlan, result: Result<(), CliError>) -> bool {
        true
    }

    /// Whether the transaction may answer `result` when asked to record the worktree move.
    open spec fn moved_answer(&self, plan: MvApplyPlan, result: Result<(), CliError>) -> bool {
        true
    }

    /// Whether the transaction may answer `result` when asked for the revalidated target.
    open spec fn target_answer(&self, plan: MvApplyPlan, result: Result<String, CliError>) -> bool {
        true
    }

    /// Whether the transaction may answer `result` when asked to commit.
    open spec fn commit_answer(&self, plan: MvApplyPlan, result: Result<MetadataRenameOutcome, CliError>) -> bool {
        true
    }

    /// Stages the metadata rename before the hooks run.
    fn stage(&self, plan: &MvApplyPlan) -> (result: Result<(), CliError>)
        ensures
            self.stage_answer(*plan, result),
    ;

    /// Drops the staged metadata rename.
    fn rollback_staged(&self, plan: &MvApplyPlan) -> (result: Result<(), CliError>)
        ensures
            self.rollback_answer(*plan, result),
    ;

    /// Takes the lifecycle observation lock and refreshes the staged lifecycle under it.
    fn refresh_lifecycle(&self, repo_root: &str, plan: &MvApplyPlan) -> (result: Result<(), CliError>)
        ensures
            self.refresh_answer(repo_root@, *plan, result),
    ;

    /// Records in the transaction that the branch was renamed.
    fn mark_branch_renamed(&self, plan: &MvApplyPlan) -> (result: Result<(), CliError>)
        ensures
            self.renamed_answer(*plan, result),
    ;

    /// Records in the transaction that the worktree was moved.
    fn mark_worktree_moved(&self, plan: &MvApplyPlan) -> (result: Result<(), CliError>)
        ensures
            self.moved_answer(*plan, result),
    ;

    /// Commits the metadata rename, answering what it moved.
    fn commit(&self, plan: &MvApplyPlan) -> (result: Result<MetadataRenameOutcome, CliError>)
        ensures
            self.commit_answer(*plan, result),
    ;

    /// The target path, checked again against the target that preflight validated.
    fn revalidate_target(&self, plan: &MvApplyPlan) -> (result: Result<String, CliError>)
        ensures
            self.target_answer(*plan, result),
    ;
}


/// What staging a rename answers for what the metadata transaction answered: a rename to
/// the current name is passed on; a real one is staged once the transaction staged it, and
/// the transaction's error is returned otherwise.
pub open spec fn mv_staged(plan: MvPlan, answer: Result<(), CliError>, result: Result<StagedMvPlan, CliError>) -> bool {
    match plan {
        MvPlan::Noop(r) => result == Ok::<StagedMvPlan, CliError>(StagedMvPlan::Noop(r)),
        MvPlan::Apply(p) => match answer {
            Ok(_) => result == Ok::<StagedMvPlan, CliError>(StagedMvPlan::Apply(p)),
            Err(e) => result == Err::<StagedMvPlan, CliError>(e),
        },
    }
}

/// Stages a real rename's metadata before the hooks run; a rename to the current name has
/// nothing to stage.
pub fn stage_mv_for_hook<T: RenameTransaction>(transaction: &T, plan: MvPlan) -> (result: Result<StagedMvPlan, CliError>)
    ensures
        match plan {
            MvPlan::Noop(r) => result == Ok::<StagedMvPlan, CliError>(StagedMvPlan::Noop(r)),
            MvPlan::Apply(p) => result matches Ok(staged) ==> staged == StagedMvPlan::Apply(p),
        },
        exists|answer: Result<(), CliError>| #[trigger] mv_staged(plan, answer, result),
        exists|answer: Result<(), CliError>|
            #[trigger] mv_staged(plan, answer, result) && (plan matches MvPlan::Apply(p) ==> transaction.stage_answer(*p, answer)),
{
    let ghost p0 = plan;
    match plan {
        MvPlan::Noop(result) => {
            let r = Ok(StagedMvPlan::Noop(result));
            assert(mv_staged(p0, Ok(()), r));
            r
        },
        MvPlan::Apply(plan) => {
            let answer = transaction.stage(&plan);
            let ghost a = answer;
            let r = match answer {
                Ok(()) => Ok(StagedMvPlan::Apply(plan)),
                Err(error) => Err(error),
            };
            assert(mv_staged(p0, a, r));
            r
        },
    }
}

/// What undoing a staged rename answers: nothing to undo for a rename to the current name,
/// else what the metadata transaction answered to dropping the staging.
pub open spec fn mv_unstaged(staged: StagedMvPlan, answer: Result<(), CliError>, result: Result<(), CliError>) -> bool {
    match staged {
        StagedMvPlan::Noop(_) => result is Ok,
        StagedMvPlan::Apply(_) => result == answer,
    }
}

/// Drops the staged metadata of a rename whose pre-hook failed.
pub fn rollback_mv_after_pre_hook_failure<T: RenameTransaction>(transaction: &T, staged: &StagedMvPlan) -> (result: Result<(), CliError>)
    ensures
        *staged is Noop ==> result is Ok,
        exists|answer: Result<(), CliError>| #[trigger] mv_unstaged(*staged, answer, result),
        *staged matches StagedMvPlan::Apply(p) ==> transaction.rollback_answer(*p, result),
{
    match staged {
        StagedMvPlan::Apply(plan) => {
            let answer = transaction.rollback_staged(plan);
            assert(mv_unstaged(*staged, answer, answer));
            answer
        },
        StagedMvPlan::Noop(_) => {
            assert(mv_unstaged(*staged, Ok(()), Ok(())));
            Ok(())
        },
    }
}

/// `out` is `original` annotated with how undoing the rename went: rolled back with the
/// rollback listed as completed, or, with `failures`, left for recovery with what recovery
/// needs. `repo_root`, when given, is added to the details of a failed undo.
pub open spec fn mv_rollback_annotated(
    original: CliError,
    plan: MvApplyPlan,
    repo_root: Option<Seq<char>>,
    failures: Seq<String>,
    out: CliError,
) -> bool {
    let d0 = object_view(original.details@);
    let d1 = view_insert(d0, "rollbackFailures"@, DetailView::List(texts_view(failures)));
    &&& out.code == original.code
    &&& out.message == original.message
    &&& object_view(out.details@) == if failures.len() == 0 {
        d0
    } else {
        match repo_root {
            Some(r) => view_insert(d1, "repoRoot"@, text_view(r)),
            None => d1,
        }
    }
    &&& out.execution matches Some(x) && x.phase == base_phase(original.execution) && if failures.len() == 0 {
        x.state == ExecutionState::RolledBack && x.completed@.map_values(|c: String| c@) == base_completed(
            original.execution,
        ).push("rollbackRename"@) && object_view(x.recovery@) == base_recovery(original.execution)
    } else {
        x.state == ExecutionState::RecoveryRequired && x.completed@.map_values(|c: String| c@) == base_completed(
            original.execution,
        ) && object_view(x.recovery@) == insert_all(base_recovery(original.execution), seq![
            ("sourcePath"@, text_view(plan.current_path@)),
            ("oldBranch"@, text_view(plan.old_branch@)),
            ("newBranch"@, text_view(plan.new_branch@)),
            ("rollbackFailures"@, DetailView::List(texts_view(failures))),
        ])
    }
}

/// Annotates the error of a failed rename with how undoing it went.
pub fn annotate_mv_rollback(original: CliError, plan: &MvApplyPlan, repo_root: Option<&str>, failures: Vec<String>) -> (out: CliError)
    ensures
        mv_rollback_annotated(original, *plan, match repo_root {
            Some(r) => Some(r@),
            None => None,
        }, failures@, out),
{
    let ghost orig = original;
    let mut error = original;
    let mut report = match error.execution {
        Some(x) => x,
        None => ExecutionReport {
            phase: crate::error::ExecutionPhase::Apply,
            state: ExecutionState::Unknown,
            completed: Vec::new(),
            recovery: Vec::new(),
        },
    };
    error.execution = None;
    let ghost base = report;
    assert(base.completed@.map_values(|c: String| c@) =~= base_completed(orig.execution));
    assert(object_view(base.recovery@) == base_recovery(orig.execution));
    if failures.len() == 0 {
        report.state = ExecutionState::RolledBack;
        report.completed.push("rollbackRename".to_owned());
        assert(report.completed@.map_values(|c: String| c@) =~= base_completed(orig.execution).push("rollbackRename"@));
    } else {
        let list = texts_value(&failures);
        insert_entry(&mut error.details, "rollbackFailures", list);
        match repo_root {
            Some(root) => insert_entry(&mut error.details, "repoRoot", DetailValue::Text(root.to_owned())),
            None => {},
        }
        report.state = ExecutionState::RecoveryRequired;
        let ghost r0 = object_view(report.recovery@);
        let ghost es = seq![
            ("sourcePath"@, text_view(plan.current_path@)),
            ("oldBranch"@, text_view(plan.old_branch@)),
            ("newBranch"@, text_view(plan.new_branch@)),
            ("rollbackFailures"@, DetailView::List(texts_view(failures@))),
        ];
        insert_entry(&mut report.recovery, "sourcePath", DetailValue::Text(plan.current_path.clone()));
        proof {
            crate::placement::lemma_insert_one(r0, es[0]);
            assert(es.take(1) =~= seq![es[0]]);
        }
        insert_entry(&mut report.recovery, "oldBranch", DetailValue::Text(plan.old_branch.clone()));
        proof {
            crate::placement::lemma_insert_push(r0, es.take(1), es[1]);
            assert(es.take(1).push(es[1]) =~= es.take(2));
        }
        insert_entry(&mut report.recovery, "newBranch", DetailValue::Text(plan.new_branch.clone()));
        proof {
            crate::placement::lemma_insert_push(r0, es.take(2), es[2]);
            assert(es.take(2).push(es[2]) =~= es.take(3));
        }
        let list = texts_value(&failures);
        insert_entry(&mut report.recovery, "rollbackFailures", list);
        proof {
            crate::placement::lemma_insert_push(r0, es.take(3), es[3]);
            assert(es.take(3).push(es[3]) =~= es);
        }
    }
    error.execution = Some(report);
    error
}

pub open spec fn error_messages(outcomes: Seq<Result<(), CliError>>) -> Seq<String>
    decreases outcomes.len(),
{
    if outcomes.len() == 0 {
        Seq::empty()
    } else {
        let earlier = error_messages(outcomes.drop_last());
        match outcomes.last() {
            Err(e) => earlier.push(e.message),
            Ok(_) => earlier,
        }
    }
}

pub(crate) proof fn lemma_error_messages_push(s: Seq<Result<(), CliError>>, x: Result<(), CliError>)
    ensures
        error_messages(s.push(x)) == match x {
            Err(e) => error_messages(s).push(e.message),
            Ok(_) => error_messages(s),
        },
{
    assert(s.push(x).drop_last() =~= s);
}

pub(crate) proof fn lemma_error_messages_one(x: Result<(), CliError>)
    ensures
        error_messages(seq![x]) == match x {
            Err(e) => seq![e.message],
            Ok(_) => Seq::<String>::empty(),
        },
{
    lemma_error_messages_push(Seq::empty(), x);
    assert(Seq::<Result<(), CliError>>::empty().push(x) =~= seq![x]);
    assert(error_messages(Seq::<Result<(), CliError>>::empty()) == Seq::<String>::empty());
    assert(Seq::<String>::empty().push(x->Err_0.message) =~= seq![x->Err_0.message]);
}

/// What undoing a rename after the branch was renamed (but before the worktree moved) does:
/// rename the branch back, and only when that worked, drop the staged metadata.
pub open spec fn undone_after_branch_rename(
    original: CliError,
    plan: MvApplyPlan,
    repo_root: Seq<char>,
    restore: Result<(), CliError>,
    unstage: Option<Result<(), CliError>>,
    out: CliError,
) -> bool {
    &&& (unstage is Some <==> restore is Ok)
    &&& mv_rollback_annotated(original, plan, Some(repo_root), error_messages(match unstage {
        Some(u) => seq![restore, u],
        None => seq![restore],
    }), out)
}

fn branch_rename_args(from: &str, to: &str) -> (args: Vec<String>)
    ensures
        crate::git::args_view(args@) == seq!["branch"@, "-m"@, from@, to@],
{
    let mut args: Vec<String> = Vec::new();
    assert(crate::git::args_view(args@) =~= Seq::<Seq<char>>::empty());
    push_arg(&mut args, "branch");
    push_arg(&mut args, "-m");
    push_arg(&mut args, from);
    push_arg(&mut args, to);
    args
}

fn worktree_move_args(from: &str, to: &str) -> (args: Vec<String>)
    ensures
        crate::git::args_view(args@) == seq!["worktree"@, "move"@, from@, to@],
{
    let mut args: Vec<String> = Vec::new();
    assert(crate::git::args_view(args@) =~= Seq::<Seq<char>>::empty());
    push_arg(&mut args, "worktree");
    push_arg(&mut args, "move");
    push_arg(&mut args, from);
    push_arg(&mut args, to);
    args
}

/// The outcome of a checked git step, without its output.
fn checked(run: Result<ProcessOutput, CliError>) -> (result: Result<(), CliError>)
    ensures
        result == match run {
            Ok(_) => Ok::<(), CliError>(()),
            Err(e) => Err::<(), CliError>(e),
        },
{
    match run {
        Ok(_) => Ok(()),
        Err(error) => Err(error),
    }
}

pub(crate) fn push_failure(failures: &mut Vec<String>, outcome: &Result<(), CliError>)
    ensures
        final(failures)@ == match *outcome {
            Err(e) => old(failures)@.push(e.message),
            Ok(_) => old(failures)@,
        },
{
    match outcome {
        Err(error) => failures.push(error.message.clone()),
        Ok(()) => {},
    }
}

/// Undoes a rename whose branch was renamed but whose worktree did not move.
fn compensate_failed_mv_after_branch_rename<G: CreateMutationGit, T: RenameTransaction>(
    git: &G,
    transaction: &T,
    repo_root: &str,
    plan: &MvApplyPlan,
    original: CliError,
) -> (out: CliError)
    ensures
        exists|restore: Result<(), CliError>, unstage: Option<Result<(), CliError>>|
            #[trigger] undone_after_branch_rename(original, *plan, repo_root@, restore, unstage, out),
{
    let args = branch_rename_args(plan.new_branch.as_str(), plan.old_branch.as_str());
    let restore = checked(crate::change::run_git_checked(git, plan.current_path.as_str(), args.as_slice()));
    let mut failures: Vec<String> = Vec::new();
    push_failure(&mut failures, &restore);
    let unstage = if restore.is_ok() {
        let u = transaction.rollback_staged(plan);
        push_failure(&mut failures, &u);
        Some(u)
    } else {
        None
    };
    proof {
        lemma_error_messages_one(restore);
        if unstage is Some {
            let u = unstage->Some_0;
            lemma_error_messages_push(seq![restore], u);
            assert(seq![restore].push(u) =~= seq![restore, u]);
        }
        assert(failures@ =~= error_messages(match unstage {
            Some(u) => seq![restore, u],
            None => seq![restore],
        }));
    }
    let ghost orig = original;
    let out = annotate_mv_rollback(original, plan, Some(repo_root), failures);
    assert(undone_after_branch_rename(orig, *plan, repo_root@, restore, unstage, out));
    out
}

/// What undoing a rename after the worktree moved does: move the worktree back and, when that
/// worked, rename the branch back; only when both worked, drop the staged metadata.
pub open spec fn undone_after_move(
    original: CliError,
    plan: MvApplyPlan,
    back: Result<(), CliError>,
    unrename: Option<Result<(), CliError>>,
    unstage: Option<Result<(), CliError>>,
    out: CliError,
) -> bool {
    let moved_back = match unrename {
        Some(u) => seq![back, u],
        None => seq![back],
    };
    &&& (unrename is Some <==> back is Ok)
    &&& (unstage is Some <==> error_messages(moved_back).len() == 0)
    &&& mv_rollback_annotated(original, plan, None, error_messages(match unstage {
        Some(u) => moved_back.push(u),
        None => moved_back,
    }), out)
}

fn compensate_applied_mv<G: CreateMutationGit, T: RenameTransaction>(
    git: &G,
    transaction: &T,
    repo_root: &str,
    plan: &MvApplyPlan,
    target_path: &str,
    original: CliError,
) -> (out: CliError)
    ensures
        exists|back: Result<(), CliError>, unrename: Option<Result<(), CliError>>, unstage: Option<Result<(), CliError>>|
            #[trigger] undone_after_move(original, *plan, back, unrename, unstage, out),
{
    let move_args = worktree_move_args(target_path, plan.current_path.as_str());
    let back = checked(crate::change::run_git_checked(git, repo_root, move_args.as_slice()));
    let mut failures: Vec<String> = Vec::new();
    push_failure(&mut failures, &back);
    let unrename = if back.is_ok() {
        let args = branch_rename_args(plan.new_branch.as_str(), plan.old_branch.as_str());
        let u = checked(crate::change::run_git_checked(git, plan.current_path.as_str(), args.as_slice()));
        push_failure(&mut failures, &u);
        Some(u)
    } else {
        None
    };
    let ghost moved_back = match unrename {
        Some(u) => seq![back, u],
        None => seq![back],
    };
    proof {
        lemma_error_messages_one(back);
        if unrename is Some {
            let u = unrename->Some_0;
            lemma_error_messages_push(seq![back], u);
            assert(seq![back].push(u) =~= seq![back, u]);
        }
        assert(failures@ =~= error_messages(moved_back));
    }
    let unstage = if failures.len() == 0 {
        let u = transaction.rollback_staged(plan);
        push_failure(&mut failures, &u);
        Some(u)
    } else {
        None
    };
    proof {
        if unstage is Some {
            let u = unstage->Some_0;
            lemma_error_messages_push(moved_back, u);
        }
        assert(failures@ =~= error_messages(match unstage {
            Some(u) => moved_back.push(u),
            None => moved_back,
        }));
    }
    let ghost orig = original;
    let out = annotate_mv_rollback(original, plan, None, failures);
    assert(undone_after_move(orig, *plan, back, unrename, unstage, out));
    out
}

/// The answers of the steps of a rename, as far as they were asked.
pub struct MvAnswers {
    pub refresh: Result<(), CliError>,
    pub exists: Result<bool, CliError>,
    pub target: Result<String, CliError>,
    pub empty: Result<(), CliError>,
    pub rename: Result<(), CliError>,
    pub mark_renamed: Result<(), CliError>,
    pub parent: Result<(), CliError>,
    pub moved: Result<(), CliError>,
    pub mark_moved: Result<(), CliError>,
}

/// The first failure after the branch was renamed and before the worktree moved.
pub open spec fn mv_middle_error(a: MvAnswers) -> Option<CliError> {
    match a.mark_renamed {
        Err(e) => Some(e),
        Ok(_) => match a.parent {
            Err(e) => Some(e),
            Ok(_) => match a.moved {
                Err(e) => Some(e),
                Ok(_) => None,
            },
        },
    }
}

/// What a rename answers once the branch rename worked.
pub open spec fn mv_after_rename_ok(repo_root: Seq<char>, plan: MvApplyPlan, target: String, a: MvAnswers, result: Result<MvGitApplied, CliError>) -> bool {
    match mv_middle_error(a) {
        Some(e) => result matches Err(out) && exists|restore: Result<(), CliError>, unstage: Option<Result<(), CliError>>|
            #[trigger] undone_after_branch_rename(e, plan, repo_root, restore, unstage, out),
        None => match a.mark_moved {
            Err(e) => result matches Err(out) && exists|
                back: Result<(), CliError>,
                unrename: Option<Result<(), CliError>>,
                unstage: Option<Result<(), CliError>>,
            | #[trigger] undone_after_move(e, plan, back, unrename, unstage, out),
            Ok(_) => result == Ok::<MvGitApplied, CliError>(
                MvGitApplied::Apply { plan: Box::new(plan), target_path: target },
            ),
        },
    }
}

/// What `apply_mv_git` answers for the answers of its steps: nothing to do for a rename to
/// the current name; a failure of the lifecycle refresh is returned; the branch existing
/// locally by now, the target no longer validating or no longer empty, or a failed branch
/// rename drop the staged metadata and are returned; a failure after the branch rename is
/// undone as far as it can be.
pub open spec fn mv_apply_ok(repo_root: Seq<char>, staged: StagedMvPlan, a: MvAnswers, result: Result<MvGitApplied, CliError>) -> bool {
    match staged {
        StagedMvPlan::Noop(r) => result == Ok::<MvGitApplied, CliError>(MvGitApplied::Noop(r)),
        StagedMvPlan::Apply(plan) => match a.refresh {
            Err(e) => result == Err::<MvGitApplied, CliError>(e),
            Ok(_) => branch_probe(repo_root, plan.new_branch@, a.exists) && match a.exists {
                Err(e) => result == Err::<MvGitApplied, CliError>(e),
                Ok(true) => result matches Err(r) && is_branch_error(
                    r,
                    ErrorCode::BranchAlreadyExists,
                    "branch already exists locally: "@,
                    plan.new_branch@,
                ),
                Ok(false) => match a.target {
                    Err(e) => result == Err::<MvGitApplied, CliError>(e),
                    Ok(t) => match a.empty {
                        Err(e) => result == Err::<MvGitApplied, CliError>(e),
                        Ok(_) => match a.rename {
                            Err(e) => result == Err::<MvGitApplied, CliError>(e),
                            Ok(_) => mv_after_rename_ok(repo_root, *plan, t, a, result),
                        },
                    },
                },
            },
        },
    }
}

pub open spec fn answers(
    refresh: Result<(), CliError>,
    exists: Result<bool, CliError>,
    target: Result<String, CliError>,
    empty: Result<(), CliError>,
    rename: Result<(), CliError>,
    mark_renamed: Result<(), CliError>,
    parent: Result<(), CliError>,
    moved: Result<(), CliError>,
    mark_moved: Result<(), CliError>,
) -> MvAnswers {
    MvAnswers { refresh, exists, target, empty, rename, mark_renamed, parent, moved, mark_moved }
}

/// `git branch -m <from> <to>`.
pub open spec fn branch_rename_args_spec(from: Seq<char>, to: Seq<char>) -> Seq<Seq<char>> {
    seq!["branch"@, "-m"@, from, to]
}

/// `git worktree move <from> <to>`.
pub open spec fn worktree_move_args_spec(from: Seq<char>, to: Seq<char>) -> Seq<Seq<char>> {
    seq!["worktree"@, "move"@, from, to]
}

/// `unit` is what a checked run of `args` in `cwd` makes of an answer `git` may give, its
/// output dropped.
pub open spec fn git_step_reported<G: CreateMutationGit>(git: &G, cwd: Seq<char>, args: Seq<Seq<char>>, unit: Result<(), CliError>) -> bool {
    exists|run: Result<ProcessOutput, CliError>| #[trigger] checked_run_reported(git, cwd, args, run) && unit == match run {
        Ok(_) => Ok::<(), CliError>(()),
        Err(e) => Err::<(), CliError>(e),
    }
}

/// The answers behind a rename's Git step are answers the transaction, Git and the file
/// system may give, each asked only after the ones before allowed it: the lifecycle refresh,
/// the local-branch probe of the new name, the revalidated target, its emptiness, the branch
/// rename in the current worktree, its record, the target's parent, the worktree move and
/// its record.
pub open spec fn mv_answers_reported<G: CreateMutationGit, F: TargetFilesystem, T: RenameTransaction>(
    git: &G,
    fs: &F,
    transaction: &T,
    repo_root: Seq<char>,
    staged: StagedMvPlan,
    a: MvAnswers,
) -> bool {
    match staged {
        StagedMvPlan::Noop(_) => true,
        StagedMvPlan::Apply(plan) => {
            let p = *plan;
            let absent = a.refresh is Ok && a.exists == Ok::<bool, CliError>(false);
            let renamed = absent && a.target is Ok && a.empty is Ok && a.rename is Ok;
            let target = a.target->Ok_0@;
            &&& transaction.refresh_answer(repo_root, p, a.refresh)
            &&& (a.refresh is Ok ==> probe_reported(git, repo_root, show_ref_args(p.new_branch@), a.exists))
            &&& (absent ==> transaction.target_answer(p, a.target))
            &&& (absent && a.target is Ok ==> fs.empty_answer(target, a.empty))
            &&& (absent && a.target is Ok && a.empty is Ok ==> git_step_reported(
                git,
                p.current_path@,
                branch_rename_args_spec(p.old_branch@, p.new_branch@),
                a.rename,
            ))
            &&& (renamed ==> transaction.renamed_answer(p, a.mark_renamed))
            &&& (renamed && a.mark_renamed is Ok ==> fs.parent_answer(target, a.parent))
            &&& (renamed && a.mark_renamed is Ok && a.parent is Ok ==> git_step_reported(
                git,
                repo_root,
                worktree_move_args_spec(p.current_path@, target),
                a.moved,
            ))
            &&& (renamed && a.mark_renamed is Ok && a.parent is Ok && a.moved is Ok ==> transaction.moved_answer(p, a.mark_moved))
        },
    }
}

/// Renames the branch and moves the worktree, after checking again what the hooks may have
/// changed; each step that fails undoes the steps before it.
pub fn apply_mv_git<G: CreateMutationGit, F: TargetFilesystem, T: RenameTransaction>(
    git: &G,
    fs: &F,
    transaction: &T,
    repo_root: &str,
    staged: StagedMvPlan,
) -> (result: Result<MvGitApplied, CliError>)
    ensures
        exists|a: MvAnswers| #[trigger] mv_apply_ok(repo_root@, staged, a, result),
        exists|a: MvAnswers|
            #[trigger] mv_apply_ok(repo_root@, staged, a, result) && mv_answers_reported(git, fs, transaction, repo_root@, staged, a),
{
    let ghost s = staged;
    let ghost unasked: Result<(), CliError> = Ok(());
    let ghost no_probe: Result<bool, CliError> = Ok(false);
    let ghost no_target: Result<String, CliError> = Ok(arbitrary());
    let plan = match staged {
        StagedMvPlan::Noop(r) => {
            let result = Ok(MvGitApplied::Noop(r));
            assert(mv_apply_ok(repo_root@, s, answers(unasked, no_probe, no_target, unasked, unasked, unasked, unasked, unasked, unasked), result));
            assert(mv_answers_reported(git, fs, transaction, repo_root@, s, answers(unasked, no_probe, no_target, unasked, unasked, unasked, unasked, unasked, unasked)));
            return result;
        },
        StagedMvPlan::Apply(plan) => plan,
    };
    let refresh = transaction.refresh_lifecycle(repo_root, &plan);
    if let Err(error) = refresh {
        let result = Err(error);
        assert(mv_apply_ok(repo_root@, s, answers(refresh, no_probe, no_target, unasked, unasked, unasked, unasked, unasked, unasked), result));
        assert(mv_answers_reported(git, fs, transaction, repo_root@, s, answers(refresh, no_probe, no_target, unasked, unasked, unasked, unasked, unasked, unasked)));
        return result;
    }
    let ghost rf = refresh;
    let exists = local_branch_exists(git, repo_root, plan.new_branch.as_str());
    let ghost ex = exists;
    let target: Result<String, CliError> = match exists {
        Err(error) => {
            let _ = transaction.rollback_staged(&plan);
            let result = Err(error);
            assert(mv_apply_ok(repo_root@, s, answers(rf, ex, no_target, unasked, unasked, unasked, unasked, unasked, unasked), result));
            assert(mv_answers_reported(git, fs, transaction, repo_root@, s, answers(rf, ex, no_target, unasked, unasked, unasked, unasked, unasked, unasked)));
            return result;
        },
        Ok(true) => {
            let _ = transaction.rollback_staged(&plan);
            let result = Err(branch_error(ErrorCode::BranchAlreadyExists, "branch already exists locally: ", plan.new_branch.as_str()));
            assert(mv_apply_ok(repo_root@, s, answers(rf, ex, no_target, unasked, unasked, unasked, unasked, unasked, unasked), result));
            assert(mv_answers_reported(git, fs, transaction, repo_root@, s, answers(rf, ex, no_target, unasked, unasked, unasked, unasked, unasked, unasked)));
            return result;
        },
        Ok(false) => transaction.revalidate_target(&plan),
    };
    let ghost tg = target;
    let target_path = match target {
        Err(error) => {
            let _ = transaction.rollback_staged(&plan);
            let result = Err(error);
            assert(mv_apply_ok(repo_root@, s, answers(rf, ex, tg, unasked, unasked, unasked, unasked, unasked, unasked), result));
            assert(mv_answers_reported(git, fs, transaction, repo_root@, s, answers(rf, ex, tg, unasked, unasked, unasked, unasked, unasked, unasked)));
            return result;
        },
        Ok(path) => path,
    };
    let empty = fs.ensure_target_path_empty(target_path.as_str());
    let ghost em = empty;
    if let Err(error) = empty {
        let _ = transaction.rollback_staged(&plan);
        let result = Err(error);
        assert(mv_apply_ok(repo_root@, s, answers(rf, ex, tg, em, unasked, unasked, unasked, unasked, unasked), result));
        assert(mv_answers_reported(git, fs, transaction, repo_root@, s, answers(rf, ex, tg, em, unasked, unasked, unasked, unasked, unasked)));
        return result;
    }
    let rename_args = branch_rename_args(plan.old_branch.as_str(), plan.new_branch.as_str());
    let rename_run = crate::change::run_git_checked(git, plan.current_path.as_str(), rename_args.as_slice());
    let ghost rrun = rename_run;
    let rename = checked(rename_run);
    let ghost rn = rename;
    assert(git_step_reported(git, plan.current_path@, branch_rename_args_spec(plan.old_branch@, plan.new_branch@), rn)) by {
        assert(checked_run_reported(git, plan.current_path@, branch_rename_args_spec(plan.old_branch@, plan.new_branch@), rrun));
    }
    if let Err(error) = rename {
        let _ = transaction.rollback_staged(&plan);
        let result = Err(error);
        assert(mv_apply_ok(repo_root@, s, answers(rf, ex, tg, em, rn, unasked, unasked, unasked, unasked), result));
        assert(mv_answers_reported(git, fs, transaction, repo_root@, s, answers(rf, ex, tg, em, rn, unasked, unasked, unasked, unasked)));
        return result;
    }
    let mark_renamed = transaction.mark_branch_renamed(&plan);
    let ghost mr = mark_renamed;
    if let Err(error) = mark_renamed {
        let out = compensate_failed_mv_after_branch_rename(git, transaction, repo_root, &plan, error);
        let result = Err(out);
        assert(mv_apply_ok(repo_root@, s, answers(rf, ex, tg, em, rn, mr, unasked, unasked, unasked), result));
        assert(mv_answers_reported(git, fs, transaction, repo_root@, s, answers(rf, ex, tg, em, rn, mr, unasked, unasked, unasked)));
        return result;
    }
    let parent = fs.create_parent(target_path.as_str());
    let ghost pa = parent;
    if let Err(error) = parent {
        let out = compensate_failed_mv_after_branch_rename(git, transaction, repo_root, &plan, error);
        let result = Err(out);
        assert(mv_apply_ok(repo_root@, s, answers(rf, ex, tg, em, rn, mr, pa, unasked, unasked), result));
        assert(mv_answers_reported(git, fs, transaction, repo_root@, s, answers(rf, ex, tg, em, rn, mr, pa, unasked, unasked)));
        return result;
    }
    let move_args = worktree_move_args(plan.current_path.as_str(), target_path.as_str());
    let move_run = crate::change::run_git_checked(git, repo_root, move_args.as_slice());
    let ghost mrun = move_run;
    let moved = checked(move_run);
    let ghost mo = moved;
    assert(git_step_reported(git, repo_root@, worktree_move_args_spec(plan.current_path@, target_path@), mo)) by {
        assert(checked_run_reported(git, repo_root@, worktree_move_args_spec(plan.current_path@, target_path@), mrun));
    }
    if let Err(error) = moved {
        let out = compensate_failed_mv_after_branch_rename(git, transaction, repo_root, &plan, error);
        let result = Err(out);
        assert(mv_apply_ok(repo_root@, s, answers(rf, ex, tg, em, rn, mr, pa, mo, unasked), result));
        assert(mv_answers_reported(git, fs, transaction, repo_root@, s, answers(rf, ex, tg, em, rn, mr, pa, mo, unasked)));
        return result;
    }
    let mark_moved = transaction.mark_worktree_moved(&plan);
    let ghost mm = mark_moved;
    if let Err(error) = mark_moved {
        let out = compensate_applied_mv(git, transaction, repo_root, &plan, target_path.as_str(), error);
        let result = Err(out);
        assert(mv_apply_ok(repo_root@, s, answers(rf, ex, tg, em, rn, mr, pa, mo, mm), result));
        assert(mv_answers_reported(git, fs, transaction, repo_root@, s, answers(rf, ex, tg, em, rn, mr, pa, mo, mm)));
        return result;
    }
    let result = Ok(MvGitApplied::Apply { plan, target_path });
    assert(mv_apply_ok(repo_root@, s, answers(rf, ex, tg, em, rn, mr, pa, mo, mm), result));
    assert(mv_answers_reported(git, fs, transaction, repo_root@, s, answers(rf, ex, tg, em, rn, mr, pa, mo, mm)));
    result
}


/// What finalizing a rename answers for what the metadata commit answered: a rename to the
/// current name as it is; a real one with its new branch, new path and what the commit
/// moved, or the commit's error.
pub open spec fn mv_finalized(applied: MvGitApplied, committed: Result<MetadataRenameOutcome, CliError>, result: Result<MvResult, CliError>) -> bool {
    match applied {
        MvGitApplied::Noop(r) => result == Ok::<MvResult, CliError>(r),
        MvGitApplied::Apply { plan, target_path } => match committed {
            Ok(outcome) => result == Ok::<MvResult, CliError>(MvResult { branch: plan.new_branch, path: target_path, metadata: Some(outcome) }),
            Err(e) => result == Err::<MvResult, CliError>(e),
        },
    }
}

/// Commits a rename's metadata: a rename to the current name has nothing to commit; a real
/// one reports the new branch and path and what the commit moved once the commit worked,
/// and the commit's error otherwise.
pub fn finalize_mv_state<T: RenameTransaction>(transaction: &T, applied: MvGitApplied) -> (result: Result<MvResult, CliError>)
    ensures
        match applied {
            MvGitApplied::Noop(r) => result == Ok::<MvResult, CliError>(r),
            MvGitApplied::Apply { plan, target_path } => result is Ok ==> (result matches Ok(r) && r.branch == plan.new_branch
                && r.path == target_path && r.metadata is Some),
        },
        exists|committed: Result<MetadataRenameOutcome, CliError>| #[trigger] mv_finalized(applied, committed, result),
        exists|committed: Result<MetadataRenameOutcome, CliError>|
            #[trigger] mv_finalized(applied, committed, result)
                && (applied matches MvGitApplied::Apply { plan, .. } ==> transaction.commit_answer(*plan, committed)),
{
    let ghost a = applied;
    match applied {
        MvGitApplied::Noop(result) => {
            let r = Ok(result);
            assert(mv_finalized(a, Err(arbitrary()), r));
            r
        },
        MvGitApplied::Apply { plan, target_path } => {
            let committed = transaction.commit(&plan);
            let ghost c = committed;
            let r = match committed {
                Err(error) => Err(error),
                Ok(outcome) => Ok(MvResult { branch: plan.new_branch, path: target_path, metadata: Some(outcome) }),
            };
            assert(mv_finalized(a, c, r));
            r
        },
    }
}

} // verus!
