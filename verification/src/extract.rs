//! `extract`: moving the primary worktree's branch into a managed worktree of its own. Local
//! changes are stashed before the hooks run, the primary worktree switches to the base
//! branch, the branch is added as a new worktree, and the stash is applied there. A failure
//! after the switch is undone; what cannot be undone is reported for recovery.

use vstd::prelude::*;

use crate::change::{checked_run, checked_run_ok, checked_run_reported, dirty_answer, git_worktree_dirty, run_git_checked};
use crate::create::{branch_probe, TargetFilesystem};
use crate::error::{
    insert_entry, object_view, view_insert, CliError, DetailValue, DetailView, ErrorCode, ExecutionPhase,
    ExecutionReport, ExecutionState,
};
use crate::finalize::{base_completed, base_phase, base_recovery, WorktreeFinalization};
use crate::git::args_view;
use crate::install::{texts_value, texts_view};
use crate::mapping::text_view;
use crate::placement::insert_all;
use crate::plans::{ExtractGitApplied, ExtractPlan, ExtractResult, StagedExtractPlan};
use crate::probes::{
    branch_error, git_output_error, is_branch_error, is_git_output_error, local_branch_exists, probe_reported, push_arg, show_ref_args,
    CreateMutationGit,
};
use crate::process::ProcessOutput;
use crate::text::{chars_of, find_from, find_in, str_eq, trim_chars, trim_spec, trim_str, utf8_lossy, utf8_lossy_string};

verus! {

// ----- the stash -----

pub open spec fn stash_top_args() -> Seq<Seq<char>> {
    seq!["rev-parse"@, "--verify"@, "-q"@, "stash@{0}"@]
}

/// What resolving the newest stash entry answers for the run of `git rev-parse`.
pub open spec fn stash_top_ok(run: Result<ProcessOutput, CliError>, result: Result<String, CliError>) -> bool {
    match run {
        Err(e) => result == Err::<String, CliError>(e),
        Ok(o) => if trim_spec(utf8_lossy(o.stdout@)).len() == 0 {
            result matches Err(e) && crate::error::plain_error(e, ErrorCode::InternalError, "failed to resolve created stash entry"@)
        } else {
            result matches Ok(oid) && oid@ == trim_spec(utf8_lossy(o.stdout@))
        },
    }
}

/// The object id of `stash@{0}`.
pub fn resolve_stash_top<G: CreateMutationGit>(git: &G, cwd: &str) -> (result: Result<String, CliError>)
    ensures
        exists|run: Result<ProcessOutput, CliError>| checked_run(cwd@, stash_top_args(), run) && #[trigger] stash_top_ok(run, result),
        stash_top_reported(git, cwd@, result),
{
    let mut args: Vec<String> = Vec::new();
    assert(args_view(args@) =~= Seq::<Seq<char>>::empty());
    push_arg(&mut args, "rev-parse");
    push_arg(&mut args, "--verify");
    push_arg(&mut args, "-q");
    push_arg(&mut args, "stash@{0}");
    assert(args_view(args@) =~= stash_top_args());
    let run = run_git_checked(git, cwd, &args);
    let ghost r = run;
    let result = match run {
        Err(error) => Err(error),
        Ok(output) => {
            let oid = trim_str(utf8_lossy_string(output.stdout.as_slice()).as_str());
            if oid.unicode_len() == 0 {
                Err(CliError::new(ErrorCode::InternalError, "failed to resolve created stash entry"))
            } else {
                Ok(oid)
            }
        },
    };
    assert(stash_top_ok(r, result));
    assert(checked_run_reported(git, cwd@, stash_top_args(), r));
    result
}

/// `result` is what resolving the newest stash makes of an answer `git` may give to a
/// checked `git rev-parse --verify -q stash@{0}`.
pub open spec fn stash_top_reported<G: CreateMutationGit>(git: &G, cwd: Seq<char>, result: Result<String, CliError>) -> bool {
    exists|run: Result<ProcessOutput, CliError>| #[trigger] checked_run_reported(git, cwd, stash_top_args(), run) && stash_top_ok(run, result)
}

/// The error of a stash that did not apply.
pub open spec fn is_stash_apply_error(e: CliError, cwd: Seq<char>, oid: Seq<char>, auto_restore: bool) -> bool {
    &&& e.code == ErrorCode::StashApplyFailed
    &&& e.message@ == if auto_restore {
        "failed to auto-restore stashed changes after pre-hook failure"@
    } else {
        "failed to apply stash to extracted worktree"@
    }
    &&& e.execution is None
    &&& object_view(e.details@) == seq![("cwd"@, text_view(cwd)), ("stashOid"@, text_view(oid))]
}

/// What applying a stash answers for the run of `git stash apply <oid>`.
pub open spec fn stash_apply_ok(cwd: Seq<char>, oid: Seq<char>, auto_restore: bool, run: Result<ProcessOutput, CliError>, result: Result<(), CliError>) -> bool {
    match run {
        Err(e) => result == Err::<(), CliError>(e),
        Ok(o) => if o.exit_code == Some(0i32) && !o.timed_out {
            result is Ok
        } else {
            result matches Err(e) && is_stash_apply_error(e, cwd, oid, auto_restore)
        },
    }
}

pub open spec fn stash_applied(cwd: Seq<char>, oid: Seq<char>, auto_restore: bool, result: Result<(), CliError>) -> bool {
    exists|run: Result<ProcessOutput, CliError>| #[trigger] stash_apply_ok(cwd, oid, auto_restore, run, result)
}

/// What the run of `git stash apply <oid>` in `cwd` means: its own error, success when it
/// exited 0 in time, else the stash-apply failure.
pub fn stash_apply_answer(cwd: &str, oid: &str, auto_restore: bool, run: Result<ProcessOutput, CliError>) -> (result: Result<(), CliError>)
    ensures
        stash_apply_ok(cwd@, oid@, auto_restore, run, result),
{
    let ghost r = run;
    let result = match run {
        Err(error) => Err(error),
        Ok(output) => {
            let clean = match output.exit_code {
                Some(code) => code == 0,
                None => false,
            };
            if clean && !output.timed_out {
                Ok(())
            } else {
                let message = if auto_restore {
                    "failed to auto-restore stashed changes after pre-hook failure"
                } else {
                    "failed to apply stash to extracted worktree"
                };
                let mut error = CliError::new(ErrorCode::StashApplyFailed, message);
                let ghost d0 = object_view(error.details@);
                assert(d0 == Seq::<(Seq<char>, DetailView)>::empty());
                crate::placement::text_entry(&mut error, "cwd", cwd);
                crate::placement::text_entry(&mut error, "stashOid", oid);
                proof {
                    reveal_strlit("cwd");
                    reveal_strlit("stashOid");
                    let es = seq![("cwd"@, text_view(cwd@)), ("stashOid"@, text_view(oid@))];
                    crate::placement::lemma_view_insert_new(d0, es[0].0, es[0].1);
                    assert(d0.push(es[0]) =~= seq![es[0]]);
                    assert(es[0].0 != es[1].0) by { assert(es[0].0.len() != es[1].0.len()); }
                    crate::placement::lemma_view_insert_new(seq![es[0]], es[1].0, es[1].1);
                    assert(seq![es[0]].push(es[1]) =~= es);
                }
                Err(error)
            }
        },
    };
    assert(stash_apply_ok(cwd@, oid@, auto_restore, r, result));
    result
}

pub open spec fn stash_apply_args(oid: Seq<char>) -> Seq<Seq<char>> {
    seq!["stash"@, "apply"@, oid]
}

fn stash_args(verb: &str, reference: &str) -> (args: Vec<String>)
    ensures
        args_view(args@) == seq!["stash"@, verb@, reference@],
{
    let mut args: Vec<String> = Vec::new();
    assert(args_view(args@) =~= Seq::<Seq<char>>::empty());
    push_arg(&mut args, "stash");
    push_arg(&mut args, verb);
    push_arg(&mut args, reference);
    proof {
        reveal_strlit("stash");
    }
    assert(args_view(args@) =~= seq!["stash"@, verb@, reference@]);
    args
}

/// Applies the stash `oid` in `cwd`, keeping it.
pub fn apply_stash<G: CreateMutationGit>(git: &G, cwd: &str, oid: &str, auto_restore: bool) -> (result: Result<(), CliError>)
    ensures
        stash_applied(cwd@, oid@, auto_restore, result),
        stash_apply_reported(git, cwd@, oid@, auto_restore, result),
{
    let args = stash_args("apply", oid);
    let run = git.run_git(cwd, &args);
    let ghost r = run;
    let result = stash_apply_answer(cwd, oid, auto_restore, run);
    assert(stash_apply_ok(cwd@, oid@, auto_restore, r, result));
    assert(git.answers(cwd@, stash_apply_args(oid@), r));
    result
}

/// `result` is what applying the stash makes of an answer `git` may give to
/// `git stash apply <oid>` in `cwd`.
pub open spec fn stash_apply_reported<G: CreateMutationGit>(git: &G, cwd: Seq<char>, oid: Seq<char>, auto_restore: bool, result: Result<(), CliError>) -> bool {
    exists|run: Result<ProcessOutput, CliError>| #[trigger] git.answers(cwd, stash_apply_args(oid), run) && stash_apply_ok(cwd, oid, auto_restore, run, result)
}

/// The stash reference of the line `<ref>\t<oid>` of `git stash list`, when it names `oid`.
pub open spec fn stash_entry_ref(line: Seq<char>, oid: Seq<char>) -> Option<Seq<char>> {
    let t = trim_spec(line);
    match find_from(t, seq!['\t'], 0) {
        Some(p) => if p > 0 && t.skip(p + 1) == oid {
            Some(t.take(p))
        } else {
            None
        },
        None => None,
    }
}

/// The first stash reference in the lines that names `oid`.
pub open spec fn stash_ref_in(lines: Seq<Seq<char>>, oid: Seq<char>) -> Option<Seq<char>>
    decreases lines.len(),
{
    if lines.len() == 0 {
        None
    } else {
        match stash_entry_ref(lines[0], oid) {
            Some(r) => Some(r),
            None => stash_ref_in(lines.drop_first(), oid),
        }
    }
}

fn entry_ref(line: &str, oid: &str) -> (found: Option<String>)
    ensures
        match found {
            Some(r) => stash_entry_ref(line@, oid@) == Some(r@),
            None => stash_entry_ref(line@, oid@) is None,
        },
{
    let chars = chars_of(line);
    let t = trim_chars(&chars);
    let tab = vec!['\t'];
    assert(tab@ =~= seq!['\t']);
    let found = find_in(t.as_slice(), tab.as_slice(), 0);
    proof {
        crate::text::lemma_find_from_bounds(t@, tab@, 0);
    }
    match found {
        None => None,
        Some(p) => {
            assert(crate::text::matches_at(t@, tab@, p as int));
            assert(t@.len() == t.len());
            if p == 0 {
                return None;
            }
            let mut rest = String::new();
            let mut i = p + 1;
            while i < t.len()
                invariant
                    p + 1 <= i <= t@.len(),
                    rest@ == t@.subrange(p + 1, i as int),
                decreases t.len() - i,
            {
                rest.push(t[i]);
                assert(t@.subrange(p + 1, i + 1) =~= t@.subrange(p + 1, i as int).push(t@[i as int]));
                i = i + 1;
            }
            assert(rest@ =~= t@.skip(p + 1));
            if !str_eq(rest.as_str(), oid) {
                return None;
            }
            let mut r = String::new();
            let mut j: usize = 0;
            while j < p
                invariant
                    j <= p,
                    p < t@.len(),
                    r@ == t@.subrange(0, j as int),
                decreases p - j,
            {
                r.push(t[j]);
                assert(t@.subrange(0, j + 1) =~= t@.subrange(0, j as int).push(t@[j as int]));
                j = j + 1;
            }
            assert(r@ =~= t@.take(p as int));
            Some(r)
        },
    }
}

/// The reference of the stash entry with object id `oid` in a `git stash list` listing.
pub fn stash_ref_for(listing: &str, oid: &str) -> (found: Option<String>)
    ensures
        match found {
            Some(r) => stash_ref_in(crate::completion::lines_spec(listing@), oid@) == Some(r@),
            None => stash_ref_in(crate::completion::lines_spec(listing@), oid@) is None,
        },
{
    let lines = crate::completion::text_lines(listing);
    let ghost ls = lines@.map_values(|l: String| l@);
    let mut i: usize = 0;
    assert(ls.skip(0) =~= ls);
    while i < lines.len()
        invariant
            i <= lines@.len(),
            ls == lines@.map_values(|l: String| l@),
            ls == crate::completion::lines_spec(listing@),
            stash_ref_in(ls, oid@) == stash_ref_in(ls.skip(i as int), oid@),
        decreases lines.len() - i,
    {
        assert(ls.skip(i as int)[0] == lines@[i as int]@);
        assert(ls.skip(i as int).drop_first() =~= ls.skip(i + 1));
        match entry_ref(lines[i].as_str(), oid) {
            Some(r) => {
                assert(stash_ref_in(ls.skip(i as int), oid@) == Some(r@));
                return Some(r);
            },
            None => {},
        }
        i = i + 1;
    }
    None
}

pub open spec fn stash_list_args() -> Seq<Seq<char>> {
    seq!["stash"@, "list"@, "--format=%gd%x09%H"@]
}

/// What dropping the stash `oid` answers, for the listing run and, when the listing names
/// the stash, the drop run.
pub open spec fn stash_drop_ok(cwd: Seq<char>, oid: Seq<char>, list: Result<ProcessOutput, CliError>, drop: Result<ProcessOutput, CliError>, result: Result<(), CliError>) -> bool {
    &&& checked_run(cwd, stash_list_args(), list)
    &&& match list {
        Err(e) => result == Err::<(), CliError>(e),
        Ok(o) => match stash_ref_in(crate::completion::lines_spec(utf8_lossy(o.stdout@)), oid) {
            None => result is Ok,
            Some(r) => checked_run(cwd, seq!["stash"@, "drop"@, r], drop) && match drop {
                Err(e) => result == Err::<(), CliError>(e),
                Ok(_) => result is Ok,
            },
        },
    }
}

pub open spec fn stash_dropped(cwd: Seq<char>, oid: Seq<char>, result: Result<(), CliError>) -> bool {
    exists|list: Result<ProcessOutput, CliError>, drop: Result<ProcessOutput, CliError>| #[trigger] stash_drop_ok(cwd, oid, list, drop, result)
}

/// `result` is what dropping the stash makes of answers `git` may give: the checked listing
/// and, for a listed stash, the checked drop of its reference.
pub open spec fn stash_drop_reported<G: CreateMutationGit>(git: &G, cwd: Seq<char>, oid: Seq<char>, result: Result<(), CliError>) -> bool {
    exists|list: Result<ProcessOutput, CliError>, drop: Result<ProcessOutput, CliError>|
        #[trigger] stash_drop_ok(cwd, oid, list, drop, result) && checked_run_reported(git, cwd, stash_list_args(), list)
            && (list is Ok && stash_ref_in(crate::completion::lines_spec(utf8_lossy(list->Ok_0.stdout@)), oid) is Some
                ==> checked_run_reported(
                git,
                cwd,
                seq!["stash"@, "drop"@, stash_ref_in(crate::completion::lines_spec(utf8_lossy(list->Ok_0.stdout@)), oid)->Some_0],
                drop,
            ))
}

/// Drops the stash entry with object id `oid`, found by `git stash list`; an entry that is
/// no longer listed needs no drop.
pub fn drop_stash_by_oid<G: CreateMutationGit>(git: &G, cwd: &str, oid: &str) -> (result: Result<(), CliError>)
    ensures
        stash_dropped(cwd@, oid@, result),
        stash_drop_reported(git, cwd@, oid@, result),
{
    let mut args: Vec<String> = Vec::new();
    assert(args_view(args@) =~= Seq::<Seq<char>>::empty());
    push_arg(&mut args, "stash");
    push_arg(&mut args, "list");
    push_arg(&mut args, "--format=%gd%x09%H");
    assert(args_view(args@) =~= stash_list_args());
    let list = run_git_checked(git, cwd, &args);
    let ghost l = list;
    match list {
        Err(error) => {
            let result = Err(error);
            assert(stash_drop_ok(cwd@, oid@, l, l, result));
            assert(checked_run_reported(git, cwd@, stash_list_args(), l));
            result
        },
        Ok(output) => {
            let listing = utf8_lossy_string(output.stdout.as_slice());
            match stash_ref_for(listing.as_str(), oid) {
                None => {
                    let result = Ok(());
                    assert(stash_drop_ok(cwd@, oid@, l, l, result));
            assert(checked_run_reported(git, cwd@, stash_list_args(), l));
                    result
                },
                Some(reference) => {
                    let mut drop_args: Vec<String> = Vec::new();
                    assert(args_view(drop_args@) =~= Seq::<Seq<char>>::empty());
                    push_arg(&mut drop_args, "stash");
                    push_arg(&mut drop_args, "drop");
                    push_arg(&mut drop_args, reference.as_str());
                    assert(args_view(drop_args@) =~= seq!["stash"@, "drop"@, reference@]);
                    let dropped = run_git_checked(git, cwd, &drop_args);
                    let ghost d = dropped;
                    let result = match dropped {
                        Err(error) => Err(error),
                        Ok(_) => Ok(()),
                    };
                    assert(stash_drop_ok(cwd@, oid@, l, d, result));
                    assert(checked_run_reported(git, cwd@, stash_list_args(), l));
                    assert(checked_run_reported(git, cwd@, seq!["stash"@, "drop"@, reference@], d));
                    result
                },
            }
        },
    }
}


// ----- recovery details -----

/// The parts of `extract` that live outside this crate: creating the managed root, and the
/// target that preflight validated.
pub trait ExtractFilesystem {
    /// Whether this file system may answer `result` when asked to create `path`. One that says
    /// nothing of its answers may give any; so for the target below.
    open spec fn create_answer(&self, path: Seq<char>, result: Result<(), CliError>) -> bool {
        true
    }

    /// Whether this file system may answer `result` when asked for the revalidated target.
    open spec fn target_answer(&self, plan: ExtractPlan, result: Result<String, CliError>) -> bool {
        true
    }

    /// Creates a directory with its missing parents.
    fn create_directory(&self, path: &str) -> (result: Result<(), CliError>)
        ensures
            self.create_answer(path@, result),
    ;

    /// The target path, checked again against the target that preflight validated.
    fn revalidate_target(&self, plan: &ExtractPlan) -> (result: Result<String, CliError>)
        ensures
            self.target_answer(*plan, result),
    ;
}

pub open spec fn opt_text_view(o: Option<Seq<char>>) -> DetailView {
    match o {
        Some(t) => text_view(t),
        None => DetailView::Null,
    }
}

pub open spec fn opt_view(o: Option<&str>) -> Option<Seq<char>> {
    match o {
        Some(t) => Some(t@),
        None => None,
    }
}

/// `out` is `error` with what recovery of an interrupted `extract` needs: the branches and
/// the target, the stash, and a recovery report in the apply step.
pub open spec fn extract_detail_entries(plan: ExtractPlan, stash_oid: Option<Seq<char>>, current_branch: Seq<char>) -> Seq<(Seq<char>, DetailView)> {
    seq![
        ("originalBranch"@, text_view(plan.branch@)),
        ("currentBranch"@, text_view(current_branch)),
        ("targetPath"@, text_view(plan.target_path@)),
    ] + match stash_oid {
        Some(o) => seq![("stashOid"@, text_view(o))],
        None => Seq::empty(),
    }
}

pub open spec fn extract_recovery_entries(plan: ExtractPlan, stash_oid: Option<Seq<char>>, current_branch: Seq<char>) -> Seq<(Seq<char>, DetailView)> {
    seq![
        ("stashOid"@, opt_text_view(stash_oid)),
        ("worktreePath"@, text_view(plan.target_path@)),
        ("originalBranch"@, text_view(plan.branch@)),
        ("currentBranch"@, text_view(current_branch)),
    ]
}

pub open spec fn with_extract_recovery(error: CliError, plan: ExtractPlan, stash_oid: Option<Seq<char>>, current_branch: Seq<char>, out: CliError) -> bool {
    &&& out.code == error.code
    &&& out.message == error.message
    &&& object_view(out.details@) == insert_all(object_view(error.details@), extract_detail_entries(plan, stash_oid, current_branch))
    &&& out.execution matches Some(x) && x.phase == ExecutionPhase::Apply && x.state == ExecutionState::RecoveryRequired
        && x.completed@.len() == 0 && object_view(x.recovery@) == insert_all(
        base_recovery(error.execution),
        extract_recovery_entries(plan, stash_oid, current_branch),
    )
}

fn opt_text_value(o: Option<&str>) -> (value: DetailValue)
    ensures
        crate::error::detail_view(value) == opt_text_view(opt_view(o)),
{
    match o {
        Some(t) => DetailValue::Text(t.to_owned()),
        None => DetailValue::Null,
    }
}

fn take_report(error: &mut CliError) -> (report: ExecutionReport)
    ensures
        final(error).code == old(error).code,
        final(error).message == old(error).message,
        final(error).details == old(error).details,
        final(error).execution is None,
        report.phase == base_phase(old(error).execution),
        report.completed@.map_values(|c: String| c@) == base_completed(old(error).execution),
        object_view(report.recovery@) == base_recovery(old(error).execution),
        old(error).execution matches Some(x) ==> report.state == x.state,
{
    let report = match error.execution.take() {
        Some(x) => x,
        None => ExecutionReport {
            phase: ExecutionPhase::Apply,
            state: ExecutionState::Unknown,
            completed: Vec::new(),
            recovery: Vec::new(),
        },
    };
    assert(report.completed@.map_values(|c: String| c@) =~= base_completed(old(error).execution));
    report
}

/// Adds what recovery of an interrupted `extract` needs to an error.
pub fn extract_recovery_details(error: CliError, plan: &ExtractPlan, stash_oid: Option<&str>, current_branch: &str) -> (out: CliError)
    ensures
        with_extract_recovery(error, *plan, opt_view(stash_oid), current_branch@, out),
{
    let ghost orig = error;
    let mut out = error;
    let mut report = take_report(&mut out);
    let ghost d0 = object_view(out.details@);
    let ghost es = seq![
        ("originalBranch"@, text_view(plan.branch@)),
        ("currentBranch"@, text_view(current_branch@)),
        ("targetPath"@, text_view(plan.target_path@)),
    ] + match opt_view(stash_oid) {
        Some(o) => seq![("stashOid"@, text_view(o))],
        None => Seq::empty(),
    };
    insert_entry(&mut out.details, "originalBranch", DetailValue::Text(plan.branch.clone()));
    proof {
        crate::placement::lemma_insert_one(d0, es[0]);
        assert(es.take(1) =~= seq![es[0]]);
    }
    insert_entry(&mut out.details, "currentBranch", DetailValue::Text(current_branch.to_owned()));
    proof {
        crate::placement::lemma_insert_push(d0, es.take(1), es[1]);
        assert(es.take(1).push(es[1]) =~= es.take(2));
    }
    insert_entry(&mut out.details, "targetPath", DetailValue::Text(plan.target_path.clone()));
    proof {
        crate::placement::lemma_insert_push(d0, es.take(2), es[2]);
        assert(es.take(2).push(es[2]) =~= es.take(3));
    }
    match stash_oid {
        Some(oid) => {
            insert_entry(&mut out.details, "stashOid", DetailValue::Text(oid.to_owned()));
            proof {
                crate::placement::lemma_insert_push(d0, es.take(3), es[3]);
                assert(es.take(3).push(es[3]) =~= es);
            }
        },
        None => {
            assert(es.take(3) =~= es);
        },
    }
    let ghost r0 = object_view(report.recovery@);
    let ghost rs = seq![
        ("stashOid"@, opt_text_view(opt_view(stash_oid))),
        ("worktreePath"@, text_view(plan.target_path@)),
        ("originalBranch"@, text_view(plan.branch@)),
        ("currentBranch"@, text_view(current_branch@)),
    ];
    insert_entry(&mut report.recovery, "stashOid", opt_text_value(stash_oid));
    proof {
        crate::placement::lemma_insert_one(r0, rs[0]);
        assert(rs.take(1) =~= seq![rs[0]]);
    }
    insert_entry(&mut report.recovery, "worktreePath", DetailValue::Text(plan.target_path.clone()));
    proof {
        crate::placement::lemma_insert_push(r0, rs.take(1), rs[1]);
        assert(rs.take(1).push(rs[1]) =~= rs.take(2));
    }
    insert_entry(&mut report.recovery, "originalBranch", DetailValue::Text(plan.branch.clone()));
    proof {
        crate::placement::lemma_insert_push(r0, rs.take(2), rs[2]);
        assert(rs.take(2).push(rs[2]) =~= rs.take(3));
    }
    insert_entry(&mut report.recovery, "currentBranch", DetailValue::Text(current_branch.to_owned()));
    proof {
        crate::placement::lemma_insert_push(r0, rs.take(3), rs[3]);
        assert(rs.take(3).push(rs[3]) =~= rs);
    }
    report.phase = ExecutionPhase::Apply;
    report.state = ExecutionState::RecoveryRequired;
    report.completed = Vec::new();
    out.execution = Some(report);
    out
}

/// `out` is `original` after the stash taken for `extract` was (or could not be) put back
/// into the primary worktree at `plan.repo_root`.
pub open spec fn stage_restored(original: CliError, plan: ExtractPlan, stash_ref: Seq<char>, restore: Result<(), CliError>, out: CliError) -> bool {
    let d0 = object_view(original.details@);
    &&& out.code == original.code
    &&& out.message == original.message
    &&& out.execution matches Some(x) && x.phase == base_phase(original.execution) && match restore {
        Ok(_) => x.state == ExecutionState::RolledBack && x.completed@.map_values(|c: String| c@) == base_completed(
            original.execution,
        ).push("restoreSource"@) && object_view(x.recovery@) == base_recovery(original.execution)
            && object_view(out.details@) == view_insert(d0, "autoRestoreCompleted"@, DetailView::Bool(true)),
        Err(e) => x.state == ExecutionState::RecoveryRequired && x.completed@.map_values(|c: String| c@) == base_completed(
            original.execution,
        ) && object_view(x.recovery@) == insert_all(base_recovery(original.execution), seq![
            ("stashRef"@, text_view(stash_ref)),
            ("worktreePath"@, text_view(plan.repo_root@)),
        ]) && object_view(out.details@) == insert_all(d0, seq![
            ("autoRestoreFailed"@, DetailView::Bool(true)),
            ("autoRestoreError"@, text_view(e.message@)),
            ("recoveryStashRef"@, text_view(stash_ref)),
        ]),
    }
}

pub fn stage_restore_error(original: CliError, plan: &ExtractPlan, stash_ref: &str, restore: Result<(), CliError>) -> (out: CliError)
    ensures
        stage_restored(original, *plan, stash_ref@, restore, out),
{
    let mut out = original;
    let mut report = take_report(&mut out);
    let ghost d0 = object_view(out.details@);
    match restore {
        Ok(()) => {
            report.state = ExecutionState::RolledBack;
            let ghost before = report.completed@;
            report.completed.push("restoreSource".to_owned());
            assert(report.completed@.map_values(|c: String| c@) =~= before.map_values(|c: String| c@).push("restoreSource"@));
            insert_entry(&mut out.details, "autoRestoreCompleted", DetailValue::Bool(true));
        },
        Err(error) => {
            report.state = ExecutionState::RecoveryRequired;
            let ghost r0 = object_view(report.recovery@);
            let ghost rs = seq![("stashRef"@, text_view(stash_ref@)), ("worktreePath"@, text_view(plan.repo_root@))];
            insert_entry(&mut report.recovery, "stashRef", DetailValue::Text(stash_ref.to_owned()));
            proof {
                crate::placement::lemma_insert_one(r0, rs[0]);
                assert(rs.take(1) =~= seq![rs[0]]);
            }
            insert_entry(&mut report.recovery, "worktreePath", DetailValue::Text(plan.repo_root.clone()));
            proof {
                crate::placement::lemma_insert_push(r0, rs.take(1), rs[1]);
                assert(rs.take(1).push(rs[1]) =~= rs);
            }
            let ghost ds = seq![
                ("autoRestoreFailed"@, DetailView::Bool(true)),
                ("autoRestoreError"@, text_view(error.message@)),
                ("recoveryStashRef"@, text_view(stash_ref@)),
            ];
            insert_entry(&mut out.details, "autoRestoreFailed", DetailValue::Bool(true));
            proof {
                crate::placement::lemma_insert_one(d0, ds[0]);
                assert(ds.take(1) =~= seq![ds[0]]);
            }
            insert_entry(&mut out.details, "autoRestoreError", DetailValue::Text(error.message));
            proof {
                crate::placement::lemma_insert_push(d0, ds.take(1), ds[1]);
                assert(ds.take(1).push(ds[1]) =~= ds.take(2));
            }
            insert_entry(&mut out.details, "recoveryStashRef", DetailValue::Text(stash_ref.to_owned()));
            proof {
                crate::placement::lemma_insert_push(d0, ds.take(2), ds[2]);
                assert(ds.take(2).push(ds[2]) =~= ds);
            }
        },
    }
    out.execution = Some(report);
    out
}

pub open spec fn stash_drop_ran(repo_root: Seq<char>, stash_ref: Seq<char>, run: Result<ProcessOutput, CliError>, restore: Result<(), CliError>) -> bool {
    &&& checked_run(repo_root, seq!["stash"@, "drop"@, stash_ref], run)
    &&& restore == match run {
        Err(e) => Err::<(), CliError>(e),
        Ok(_) => Ok::<(), CliError>(()),
    }
}

/// How putting a stash back went: apply it, then (only if that worked) drop it by its
/// object id when that is known, or by its reference otherwise.
pub open spec fn stash_restored(repo_root: Seq<char>, stash_ref: Seq<char>, stash_oid: Option<Seq<char>>, restore: Result<(), CliError>) -> bool {
    exists|apply: Result<(), CliError>| #[trigger] stash_applied(repo_root, stash_ref, true, apply) && match apply {
        Err(e) => restore == Err::<(), CliError>(e),
        Ok(_) => match stash_oid {
            Some(o) => stash_dropped(repo_root, o, restore),
            None => exists|run: Result<ProcessOutput, CliError>| #[trigger] stash_drop_ran(repo_root, stash_ref, run, restore),
        },
    }
}

/// `restore` is what putting the stash back makes of answers `git` may give: the apply and,
/// once it worked, the drop by object id or by reference.
pub open spec fn stash_restored_reported<G: CreateMutationGit>(
    git: &G,
    repo_root: Seq<char>,
    stash_ref: Seq<char>,
    stash_oid: Option<Seq<char>>,
    restore: Result<(), CliError>,
) -> bool {
    exists|apply: Result<(), CliError>| #[trigger] stash_apply_reported(git, repo_root, stash_ref, true, apply) && match apply {
        Err(e) => restore == Err::<(), CliError>(e),
        Ok(_) => match stash_oid {
            Some(o) => stash_drop_reported(git, repo_root, o, restore),
            None => exists|run: Result<ProcessOutput, CliError>|
                checked_run_reported(git, repo_root, seq!["stash"@, "drop"@, stash_ref], run)
                    && #[trigger] stash_drop_ran(repo_root, stash_ref, run, restore),
        },
    }
}

fn restore_stash<G: CreateMutationGit>(git: &G, repo_root: &str, stash_ref: &str, stash_oid: Option<&str>) -> (restore: Result<(), CliError>)
    ensures
        stash_restored(repo_root@, stash_ref@, opt_view(stash_oid), restore),
        stash_restored_reported(git, repo_root@, stash_ref@, opt_view(stash_oid), restore),
{
    let apply = apply_stash(git, repo_root, stash_ref, true);
    let ghost a = apply;
    match apply {
        Err(error) => Err(error),
        Ok(()) => {
            match stash_oid {
                Some(oid) => drop_stash_by_oid(git, repo_root, oid),
                None => {
                    let mut args: Vec<String> = Vec::new();
                    assert(args_view(args@) =~= Seq::<Seq<char>>::empty());
                    push_arg(&mut args, "stash");
                    push_arg(&mut args, "drop");
                    push_arg(&mut args, stash_ref);
                    assert(args_view(args@) =~= seq!["stash"@, "drop"@, stash_ref@]);
                    let run = run_git_checked(git, repo_root, &args);
                    let ghost r = run;
                    let restore = match run {
                        Err(error) => Err(error),
                        Ok(_) => Ok(()),
                    };
                    assert(stash_drop_ran(repo_root@, stash_ref@, r, restore));
                    assert(checked_run_reported(git, repo_root@, seq!["stash"@, "drop"@, stash_ref@], r));
                    restore
                },
            }
        },
    }
}


// ----- staging -----

/// A checked Git run whose output is not needed: `unit` is its error, or nothing.
pub open spec fn ran_checked(cwd: Seq<char>, args: Seq<Seq<char>>, run: Result<ProcessOutput, CliError>, unit: Result<(), CliError>) -> bool {
    &&& checked_run(cwd, args, run)
    &&& unit == match run {
        Err(e) => Err::<(), CliError>(e),
        Ok(_) => Ok::<(), CliError>(()),
    }
}

pub open spec fn unit_ran(cwd: Seq<char>, args: Seq<Seq<char>>, unit: Result<(), CliError>) -> bool {
    exists|run: Result<ProcessOutput, CliError>| #[trigger] ran_checked(cwd, args, run, unit)
}

fn run_unit<G: CreateMutationGit>(git: &G, cwd: &str, args: &Vec<String>) -> (unit: Result<(), CliError>)
    ensures
        unit_ran(cwd@, args_view(args@), unit),
        unit_reported(git, cwd@, args_view(args@), unit),
{
    let run = run_git_checked(git, cwd, args.as_slice());
    let ghost r = run;
    let unit = match run {
        Err(error) => Err(error),
        Ok(_) => Ok(()),
    };
    assert(ran_checked(cwd@, args_view(args@), r, unit));
    assert(checked_run_reported(git, cwd@, args_view(args@), r));
    unit
}

/// `unit` is what a checked run of `args` in `cwd` makes of an answer `git` may give.
pub open spec fn unit_reported<G: CreateMutationGit>(git: &G, cwd: Seq<char>, args: Seq<Seq<char>>, unit: Result<(), CliError>) -> bool {
    exists|run: Result<ProcessOutput, CliError>| #[trigger] checked_run_reported(git, cwd, args, run) && ran_checked(cwd, args, run, unit)
}

/// Restores the stash taken for `extract` after a failure before the hooks ran.
pub fn restore_extract_stage_failure<G: CreateMutationGit>(
    git: &G,
    plan: &ExtractPlan,
    stash_ref: &str,
    stash_oid: Option<&str>,
    original: CliError,
) -> (out: CliError)
    ensures
        exists|restore: Result<(), CliError>| stash_restored(plan.repo_root@, stash_ref@, opt_view(stash_oid), restore)
            && #[trigger] stage_restored(original, *plan, stash_ref@, restore, out),
        exists|restore: Result<(), CliError>| stash_restored_reported(git, plan.repo_root@, stash_ref@, opt_view(stash_oid), restore)
            && #[trigger] stage_restored(original, *plan, stash_ref@, restore, out),
{
    let restore = restore_stash(git, plan.repo_root.as_str(), stash_ref, stash_oid);
    let ghost r = restore;
    let ghost o = original;
    let out = stage_restore_error(original, plan, stash_ref, restore);
    assert(stage_restored(o, *plan, stash_ref@, r, out));
    out
}

pub open spec fn stash_push_args(branch: Seq<char>) -> Seq<Seq<char>> {
    seq!["stash"@, "push"@, "-u"@, "-m"@, "vde-worktree extract "@ + branch]
}

pub open spec fn stash_top_answer(cwd: Seq<char>, top: Result<String, CliError>) -> bool {
    exists|run: Result<ProcessOutput, CliError>| checked_run(cwd, stash_top_args(), run) && #[trigger] stash_top_ok(run, top)
}

/// What staging `extract` answers: a clean worktree needs no stash; a dirty one is stashed,
/// the stash's object id resolved and the managed root created; a failure after the stash
/// puts the stash back.
pub open spec fn extract_staged_ok(
    plan: ExtractPlan,
    push: Result<(), CliError>,
    top: Result<String, CliError>,
    created: Result<(), CliError>,
    restore: Result<(), CliError>,
    result: Result<StagedExtractPlan, CliError>,
) -> bool {
    if !plan.dirty {
        result == Ok::<StagedExtractPlan, CliError>(StagedExtractPlan { plan, stash_oid: None })
    } else {
        unit_ran(plan.repo_root@, stash_push_args(plan.branch@), push) && match push {
            Err(e) => result == Err::<StagedExtractPlan, CliError>(e),
            Ok(_) => stash_top_answer(plan.repo_root@, top) && match top {
                Err(e) => stash_restored(plan.repo_root@, "stash@{0}"@, None, restore) && (result matches Err(out)
                    && stage_restored(e, plan, "stash@{0}"@, restore, out)),
                Ok(oid) => match created {
                    Err(e) => stash_restored(plan.repo_root@, oid@, Some(oid@), restore) && (result matches Err(out)
                        && stage_restored(e, plan, oid@, restore, out)),
                    Ok(_) => result == Ok::<StagedExtractPlan, CliError>(StagedExtractPlan { plan, stash_oid: Some(oid) }),
                },
            },
        }
    }
}

/// The answers behind staging `extract` are answers Git and the file system may give: for a
/// dirty worktree the stash push, then the newest stash's object id, then the managed root's
/// creation, and the restore of the stash after a failure that followed the push.
pub open spec fn extract_stage_reported<G: CreateMutationGit, X: ExtractFilesystem>(
    git: &G,
    xfs: &X,
    plan: ExtractPlan,
    push: Result<(), CliError>,
    top: Result<String, CliError>,
    created: Result<(), CliError>,
    restore: Result<(), CliError>,
) -> bool {
    let repo = plan.repo_root@;
    let pushed = plan.dirty && push is Ok;
    let oid = top->Ok_0@;
    &&& (plan.dirty ==> unit_reported(git, repo, stash_push_args(plan.branch@), push))
    &&& (pushed ==> stash_top_reported(git, repo, top))
    &&& (pushed && top is Err ==> stash_restored_reported(git, repo, "stash@{0}"@, None, restore))
    &&& (pushed && top is Ok ==> xfs.create_answer(plan.managed_root@, created))
    &&& (pushed && top is Ok && created is Err ==> stash_restored_reported(git, repo, oid, Some(oid), restore))
}

/// Stashes the primary worktree's changes (untracked files included) before the hooks run.
pub fn stage_extract_for_hook<G: CreateMutationGit, X: ExtractFilesystem>(git: &G, fs: &X, plan: ExtractPlan) -> (result: Result<StagedExtractPlan, CliError>)
    ensures
        exists|
            push: Result<(), CliError>,
            top: Result<String, CliError>,
            created: Result<(), CliError>,
            restore: Result<(), CliError>,
        | #[trigger] extract_staged_ok(plan, push, top, created, restore, result),
        exists|
            push: Result<(), CliError>,
            top: Result<String, CliError>,
            created: Result<(), CliError>,
            restore: Result<(), CliError>,
        |
            #[trigger] extract_staged_ok(plan, push, top, created, restore, result)
                && extract_stage_reported(git, fs, plan, push, top, created, restore),
{
    let ghost p = plan;
    let ghost unasked: Result<(), CliError> = Ok(());
    let ghost no_top: Result<String, CliError> = Ok(arbitrary());
    if !plan.dirty {
        let result = Ok(StagedExtractPlan { plan, stash_oid: None });
        assert(extract_staged_ok(p, unasked, no_top, unasked, unasked, result));
        assert(extract_stage_reported(git, fs, p, unasked, no_top, unasked, unasked));
        return result;
    }
    let mut args: Vec<String> = Vec::new();
    assert(args_view(args@) =~= Seq::<Seq<char>>::empty());
    push_arg(&mut args, "stash");
    push_arg(&mut args, "push");
    push_arg(&mut args, "-u");
    push_arg(&mut args, "-m");
    let mut message = String::from_str("vde-worktree extract ");
    message.append(plan.branch.as_str());
    push_arg(&mut args, message.as_str());
    assert(args_view(args@) =~= stash_push_args(plan.branch@));
    let push = run_unit(git, plan.repo_root.as_str(), &args);
    let ghost pu = push;
    if let Err(error) = push {
        let result = Err(error);
        assert(extract_staged_ok(p, pu, no_top, unasked, unasked, result));
        assert(extract_stage_reported(git, fs, p, pu, no_top, unasked, unasked));
        return result;
    }
    let top = resolve_stash_top(git, plan.repo_root.as_str());
    let ghost tp = top;
    let oid = match top {
        Err(error) => {
            let restore = restore_stash(git, plan.repo_root.as_str(), "stash@{0}", None);
            let ghost rs = restore;
            let out = stage_restore_error(error, &plan, "stash@{0}", restore);
            let result = Err(out);
            assert(extract_staged_ok(p, pu, tp, unasked, rs, result));
            assert(extract_stage_reported(git, fs, p, pu, tp, unasked, rs));
            return result;
        },
        Ok(oid) => oid,
    };
    let created = fs.create_directory(plan.managed_root.as_str());
    let ghost cr = created;
    if let Err(error) = created {
        let restore = restore_stash(git, plan.repo_root.as_str(), oid.as_str(), Some(oid.as_str()));
        let ghost rs = restore;
        let out = stage_restore_error(error, &plan, oid.as_str(), restore);
        let result = Err(out);
        assert(extract_staged_ok(p, pu, tp, cr, rs, result));
        assert(extract_stage_reported(git, fs, p, pu, tp, cr, rs));
        return result;
    }
    let result = Ok(StagedExtractPlan { plan, stash_oid: Some(oid) });
    assert(extract_staged_ok(p, pu, tp, cr, unasked, result));
    assert(extract_stage_reported(git, fs, p, pu, tp, cr, unasked));
    result
}

// ----- putting a stash back, step by step -----

/// Where putting a stash back by its object id stands: it is applied, then looked up in
/// `git stash list`, then dropped by the reference found there; `Done` holds the answer.
pub enum StashRestoreStage {
    Applying,
    Listing,
    Dropping(String),
    Done(Result<(), CliError>),
}

/// The Git arguments run at each stage; once the answer is known nothing more is run.
pub open spec fn restore_run_spec(oid: Seq<char>, stage: StashRestoreStage) -> Option<Seq<Seq<char>>> {
    match stage {
        StashRestoreStage::Applying => Some(stash_apply_args(oid)),
        StashRestoreStage::Listing => Some(stash_list_args()),
        StashRestoreStage::Dropping(r) => Some(seq!["stash"@, "drop"@, r@]),
        StashRestoreStage::Done(_) => None,
    }
}

fn stash_list_vec() -> (args: Vec<String>)
    ensures
        args_view(args@) == stash_list_args(),
{
    let mut args: Vec<String> = Vec::new();
    assert(args_view(args@) =~= Seq::<Seq<char>>::empty());
    push_arg(&mut args, "stash");
    push_arg(&mut args, "list");
    push_arg(&mut args, "--format=%gd%x09%H");
    assert(args_view(args@) =~= stash_list_args());
    args
}

/// The Git arguments to run at `stage` of putting back the stash `oid`.
pub fn restore_run(oid: &str, stage: &StashRestoreStage) -> (args: Option<Vec<String>>)
    ensures
        match args {
            Some(a) => restore_run_spec(oid@, *stage) == Some(args_view(a@)),
            None => restore_run_spec(oid@, *stage) is None,
        },
{
    match stage {
        StashRestoreStage::Applying => Some(stash_args("apply", oid)),
        StashRestoreStage::Listing => Some(stash_list_vec()),
        StashRestoreStage::Dropping(r) => Some(stash_args("drop", r.as_str())),
        StashRestoreStage::Done(_) => None,
    }
}

pub open spec fn exited_cleanly(o: ProcessOutput) -> bool {
    o.exit_code == Some(0i32) && !o.timed_out
}

/// The stage that follows `stage` once its Git run answered `outcome`: a failed apply ends
/// with its error and keeps the stash; a listing that does not name the stash ends in
/// success; a failed listing or drop ends with the Git error.
pub open spec fn restore_next_ok(
    cwd: Seq<char>,
    oid: Seq<char>,
    stage: StashRestoreStage,
    outcome: Result<ProcessOutput, CliError>,
    next: StashRestoreStage,
) -> bool {
    match stage {
        StashRestoreStage::Applying => match outcome {
            Err(e) => next == StashRestoreStage::Done(Err(e)),
            Ok(o) => if exited_cleanly(o) {
                next == StashRestoreStage::Listing
            } else {
                next matches StashRestoreStage::Done(Err(e)) && is_stash_apply_error(e, cwd, oid, true)
            },
        },
        StashRestoreStage::Listing => match outcome {
            Err(e) => next == StashRestoreStage::Done(Err(e)),
            Ok(o) => if exited_cleanly(o) {
                match stash_ref_in(crate::completion::lines_spec(utf8_lossy(o.stdout@)), oid) {
                    None => next == StashRestoreStage::Done(Ok(())),
                    Some(r) => next matches StashRestoreStage::Dropping(x) && x@ == r,
                }
            } else {
                next matches StashRestoreStage::Done(Err(e)) && is_git_output_error(e, cwd, stash_list_args(), o)
            },
        },
        StashRestoreStage::Dropping(r) => match outcome {
            Err(e) => next == StashRestoreStage::Done(Err(e)),
            Ok(o) => if exited_cleanly(o) {
                next == StashRestoreStage::Done(Ok(()))
            } else {
                next matches StashRestoreStage::Done(Err(e)) && is_git_output_error(e, cwd, seq!["stash"@, "drop"@, r@], o)
            },
        },
        StashRestoreStage::Done(_) => next == stage,
    }
}

/// The stage after `stage`, given what its Git run (`restore_run`) in `cwd` answered.
pub fn restore_next(cwd: &str, oid: &str, stage: StashRestoreStage, outcome: Result<ProcessOutput, CliError>) -> (next: StashRestoreStage)
    requires
        !(stage is Done),
    ensures
        restore_next_ok(cwd@, oid@, stage, outcome, next),
{
    let ghost o = outcome;
    match stage {
        StashRestoreStage::Applying => {
            let answer = stash_apply_answer(cwd, oid, true, outcome);
            assert(stash_apply_ok(cwd@, oid@, true, o, answer));
            match answer {
                Err(error) => StashRestoreStage::Done(Err(error)),
                Ok(()) => StashRestoreStage::Listing,
            }
        },
        StashRestoreStage::Listing => match outcome {
            Err(error) => StashRestoreStage::Done(Err(error)),
            Ok(output) => {
                let clean = match output.exit_code {
                    Some(code) => code == 0,
                    None => false,
                };
                if clean && !output.timed_out {
                    let listing = utf8_lossy_string(output.stdout.as_slice());
                    match stash_ref_for(listing.as_str(), oid) {
                        None => StashRestoreStage::Done(Ok(())),
                        Some(reference) => StashRestoreStage::Dropping(reference),
                    }
                } else {
                    let args = stash_list_vec();
                    StashRestoreStage::Done(Err(git_output_error(cwd, args.as_slice(), &output)))
                }
            },
        },
        StashRestoreStage::Dropping(reference) => match outcome {
            Err(error) => StashRestoreStage::Done(Err(error)),
            Ok(output) => {
                let clean = match output.exit_code {
                    Some(code) => code == 0,
                    None => false,
                };
                if clean && !output.timed_out {
                    StashRestoreStage::Done(Ok(()))
                } else {
                    let args = stash_args("drop", reference.as_str());
                    StashRestoreStage::Done(Err(git_output_error(cwd, args.as_slice(), &output)))
                }
            },
        },
        StashRestoreStage::Done(answer) => StashRestoreStage::Done(answer),
    }
}

/// A stash whose apply failed is kept: the restore ends with the apply's error and runs
/// nothing more, so no listing and no drop follow.
pub proof fn law_failed_apply_keeps_the_stash(cwd: Seq<char>, oid: Seq<char>, output: ProcessOutput, next: StashRestoreStage)
    requires
        !exited_cleanly(output),
        restore_next_ok(cwd, oid, StashRestoreStage::Applying, Ok(output), next),
    ensures
        next matches StashRestoreStage::Done(Err(e)) && e.code == ErrorCode::StashApplyFailed,
        restore_run_spec(oid, next) is None,
{
}

fn run_restore_stage<G: CreateMutationGit>(git: &G, cwd: &str, oid: &str, stage: StashRestoreStage) -> (next: StashRestoreStage)
    requires
        !(stage is Done),
    ensures
        exists|outcome: Result<ProcessOutput, CliError>| #[trigger] restore_next_ok(cwd@, oid@, stage, outcome, next)
            && git.answers(cwd@, restore_run_spec(oid@, stage)->Some_0, outcome),
{
    match restore_run(oid, &stage) {
        Some(args) => {
            let outcome = git.run_git(cwd, args.as_slice());
            let ghost o = outcome;
            let next = restore_next(cwd, oid, stage, outcome);
            assert(restore_next_ok(cwd@, oid@, stage, o, next) && git.answers(cwd@, restore_run_spec(oid@, stage)->Some_0, o));
            next
        },
        None => stage,
    }
}

/// Puts the stash back into the primary worktree when the pre-hook failed; the stash is
/// dropped only once it applied.
pub fn restore_extract_after_pre_hook_failure<G: CreateMutationGit>(git: &G, staged: &StagedExtractPlan) -> (result: Result<(), CliError>)
    ensures
        match staged.stash_oid {
            None => result is Ok,
            Some(oid) => stash_restored(staged.plan.repo_root@, oid@, Some(oid@), result),
        },
        staged.stash_oid matches Some(oid) ==> stash_restored_reported(git, staged.plan.repo_root@, oid@, Some(oid@), result),
{
    match &staged.stash_oid {
        None => Ok(()),
        Some(oid) => {
            let cwd = staged.plan.repo_root.as_str();
            let first = run_restore_stage(git, cwd, oid.as_str(), StashRestoreStage::Applying);
            let ghost o1 = choose|o: Result<ProcessOutput, CliError>| #[trigger] restore_next_ok(cwd@, oid@, StashRestoreStage::Applying, o, first)
                && git.answers(cwd@, restore_run_spec(oid@, StashRestoreStage::Applying)->Some_0, o);
            assert(restore_next_ok(cwd@, oid@, StashRestoreStage::Applying, o1, first));
            let ghost applied: Result<(), CliError> = if first is Done {
                first->Done_0
            } else {
                Ok(())
            };
            assert(stash_apply_ok(cwd@, oid@, true, o1, applied));
            assert(stash_applied(cwd@, oid@, true, applied));
            assert(git.answers(cwd@, stash_apply_args(oid@), o1));
            assert(stash_apply_reported(git, cwd@, oid@, true, applied));
            if let StashRestoreStage::Done(answer) = first {
                return answer;
            }
            let second = run_restore_stage(git, cwd, oid.as_str(), StashRestoreStage::Listing);
            let ghost o2 = choose|o: Result<ProcessOutput, CliError>| #[trigger] restore_next_ok(cwd@, oid@, StashRestoreStage::Listing, o, second)
                && git.answers(cwd@, restore_run_spec(oid@, StashRestoreStage::Listing)->Some_0, o);
            assert(restore_next_ok(cwd@, oid@, StashRestoreStage::Listing, o2, second));
            let ghost listed: Result<ProcessOutput, CliError> = match o2 {
                Err(e) => Err(e),
                Ok(o) => if exited_cleanly(o) {
                    Ok(o)
                } else {
                    if second is Done && second->Done_0 is Err {
                        Err(second->Done_0->Err_0)
                    } else {
                        Ok(o)
                    }
                },
            };
            assert(checked_run_ok(cwd@, stash_list_args(), o2, listed));
            assert(checked_run(cwd@, stash_list_args(), listed));
            assert(git.answers(cwd@, stash_list_args(), o2));
            assert(checked_run_reported(git, cwd@, stash_list_args(), listed));
            match second {
                StashRestoreStage::Done(answer) => {
                    assert(stash_drop_ok(cwd@, oid@, listed, listed, answer));
                    assert(stash_drop_reported(git, cwd@, oid@, answer));
                    answer
                },
                StashRestoreStage::Dropping(reference) => {
                    let ghost r = reference;
                    let third = run_restore_stage(git, cwd, oid.as_str(), StashRestoreStage::Dropping(reference));
                    let ghost o3 = choose|o: Result<ProcessOutput, CliError>| #[trigger] restore_next_ok(cwd@, oid@, StashRestoreStage::Dropping(r), o, third)
                        && git.answers(cwd@, restore_run_spec(oid@, StashRestoreStage::Dropping(r))->Some_0, o);
                    assert(restore_next_ok(cwd@, oid@, StashRestoreStage::Dropping(r), o3, third));
                    let ghost dropped: Result<ProcessOutput, CliError> = match o3 {
                        Err(e) => Err(e),
                        Ok(o) => if exited_cleanly(o) {
                            Ok(o)
                        } else {
                            if third is Done && third->Done_0 is Err {
                                Err(third->Done_0->Err_0)
                            } else {
                                Ok(o)
                            }
                        },
                    };
                    assert(checked_run_ok(cwd@, seq!["stash"@, "drop"@, r@], o3, dropped));
                    assert(checked_run(cwd@, seq!["stash"@, "drop"@, r@], dropped));
                    assert(git.answers(cwd@, seq!["stash"@, "drop"@, r@], o3));
                    assert(checked_run_reported(git, cwd@, seq!["stash"@, "drop"@, r@], dropped));
                    match third {
                        StashRestoreStage::Done(answer) => {
                            assert(stash_drop_ok(cwd@, oid@, listed, dropped, answer));
                            assert(stash_drop_reported(git, cwd@, oid@, answer));
                            answer
                        },
                        _ => {
                            assert(false);
                            Ok(())
                        },
                    }
                },
                _ => {
                    assert(false);
                    Ok(())
                },
            }
        },
    }
}


// ----- applying -----

pub open spec fn opt_seq<T>(o: Option<T>) -> Seq<T> {
    match o {
        Some(x) => seq![x],
        None => Seq::empty(),
    }
}

/// `out` is `original` after undoing an `extract` that had switched the primary worktree to
/// the base branch: the new worktree is removed if it was created, the branch is checked
/// out again, and the stash, if any, is put back. With nothing failing, the error says the
/// extract was rolled back; otherwise it lists the failures for recovery.
pub open spec fn extract_undone(
    original: CliError,
    plan: ExtractPlan,
    target: Seq<char>,
    stash_oid: Option<Seq<char>>,
    remove: Option<Result<(), CliError>>,
    checkout: Result<(), CliError>,
    apply: Option<Result<(), CliError>>,
    drop: Option<Result<(), CliError>>,
    out: CliError,
) -> bool {
    let failures = crate::rename::error_messages(opt_seq(remove) + seq![checkout] + opt_seq(apply) + opt_seq(drop));
    let d1 = insert_all(object_view(original.details@), extract_detail_entries(plan, stash_oid, plan.base_branch@));
    &&& (remove matches Some(r) ==> unit_ran(plan.repo_root@, seq!["worktree"@, "remove"@, "--force"@, target], r))
    &&& unit_ran(plan.repo_root@, seq!["checkout"@, plan.branch@], checkout)
    &&& (apply is Some <==> (checkout is Ok && stash_oid is Some))
    &&& (apply matches Some(a) ==> stash_applied(plan.repo_root@, stash_oid->Some_0, true, a))
    &&& (drop is Some <==> apply matches Some(Ok(_)))
    &&& (drop matches Some(d) ==> stash_dropped(plan.repo_root@, stash_oid->Some_0, d))
    &&& out.code == original.code
    &&& out.message == original.message
    &&& if failures.len() == 0 {
        &&& object_view(out.details@) == insert_all(d1, seq![
            ("autoRestoreCompleted"@, DetailView::Bool(true)),
            ("currentBranch"@, text_view(plan.branch@)),
        ])
        &&& out.execution matches Some(x) && x.phase == ExecutionPhase::Apply && x.state == ExecutionState::RolledBack
            && x.completed@.map_values(|c: String| c@) == seq!["rollbackExtract"@] && x.recovery@.len() == 0
    } else {
        &&& object_view(out.details@) == insert_all(d1, seq![
            ("autoRestoreFailed"@, DetailView::Bool(true)),
            ("rollbackFailures"@, DetailView::List(texts_view(failures))),
        ])
        &&& out.execution matches Some(x) && x.phase == ExecutionPhase::Apply && x.state == ExecutionState::RecoveryRequired
            && x.completed@.len() == 0 && object_view(x.recovery@) == insert_all(
            base_recovery(original.execution),
            extract_recovery_entries(plan, stash_oid, plan.base_branch@),
        )
    }
}

pub open spec fn extract_undo_answers(
    original: CliError,
    plan: ExtractPlan,
    target: Seq<char>,
    stash_oid: Option<Seq<char>>,
    out: CliError,
) -> bool {
    exists|
        remove: Option<Result<(), CliError>>,
        checkout: Result<(), CliError>,
        apply: Option<Result<(), CliError>>,
        drop: Option<Result<(), CliError>>,
    | #[trigger] extract_undone(original, plan, target, stash_oid, remove, checkout, apply, drop, out)
}

fn compensate_extract_after_checkout<G: CreateMutationGit, F: TargetFilesystem>(
    git: &G,
    fs: &F,
    plan: &ExtractPlan,
    target_path: &str,
    stash_oid: Option<&str>,
    original: CliError,
) -> (out: CliError)
    ensures
        extract_undo_answers(original, *plan, target_path@, opt_view(stash_oid), out),
{
    let ghost orig = original;
    let mut failures: Vec<String> = Vec::new();
    let exists = match fs.path_exists(target_path) {
        Ok(found) => found,
        Err(_) => false,
    };
    let remove = if exists {
        let mut args: Vec<String> = Vec::new();
        assert(args_view(args@) =~= Seq::<Seq<char>>::empty());
        push_arg(&mut args, "worktree");
        push_arg(&mut args, "remove");
        push_arg(&mut args, "--force");
        push_arg(&mut args, target_path);
        assert(args_view(args@) =~= seq!["worktree"@, "remove"@, "--force"@, target_path@]);
        let u = run_unit(git, plan.repo_root.as_str(), &args);
        crate::rename::push_failure(&mut failures, &u);
        Some(u)
    } else {
        None
    };
    let mut args: Vec<String> = Vec::new();
    assert(args_view(args@) =~= Seq::<Seq<char>>::empty());
    push_arg(&mut args, "checkout");
    push_arg(&mut args, plan.branch.as_str());
    assert(args_view(args@) =~= seq!["checkout"@, plan.branch@]);
    let checkout = run_unit(git, plan.repo_root.as_str(), &args);
    crate::rename::push_failure(&mut failures, &checkout);
    let mut apply: Option<Result<(), CliError>> = None;
    let mut drop: Option<Result<(), CliError>> = None;
    if checkout.is_ok() {
        match stash_oid {
            Some(oid) => {
                let a = apply_stash(git, plan.repo_root.as_str(), oid, true);
                crate::rename::push_failure(&mut failures, &a);
                if a.is_ok() {
                    let d = drop_stash_by_oid(git, plan.repo_root.as_str(), oid);
                    crate::rename::push_failure(&mut failures, &d);
                    drop = Some(d);
                }
                apply = Some(a);
            },
            None => {},
        }
    }
    proof {
        let s1 = opt_seq(remove);
        let s2 = s1 + seq![checkout];
        let s3 = s2 + opt_seq(apply);
        let s4 = s3 + opt_seq(drop);
        assert(s1.take(0) =~= Seq::<Result<(), CliError>>::empty());
        if remove is Some {
            crate::rename::lemma_error_messages_one(remove->Some_0);
        } else {
            assert(crate::rename::error_messages(s1) == Seq::<String>::empty());
        }
        crate::rename::lemma_error_messages_push(s1, checkout);
        assert(s1.push(checkout) =~= s2);
        if apply is Some {
            crate::rename::lemma_error_messages_push(s2, apply->Some_0);
            assert(s2.push(apply->Some_0) =~= s3);
        } else {
            assert(s2 =~= s3);
        }
        if drop is Some {
            crate::rename::lemma_error_messages_push(s3, drop->Some_0);
            assert(s3.push(drop->Some_0) =~= s4);
        } else {
            assert(s3 =~= s4);
        }
        assert(failures@ =~= crate::rename::error_messages(s4));
    }
    let mut error = extract_recovery_details(original, plan, stash_oid, plan.base_branch.as_str());
    let ghost d1 = object_view(error.details@);
    let ghost ex = error.execution;
    let mut report = take_report(&mut error);
    assert(report.completed@.len() == 0) by {
        assert(report.completed@.map_values(|c: String| c@).len() == report.completed@.len());
    }
    assert(report.phase == ExecutionPhase::Apply);
    assert(object_view(report.recovery@) == insert_all(
        base_recovery(orig.execution),
        extract_recovery_entries(*plan, opt_view(stash_oid), plan.base_branch@),
    ));
    if failures.len() == 0 {
        report.state = ExecutionState::RolledBack;
        report.recovery = Vec::new();
        report.completed.push("rollbackExtract".to_owned());
        assert(report.completed@.map_values(|c: String| c@) =~= seq!["rollbackExtract"@]);
        let ghost es = seq![("autoRestoreCompleted"@, DetailView::Bool(true)), ("currentBranch"@, text_view(plan.branch@))];
        insert_entry(&mut error.details, "autoRestoreCompleted", DetailValue::Bool(true));
        proof {
            crate::placement::lemma_insert_one(d1, es[0]);
            assert(es.take(1) =~= seq![es[0]]);
        }
        insert_entry(&mut error.details, "currentBranch", DetailValue::Text(plan.branch.clone()));
        proof {
            crate::placement::lemma_insert_push(d1, es.take(1), es[1]);
            assert(es.take(1).push(es[1]) =~= es);
        }
    } else {
        let ghost es = seq![("autoRestoreFailed"@, DetailView::Bool(true)), ("rollbackFailures"@, DetailView::List(texts_view(failures@)))];
        insert_entry(&mut error.details, "autoRestoreFailed", DetailValue::Bool(true));
        proof {
            crate::placement::lemma_insert_one(d1, es[0]);
            assert(es.take(1) =~= seq![es[0]]);
        }
        let list = texts_value(&failures);
        insert_entry(&mut error.details, "rollbackFailures", list);
        proof {
            crate::placement::lemma_insert_push(d1, es.take(1), es[1]);
            assert(es.take(1).push(es[1]) =~= es);
        }
    }
    error.execution = Some(report);
    assert(extract_undone(orig, *plan, target_path@, opt_view(stash_oid), remove, checkout, apply, drop, error));
    error
}


/// The answers of the steps of `extract` after the hooks, as far as they were asked.
pub struct ExtractAnswers {
    pub base: Result<bool, CliError>,
    pub target: Result<String, CliError>,
    pub empty: Result<(), CliError>,
    pub dirty: Result<bool, CliError>,
    pub checkout: Result<(), CliError>,
    pub parent: Result<(), CliError>,
    pub add: Result<(), CliError>,
    pub stash: Result<(), CliError>,
}

/// The failure `e` is returned with what recovery needs, the primary worktree still on the
/// branch.
pub open spec fn failed_in_place(e: CliError, staged: StagedExtractPlan, result: Result<ExtractGitApplied, CliError>) -> bool {
    result matches Err(out) && with_extract_recovery(
        e,
        staged.plan,
        crate::plans::opt_text(staged.stash_oid),
        staged.plan.branch@,
        out,
    )
}

/// The failure `e` after the switch to the base branch is undone.
pub open spec fn failed_after_switch(e: CliError, staged: StagedExtractPlan, target: Seq<char>, result: Result<ExtractGitApplied, CliError>) -> bool {
    result matches Err(out) && extract_undo_answers(e, staged.plan, target, crate::plans::opt_text(staged.stash_oid), out)
}

/// What the Git step of `extract` answers for the answers of its steps.
pub open spec fn extract_apply_ok(staged: StagedExtractPlan, a: ExtractAnswers, result: Result<ExtractGitApplied, CliError>) -> bool {
    let plan = staged.plan;
    branch_probe(plan.repo_root@, plan.base_branch@, a.base) && match a.base {
        Err(e) => failed_in_place(e, staged, result),
        Ok(false) => exists|e: CliError| is_branch_error(e, ErrorCode::WorktreeNotFound, "local base branch was not found: "@, plan.base_branch@)
            && #[trigger] failed_in_place(e, staged, result),
        Ok(true) => match a.target {
            Err(e) => failed_in_place(e, staged, result),
            Ok(t) => match a.empty {
                Err(e) => failed_in_place(e, staged, result),
                Ok(_) => dirty_answer(plan.repo_root@, a.dirty) && match a.dirty {
                    Err(e) => failed_in_place(e, staged, result),
                    Ok(true) => exists|e: CliError| crate::error::plain_error(e, ErrorCode::DirtyWorktree, "extract pre-hook left the primary worktree dirty"@)
                        && #[trigger] failed_in_place(e, staged, result),
                    Ok(false) => unit_ran(plan.repo_root@, seq!["checkout"@, plan.base_branch@], a.checkout) && match a.checkout {
                        Err(e) => failed_in_place(e, staged, result),
                        Ok(_) => match a.parent {
                            Err(e) => failed_after_switch(e, staged, t@, result),
                            Ok(_) => unit_ran(plan.repo_root@, seq!["worktree"@, "add"@, t@, plan.branch@], a.add) && match a.add {
                                Err(e) => failed_after_switch(e, staged, t@, result),
                                Ok(_) => match staged.stash_oid {
                                    None => result == Ok::<ExtractGitApplied, CliError>(
                                        ExtractGitApplied { plan, stash_oid: None, target_path: t },
                                    ),
                                    Some(o) => stash_applied(t@, o@, false, a.stash) && match a.stash {
                                        Err(e) => failed_after_switch(e, staged, t@, result),
                                        Ok(_) => result == Ok::<ExtractGitApplied, CliError>(
                                            ExtractGitApplied { plan, stash_oid: Some(o), target_path: t },
                                        ),
                                    },
                                },
                            },
                        },
                    },
                },
            },
        },
    }
}

pub open spec fn extract_answers(
    base: Result<bool, CliError>,
    target: Result<String, CliError>,
    empty: Result<(), CliError>,
    dirty: Result<bool, CliError>,
    checkout: Result<(), CliError>,
    parent: Result<(), CliError>,
    add: Result<(), CliError>,
    stash: Result<(), CliError>,
) -> ExtractAnswers {
    ExtractAnswers { base, target, empty, dirty, checkout, parent, add, stash }
}

/// The answers behind `extract`'s Git step are answers Git and the file systems may give,
/// each asked only after the ones before allowed it: the base-branch probe, the revalidated
/// target, its emptiness, the dirtiness check, `git checkout <base>`, the target's parent,
/// `git worktree add <target> <branch>` and, with a stash, `git stash apply` in the new
/// worktree.
pub open spec fn extract_answers_reported<G: CreateMutationGit, F: TargetFilesystem, X: ExtractFilesystem>(
    git: &G,
    fs: &F,
    xfs: &X,
    staged: StagedExtractPlan,
    a: ExtractAnswers,
) -> bool {
    let plan = staged.plan;
    let repo = plan.repo_root@;
    let t = a.target->Ok_0@;
    let present = a.base == Ok::<bool, CliError>(true);
    let placed = present && a.target is Ok && a.empty is Ok;
    let clean = placed && a.dirty == Ok::<bool, CliError>(false);
    let switched = clean && a.checkout is Ok && a.parent is Ok;
    &&& probe_reported(git, repo, show_ref_args(plan.base_branch@), a.base)
    &&& (present ==> xfs.target_answer(plan, a.target))
    &&& (present && a.target is Ok ==> fs.empty_answer(t, a.empty))
    &&& (placed ==> crate::change::dirty_reported(git, repo, a.dirty))
    &&& (clean ==> unit_reported(git, repo, seq!["checkout"@, plan.base_branch@], a.checkout))
    &&& (clean && a.checkout is Ok ==> fs.parent_answer(t, a.parent))
    &&& (switched ==> unit_reported(git, repo, seq!["worktree"@, "add"@, t, plan.branch@], a.add))
    &&& (switched && a.add is Ok && staged.stash_oid is Some ==> stash_apply_reported(git, t, staged.stash_oid->Some_0@, false, a.stash))
}

/// After the hooks: checks again that the base branch exists, the target is valid and
/// empty and the primary worktree clean, switches the primary worktree to the base branch,
/// adds the branch as the new worktree and applies the stash there. Failures before the
/// switch are returned with what recovery needs; failures after it are undone.
pub fn apply_extract_git<G: CreateMutationGit, F: TargetFilesystem, X: ExtractFilesystem>(
    git: &G,
    fs: &F,
    xfs: &X,
    staged: StagedExtractPlan,
) -> (result: Result<ExtractGitApplied, CliError>)
    ensures
        exists|a: ExtractAnswers| #[trigger] extract_apply_ok(staged, a, result),
        exists|a: ExtractAnswers| #[trigger] extract_apply_ok(staged, a, result) && extract_answers_reported(git, fs, xfs, staged, a),
{
    let ghost s = staged;
    let ghost unasked: Result<(), CliError> = Ok(());
    let ghost no_target: Result<String, CliError> = Ok(arbitrary());
    let ghost no_dirty: Result<bool, CliError> = Ok(false);
    let plan = staged.plan;
    let stash_oid = staged.stash_oid;
    let oid: Option<&str> = match &stash_oid {
        Some(o) => Some(o.as_str()),
        None => None,
    };
    assert(opt_view(oid) == crate::plans::opt_text(s.stash_oid));
    let base = local_branch_exists(git, plan.repo_root.as_str(), plan.base_branch.as_str());
    let ghost bs = base;
    match base {
        Err(error) => {
            let result = Err(extract_recovery_details(error, &plan, oid, plan.branch.as_str()));
            assert(extract_apply_ok(s, extract_answers(bs, no_target, unasked, no_dirty, unasked, unasked, unasked, unasked), result));
            assert(extract_answers_reported(git, fs, xfs, s, extract_answers(bs, no_target, unasked, no_dirty, unasked, unasked, unasked, unasked)));
            return result;
        },
        Ok(false) => {
            let e = branch_error(ErrorCode::WorktreeNotFound, "local base branch was not found: ", plan.base_branch.as_str());
            let ghost ge = e;
            let result = Err(extract_recovery_details(e, &plan, oid, plan.branch.as_str()));
            assert(failed_in_place(ge, s, result));
            assert(extract_apply_ok(s, extract_answers(bs, no_target, unasked, no_dirty, unasked, unasked, unasked, unasked), result));
            assert(extract_answers_reported(git, fs, xfs, s, extract_answers(bs, no_target, unasked, no_dirty, unasked, unasked, unasked, unasked)));
            return result;
        },
        Ok(true) => {},
    }
    let target = xfs.revalidate_target(&plan);
    let ghost tg = target;
    let target_path = match target {
        Err(error) => {
            let result = Err(extract_recovery_details(error, &plan, oid, plan.branch.as_str()));
            assert(extract_apply_ok(s, extract_answers(bs, tg, unasked, no_dirty, unasked, unasked, unasked, unasked), result));
            assert(extract_answers_reported(git, fs, xfs, s, extract_answers(bs, tg, unasked, no_dirty, unasked, unasked, unasked, unasked)));
            return result;
        },
        Ok(path) => path,
    };
    let empty = fs.ensure_target_path_empty(target_path.as_str());
    let ghost em = empty;
    if let Err(error) = empty {
        let result = Err(extract_recovery_details(error, &plan, oid, plan.branch.as_str()));
        assert(extract_apply_ok(s, extract_answers(bs, tg, em, no_dirty, unasked, unasked, unasked, unasked), result));
        assert(extract_answers_reported(git, fs, xfs, s, extract_answers(bs, tg, em, no_dirty, unasked, unasked, unasked, unasked)));
        return result;
    }
    let dirty = git_worktree_dirty(git, plan.repo_root.as_str());
    let ghost dt = dirty;
    match dirty {
        Err(error) => {
            let result = Err(extract_recovery_details(error, &plan, oid, plan.branch.as_str()));
            assert(extract_apply_ok(s, extract_answers(bs, tg, em, dt, unasked, unasked, unasked, unasked), result));
            assert(extract_answers_reported(git, fs, xfs, s, extract_answers(bs, tg, em, dt, unasked, unasked, unasked, unasked)));
            return result;
        },
        Ok(true) => {
            let e = CliError::new(ErrorCode::DirtyWorktree, "extract pre-hook left the primary worktree dirty");
            let ghost ge = e;
            let result = Err(extract_recovery_details(e, &plan, oid, plan.branch.as_str()));
            assert(failed_in_place(ge, s, result));
            assert(extract_apply_ok(s, extract_answers(bs, tg, em, dt, unasked, unasked, unasked, unasked), result));
            assert(extract_answers_reported(git, fs, xfs, s, extract_answers(bs, tg, em, dt, unasked, unasked, unasked, unasked)));
            return result;
        },
        Ok(false) => {},
    }
    let mut args: Vec<String> = Vec::new();
    assert(args_view(args@) =~= Seq::<Seq<char>>::empty());
    push_arg(&mut args, "checkout");
    push_arg(&mut args, plan.base_branch.as_str());
    assert(args_view(args@) =~= seq!["checkout"@, plan.base_branch@]);
    let checkout = run_unit(git, plan.repo_root.as_str(), &args);
    let ghost co = checkout;
    if let Err(error) = checkout {
        let result = Err(extract_recovery_details(error, &plan, oid, plan.branch.as_str()));
        assert(extract_apply_ok(s, extract_answers(bs, tg, em, dt, co, unasked, unasked, unasked), result));
        assert(extract_answers_reported(git, fs, xfs, s, extract_answers(bs, tg, em, dt, co, unasked, unasked, unasked)));
        return result;
    }
    let parent = fs.create_parent(target_path.as_str());
    let ghost pa = parent;
    if let Err(error) = parent {
        let result = Err(compensate_extract_after_checkout(git, fs, &plan, target_path.as_str(), oid, error));
        assert(extract_apply_ok(s, extract_answers(bs, tg, em, dt, co, pa, unasked, unasked), result));
        assert(extract_answers_reported(git, fs, xfs, s, extract_answers(bs, tg, em, dt, co, pa, unasked, unasked)));
        return result;
    }
    let mut add_args: Vec<String> = Vec::new();
    assert(args_view(add_args@) =~= Seq::<Seq<char>>::empty());
    push_arg(&mut add_args, "worktree");
    push_arg(&mut add_args, "add");
    push_arg(&mut add_args, target_path.as_str());
    push_arg(&mut add_args, plan.branch.as_str());
    assert(args_view(add_args@) =~= seq!["worktree"@, "add"@, target_path@, plan.branch@]);
    let add = run_unit(git, plan.repo_root.as_str(), &add_args);
    let ghost ad = add;
    if let Err(error) = add {
        let result = Err(compensate_extract_after_checkout(git, fs, &plan, target_path.as_str(), oid, error));
        assert(extract_apply_ok(s, extract_answers(bs, tg, em, dt, co, pa, ad, unasked), result));
        assert(extract_answers_reported(git, fs, xfs, s, extract_answers(bs, tg, em, dt, co, pa, ad, unasked)));
        return result;
    }
    match oid {
        None => {},
        Some(o) => {
            let stash = apply_stash(git, target_path.as_str(), o, false);
            let ghost st = stash;
            if let Err(error) = stash {
                let result = Err(compensate_extract_after_checkout(git, fs, &plan, target_path.as_str(), oid, error));
                assert(extract_apply_ok(s, extract_answers(bs, tg, em, dt, co, pa, ad, st), result));
                assert(extract_answers_reported(git, fs, xfs, s, extract_answers(bs, tg, em, dt, co, pa, ad, st)));
                return result;
            }
            let result = Ok(ExtractGitApplied { plan, stash_oid, target_path });
            assert(extract_apply_ok(s, extract_answers(bs, tg, em, dt, co, pa, ad, st), result));
            assert(extract_answers_reported(git, fs, xfs, s, extract_answers(bs, tg, em, dt, co, pa, ad, st)));
            return result;
        },
    }
    let result = Ok(ExtractGitApplied { plan, stash_oid, target_path });
    assert(extract_apply_ok(s, extract_answers(bs, tg, em, dt, co, pa, ad, unasked), result));
    assert(extract_answers_reported(git, fs, xfs, s, extract_answers(bs, tg, em, dt, co, pa, ad, unasked)));
    result
}


// ----- finalizing -----

/// `out` is `e` marked as failed in the finalize step with the extract applied, and with
/// the stash and the new worktree as recovery material.
pub open spec fn finalize_failed(
    e: CliError,
    applied: ExtractGitApplied,
    completed: Seq<Seq<char>>,
    entries: Seq<(Seq<char>, DetailView)>,
    out: CliError,
) -> bool {
    &&& out.code == e.code
    &&& out.message == e.message
    &&& object_view(out.details@) == insert_all(object_view(e.details@), entries)
    &&& out.execution matches Some(x) && x.phase == ExecutionPhase::Finalize && x.state == ExecutionState::RecoveryRequired
        && x.completed@.map_values(|c: String| c@) == completed && object_view(x.recovery@) == insert_all(
        base_recovery(e.execution),
        seq![
            ("stashOid"@, opt_text_view(crate::plans::opt_text(applied.stash_oid))),
            ("worktreePath"@, text_view(applied.target_path@)),
        ],
    )
}

/// The details a failed lifecycle record adds: the stash, if any, and the new worktree.
pub open spec fn record_failure_entries(applied: ExtractGitApplied) -> Seq<(Seq<char>, DetailView)> {
    let stash = match applied.stash_oid {
        Some(o) => seq![("recoveryStashOid"@, text_view(o@))],
        None => Seq::empty(),
    };
    stash + seq![("recoveryWorktreePath"@, text_view(applied.target_path@))]
}

fn mark_finalize_failure(error: CliError, applied: &ExtractGitApplied, completed: Vec<String>, record: bool) -> (out: CliError)
    ensures
        finalize_failed(
            error,
            *applied,
            completed@.map_values(|c: String| c@),
            if record { record_failure_entries(*applied) } else { Seq::empty() },
            out,
        ),
{
    let mut out = error;
    let ghost orig = error;
    let mut report = take_report(&mut out);
    let ghost d0 = object_view(out.details@);
    if record {
        let ghost es = record_failure_entries(*applied);
        match &applied.stash_oid {
            Some(oid) => {
                insert_entry(&mut out.details, "recoveryStashOid", DetailValue::Text(oid.clone()));
                proof {
                    crate::placement::lemma_insert_one(d0, es[0]);
                    assert(es.take(1) =~= seq![es[0]]);
                }
                insert_entry(&mut out.details, "recoveryWorktreePath", DetailValue::Text(applied.target_path.clone()));
                proof {
                    crate::placement::lemma_insert_push(d0, es.take(1), es[1]);
                    assert(es.take(1).push(es[1]) =~= es);
                }
            },
            None => {
                insert_entry(&mut out.details, "recoveryWorktreePath", DetailValue::Text(applied.target_path.clone()));
                proof {
                    crate::placement::lemma_insert_one(d0, es[0]);
                    assert(es =~= seq![es[0]]);
                }
            },
        }
    } else {
        assert(insert_all(d0, Seq::empty()) == d0);
    }
    let ghost r0 = object_view(report.recovery@);
    let ghost rs = seq![
        ("stashOid"@, opt_text_view(crate::plans::opt_text(applied.stash_oid))),
        ("worktreePath"@, text_view(applied.target_path@)),
    ];
    let stash_value = match &applied.stash_oid {
        Some(oid) => DetailValue::Text(oid.clone()),
        None => DetailValue::Null,
    };
    insert_entry(&mut report.recovery, "stashOid", stash_value);
    proof {
        crate::placement::lemma_insert_one(r0, rs[0]);
        assert(rs.take(1) =~= seq![rs[0]]);
    }
    insert_entry(&mut report.recovery, "worktreePath", DetailValue::Text(applied.target_path.clone()));
    proof {
        crate::placement::lemma_insert_push(r0, rs.take(1), rs[1]);
        assert(rs.take(1).push(rs[1]) =~= rs);
    }
    report.phase = ExecutionPhase::Finalize;
    report.state = ExecutionState::RecoveryRequired;
    report.completed = completed;
    out.execution = Some(report);
    out
}

/// What finalizing `extract` answers: the lifecycle is recorded, then the stash (now
/// applied in the new worktree) is dropped; either failure leaves the extract applied and
/// asks for recovery.
pub open spec fn extract_finalized_ok(
    applied: ExtractGitApplied,
    record: Result<(), CliError>,
    drop: Result<(), CliError>,
    result: Result<ExtractResult, CliError>,
) -> bool {
    match record {
        Err(e) => result matches Err(out) && finalize_failed(e, applied, seq!["apply"@], record_failure_entries(applied), out),
        Ok(_) => match applied.stash_oid {
            None => result == Ok::<ExtractResult, CliError>(
                ExtractResult { branch: applied.plan.branch, path: applied.target_path, stash_oid: None },
            ),
            Some(o) => stash_dropped(applied.plan.repo_root@, o@, drop) && match drop {
                Err(e) => result matches Err(out) && finalize_failed(
                    e,
                    applied,
                    seq!["apply"@, "persistLifecycle"@],
                    Seq::empty(),
                    out,
                ),
                Ok(_) => result == Ok::<ExtractResult, CliError>(
                    ExtractResult { branch: applied.plan.branch, path: applied.target_path, stash_oid: Some(o) },
                ),
            },
        },
    }
}

/// Records the extracted branch's lifecycle and drops the stash that the new worktree now
/// holds.
pub fn finalize_extract_state<G: CreateMutationGit, W: WorktreeFinalization>(
    git: &G,
    work: &W,
    applied: ExtractGitApplied,
) -> (result: Result<ExtractResult, CliError>)
    ensures
        exists|record: Result<(), CliError>, drop: Result<(), CliError>| #[trigger] extract_finalized_ok(applied, record, drop, result),
        exists|record: Result<(), CliError>, drop: Result<(), CliError>|
            #[trigger] extract_finalized_ok(applied, record, drop, result)
                && work.record_answer(applied.plan.repo_root@, applied.plan.branch@, applied.plan.base_branch@, record)
                && (record is Ok && applied.stash_oid is Some ==> stash_drop_reported(
                    git,
                    applied.plan.repo_root@,
                    applied.stash_oid->Some_0@,
                    drop,
                )),
{
    let ghost a = applied;
    let ghost unasked: Result<(), CliError> = Ok(());
    let record = work.merge_lifecycle_observation(
        applied.plan.repo_root.as_str(),
        applied.plan.branch.as_str(),
        applied.plan.base_branch.as_str(),
    );
    let ghost rc = record;
    if let Err(error) = record {
        let mut completed: Vec<String> = Vec::new();
        completed.push("apply".to_owned());
        assert(completed@.map_values(|c: String| c@) =~= seq!["apply"@]);
        let result = Err(mark_finalize_failure(error, &applied, completed, true));
        assert(extract_finalized_ok(a, rc, unasked, result));
        return result;
    }
    match &applied.stash_oid {
        None => {},
        Some(oid) => {
            let drop = drop_stash_by_oid(git, applied.plan.repo_root.as_str(), oid.as_str());
            let ghost dr = drop;
            if let Err(error) = drop {
                let mut completed: Vec<String> = Vec::new();
                completed.push("apply".to_owned());
                completed.push("persistLifecycle".to_owned());
                assert(completed@.map_values(|c: String| c@) =~= seq!["apply"@, "persistLifecycle"@]);
                let result = Err(mark_finalize_failure(error, &applied, completed, false));
                assert(extract_finalized_ok(a, rc, dr, result));
                return result;
            }
            let result = Ok(ExtractResult { branch: applied.plan.branch, path: applied.target_path, stash_oid: applied.stash_oid });
            assert(extract_finalized_ok(a, rc, dr, result));
            return result;
        },
    }
    let result = Ok(ExtractResult { branch: applied.plan.branch, path: applied.target_path, stash_oid: applied.stash_oid });
    assert(extract_finalized_ok(a, rc, unasked, result));
    result
}

} // verus!
