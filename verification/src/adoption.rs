//! Carrying out `adopt`: each candidate worktree is checked again and moved under the
//! managed root with `git worktree move`; a candidate that fails is reported and the others
//! go on.

use vstd::prelude::*;

use crate::create::{
    attachment_revalidation, attachment_revalidation_reported, is_target_changed, revalidate_existing_attachment, target_reported,
    target_resolution, TargetFilesystem,
};
use crate::git::args_view;
use crate::error::{code_name, object_view, CliError, DetailValue, DetailView, ErrorCode, ExecutionPhase, ExecutionReport, ExecutionState};
use crate::finalize::base_recovery;
use crate::mapping::text_view;
use crate::plans::{AdoptCandidate, AdoptPlan, AdoptSkipped};
use crate::probes::{push_arg, CreateMutationGit};
use crate::process::ProcessOutput;
use crate::text::str_eq;

verus! {

/// A candidate that could not be adopted, with its error.
#[derive(Debug, PartialEq, Eq)]
pub struct AdoptFailed {
    pub branch: String,
    pub from_path: String,
    pub to_path: String,
    pub code: String,
    pub message: String,
    pub details: Vec<(String, DetailValue)>,
    pub execution: ExecutionReport,
}

/// What `adopt` did.
#[derive(Debug, PartialEq, Eq)]
pub struct AdoptResult {
    pub dry_run: bool,
    pub managed_worktree_root: String,
    pub candidates: Vec<AdoptCandidate>,
    pub moved: Vec<AdoptCandidate>,
    pub skipped: Vec<AdoptSkipped>,
    pub failed: Vec<AdoptFailed>,
}

impl AdoptResult {
    pub fn has_failures(&self) -> (failures: bool)
        ensures
            failures == (self.failed@.len() > 0),
    {
        self.failed.len() > 0
    }
}

/// The error for a target that appeared after preflight.
pub open spec fn is_target_not_empty(error: CliError, path: Seq<char>) -> bool {
    &&& error.code == ErrorCode::TargetPathNotEmpty
    &&& error.message@ == "target path is not empty: "@ + path
    &&& error.execution is None
    &&& object_view(error.details@) == seq![("path"@, text_view(path))]
}

/// The target must resolve to the planned path and still be absent.
pub open spec fn absent_target_ok(
    expected: Seq<char>,
    target: Result<String, CliError>,
    exists: Result<bool, CliError>,
    result: Result<String, CliError>,
) -> bool {
    match target {
        Err(e) => result == Err::<String, CliError>(e),
        Ok(t) => if t@ != expected {
            result matches Err(e) && is_target_changed(e, expected, t@)
        } else {
            match exists {
                Err(e) => result == Err::<String, CliError>(e),
                Ok(true) => result matches Err(e) && is_target_not_empty(e, t@),
                Ok(false) => result matches Ok(p) && p@ == expected,
            }
        },
    }
}

pub open spec fn absent_revalidation(expected: Seq<char>, result: Result<String, CliError>) -> bool {
    exists|target: Result<String, CliError>, exists: Result<bool, CliError>|
        #[trigger] absent_target_ok(expected, target, exists, result)
}

/// `result` is what the absent-target revalidation makes of what the file system may answer:
/// the branch's target resolved again and, when it is the expected one, whether it exists.
pub open spec fn absent_reported<F: TargetFilesystem>(fs: &F, managed_root: Seq<char>, branch: Seq<char>, expected: Seq<char>, result: Result<String, CliError>) -> bool {
    exists|target: Result<String, CliError>, exists: Result<bool, CliError>|
        #[trigger] absent_target_ok(expected, target, exists, result) && target_resolution(managed_root, branch, target)
            && target_reported(fs, managed_root, branch, target)
            && (target matches Ok(t) && t@ == expected ==> fs.exists_answer(expected, exists))
}

/// Resolves the branch's target again and checks that it is the planned one and still
/// absent.
pub fn revalidate_absent_target<F: TargetFilesystem>(fs: &F, managed_root: &str, branch: &str, expected_path: &str) -> (result: Result<String, CliError>)
    ensures
        absent_revalidation(expected_path@, result),
        absent_reported(fs, managed_root@, branch@, expected_path@, result),
{
    let ghost unasked: Result<bool, CliError> = Ok(false);
    let target = crate::create::resolve_target(fs, managed_root, branch);
    let ghost t = target;
    let path = match target {
        Ok(path) => path,
        Err(error) => {
            let result: Result<String, CliError> = Err(error);
            assert(absent_target_ok(expected_path@, t, unasked, result));
            assert(target_resolution(managed_root@, branch@, t) && target_reported(fs, managed_root@, branch@, t));
            return result;
        },
    };
    if !str_eq(path.as_str(), expected_path) {
        let mut error = CliError::new(ErrorCode::PathOutsideRepo, "managed worktree target changed after preflight");
        assert(object_view(error.details@) == Seq::<(Seq<char>, DetailView)>::empty());
        let ghost es = seq![("actualPath"@, DetailView::Text(path@)), ("expectedPath"@, DetailView::Text(expected_path@))];
        crate::placement::text_entry(&mut error, "actualPath", path.as_str());
        crate::placement::text_entry(&mut error, "expectedPath", expected_path);
        proof {
            reveal_strlit("actualPath");
            reveal_strlit("expectedPath");
            assert(es[0].0 != es[1].0) by { assert(es[0].0[0] != es[1].0[0]); }
            crate::placement::lemma_view_insert_new(Seq::empty(), es[0].0, es[0].1);
            assert(Seq::<(Seq<char>, DetailView)>::empty().push(es[0]) =~= seq![es[0]]);
            crate::placement::lemma_view_insert_new(seq![es[0]], es[1].0, es[1].1);
            assert(seq![es[0]].push(es[1]) =~= es);
        }
        let result: Result<String, CliError> = Err(error);
        assert(absent_target_ok(expected_path@, t, unasked, result));
        assert(target_resolution(managed_root@, branch@, t) && target_reported(fs, managed_root@, branch@, t));
        return result;
    }
    let exists = fs.path_exists(path.as_str());
    let ghost x = exists;
    let result: Result<String, CliError> = match exists {
        Err(error) => Err(error),
        Ok(true) => {
            let mut message = String::from_str("target path is not empty: ");
            message.append(path.as_str());
            let mut error = CliError::new(ErrorCode::TargetPathNotEmpty, message.as_str());
            assert(object_view(error.details@) == Seq::<(Seq<char>, DetailView)>::empty());
            crate::placement::text_entry(&mut error, "path", path.as_str());
            proof {
                crate::placement::lemma_view_insert_new(Seq::empty(), "path"@, text_view(path@));
                assert(Seq::<(Seq<char>, DetailView)>::empty().push(("path"@, text_view(path@))) =~= seq![("path"@, text_view(path@))]);
            }
            Err(error)
        },
        Ok(false) => Ok(path),
    };
    assert(absent_target_ok(expected_path@, t, x, result));
    assert(target_resolution(managed_root@, branch@, t) && target_reported(fs, managed_root@, branch@, t));
    assert(fs.exists_answer(expected_path@, x));
    result
}

/// `out` is `e` marked as raised in preflight, before anything started.
pub open spec fn marked_at(e: CliError, phase: ExecutionPhase, state: ExecutionState, out: CliError) -> bool {
    &&& out.code == e.code
    &&& out.message == e.message
    &&& out.details == e.details
    &&& out.execution matches Some(x) && x.phase == phase && x.state == state && x.completed@.len() == 0
        && object_view(x.recovery@) == base_recovery(e.execution)
}

/// Marks an error with the phase and state it was raised in, and no completed steps.
pub fn at_phase(error: CliError, phase: ExecutionPhase, state: ExecutionState) -> (out: CliError)
    ensures
        marked_at(error, phase, state, out),
{
    let mut out = error;
    let recovery = match out.execution.take() {
        Some(x) => x.recovery,
        None => Vec::new(),
    };
    out.execution = Some(ExecutionReport { phase, state, completed: Vec::new(), recovery });
    out
}

pub open spec fn worktree_move_args(from: Seq<char>, to: Seq<char>) -> Seq<Seq<char>> {
    seq!["worktree"@, "move"@, from, to]
}

/// What moving one candidate answers: its attachment and its target are checked again
/// (failures there are marked as preflight errors), then the target's parent is created and
/// the worktree moved.
pub open spec fn candidate_move_ok(
    candidate: AdoptCandidate,
    attach: Result<(), CliError>,
    target: Result<String, CliError>,
    parent: Result<(), CliError>,
    moved: Result<ProcessOutput, CliError>,
    result: Result<(), CliError>,
) -> bool {
    attachment_revalidation(candidate.branch@, candidate.from_path@, attach) && match attach {
        Err(e) => result matches Err(out) && marked_at(e, ExecutionPhase::Preflight, ExecutionState::NotStarted, out),
        Ok(_) => absent_revalidation(candidate.to_path@, target) && match target {
            Err(e) => result matches Err(out) && marked_at(e, ExecutionPhase::Preflight, ExecutionState::NotStarted, out),
            Ok(_) => match parent {
                Err(e) => result == Err::<(), CliError>(e),
                Ok(_) => match moved {
                    Err(e) => result == Err::<(), CliError>(e),
                    Ok(_) => result is Ok,
                },
            },
        },
    }
}

pub open spec fn candidate_moved(candidate: AdoptCandidate, result: Result<(), CliError>) -> bool {
    exists|
        attach: Result<(), CliError>,
        target: Result<String, CliError>,
        parent: Result<(), CliError>,
        moved: Result<ProcessOutput, CliError>,
    | #[trigger] candidate_move_ok(candidate, attach, target, parent, moved, result)
}

/// The answers behind moving one candidate are answers Git and the file system may give, each
/// asked only after the ones before allowed it: the attachment revalidation, the
/// absent-target revalidation, the target's parent and `git worktree move <from> <to>`.
pub open spec fn candidate_move_reported<G: CreateMutationGit, F: TargetFilesystem>(
    git: &G,
    fs: &F,
    repo_root: Seq<char>,
    managed_root: Seq<char>,
    candidate: AdoptCandidate,
    result: Result<(), CliError>,
) -> bool {
    exists|
        attach: Result<(), CliError>,
        target: Result<String, CliError>,
        parent: Result<(), CliError>,
        moved: Result<ProcessOutput, CliError>,
    |
        #[trigger] candidate_move_ok(candidate, attach, target, parent, moved, result)
            && attachment_revalidation_reported(git, fs, repo_root, candidate.branch@, candidate.from_path@, attach)
            && (attach is Ok ==> absent_reported(fs, managed_root, candidate.branch@, candidate.to_path@, target))
            && (attach is Ok && target is Ok ==> fs.parent_answer(candidate.to_path@, parent))
            && (attach is Ok && target is Ok && parent is Ok ==> git.checked_answers(
                repo_root,
                worktree_move_args(candidate.from_path@, candidate.to_path@),
                moved,
            ))
}

/// Moves one candidate worktree under the managed root.
pub fn apply_adopt_candidate<G: CreateMutationGit, F: TargetFilesystem>(
    git: &G,
    fs: &F,
    repo_root: &str,
    managed_worktree_root: &str,
    candidate: &AdoptCandidate,
) -> (result: Result<(), CliError>)
    ensures
        candidate_moved(*candidate, result),
        candidate_move_reported(git, fs, repo_root@, managed_worktree_root@, *candidate, result),
{
    let ghost no_target: Result<String, CliError> = Ok(arbitrary());
    let ghost unasked: Result<(), CliError> = Ok(());
    let ghost unrun: Result<ProcessOutput, CliError> = Err(arbitrary());
    let attach = revalidate_existing_attachment(git, fs, repo_root, candidate.branch.as_str(), candidate.from_path.as_str());
    let ghost a = attach;
    if let Err(error) = attach {
        let result = Err(at_phase(error, ExecutionPhase::Preflight, ExecutionState::NotStarted));
        assert(candidate_move_ok(*candidate, a, no_target, unasked, unrun, result));
        assert(candidate_move_ok(*candidate, a, no_target, unasked, unrun, result) && attachment_revalidation_reported(git, fs, repo_root@, candidate.branch@, candidate.from_path@, a));
        return result;
    }
    let target = revalidate_absent_target(fs, managed_worktree_root, candidate.branch.as_str(), candidate.to_path.as_str());
    let ghost t = target;
    let target = match target {
        Err(error) => {
            let result = Err(at_phase(error, ExecutionPhase::Preflight, ExecutionState::NotStarted));
            assert(candidate_move_ok(*candidate, a, t, unasked, unrun, result));
            assert(candidate_move_ok(*candidate, a, t, unasked, unrun, result) && attachment_revalidation_reported(git, fs, repo_root@, candidate.branch@, candidate.from_path@, a));
            return result;
        },
        Ok(path) => path,
    };
    let parent = fs.create_parent(target.as_str());
    let ghost p = parent;
    if let Err(error) = parent {
        let result = Err(error);
        assert(candidate_move_ok(*candidate, a, t, p, unrun, result));
        assert(candidate_move_ok(*candidate, a, t, p, unrun, result) && attachment_revalidation_reported(git, fs, repo_root@, candidate.branch@, candidate.from_path@, a));
        return result;
    }
    let mut args: Vec<String> = Vec::new();
    assert(args_view(args@) =~= Seq::<Seq<char>>::empty());
    push_arg(&mut args, "worktree");
    push_arg(&mut args, "move");
    push_arg(&mut args, candidate.from_path.as_str());
    push_arg(&mut args, target.as_str());
    assert(args_view(args@) =~= worktree_move_args(candidate.from_path@, candidate.to_path@));
    let moved = git.run_git_checked(repo_root, &args);
    let ghost m = moved;
    let result = match moved {
        Err(error) => Err(error),
        Ok(_) => Ok(()),
    };
    assert(candidate_move_ok(*candidate, a, t, p, m, result));
    assert(candidate_move_ok(*candidate, a, t, p, m, result) && attachment_revalidation_reported(git, fs, repo_root@, candidate.branch@, candidate.from_path@, a));
    result
}

/// The candidates whose move worked, in order.
pub open spec fn moved_of(candidates: Seq<AdoptCandidate>, outcomes: Seq<Result<(), CliError>>) -> Seq<AdoptCandidate>
    decreases candidates.len(),
{
    if candidates.len() == 0 || outcomes.len() == 0 {
        Seq::empty()
    } else {
        let earlier = moved_of(candidates.drop_last(), outcomes.drop_last());
        if outcomes.last() is Ok {
            earlier.push(candidates.last())
        } else {
            earlier
        }
    }
}

/// The candidates whose move failed, with their errors, in order.
pub open spec fn failures_of(candidates: Seq<AdoptCandidate>, outcomes: Seq<Result<(), CliError>>) -> Seq<(AdoptCandidate, CliError)>
    decreases candidates.len(),
{
    if candidates.len() == 0 || outcomes.len() == 0 {
        Seq::empty()
    } else {
        let earlier = failures_of(candidates.drop_last(), outcomes.drop_last());
        match outcomes.last() {
            Err(e) => earlier.push((candidates.last(), e)),
            Ok(_) => earlier,
        }
    }
}

/// The record of a failed candidate: the candidate, and its error marked as raised in the
/// apply step with an unknown outcome.
pub open spec fn failed_entry(candidate: AdoptCandidate, e: CliError, f: AdoptFailed) -> bool {
    &&& f.branch == candidate.branch
    &&& f.from_path == candidate.from_path
    &&& f.to_path == candidate.to_path
    &&& f.code@ == code_name(e.code)
    &&& f.message == e.message
    &&& f.details == e.details
    &&& f.execution.phase == ExecutionPhase::Apply
    &&& f.execution.state == ExecutionState::Unknown
    &&& f.execution.completed@.len() == 0
    &&& object_view(f.execution.recovery@) == base_recovery(e.execution)
}

/// What `adopt` reports: a dry run moves nothing; otherwise every candidate is tried in
/// order, and each one is either moved or failed.
pub open spec fn adopt_applied(plan: AdoptPlan, outcomes: Seq<Result<(), CliError>>, result: AdoptResult) -> bool {
    &&& result.dry_run == plan.dry_run
    &&& result.managed_worktree_root == plan.managed_worktree_root
    &&& result.candidates@ == plan.candidates@
    &&& result.skipped@ == plan.skipped@
    &&& if plan.dry_run {
        result.moved@.len() == 0 && result.failed@.len() == 0
    } else {
        &&& outcomes.len() == plan.candidates@.len()
        &&& forall|i: int| 0 <= i < outcomes.len() ==> candidate_moved(plan.candidates@[i], #[trigger] outcomes[i])
        &&& result.moved@ == moved_of(plan.candidates@, outcomes)
        &&& result.failed@.len() == failures_of(plan.candidates@, outcomes).len()
        &&& forall|i: int| 0 <= i < result.failed@.len() ==> failed_entry(
            #[trigger] failures_of(plan.candidates@, outcomes)[i].0,
            failures_of(plan.candidates@, outcomes)[i].1,
            result.failed@[i],
        )
    }
}

fn copy_candidate(c: &AdoptCandidate) -> (copy: AdoptCandidate)
    ensures
        copy == *c,
{
    AdoptCandidate { branch: c.branch.clone(), from_path: c.from_path.clone(), to_path: c.to_path.clone() }
}

fn copy_candidates(cs: &Vec<AdoptCandidate>) -> (copy: Vec<AdoptCandidate>)
    ensures
        copy@ == cs@,
{
    let mut out: Vec<AdoptCandidate> = Vec::new();
    let mut i: usize = 0;
    while i < cs.len()
        invariant
            i <= cs@.len(),
            out@ == cs@.take(i as int),
        decreases cs.len() - i,
    {
        out.push(copy_candidate(&cs[i]));
        assert(cs@.take(i + 1) =~= cs@.take(i as int).push(cs@[i as int]));
        i = i + 1;
    }
    assert(cs@.take(cs@.len() as int) =~= cs@);
    out
}

fn copy_skipped(ss: &Vec<AdoptSkipped>) -> (copy: Vec<AdoptSkipped>)
    ensures
        copy@ == ss@,
{
    let mut out: Vec<AdoptSkipped> = Vec::new();
    let mut i: usize = 0;
    while i < ss.len()
        invariant
            i <= ss@.len(),
            out@ == ss@.take(i as int),
        decreases ss.len() - i,
    {
        let s = &ss[i];
        let branch = match &s.branch {
            Some(b) => Some(b.clone()),
            None => None,
        };
        let to_path = match &s.to_path {
            Some(t) => Some(t.clone()),
            None => None,
        };
        out.push(AdoptSkipped { branch, from_path: s.from_path.clone(), to_path, reason: s.reason });
        assert(ss@.take(i + 1) =~= ss@.take(i as int).push(ss@[i as int]));
        i = i + 1;
    }
    assert(ss@.take(ss@.len() as int) =~= ss@);
    out
}

/// Carries out `adopt`: a dry run reports the candidates; otherwise each candidate is moved
/// in turn, and the ones that fail are reported with their errors.
pub fn apply_adopt<G: CreateMutationGit, F: TargetFilesystem>(git: &G, fs: &F, plan: &AdoptPlan) -> (result: AdoptResult)
    ensures
        exists|outcomes: Seq<Result<(), CliError>>| #[trigger] adopt_applied(*plan, outcomes, result),
        exists|outcomes: Seq<Result<(), CliError>>|
            #[trigger] adopt_applied(*plan, outcomes, result) && forall|i: int|
                0 <= i < outcomes.len() ==> #[trigger] candidate_move_reported(
                    git,
                    fs,
                    plan.repo_root@,
                    plan.managed_worktree_root@,
                    plan.candidates@[i],
                    outcomes[i],
                ),
{
    let candidates = copy_candidates(&plan.candidates);
    let skipped = copy_skipped(&plan.skipped);
    if plan.dry_run {
        let result = AdoptResult {
            dry_run: true,
            managed_worktree_root: plan.managed_worktree_root.clone(),
            candidates,
            moved: Vec::new(),
            skipped,
            failed: Vec::new(),
        };
        assert(adopt_applied(*plan, Seq::empty(), result));
        return result;
    }
    let mut moved: Vec<AdoptCandidate> = Vec::new();
    let mut failed: Vec<AdoptFailed> = Vec::new();
    let ghost mut outcomes: Seq<Result<(), CliError>> = Seq::empty();
    let mut i: usize = 0;
    while i < plan.candidates.len()
        invariant
            i <= plan.candidates@.len(),
            outcomes.len() == i,
            forall|j: int| 0 <= j < i ==> candidate_moved(plan.candidates@[j], #[trigger] outcomes[j]),
            forall|j: int| 0 <= j < i ==> #[trigger] candidate_move_reported(
                git,
                fs,
                plan.repo_root@,
                plan.managed_worktree_root@,
                plan.candidates@[j],
                outcomes[j],
            ),
            moved@ == moved_of(plan.candidates@.take(i as int), outcomes),
            failed@.len() == failures_of(plan.candidates@.take(i as int), outcomes).len(),
            forall|j: int| 0 <= j < failed@.len() ==> failed_entry(
                #[trigger] failures_of(plan.candidates@.take(i as int), outcomes)[j].0,
                failures_of(plan.candidates@.take(i as int), outcomes)[j].1,
                failed@[j],
            ),
        decreases plan.candidates.len() - i,
    {
        let candidate = &plan.candidates[i];
        let outcome = apply_adopt_candidate(git, fs, plan.repo_root.as_str(), plan.managed_worktree_root.as_str(), candidate);
        let ghost before = outcomes;
        let ghost prefix = plan.candidates@.take(i as int);
        let ghost next = plan.candidates@.take(i + 1);
        proof {
            outcomes = outcomes.push(outcome);
            assert(next.drop_last() =~= prefix);
            assert(next.last() == plan.candidates@[i as int]);
            assert(outcomes.drop_last() =~= before);
        }
        match outcome {
            Ok(()) => {
                moved.push(copy_candidate(candidate));
            },
            Err(error) => {
                let marked = at_phase(error, ExecutionPhase::Apply, ExecutionState::Unknown);
                let execution = match marked.execution {
                    Some(x) => x,
                    None => ExecutionReport {
                        phase: ExecutionPhase::Apply,
                        state: ExecutionState::Unknown,
                        completed: Vec::new(),
                        recovery: Vec::new(),
                    },
                };
                let entry = AdoptFailed {
                    branch: candidate.branch.clone(),
                    from_path: candidate.from_path.clone(),
                    to_path: candidate.to_path.clone(),
                    code: marked.code.as_str().to_owned(),
                    message: marked.message,
                    details: marked.details,
                    execution,
                };
                failed.push(entry);
            },
        }
        i = i + 1;
    }
    assert(plan.candidates@.take(plan.candidates@.len() as int) =~= plan.candidates@);
    let result = AdoptResult {
        dry_run: false,
        managed_worktree_root: plan.managed_worktree_root.clone(),
        candidates,
        moved,
        skipped,
        failed,
    };
    assert(adopt_applied(*plan, outcomes, result));
    result
}

} // verus!
