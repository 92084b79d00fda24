//! `mv`, `extract` and `use`: the preflight that decides, from the repository snapshot and a
//! few Git probes, whether the current or primary worktree may be renamed, extracted or
//! switched, and the Git step of `use`.
//!
//! The lifecycle and rename metadata these commands also keep live on disk and are read or
//! prepared around these functions, not in them.

use vstd::prelude::*;

use crate::create::{target_reported, target_resolution, TargetFilesystem};
use crate::error::{object_view, CliError, DetailValue, DetailView, ErrorCode};
use crate::git::args_view;
use crate::locks::ensure_non_empty_branch;
use crate::paths::{join_path, join_path_spec, paths_equal, same_path};
use crate::plans::{
    opt_text, ExtractPlan, MvApplyPlan, MvPlan, MvResult, UseInvocation, UseOptions, UsePlan, UseResult,
    UseSharing,
};
use crate::probes::{
    check_ref_format_args, git_output_error, is_git_output_error, probe_answer, probe_ok, push_arg, show_ref_args, CreateMutationGit,
};
use crate::process::ProcessOutput;
use crate::text::{str_eq, trim_spec, trim_str, utf8_lossy, utf8_lossy_string};

verus! {

/// A worktree as the repository snapshot lists it, with what `mv`, `extract` and `use` read.
#[derive(Clone, Debug, PartialEq, Eq)]
pub struct SnapshotWorktree {
    pub path: String,
    pub branch: Option<String>,
    pub dirty: bool,
}

/// An error with the given code, message and details, in order, and no execution report.
pub open spec fn is_error(error: CliError, code: ErrorCode, message: Seq<char>, details: Seq<(Seq<char>, DetailView)>) -> bool {
    &&& error.code == code
    &&& error.message@ == message
    &&& error.execution is None
    &&& object_view(error.details@) == details
}

fn error_with_text(code: ErrorCode, message: String, key: &str, value: &str) -> (error: CliError)
    ensures
        is_error(error, code, message@, seq![(key@, DetailView::Text(value@))]),
{
    let mut details: Vec<(String, DetailValue)> = Vec::new();
    details.push((key.to_owned(), DetailValue::Text(value.to_owned())));
    proof {
        crate::error::lemma_object_view_index(details@);
        assert(object_view(details@) =~= seq![(key@, DetailView::Text(value@))]);
    }
    CliError { code, message, details, execution: None }
}

fn error_with_texts(code: ErrorCode, message: String, first: (&str, &str), second: (&str, &str)) -> (error: CliError)
    ensures
        is_error(
            error,
            code,
            message@,
            seq![(first.0@, DetailView::Text(first.1@)), (second.0@, DetailView::Text(second.1@))],
        ),
{
    let mut details: Vec<(String, DetailValue)> = Vec::new();
    details.push((first.0.to_owned(), DetailValue::Text(first.1.to_owned())));
    details.push((second.0.to_owned(), DetailValue::Text(second.1.to_owned())));
    proof {
        crate::error::lemma_object_view_index(details@);
        assert(object_view(details@) =~= seq![
            (first.0@, DetailView::Text(first.1@)),
            (second.0@, DetailView::Text(second.1@)),
        ]);
    }
    CliError { code, message, details, execution: None }
}

fn text_of(prefix: &str, value: &str) -> (text: String)
    ensures
        text@ == prefix@ + value@,
{
    let mut text = prefix.to_owned();
    text.append(value);
    text
}

// ----- the snapshot -----

/// The first listed worktree at `path`.
pub open spec fn first_at(ws: Seq<SnapshotWorktree>, path: Seq<char>) -> Option<SnapshotWorktree>
    decreases ws.len(),
{
    if ws.len() == 0 {
        None
    } else if same_path(ws[0].path@, path) {
        Some(ws[0])
    } else {
        first_at(ws.drop_first(), path)
    }
}

/// The first listed worktree, other than the one at `primary`, that has `branch` checked out.
pub open spec fn first_other_on(ws: Seq<SnapshotWorktree>, branch: Seq<char>, primary: Seq<char>) -> Option<SnapshotWorktree>
    decreases ws.len(),
{
    if ws.len() == 0 {
        None
    } else if opt_text(ws[0].branch) == Some(branch) && !same_path(ws[0].path@, primary) {
        Some(ws[0])
    } else {
        first_other_on(ws.drop_first(), branch, primary)
    }
}

/// Whether some listed worktree has `branch` checked out.
pub open spec fn listed_on(ws: Seq<SnapshotWorktree>, branch: Seq<char>) -> bool {
    exists|i: int| 0 <= i < ws.len() && opt_text(#[trigger] ws[i].branch) == Some(branch)
}

pub(crate) fn worktree_at<'a>(ws: &'a [SnapshotWorktree], path: &str) -> (found: Option<&'a SnapshotWorktree>)
    ensures
        match found {
            Some(w) => first_at(ws@, path@) == Some(*w),
            None => first_at(ws@, path@) is None,
        },
{
    let ghost all = ws@;
    let mut i: usize = 0;
    assert(all.skip(0) =~= all);
    while i < ws.len()
        invariant
            i <= all.len(),
            all == ws@,
            first_at(all, path@) == first_at(all.skip(i as int), path@),
        decreases ws.len() - i,
    {
        assert(all.skip(i as int)[0] == all[i as int]);
        if paths_equal(ws[i].path.as_str(), path) {
            return Some(&ws[i]);
        }
        assert(all.skip(i as int).drop_first() =~= all.skip(i + 1));
        i = i + 1;
    }
    None
}

fn other_on<'a>(ws: &'a [SnapshotWorktree], branch: &str, primary: &str) -> (found: Option<&'a SnapshotWorktree>)
    ensures
        match found {
            Some(w) => first_other_on(ws@, branch@, primary@) == Some(*w),
            None => first_other_on(ws@, branch@, primary@) is None,
        },
{
    let ghost all = ws@;
    let mut i: usize = 0;
    assert(all.skip(0) =~= all);
    while i < ws.len()
        invariant
            i <= all.len(),
            all == ws@,
            first_other_on(all, branch@, primary@) == first_other_on(all.skip(i as int), branch@, primary@),
        decreases ws.len() - i,
    {
        assert(all.skip(i as int)[0] == all[i as int]);
        let on_branch = match &ws[i].branch {
            Some(name) => str_eq(name.as_str(), branch),
            None => false,
        };
        if on_branch && !paths_equal(ws[i].path.as_str(), primary) {
            return Some(&ws[i]);
        }
        assert(all.skip(i as int).drop_first() =~= all.skip(i + 1));
        i = i + 1;
    }
    None
}

fn any_on(ws: &[SnapshotWorktree], branch: &str) -> (found: bool)
    ensures
        found == listed_on(ws@, branch@),
{
    let mut i: usize = 0;
    while i < ws.len()
        invariant
            i <= ws@.len(),
            forall|j: int| 0 <= j < i ==> opt_text(#[trigger] ws@[j].branch) != Some(branch@),
        decreases ws.len() - i,
    {
        match &ws[i].branch {
            Some(name) => {
                if str_eq(name.as_str(), branch) {
                    return true;
                }
            },
            None => {},
        }
        i = i + 1;
    }
    false
}

/// The error for a current location that no listed worktree has.
pub open spec fn is_no_current_worktree(error: CliError, current: Seq<char>) -> bool {
    is_error(
        error,
        ErrorCode::WorktreeNotFound,
        "no worktree found for current location"@,
        seq![("currentWorktreeRoot"@, DetailView::Text(current))],
    )
}

fn current_worktree<'a>(ws: &'a [SnapshotWorktree], current: &str) -> (result: Result<&'a SnapshotWorktree, CliError>)
    ensures
        match first_at(ws@, current@) {
            Some(w) => result matches Ok(found) && *found == w,
            None => result matches Err(e) && is_no_current_worktree(e, current@),
        },
{
    match worktree_at(ws, current) {
        Some(found) => Ok(found),
        None => Err(error_with_text(
            ErrorCode::WorktreeNotFound,
            String::from_str("no worktree found for current location"),
            "currentWorktreeRoot",
            current,
        )),
    }
}

// ----- Git probes of the changing commands -----

/// `git check-ref-format --branch` must accept the name in time; otherwise the name is invalid
/// and git's complaint is kept.
pub open spec fn branch_ref_ok(branch: Seq<char>, outcome: Result<ProcessOutput, CliError>, result: Result<(), CliError>) -> bool {
    match outcome {
        Err(e) => result == Err::<(), CliError>(e),
        Ok(o) => if o.exit_code == Some(0i32) && !o.timed_out {
            result is Ok
        } else {
            result matches Err(e) && is_error(
                e,
                ErrorCode::InvalidArgument,
                "invalid branch name: "@ + branch,
                seq![("branch"@, DetailView::Text(branch)), ("stderr"@, DetailView::Text(utf8_lossy(o.stderr@)))],
            )
        },
    }
}

pub open spec fn branch_ref_validation(branch: Seq<char>, result: Result<(), CliError>) -> bool {
    exists|outcome: Result<ProcessOutput, CliError>| #[trigger] branch_ref_ok(branch, outcome, result)
}

pub fn validate_branch_ref<G: CreateMutationGit>(git: &G, repo_root: &str, branch: &str) -> (result: Result<(), CliError>)
    ensures
        branch_ref_validation(branch@, result),
        branch_ref_reported(git, repo_root@, branch@, result),
{
    let mut args: Vec<String> = Vec::new();
    assert(args_view(args@) =~= Seq::<Seq<char>>::empty());
    push_arg(&mut args, "check-ref-format");
    push_arg(&mut args, "--branch");
    push_arg(&mut args, branch);
    assert(args_view(args@) =~= check_ref_format_args(branch@));
    let outcome = git.run_git(repo_root, &args);
    let ghost o = outcome;
    let result = match outcome {
        Err(error) => Err(error),
        Ok(output) => {
            let accepted = match output.exit_code {
                Some(code) => code == 0,
                None => false,
            };
            if accepted && !output.timed_out {
                Ok(())
            } else {
                let stderr = utf8_lossy_string(output.stderr.as_slice());
                Err(error_with_texts(
                    ErrorCode::InvalidArgument,
                    text_of("invalid branch name: ", branch),
                    ("branch", branch),
                    ("stderr", stderr.as_str()),
                ))
            }
        },
    };
    assert(branch_ref_ok(branch@, o, result));
    assert(git.answers(repo_root@, check_ref_format_args(branch@), o));
    result
}

/// `result` is how the branch-name check reads an answer `git` may give to
/// `git check-ref-format --branch <branch>`.
pub open spec fn branch_ref_reported<G: CreateMutationGit>(git: &G, repo_root: Seq<char>, branch: Seq<char>, result: Result<(), CliError>) -> bool {
    exists|outcome: Result<ProcessOutput, CliError>|
        #[trigger] git.answers(repo_root, check_ref_format_args(branch), outcome) && branch_ref_ok(branch, outcome, result)
}

/// The arguments a failed local-branch probe reports.
pub open spec fn show_ref_reported_args() -> Seq<Seq<char>> {
    seq!["show-ref"@, "--verify"@, "--quiet"@]
}

/// What the local-branch probe of the changing commands may answer.
pub open spec fn local_branch_answer(repo_root: Seq<char>, result: Result<bool, CliError>) -> bool {
    exists|outcome: Result<ProcessOutput, CliError>| #[trigger] probe_ok(repo_root, show_ref_reported_args(), outcome, result)
}

/// Whether `refs/heads/<branch>` exists, asked with `git show-ref --verify --quiet`; a failed
/// probe reports its arguments without the ref.
pub fn local_branch_present<G: CreateMutationGit>(git: &G, repo_root: &str, branch: &str) -> (result: Result<bool, CliError>)
    ensures
        local_branch_answer(repo_root@, result),
        present_reported(git, repo_root@, branch@, result),
{
    let mut reported: Vec<String> = Vec::new();
    assert(args_view(reported@) =~= Seq::<Seq<char>>::empty());
    push_arg(&mut reported, "show-ref");
    push_arg(&mut reported, "--verify");
    push_arg(&mut reported, "--quiet");
    assert(args_view(reported@) =~= show_ref_reported_args());
    let mut args = reported.clone();
    let reference = text_of("refs/heads/", branch);
    push_arg(&mut args, reference.as_str());
    assert(args_view(args@) =~= show_ref_args(branch@));
    let outcome = git.run_git(repo_root, &args);
    let ghost o = outcome;
    let result = probe_answer(repo_root, &reported, outcome);
    assert(probe_ok(repo_root@, show_ref_reported_args(), o, result));
    assert(git.answers(repo_root@, show_ref_args(branch@), o));
    result
}

/// `result` is how the local-branch probe reads an answer `git` may give to
/// `git show-ref --verify --quiet refs/heads/<branch>`.
pub open spec fn present_reported<G: CreateMutationGit>(git: &G, repo_root: Seq<char>, branch: Seq<char>, result: Result<bool, CliError>) -> bool {
    exists|outcome: Result<ProcessOutput, CliError>|
        #[trigger] git.answers(repo_root, show_ref_args(branch), outcome) && probe_ok(repo_root, show_ref_reported_args(), outcome, result)
}

/// A checked run: a run that finished in time with status 0 gives its output; any other
/// finished run is a git failure reporting the arguments.
pub open spec fn checked_run_ok(cwd: Seq<char>, args: Seq<Seq<char>>, outcome: Result<ProcessOutput, CliError>, result: Result<ProcessOutput, CliError>) -> bool {
    match outcome {
        Err(e) => result == Err::<ProcessOutput, CliError>(e),
        Ok(o) => if o.exit_code == Some(0i32) && !o.timed_out {
            result == Ok::<ProcessOutput, CliError>(o)
        } else {
            result matches Err(e) && is_git_output_error(e, cwd, args, o)
        },
    }
}

pub open spec fn checked_run(cwd: Seq<char>, args: Seq<Seq<char>>, result: Result<ProcessOutput, CliError>) -> bool {
    exists|outcome: Result<ProcessOutput, CliError>| #[trigger] checked_run_ok(cwd, args, outcome, result)
}

pub(crate) fn run_git_checked<G: CreateMutationGit>(git: &G, cwd: &str, args: &[String]) -> (result: Result<ProcessOutput, CliError>)
    ensures
        checked_run(cwd@, args_view(args@), result),
        checked_run_reported(git, cwd@, args_view(args@), result),
{
    let outcome = git.run_git(cwd, args);
    let ghost o = outcome;
    let result = match outcome {
        Err(error) => Err(error),
        Ok(output) => {
            let zero = match output.exit_code {
                Some(code) => code == 0,
                None => false,
            };
            if zero && !output.timed_out {
                Ok(output)
            } else {
                Err(git_output_error(cwd, args, &output))
            }
        },
    };
    assert(checked_run_ok(cwd@, args_view(args@), o, result));
    assert(git.answers(cwd@, args_view(args@), o));
    result
}

/// `result` is what a checked run makes of an answer `git` may give to `args` in `cwd`.
pub open spec fn checked_run_reported<G: CreateMutationGit>(git: &G, cwd: Seq<char>, args: Seq<Seq<char>>, result: Result<ProcessOutput, CliError>) -> bool {
    exists|outcome: Result<ProcessOutput, CliError>| #[trigger] git.answers(cwd, args, outcome) && checked_run_ok(cwd, args, outcome, result)
}

pub open spec fn status_args() -> Seq<Seq<char>> {
    seq!["status"@, "--porcelain"@]
}

/// A worktree is dirty when `git status --porcelain` prints anything but whitespace.
pub open spec fn dirty_answer(cwd: Seq<char>, result: Result<bool, CliError>) -> bool {
    exists|run: Result<ProcessOutput, CliError>| #[trigger] checked_run(cwd, status_args(), run) && match run {
        Err(e) => result == Err::<bool, CliError>(e),
        Ok(o) => result == Ok::<bool, CliError>(trim_spec(utf8_lossy(o.stdout@)).len() > 0),
    }
}

pub fn git_worktree_dirty<G: CreateMutationGit>(git: &G, cwd: &str) -> (result: Result<bool, CliError>)
    ensures
        dirty_answer(cwd@, result),
        dirty_reported(git, cwd@, result),
{
    let mut args: Vec<String> = Vec::new();
    assert(args_view(args@) =~= Seq::<Seq<char>>::empty());
    push_arg(&mut args, "status");
    push_arg(&mut args, "--porcelain");
    assert(args_view(args@) =~= status_args());
    let run = run_git_checked(git, cwd, &args);
    let ghost r = run;
    let result = match run {
        Err(error) => Err(error),
        Ok(output) => {
            let text = trim_str(utf8_lossy_string(output.stdout.as_slice()).as_str());
            Ok(text.unicode_len() > 0)
        },
    };
    assert(checked_run(cwd@, status_args(), r));
    assert(checked_run_reported(git, cwd@, status_args(), r));
    result
}

/// `result` is what the dirtiness check makes of an answer `git` may give to
/// `git status --porcelain`.
pub open spec fn dirty_reported<G: CreateMutationGit>(git: &G, cwd: Seq<char>, result: Result<bool, CliError>) -> bool {
    exists|run: Result<ProcessOutput, CliError>| #[trigger] checked_run_reported(git, cwd, status_args(), run) && match run {
        Err(e) => result == Err::<bool, CliError>(e),
        Ok(o) => result == Ok::<bool, CliError>(trim_spec(utf8_lossy(o.stdout@)).len() > 0),
    }
}

// ----- managed targets -----

/// A target inside the managed root must validate there and be exactly the managed root
/// joined with the relative path.
pub open spec fn managed_target_ok(
    managed_root: Seq<char>,
    relative: Seq<char>,
    expected: Seq<char>,
    validated: Result<String, CliError>,
    result: Result<(), CliError>,
) -> bool {
    match validated {
        Err(e) => result == Err::<(), CliError>(e),
        Ok(_) => if same_path(join_path_spec(managed_root, relative), expected) {
            result is Ok
        } else {
            result matches Err(e) && is_error(
                e,
                ErrorCode::InvalidArgument,
                "target path does not match the validated managed path"@,
                seq![
                    ("expectedPath"@, DetailView::Text(join_path_spec(managed_root, relative))),
                    ("actualPath"@, DetailView::Text(expected)),
                ],
            )
        },
    }
}

pub open spec fn managed_target_validation(managed_root: Seq<char>, relative: Seq<char>, expected: Seq<char>, result: Result<(), CliError>) -> bool {
    exists|validated: Result<String, CliError>| #[trigger] managed_target_ok(managed_root, relative, expected, validated, result)
}

pub fn validate_managed_target<F: TargetFilesystem>(fs: &F, managed_root: &str, relative: &str, expected: &str) -> (result: Result<(), CliError>)
    ensures
        managed_target_validation(managed_root@, relative@, expected@, result),
        managed_target_reported(fs, managed_root@, relative@, expected@, result),
{
    let validated = crate::create::resolve_target(fs, managed_root, relative);
    let ghost v = validated;
    let result = match validated {
        Err(error) => Err(error),
        Ok(_) => {
            let joined = join_path(managed_root, relative);
            if paths_equal(joined.as_str(), expected) {
                Ok(())
            } else {
                Err(error_with_texts(
                    ErrorCode::InvalidArgument,
                    String::from_str("target path does not match the validated managed path"),
                    ("expectedPath", joined.as_str()),
                    ("actualPath", expected),
                ))
            }
        },
    };
    assert(managed_target_ok(managed_root@, relative@, expected@, v, result));
    assert(target_resolution(managed_root@, relative@, v) && target_reported(fs, managed_root@, relative@, v));
    result
}

/// `result` is what the managed-target validation makes of what the file system may answer
/// about the branch's target.
pub open spec fn managed_target_reported<F: TargetFilesystem>(fs: &F, managed_root: Seq<char>, relative: Seq<char>, expected: Seq<char>, result: Result<(), CliError>) -> bool {
    exists|validated: Result<String, CliError>|
        #[trigger] managed_target_ok(managed_root, relative, expected, validated, result)
            && target_resolution(managed_root, relative, validated)
            && target_reported(fs, managed_root, relative, validated)
}

// ----- mv -----

/// The `mv` preflight, for the answers of the branch-name check, the local-branch probe, the
/// managed-target validation and the emptiness check of the target.
pub open spec fn mv_plan_ok(
    repo_root: Seq<char>,
    current_root: Seq<char>,
    managed_root: Seq<char>,
    ws: Seq<SnapshotWorktree>,
    base_branch: Option<String>,
    new_branch: Seq<char>,
    target_path: Seq<char>,
    validated: Result<(), CliError>,
    exists: Result<bool, CliError>,
    target: Result<(), CliError>,
    empty: Result<(), CliError>,
    result: Result<MvPlan, CliError>,
) -> bool {
    if trim_spec(new_branch).len() == 0 {
        result matches Err(e) && e.code == ErrorCode::InvalidArgument && e.message@ == "branch must be non-empty"@
    } else {
        match first_at(ws, current_root) {
            None => result matches Err(e) && is_no_current_worktree(e, current_root),
            Some(current) => match current.branch {
                None => result matches Err(e) && is_error(
                    e,
                    ErrorCode::DetachedHead,
                    "mv requires a branch checkout (detached HEAD is not supported)"@,
                    seq![("path"@, DetailView::Text(current.path@))],
                ),
                Some(old_branch) => if same_path(current.path@, repo_root) {
                    result matches Err(e) && is_error(
                        e,
                        ErrorCode::InvalidArgument,
                        "mv cannot move the primary worktree"@,
                        seq![("path"@, DetailView::Text(current.path@))],
                    )
                } else if old_branch@ == new_branch {
                    result matches Ok(MvPlan::Noop(r)) && r.branch@ == new_branch && r.path@ == current.path@
                } else {
                    branch_ref_validation(new_branch, validated) && match validated {
                        Err(e) => result == Err::<MvPlan, CliError>(e),
                        Ok(_) => if listed_on(ws, new_branch) {
                            result matches Err(e) && is_error(
                                e,
                                ErrorCode::BranchAlreadyAttached,
                                "branch is already attached to another worktree: "@ + new_branch,
                                seq![("branch"@, DetailView::Text(new_branch))],
                            )
                        } else {
                            local_branch_answer(repo_root, exists) && match exists {
                                Err(e) => result == Err::<MvPlan, CliError>(e),
                                Ok(true) => result matches Err(e) && is_error(
                                    e,
                                    ErrorCode::BranchAlreadyExists,
                                    "branch already exists locally: "@ + new_branch,
                                    seq![("branch"@, DetailView::Text(new_branch))],
                                ),
                                Ok(false) => managed_target_validation(managed_root, new_branch, target_path, target)
                                    && match target {
                                    Err(e) => result == Err::<MvPlan, CliError>(e),
                                    Ok(_) => match empty {
                                        Err(e) => result == Err::<MvPlan, CliError>(e),
                                        Ok(_) => match base_branch {
                                            None => result matches Err(e) && e.code == ErrorCode::InvalidArgument
                                                && e.message@ == "mv requires a resolved base branch before mutation"@
                                                && e.details@.len() == 0 && e.execution is None,
                                            Some(_) => result matches Ok(MvPlan::Apply(p)) && p.old_branch@ == old_branch@
                                                && p.new_branch@ == new_branch && p.current_path@ == current.path@
                                                && p.target_path@ == target_path,
                                        },
                                    },
                                },
                            }
                        },
                    }
                },
            },
        }
    }
}

/// Whether `mv` asks Git whether `new_branch` is a valid name: for a listed current worktree
/// on a branch other than `new_branch`, outside the primary worktree.
pub open spec fn mv_checks_name(repo_root: Seq<char>, current_root: Seq<char>, ws: Seq<SnapshotWorktree>, new_branch: Seq<char>) -> bool {
    &&& trim_spec(new_branch).len() > 0
    &&& first_at(ws, current_root) matches Some(current)
    &&& current.branch matches Some(old_branch)
    &&& !same_path(current.path@, repo_root)
    &&& old_branch@ != new_branch
}

/// The answers behind an `mv` preflight are answers Git and the file system may give: the
/// name check, then (for a branch attached nowhere) the local-branch probe, then the managed
/// target and its emptiness, each asked only after the ones before allowed it.
pub open spec fn mv_answers_reported<G: CreateMutationGit, F: TargetFilesystem>(
    git: &G,
    fs: &F,
    repo_root: Seq<char>,
    current_root: Seq<char>,
    managed_root: Seq<char>,
    ws: Seq<SnapshotWorktree>,
    new_branch: Seq<char>,
    target_path: Seq<char>,
    validated: Result<(), CliError>,
    exists: Result<bool, CliError>,
    target: Result<(), CliError>,
    empty: Result<(), CliError>,
) -> bool {
    let named = mv_checks_name(repo_root, current_root, ws, new_branch);
    let probed = named && validated is Ok && !listed_on(ws, new_branch);
    let absent = probed && exists == Ok::<bool, CliError>(false);
    &&& (named ==> branch_ref_reported(git, repo_root, new_branch, validated))
    &&& (probed ==> present_reported(git, repo_root, new_branch, exists))
    &&& (absent ==> managed_target_reported(fs, managed_root, new_branch, target_path, target))
    &&& (absent && target is Ok ==> fs.empty_answer(target_path, empty))
}

/// Plans `mv` of the current worktree to `new_branch`: the current location must be a listed,
/// non-primary worktree on a branch; renaming to the same branch changes nothing; otherwise
/// the new name must be valid, attached nowhere and absent locally, and its managed target
/// empty. The base branch must be known.
pub fn prepare_mv<G: CreateMutationGit, F: TargetFilesystem>(
    git: &G,
    fs: &F,
    repo_root: &str,
    current_worktree_root: &str,
    managed_root: &str,
    worktrees: &[SnapshotWorktree],
    base_branch: &Option<String>,
    new_branch: &str,
    target_path: &str,
) -> (result: Result<MvPlan, CliError>)
    ensures
        exists|
            validated: Result<(), CliError>,
            exists: Result<bool, CliError>,
            target: Result<(), CliError>,
            empty: Result<(), CliError>,
        |
            #[trigger] mv_plan_ok(
                repo_root@,
                current_worktree_root@,
                managed_root@,
                worktrees@,
                *base_branch,
                new_branch@,
                target_path@,
                validated,
                exists,
                target,
                empty,
                result,
            ),
        exists|
            validated: Result<(), CliError>,
            exists: Result<bool, CliError>,
            target: Result<(), CliError>,
            empty: Result<(), CliError>,
        |
            #[trigger] mv_plan_ok(repo_root@, current_worktree_root@, managed_root@, worktrees@, *base_branch, new_branch@, target_path@,
                validated, exists, target, empty, result)
                && mv_answers_reported(git, fs, repo_root@, current_worktree_root@, managed_root@, worktrees@, new_branch@, target_path@,
                validated, exists, target, empty),
{
    let ghost unused_check: Result<(), CliError> = arbitrary();
    let ghost unused_probe: Result<bool, CliError> = arbitrary();
    let ghost args = (repo_root@, current_worktree_root@, managed_root@, worktrees@, *base_branch, new_branch@, target_path@);
    if let Err(error) = ensure_non_empty_branch(new_branch) {
        let result: Result<MvPlan, CliError> = Err(error);
        assert(mv_plan_ok(args.0, args.1, args.2, args.3, args.4, args.5, args.6, unused_check, unused_probe, unused_check, unused_check, result));
        assert(mv_answers_reported(git, fs, args.0, args.1, args.2, args.3, args.5, args.6, unused_check, unused_probe, unused_check, unused_check));
        return result;
    }
    let current = match current_worktree(worktrees, current_worktree_root) {
        Ok(current) => current,
        Err(error) => {
            let result: Result<MvPlan, CliError> = Err(error);
            assert(mv_plan_ok(args.0, args.1, args.2, args.3, args.4, args.5, args.6, unused_check, unused_probe, unused_check, unused_check, result));
            assert(mv_answers_reported(git, fs, args.0, args.1, args.2, args.3, args.5, args.6, unused_check, unused_probe, unused_check, unused_check));
            return result;
        },
    };
    let old_branch = match &current.branch {
        Some(branch) => branch,
        None => {
            let result: Result<MvPlan, CliError> = Err(error_with_text(
                ErrorCode::DetachedHead,
                String::from_str("mv requires a branch checkout (detached HEAD is not supported)"),
                "path",
                current.path.as_str(),
            ));
            assert(mv_plan_ok(args.0, args.1, args.2, args.3, args.4, args.5, args.6, unused_check, unused_probe, unused_check, unused_check, result));
            assert(mv_answers_reported(git, fs, args.0, args.1, args.2, args.3, args.5, args.6, unused_check, unused_probe, unused_check, unused_check));
            return result;
        },
    };
    if paths_equal(current.path.as_str(), repo_root) {
        let result: Result<MvPlan, CliError> = Err(error_with_text(
            ErrorCode::InvalidArgument,
            String::from_str("mv cannot move the primary worktree"),
            "path",
            current.path.as_str(),
        ));
        assert(mv_plan_ok(args.0, args.1, args.2, args.3, args.4, args.5, args.6, unused_check, unused_probe, unused_check, unused_check, result));
        assert(mv_answers_reported(git, fs, args.0, args.1, args.2, args.3, args.5, args.6, unused_check, unused_probe, unused_check, unused_check));
        return result;
    }
    if str_eq(old_branch.as_str(), new_branch) {
        let result: Result<MvPlan, CliError> = Ok(MvPlan::Noop(MvResult { branch: new_branch.to_owned(), path: current.path.clone(), metadata: None }));
        assert(mv_plan_ok(args.0, args.1, args.2, args.3, args.4, args.5, args.6, unused_check, unused_probe, unused_check, unused_check, result));
        assert(mv_answers_reported(git, fs, args.0, args.1, args.2, args.3, args.5, args.6, unused_check, unused_probe, unused_check, unused_check));
        return result;
    }
    let validated = validate_branch_ref(git, repo_root, new_branch);
    let ghost v = validated;
    if let Err(error) = validated {
        let result: Result<MvPlan, CliError> = Err(error);
        assert(mv_plan_ok(args.0, args.1, args.2, args.3, args.4, args.5, args.6, v, unused_probe, unused_check, unused_check, result));
        assert(mv_answers_reported(git, fs, args.0, args.1, args.2, args.3, args.5, args.6, v, unused_probe, unused_check, unused_check));
        return result;
    }
    if any_on(worktrees, new_branch) {
        let result: Result<MvPlan, CliError> = Err(error_with_text(
            ErrorCode::BranchAlreadyAttached,
            text_of("branch is already attached to another worktree: ", new_branch),
            "branch",
            new_branch,
        ));
        assert(mv_plan_ok(args.0, args.1, args.2, args.3, args.4, args.5, args.6, v, unused_probe, unused_check, unused_check, result));
        assert(mv_answers_reported(git, fs, args.0, args.1, args.2, args.3, args.5, args.6, v, unused_probe, unused_check, unused_check));
        return result;
    }
    let exists = local_branch_present(git, repo_root, new_branch);
    let ghost x = exists;
    match exists {
        Err(error) => {
            let result: Result<MvPlan, CliError> = Err(error);
            assert(mv_plan_ok(args.0, args.1, args.2, args.3, args.4, args.5, args.6, v, x, unused_check, unused_check, result));
            assert(mv_answers_reported(git, fs, args.0, args.1, args.2, args.3, args.5, args.6, v, x, unused_check, unused_check));
            return result;
        },
        Ok(true) => {
            let result: Result<MvPlan, CliError> = Err(error_with_text(
                ErrorCode::BranchAlreadyExists,
                text_of("branch already exists locally: ", new_branch),
                "branch",
                new_branch,
            ));
            assert(mv_plan_ok(args.0, args.1, args.2, args.3, args.4, args.5, args.6, v, x, unused_check, unused_check, result));
            assert(mv_answers_reported(git, fs, args.0, args.1, args.2, args.3, args.5, args.6, v, x, unused_check, unused_check));
            return result;
        },
        Ok(false) => {},
    }
    let target = validate_managed_target(fs, managed_root, new_branch, target_path);
    let ghost t = target;
    if let Err(error) = target {
        let result: Result<MvPlan, CliError> = Err(error);
        assert(mv_plan_ok(args.0, args.1, args.2, args.3, args.4, args.5, args.6, v, x, t, unused_check, result));
        assert(mv_answers_reported(git, fs, args.0, args.1, args.2, args.3, args.5, args.6, v, x, t, unused_check));
        return result;
    }
    let empty = fs.ensure_target_path_empty(target_path);
    let ghost em = empty;
    if let Err(error) = empty {
        let result: Result<MvPlan, CliError> = Err(error);
        assert(mv_plan_ok(args.0, args.1, args.2, args.3, args.4, args.5, args.6, v, x, t, em, result));
        assert(mv_answers_reported(git, fs, args.0, args.1, args.2, args.3, args.5, args.6, v, x, t, em));
        return result;
    }
    let result: Result<MvPlan, CliError> = match base_branch {
        None => Err(CliError::new(ErrorCode::InvalidArgument, "mv requires a resolved base branch before mutation")),
        Some(_) => Ok(MvPlan::Apply(Box::new(MvApplyPlan {
            old_branch: old_branch.clone(),
            new_branch: new_branch.to_owned(),
            current_path: current.path.clone(),
            target_path: target_path.to_owned(),
        }))),
    };
    assert(mv_plan_ok(args.0, args.1, args.2, args.3, args.4, args.5, args.6, v, x, t, em, result));
    assert(mv_answers_reported(git, fs, args.0, args.1, args.2, args.3, args.5, args.6, v, x, t, em));
    result
}

// ----- extract -----

/// The lifecycle record kept for a branch, as far as `extract` reads it.
pub trait LifecycleRecords {
    /// Whether these records may answer `invalid` for `branch`. Records that say nothing of
    /// their answers may give any.
    open spec fn lifecycle_answer(&self, repo_root: Seq<char>, branch: Seq<char>, invalid: Option<(String, String)>) -> bool {
        true
    }

    /// The record's path and why it is invalid, when it is.
    fn invalid_lifecycle(&self, repo_root: &str, branch: &str) -> (invalid: Option<(String, String)>)
        ensures
            self.lifecycle_answer(repo_root@, branch@, invalid),
    ;
}

/// The `extract` preflight, for the answers of the base-branch probe, the managed-target
/// validation, the emptiness check of the target and the lifecycle record.
pub open spec fn extract_plan_ok(
    repo_root: Seq<char>,
    current_root: Seq<char>,
    managed_root: Seq<char>,
    ws: Seq<SnapshotWorktree>,
    base_branch: Seq<char>,
    target_path: Seq<char>,
    allow_stash: bool,
    exists: Result<bool, CliError>,
    target: Result<(), CliError>,
    empty: Result<(), CliError>,
    invalid: Option<(String, String)>,
    result: Result<ExtractPlan, CliError>,
) -> bool {
    if !same_path(current_root, repo_root) {
        result matches Err(e) && is_error(
            e,
            ErrorCode::InvalidArgument,
            "extract currently supports only the primary worktree"@,
            seq![("sourcePath"@, DetailView::Text(current_root))],
        )
    } else {
        match first_at(ws, current_root) {
            None => result matches Err(e) && is_no_current_worktree(e, current_root),
            Some(source) => if !same_path(source.path@, repo_root) {
                result matches Err(e) && is_error(
                    e,
                    ErrorCode::InvalidArgument,
                    "extract currently supports only the primary worktree"@,
                    seq![("sourcePath"@, DetailView::Text(source.path@))],
                )
            } else {
                match source.branch {
                    None => result matches Err(e) && is_error(
                        e,
                        ErrorCode::DetachedHead,
                        "extract requires current branch checkout"@,
                        seq![("path"@, DetailView::Text(source.path@))],
                    ),
                    Some(branch) => if trim_spec(base_branch).len() == 0 {
                        result matches Err(e) && e.code == ErrorCode::InvalidArgument && e.message@ == "branch must be non-empty"@
                    } else if branch@ == base_branch {
                        result matches Err(e) && is_error(
                            e,
                            ErrorCode::InvalidArgument,
                            "extract cannot target the base branch"@,
                            seq![("branch"@, DetailView::Text(branch@)), ("baseBranch"@, DetailView::Text(base_branch))],
                        )
                    } else {
                        local_branch_answer(repo_root, exists) && match exists {
                            Err(e) => result == Err::<ExtractPlan, CliError>(e),
                            Ok(false) => result matches Err(e) && is_error(
                                e,
                                ErrorCode::WorktreeNotFound,
                                "local base branch was not found: "@ + base_branch,
                                seq![("branch"@, DetailView::Text(base_branch))],
                            ),
                            Ok(true) => match first_other_on(ws, base_branch, repo_root) {
                                Some(attached) => result matches Err(e) && is_error(
                                    e,
                                    ErrorCode::BranchInUse,
                                    "base branch '"@ + base_branch + "' is checked out in another worktree"@,
                                    seq![("branch"@, DetailView::Text(base_branch)), ("path"@, DetailView::Text(attached.path@))],
                                ),
                                None => managed_target_validation(managed_root, branch@, target_path, target) && match target {
                                    Err(e) => result == Err::<ExtractPlan, CliError>(e),
                                    Ok(_) => match empty {
                                        Err(e) => result == Err::<ExtractPlan, CliError>(e),
                                        Ok(_) => if source.dirty && !allow_stash {
                                            result matches Err(e) && e.code == ErrorCode::DirtyWorktree && e.message@
                                                == "extract requires clean worktree unless --stash is specified"@
                                                && e.details@.len() == 0 && e.execution is None
                                        } else {
                                            match invalid {
                                                Some((path, reason)) => result matches Err(e) && is_error(
                                                    e,
                                                    ErrorCode::InternalError,
                                                    "extract cannot update invalid lifecycle metadata"@,
                                                    seq![("path"@, DetailView::Text(path@)), ("reason"@, DetailView::Text(reason@))],
                                                ),
                                                None => result matches Ok(plan) && plan.repo_root@ == repo_root
                                                    && plan.managed_root@ == managed_root && plan.branch@ == branch@
                                                    && plan.base_branch@ == base_branch && plan.target_path@ == target_path
                                                    && plan.dirty == source.dirty,
                                            }
                                        },
                                    },
                                },
                            },
                        }
                    },
                }
            },
        }
    }
}

/// Whether `extract` probes the base branch: from the primary worktree, listed and on a
/// branch other than a non-empty base branch.
pub open spec fn extract_probes_base(repo_root: Seq<char>, current_root: Seq<char>, ws: Seq<SnapshotWorktree>, base_branch: Seq<char>) -> bool {
    &&& same_path(current_root, repo_root)
    &&& first_at(ws, current_root) matches Some(source)
    &&& same_path(source.path@, repo_root)
    &&& source.branch matches Some(branch)
    &&& trim_spec(base_branch).len() > 0
    &&& branch@ != base_branch
}

/// The answers behind an `extract` preflight are answers Git, the file system and the
/// lifecycle records may give: the base-branch probe, then (for a base branch present and
/// checked out nowhere else) the managed target and its emptiness, then (for a clean worktree
/// or with `--stash`) the branch's lifecycle record, each asked only after the ones before
/// allowed it.
pub open spec fn extract_answers_reported<G: CreateMutationGit, F: TargetFilesystem, R: LifecycleRecords>(
    git: &G,
    fs: &F,
    records: &R,
    repo_root: Seq<char>,
    current_root: Seq<char>,
    managed_root: Seq<char>,
    ws: Seq<SnapshotWorktree>,
    base_branch: Seq<char>,
    target_path: Seq<char>,
    allow_stash: bool,
    exists: Result<bool, CliError>,
    target: Result<(), CliError>,
    empty: Result<(), CliError>,
    invalid: Option<(String, String)>,
) -> bool {
    let probed = extract_probes_base(repo_root, current_root, ws, base_branch);
    let source = first_at(ws, current_root)->Some_0;
    let branch = source.branch->Some_0@;
    let placed = probed && exists == Ok::<bool, CliError>(true) && first_other_on(ws, base_branch, repo_root) is None;
    let recorded = placed && target is Ok && empty is Ok && !(source.dirty && !allow_stash);
    &&& (probed ==> present_reported(git, repo_root, base_branch, exists))
    &&& (placed ==> managed_target_reported(fs, managed_root, branch, target_path, target))
    &&& (placed && target is Ok ==> fs.empty_answer(target_path, empty))
    &&& (recorded ==> records.lifecycle_answer(repo_root, branch, invalid))
}

/// Plans `extract` of the primary worktree's branch into the managed root: only from the
/// primary worktree, on a branch other than the base; the base branch must exist locally and
/// be checked out nowhere else; the target must validate and be empty; a dirty worktree needs
/// `--stash`; the branch's lifecycle record must not be invalid.
pub fn prepare_extract<G: CreateMutationGit, F: TargetFilesystem, R: LifecycleRecords>(
    git: &G,
    fs: &F,
    records: &R,
    repo_root: &str,
    current_worktree_root: &str,
    managed_root: &str,
    worktrees: &[SnapshotWorktree],
    base_branch: &str,
    target_path: &str,
    allow_stash: bool,
) -> (result: Result<ExtractPlan, CliError>)
    ensures
        exists|
            exists: Result<bool, CliError>,
            target: Result<(), CliError>,
            empty: Result<(), CliError>,
            invalid: Option<(String, String)>,
        |
            #[trigger] extract_plan_ok(
                repo_root@,
                current_worktree_root@,
                managed_root@,
                worktrees@,
                base_branch@,
                target_path@,
                allow_stash,
                exists,
                target,
                empty,
                invalid,
                result,
            ),
        exists|
            exists: Result<bool, CliError>,
            target: Result<(), CliError>,
            empty: Result<(), CliError>,
            invalid: Option<(String, String)>,
        |
            #[trigger] extract_plan_ok(repo_root@, current_worktree_root@, managed_root@, worktrees@, base_branch@, target_path@,
                allow_stash, exists, target, empty, invalid, result)
                && extract_answers_reported(git, fs, records, repo_root@, current_worktree_root@, managed_root@, worktrees@,
                base_branch@, target_path@, allow_stash, exists, target, empty, invalid),
{
    let ghost unused_check: Result<(), CliError> = arbitrary();
    let ghost unused_probe: Result<bool, CliError> = arbitrary();
    let ghost unused_record: Option<(String, String)> = arbitrary();
    let ghost a = (repo_root@, current_worktree_root@, managed_root@, worktrees@, base_branch@, target_path@);
    if !paths_equal(current_worktree_root, repo_root) {
        let result: Result<ExtractPlan, CliError> = Err(error_with_text(
            ErrorCode::InvalidArgument,
            String::from_str("extract currently supports only the primary worktree"),
            "sourcePath",
            current_worktree_root,
        ));
        assert(extract_plan_ok(a.0, a.1, a.2, a.3, a.4, a.5, allow_stash, unused_probe, unused_check, unused_check, unused_record, result));
        assert(extract_answers_reported(git, fs, records, a.0, a.1, a.2, a.3, a.4, a.5, allow_stash, unused_probe, unused_check, unused_check, unused_record));
        return result;
    }
    let source = match current_worktree(worktrees, current_worktree_root) {
        Ok(source) => source,
        Err(error) => {
            let result: Result<ExtractPlan, CliError> = Err(error);
            assert(extract_plan_ok(a.0, a.1, a.2, a.3, a.4, a.5, allow_stash, unused_probe, unused_check, unused_check, unused_record, result));
            assert(extract_answers_reported(git, fs, records, a.0, a.1, a.2, a.3, a.4, a.5, allow_stash, unused_probe, unused_check, unused_check, unused_record));
            return result;
        },
    };
    if !paths_equal(source.path.as_str(), repo_root) {
        let result: Result<ExtractPlan, CliError> = Err(error_with_text(
            ErrorCode::InvalidArgument,
            String::from_str("extract currently supports only the primary worktree"),
            "sourcePath",
            source.path.as_str(),
        ));
        assert(extract_plan_ok(a.0, a.1, a.2, a.3, a.4, a.5, allow_stash, unused_probe, unused_check, unused_check, unused_record, result));
        assert(extract_answers_reported(git, fs, records, a.0, a.1, a.2, a.3, a.4, a.5, allow_stash, unused_probe, unused_check, unused_check, unused_record));
        return result;
    }
    let branch = match &source.branch {
        Some(branch) => branch,
        None => {
            let result: Result<ExtractPlan, CliError> = Err(error_with_text(
                ErrorCode::DetachedHead,
                String::from_str("extract requires current branch checkout"),
                "path",
                source.path.as_str(),
            ));
            assert(extract_plan_ok(a.0, a.1, a.2, a.3, a.4, a.5, allow_stash, unused_probe, unused_check, unused_check, unused_record, result));
            assert(extract_answers_reported(git, fs, records, a.0, a.1, a.2, a.3, a.4, a.5, allow_stash, unused_probe, unused_check, unused_check, unused_record));
            return result;
        },
    };
    if let Err(error) = ensure_non_empty_branch(base_branch) {
        let result: Result<ExtractPlan, CliError> = Err(error);
        assert(extract_plan_ok(a.0, a.1, a.2, a.3, a.4, a.5, allow_stash, unused_probe, unused_check, unused_check, unused_record, result));
        assert(extract_answers_reported(git, fs, records, a.0, a.1, a.2, a.3, a.4, a.5, allow_stash, unused_probe, unused_check, unused_check, unused_record));
        return result;
    }
    if str_eq(branch.as_str(), base_branch) {
        let result: Result<ExtractPlan, CliError> = Err(error_with_texts(
            ErrorCode::InvalidArgument,
            String::from_str("extract cannot target the base branch"),
            ("branch", branch.as_str()),
            ("baseBranch", base_branch),
        ));
        assert(extract_plan_ok(a.0, a.1, a.2, a.3, a.4, a.5, allow_stash, unused_probe, unused_check, unused_check, unused_record, result));
        assert(extract_answers_reported(git, fs, records, a.0, a.1, a.2, a.3, a.4, a.5, allow_stash, unused_probe, unused_check, unused_check, unused_record));
        return result;
    }
    let exists = local_branch_present(git, repo_root, base_branch);
    let ghost x = exists;
    match exists {
        Err(error) => {
            let result: Result<ExtractPlan, CliError> = Err(error);
            assert(extract_plan_ok(a.0, a.1, a.2, a.3, a.4, a.5, allow_stash, x, unused_check, unused_check, unused_record, result));
            assert(extract_answers_reported(git, fs, records, a.0, a.1, a.2, a.3, a.4, a.5, allow_stash, x, unused_check, unused_check, unused_record));
            return result;
        },
        Ok(false) => {
            let result: Result<ExtractPlan, CliError> = Err(error_with_text(
                ErrorCode::WorktreeNotFound,
                text_of("local base branch was not found: ", base_branch),
                "branch",
                base_branch,
            ));
            assert(extract_plan_ok(a.0, a.1, a.2, a.3, a.4, a.5, allow_stash, x, unused_check, unused_check, unused_record, result));
            assert(extract_answers_reported(git, fs, records, a.0, a.1, a.2, a.3, a.4, a.5, allow_stash, x, unused_check, unused_check, unused_record));
            return result;
        },
        Ok(true) => {},
    }
    if let Some(attached) = other_on(worktrees, base_branch, repo_root) {
        let mut message = text_of("base branch '", base_branch);
        message.append("' is checked out in another worktree");
        let result: Result<ExtractPlan, CliError> = Err(error_with_texts(
            ErrorCode::BranchInUse,
            message,
            ("branch", base_branch),
            ("path", attached.path.as_str()),
        ));
        assert(extract_plan_ok(a.0, a.1, a.2, a.3, a.4, a.5, allow_stash, x, unused_check, unused_check, unused_record, result));
        assert(extract_answers_reported(git, fs, records, a.0, a.1, a.2, a.3, a.4, a.5, allow_stash, x, unused_check, unused_check, unused_record));
        return result;
    }
    let target = validate_managed_target(fs, managed_root, branch.as_str(), target_path);
    let ghost t = target;
    if let Err(error) = target {
        let result: Result<ExtractPlan, CliError> = Err(error);
        assert(extract_plan_ok(a.0, a.1, a.2, a.3, a.4, a.5, allow_stash, x, t, unused_check, unused_record, result));
        assert(extract_answers_reported(git, fs, records, a.0, a.1, a.2, a.3, a.4, a.5, allow_stash, x, t, unused_check, unused_record));
        return result;
    }
    let empty = fs.ensure_target_path_empty(target_path);
    let ghost em = empty;
    if let Err(error) = empty {
        let result: Result<ExtractPlan, CliError> = Err(error);
        assert(extract_plan_ok(a.0, a.1, a.2, a.3, a.4, a.5, allow_stash, x, t, em, unused_record, result));
        assert(extract_answers_reported(git, fs, records, a.0, a.1, a.2, a.3, a.4, a.5, allow_stash, x, t, em, unused_record));
        return result;
    }
    if source.dirty && !allow_stash {
        let result: Result<ExtractPlan, CliError> = Err(CliError::new(
            ErrorCode::DirtyWorktree,
            "extract requires clean worktree unless --stash is specified",
        ));
        assert(extract_plan_ok(a.0, a.1, a.2, a.3, a.4, a.5, allow_stash, x, t, em, unused_record, result));
        assert(extract_answers_reported(git, fs, records, a.0, a.1, a.2, a.3, a.4, a.5, allow_stash, x, t, em, unused_record));
        return result;
    }
    let invalid = records.invalid_lifecycle(repo_root, branch.as_str());
    let ghost inv = invalid;
    let result: Result<ExtractPlan, CliError> = match invalid {
        Some((path, reason)) => Err(error_with_texts(
            ErrorCode::InternalError,
            String::from_str("extract cannot update invalid lifecycle metadata"),
            ("path", path.as_str()),
            ("reason", reason.as_str()),
        )),
        None => Ok(ExtractPlan {
            repo_root: repo_root.to_owned(),
            managed_root: managed_root.to_owned(),
            branch: branch.clone(),
            base_branch: base_branch.to_owned(),
            target_path: target_path.to_owned(),
            dirty: source.dirty,
        }),
    };
    assert(extract_plan_ok(a.0, a.1, a.2, a.3, a.4, a.5, allow_stash, x, t, em, inv, result));
    assert(extract_answers_reported(git, fs, records, a.0, a.1, a.2, a.3, a.4, a.5, allow_stash, x, t, em, inv));
    result
}

// ----- use -----

/// The `use` preflight, for the answer of the local-branch probe: a non-interactive run needs
/// both `--allow-agent` and `--allow-unsafe`; the primary worktree must be listed and clean;
/// the branch must exist locally; a branch checked out elsewhere is shared only when sharing
/// is allowed.
pub open spec fn use_plan_ok(
    repo_root: Seq<char>,
    ws: Seq<SnapshotWorktree>,
    branch: Seq<char>,
    options: UseOptions,
    exists: Result<bool, CliError>,
    result: Result<UsePlan, CliError>,
) -> bool {
    if trim_spec(branch).len() == 0 {
        result matches Err(e) && e.code == ErrorCode::InvalidArgument && e.message@ == "branch must be non-empty"@
    } else if options.invocation matches UseInvocation::NonInteractive { allow_agent, .. } && !allow_agent {
        result matches Err(e) && e.code == ErrorCode::UnsafeFlagRequired && e.message@
            == "UNSAFE_FLAG_REQUIRED: use in non-TTY requires --allow-agent"@ && e.details@.len() == 0 && e.execution is None
    } else if options.invocation matches UseInvocation::NonInteractive { allow_unsafe, .. } && !allow_unsafe {
        result matches Err(e) && e.code == ErrorCode::UnsafeFlagRequired && e.message@
            == "UNSAFE_FLAG_REQUIRED: use in non-TTY mode requires --allow-unsafe"@ && e.details@.len() == 0
            && e.execution is None
    } else {
        match first_at(ws, repo_root) {
            None => result matches Err(e) && is_error(
                e,
                ErrorCode::WorktreeNotFound,
                "primary worktree was not found"@,
                seq![("path"@, DetailView::Text(repo_root))],
            ),
            Some(primary) => if primary.dirty {
                result matches Err(e) && is_error(
                    e,
                    ErrorCode::DirtyWorktree,
                    "use requires clean primary worktree"@,
                    seq![("repoRoot"@, DetailView::Text(repo_root))],
                )
            } else {
                local_branch_answer(repo_root, exists) && match exists {
                    Err(e) => result == Err::<UsePlan, CliError>(e),
                    Ok(false) => result matches Err(e) && is_error(
                        e,
                        ErrorCode::WorktreeNotFound,
                        "local branch was not found: "@ + branch,
                        seq![("branch"@, DetailView::Text(branch))],
                    ),
                    Ok(true) => match first_other_on(ws, branch, repo_root) {
                        Some(shared) => if options.sharing == UseSharing::Reject {
                            result matches Err(e) && is_error(
                                e,
                                ErrorCode::BranchInUse,
                                "branch '"@ + branch + "' is already checked out in another worktree"@,
                                seq![("branch"@, DetailView::Text(branch)), ("path"@, DetailView::Text(shared.path@))],
                            )
                        } else {
                            result matches Ok(plan) && plan.repo_root@ == repo_root && plan.branch@ == branch
                                && opt_text(plan.shared_worktree) == Some(shared.path@)
                        },
                        None => result matches Ok(plan) && plan.repo_root@ == repo_root && plan.branch@ == branch
                            && plan.shared_worktree is None,
                    },
                }
            },
        }
    }
}

/// Whether `use` probes the branch: a non-empty branch, the flags a non-interactive run
/// needs, and a listed, clean primary worktree.
pub open spec fn use_probes_branch(repo_root: Seq<char>, ws: Seq<SnapshotWorktree>, branch: Seq<char>, options: UseOptions) -> bool {
    &&& trim_spec(branch).len() > 0
    &&& !(options.invocation matches UseInvocation::NonInteractive { allow_agent, .. } && !allow_agent)
    &&& !(options.invocation matches UseInvocation::NonInteractive { allow_unsafe, .. } && !allow_unsafe)
    &&& first_at(ws, repo_root) matches Some(primary)
    &&& !primary.dirty
}

/// Plans `use`: checking `branch` out in the primary worktree.
pub fn prepare_use<G: CreateMutationGit>(
    git: &G,
    repo_root: &str,
    worktrees: &[SnapshotWorktree],
    branch: &str,
    options: UseOptions,
) -> (result: Result<UsePlan, CliError>)
    ensures
        exists|exists: Result<bool, CliError>| #[trigger] use_plan_ok(repo_root@, worktrees@, branch@, options, exists, result),
        exists|exists: Result<bool, CliError>|
            #[trigger] use_plan_ok(repo_root@, worktrees@, branch@, options, exists, result)
                && (use_probes_branch(repo_root@, worktrees@, branch@, options) ==> present_reported(git, repo_root@, branch@, exists)),
{
    let ghost unused_probe: Result<bool, CliError> = arbitrary();
    if let Err(error) = ensure_non_empty_branch(branch) {
        let result: Result<UsePlan, CliError> = Err(error);
        assert(use_plan_ok(repo_root@, worktrees@, branch@, options, unused_probe, result));
        return result;
    }
    if let UseInvocation::NonInteractive { allow_agent, allow_unsafe } = options.invocation {
        if !allow_agent {
            let result: Result<UsePlan, CliError> = Err(CliError::new(
                ErrorCode::UnsafeFlagRequired,
                "UNSAFE_FLAG_REQUIRED: use in non-TTY requires --allow-agent",
            ));
            assert(use_plan_ok(repo_root@, worktrees@, branch@, options, unused_probe, result));
            return result;
        }
        if !allow_unsafe {
            let result: Result<UsePlan, CliError> = Err(CliError::new(
                ErrorCode::UnsafeFlagRequired,
                "UNSAFE_FLAG_REQUIRED: use in non-TTY mode requires --allow-unsafe",
            ));
            assert(use_plan_ok(repo_root@, worktrees@, branch@, options, unused_probe, result));
            return result;
        }
    }
    let primary = match worktree_at(worktrees, repo_root) {
        Some(primary) => primary,
        None => {
            let result: Result<UsePlan, CliError> = Err(error_with_text(
                ErrorCode::WorktreeNotFound,
                String::from_str("primary worktree was not found"),
                "path",
                repo_root,
            ));
            assert(use_plan_ok(repo_root@, worktrees@, branch@, options, unused_probe, result));
            return result;
        },
    };
    if primary.dirty {
        let result: Result<UsePlan, CliError> = Err(error_with_text(
            ErrorCode::DirtyWorktree,
            String::from_str("use requires clean primary worktree"),
            "repoRoot",
            repo_root,
        ));
        assert(use_plan_ok(repo_root@, worktrees@, branch@, options, unused_probe, result));
        return result;
    }
    let exists = local_branch_present(git, repo_root, branch);
    let ghost x = exists;
    match exists {
        Err(error) => {
            let result: Result<UsePlan, CliError> = Err(error);
            assert(use_plan_ok(repo_root@, worktrees@, branch@, options, x, result));
            return result;
        },
        Ok(false) => {
            let result: Result<UsePlan, CliError> = Err(error_with_text(
                ErrorCode::WorktreeNotFound,
                text_of("local branch was not found: ", branch),
                "branch",
                branch,
            ));
            assert(use_plan_ok(repo_root@, worktrees@, branch@, options, x, result));
            return result;
        },
        Ok(true) => {},
    }
    let result: Result<UsePlan, CliError> = match other_on(worktrees, branch, repo_root) {
        Some(shared) => {
            let reject = match options.sharing {
                UseSharing::Reject => true,
                UseSharing::Allow => false,
            };
            if reject {
                let mut message = text_of("branch '", branch);
                message.append("' is already checked out in another worktree");
                Err(error_with_texts(ErrorCode::BranchInUse, message, ("branch", branch), ("path", shared.path.as_str())))
            } else {
                Ok(UsePlan { repo_root: repo_root.to_owned(), branch: branch.to_owned(), shared_worktree: Some(shared.path.clone()) })
            }
        },
        None => Ok(UsePlan { repo_root: repo_root.to_owned(), branch: branch.to_owned(), shared_worktree: None }),
    };
    assert(use_plan_ok(repo_root@, worktrees@, branch@, options, x, result));
    result
}

/// The arguments of `use`'s checkout: past other worktrees' claims when the branch is shared.
pub open spec fn checkout_args(branch: Seq<char>, shared: bool) -> Seq<Seq<char>> {
    if shared {
        seq!["checkout"@, "--ignore-other-worktrees"@, branch]
    } else {
        seq!["checkout"@, branch]
    }
}

/// `use`'s Git step, for the answers of the dirtiness check, the local-branch probe and the
/// checkout.
pub open spec fn use_apply_ok(
    plan: UsePlan,
    dirty: Result<bool, CliError>,
    exists: Result<bool, CliError>,
    checkout: Result<ProcessOutput, CliError>,
    result: Result<UseResult, CliError>,
) -> bool {
    dirty_answer(plan.repo_root@, dirty) && match dirty {
        Err(e) => result == Err::<UseResult, CliError>(e),
        Ok(true) => result matches Err(e) && is_error(
            e,
            ErrorCode::DirtyWorktree,
            "use requires clean primary worktree"@,
            seq![("repoRoot"@, DetailView::Text(plan.repo_root@))],
        ),
        Ok(false) => local_branch_answer(plan.repo_root@, exists) && match exists {
            Err(e) => result == Err::<UseResult, CliError>(e),
            Ok(false) => result matches Err(e) && is_error(
                e,
                ErrorCode::WorktreeNotFound,
                "local branch was not found: "@ + plan.branch@,
                seq![("branch"@, DetailView::Text(plan.branch@))],
            ),
            Ok(true) => checked_run(plan.repo_root@, checkout_args(plan.branch@, plan.shared_worktree is Some), checkout)
                && match checkout {
                Err(e) => result == Err::<UseResult, CliError>(e),
                Ok(_) => result matches Ok(r) && r.branch@ == plan.branch@ && r.path@ == plan.repo_root@ && r.shared
                    == (plan.shared_worktree is Some),
            },
        },
    }
}

/// The answers behind `use`'s Git step are answers `git` may give: the dirtiness check, then
/// (for a clean worktree) the local-branch probe, then (for a present branch) the checkout,
/// with `--ignore-other-worktrees` when the branch is shared.
pub open spec fn use_apply_answers_reported<G: CreateMutationGit>(
    git: &G,
    plan: UsePlan,
    dirty: Result<bool, CliError>,
    exists: Result<bool, CliError>,
    checkout: Result<ProcessOutput, CliError>,
) -> bool {
    let clean = dirty == Ok::<bool, CliError>(false);
    &&& dirty_reported(git, plan.repo_root@, dirty)
    &&& (clean ==> present_reported(git, plan.repo_root@, plan.branch@, exists))
    &&& (clean && exists == Ok::<bool, CliError>(true) ==> checked_run_reported(
        git,
        plan.repo_root@,
        checkout_args(plan.branch@, plan.shared_worktree is Some),
        checkout,
    ))
}

/// Carries out a `use` plan: the primary worktree must still be clean and the branch still
/// present; then it is checked out there.
pub fn apply_use<G: CreateMutationGit>(git: &G, plan: UsePlan) -> (result: Result<UseResult, CliError>)
    ensures
        exists|dirty: Result<bool, CliError>, exists: Result<bool, CliError>, checkout: Result<ProcessOutput, CliError>|
            #[trigger] use_apply_ok(plan, dirty, exists, checkout, result),
        exists|dirty: Result<bool, CliError>, exists: Result<bool, CliError>, checkout: Result<ProcessOutput, CliError>|
            #[trigger] use_apply_ok(plan, dirty, exists, checkout, result)
                && use_apply_answers_reported(git, plan, dirty, exists, checkout),
{
    let ghost unused_probe: Result<bool, CliError> = arbitrary();
    let ghost unused_run: Result<ProcessOutput, CliError> = arbitrary();
    let shared = plan.shared_worktree.is_some();
    let dirty = git_worktree_dirty(git, plan.repo_root.as_str());
    let ghost d = dirty;
    match dirty {
        Err(error) => {
            let result: Result<UseResult, CliError> = Err(error);
            assert(use_apply_ok(plan, d, unused_probe, unused_run, result));
            return result;
        },
        Ok(true) => {
            let result: Result<UseResult, CliError> = Err(error_with_text(
                ErrorCode::DirtyWorktree,
                String::from_str("use requires clean primary worktree"),
                "repoRoot",
                plan.repo_root.as_str(),
            ));
            assert(use_apply_ok(plan, d, unused_probe, unused_run, result));
            return result;
        },
        Ok(false) => {},
    }
    let exists = local_branch_present(git, plan.repo_root.as_str(), plan.branch.as_str());
    let ghost x = exists;
    match exists {
        Err(error) => {
            let result: Result<UseResult, CliError> = Err(error);
            assert(use_apply_ok(plan, d, x, unused_run, result));
            return result;
        },
        Ok(false) => {
            let result: Result<UseResult, CliError> = Err(error_with_text(
                ErrorCode::WorktreeNotFound,
                text_of("local branch was not found: ", plan.branch.as_str()),
                "branch",
                plan.branch.as_str(),
            ));
            assert(use_apply_ok(plan, d, x, unused_run, result));
            return result;
        },
        Ok(true) => {},
    }
    let mut args: Vec<String> = Vec::new();
    assert(args_view(args@) =~= Seq::<Seq<char>>::empty());
    push_arg(&mut args, "checkout");
    if shared {
        push_arg(&mut args, "--ignore-other-worktrees");
    }
    push_arg(&mut args, plan.branch.as_str());
    assert(args_view(args@) =~= checkout_args(plan.branch@, shared));
    let checkout = run_git_checked(git, plan.repo_root.as_str(), &args);
    let ghost c = checkout;
    let ghost p = plan;
    let result: Result<UseResult, CliError> = match checkout {
        Err(error) => Err(error),
        Ok(_) => Ok(UseResult { branch: plan.branch, path: plan.repo_root, shared }),
    };
    assert(use_apply_ok(p, d, x, c, result));
    result
}

} // verus!
