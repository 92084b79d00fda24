//! The Git probes that preflight a worktree creation: branch-name validity, local and remote
//! branch existence, and which worktree a branch is checked out in. Each probe's reading of
//! git's answer is a function of that answer; the probe itself runs git through
//! `CreateMutationGit`.

use vstd::prelude::*;

use crate::error::{
    detail_view, list_view, object_view, CliError, DetailValue, DetailView, ErrorCode,
};
use crate::git::{
    args_view, describe_git_error, execute_outcome_ok, is_command_failure, is_run_failure, worktree_prefix, GitCli,
    GitCliError,
};
use crate::mapping::{git_cli_error_code, git_details_ok, int_or_null_view, MapToCliError};
use crate::plans::BranchCreationMode;
use crate::process::{ProcessError, ProcessOutput, ProcessRunner};
use crate::text::{split_bytes, split_on, utf8_lossy, utf8_lossy_string};

verus! {

/// Git operations required by the create and connect mutation plans. The unchecked run is
/// for probes whose non-zero statuses mean something; mutations use the checked run.
pub trait CreateMutationGit {
    /// Whether `result` is an answer this Git may give to an unchecked run of `args` in `cwd`.
    /// A Git that says nothing of its answers may give any.
    open spec fn answers(&self, cwd: Seq<char>, args: Seq<Seq<char>>, result: Result<ProcessOutput, CliError>) -> bool {
        true
    }

    fn run_git(&self, cwd: &str, args: &[String]) -> (result: Result<ProcessOutput, CliError>)
        ensures
            self.answers(cwd@, args_view(args@), result),
    ;

    /// Whether `result` is an answer this Git may give to a checked run of `args` in `cwd`.
    /// A Git that says nothing of its answers may give any.
    open spec fn checked_answers(&self, cwd: Seq<char>, args: Seq<Seq<char>>, result: Result<ProcessOutput, CliError>) -> bool {
        true
    }

    fn run_git_checked(&self, cwd: &str, args: &[String]) -> (result: Result<ProcessOutput, CliError>)
        ensures
            self.checked_answers(cwd@, args_view(args@), result),
    ;
}

/// `error` is what `source` becomes when it is reported: its code, its description as the
/// message, its details, and no execution report.
pub open spec fn is_mapped_git_error(error: CliError, source: GitCliError) -> bool {
    &&& error.code == git_cli_error_code(source)
    &&& error.message@ == describe_git_error(source)
    &&& git_details_ok(source, error.details@)
    &&& error.execution is None
}

/// What an unchecked git run answers for what the process runner gave back: a finished
/// run as it is, and a run that could not happen as its reported command failure.
pub open spec fn run_git_answer(
    cwd: Seq<char>,
    args: Seq<Seq<char>>,
    outcome: Result<ProcessOutput, ProcessError>,
    result: Result<ProcessOutput, CliError>,
) -> bool {
    match outcome {
        Ok(output) => result == Ok::<ProcessOutput, CliError>(output),
        Err(source) => result matches Err(e) && exists|g: GitCliError| #[trigger] is_mapped_git_error(e, g) && is_run_failure(g, cwd, args, source),
    }
}

/// A failure of a checked git run: either git could not be run, or it ran and did not
/// exit with status 0 in time.
pub open spec fn is_checked_run_failure(g: GitCliError, cwd: Seq<char>, args: Seq<Seq<char>>) -> bool {
    (exists|source: ProcessError| #[trigger] is_run_failure(g, cwd, args, source))
        || (exists|output: ProcessOutput| #[trigger] is_command_failure(g, cwd, args, output))
}

impl<R: ProcessRunner> CreateMutationGit for GitCli<R> {
    /// Any answer the process runner's outcome can be read as: the runner itself promises
    /// nothing of the process it starts.
    open spec fn answers(&self, cwd: Seq<char>, args: Seq<Seq<char>>, result: Result<ProcessOutput, CliError>) -> bool {
        exists|outcome: Result<ProcessOutput, ProcessError>| #[trigger] run_git_answer(cwd, args, outcome, result)
    }

    fn run_git(&self, cwd: &str, args: &[String]) -> (result: Result<ProcessOutput, CliError>)
    {
        match self.execute(cwd, args) {
            Ok(output) => {
                assert(run_git_answer(cwd@, args_view(args@), Ok::<ProcessOutput, ProcessError>(output), Ok::<ProcessOutput, CliError>(output)));
                Ok(output)
            },
            Err(error) => {
                let ghost g = error;
                let mapped = error.map_to_cli_error();
                proof {
                    let outcome = choose|outcome: Result<ProcessOutput, ProcessError>|
                        #[trigger] execute_outcome_ok(cwd@, args_view(args@), outcome, Err::<ProcessOutput, GitCliError>(g));
                    assert(is_mapped_git_error(mapped, g));
                    assert(run_git_answer(cwd@, args_view(args@), outcome, Err::<ProcessOutput, CliError>(mapped)));
                }
                Err(mapped)
            },
        }
    }

    /// A successful checked run exited 0 in time; a failed one is a reported run failure.
    open spec fn checked_answers(&self, cwd: Seq<char>, args: Seq<Seq<char>>, result: Result<ProcessOutput, CliError>) -> bool {
        &&& (result matches Ok(output) ==> output.exit_code == Some(0i32) && !output.timed_out)
        &&& (result matches Err(e) ==> exists|g: GitCliError| #[trigger] is_mapped_git_error(e, g) && is_checked_run_failure(g, cwd, args))
    }

    fn run_git_checked(&self, cwd: &str, args: &[String]) -> (result: Result<ProcessOutput, CliError>)
    {
        match self.execute_checked(cwd, args) {
            Ok(output) => Ok(output),
            Err(error) => {
                let ghost g = error;
                let mapped = error.map_to_cli_error();
                assert(is_mapped_git_error(mapped, g));
                assert(is_checked_run_failure(g, cwd@, args_view(args@)));
                Err(mapped)
            },
        }
    }
}

pub open spec fn text_list_view(texts: Seq<Seq<char>>) -> DetailView {
    DetailView::List(texts.map_values(|t: Seq<char>| DetailView::Text(t)))
}

/// The error for a git probe whose answer could not be read.
pub open spec fn is_git_output_error(error: CliError, cwd: Seq<char>, args: Seq<Seq<char>>, output: ProcessOutput) -> bool {
    &&& error.code == ErrorCode::GitCommandFailed
    &&& error.message@ == "git command failed"@
    &&& error.execution is None
    &&& object_view(error.details@) == seq![
        ("cwd"@, DetailView::Text(cwd)),
        ("argv"@, text_list_view(args)),
        ("exitCode"@, int_or_null_view(output.exit_code)),
        ("timedOut"@, DetailView::Bool(output.timed_out)),
        ("stdout"@, DetailView::Text(utf8_lossy(output.stdout@))),
        ("stderr"@, DetailView::Text(utf8_lossy(output.stderr@))),
    ]
}

pub fn git_output_error(cwd: &str, args: &[String], output: &ProcessOutput) -> (error: CliError)
    ensures
        is_git_output_error(error, cwd@, args_view(args@), *output),
{
    let mut items: Vec<DetailValue> = Vec::new();
    let mut i: usize = 0;
    assert(list_view(items@) =~= args_view(args@).take(0).map_values(|t: Seq<char>| DetailView::Text(t)));
    while i < args.len()
        invariant
            i <= args@.len(),
            list_view(items@) == args_view(args@).take(i as int).map_values(|t: Seq<char>| DetailView::Text(t)),
        decreases args.len() - i,
    {
        let item = DetailValue::Text(args[i].clone());
        proof {
            crate::error::lemma_list_view_push(items@, item);
            assert(args_view(args@).take(i + 1).map_values(|t: Seq<char>| DetailView::Text(t)) =~= args_view(
                args@,
            ).take(i as int).map_values(|t: Seq<char>| DetailView::Text(t)).push(DetailView::Text(args@[i as int]@)));
        }
        items.push(item);
        i = i + 1;
    }
    assert(args_view(args@).take(args@.len() as int) =~= args_view(args@));
    let mut details: Vec<(String, DetailValue)> = Vec::new();
    details.push(("cwd".to_owned(), DetailValue::Text(cwd.to_owned())));
    details.push(("argv".to_owned(), DetailValue::List(items)));
    details.push(("exitCode".to_owned(), crate::mapping::int_or_null_value(output.exit_code)));
    details.push(("timedOut".to_owned(), DetailValue::Bool(output.timed_out)));
    details.push(("stdout".to_owned(), DetailValue::Text(utf8_lossy_string(output.stdout.as_slice()))));
    details.push(("stderr".to_owned(), DetailValue::Text(utf8_lossy_string(output.stderr.as_slice()))));
    proof {
        crate::error::lemma_object_view_index(details@);
        assert(object_view(details@) =~= seq![
            ("cwd"@, DetailView::Text(cwd@)),
            ("argv"@, text_list_view(args_view(args@))),
            ("exitCode"@, int_or_null_view(output.exit_code)),
            ("timedOut"@, DetailView::Bool(output.timed_out)),
            ("stdout"@, DetailView::Text(utf8_lossy(output.stdout@))),
            ("stderr"@, DetailView::Text(utf8_lossy(output.stderr@))),
        ]);
    }
    CliError {
        code: ErrorCode::GitCommandFailed,
        message: String::from_str("git command failed"),
        details,
        execution: None,
    }
}

/// An error about one branch: the code, the message with the branch appended, and the branch
/// as its only detail.
pub open spec fn is_branch_error(error: CliError, code: ErrorCode, prefix: Seq<char>, branch: Seq<char>) -> bool {
    &&& error.code == code
    &&& error.message@ == prefix + branch
    &&& error.execution is None
    &&& object_view(error.details@) == seq![("branch"@, DetailView::Text(branch))]
}

pub(crate) fn branch_error(code: ErrorCode, prefix: &str, branch: &str) -> (error: CliError)
    ensures
        is_branch_error(error, code, prefix@, branch@),
{
    let mut message = prefix.to_owned();
    message.append(branch);
    let mut details: Vec<(String, DetailValue)> = Vec::new();
    details.push(("branch".to_owned(), DetailValue::Text(branch.to_owned())));
    proof {
        crate::error::lemma_object_view_index(details@);
        assert(object_view(details@) =~= seq![("branch"@, DetailView::Text(branch@))]);
    }
    CliError { code, message, details, execution: None }
}

pub fn invalid_branch(branch: &str) -> (error: CliError)
    ensures
        is_branch_error(error, ErrorCode::InvalidArgument, "invalid branch name: "@, branch@),
{
    branch_error(ErrorCode::InvalidArgument, "invalid branch name: ", branch)
}

pub fn branch_already_attached(branch: &str) -> (error: CliError)
    ensures
        is_branch_error(error, ErrorCode::BranchAlreadyAttached, "branch is already attached to a worktree: "@, branch@),
{
    branch_error(ErrorCode::BranchAlreadyAttached, "branch is already attached to a worktree: ", branch)
}

pub fn branch_already_exists(branch: &str) -> (error: CliError)
    ensures
        is_branch_error(error, ErrorCode::BranchAlreadyExists, "branch already exists locally: "@, branch@),
{
    branch_error(ErrorCode::BranchAlreadyExists, "branch already exists locally: ", branch)
}

pub(crate) fn push_arg(args: &mut Vec<String>, arg: &str)
    ensures
        args_view(final(args)@) == args_view(old(args)@).push(arg@),
{
    args.push(arg.to_owned());
    assert(args_view(args@) =~= args_view(old(args)@).push(arg@));
}

// ----- probes with a yes/no answer -----

/// A yes/no probe: status 0 is yes, status 1 is no; a timeout or any other status is an
/// error, and so is a run that could not happen.
pub open spec fn probe_ok(cwd: Seq<char>, args: Seq<Seq<char>>, outcome: Result<ProcessOutput, CliError>, result: Result<bool, CliError>) -> bool {
    match outcome {
        Err(e) => result == Err::<bool, CliError>(e),
        Ok(o) => if !o.timed_out && o.exit_code == Some(0i32) {
            result == Ok::<bool, CliError>(true)
        } else if !o.timed_out && o.exit_code == Some(1i32) {
            result == Ok::<bool, CliError>(false)
        } else {
            result matches Err(e) && is_git_output_error(e, cwd, args, o)
        },
    }
}

pub fn probe_answer(cwd: &str, args: &[String], outcome: Result<ProcessOutput, CliError>) -> (result: Result<bool, CliError>)
    ensures
        probe_ok(cwd@, args_view(args@), outcome, result),
{
    let output = match outcome {
        Ok(output) => output,
        Err(error) => {
            return Err(error);
        },
    };
    if output.timed_out {
        return Err(git_output_error(cwd, args, &output));
    }
    match output.exit_code {
        Some(code) => {
            if code == 0 {
                Ok(true)
            } else if code == 1 {
                Ok(false)
            } else {
                Err(git_output_error(cwd, args, &output))
            }
        },
        None => Err(git_output_error(cwd, args, &output)),
    }
}

/// `result` is how a probe reads an answer that `git` may give to `args` run in `cwd`.
pub open spec fn probe_reported<G: CreateMutationGit>(git: &G, cwd: Seq<char>, args: Seq<Seq<char>>, result: Result<bool, CliError>) -> bool {
    exists|outcome: Result<ProcessOutput, CliError>| #[trigger] git.answers(cwd, args, outcome) && probe_ok(cwd, args, outcome, result)
}

/// Every answer `git` may give to `args` run in `cwd` is a finished run with exit status `code`.
pub open spec fn answers_only_status<G: CreateMutationGit>(git: &G, cwd: Seq<char>, args: Seq<Seq<char>>, code: i32) -> bool {
    forall|outcome: Result<ProcessOutput, CliError>| #[trigger] git.answers(cwd, args, outcome)
        ==> (outcome matches Ok(o) && o.exit_code == Some(code) && !o.timed_out)
}

pub fn expected_probe<G: CreateMutationGit>(git: &G, cwd: &str, args: &[String]) -> (result: Result<bool, CliError>)
    ensures
        exists|outcome: Result<ProcessOutput, CliError>| #[trigger] probe_ok(cwd@, args_view(args@), outcome, result),
        probe_reported(git, cwd@, args_view(args@), result),
{
    let outcome = git.run_git(cwd, args);
    let ghost seen = outcome;
    let result = probe_answer(cwd, args, outcome);
    assert(probe_ok(cwd@, args_view(args@), seen, result));
    assert(git.answers(cwd@, args_view(args@), seen));
    result
}

pub open spec fn show_ref_args(branch: Seq<char>) -> Seq<Seq<char>> {
    seq!["show-ref"@, "--verify"@, "--quiet"@, "refs/heads/"@ + branch]
}

/// Whether `refs/heads/<branch>` exists, asked with `git show-ref --verify --quiet`.
pub fn local_branch_exists<G: CreateMutationGit>(git: &G, repo_root: &str, branch: &str) -> (result: Result<bool, CliError>)
    ensures
        exists|outcome: Result<ProcessOutput, CliError>| #[trigger] probe_ok(repo_root@, show_ref_args(branch@), outcome, result),
        probe_reported(git, repo_root@, show_ref_args(branch@), result),
{
    let mut args: Vec<String> = Vec::new();
    assert(args_view(args@) =~= Seq::<Seq<char>>::empty());
    push_arg(&mut args, "show-ref");
    push_arg(&mut args, "--verify");
    push_arg(&mut args, "--quiet");
    let mut reference = String::from_str("refs/heads/");
    reference.append(branch);
    push_arg(&mut args, reference.as_str());
    assert(args_view(args@) =~= show_ref_args(branch@));
    expected_probe(git, repo_root, &args)
}

// ----- branch names -----

/// `char::is_control`: the Unicode control characters U+0000..U+001F and U+007F..U+009F.
pub open spec fn is_control_char(c: char) -> bool {
    (c as u32) <= 0x1f || (0x7f <= (c as u32) && (c as u32) <= 0x9f)
}

pub open spec fn check_ref_format_args(branch: Seq<char>) -> Seq<Seq<char>> {
    seq!["check-ref-format"@, "--branch"@, branch]
}

/// A branch name is rejected before git is asked when it is empty or holds a control
/// character; otherwise git's `check-ref-format --branch` decides, and a timeout is an error.
pub open spec fn branch_check_ok(repo_root: Seq<char>, branch: Seq<char>, outcome: Result<ProcessOutput, CliError>, result: Result<(), CliError>) -> bool {
    match outcome {
        Err(e) => result == Err::<(), CliError>(e),
        Ok(o) => if o.timed_out {
            result matches Err(e) && is_git_output_error(e, repo_root, check_ref_format_args(branch), o)
        } else if o.exit_code == Some(0i32) {
            result is Ok
        } else {
            result matches Err(e) && is_branch_error(e, ErrorCode::InvalidArgument, "invalid branch name: "@, branch)
        },
    }
}

pub open spec fn branch_text_acceptable(branch: Seq<char>) -> bool {
    branch.len() > 0 && forall|i: int| 0 <= i < branch.len() ==> !is_control_char(#[trigger] branch[i])
}

fn has_no_control(branch: &str) -> (ok: bool)
    ensures
        ok == branch_text_acceptable(branch@),
{
    let chars = crate::text::chars_of(branch);
    if chars.len() == 0 {
        return false;
    }
    let mut i: usize = 0;
    while i < chars.len()
        invariant
            i <= chars@.len(),
            chars@ == branch@,
            forall|j: int| 0 <= j < i ==> !is_control_char(#[trigger] branch@[j]),
        decreases chars.len() - i,
    {
        let v = chars[i] as u32;
        if v <= 0x1f || (0x7f <= v && v <= 0x9f) {
            return false;
        }
        i = i + 1;
    }
    true
}

pub fn branch_check_answer(repo_root: &str, branch: &str, args: &[String], outcome: Result<ProcessOutput, CliError>) -> (result: Result<(), CliError>)
    requires
        args_view(args@) == check_ref_format_args(branch@),
    ensures
        branch_check_ok(repo_root@, branch@, outcome, result),
{
    let output = match outcome {
        Ok(output) => output,
        Err(error) => {
            return Err(error);
        },
    };
    if output.timed_out {
        return Err(git_output_error(repo_root, args, &output));
    }
    let accepted = match output.exit_code {
        Some(code) => code == 0,
        None => false,
    };
    if accepted {
        Ok(())
    } else {
        Err(invalid_branch(branch))
    }
}

pub fn validate_branch<G: CreateMutationGit>(git: &G, repo_root: &str, branch: &str) -> (result: Result<(), CliError>)
    ensures
        !branch_text_acceptable(branch@) ==> (result matches Err(e) && is_branch_error(
            e,
            ErrorCode::InvalidArgument,
            "invalid branch name: "@,
            branch@,
        )),
        branch_text_acceptable(branch@) ==> exists|outcome: Result<ProcessOutput, CliError>|
            #[trigger] branch_check_ok(repo_root@, branch@, outcome, result),
        branch_check_reported(git, repo_root@, branch@, result),
{
    if !has_no_control(branch) {
        return Err(invalid_branch(branch));
    }
    let mut args: Vec<String> = Vec::new();
    assert(args_view(args@) =~= Seq::<Seq<char>>::empty());
    push_arg(&mut args, "check-ref-format");
    push_arg(&mut args, "--branch");
    push_arg(&mut args, branch);
    assert(args_view(args@) =~= check_ref_format_args(branch@));
    let outcome = git.run_git(repo_root, &args);
    let ghost seen = outcome;
    let result = branch_check_answer(repo_root, branch, &args, outcome);
    assert(branch_check_ok(repo_root@, branch@, seen, result));
    assert(git.answers(repo_root@, check_ref_format_args(branch@), seen));
    result
}

/// `result` is how the branch-name check reads an answer `git` may give to
/// `git check-ref-format --branch <branch>`, for a name that is not refused before git is asked.
pub open spec fn branch_check_reported<G: CreateMutationGit>(git: &G, repo_root: Seq<char>, branch: Seq<char>, result: Result<(), CliError>) -> bool {
    branch_text_acceptable(branch) ==> exists|outcome: Result<ProcessOutput, CliError>|
        #[trigger] git.answers(repo_root, check_ref_format_args(branch), outcome) && branch_check_ok(repo_root, branch, outcome, result)
}

/// `result` is how the remote check reads an answer `git` may give to `git remote get-url`.
pub open spec fn remote_reported<G: CreateMutationGit>(git: &G, repo_root: Seq<char>, remote: Seq<char>, result: Result<(), CliError>) -> bool {
    exists|outcome: Result<ProcessOutput, CliError>|
        #[trigger] git.answers(repo_root, remote_url_args(remote), outcome) && remote_check_ok(repo_root, remote, outcome, result)
}

/// `result` is how the remote-branch check reads an answer `git` may give to
/// `git ls-remote --exit-code --heads <remote> refs/heads/<branch>`.
pub open spec fn remote_branch_reported<G: CreateMutationGit>(git: &G, repo_root: Seq<char>, remote: Seq<char>, branch: Seq<char>, result: Result<(), CliError>) -> bool {
    exists|outcome: Result<ProcessOutput, CliError>|
        #[trigger] git.answers(repo_root, ls_remote_args(remote, branch), outcome) && remote_branch_check_ok(repo_root, remote, branch, outcome, result)
}

// ----- remotes -----

pub open spec fn remote_url_args(remote: Seq<char>) -> Seq<Seq<char>> {
    seq!["remote"@, "get-url"@, remote]
}

/// A remote exists when `git remote get-url` succeeds in time; a timeout is an error and any
/// other failure means the remote is unknown.
pub open spec fn remote_check_ok(repo_root: Seq<char>, remote: Seq<char>, outcome: Result<ProcessOutput, CliError>, result: Result<(), CliError>) -> bool {
    match outcome {
        Err(e) => result == Err::<(), CliError>(e),
        Ok(o) => if !o.timed_out && o.exit_code == Some(0i32) {
            result is Ok
        } else if o.timed_out {
            result matches Err(e) && is_git_output_error(e, repo_root, remote_url_args(remote), o)
        } else {
            result matches Err(e) && e.code == ErrorCode::RemoteNotFound && e.message@ == "remote not found: "@
                + remote && object_view(e.details@) == seq![("remote"@, DetailView::Text(remote))]
        },
    }
}

pub fn remote_check_answer(repo_root: &str, remote: &str, args: &[String], outcome: Result<ProcessOutput, CliError>) -> (result: Result<(), CliError>)
    requires
        args_view(args@) == remote_url_args(remote@),
    ensures
        remote_check_ok(repo_root@, remote@, outcome, result),
{
    let output = match outcome {
        Ok(output) => output,
        Err(error) => {
            return Err(error);
        },
    };
    let zero = match output.exit_code {
        Some(code) => code == 0,
        None => false,
    };
    if !output.timed_out && zero {
        return Ok(());
    }
    if output.timed_out {
        return Err(git_output_error(repo_root, args, &output));
    }
    let mut message = String::from_str("remote not found: ");
    message.append(remote);
    let mut details: Vec<(String, DetailValue)> = Vec::new();
    details.push(("remote".to_owned(), DetailValue::Text(remote.to_owned())));
    proof {
        crate::error::lemma_object_view_index(details@);
        assert(object_view(details@) =~= seq![("remote"@, DetailView::Text(remote@))]);
    }
    Err(CliError { code: ErrorCode::RemoteNotFound, message, details, execution: None })
}

pub fn validate_remote_exists<G: CreateMutationGit>(git: &G, repo_root: &str, remote: &str) -> (result: Result<(), CliError>)
    ensures
        exists|outcome: Result<ProcessOutput, CliError>| #[trigger] remote_check_ok(repo_root@, remote@, outcome, result),
    remote_reported(git, repo_root@, remote@, result),
{
    let mut args: Vec<String> = Vec::new();
    assert(args_view(args@) =~= Seq::<Seq<char>>::empty());
    push_arg(&mut args, "remote");
    push_arg(&mut args, "get-url");
    push_arg(&mut args, remote);
    assert(args_view(args@) =~= remote_url_args(remote@));
    let outcome = git.run_git(repo_root, &args);
    let ghost seen = outcome;
    let result = remote_check_answer(repo_root, remote, &args, outcome);
    assert(remote_check_ok(repo_root@, remote@, seen, result));
    assert(git.answers(repo_root@, remote_url_args(remote@), seen));
    result
}

pub open spec fn ls_remote_args(remote: Seq<char>, branch: Seq<char>) -> Seq<Seq<char>> {
    seq!["ls-remote"@, "--exit-code"@, "--heads"@, remote, "refs/heads/"@ + branch]
}

/// A remote branch exists when `git ls-remote --exit-code --heads` succeeds in time and names
/// it; status 2 (or an empty answer with status 0) means it does not; anything else is an
/// error.
pub open spec fn remote_branch_check_ok(repo_root: Seq<char>, remote: Seq<char>, branch: Seq<char>, outcome: Result<ProcessOutput, CliError>, result: Result<(), CliError>) -> bool {
    match outcome {
        Err(e) => result == Err::<(), CliError>(e),
        Ok(o) => if !o.timed_out && o.exit_code == Some(0i32) && o.stdout@.len() > 0 {
            result is Ok
        } else if o.timed_out || !(o.exit_code == Some(0i32) || o.exit_code == Some(2i32)) {
            result matches Err(e) && is_git_output_error(e, repo_root, ls_remote_args(remote, branch), o)
        } else {
            result matches Err(e) && e.code == ErrorCode::RemoteBranchNotFound && e.message@
                == "remote branch not found: "@ + remote + "/"@ + branch && object_view(e.details@) == seq![
                ("remote"@, DetailView::Text(remote)),
                ("branch"@, DetailView::Text(branch)),
            ]
        },
    }
}

pub fn remote_branch_check_answer(repo_root: &str, remote: &str, branch: &str, args: &[String], outcome: Result<ProcessOutput, CliError>) -> (result: Result<(), CliError>)
    requires
        args_view(args@) == ls_remote_args(remote@, branch@),
    ensures
        remote_branch_check_ok(repo_root@, remote@, branch@, outcome, result),
{
    let output = match outcome {
        Ok(output) => output,
        Err(error) => {
            return Err(error);
        },
    };
    let status: u8 = match output.exit_code {
        Some(code) => if code == 0 {
            0
        } else if code == 2 {
            2
        } else {
            1
        },
        None => 1,
    };
    if !output.timed_out && status == 0 && output.stdout.len() > 0 {
        return Ok(());
    }
    if output.timed_out || status == 1 {
        return Err(git_output_error(repo_root, args, &output));
    }
    let mut message = String::from_str("remote branch not found: ");
    message.append(remote);
    message.append("/");
    message.append(branch);
    let mut details: Vec<(String, DetailValue)> = Vec::new();
    details.push(("remote".to_owned(), DetailValue::Text(remote.to_owned())));
    details.push(("branch".to_owned(), DetailValue::Text(branch.to_owned())));
    proof {
        crate::error::lemma_object_view_index(details@);
        assert(object_view(details@) =~= seq![
            ("remote"@, DetailView::Text(remote@)),
            ("branch"@, DetailView::Text(branch@)),
        ]);
    }
    Err(CliError { code: ErrorCode::RemoteBranchNotFound, message, details, execution: None })
}

pub fn validate_remote_branch_exists<G: CreateMutationGit>(git: &G, repo_root: &str, remote: &str, branch: &str) -> (result: Result<(), CliError>)
    ensures
        exists|outcome: Result<ProcessOutput, CliError>|
            #[trigger] remote_branch_check_ok(repo_root@, remote@, branch@, outcome, result),
    remote_branch_reported(git, repo_root@, remote@, branch@, result),
{
    let mut args: Vec<String> = Vec::new();
    assert(args_view(args@) =~= Seq::<Seq<char>>::empty());
    push_arg(&mut args, "ls-remote");
    push_arg(&mut args, "--exit-code");
    push_arg(&mut args, "--heads");
    push_arg(&mut args, remote);
    let mut reference = String::from_str("refs/heads/");
    reference.append(branch);
    push_arg(&mut args, reference.as_str());
    assert(args_view(args@) =~= ls_remote_args(remote@, branch@));
    let outcome = git.run_git(repo_root, &args);
    let ghost seen = outcome;
    let result = remote_branch_check_answer(repo_root, remote, branch, &args, outcome);
    assert(remote_branch_check_ok(repo_root@, remote@, branch@, seen, result));
    assert(git.answers(repo_root@, ls_remote_args(remote@, branch@), seen));
    result
}

// ----- attachment -----

pub open spec fn branch_prefix() -> Seq<u8> {
    seq![98u8, 114u8, 97u8, 110u8, 99u8, 104u8, 32u8]
}

pub open spec fn heads_ref(branch: Seq<u8>) -> Seq<u8> {
    seq![114u8, 101u8, 102u8, 115u8, 47u8, 104u8, 101u8, 97u8, 100u8, 115u8, 47u8] + branch
}

/// Scanning porcelain fields in order: a `worktree <path>` field sets the current path, and
/// the first `branch refs/heads/<branch>` field answers with the current path (possibly none).
pub open spec fn attached_scan(fields: Seq<Seq<u8>>, expected: Seq<u8>, current: Option<Seq<char>>) -> Option<Option<Seq<char>>>
    decreases fields.len(),
{
    if fields.len() == 0 {
        None
    } else {
        let f = fields[0];
        if f.len() >= 9 && f.take(9) == worktree_prefix() {
            attached_scan(fields.drop_first(), expected, Some(utf8_lossy(f.skip(9))))
        } else if f.len() >= 7 && f.take(7) == branch_prefix() && f.skip(7) == expected {
            Some(current)
        } else {
            attached_scan(fields.drop_first(), expected, current)
        }
    }
}

/// The worktree that has `branch` checked out, according to a porcelain listing.
pub open spec fn attached_path_spec(listing: Seq<u8>, branch: Seq<u8>) -> Option<Seq<char>> {
    match attached_scan(split_on(listing, 0u8), heads_ref(branch), None) {
        Some(found) => found,
        None => None,
    }
}

fn starts_with_bytes(field: &Vec<u8>, prefix: &Vec<u8>) -> (found: bool)
    ensures
        found == (field@.len() >= prefix@.len() && field@.take(prefix@.len() as int) == prefix@),
{
    if field.len() < prefix.len() {
        return false;
    }
    let mut i: usize = 0;
    while i < prefix.len()
        invariant
            i <= prefix@.len() <= field@.len(),
            field@.take(i as int) == prefix@.take(i as int),
        decreases prefix.len() - i,
    {
        if field[i] != prefix[i] {
            assert(field@.take(prefix@.len() as int)[i as int] != prefix@[i as int]);
            return false;
        }
        assert(field@.take(i + 1) =~= field@.take(i as int).push(field@[i as int]));
        assert(prefix@.take(i + 1) =~= prefix@.take(i as int).push(prefix@[i as int]));
        i = i + 1;
    }
    assert(prefix@.take(prefix@.len() as int) =~= prefix@);
    true
}

/// The worktree path that has `branch` checked out in a porcelain listing.
pub fn attached_path_in(listing: &[u8], branch: &[u8]) -> (path: Option<String>)
    ensures
        match path {
            Some(p) => attached_path_spec(listing@, branch@) == Some(p@),
            None => attached_path_spec(listing@, branch@) is None,
        },
{
    let fields = split_bytes(listing, 0u8);
    let ghost fv = fields@.map_values(|f: Vec<u8>| f@);
    let mut wt_prefix: Vec<u8> = Vec::new();
    wt_prefix.push(119u8);
    wt_prefix.push(111u8);
    wt_prefix.push(114u8);
    wt_prefix.push(107u8);
    wt_prefix.push(116u8);
    wt_prefix.push(114u8);
    wt_prefix.push(101u8);
    wt_prefix.push(101u8);
    wt_prefix.push(32u8);
    assert(wt_prefix@ =~= worktree_prefix());
    let mut br_prefix: Vec<u8> = Vec::new();
    br_prefix.push(98u8);
    br_prefix.push(114u8);
    br_prefix.push(97u8);
    br_prefix.push(110u8);
    br_prefix.push(99u8);
    br_prefix.push(104u8);
    br_prefix.push(32u8);
    assert(br_prefix@ =~= branch_prefix());
    let mut expected: Vec<u8> = Vec::new();
    let heads: [u8; 11] = [114u8, 101u8, 102u8, 115u8, 47u8, 104u8, 101u8, 97u8, 100u8, 115u8, 47u8];
    let mut k: usize = 0;
    while k < 11
        invariant
            k <= 11,
            heads@ == seq![114u8, 101u8, 102u8, 115u8, 47u8, 104u8, 101u8, 97u8, 100u8, 115u8, 47u8],
            expected@ == heads@.take(k as int),
        decreases 11 - k,
    {
        expected.push(heads[k]);
        assert(expected@ =~= heads@.take(k + 1));
        k = k + 1;
    }
    let mut k: usize = 0;
    while k < branch.len()
        invariant
            k <= branch@.len(),
            heads@ == seq![114u8, 101u8, 102u8, 115u8, 47u8, 104u8, 101u8, 97u8, 100u8, 115u8, 47u8],
            expected@ == heads@ + branch@.take(k as int),
        decreases branch.len() - k,
    {
        expected.push(branch[k]);
        assert(expected@ =~= heads@ + branch@.take(k + 1));
        k = k + 1;
    }
    assert(expected@ =~= heads_ref(branch@));
    let mut current: Option<String> = None;
    let mut i: usize = 0;
    assert(fv.skip(0) =~= fv);
    while i < fields.len()
        invariant
            i <= fields@.len(),
            fv == fields@.map_values(|f: Vec<u8>| f@),
            fv == split_on(listing@, 0u8),
            wt_prefix@ == worktree_prefix(),
            br_prefix@ == branch_prefix(),
            expected@ == heads_ref(branch@),
            attached_scan(fv, heads_ref(branch@), None) == attached_scan(
                fv.skip(i as int),
                heads_ref(branch@),
                crate::plans::opt_text(current),
            ),
        decreases fields.len() - i,
    {
        let field = &fields[i];
        assert(fv.skip(i as int)[0] == field@);
        assert(fv.skip(i as int).drop_first() =~= fv.skip(i + 1));
        if starts_with_bytes(field, &wt_prefix) {
            let rest = vstd::slice::slice_subrange(field.as_slice(), 9, field.len());
            assert(rest@ =~= field@.skip(9));
            current = Some(utf8_lossy_string(rest));
        } else if starts_with_bytes(field, &br_prefix) {
            let rest = vstd::slice::slice_subrange(field.as_slice(), 7, field.len());
            assert(rest@ =~= field@.skip(7));
            let mut same = rest.len() == expected.len();
            if same {
                let mut j: usize = 0;
                while j < rest.len()
                    invariant
                        j <= rest@.len() == expected@.len(),
                        same ==> rest@.take(j as int) == expected@.take(j as int),
                        !same ==> rest@ != expected@,
                    decreases rest.len() - j,
                {
                    if same && rest[j] != expected[j] {
                        same = false;
                    }
                    if same {
                        assert(rest@.take(j + 1) =~= rest@.take(j as int).push(rest@[j as int]));
                        assert(expected@.take(j + 1) =~= expected@.take(j as int).push(expected@[j as int]));
                    }
                    j = j + 1;
                }
                if same {
                    assert(rest@.take(rest@.len() as int) =~= rest@);
                    assert(expected@.take(expected@.len() as int) =~= expected@);
                }
            }
            if same {
                let ghost cur_view = crate::plans::opt_text(current);
                assert(field@.skip(7) == expected@);
                assert(!(field@.len() >= 9 && field@.take(9) == worktree_prefix()));
                assert(attached_scan(fv.skip(i as int), heads_ref(branch@), cur_view) == Some(cur_view));
                return current;
            }
        }
        i = i + 1;
    }
    None
}

/// Law: a branch that a listing does not name is attached nowhere.
pub proof fn law_unlisted_branch_is_not_attached(fields: Seq<Seq<u8>>, expected: Seq<u8>, current: Option<Seq<char>>)
    requires
        forall|i: int| 0 <= i < fields.len() ==> !(#[trigger] fields[i].len() >= 7 && fields[i].take(7) == branch_prefix()
            && fields[i].skip(7) == expected),
    ensures
        attached_scan(fields, expected, current) is None,
    decreases fields.len(),
{
    if fields.len() > 0 {
        assert(forall|i: int| 0 <= i < fields.drop_first().len() ==> fields.drop_first()[i] == fields[i + 1]);
        let f = fields[0];
        if f.len() >= 9 && f.take(9) == worktree_prefix() {
            law_unlisted_branch_is_not_attached(fields.drop_first(), expected, Some(utf8_lossy(f.skip(9))));
        } else {
            law_unlisted_branch_is_not_attached(fields.drop_first(), expected, current);
        }
    }
}

/// What a mode check concludes from whether the branch exists locally.
pub open spec fn branch_mode_ok(mode: BranchCreationMode, exists: bool, branch: Seq<char>, result: Result<(), CliError>) -> bool {
    match (mode, exists) {
        (BranchCreationMode::NewBranch, false) => result is Ok,
        (BranchCreationMode::ExistingLocalBranch, true) => result is Ok,
        (BranchCreationMode::NewBranch, true) => result matches Err(e) && is_branch_error(
            e,
            ErrorCode::BranchAlreadyExists,
            "branch already exists locally: "@,
            branch,
        ),
        (BranchCreationMode::ExistingLocalBranch, false) => result matches Err(e) && e.code
            == ErrorCode::WorktreeNotFound && e.message@ == "local branch disappeared after preflight: "@ + branch,
    }
}

pub fn branch_mode_answer(mode: BranchCreationMode, exists: bool, branch: &str) -> (result: Result<(), CliError>)
    ensures
        branch_mode_ok(mode, exists, branch@, result),
{
    match (mode, exists) {
        (BranchCreationMode::NewBranch, false) => Ok(()),
        (BranchCreationMode::ExistingLocalBranch, true) => Ok(()),
        (BranchCreationMode::NewBranch, true) => Err(branch_already_exists(branch)),
        (BranchCreationMode::ExistingLocalBranch, false) => {
            let mut message = String::from_str("local branch disappeared after preflight: ");
            message.append(branch);
            Err(CliError { code: ErrorCode::WorktreeNotFound, message, details: Vec::new(), execution: None })
        },
    }
}

pub open spec fn worktree_list_args_spec() -> Seq<Seq<char>> {
    seq!["worktree"@, "list"@, "--porcelain"@, "-z"@]
}

/// What the attachment lookup returns for the outcome of `git worktree list`.
pub open spec fn attachment_ok(branch: Seq<char>, outcome: Result<ProcessOutput, CliError>, result: Result<Option<String>, CliError>) -> bool {
    match outcome {
        Err(e) => result == Err::<Option<String>, CliError>(e),
        Ok(o) => result matches Ok(p) && crate::plans::opt_text(p) == attached_path_spec(
            o.stdout@,
            vstd::utf8::encode_utf8(branch),
        ),
    }
}

pub fn attachment_answer(branch: &str, outcome: Result<ProcessOutput, CliError>) -> (result: Result<Option<String>, CliError>)
    ensures
        attachment_ok(branch@, outcome, result),
{
    match outcome {
        Ok(output) => {
            let path = attached_path_in(output.stdout.as_slice(), branch.as_bytes());
            Ok(path)
        },
        Err(error) => Err(error),
    }
}

/// The worktree that has `branch` checked out, from `git worktree list --porcelain -z`.
pub fn attached_worktree_path<G: CreateMutationGit>(git: &G, repo_root: &str, branch: &str) -> (result: Result<Option<String>, CliError>)
    ensures
        exists|outcome: Result<ProcessOutput, CliError>| #[trigger] attachment_ok(branch@, outcome, result),
        attachment_reported(git, repo_root@, branch@, result),
{
    let args = crate::git::worktree_list_args();
    let outcome = git.run_git_checked(repo_root, &args);
    let ghost seen = outcome;
    let result = attachment_answer(branch, outcome);
    assert(attachment_ok(branch@, seen, result));
    assert(git.checked_answers(repo_root@, crate::git::worktree_list_args_spec(), seen));
    result
}

/// `result` is how the attachment lookup reads an answer `git` may give to a checked
/// `git worktree list --porcelain -z` in `repo_root`.
pub open spec fn attachment_reported<G: CreateMutationGit>(git: &G, repo_root: Seq<char>, branch: Seq<char>, result: Result<Option<String>, CliError>) -> bool {
    exists|outcome: Result<ProcessOutput, CliError>|
        #[trigger] git.checked_answers(repo_root, crate::git::worktree_list_args_spec(), outcome) && attachment_ok(branch, outcome, result)
}

/// `result` is what the revalidation of a new branch makes of answers `git` may give: the
/// checked worktree listing and, for a branch attached nowhere, the local-branch probe.
pub open spec fn new_branch_reported<G: CreateMutationGit>(git: &G, repo_root: Seq<char>, branch: Seq<char>, result: Result<(), CliError>) -> bool {
    exists|listed: Result<ProcessOutput, CliError>, probed: Result<ProcessOutput, CliError>|
        #[trigger] new_branch_ok(repo_root, branch, listed, probed, result)
            && git.checked_answers(repo_root, crate::git::worktree_list_args_spec(), listed)
            && ((listed matches Ok(o) && attached_path_spec(o.stdout@, vstd::utf8::encode_utf8(branch)) is None)
                ==> git.answers(repo_root, show_ref_args(branch), probed))
}

/// A new branch must be attached nowhere and must not exist locally.
pub open spec fn new_branch_ok(repo_root: Seq<char>, branch: Seq<char>, listed: Result<ProcessOutput, CliError>, probed: Result<ProcessOutput, CliError>, result: Result<(), CliError>) -> bool {
    match listed {
        Err(e) => result == Err::<(), CliError>(e),
        Ok(o) => if attached_path_spec(o.stdout@, vstd::utf8::encode_utf8(branch)) is Some {
            result matches Err(e) && is_branch_error(e, ErrorCode::BranchAlreadyAttached, "branch is already attached to a worktree: "@, branch)
        } else {
            exists|exists_result: Result<bool, CliError>|
                #[trigger] probe_ok(repo_root, show_ref_args(branch), probed, exists_result) && match exists_result {
                    Err(e) => result == Err::<(), CliError>(e),
                    Ok(true) => result matches Err(e) && is_branch_error(e, ErrorCode::BranchAlreadyExists, "branch already exists locally: "@, branch),
                    Ok(false) => result is Ok,
                }
        },
    }
}

pub fn revalidate_new_branch<G: CreateMutationGit>(git: &G, repo_root: &str, branch: &str) -> (result: Result<(), CliError>)
    ensures
        exists|listed: Result<ProcessOutput, CliError>, probed: Result<ProcessOutput, CliError>|
            #[trigger] new_branch_ok(repo_root@, branch@, listed, probed, result),
        new_branch_reported(git, repo_root@, branch@, result),
{
    let args = crate::git::worktree_list_args();
    let listed = git.run_git_checked(repo_root, &args);
    let ghost seen_listing = listed;
    let attached = match attachment_answer(branch, listed) {
        Ok(attached) => attached,
        Err(error) => {
            let result: Result<(), CliError> = Err(error);
            assert(new_branch_ok(repo_root@, branch@, seen_listing, seen_listing, result));
            assert(git.checked_answers(repo_root@, crate::git::worktree_list_args_spec(), seen_listing));
            return result;
        },
    };
    if attached.is_some() {
        let result: Result<(), CliError> = Err(branch_already_attached(branch));
        assert(new_branch_ok(repo_root@, branch@, seen_listing, seen_listing, result));
        assert(git.checked_answers(repo_root@, crate::git::worktree_list_args_spec(), seen_listing));
        return result;
    }
    let mut probe_args: Vec<String> = Vec::new();
    assert(args_view(probe_args@) =~= Seq::<Seq<char>>::empty());
    push_arg(&mut probe_args, "show-ref");
    push_arg(&mut probe_args, "--verify");
    push_arg(&mut probe_args, "--quiet");
    let mut reference = String::from_str("refs/heads/");
    reference.append(branch);
    push_arg(&mut probe_args, reference.as_str());
    assert(args_view(probe_args@) =~= show_ref_args(branch@));
    let probed = git.run_git(repo_root, &probe_args);
    let ghost seen_probe = probed;
    let exists = probe_answer(repo_root, &probe_args, probed);
    let ghost seen_exists = exists;
    let result = match exists {
        Err(error) => Err(error),
        Ok(true) => Err(branch_already_exists(branch)),
        Ok(false) => Ok(()),
    };
    assert(probe_ok(repo_root@, show_ref_args(branch@), seen_probe, seen_exists));
    assert(new_branch_ok(repo_root@, branch@, seen_listing, seen_probe, result));
    assert(git.checked_answers(repo_root@, crate::git::worktree_list_args_spec(), seen_listing));
    assert(git.answers(repo_root@, show_ref_args(branch@), seen_probe));
    result
}

} // verus!
