//! How adapter errors, hook outcomes and transaction failures become command-line errors:
//! the error code, the message, the structured details and the execution report.

use vstd::prelude::*;

use crate::error::{
    detail_keys, detail_of, detail_view, insert_entry, view_insert, DetailView, CliError, DetailValue, ErrorCode, ExecutionPhase,
    ExecutionReport, ExecutionState,
};
use crate::fzf::{FzfCommandFailure, FzfError};
use crate::git::{args_view, describe_git_error, GitCliError};
use crate::process::{describe_process_error, ProcessError};
use crate::text::{
    bool_text, debug_option_spec, push_bool, push_debug_option, utf8_lossy, utf8_lossy_string,
};

verus! {

/// Conversion of a domain error into the command-line error model.
pub trait MapToCliError: Sized {
    fn map_to_cli_error(self) -> CliError;
}

/// The detail stored under `key` is the text `value`.
pub open spec fn text_at(d: Seq<(String, DetailValue)>, i: int, value: Seq<char>) -> bool {
    d[i].1 matches DetailValue::Text(t) && t@ == value
}

/// An optional integer: the number, or `null`.
pub open spec fn int_or_null(value: Option<i32>) -> DetailValue {
    match value {
        Some(n) => DetailValue::Int(n as i64),
        None => DetailValue::Null,
    }
}

pub fn int_or_null_value(value: Option<i32>) -> (detail: DetailValue)
    ensures
        detail == int_or_null(value),
{
    match value {
        Some(n) => DetailValue::Int(n as i64),
        None => DetailValue::Null,
    }
}

pub fn text_value(text: &str) -> (detail: DetailValue)
    ensures
        detail matches DetailValue::Text(t) && t@ == text@,
{
    DetailValue::Text(text.to_owned())
}

pub fn lossy_value(bytes: &[u8]) -> (detail: DetailValue)
    ensures
        detail matches DetailValue::Text(t) && t@ == utf8_lossy(bytes@),
{
    DetailValue::Text(utf8_lossy_string(bytes))
}

// ----- fzf -----

pub open spec fn describe_fzf_error(error: FzfError) -> Seq<char> {
    match error {
        FzfError::NoCandidates => "no worktree candidates were provided"@,
        FzfError::InteractiveRequired => "fzf selection requires an interactive stderr terminal"@,
        FzfError::DependencyMissing => "fzf is required for interactive selection"@,
        FzfError::InvalidArgument(message) => message@,
        FzfError::TmuxPopupUnsupported => "selector.cd.surface=tmux-popup requires an fzf version with native --tmux support"@,
        FzfError::CapabilityCheckFailed(failure) => "failed to check fzf --tmux capability (exit code: "@
            + debug_option_spec(failure.exit_code) + ", timed out: "@ + bool_text(failure.timed_out)
            + ")"@,
        FzfError::CommandFailed(failure) => "fzf selection failed (exit code: "@ + debug_option_spec(
            failure.exit_code,
        ) + ", timed out: "@ + bool_text(failure.timed_out) + ")"@,
        FzfError::InvalidOutput(message) => message@,
        FzfError::AmbiguousCandidate(message) => message@,
        FzfError::Process(source) => "failed to execute fzf: "@ + describe_process_error(source),
    }
}

fn failure_text(prefix: &str, failure: &FzfCommandFailure) -> (text: String)
    ensures
        text@ == prefix@ + debug_option_spec(failure.exit_code) + ", timed out: "@ + bool_text(
            failure.timed_out,
        ) + ")"@,
{
    let mut text = prefix.to_owned();
    push_debug_option(&mut text, failure.exit_code);
    text.append(", timed out: ");
    push_bool(&mut text, failure.timed_out);
    text.append(")");
    text
}

/// The message of an fzf adapter error.
pub fn describe_fzf(error: &FzfError) -> (text: String)
    ensures
        text@ == describe_fzf_error(*error),
{
    match error {
        FzfError::NoCandidates => String::from_str("no worktree candidates were provided"),
        FzfError::InteractiveRequired => String::from_str(
            "fzf selection requires an interactive stderr terminal",
        ),
        FzfError::DependencyMissing => String::from_str("fzf is required for interactive selection"),
        FzfError::InvalidArgument(message) => message.clone(),
        FzfError::TmuxPopupUnsupported => String::from_str(
            "selector.cd.surface=tmux-popup requires an fzf version with native --tmux support",
        ),
        FzfError::CapabilityCheckFailed(failure) => failure_text(
            "failed to check fzf --tmux capability (exit code: ",
            failure,
        ),
        FzfError::CommandFailed(failure) => failure_text("fzf selection failed (exit code: ", failure),
        FzfError::InvalidOutput(message) => message.clone(),
        FzfError::AmbiguousCandidate(message) => message.clone(),
        FzfError::Process(source) => {
            let mut text = String::from_str("failed to execute fzf: ");
            let detail = source.describe();
            text.append(detail.as_str());
            text
        },
    }
}

pub open spec fn fzf_error_code(error: FzfError) -> ErrorCode {
    match error {
        FzfError::NoCandidates => ErrorCode::WorktreeNotFound,
        FzfError::InteractiveRequired | FzfError::DependencyMissing | FzfError::TmuxPopupUnsupported
        | FzfError::CapabilityCheckFailed(_) => ErrorCode::DependencyMissing,
        FzfError::InvalidArgument(_) => ErrorCode::InvalidArgument,
        FzfError::CommandFailed(_) | FzfError::InvalidOutput(_) | FzfError::AmbiguousCandidate(_)
        | FzfError::Process(_) => ErrorCode::ChildProcessFailed,
    }
}

/// The details of a failed fzf run.
pub open spec fn fzf_failure_details(d: Seq<(String, DetailValue)>, failure: FzfCommandFailure) -> bool {
    &&& detail_keys(d) == seq!["exitCode"@, "timedOut"@, "stdout"@, "stderr"@]
    &&& d[0].1 == int_or_null(failure.exit_code)
    &&& d[1].1 == DetailValue::Bool(failure.timed_out)
    &&& text_at(d, 2, utf8_lossy(failure.stdout@))
    &&& text_at(d, 3, utf8_lossy(failure.stderr@))
}

/// The details of each fzf error.
pub open spec fn fzf_details_ok(error: FzfError, d: Seq<(String, DetailValue)>) -> bool {
    match error {
        FzfError::InvalidArgument(reason) => detail_keys(d) == seq!["reason"@] && text_at(d, 0, reason@),
        FzfError::InvalidOutput(reason) => detail_keys(d) == seq!["reason"@] && text_at(d, 0, reason@),
        FzfError::AmbiguousCandidate(reason) => detail_keys(d) == seq!["reason"@] && text_at(d, 0, reason@),
        FzfError::CapabilityCheckFailed(failure) => fzf_failure_details(d, failure),
        FzfError::CommandFailed(failure) => fzf_failure_details(d, failure),
        FzfError::Process(source) => detail_keys(d) == seq!["cause"@] && text_at(d, 0, describe_process_error(source)),
        _ => d.len() == 0,
    }
}

fn one_text_detail(key: &str, value: &str) -> (d: Vec<(String, DetailValue)>)
    ensures
        detail_keys(d@) == seq![key@],
        text_at(d@, 0, value@),
{
    let mut d: Vec<(String, DetailValue)> = Vec::new();
    d.push((key.to_owned(), text_value(value)));
    assert(detail_keys(d@) =~= seq![key@]);
    d
}

fn fzf_failure_entries(failure: &FzfCommandFailure) -> (d: Vec<(String, DetailValue)>)
    ensures
        fzf_failure_details(d@, *failure),
{
    let mut d: Vec<(String, DetailValue)> = Vec::new();
    d.push(("exitCode".to_owned(), int_or_null_value(failure.exit_code)));
    d.push(("timedOut".to_owned(), DetailValue::Bool(failure.timed_out)));
    d.push(("stdout".to_owned(), lossy_value(failure.stdout.as_slice())));
    d.push(("stderr".to_owned(), lossy_value(failure.stderr.as_slice())));
    assert(detail_keys(d@) =~= seq!["exitCode"@, "timedOut"@, "stdout"@, "stderr"@]);
    d
}

impl MapToCliError for FzfError {
    fn map_to_cli_error(self) -> (error: CliError)
        ensures
            error.code == fzf_error_code(self),
            error.message@ == describe_fzf_error(self),
            fzf_details_ok(self, error.details@),
            error.execution is None,
    {
        let message = describe_fzf(&self);
        let ghost original = self;
        let (code, details) = match &self {
            FzfError::NoCandidates => (ErrorCode::WorktreeNotFound, Vec::new()),
            FzfError::InteractiveRequired => (ErrorCode::DependencyMissing, Vec::new()),
            FzfError::DependencyMissing => (ErrorCode::DependencyMissing, Vec::new()),
            FzfError::TmuxPopupUnsupported => (ErrorCode::DependencyMissing, Vec::new()),
            FzfError::InvalidArgument(reason) => (ErrorCode::InvalidArgument, one_text_detail("reason", reason.as_str())),
            FzfError::CapabilityCheckFailed(failure) => (ErrorCode::DependencyMissing, fzf_failure_entries(failure)),
            FzfError::CommandFailed(failure) => (ErrorCode::ChildProcessFailed, fzf_failure_entries(failure)),
            FzfError::InvalidOutput(reason) => (ErrorCode::ChildProcessFailed, one_text_detail("reason", reason.as_str())),
            FzfError::AmbiguousCandidate(reason) => (ErrorCode::ChildProcessFailed, one_text_detail("reason", reason.as_str())),
            FzfError::Process(source) => {
                let cause = source.describe();
                (ErrorCode::ChildProcessFailed, one_text_detail("cause", cause.as_str()))
            },
        };
        CliError { code, message, details, execution: None }
    }
}

// ----- git -----

pub open spec fn git_cli_error_code(error: GitCliError) -> ErrorCode {
    match error {
        GitCliError::NotGitRepository { .. } => ErrorCode::NotGitRepository,
        GitCliError::UnsupportedRepositoryLayout { .. } => ErrorCode::UnsupportedRepositoryLayout,
        GitCliError::GitCommandFailed(_) => ErrorCode::GitCommandFailed,
    }
}

/// The list detail holds the given texts, in order.
pub open spec fn is_text_list(value: DetailValue, texts: Seq<Seq<char>>) -> bool {
    value matches DetailValue::List(items) && items@.len() == texts.len() && forall|i: int|
        0 <= i < texts.len() ==> (#[trigger] items@[i] matches DetailValue::Text(t) && t@ == texts[i])
}

pub open spec fn git_details_ok(error: GitCliError, d: Seq<(String, DetailValue)>) -> bool {
    match error {
        GitCliError::NotGitRepository { cwd, stderr } => {
            &&& detail_keys(d) == seq!["cwd"@, "stderr"@]
            &&& text_at(d, 0, cwd@)
            &&& text_at(d, 1, utf8_lossy(stderr@))
        },
        GitCliError::UnsupportedRepositoryLayout { cwd, reason } => {
            &&& detail_keys(d) == seq!["cwd"@, "reason"@]
            &&& text_at(d, 0, cwd@)
            &&& text_at(d, 1, reason@)
        },
        GitCliError::GitCommandFailed(f) => {
            &&& detail_keys(d) == seq!["cwd"@, "argv"@, "exitCode"@, "timedOut"@, "stdout"@, "stderr"@, "cause"@]
            &&& text_at(d, 0, f.cwd@)
            &&& is_text_list(d[1].1, args_view(f.args@))
            &&& d[2].1 == int_or_null(f.exit_code)
            &&& d[3].1 == DetailValue::Bool(f.timed_out)
            &&& text_at(d, 4, utf8_lossy(f.stdout@))
            &&& text_at(d, 5, utf8_lossy(f.stderr@))
            &&& match f.source {
                Some(source) => text_at(d, 6, describe_process_error(source)),
                None => d[6].1 == DetailValue::Null,
            }
        },
    }
}

pub fn text_list_value(texts: &Vec<String>) -> (value: DetailValue)
    ensures
        is_text_list(value, args_view(texts@)),
{
    let mut items: Vec<DetailValue> = Vec::new();
    let mut i: usize = 0;
    while i < texts.len()
        invariant
            i <= texts@.len(),
            items@.len() == i,
            forall|j: int| 0 <= j < i ==> (#[trigger] items@[j] matches DetailValue::Text(t) && t@ == texts@[j]@),
        decreases texts.len() - i,
    {
        items.push(text_value(texts[i].as_str()));
        i = i + 1;
    }
    DetailValue::List(items)
}

impl MapToCliError for GitCliError {
    fn map_to_cli_error(self) -> (error: CliError)
        ensures
            error.code == git_cli_error_code(self),
            error.message@ == describe_git_error(self),
            git_details_ok(self, error.details@),
            error.execution is None,
    {
        let message = self.describe();
        let mut d: Vec<(String, DetailValue)> = Vec::new();
        match &self {
            GitCliError::NotGitRepository { cwd, stderr } => {
                d.push(("cwd".to_owned(), text_value(cwd.as_str())));
                d.push(("stderr".to_owned(), lossy_value(stderr.as_slice())));
                assert(detail_keys(d@) =~= seq!["cwd"@, "stderr"@]);
                CliError { code: ErrorCode::NotGitRepository, message, details: d, execution: None }
            },
            GitCliError::UnsupportedRepositoryLayout { cwd, reason } => {
                d.push(("cwd".to_owned(), text_value(cwd.as_str())));
                d.push(("reason".to_owned(), text_value(reason.as_str())));
                assert(detail_keys(d@) =~= seq!["cwd"@, "reason"@]);
                CliError { code: ErrorCode::UnsupportedRepositoryLayout, message, details: d, execution: None }
            },
            GitCliError::GitCommandFailed(failure) => {
                d.push(("cwd".to_owned(), text_value(failure.cwd.as_str())));
                d.push(("argv".to_owned(), text_list_value(&failure.args)));
                d.push(("exitCode".to_owned(), int_or_null_value(failure.exit_code)));
                d.push(("timedOut".to_owned(), DetailValue::Bool(failure.timed_out)));
                d.push(("stdout".to_owned(), lossy_value(failure.stdout.as_slice())));
                d.push(("stderr".to_owned(), lossy_value(failure.stderr.as_slice())));
                let cause = match &failure.source {
                    Some(source) => {
                        let text = source.describe();
                        text_value(text.as_str())
                    },
                    None => DetailValue::Null,
                };
                d.push(("cause".to_owned(), cause));
                assert(detail_keys(d@) =~= seq!["cwd"@, "argv"@, "exitCode"@, "timedOut"@, "stdout"@, "stderr"@, "cause"@]);
                CliError { code: ErrorCode::GitCommandFailed, message, details: d, execution: None }
            },
        }
    }
}

impl MapToCliError for ProcessError {
    fn map_to_cli_error(self) -> (error: CliError)
        ensures
            error.code == ErrorCode::ChildProcessFailed,
            error.message@ == describe_process_error(self),
            error.details@.len() == 0,
            error.execution is None,
    {
        let message = self.describe();
        CliError { code: ErrorCode::ChildProcessFailed, message, details: Vec::new(), execution: None }
    }
}

// ----- hooks -----

/// When a hook runs relative to the mutation.
#[derive(Clone, Copy, Debug, PartialEq, Eq, Structural)]
pub enum HookPhase {
    Pre,
    Post,
}

pub open spec fn phase_name(phase: HookPhase) -> Seq<char> {
    match phase {
        HookPhase::Pre => "pre"@,
        HookPhase::Post => "post"@,
    }
}

impl HookPhase {
    pub fn as_str(&self) -> (name: &'static str)
        ensures
            name@ == phase_name(*self),
    {
        match self {
            HookPhase::Pre => "pre",
            HookPhase::Post => "post",
        }
    }
}

/// One finished hook run.
#[derive(Clone, Debug, PartialEq, Eq)]
pub struct HookExecution {
    pub started_at: String,
    pub ended_at: String,
    pub exit_code: Option<i32>,
    pub timed_out: bool,
    pub stderr: String,
}

/// How a hook invocation ended.
#[derive(Clone, Debug, PartialEq, Eq)]
pub enum HookOutcome {
    Missing { path: String },
    NonExecutable { path: String },
    TimedOut(HookExecution),
    NonZero(HookExecution),
    SpawnFailure { execution: HookExecution, message: String },
    Success(HookExecution),
}

/// A hook run with where it is logged.
#[derive(Clone, Debug, PartialEq, Eq)]
pub struct HookRunReport {
    pub hook: String,
    pub phase: HookPhase,
    pub log_path: String,
    pub outcome: HookOutcome,
}

pub open spec fn text_view(t: Seq<char>) -> DetailView {
    DetailView::Text(t)
}

pub open spec fn int_or_null_view(value: Option<i32>) -> DetailView {
    match value {
        Some(n) => DetailView::Int(n as i64),
        None => DetailView::Null,
    }
}

/// The details recorded for a finished hook run.
pub open spec fn execution_details(e: HookExecution) -> Seq<(Seq<char>, DetailView)> {
    seq![
        ("exitCode"@, int_or_null_view(e.exit_code)),
        ("timedOut"@, DetailView::Bool(e.timed_out)),
        ("stderr"@, text_view(e.stderr@)),
        ("startedAt"@, text_view(e.started_at@)),
        ("endedAt"@, text_view(e.ended_at@)),
    ]
}

pub open spec fn hook_outcome_code(outcome: HookOutcome) -> ErrorCode {
    match outcome {
        HookOutcome::Missing { .. } => ErrorCode::HookNotFound,
        HookOutcome::NonExecutable { .. } => ErrorCode::HookNotExecutable,
        HookOutcome::TimedOut(_) => ErrorCode::HookTimeout,
        HookOutcome::NonZero(_) => ErrorCode::HookFailed,
        HookOutcome::SpawnFailure { .. } => ErrorCode::HookFailed,
        HookOutcome::Success(_) => ErrorCode::InternalError,
    }
}

pub open spec fn hook_outcome_message(outcome: HookOutcome) -> Seq<char> {
    match outcome {
        HookOutcome::Missing { path } => "hook was not found: "@ + path@,
        HookOutcome::NonExecutable { path } => "hook is not executable: "@ + path@,
        HookOutcome::TimedOut(_) => "hook execution timed out"@,
        HookOutcome::NonZero(_) => "hook execution failed"@,
        HookOutcome::SpawnFailure { .. } => "hook execution failed"@,
        HookOutcome::Success(_) => "successful hook was classified as fatal"@,
    }
}

pub open spec fn hook_outcome_details(outcome: HookOutcome) -> Seq<(Seq<char>, DetailView)> {
    match outcome {
        HookOutcome::Missing { path } => seq![("path"@, text_view(path@))],
        HookOutcome::NonExecutable { path } => seq![("path"@, text_view(path@))],
        HookOutcome::TimedOut(e) => execution_details(e),
        HookOutcome::NonZero(e) => execution_details(e),
        HookOutcome::SpawnFailure { execution, message } => execution_details(execution).push(
            ("cause"@, text_view(message@)),
        ),
        HookOutcome::Success(_) => Seq::empty(),
    }
}

fn execution_entries(e: &HookExecution) -> (d: Vec<(String, DetailValue)>)
    ensures
        crate::error::object_view(d@) == execution_details(*e),
{
    let mut d: Vec<(String, DetailValue)> = Vec::new();
    d.push(("exitCode".to_owned(), int_or_null_value(e.exit_code)));
    d.push(("timedOut".to_owned(), DetailValue::Bool(e.timed_out)));
    d.push(("stderr".to_owned(), text_value(e.stderr.as_str())));
    d.push(("startedAt".to_owned(), text_value(e.started_at.as_str())));
    d.push(("endedAt".to_owned(), text_value(e.ended_at.as_str())));
    proof {
        crate::error::lemma_object_view_index(d@);
        assert(crate::error::object_view(d@) =~= execution_details(*e));
    }
    d
}

fn path_entries(path: &str) -> (d: Vec<(String, DetailValue)>)
    ensures
        crate::error::object_view(d@) == seq![("path"@, text_view(path@))],
{
    let mut d: Vec<(String, DetailValue)> = Vec::new();
    d.push(("path".to_owned(), text_value(path)));
    proof {
        crate::error::lemma_object_view_index(d@);
        assert(crate::error::object_view(d@) =~= seq![("path"@, text_view(path@))]);
    }
    d
}

/// The error for a hook run that must stop the command.
pub fn map_hook_outcome(outcome: &HookOutcome) -> (error: CliError)
    ensures
        error.code == hook_outcome_code(*outcome),
        error.message@ == hook_outcome_message(*outcome),
        crate::error::object_view(error.details@) == hook_outcome_details(*outcome),
        error.execution is None,
{
    match outcome {
        HookOutcome::Missing { path } => {
            let mut message = String::from_str("hook was not found: ");
            message.append(path.as_str());
            CliError { code: ErrorCode::HookNotFound, message, details: path_entries(path.as_str()), execution: None }
        },
        HookOutcome::NonExecutable { path } => {
            let mut message = String::from_str("hook is not executable: ");
            message.append(path.as_str());
            CliError {
                code: ErrorCode::HookNotExecutable,
                message,
                details: path_entries(path.as_str()),
                execution: None,
            }
        },
        HookOutcome::TimedOut(e) => CliError {
            code: ErrorCode::HookTimeout,
            message: String::from_str("hook execution timed out"),
            details: execution_entries(e),
            execution: None,
        },
        HookOutcome::NonZero(e) => CliError {
            code: ErrorCode::HookFailed,
            message: String::from_str("hook execution failed"),
            details: execution_entries(e),
            execution: None,
        },
        HookOutcome::SpawnFailure { execution, message } => {
            let mut d = execution_entries(execution);
            let ghost before = d@;
            let entry = ("cause".to_owned(), text_value(message.as_str()));
            proof {
                crate::error::lemma_object_view_push(before, entry);
            }
            d.push(entry);
            CliError {
                code: ErrorCode::HookFailed,
                message: String::from_str("hook execution failed"),
                details: d,
                execution: None,
            }
        },
        HookOutcome::Success(_) => {
            let error = CliError::new(ErrorCode::InternalError, "successful hook was classified as fatal");
            assert(crate::error::object_view(error.details@) =~= Seq::<(Seq<char>, DetailView)>::empty());
            error
        },
    }
}

pub open spec fn hook_execution_phase(phase: HookPhase) -> ExecutionPhase {
    match phase {
        HookPhase::Pre => ExecutionPhase::PreHook,
        HookPhase::Post => ExecutionPhase::PostHook,
    }
}

/// The error for a failed hook run with the hook's name, phase and log path added to the
/// details, marked as raised in the hook's phase with an unknown outcome.
pub fn map_hook_report(report: &HookRunReport) -> (error: CliError)
    ensures
        error.code == hook_outcome_code(report.outcome),
        error.message@ == hook_outcome_message(report.outcome),
        crate::error::object_view(error.details@) == view_insert(
            view_insert(
                view_insert(hook_outcome_details(report.outcome), "hook"@, text_view(report.hook@)),
                "phase"@,
                text_view(phase_name(report.phase)),
            ),
            "logPath"@,
            text_view(report.log_path@),
        ),
        error.execution matches Some(x) && x.phase == hook_execution_phase(report.phase) && x.state
            == ExecutionState::Unknown && x.completed@.len() == 0 && x.recovery@.len() == 0,
{
    let mut error = map_hook_outcome(&report.outcome);
    insert_entry(&mut error.details, "hook", text_value(report.hook.as_str()));
    insert_entry(&mut error.details, "phase", text_value(report.phase.as_str()));
    insert_entry(&mut error.details, "logPath", text_value(report.log_path.as_str()));
    let phase = match report.phase {
        HookPhase::Pre => ExecutionPhase::PreHook,
        HookPhase::Post => ExecutionPhase::PostHook,
    };
    error.execution = Some(
        ExecutionReport { phase, state: ExecutionState::Unknown, completed: Vec::new(), recovery: Vec::new() },
    );
    error
}

// ----- transactions -----

/// The detail keys that point at recovery material.
pub open spec fn recovery_keys() -> Seq<Seq<char>> {
    seq![
        "recoveryPath"@, "backupPath"@, "stagedPath"@, "transactionPath"@,
        "recoveryPathUnavailable"@, "recoveryPathError"@, "rollbackFailures"@, "cleanupError"@,
        "transactionCleanupError"@,
    ]
}

pub open spec fn flag_is(d: Seq<(String, DetailValue)>, key: Seq<char>, value: bool) -> bool {
    detail_of(d, key) == Some(DetailValue::Bool(value))
}

/// What a transaction failure left behind, read from its details.
pub open spec fn transaction_state(d: Seq<(String, DetailValue)>) -> ExecutionState {
    if flag_is(d, "recoveryRequired"@, true) || flag_is(d, "rollbackFailed"@, true) {
        ExecutionState::RecoveryRequired
    } else if flag_is(d, "committed"@, true) {
        ExecutionState::Applied
    } else if flag_is(d, "committed"@, false) {
        ExecutionState::RolledBack
    } else {
        ExecutionState::Unknown
    }
}

/// The apply step counts as completed when the transaction committed and was not rolled
/// back unsuccessfully.
pub open spec fn transaction_completed(d: Seq<(String, DetailValue)>) -> Seq<Seq<char>> {
    if flag_is(d, "committed"@, true) && !flag_is(d, "rollbackFailed"@, true) {
        seq!["apply"@]
    } else {
        Seq::empty()
    }
}

/// The recovery entries after copying the recovery keys present in the details, in order.
pub open spec fn recovery_after(recovery: Seq<(Seq<char>, DetailView)>, details: Seq<(String, DetailValue)>, keys: Seq<Seq<char>>) -> Seq<(Seq<char>, DetailView)>
    decreases keys.len(),
{
    if keys.len() == 0 {
        recovery
    } else {
        let prev = recovery_after(recovery, details, keys.drop_last());
        match detail_of(details, keys.last()) {
            Some(v) => view_insert(prev, keys.last(), detail_view(v)),
            None => prev,
        }
    }
}

pub(crate) fn flag(error: &CliError, key: &str, value: bool) -> (found: bool)
    ensures
        found == flag_is(error.details@, key@, value),
{
    match error.detail(key) {
        Some(DetailValue::Bool(b)) => *b == value,
        _ => false,
    }
}

fn recovery_key_list() -> (keys: Vec<&'static str>)
    ensures
        keys@.map_values(|k: &str| k@) == recovery_keys(),
{
    let mut keys: Vec<&'static str> = Vec::new();
    keys.push("recoveryPath");
    keys.push("backupPath");
    keys.push("stagedPath");
    keys.push("transactionPath");
    keys.push("recoveryPathUnavailable");
    keys.push("recoveryPathError");
    keys.push("rollbackFailures");
    keys.push("cleanupError");
    keys.push("transactionCleanupError");
    assert(keys@.map_values(|k: &str| k@) =~= recovery_keys());
    keys
}

/// Marks a transaction failure with the phase it happened in, what it left behind (read from
/// the `recoveryRequired`, `rollbackFailed` and `committed` flags) and copies of the details
/// that point at recovery material; code, message and details stay as they were.
pub fn map_transaction_error(error: CliError, phase: ExecutionPhase) -> (mapped: CliError)
    ensures
        mapped.code == error.code,
        mapped.message == error.message,
        mapped.details == error.details,
        mapped.execution matches Some(x) && x.phase == phase && x.state == transaction_state(error.details@)
            && x.completed@.map_values(|c: String| c@) == transaction_completed(error.details@)
            && crate::error::object_view(x.recovery@) == recovery_after(
            match error.execution {
                Some(old) => crate::error::object_view(old.recovery@),
                None => Seq::empty(),
            },
            error.details@,
            recovery_keys(),
        ),
{
    let mut error = error;
    let ghost original = error;
    let mut recovery: Vec<(String, DetailValue)> = match error.execution {
        Some(report) => report.recovery,
        None => Vec::new(),
    };
    error.execution = None;
    let ghost start = crate::error::object_view(recovery@);
    let keys = recovery_key_list();
    let mut i: usize = 0;
    while i < keys.len()
        invariant
            i <= keys@.len(),
            keys@.map_values(|k: &str| k@) == recovery_keys(),
            error.details == original.details,
            crate::error::object_view(recovery@) == recovery_after(start, original.details@, recovery_keys().take(i as int)),
        decreases keys.len() - i,
    {
        assert(recovery_keys().take(i + 1).drop_last() =~= recovery_keys().take(i as int));
        assert(recovery_keys().take(i + 1).last() == keys@[i as int]@);
        match error.detail(keys[i]) {
            Some(value) => {
                let copy = crate::error::copy_detail(value);
                insert_entry(&mut recovery, keys[i], copy);
            },
            None => {},
        }
        i = i + 1;
    }
    assert(recovery_keys().take(keys@.len() as int) =~= recovery_keys());
    let state = if flag(&error, "recoveryRequired", true) || flag(&error, "rollbackFailed", true) {
        ExecutionState::RecoveryRequired
    } else if flag(&error, "committed", true) {
        ExecutionState::Applied
    } else if flag(&error, "committed", false) {
        ExecutionState::RolledBack
    } else {
        ExecutionState::Unknown
    };
    let mut completed: Vec<String> = Vec::new();
    if flag(&error, "committed", true) && !flag(&error, "rollbackFailed", true) {
        completed.push(String::from_str("apply"));
    }
    assert(completed@.map_values(|c: String| c@) =~= transaction_completed(original.details@));
    error.execution = Some(ExecutionReport { phase, state, completed, recovery });
    error
}


/// What went wrong in the journal of a metadata transaction.
#[derive(Clone, Copy, Debug, PartialEq, Eq, Structural)]
pub enum MetadataTransactionFailure {
    LifecycleObservation,
    InvalidBranchNames,
    InvalidBaseBranch,
    InvalidWorktreePaths,
    InvalidMetadata,
    TargetExists,
    PendingTransaction,
    InvalidJournal,
    RecoveryConflict,
    Io,
    Timestamp,
    InjectedCrash,
}

/// A failure of a metadata transaction, with the journal's description of it.
#[derive(Debug)]
pub struct MetadataTransactionError {
    pub failure: MetadataTransactionFailure,
    pub message: String,
}

/// Metadata that is invalid, a target that exists, a pending transaction and a recovery
/// conflict are lock conflicts; every other failure is internal.
pub open spec fn metadata_failure_code(failure: MetadataTransactionFailure) -> ErrorCode {
    match failure {
        MetadataTransactionFailure::InvalidMetadata
        | MetadataTransactionFailure::TargetExists
        | MetadataTransactionFailure::PendingTransaction
        | MetadataTransactionFailure::RecoveryConflict => ErrorCode::LockConflict,
        _ => ErrorCode::InternalError,
    }
}

/// The command-line error of a metadata transaction failure: its code by the kind of failure,
/// the journal's description as message, no details.
pub fn map_metadata_transaction_error(error: &MetadataTransactionError) -> (mapped: CliError)
    ensures
        crate::error::plain_error(mapped, metadata_failure_code(error.failure), error.message@),
{
    let code = match error.failure {
        MetadataTransactionFailure::InvalidMetadata
        | MetadataTransactionFailure::TargetExists
        | MetadataTransactionFailure::PendingTransaction
        | MetadataTransactionFailure::RecoveryConflict => ErrorCode::LockConflict,
        _ => ErrorCode::InternalError,
    };
    CliError::new(code, error.message.as_str())
}

} // verus!
