//! `invoke`: running one of the repository's hooks by hand in the current worktree, with the
//! context the hook would see during a mutation.

use vstd::prelude::*;

use crate::change::{first_at, worktree_at, SnapshotWorktree};
use crate::config::{CommonOptions, ResolvedConfig};
use crate::error::{object_view, CliError, DetailValue, DetailView, ErrorCode};
use crate::mapping::{map_hook_report, text_view, HookPhase, HookRunReport};
use crate::pipeline::{hook_timeout_ms, hook_timeout_spec, CommandOutput};
use crate::plans::opt_text;
use crate::text::{matches_at, starts_with_str};

verus! {

/// What a hook run sees.
#[derive(Debug, PartialEq, Eq)]
pub struct HookInvocation {
    pub repo_root: String,
    /// `invoke:<hook>`.
    pub command: String,
    pub branch: Option<String>,
    pub worktree_path: String,
    pub execution_cwd: String,
    pub is_tty: bool,
    pub timeout_ms: u64,
}

/// A finished hook run, and whether its failure is fatal.
#[derive(Debug)]
pub struct HookRun {
    pub report: HookRunReport,
    pub fatal: bool,
}

/// The texts of a hook's arguments.
pub open spec fn hook_arguments_view(arguments: Seq<String>) -> Seq<Seq<char>> {
    arguments.map_values(|a: String| a@)
}

/// The hook runner, which lives outside this crate.
pub trait HookRunner {
    /// Whether this runner may answer `result` when asked to run `hook` in `phase` with
    /// `arguments` and `context`. A runner that says nothing of its answers may give any.
    open spec fn run_answer(
        &self,
        phase: HookPhase,
        hook: Seq<char>,
        arguments: Seq<Seq<char>>,
        context: HookInvocation,
        result: Result<HookRun, CliError>,
    ) -> bool {
        true
    }

    /// Runs `hook` in `phase` with `arguments`, logging its output.
    fn run_hook(&self, phase: HookPhase, hook: &str, arguments: &[String], context: &HookInvocation) -> (result: Result<HookRun, CliError>)
        ensures
            self.run_answer(phase, hook@, hook_arguments_view(arguments@), *context, result),
    ;
}

/// A hook named `pre-…` runs in the pre phase; any other in the post phase.
pub open spec fn invoked_phase(hook: Seq<char>) -> HookPhase {
    if matches_at(hook, "pre-"@, 0) {
        HookPhase::Pre
    } else {
        HookPhase::Post
    }
}

/// The context of a hook invoked in the worktree `current`.
pub open spec fn invocation_ok(
    repo_root: Seq<char>,
    hook: Seq<char>,
    current: SnapshotWorktree,
    is_tty: bool,
    timeout_ms: u64,
    context: HookInvocation,
) -> bool {
    &&& context.repo_root@ == repo_root
    &&& context.command@ == "invoke:"@ + hook
    &&& context.branch == current.branch
    &&& context.worktree_path == current.path
    &&& context.execution_cwd == current.path
    &&& context.is_tty == is_tty
    &&& context.timeout_ms == timeout_ms
}

/// The error when the current directory is not a listed worktree.
pub open spec fn is_unlisted_current(error: CliError, path: Seq<char>) -> bool {
    &&& error.code == ErrorCode::WorktreeNotFound
    &&& error.message@ == "current worktree is not present in Git worktree metadata"@
    &&& error.execution is None
    &&& object_view(error.details@) == seq![("path"@, text_view(path))]
}

/// What `invoke` answers for the outcome of the hook run: the run's own error, the mapped
/// report of a fatal failure, or the hook's name.
pub open spec fn invoked_ok(hook: Seq<char>, run: Result<HookRun, CliError>, result: Result<CommandOutput, CliError>) -> bool {
    match run {
        Err(e) => result == Err::<CommandOutput, CliError>(e),
        Ok(r) => if r.fatal {
            result matches Err(e) && e.code == crate::mapping::hook_outcome_code(r.report.outcome)
                && e.message@ == crate::mapping::hook_outcome_message(r.report.outcome)
        } else {
            result matches Ok(out) && out.partial_error is None && crate::error::detail_view(out.data)
                == DetailView::Object(seq![("hook"@, text_view(hook))])
        },
    }
}

/// The phase of an invoked hook.
pub fn invocation_phase(hook: &str) -> (phase: HookPhase)
    ensures
        phase == invoked_phase(hook@),
{
    if starts_with_str(hook, "pre-") {
        HookPhase::Pre
    } else {
        HookPhase::Post
    }
}

/// The context of `hook` invoked in the worktree `current`.
pub fn hook_invocation(repo_root: &str, hook: &str, current: &SnapshotWorktree, is_tty: bool, timeout_ms: u64) -> (context: HookInvocation)
    ensures
        invocation_ok(repo_root@, hook@, *current, is_tty, timeout_ms, context),
{
    let mut command = String::from_str("invoke:");
    command.append(hook);
    HookInvocation {
        repo_root: repo_root.to_owned(),
        command,
        branch: match &current.branch {
            Some(b) => Some(b.clone()),
            None => None,
        },
        worktree_path: current.path.clone(),
        execution_cwd: current.path.clone(),
        is_tty,
        timeout_ms,
    }
}

/// Runs `hook` with `arguments` in the current worktree, with the hook timeout of the
/// command line or, failing that, of the configuration.
pub fn invoke_hook<H: HookRunner>(
    runner: &H,
    repo_root: &str,
    current_worktree_root: &str,
    worktrees: &[SnapshotWorktree],
    common: &CommonOptions,
    config: &ResolvedConfig,
    hook: &str,
    arguments: &[String],
    terminal_is_tty: bool,
) -> (result: Result<CommandOutput, CliError>)
    ensures
        match first_at(worktrees@, current_worktree_root@) {
            None => result matches Err(e) && is_unlisted_current(e, current_worktree_root@),
            Some(current) => exists|run: Result<HookRun, CliError>| #[trigger] invoked_ok(hook@, run, result),
        },
        first_at(worktrees@, current_worktree_root@) matches Some(current) ==> exists|
            context: HookInvocation,
            run: Result<HookRun, CliError>,
        |
            #[trigger] runner.run_answer(invoked_phase(hook@), hook@, hook_arguments_view(arguments@), context, run)
                && invocation_ok(repo_root@, hook@, current, terminal_is_tty, hook_timeout_spec(*common, *config), context)
                && invoked_ok(hook@, run, result),
{
    let current = match worktree_at(worktrees, current_worktree_root) {
        Some(found) => found,
        None => {
            let mut error = CliError::new(
                ErrorCode::WorktreeNotFound,
                "current worktree is not present in Git worktree metadata",
            );
            assert(object_view(error.details@) == Seq::<(Seq<char>, DetailView)>::empty());
            crate::placement::text_entry(&mut error, "path", current_worktree_root);
            proof {
                crate::placement::lemma_view_insert_new(Seq::empty(), "path"@, text_view(current_worktree_root@));
                assert(Seq::<(Seq<char>, DetailView)>::empty().push(("path"@, text_view(current_worktree_root@)))
                    =~= seq![("path"@, text_view(current_worktree_root@))]);
            }
            return Err(error);
        },
    };
    let context = hook_invocation(repo_root, hook, current, terminal_is_tty, hook_timeout_ms(common, config));
    let phase = invocation_phase(hook);
    let run = runner.run_hook(phase, hook, arguments, &context);
    let ghost r = run;
    let result = match run {
        Err(error) => Err(error),
        Ok(done) => if done.fatal {
            Err(map_hook_report(&done.report))
        } else {
            let mut entries: Vec<(String, DetailValue)> = Vec::new();
            entries.push(("hook".to_owned(), DetailValue::Text(hook.to_owned())));
            proof {
                crate::error::lemma_object_view_index(entries@);
                assert(object_view(entries@) =~= seq![("hook"@, text_view(hook@))]);
            }
            Ok(CommandOutput::new(DetailValue::Object(entries)))
        },
    };
    assert(invoked_ok(hook@, r, result));
    assert(runner.run_answer(invoked_phase(hook@), hook@, hook_arguments_view(arguments@), context, r));
    result
}

} // verus!
