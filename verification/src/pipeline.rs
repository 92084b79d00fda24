//! Command dispatch: which commands write, the order of a mutation's stages
//! (plan, stage, pre-hook, apply, state update, post-hook), what a failure at each stage
//! leads to, and how hook failures are folded into the command's result.

use vstd::prelude::*;

use crate::config::{mutation_hooks_spec, CommonOptions, ResolvedConfig};
use crate::error::{
    code_name, detail_view, insert_entry, object_view, view_insert, CliError, DetailValue,
    DetailView, ErrorCode,
};
use crate::git::RepoContext;
use crate::mapping::HookPhase;

verus! {

/// The commands of the command line.
#[derive(Clone, Copy, Debug, PartialEq, Eq, Structural)]
pub enum CommandKind {
    Init,
    List,
    Status,
    Path,
    New,
    Switch,
    Mv,
    Del,
    Gone,
    Adopt,
    Get,
    Extract,
    Absorb,
    Unabsorb,
    Use,
    Exec,
    Invoke,
    Copy,
    Link,
    Lock,
    Unlock,
    Cd,
    Completion,
    CompletionCandidates,
    Doctor,
    Config,
    Context,
}

/// Commands that change the repository, its worktrees or the tool's state.
pub open spec fn is_write_command_spec(command: CommandKind) -> bool {
    match command {
        CommandKind::Init | CommandKind::New | CommandKind::Switch | CommandKind::Mv | CommandKind::Del
        | CommandKind::Gone | CommandKind::Adopt | CommandKind::Get | CommandKind::Extract
        | CommandKind::Absorb | CommandKind::Unabsorb | CommandKind::Use | CommandKind::Lock
        | CommandKind::Unlock => true,
        _ => false,
    }
}

/// Write commands other than `lock` and `unlock` run the user's pre- and post-hooks.
pub open spec fn uses_command_hooks_spec(command: CommandKind) -> bool {
    is_write_command_spec(command) && command != CommandKind::Lock && command != CommandKind::Unlock
}

pub fn is_write_command(command: &CommandKind) -> (write: bool)
    ensures
        write == is_write_command_spec(*command),
{
    match command {
        CommandKind::Init | CommandKind::New | CommandKind::Switch | CommandKind::Mv | CommandKind::Del
        | CommandKind::Gone | CommandKind::Adopt | CommandKind::Get | CommandKind::Extract
        | CommandKind::Absorb | CommandKind::Unabsorb | CommandKind::Use | CommandKind::Lock
        | CommandKind::Unlock => true,
        _ => false,
    }
}

pub fn uses_command_hooks(command: &CommandKind) -> (hooks: bool)
    ensures
        hooks == uses_command_hooks_spec(*command),
{
    is_write_command(command) && !matches!(command, CommandKind::Lock | CommandKind::Unlock)
}

/// What a hook run that did not fail reports.
#[derive(Clone, Debug, PartialEq, Eq)]
pub enum ApplicationHookResult {
    Continue,
    Warning(String),
}

/// A warning is appended to the collected warnings; `Continue` adds nothing.
pub fn collect_hook_result(result: ApplicationHookResult, warnings: &mut String)
    ensures
        final(warnings)@ == old(warnings)@ + match result {
            ApplicationHookResult::Warning(text) => text@,
            ApplicationHookResult::Continue => Seq::empty(),
        },
{
    match result {
        ApplicationHookResult::Warning(text) => {
            warnings.append(text.as_str());
        },
        ApplicationHookResult::Continue => {
            assert(warnings@ =~= old(warnings)@ + Seq::<char>::empty());
        },
    }
}

/// The result of a command: its data, what it prints, and, for a partial success, the error
/// that stopped it.
#[derive(Debug)]
pub struct CommandOutput {
    pub data: DetailValue,
    pub human_stdout: String,
    pub human_stderr: String,
    pub partial_error: Option<CliError>,
}

impl CommandOutput {
    pub fn new(data: DetailValue) -> (output: Self)
        ensures
            output.data == data,
            output.human_stdout@.len() == 0,
            output.human_stderr@.len() == 0,
            output.partial_error is None,
    {
        CommandOutput { data, human_stdout: String::new(), human_stderr: String::new(), partial_error: None }
    }

    pub fn partial(data: DetailValue, error: CliError) -> (output: Self)
        ensures
            output.data == data,
            output.human_stdout@.len() == 0,
            output.human_stderr@.len() == 0,
            output.partial_error == Some(error),
    {
        CommandOutput {
            data,
            human_stdout: String::new(),
            human_stderr: String::new(),
            partial_error: Some(error),
        }
    }
}

/// An error written as a detail object: its code, message and details.
pub open spec fn error_object_view(error: CliError) -> DetailView {
    DetailView::Object(
        seq![
            ("code"@, DetailView::Text(code_name(error.code))),
            ("message"@, DetailView::Text(error.message@)),
            ("details"@, DetailView::Object(object_view(error.details@))),
        ],
    )
}

pub fn error_object(error: CliError) -> (value: DetailValue)
    ensures
        detail_view(value) == error_object_view(error),
{
    let ghost original = error;
    let mut entries: Vec<(String, DetailValue)> = Vec::new();
    entries.push(("code".to_owned(), DetailValue::Text(error.code.as_str().to_owned())));
    entries.push(("message".to_owned(), DetailValue::Text(error.message)));
    entries.push(("details".to_owned(), DetailValue::Object(error.details)));
    proof {
        crate::error::lemma_object_view_index(entries@);
        assert(object_view(entries@) =~= seq![
            ("code"@, DetailView::Text(code_name(original.code))),
            ("message"@, DetailView::Text(original.message@)),
            ("details"@, DetailView::Object(object_view(original.details@))),
        ]);
    }
    DetailValue::Object(entries)
}

/// A pre-hook error whose staged changes could not be restored: the hook error stays the
/// primary error and records the failed restore.
pub fn hook_error_with_restore_failure(hook_error: CliError, restore_error: CliError) -> (error: CliError)
    ensures
        error.code == hook_error.code,
        error.message == hook_error.message,
        error.execution == hook_error.execution,
        object_view(error.details@) == view_insert(
            view_insert(object_view(hook_error.details@), "autoRestoreFailed"@, DetailView::Bool(true)),
            "autoRestoreError"@,
            error_object_view(restore_error),
        ),
{
    let mut error = hook_error;
    insert_entry(&mut error.details, "autoRestoreFailed", DetailValue::Bool(true));
    insert_entry(&mut error.details, "autoRestoreError", error_object(restore_error));
    error
}

/// A post-hook failure after a partially successful command is recorded in the partial
/// error and the output survives; after a full success it becomes the command's error.
pub open spec fn post_hook_outcome_ok(output: CommandOutput, post_error: CliError, result: Result<CommandOutput, CliError>) -> bool {
    match output.partial_error {
        Some(partial) => {
            &&& result matches Ok(o)
            &&& result->Ok_0.data == output.data
            &&& result->Ok_0.human_stdout == output.human_stdout
            &&& result->Ok_0.human_stderr == output.human_stderr
            &&& result->Ok_0.partial_error matches Some(p)
            &&& result->Ok_0.partial_error->Some_0.code == partial.code
            &&& result->Ok_0.partial_error->Some_0.message == partial.message
            &&& result->Ok_0.partial_error->Some_0.execution == partial.execution
            &&& object_view(result->Ok_0.partial_error->Some_0.details@) == view_insert(
                object_view(partial.details@),
                "postHookError"@,
                error_object_view(post_error),
            )
        },
        None => result == Err::<CommandOutput, CliError>(post_error),
    }
}

pub fn attach_post_hook_error(output: CommandOutput, post_error: CliError) -> (result: Result<CommandOutput, CliError>)
    ensures
        post_hook_outcome_ok(output, post_error, result),
{
    let mut output = output;
    match output.partial_error {
        Some(mut partial) => {
            insert_entry(&mut partial.details, "postHookError", error_object(post_error));
            output.partial_error = Some(partial);
            Ok(output)
        },
        None => Err(post_error),
    }
}

// ----- the mutation pipeline -----

/// The stages of a mutation.
#[derive(Clone, Copy, Debug, PartialEq, Eq, Structural)]
pub enum PipelineStage {
    Plan,
    Stage,
    PreHook,
    RollbackStage,
    Apply,
    UpdateState,
    PostHook,
}

/// The stage that follows `stage`, given whether it succeeded and whether hooks run: a
/// failed stage ends the mutation, except a failed pre-hook, which rolls the staging back.
pub open spec fn next_stage_spec(stage: PipelineStage, succeeded: bool, hooks_active: bool) -> Option<PipelineStage> {
    match stage {
        PipelineStage::Plan => if succeeded {
            Some(PipelineStage::Stage)
        } else {
            None
        },
        PipelineStage::Stage => if !succeeded {
            None
        } else if hooks_active {
            Some(PipelineStage::PreHook)
        } else {
            Some(PipelineStage::Apply)
        },
        PipelineStage::PreHook => if succeeded {
            Some(PipelineStage::Apply)
        } else {
            Some(PipelineStage::RollbackStage)
        },
        PipelineStage::RollbackStage => None,
        PipelineStage::Apply => if succeeded {
            Some(PipelineStage::UpdateState)
        } else {
            None
        },
        PipelineStage::UpdateState => if succeeded && hooks_active {
            Some(PipelineStage::PostHook)
        } else {
            None
        },
        PipelineStage::PostHook => None,
    }
}

pub fn next_stage(stage: PipelineStage, succeeded: bool, hooks_active: bool) -> (next: Option<PipelineStage>)
    ensures
        next == next_stage_spec(stage, succeeded, hooks_active),
{
    match stage {
        PipelineStage::Plan => if succeeded {
            Some(PipelineStage::Stage)
        } else {
            None
        },
        PipelineStage::Stage => if !succeeded {
            None
        } else if hooks_active {
            Some(PipelineStage::PreHook)
        } else {
            Some(PipelineStage::Apply)
        },
        PipelineStage::PreHook => if succeeded {
            Some(PipelineStage::Apply)
        } else {
            Some(PipelineStage::RollbackStage)
        },
        PipelineStage::RollbackStage => None,
        PipelineStage::Apply => if succeeded {
            Some(PipelineStage::UpdateState)
        } else {
            None
        },
        PipelineStage::UpdateState => if succeeded && hooks_active {
            Some(PipelineStage::PostHook)
        } else {
            None
        },
        PipelineStage::PostHook => None,
    }
}

/// The stages of a mutation in which every stage succeeds.
pub open spec fn successful_run(hooks_active: bool) -> Seq<PipelineStage> {
    if hooks_active {
        seq![
            PipelineStage::Plan, PipelineStage::Stage, PipelineStage::PreHook, PipelineStage::Apply,
            PipelineStage::UpdateState, PipelineStage::PostHook,
        ]
    } else {
        seq![PipelineStage::Plan, PipelineStage::Stage, PipelineStage::Apply, PipelineStage::UpdateState]
    }
}

/// The stages a mutation can run: the successful run up to the stage that failed, or, after
/// a failed pre-hook, the rollback of the staging.
pub open spec fn valid_run(stages: Seq<PipelineStage>, hooks_active: bool) -> bool {
    let full = successful_run(hooks_active);
    ||| (1 <= stages.len() <= full.len() && full.take(stages.len() as int) == stages)
    ||| (hooks_active && stages == seq![
        PipelineStage::Plan,
        PipelineStage::Stage,
        PipelineStage::PreHook,
        PipelineStage::RollbackStage,
    ])
}

/// Law: following `next_stage_spec` from the plan with every stage succeeding visits exactly
/// the stages of the successful run, in order, and then stops.
pub proof fn law_successful_run_follows_next_stage(hooks_active: bool)
    ensures
        forall|i: int|
            0 <= i < successful_run(hooks_active).len() - 1 ==> next_stage_spec(
                #[trigger] successful_run(hooks_active)[i],
                true,
                hooks_active,
            ) == Some(successful_run(hooks_active)[i + 1]),
        next_stage_spec(successful_run(hooks_active).last(), true, hooks_active) is None,
        successful_run(hooks_active)[0] == PipelineStage::Plan,
{
}

/// Law: a failed stage never leads to a later stage; only a failed pre-hook leads anywhere,
/// and only to the rollback of the staging.
pub proof fn law_failure_stops_the_mutation(stage: PipelineStage, hooks_active: bool)
    ensures
        stage != PipelineStage::PreHook ==> next_stage_spec(stage, false, hooks_active) is None,
        stage == PipelineStage::PreHook ==> next_stage_spec(stage, false, hooks_active) == Some(
            PipelineStage::RollbackStage,
        ),
        next_stage_spec(PipelineStage::RollbackStage, true, hooks_active) is None,
{
}

/// Law: without active hooks no hook stage is ever reached.
pub proof fn law_no_hooks_without_activation(stage: PipelineStage, succeeded: bool)
    ensures
        next_stage_spec(stage, succeeded, false) != Some(PipelineStage::PreHook),
        next_stage_spec(stage, succeeded, false) != Some(PipelineStage::PostHook),
{
}

/// A plan that may declare that its command needs no hooks; unless it says otherwise, a
/// plan needs them.
pub trait PlannedMutation {
    fn requires_hooks(&self) -> (required: bool)
        default_ensures
            required,
    {
        true
    }
}

/// The operations dispatch needs from the application: repository context, configuration,
/// initialization, locking, hooks, and the mutation stages. Implementations perform the I/O;
/// nothing is assumed about what they return.
pub trait ApplicationBackend {
    type Request;
    type LockGuard;
    type MutationPlan: PlannedMutation;
    type MutationStage;
    type MutationResult;

    /// Whether the backend may answer `result` when asked for the repository context. A
    /// backend that says nothing of its answers may give any; so for the relations below.
    open spec fn context_answer(&self, result: Result<RepoContext, CliError>) -> bool {
        true
    }

    /// Whether the backend may answer `result` when asked for the configuration.
    open spec fn config_answer(&self, context: RepoContext, result: Result<ResolvedConfig, CliError>) -> bool {
        true
    }

    /// Whether the backend may answer `result` when asked whether the repository is set up.
    open spec fn initialized_answer(&self, repo_root: Seq<char>, result: Result<bool, CliError>) -> bool {
        true
    }

    /// Whether the backend may answer `result` when asked for the repository lock.
    open spec fn lock_answer(&self, context: RepoContext, timeout_ms: u64, command: Seq<char>, result: Result<Self::LockGuard, CliError>) -> bool {
        true
    }

    /// Whether the backend may answer `result` when asked to run a command that mutates
    /// nothing.
    open spec fn execute_answer(&self, request: Self::Request, context: Option<RepoContext>, result: Result<CommandOutput, CliError>) -> bool {
        true
    }

    fn resolve_repo_context(&self) -> (result: Result<RepoContext, CliError>)
        ensures
            self.context_answer(result),
    ;

    fn resolve_config(&self, context: &RepoContext) -> (result: Result<ResolvedConfig, CliError>)
        ensures
            self.config_answer(*context, result),
    ;

    fn is_initialized(&self, repo_root: &str) -> (result: Result<bool, CliError>)
        ensures
            self.initialized_answer(repo_root@, result),
    ;

    fn acquire_repo_lock(&self, context: &RepoContext, timeout_ms: u64, command: &str) -> (result: Result<Self::LockGuard, CliError>)
        ensures
            self.lock_answer(*context, timeout_ms, command@, result),
    ;

    /// Whether the backend may answer `result` when asked to run the hook of `phase` for
    /// `plan`. A backend that says nothing of its answers may give any; so for the relations
    /// below.
    open spec fn hook_answer(
        &self,
        phase: HookPhase,
        request: Self::Request,
        plan: Self::MutationPlan,
        timeout_ms: u64,
        result: Result<ApplicationHookResult, CliError>,
    ) -> bool {
        true
    }

    /// Whether the backend may answer `result` when asked to plan the mutation.
    open spec fn prepare_answer(&self, request: Self::Request, context: RepoContext, result: Result<Self::MutationPlan, CliError>) -> bool {
        true
    }

    /// Whether the backend may answer `result` when asked to stage `plan`.
    open spec fn stage_answer(
        &self,
        request: Self::Request,
        context: RepoContext,
        plan: Self::MutationPlan,
        result: Result<Self::MutationStage, CliError>,
    ) -> bool {
        true
    }

    /// Whether the backend may answer `result` when asked to roll back `stage`.
    open spec fn rollback_answer(
        &self,
        request: Self::Request,
        context: RepoContext,
        plan: Self::MutationPlan,
        stage: Self::MutationStage,
        result: Result<(), CliError>,
    ) -> bool {
        true
    }

    /// Whether the backend may answer `result` when asked to apply `plan` from `stage`.
    open spec fn apply_answer(
        &self,
        request: Self::Request,
        context: RepoContext,
        plan: Self::MutationPlan,
        stage: Self::MutationStage,
        result: Result<Self::MutationResult, CliError>,
    ) -> bool {
        true
    }

    /// Whether the backend may answer `result` when asked to record what applying gave.
    open spec fn update_answer(
        &self,
        request: Self::Request,
        context: RepoContext,
        plan: Self::MutationPlan,
        applied: Self::MutationResult,
        result: Result<CommandOutput, CliError>,
    ) -> bool {
        true
    }

    fn run_hook(&self, phase: HookPhase, request: &Self::Request, plan: &Self::MutationPlan, timeout_ms: u64) -> (result: Result<ApplicationHookResult, CliError>)
        ensures
            self.hook_answer(phase, *request, *plan, timeout_ms, result),
    ;

    fn prepare_mutation(&self, request: &Self::Request, context: &RepoContext) -> (result: Result<Self::MutationPlan, CliError>)
        ensures
            self.prepare_answer(*request, *context, result),
    ;

    fn stage_mutation(&self, request: &Self::Request, context: &RepoContext, plan: &Self::MutationPlan) -> (result: Result<Self::MutationStage, CliError>)
        ensures
            self.stage_answer(*request, *context, *plan, result),
    ;

    fn rollback_mutation_stage(&self, request: &Self::Request, context: &RepoContext, plan: &Self::MutationPlan, stage: &Self::MutationStage) -> (result: Result<(), CliError>)
        ensures
            self.rollback_answer(*request, *context, *plan, *stage, result),
    ;

    fn apply_mutation(&self, request: &Self::Request, context: &RepoContext, plan: &Self::MutationPlan, stage: Self::MutationStage) -> (result: Result<Self::MutationResult, CliError>)
        ensures
            self.apply_answer(*request, *context, *plan, stage, result),
    ;

    fn update_mutation_state(&self, request: &Self::Request, context: &RepoContext, plan: &Self::MutationPlan, result: Self::MutationResult) -> (output: Result<CommandOutput, CliError>)
        ensures
            self.update_answer(*request, *context, *plan, result, output),
    ;

    fn execute(&self, request: &Self::Request, context: Option<&RepoContext>) -> (result: Result<CommandOutput, CliError>)
        ensures
            self.execute_answer(
                *request,
                match context {
                    Some(c) => Some(*c),
                    None => None,
                },
                result,
            ),
    ;
}

/// How a mutation went: its result, the stages that ran and whether hooks were active.
#[derive(Debug)]
pub struct PipelineRun {
    pub result: Result<CommandOutput, CliError>,
    pub stages: Vec<PipelineStage>,
    pub hooks_active: bool,
}

/// What every mutation run satisfies, whatever the backend returned.
pub open spec fn pipeline_run_ok(run: PipelineRun, command: CommandKind, hooks_enabled: bool) -> bool {
    &&& run.hooks_active ==> hooks_enabled && uses_command_hooks_spec(command)
    &&& valid_run(run.stages@, run.hooks_active)
    &&& run.result is Ok ==> run.stages@ == successful_run(run.hooks_active)
    &&& run.stages@.last() == PipelineStage::RollbackStage ==> run.result is Err
}

/// A pre-hook failure after the staging was rolled back: the hook error when the rollback
/// succeeded, else the hook error recording the failed restore under `autoRestoreFailed`
/// and `autoRestoreError`.
pub open spec fn pre_hook_failure_result(hook_error: CliError, rollback: Result<(), CliError>, result: Result<CommandOutput, CliError>) -> bool {
    match rollback {
        Ok(_) => result == Err::<CommandOutput, CliError>(hook_error),
        Err(restore_error) => result matches Err(e) && e.code == hook_error.code && e.message == hook_error.message
            && e.execution == hook_error.execution && object_view(e.details@) == view_insert(
            view_insert(object_view(hook_error.details@), "autoRestoreFailed"@, DetailView::Bool(true)),
            "autoRestoreError"@,
            error_object_view(restore_error),
        ),
    }
}

/// The run of a mutation for the backend's answers: whether planning succeeded (and whether
/// the plan needs hooks), staging, the pre-hook, the rollback of the staging, applying, the
/// state update and the post-hook. The first failing step's error is the result; a failed
/// pre-hook rolls the staging back; a failed post-hook is recorded in a partial result.
pub open spec fn pipeline_answered(
    run: PipelineRun,
    command: CommandKind,
    hooks_enabled: bool,
    prepared: Result<bool, CliError>,
    staged: Result<(), CliError>,
    pre_hook: Result<(), CliError>,
    rollback: Result<(), CliError>,
    applied: Result<(), CliError>,
    updated: Result<CommandOutput, CliError>,
    post_hook: Result<(), CliError>,
) -> bool {
    match prepared {
        Err(e) => run.stages@ == seq![PipelineStage::Plan] && run.result == Err::<CommandOutput, CliError>(e) && !run.hooks_active,
        Ok(requires_hooks) => match staged {
            Err(e) => run.stages@ == seq![PipelineStage::Plan, PipelineStage::Stage] && run.result == Err::<CommandOutput, CliError>(e)
                && !run.hooks_active,
            Ok(_) => {
                let h = hooks_enabled && uses_command_hooks_spec(command) && requires_hooks;
                let before_apply: int = if h { 3 } else { 2 };
                &&& run.hooks_active == h
                &&& if h && pre_hook is Err {
                    &&& run.stages@ == seq![
                        PipelineStage::Plan,
                        PipelineStage::Stage,
                        PipelineStage::PreHook,
                        PipelineStage::RollbackStage,
                    ]
                    &&& pre_hook_failure_result(pre_hook->Err_0, rollback, run.result)
                } else {
                    match applied {
                        Err(e) => run.stages@ == successful_run(h).take(before_apply + 1) && run.result == Err::<
                            CommandOutput,
                            CliError,
                        >(e),
                        Ok(_) => match updated {
                            Err(e) => run.stages@ == successful_run(h).take(before_apply + 2) && run.result == Err::<
                                CommandOutput,
                                CliError,
                            >(e),
                            Ok(output) => run.stages@ == successful_run(h) && if !h {
                                run.result == Ok::<CommandOutput, CliError>(output)
                            } else {
                                match post_hook {
                                    Ok(_) => run.result == Ok::<CommandOutput, CliError>(output),
                                    Err(post_error) => post_hook_outcome_ok(output, post_error, run.result),
                                }
                            },
                        },
                    }
                }
            },
        },
    }
}

/// The result of a failed pre-hook once the staging's rollback answered.
pub fn pre_hook_outcome(hook_error: CliError, rollback: Result<(), CliError>) -> (result: Result<CommandOutput, CliError>)
    ensures
        pre_hook_failure_result(hook_error, rollback, result),
{
    match rollback {
        Ok(()) => Err(hook_error),
        Err(restore_error) => Err(hook_error_with_restore_failure(hook_error, restore_error)),
    }
}

/// The result of a mutation whose post-hook answered: the output, with a warning collected,
/// or with the post-hook's failure recorded in a partial result (an error otherwise).
pub fn post_hook_outcome(output: CommandOutput, answer: Result<ApplicationHookResult, CliError>, warnings: &mut String) -> (result: Result<CommandOutput, CliError>)
    ensures
        match answer {
            Ok(hook) => result == Ok::<CommandOutput, CliError>(output) && final(warnings)@ == old(warnings)@ + match hook {
                ApplicationHookResult::Warning(text) => text@,
                ApplicationHookResult::Continue => Seq::empty(),
            },
            Err(post_error) => post_hook_outcome_ok(output, post_error, result) && final(warnings)@ == old(warnings)@,
        },
{
    match answer {
        Ok(hook_result) => {
            collect_hook_result(hook_result, warnings);
            Ok(output)
        },
        Err(post_error) => attach_post_hook_error(output, post_error),
    }
}

fn push_stage(stages: &mut Vec<PipelineStage>, stage: PipelineStage)
    ensures
        final(stages)@ == old(stages)@.push(stage),
{
    stages.push(stage);
}

/// Two outcomes agree: both succeeded, or both failed with the same error.
pub open spec fn same_outcome<T, U>(a: Result<T, CliError>, b: Result<U, CliError>) -> bool {
    &&& (a is Ok <==> b is Ok)
    &&& (a matches Err(e) ==> b == Err::<U, CliError>(e))
}

/// The backend's answers behind a mutation run are answers it may give, each asked only after
/// the ones before allowed it: the plan, its stage, the pre-hook (with hooks active), the
/// stage's rollback after a failed pre-hook, the apply, the state update and the post-hook.
pub open spec fn pipeline_backend_reported<B: ApplicationBackend>(
    backend: &B,
    request: B::Request,
    context: RepoContext,
    timeout_ms: u64,
    hooks_active: bool,
    planned: Result<B::MutationPlan, CliError>,
    staged: Result<B::MutationStage, CliError>,
    pre_hook: Result<ApplicationHookResult, CliError>,
    rollback: Result<(), CliError>,
    applied: Result<B::MutationResult, CliError>,
    updated: Result<CommandOutput, CliError>,
    post_hook: Result<ApplicationHookResult, CliError>,
) -> bool {
    let plan = planned->Ok_0;
    let stage = staged->Ok_0;
    let ready = planned is Ok && staged is Ok;
    let applying = ready && (!hooks_active || pre_hook is Ok);
    &&& backend.prepare_answer(request, context, planned)
    &&& (planned is Ok ==> backend.stage_answer(request, context, plan, staged))
    &&& (ready && hooks_active ==> backend.hook_answer(HookPhase::Pre, request, plan, timeout_ms, pre_hook))
    &&& (ready && hooks_active && pre_hook is Err ==> backend.rollback_answer(request, context, plan, stage, rollback))
    &&& (applying ==> backend.apply_answer(request, context, plan, stage, applied))
    &&& (applying && applied is Ok ==> backend.update_answer(request, context, plan, applied->Ok_0, updated))
    &&& (applying && applied is Ok && updated is Ok && hooks_active ==> backend.hook_answer(
        HookPhase::Post,
        request,
        plan,
        timeout_ms,
        post_hook,
    ))
}

/// Runs one mutation: plan, stage, pre-hook, apply, state update, post-hook. Hooks run only
/// when enabled, used by the command and required by the plan. A failed pre-hook rolls the
/// staging back and stays the primary error; a failed post-hook after a partial success is
/// recorded in the partial result.
pub fn execute_mutation_pipeline<B: ApplicationBackend>(
    request: &B::Request,
    backend: &B,
    context: &RepoContext,
    command: CommandKind,
    hooks_enabled: bool,
    hook_timeout_ms: u64,
    hook_warnings: &mut String,
) -> (run: PipelineRun)
    ensures
        pipeline_run_ok(run, command, hooks_enabled),
        exists|
            prepared: Result<bool, CliError>,
            staged: Result<(), CliError>,
            pre_hook: Result<(), CliError>,
            rollback: Result<(), CliError>,
            applied: Result<(), CliError>,
            updated: Result<CommandOutput, CliError>,
            post_hook: Result<(), CliError>,
        | #[trigger] pipeline_answered(run, command, hooks_enabled, prepared, staged, pre_hook, rollback, applied, updated, post_hook),
        exists|
            prepared: Result<bool, CliError>,
            staged: Result<(), CliError>,
            pre_hook: Result<(), CliError>,
            rollback: Result<(), CliError>,
            applied: Result<(), CliError>,
            updated: Result<CommandOutput, CliError>,
            post_hook: Result<(), CliError>,
            planned: Result<B::MutationPlan, CliError>,
            stage: Result<B::MutationStage, CliError>,
            pre_answer: Result<ApplicationHookResult, CliError>,
            apply_answer: Result<B::MutationResult, CliError>,
            post_answer: Result<ApplicationHookResult, CliError>,
        |
            #![trigger pipeline_answered(run, command, hooks_enabled, prepared, staged, pre_hook, rollback, applied, updated, post_hook),
                pipeline_backend_reported(backend, *request, *context, hook_timeout_ms, run.hooks_active, planned, stage, pre_answer, rollback,
                apply_answer, updated, post_answer)]
            pipeline_answered(run, command, hooks_enabled, prepared, staged, pre_hook, rollback, applied, updated, post_hook)
                && same_outcome(planned, prepared) && same_outcome(stage, staged) && same_outcome(pre_answer, pre_hook)
                && same_outcome(apply_answer, applied) && same_outcome(post_answer, post_hook)
                && pipeline_backend_reported(backend, *request, *context, hook_timeout_ms, run.hooks_active, planned, stage,
                pre_answer, rollback, apply_answer, updated, post_answer),
{
    let ghost any_unit: Result<(), CliError> = Ok(());
    let ghost any_output: Result<CommandOutput, CliError> = arbitrary();
    let ghost any_stage: Result<B::MutationStage, CliError> = Ok(arbitrary());
    let ghost any_hook: Result<ApplicationHookResult, CliError> = Ok(ApplicationHookResult::Continue);
    let ghost any_applied: Result<B::MutationResult, CliError> = Ok(arbitrary());
    let mut stages: Vec<PipelineStage> = Vec::new();
    push_stage(&mut stages, PipelineStage::Plan);
    let planned = backend.prepare_mutation(request, context);
    let ghost pl = planned;
    let plan = match planned {
        Ok(plan) => plan,
        Err(error) => {
            assert(stages@ =~= successful_run(false).take(1));
            let run = PipelineRun { result: Err(error), stages, hooks_active: false };
            assert(pipeline_answered(run, command, hooks_enabled, Err(error), any_unit, any_unit, any_unit, any_unit, any_output, any_unit));
            assert(same_outcome(pl, Err::<bool, CliError>(error)));
            assert(pipeline_backend_reported(backend, *request, *context, hook_timeout_ms, false, pl, any_stage, any_hook, any_unit,
                any_applied, any_output, any_hook));
            return run;
        },
    };
    let requires_hooks = plan.requires_hooks();
    let ghost prepared: Result<bool, CliError> = Ok(requires_hooks);
    push_stage(&mut stages, PipelineStage::Stage);
    let staging = backend.stage_mutation(request, context, &plan);
    let ghost st = staging;
    let stage = match staging {
        Ok(stage) => stage,
        Err(error) => {
            assert(stages@ =~= successful_run(false).take(2));
            assert(stages@ =~= seq![PipelineStage::Plan, PipelineStage::Stage]);
            let run = PipelineRun { result: Err(error), stages, hooks_active: false };
            assert(pipeline_answered(run, command, hooks_enabled, prepared, Err(error), any_unit, any_unit, any_unit, any_output, any_unit));
            assert(same_outcome(st, Err::<(), CliError>(error)));
            assert(pipeline_backend_reported(backend, *request, *context, hook_timeout_ms, false, pl, st, any_hook, any_unit,
                any_applied, any_output, any_hook));
            return run;
        },
    };
    let ghost staged: Result<(), CliError> = Ok(());
    let hooks_active = hooks_enabled && uses_command_hooks(&command) && requires_hooks;
    let ghost mut pre: Result<(), CliError> = Ok(());
    let ghost mut pre_answer: Result<ApplicationHookResult, CliError> = Ok(ApplicationHookResult::Continue);
    if hooks_active {
        push_stage(&mut stages, PipelineStage::PreHook);
        let hooked = backend.run_hook(HookPhase::Pre, request, &plan, hook_timeout_ms);
        proof {
            pre_answer = hooked;
        }
        match hooked {
            Ok(result) => collect_hook_result(result, hook_warnings),
            Err(hook_error) => {
                push_stage(&mut stages, PipelineStage::RollbackStage);
                let rolled = backend.rollback_mutation_stage(request, context, &plan, &stage);
                let ghost rb = rolled;
                let result = pre_hook_outcome(hook_error, rolled);
                assert(stages@ =~= seq![
                    PipelineStage::Plan,
                    PipelineStage::Stage,
                    PipelineStage::PreHook,
                    PipelineStage::RollbackStage,
                ]);
                let run = PipelineRun { result, stages, hooks_active };
                assert(pipeline_answered(run, command, hooks_enabled, prepared, staged, Err(hook_error), rb, any_unit, any_output, any_unit));
                assert(same_outcome(pre_answer, Err::<(), CliError>(hook_error)));
                assert(pipeline_backend_reported(backend, *request, *context, hook_timeout_ms, hooks_active, pl, st, pre_answer, rb,
                    any_applied, any_output, any_hook));
                return run;
            },
        }
    }
    push_stage(&mut stages, PipelineStage::Apply);
    let applying = backend.apply_mutation(request, context, &plan, stage);
    let ghost ap = applying;
    let applied = match applying {
        Ok(applied) => applied,
        Err(error) => {
            assert(stages@ =~= successful_run(hooks_active).take(stages@.len() as int));
            let run = PipelineRun { result: Err(error), stages, hooks_active };
            assert(pipeline_answered(run, command, hooks_enabled, prepared, staged, pre, any_unit, Err(error), any_output, any_unit));
            assert(same_outcome(ap, Err::<(), CliError>(error)));
            assert(pipeline_backend_reported(backend, *request, *context, hook_timeout_ms, hooks_active, pl, st, pre_answer, any_unit,
                ap, any_output, any_hook));
            return run;
        },
    };
    push_stage(&mut stages, PipelineStage::UpdateState);
    let updating = backend.update_mutation_state(request, context, &plan, applied);
    let ghost up = updating;
    let output = match updating {
        Ok(output) => output,
        Err(error) => {
            assert(stages@ =~= successful_run(hooks_active).take(stages@.len() as int));
            let run = PipelineRun { result: Err(error), stages, hooks_active };
            assert(pipeline_answered(run, command, hooks_enabled, prepared, staged, pre, any_unit, Ok(()), Err(error), any_unit));
            assert(pipeline_backend_reported(backend, *request, *context, hook_timeout_ms, hooks_active, pl, st, pre_answer, any_unit,
                ap, up, any_hook));
            return run;
        },
    };
    let ghost updated: Result<CommandOutput, CliError> = Ok(output);
    if !hooks_active {
        assert(stages@ =~= successful_run(hooks_active));
        assert(successful_run(hooks_active).take(4) =~= successful_run(hooks_active));
        let run = PipelineRun { result: Ok(output), stages, hooks_active };
        assert(pipeline_answered(run, command, hooks_enabled, prepared, staged, pre, any_unit, Ok(()), updated, any_unit));
        assert(pipeline_backend_reported(backend, *request, *context, hook_timeout_ms, hooks_active, pl, st, pre_answer, any_unit,
            ap, up, any_hook));
        return run;
    }
    push_stage(&mut stages, PipelineStage::PostHook);
    assert(stages@ =~= successful_run(hooks_active));
    assert(successful_run(hooks_active).take(6) =~= successful_run(hooks_active));
    let answer = backend.run_hook(HookPhase::Post, request, &plan, hook_timeout_ms);
    let ghost post: Result<(), CliError> = if answer is Ok {
        Ok(())
    } else {
        Err(answer->Err_0)
    };
    let result = post_hook_outcome(output, answer, hook_warnings);
    let run = PipelineRun { result, stages, hooks_active };
    assert(pipeline_answered(run, command, hooks_enabled, prepared, staged, pre, any_unit, Ok(()), updated, post));
    assert(pipeline_backend_reported(backend, *request, *context, hook_timeout_ms, hooks_active, pl, st, pre_answer, any_unit,
        ap, up, answer));
    run
}

// ----- dispatch -----

/// The lock timeout: the command-line value when given, else the configured one.
pub open spec fn lock_timeout_spec(common: CommonOptions, config: ResolvedConfig) -> u64 {
    match common.lock_timeout_ms {
        Some(v) => v,
        None => config.locks.timeout_ms,
    }
}

/// The hook timeout: the command-line value when given, else the configured one.
pub open spec fn hook_timeout_spec(common: CommonOptions, config: ResolvedConfig) -> u64 {
    match common.hook_timeout_ms {
        Some(v) => v,
        None => config.hooks.timeout_ms,
    }
}

pub fn lock_timeout_ms(common: &CommonOptions, config: &ResolvedConfig) -> (timeout: u64)
    ensures
        timeout == lock_timeout_spec(*common, *config),
{
    match common.lock_timeout_ms {
        Some(v) => v,
        None => config.locks.timeout_ms,
    }
}

pub fn hook_timeout_ms(common: &CommonOptions, config: &ResolvedConfig) -> (timeout: u64)
    ensures
        timeout == hook_timeout_spec(*common, *config),
{
    match common.hook_timeout_ms {
        Some(v) => v,
        None => config.hooks.timeout_ms,
    }
}

/// The error for a write command in a repository that was never initialized.
pub fn not_initialized_error(repo_root: &str) -> (error: CliError)
    ensures
        error.code == ErrorCode::NotInitialized,
        error.message@ == "Repository is not initialized. Run `vde-worktree init` first."@,
        object_view(error.details@) == seq![("repoRoot"@, DetailView::Text(repo_root@))],
        error.execution is None,
{
    let mut error = CliError::new(
        ErrorCode::NotInitialized,
        "Repository is not initialized. Run `vde-worktree init` first.",
    );
    insert_entry(&mut error.details, "repoRoot", DetailValue::Text(repo_root.to_owned()));
    assert(view_insert(object_view(Seq::<(String, DetailValue)>::empty()), "repoRoot"@, DetailView::Text(repo_root@)) =~= seq![("repoRoot"@, DetailView::Text(repo_root@))]);
    error
}

/// The command name as typed on the command line.
pub open spec fn command_name_spec(command: CommandKind) -> Seq<char> {
    match command {
        CommandKind::Init => "init"@,
        CommandKind::List => "list"@,
        CommandKind::Status => "status"@,
        CommandKind::Path => "path"@,
        CommandKind::New => "new"@,
        CommandKind::Switch => "switch"@,
        CommandKind::Mv => "mv"@,
        CommandKind::Del => "del"@,
        CommandKind::Gone => "gone"@,
        CommandKind::Adopt => "adopt"@,
        CommandKind::Get => "get"@,
        CommandKind::Extract => "extract"@,
        CommandKind::Absorb => "absorb"@,
        CommandKind::Unabsorb => "unabsorb"@,
        CommandKind::Use => "use"@,
        CommandKind::Exec => "exec"@,
        CommandKind::Invoke => "invoke"@,
        CommandKind::Copy => "copy"@,
        CommandKind::Link => "link"@,
        CommandKind::Lock => "lock"@,
        CommandKind::Unlock => "unlock"@,
        CommandKind::Cd => "cd"@,
        CommandKind::Completion => "completion"@,
        CommandKind::CompletionCandidates => "__complete"@,
        CommandKind::Doctor => "doctor"@,
        CommandKind::Config => "config"@,
        CommandKind::Context => "context"@,
    }
}

impl CommandKind {
    pub fn name(&self) -> (name: &'static str)
        ensures
            name@ == command_name_spec(*self),
    {
        match self {
            CommandKind::Init => "init",
            CommandKind::List => "list",
            CommandKind::Status => "status",
            CommandKind::Path => "path",
            CommandKind::New => "new",
            CommandKind::Switch => "switch",
            CommandKind::Mv => "mv",
            CommandKind::Del => "del",
            CommandKind::Gone => "gone",
            CommandKind::Adopt => "adopt",
            CommandKind::Get => "get",
            CommandKind::Extract => "extract",
            CommandKind::Absorb => "absorb",
            CommandKind::Unabsorb => "unabsorb",
            CommandKind::Use => "use",
            CommandKind::Exec => "exec",
            CommandKind::Invoke => "invoke",
            CommandKind::Copy => "copy",
            CommandKind::Link => "link",
            CommandKind::Lock => "lock",
            CommandKind::Unlock => "unlock",
            CommandKind::Cd => "cd",
            CommandKind::Completion => "completion",
            CommandKind::CompletionCandidates => "__complete",
            CommandKind::Doctor => "doctor",
            CommandKind::Config => "config",
            CommandKind::Context => "context",
        }
    }
}

/// The steps of dispatch before and around a command.
#[derive(Clone, Copy, Debug, PartialEq, Eq, Structural)]
pub enum DispatchStep {
    ResolveContext,
    ResolveConfig,
    CheckInitialized,
    AcquireLock,
    Mutate,
    Execute,
}

/// The outcome of dispatch, ready to be rendered.
#[derive(Debug)]
pub struct Dispatched {
    pub context: Option<RepoContext>,
    pub result: Result<CommandOutput, CliError>,
    pub steps: Vec<DispatchStep>,
    pub stages: Vec<PipelineStage>,
}

/// The steps dispatch may take for a command, in order: completion needs no repository;
/// a write command other than `init` checks initialization first, and a write command holds
/// the repository lock before it mutates; the mutation runs only after the lock was taken.
pub open spec fn dispatch_steps_ok(steps: Seq<DispatchStep>, command: CommandKind) -> bool {
    let full = full_steps(command);
    1 <= steps.len() <= full.len() && full.take(steps.len() as int) == steps
}

/// Every step dispatch takes for a command whose steps all succeed.
pub open spec fn full_steps(command: CommandKind) -> Seq<DispatchStep> {
    if command == CommandKind::Completion {
        seq![DispatchStep::Execute]
    } else if !is_write_command_spec(command) {
        seq![DispatchStep::ResolveContext, DispatchStep::ResolveConfig, DispatchStep::Execute]
    } else if command == CommandKind::Init {
        seq![DispatchStep::ResolveContext, DispatchStep::ResolveConfig, DispatchStep::AcquireLock, DispatchStep::Mutate]
    } else {
        seq![
            DispatchStep::ResolveContext,
            DispatchStep::ResolveConfig,
            DispatchStep::CheckInitialized,
            DispatchStep::AcquireLock,
            DispatchStep::Mutate,
        ]
    }
}

/// What dispatch guarantees whatever the backend returns.
pub open spec fn dispatched_ok(d: Dispatched, command: CommandKind, common: CommonOptions) -> bool {
    &&& dispatch_steps_ok(d.steps@, command)
    &&& d.stages@.len() > 0 <==> d.steps@.last() == DispatchStep::Mutate
    &&& d.stages@.len() > 0 ==> exists|h: bool| #[trigger] valid_run(d.stages@, h) && (h ==> !common.no_hooks
        && uses_command_hooks_spec(command))
    &&& (command == CommandKind::Completion) ==> d.context is None
}

/// `error` is the refusal of a write command in a repository that was never initialized.
pub open spec fn is_not_initialized_error(error: CliError, repo_root: Seq<char>) -> bool {
    &&& error.code == ErrorCode::NotInitialized
    &&& error.message@ == "Repository is not initialized. Run `vde-worktree init` first."@
    &&& object_view(error.details@) == seq![("repoRoot"@, DetailView::Text(repo_root))]
    &&& error.execution is None
}

/// A command's result with the hook warnings appended to its human stderr.
pub open spec fn with_warnings(run_result: Result<CommandOutput, CliError>, warnings: Seq<char>, result: Result<CommandOutput, CliError>) -> bool {
    match run_result {
        Err(e) => result == Err::<CommandOutput, CliError>(e),
        Ok(o) => result matches Ok(r) && r.data == o.data && r.human_stdout == o.human_stdout && r.human_stderr@ == o.human_stderr@
            + warnings && r.partial_error == o.partial_error,
    }
}

/// Dispatch for the backend's answers: the repository context, the configuration, whether
/// the repository is initialized, the repository lock, a read command's (or completion's)
/// output, and the mutation's run with its collected hook warnings. The first failing step's
/// error is the result; a write command other than `init` is refused as not initialized
/// exactly when the initialization check answers no; a mutation runs its hooks only when
/// the configuration enables them and `--no-hooks` is absent.
pub open spec fn dispatch_answered(
    d: Dispatched,
    command: CommandKind,
    common: CommonOptions,
    context: Result<RepoContext, CliError>,
    config: Result<ResolvedConfig, CliError>,
    initialized: Result<bool, CliError>,
    locked: Result<(), CliError>,
    executed: Result<CommandOutput, CliError>,
    run: PipelineRun,
    warnings: Seq<char>,
) -> bool {
    if command == CommandKind::Completion {
        d.steps@ == seq![DispatchStep::Execute] && d.context is None && d.result == executed && d.stages@.len() == 0
    } else {
        match context {
            Err(e) => d.steps@ == seq![DispatchStep::ResolveContext] && d.context is None && d.result == Err::<CommandOutput, CliError>(e)
                && d.stages@.len() == 0,
            Ok(c) => d.context == Some(c) && match config {
                Err(e) => d.steps@ == seq![DispatchStep::ResolveContext, DispatchStep::ResolveConfig] && d.result == Err::<
                    CommandOutput,
                    CliError,
                >(e) && d.stages@.len() == 0,
                Ok(resolved) => if !is_write_command_spec(command) {
                    d.steps@ == full_steps(command) && d.result == executed && d.stages@.len() == 0
                } else if command != CommandKind::Init && initialized != Ok::<bool, CliError>(true) {
                    &&& d.steps@ == seq![DispatchStep::ResolveContext, DispatchStep::ResolveConfig, DispatchStep::CheckInitialized]
                    &&& d.stages@.len() == 0
                    &&& match initialized {
                        Ok(_) => d.result matches Err(e) && is_not_initialized_error(e, c.repo_root@),
                        Err(e) => d.result == Err::<CommandOutput, CliError>(e),
                    }
                } else {
                    match locked {
                        Err(e) => d.steps@ == full_steps(command).take(full_steps(command).len() - 1) && d.result == Err::<
                            CommandOutput,
                            CliError,
                        >(e) && d.stages@.len() == 0,
                        Ok(_) => {
                            &&& d.steps@ == full_steps(command)
                            &&& d.stages@ == run.stages@
                            &&& with_warnings(run.result, warnings, d.result)
                            &&& exists|
                                prepared: Result<bool, CliError>,
                                staged: Result<(), CliError>,
                                pre_hook: Result<(), CliError>,
                                rollback: Result<(), CliError>,
                                applied: Result<(), CliError>,
                                updated: Result<CommandOutput, CliError>,
                                post_hook: Result<(), CliError>,
                            | #[trigger] pipeline_answered(
                                run,
                                command,
                                mutation_hooks_spec(common, resolved.hooks.enabled),
                                prepared,
                                staged,
                                pre_hook,
                                rollback,
                                applied,
                                updated,
                                post_hook,
                            )
                        },
                    }
                },
            },
        }
    }
}

/// What the initialization check's answer means for a write command: nothing in the way
/// when the repository is initialized; the not-initialized refusal when it is not; the
/// check's own error when it failed.
pub fn initialization_outcome(repo_root: &str, answer: Result<bool, CliError>) -> (refusal: Option<CliError>)
    ensures
        match answer {
            Ok(true) => refusal is None,
            Ok(false) => refusal matches Some(e) && is_not_initialized_error(e, repo_root@),
            Err(e) => refusal == Some(e),
        },
{
    match answer {
        Ok(true) => None,
        Ok(false) => Some(not_initialized_error(repo_root)),
        Err(error) => Some(error),
    }
}

/// A command's result with the collected hook warnings appended to its human stderr.
pub fn result_with_warnings(run_result: Result<CommandOutput, CliError>, warnings: &str) -> (result: Result<CommandOutput, CliError>)
    ensures
        with_warnings(run_result, warnings@, result),
{
    match run_result {
        Ok(output) => {
            let mut output = output;
            output.human_stderr.append(warnings);
            Ok(output)
        },
        Err(error) => Err(error),
    }
}

/// The mutation run behind a dispatch is one whose backend answers are answers the backend
/// may give.
pub open spec fn run_reported<B: ApplicationBackend>(
    backend: &B,
    request: B::Request,
    context: RepoContext,
    command: CommandKind,
    hooks_enabled: bool,
    timeout_ms: u64,
    run: PipelineRun,
) -> bool {
    exists|
        prepared: Result<bool, CliError>,
        staged: Result<(), CliError>,
        pre_hook: Result<(), CliError>,
        rollback: Result<(), CliError>,
        applied: Result<(), CliError>,
        updated: Result<CommandOutput, CliError>,
        post_hook: Result<(), CliError>,
        planned: Result<B::MutationPlan, CliError>,
        stage: Result<B::MutationStage, CliError>,
        pre_answer: Result<ApplicationHookResult, CliError>,
        apply_answer: Result<B::MutationResult, CliError>,
        post_answer: Result<ApplicationHookResult, CliError>,
    |
        #![trigger pipeline_answered(run, command, hooks_enabled, prepared, staged, pre_hook, rollback, applied, updated, post_hook),
            pipeline_backend_reported(backend, request, context, timeout_ms, run.hooks_active, planned, stage, pre_answer, rollback,
            apply_answer, updated, post_answer)]
        pipeline_answered(run, command, hooks_enabled, prepared, staged, pre_hook, rollback, applied, updated, post_hook)
            && same_outcome(planned, prepared) && same_outcome(stage, staged) && same_outcome(pre_answer, pre_hook)
            && same_outcome(apply_answer, applied) && same_outcome(post_answer, post_hook)
            && pipeline_backend_reported(backend, request, context, timeout_ms, run.hooks_active, planned, stage, pre_answer, rollback,
            apply_answer, updated, post_answer)
}

/// The backend's answers behind a dispatch are answers it may give, each asked only after
/// the ones before allowed it: the context, the configuration, the run of a command that
/// mutates nothing, the initialization check, the lock, and the mutation run.
pub open spec fn dispatch_backend_reported<B: ApplicationBackend>(
    backend: &B,
    request: B::Request,
    command: CommandKind,
    common: CommonOptions,
    context: Result<RepoContext, CliError>,
    config: Result<ResolvedConfig, CliError>,
    initialized: Result<bool, CliError>,
    locked: Result<(), CliError>,
    guard: Result<B::LockGuard, CliError>,
    executed: Result<CommandOutput, CliError>,
    run: PipelineRun,
) -> bool {
    let ctx = context->Ok_0;
    let cfg = config->Ok_0;
    let resolved = command != CommandKind::Completion && context is Ok && config is Ok;
    let writing = resolved && is_write_command_spec(command);
    let locking = writing && (command == CommandKind::Init || initialized == Ok::<bool, CliError>(true));
    &&& (command == CommandKind::Completion ==> backend.execute_answer(request, None, executed))
    &&& (command != CommandKind::Completion ==> backend.context_answer(context))
    &&& (command != CommandKind::Completion && context is Ok ==> backend.config_answer(ctx, config))
    &&& (resolved && !is_write_command_spec(command) ==> backend.execute_answer(request, Some(ctx), executed))
    &&& (writing && command != CommandKind::Init ==> backend.initialized_answer(ctx.repo_root@, initialized))
    &&& (locking ==> backend.lock_answer(ctx, lock_timeout_spec(common, cfg), command_name_spec(command), guard)
        && same_outcome(guard, locked))
    &&& (locking && guard is Ok ==> run_reported(
        backend,
        request,
        ctx,
        command,
        mutation_hooks_spec(common, cfg.hooks.enabled),
        hook_timeout_spec(common, cfg),
        run,
    ))
}

/// Runs a request: resolves the repository context and configuration, checks initialization
/// and takes the repository lock for write commands, then runs the mutation pipeline or the
/// read command. Hook warnings are appended to the command's human stderr.
pub fn dispatch_request<B: ApplicationBackend>(request: &B::Request, command: CommandKind, common: &CommonOptions, backend: &B) -> (d: Dispatched)
    ensures
        dispatched_ok(d, command, *common),
        exists|
            context: Result<RepoContext, CliError>,
            config: Result<ResolvedConfig, CliError>,
            initialized: Result<bool, CliError>,
            locked: Result<(), CliError>,
            executed: Result<CommandOutput, CliError>,
            run: PipelineRun,
            warnings: Seq<char>,
        | #[trigger] dispatch_answered(d, command, *common, context, config, initialized, locked, executed, run, warnings),
        exists|
            context: Result<RepoContext, CliError>,
            config: Result<ResolvedConfig, CliError>,
            initialized: Result<bool, CliError>,
            locked: Result<(), CliError>,
            executed: Result<CommandOutput, CliError>,
            run: PipelineRun,
            warnings: Seq<char>,
            guard: Result<B::LockGuard, CliError>,
        |
            #![trigger dispatch_answered(d, command, *common, context, config, initialized, locked, executed, run, warnings),
                dispatch_backend_reported(backend, *request, command, *common, context, config, initialized, locked, guard, executed, run)]
            dispatch_answered(d, command, *common, context, config, initialized, locked, executed, run, warnings)
                && dispatch_backend_reported(backend, *request, command, *common, context, config, initialized, locked, guard, executed, run),
{
    let ghost any_guard: Result<B::LockGuard, CliError> = Ok(arbitrary());
    let ghost any_context: Result<RepoContext, CliError> = arbitrary();
    let ghost any_config: Result<ResolvedConfig, CliError> = arbitrary();
    let ghost any_bool: Result<bool, CliError> = arbitrary();
    let ghost any_unit: Result<(), CliError> = Ok(());
    let ghost any_output: Result<CommandOutput, CliError> = arbitrary();
    let ghost any_run: PipelineRun = arbitrary();
    let ghost no_warnings: Seq<char> = Seq::empty();
    let mut steps: Vec<DispatchStep> = Vec::new();
    let no_stages: Vec<PipelineStage> = Vec::new();
    if matches!(command, CommandKind::Completion) {
        steps.push(DispatchStep::Execute);
        let result = backend.execute(request, None);
        assert(steps@ =~= seq![DispatchStep::Execute].take(1));
        let d = Dispatched { context: None, result, steps, stages: no_stages };
        assert(dispatch_answered(d, command, *common, any_context, any_config, any_bool, any_unit, result, any_run, no_warnings));
        assert(dispatch_backend_reported(backend, *request, command, *common, any_context, any_config, any_bool, any_unit, any_guard, result, any_run));
        return d;
    }
    steps.push(DispatchStep::ResolveContext);
    let resolved_context = backend.resolve_repo_context();
    let ghost rc = resolved_context;
    let context = match resolved_context {
        Ok(context) => context,
        Err(error) => {
            proof { reveal_prefix(steps@, command); }
            assert(steps@ =~= seq![DispatchStep::ResolveContext]);
            let d = Dispatched { context: None, result: Err(error), steps, stages: no_stages };
            assert(dispatch_answered(d, command, *common, Err(error), any_config, any_bool, any_unit, any_output, any_run, no_warnings));
            assert(dispatch_backend_reported(backend, *request, command, *common, Err(error), any_config, any_bool, any_unit, any_guard, any_output, any_run));
            return d;
        },
    };
    let ghost ctx: Result<RepoContext, CliError> = Ok(context);
    steps.push(DispatchStep::ResolveConfig);
    let resolved_config = backend.resolve_config(&context);
    let ghost rf = resolved_config;
    let config = match resolved_config {
        Ok(config) => config,
        Err(error) => {
            proof { reveal_prefix(steps@, command); }
            assert(steps@ =~= seq![DispatchStep::ResolveContext, DispatchStep::ResolveConfig]);
            let d = Dispatched { context: Some(context), result: Err(error), steps, stages: no_stages };
            assert(dispatch_answered(d, command, *common, ctx, Err(error), any_bool, any_unit, any_output, any_run, no_warnings));
            assert(dispatch_backend_reported(backend, *request, command, *common, ctx, Err(error), any_bool, any_unit, any_guard, any_output, any_run));
            return d;
        },
    };
    let ghost cfg: Result<ResolvedConfig, CliError> = Ok(config);
    if !is_write_command(&command) {
        steps.push(DispatchStep::Execute);
        let result = backend.execute(request, Some(&context));
        proof { reveal_prefix(steps@, command); }
        assert(steps@ =~= full_steps(command));
        let d = Dispatched { context: Some(context), result, steps, stages: no_stages };
        assert(dispatch_answered(d, command, *common, ctx, cfg, any_bool, any_unit, result, any_run, no_warnings));
        assert(dispatch_backend_reported(backend, *request, command, *common, ctx, cfg, any_bool, any_unit, any_guard, result, any_run));
        return d;
    }
    let ghost mut init: Result<bool, CliError> = Ok(true);
    if !matches!(command, CommandKind::Init) {
        steps.push(DispatchStep::CheckInitialized);
        let answer = backend.is_initialized(context.repo_root.as_str());
        proof {
            init = answer;
        }
        match initialization_outcome(context.repo_root.as_str(), answer) {
            None => {},
            Some(error) => {
                proof { reveal_prefix(steps@, command); }
                assert(steps@ =~= seq![DispatchStep::ResolveContext, DispatchStep::ResolveConfig, DispatchStep::CheckInitialized]);
                let d = Dispatched { context: Some(context), result: Err(error), steps, stages: no_stages };
                assert(dispatch_answered(d, command, *common, ctx, cfg, init, any_unit, any_output, any_run, no_warnings));
                assert(dispatch_backend_reported(backend, *request, command, *common, ctx, cfg, init, any_unit, any_guard, any_output, any_run));
                return d;
            },
        }
    }
    steps.push(DispatchStep::AcquireLock);
    let timeout = lock_timeout_ms(common, &config);
    let locking = backend.acquire_repo_lock(&context, timeout, command.name());
    let ghost lk = locking;
    let guard = match locking {
        Ok(guard) => guard,
        Err(error) => {
            proof { reveal_prefix(steps@, command); }
            assert(steps@ =~= full_steps(command).take(full_steps(command).len() - 1));
            let d = Dispatched { context: Some(context), result: Err(error), steps, stages: no_stages };
            assert(dispatch_answered(d, command, *common, ctx, cfg, init, Err(error), any_output, any_run, no_warnings));
            assert(dispatch_backend_reported(backend, *request, command, *common, ctx, cfg, init, Err(error), lk, any_output, any_run));
            return d;
        },
    };
    steps.push(DispatchStep::Mutate);
    let hook_timeout = hook_timeout_ms(common, &config);
    let hooks_enabled = common.mutation_hooks(config.hooks.enabled);
    let mut warnings = String::new();
    let run = execute_mutation_pipeline(request, backend, &context, command, hooks_enabled, hook_timeout, &mut warnings);
    let _released = guard;
    let ghost seen_run = run;
    let ghost collected = warnings@;
    let result = result_with_warnings(run.result, warnings.as_str());
    proof {
        reveal_prefix(steps@, command);
        assert(steps@ =~= full_steps(command));
        assert(run.stages@.len() > 0) by {
            if run.stages@.len() == 0 {
                assert(!valid_run(run.stages@, run.hooks_active));
            }
        }
        assert(valid_run(run.stages@, run.hooks_active));
        assert(steps@[steps@.len() - 1] == DispatchStep::Mutate);
    }
    let d = Dispatched { context: Some(context), result, steps, stages: run.stages };
    assert(dispatch_answered(d, command, *common, ctx, cfg, init, Ok(()), any_output, seen_run, collected));
    assert(dispatch_backend_reported(backend, *request, command, *common, ctx, cfg, init, Ok(()), lk, any_output, seen_run));
    d
}

proof fn reveal_prefix(steps: Seq<DispatchStep>, command: CommandKind)
    requires
        1 <= steps.len() <= full_steps(command).len(),
        forall|i: int| 0 <= i < steps.len() ==> steps[i] == #[trigger] full_steps(command)[i],
    ensures
        dispatch_steps_ok(steps, command),
{
    assert(full_steps(command).take(steps.len() as int) =~= steps);
}

} // verus!
