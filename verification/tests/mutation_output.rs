use vde_worktree::adoption::{AdoptFailed, AdoptResult};
use vde_worktree::error::{DetailValue, ErrorCode, ExecutionPhase, ExecutionReport, ExecutionState};
use vde_worktree::output::{mutation_command_output, MutationResult};
use vde_worktree::plans::{
    AdoptCandidate, AdoptSkipped, AdoptSkippedReason, InitResult, MvGitApplied, MvResult, UseResult,
    WorktreeDisposition, WorktreeLockRecord, WorktreeMutationResult,
};

fn text(s: &str) -> DetailValue {
    DetailValue::Text(s.to_owned())
}

fn entry(key: &str, value: DetailValue) -> (String, DetailValue) {
    (key.to_owned(), value)
}

fn candidate(branch: &str) -> AdoptCandidate {
    AdoptCandidate {
        branch: branch.to_owned(),
        from_path: format!("/old/{branch}"),
        to_path: format!("/repo/.worktree/{branch}"),
    }
}

#[test]
fn path_commands_print_the_path_and_report_branch_and_path() {
    let out = mutation_command_output(MutationResult::Use(UseResult {
        branch: "feature/a".to_owned(),
        path: "/repo/.worktree/feature/a".to_owned(),
        shared: false,
    }))
    .unwrap();
    assert_eq!(out.human_stdout, "/repo/.worktree/feature/a\n");
    assert_eq!(
        out.data,
        DetailValue::Object(vec![entry("branch", text("feature/a")), entry("path", text("/repo/.worktree/feature/a"))])
    );
    assert!(out.partial_error.is_none());
    let out = mutation_command_output(MutationResult::Mv(MvResult {
        branch: "new".to_owned(),
        path: "/repo/.worktree/new".to_owned(),
        metadata: None,
    }))
    .unwrap();
    assert_eq!(out.human_stdout, "/repo/.worktree/new\n");
}

#[test]
fn init_lock_and_unlock_report_their_fields() {
    let out = mutation_command_output(MutationResult::Init(InitResult { already_initialized: true })).unwrap();
    assert_eq!(out.data, DetailValue::Object(vec![entry("alreadyInitialized", DetailValue::Bool(true))]));
    assert_eq!(out.human_stdout, "");
    let out = mutation_command_output(MutationResult::Lock(WorktreeLockRecord {
        branch: "main".to_owned(),
        reason: "busy".to_owned(),
        owner: "alice".to_owned(),
        host: "host".to_owned(),
        pid: 7,
    }))
    .unwrap();
    assert_eq!(
        out.data,
        DetailValue::Object(vec![entry("branch", text("main")), entry("reason", text("busy")), entry("owner", text("alice"))])
    );
    let out = mutation_command_output(MutationResult::Unlock { branch: "main".to_owned() }).unwrap();
    assert_eq!(out.data, DetailValue::Object(vec![entry("branch", text("main"))]));
}

#[test]
fn worktree_result_reports_its_disposition_when_known() {
    let out = mutation_command_output(MutationResult::Worktree(WorktreeMutationResult {
        branch: "a".to_owned(),
        path: "/repo/.worktree/a".to_owned(),
        disposition: Some(WorktreeDisposition::Existing),
    }))
    .unwrap();
    assert_eq!(
        out.data,
        DetailValue::Object(vec![
            entry("branch", text("a")),
            entry("path", text("/repo/.worktree/a")),
            entry("disposition", text("existing")),
        ])
    );
    assert_eq!(out.human_stdout, "/repo/.worktree/a\n");
}

#[test]
fn unfinalized_mutation_is_an_internal_error() {
    let error = mutation_command_output(MutationResult::MvGitApplied(MvGitApplied::Noop(MvResult {
        branch: "a".to_owned(),
        path: "/p".to_owned(),
        metadata: None,
    })))
    .unwrap_err();
    assert_eq!(error.code, ErrorCode::InternalError);
    assert_eq!(error.message, "mutation metadata finalization was skipped");
}

#[test]
fn adopt_dry_run_lists_candidates_and_failures_make_a_partial_result() {
    let dry = AdoptResult {
        dry_run: true,
        managed_worktree_root: "/repo/.worktree".to_owned(),
        candidates: vec![candidate("a")],
        moved: Vec::new(),
        skipped: vec![AdoptSkipped {
            branch: None,
            from_path: "/old/detached".to_owned(),
            to_path: None,
            reason: AdoptSkippedReason::Detached,
        }],
        failed: Vec::new(),
    };
    let out = mutation_command_output(MutationResult::Adopt(dry)).unwrap();
    assert_eq!(out.human_stdout, "candidate: /old/a -> /repo/.worktree/a\n");
    assert!(out.partial_error.is_none());
    match &out.data {
        DetailValue::Object(entries) => {
            assert_eq!(entries[0], entry("dryRun", DetailValue::Bool(true)));
            assert_eq!(
                entries[4],
                entry(
                    "skipped",
                    DetailValue::List(vec![DetailValue::Object(vec![
                        entry("branch", DetailValue::Null),
                        entry("fromPath", text("/old/detached")),
                        entry("toPath", DetailValue::Null),
                        entry("reason", text("detached")),
                    ])])
                )
            );
        },
        other => panic!("unexpected data {other:?}"),
    }

    let applied = AdoptResult {
        dry_run: false,
        managed_worktree_root: "/repo/.worktree".to_owned(),
        candidates: vec![candidate("a"), candidate("b")],
        moved: vec![candidate("a")],
        skipped: Vec::new(),
        failed: vec![AdoptFailed {
            branch: "b".to_owned(),
            from_path: "/old/b".to_owned(),
            to_path: "/repo/.worktree/b".to_owned(),
            code: "GIT_COMMAND_FAILED".to_owned(),
            message: "git command failed".to_owned(),
            details: Vec::new(),
            execution: ExecutionReport {
                phase: ExecutionPhase::Apply,
                state: ExecutionState::RolledBack,
                completed: Vec::new(),
                recovery: Vec::new(),
            },
        }],
    };
    let out = mutation_command_output(MutationResult::Adopt(applied)).unwrap();
    assert_eq!(
        out.human_stdout,
        "moved: /old/a -> /repo/.worktree/a\nfailed: /old/b -> /repo/.worktree/b [GIT_COMMAND_FAILED] git command failed\n"
    );
    let partial = out.partial_error.unwrap();
    assert_eq!(partial.code, ErrorCode::SafetyRejected);
    assert_eq!(partial.message, "one or more worktrees could not be adopted");
}
