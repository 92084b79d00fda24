use vde_worktree::error::ErrorCode;
use vde_worktree::git::RepoContext;
use vde_worktree::mutation_hooks::{mutation_hook_request, require_base_branch, unsupported_mutation, PreparedCommand};
use vde_worktree::pipeline::CommandKind;
use vde_worktree::plans::{AdoptPlan, LockPlan, MvApplyPlan, MvPlan, NewPlan, UnlockPlan};

fn context() -> RepoContext {
    RepoContext {
        repo_root: "/repo".to_owned(),
        current_worktree_root: "/repo/.worktree/current".to_owned(),
        git_common_dir: "/repo/.git".to_owned(),
    }
}

#[test]
fn creation_hooks_start_in_the_current_worktree_and_finish_in_the_target() {
    let plan = PreparedCommand::New(NewPlan {
        repo_root: "/repo".to_owned(),
        managed_worktree_root: "/repo/.worktree".to_owned(),
        branch: "feature/a".to_owned(),
        target_path: "/repo/.worktree/feature/a".to_owned(),
        base_branch: "main".to_owned(),
    });
    let request = mutation_hook_request(&plan, &context(), true);
    assert_eq!(request.action, "new");
    assert_eq!(request.branch.as_deref(), Some("feature/a"));
    assert_eq!(request.pre_cwd, "/repo/.worktree/current");
    assert_eq!(request.post_cwd, "/repo/.worktree/feature/a");
    assert!(request.interactive);
    assert!(request.requires_hooks);
    assert!(request.extra_env.is_empty());
}

#[test]
fn rename_hooks_see_both_branch_names() {
    let plan = PreparedCommand::Mv(MvPlan::Apply(Box::new(MvApplyPlan {
        old_branch: "old".to_owned(),
        new_branch: "new".to_owned(),
        current_path: "/repo/.worktree/old".to_owned(),
        target_path: "/repo/.worktree/new".to_owned(),
    })));
    let request = mutation_hook_request(&plan, &context(), false);
    assert_eq!(
        request.extra_env,
        vec![("WT_OLD_BRANCH".to_owned(), "old".to_owned()), ("WT_NEW_BRANCH".to_owned(), "new".to_owned())]
    );
    assert_eq!(request.target_path, "/repo/.worktree/new");
}

#[test]
fn dry_run_adopt_and_lock_commands_need_no_hooks() {
    let adopt = PreparedCommand::Adopt(AdoptPlan {
        repo_root: "/repo".to_owned(),
        managed_worktree_root: "/repo/.worktree".to_owned(),
        dry_run: true,
        candidates: Vec::new(),
        skipped: Vec::new(),
    });
    let request = mutation_hook_request(&adopt, &context(), false);
    assert!(!request.requires_hooks);
    assert_eq!(request.pre_cwd, "/repo");
    assert_eq!(request.post_cwd, "/repo/.worktree");
    let lock = PreparedCommand::Lock(LockPlan {
        repo_root: "/repo".to_owned(),
        branch: "main".to_owned(),
        reason: "locked".to_owned(),
        owner: "alice".to_owned(),
        host: "host".to_owned(),
        pid: 1,
    });
    let request = mutation_hook_request(&lock, &context(), false);
    assert!(!request.requires_hooks);
    assert_eq!(request.pre_cwd, "/repo");
    let unlock = PreparedCommand::Unlock(UnlockPlan::Noop { branch: "main".to_owned() });
    assert_eq!(mutation_hook_request(&unlock, &context(), false).branch.as_deref(), Some("main"));
}

#[test]
fn missing_base_branch_and_unsupported_commands_are_refused() {
    let error = require_base_branch(&None).unwrap_err();
    assert_eq!(error.code, ErrorCode::InvalidArgument);
    assert_eq!(error.message, "base branch is unavailable");
    assert_eq!(require_base_branch(&Some("main".to_owned())).unwrap(), "main");
    let error = unsupported_mutation(CommandKind::Del);
    assert_eq!(error.code, ErrorCode::InternalError);
    assert_eq!(error.message, "del mutation is not implemented yet");
}
