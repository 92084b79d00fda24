use std::cell::RefCell;

use vde_worktree::create::{
    apply_get_git, apply_new_git, apply_switch_git, prepare_get, prepare_new, prepare_switch,
    resolve_local_branch_oid, revalidate_branch_mode, TargetFilesystem, WorktreeLookup,
};
use vde_worktree::error::{CliError, DetailValue, ErrorCode};
use vde_worktree::plans::{BranchCreationMode, GetPlan, NewPlan, SwitchPlan, WorktreeDisposition};
use vde_worktree::probes::CreateMutationGit;
use vde_worktree::process::ProcessOutput;

type Reply = ProcessOutput;

/// A Git double that answers by the arguments and records every run.
struct ScriptedGit {
    replies: Vec<(Vec<String>, Reply)>,
    runs: RefCell<Vec<Vec<String>>>,
}

impl ScriptedGit {
    fn new(replies: Vec<(&[&str], Reply)>) -> Self {
        ScriptedGit {
            replies: replies
                .into_iter()
                .map(|(args, reply)| (args.iter().map(|arg| (*arg).to_owned()).collect(), reply))
                .collect(),
            runs: RefCell::new(Vec::new()),
        }
    }

    fn answer(&self, args: &[String]) -> Result<ProcessOutput, CliError> {
        self.runs.borrow_mut().push(args.to_vec());
        for (expected, reply) in &self.replies {
            if expected.as_slice() == args {
                return Ok(reply.clone());
            }
        }
        Ok(status(1, b""))
    }

    fn ran(&self, args: &[&str]) -> bool {
        self.runs.borrow().iter().any(|run| run.iter().map(String::as_str).eq(args.iter().copied()))
    }
}

impl CreateMutationGit for ScriptedGit {
    fn run_git(&self, _cwd: &str, args: &[String]) -> Result<ProcessOutput, CliError> {
        self.answer(args)
    }

    fn run_git_checked(&self, _cwd: &str, args: &[String]) -> Result<ProcessOutput, CliError> {
        match self.answer(args) {
            Ok(output) if output.exit_code == Some(0) => Ok(output),
            Ok(_) => Err(CliError::new(ErrorCode::GitCommandFailed, "git command failed")),
            Err(error) => Err(error),
        }
    }
}

/// A file-system double: targets are `<root>/<branch>`, a few paths are taken.
struct FakeFs {
    taken: Vec<String>,
    escaping: Vec<String>,
    existing: Option<String>,
    pruned: RefCell<Vec<String>>,
}

impl FakeFs {
    fn empty() -> Self {
        FakeFs { taken: Vec::new(), escaping: Vec::new(), existing: None, pruned: RefCell::new(Vec::new()) }
    }
}

impl TargetFilesystem for FakeFs {
    fn ensure_contained(&self, _managed_root: &str, path: &str) -> Result<(), CliError> {
        if self.escaping.iter().any(|escaping| escaping == path) {
            Err(CliError::new(ErrorCode::PathOutsideRepo, "path escapes the managed root"))
        } else {
            Ok(())
        }
    }

    fn path_exists(&self, path: &str) -> Result<bool, CliError> {
        Ok(self.taken.iter().any(|taken| taken == path))
    }

    fn ensure_target_writable(&self, path: &str) -> Result<(), CliError> {
        if self.taken.iter().any(|taken| taken == path) {
            Err(CliError::new(ErrorCode::TargetPathNotEmpty, "target path is not empty"))
        } else {
            Ok(())
        }
    }

    fn ensure_target_path_empty(&self, path: &str) -> Result<(), CliError> {
        self.ensure_target_writable(path)
    }

    fn create_parent(&self, _path: &str) -> Result<(), CliError> {
        Ok(())
    }

    fn prune_empty_target_parents(&self, target: &str, _managed_root: &str) {
        self.pruned.borrow_mut().push(target.to_owned());
    }

    fn same_location(&self, left: &str, right: &str) -> bool {
        left == right
    }
}

impl WorktreeLookup for FakeFs {
    fn optional_branch(&self, _branch: &str) -> Result<Option<String>, CliError> {
        Ok(self.existing.clone())
    }
}

fn status(code: i32, stdout: &[u8]) -> ProcessOutput {
    ProcessOutput { stdout: stdout.to_vec(), exit_code: Some(code), ..Default::default() }
}

fn listing(entries: &[(&str, &str)]) -> ProcessOutput {
    let mut out = Vec::new();
    for (path, branch) in entries {
        out.extend_from_slice(format!("worktree {path}\0HEAD 0123\0branch refs/heads/{branch}\0\0").as_bytes());
    }
    status(0, &out)
}

const REF_OK: (&[&str], Reply) = (&["check-ref-format", "--branch", "feature"], ProcessOutput {
    stdout: Vec::new(),
    stderr: Vec::new(),
    exit_code: Some(0),
    timed_out: false,
    signal: None,
    stdout_truncated: false,
    stderr_truncated: false,
});

#[test]
fn new_refuses_blank_and_control_branch_names_before_asking_git() {
    let git = ScriptedGit::new(vec![]);
    let fs = FakeFs::empty();
    for branch in ["", "bad\u{7}name"] {
        let error = prepare_new(&git, &fs, "/repo", "/repo/.worktrees", &[], branch, "main").unwrap_err();
        assert_eq!(error.code, ErrorCode::InvalidArgument);
        assert_eq!(error.message, format!("invalid branch name: {branch}"));
    }
    assert!(git.runs.borrow().is_empty());
}

#[test]
fn new_refuses_a_name_git_rejects() {
    let git = ScriptedGit::new(vec![(&["check-ref-format", "--branch", "a..b"], status(1, b""))]);
    let error = prepare_new(&git, &FakeFs::empty(), "/repo", "/repo/.worktrees", &[], "a..b", "main").unwrap_err();
    assert_eq!(error.code, ErrorCode::InvalidArgument);
    assert_eq!(error.detail("branch"), Some(&DetailValue::Text("a..b".to_owned())));
}

#[test]
fn new_refuses_attached_and_existing_branches() {
    let git = ScriptedGit::new(vec![REF_OK]);
    let attached = [None, Some("feature".to_owned())];
    let error = prepare_new(&git, &FakeFs::empty(), "/repo", "/repo/.worktrees", &attached, "feature", "main").unwrap_err();
    assert_eq!(error.code, ErrorCode::BranchAlreadyAttached);
    assert_eq!(error.message, "branch is already attached to a worktree: feature");

    let git = ScriptedGit::new(vec![
        REF_OK,
        (&["show-ref", "--verify", "--quiet", "refs/heads/feature"], status(0, b"")),
    ]);
    let error = prepare_new(&git, &FakeFs::empty(), "/repo", "/repo/.worktrees", &[], "feature", "main").unwrap_err();
    assert_eq!(error.code, ErrorCode::BranchAlreadyExists);
    assert_eq!(error.message, "branch already exists locally: feature");
}

#[test]
fn new_plans_the_managed_target_of_a_fresh_branch() {
    let git = ScriptedGit::new(vec![REF_OK]);
    let plan = prepare_new(&git, &FakeFs::empty(), "/repo", "/repo/.worktrees", &[Some("main".to_owned())], "feature", "main").unwrap();
    assert_eq!(
        plan,
        NewPlan {
            repo_root: "/repo".to_owned(),
            managed_worktree_root: "/repo/.worktrees".to_owned(),
            branch: "feature".to_owned(),
            target_path: "/repo/.worktrees/feature".to_owned(),
            base_branch: "main".to_owned(),
        }
    );
    let fs = FakeFs { taken: vec!["/repo/.worktrees/feature".to_owned()], ..FakeFs::empty() };
    let error = prepare_new(&git, &fs, "/repo", "/repo/.worktrees", &[], "feature", "main").unwrap_err();
    assert_eq!(error.code, ErrorCode::TargetPathNotEmpty);
}

#[test]
fn switch_uses_an_attached_worktree_or_plans_one_in_the_matching_mode() {
    let git = ScriptedGit::new(vec![REF_OK]);
    let fs = FakeFs { existing: Some("/elsewhere/feature".to_owned()), ..FakeFs::empty() };
    let plan = prepare_switch(&git, &fs, &fs, "/repo", "/repo/.worktrees", "feature", "main").unwrap();
    assert_eq!(
        plan,
        SwitchPlan::Existing {
            repo_root: "/repo".to_owned(),
            branch: "feature".to_owned(),
            path: "/elsewhere/feature".to_owned(),
            base_branch: "main".to_owned(),
        }
    );

    let fs = FakeFs::empty();
    let plan = prepare_switch(&git, &fs, &fs, "/repo", "/repo/.worktrees", "feature", "main").unwrap();
    assert!(matches!(plan, SwitchPlan::Create { mode: BranchCreationMode::NewBranch, .. }));

    let git = ScriptedGit::new(vec![
        REF_OK,
        (&["show-ref", "--verify", "--quiet", "refs/heads/feature"], status(0, b"")),
    ]);
    let plan = prepare_switch(&git, &fs, &fs, "/repo", "/repo/.worktrees", "feature", "main").unwrap();
    match plan {
        SwitchPlan::Create { target_path, mode, .. } => {
            assert_eq!(target_path, "/repo/.worktrees/feature");
            assert_eq!(mode, BranchCreationMode::ExistingLocalBranch);
        }
        other => panic!("unexpected plan {other:?}"),
    }
}

#[test]
fn get_checks_the_format_the_remote_and_the_remote_branch_in_order() {
    let git = ScriptedGit::new(vec![REF_OK]);
    let fs = FakeFs::empty();
    let error = prepare_get(&git, &fs, &fs, "/repo", "/repo/.worktrees", "origin", "main").unwrap_err();
    assert_eq!(error.code, ErrorCode::InvalidRemoteBranchFormat);
    assert!(git.runs.borrow().is_empty());

    let error = prepare_get(&git, &fs, &fs, "/repo", "/repo/.worktrees", "origin/feature", "main").unwrap_err();
    assert_eq!(error.code, ErrorCode::RemoteNotFound);
    assert_eq!(error.message, "remote not found: origin");

    let git = ScriptedGit::new(vec![
        REF_OK,
        (&["remote", "get-url", "origin"], status(0, b"git@host:repo")),
        (&["ls-remote", "--exit-code", "--heads", "origin", "refs/heads/feature"], status(2, b"")),
    ]);
    let error = prepare_get(&git, &fs, &fs, "/repo", "/repo/.worktrees", "origin/feature", "main").unwrap_err();
    assert_eq!(error.code, ErrorCode::RemoteBranchNotFound);
    assert_eq!(error.message, "remote branch not found: origin/feature");
}

#[test]
fn get_plans_a_tracking_branch_for_a_remote_only_branch() {
    let git = ScriptedGit::new(vec![
        REF_OK,
        (&["remote", "get-url", "origin"], status(0, b"git@host:repo")),
        (&["ls-remote", "--exit-code", "--heads", "origin", "refs/heads/feature"], status(0, b"abc\trefs/heads/feature\n")),
    ]);
    let fs = FakeFs::empty();
    let plan = prepare_get(&git, &fs, &fs, "/repo", "/repo/.worktrees", "origin/feature", "main").unwrap();
    assert_eq!(
        plan,
        GetPlan::Create {
            repo_root: "/repo".to_owned(),
            managed_worktree_root: "/repo/.worktrees".to_owned(),
            remote: "origin".to_owned(),
            branch: "feature".to_owned(),
            target_path: "/repo/.worktrees/feature".to_owned(),
            base_branch: "main".to_owned(),
            mode: BranchCreationMode::NewBranch,
        }
    );
}

#[test]
fn branch_mode_is_checked_again_before_the_git_step() {
    let attached = ScriptedGit::new(vec![(&["worktree", "list", "--porcelain", "-z"], listing(&[("/w/feature", "feature")]))]);
    let error = revalidate_branch_mode(&attached, "/repo", "feature", BranchCreationMode::NewBranch).unwrap_err();
    assert_eq!(error.code, ErrorCode::BranchAlreadyAttached);

    let gone = ScriptedGit::new(vec![(&["worktree", "list", "--porcelain", "-z"], listing(&[("/repo", "main")]))]);
    let error = revalidate_branch_mode(&gone, "/repo", "feature", BranchCreationMode::ExistingLocalBranch).unwrap_err();
    assert_eq!(error.code, ErrorCode::WorktreeNotFound);
    assert_eq!(error.message, "local branch disappeared after preflight: feature");
    assert!(revalidate_branch_mode(&gone, "/repo", "feature", BranchCreationMode::NewBranch).is_ok());
}

#[test]
fn branch_oid_is_trimmed_and_must_not_be_empty() {
    let git = ScriptedGit::new(vec![(&["rev-parse", "--verify", "refs/heads/feature"], status(0, b"  0123abc\n"))]);
    assert_eq!(resolve_local_branch_oid(&git, "/repo", "feature").unwrap(), "0123abc");
    let empty = ScriptedGit::new(vec![(&["rev-parse", "--verify", "refs/heads/feature"], status(0, b"\n"))]);
    let error = resolve_local_branch_oid(&empty, "/repo", "feature").unwrap_err();
    assert_eq!(error.code, ErrorCode::InternalError);
    assert_eq!(error.message, "failed to resolve branch before rollback: feature");
}

fn new_plan() -> NewPlan {
    NewPlan {
        repo_root: "/repo".to_owned(),
        managed_worktree_root: "/repo/.worktrees".to_owned(),
        branch: "feature".to_owned(),
        target_path: "/repo/.worktrees/feature".to_owned(),
        base_branch: "main".to_owned(),
    }
}

fn creating_git(add_status: i32) -> ScriptedGit {
    ScriptedGit::new(vec![
        (&["worktree", "list", "--porcelain", "-z"], listing(&[("/repo", "main")])),
        (&["worktree", "add", "-b", "feature", "/repo/.worktrees/feature", "main"], status(add_status, b"")),
        (&["rev-parse", "--verify", "refs/heads/feature"], status(0, b"0123abc\n")),
    ])
}

#[test]
fn new_git_step_adds_the_worktree_and_records_the_created_branch() {
    let git = creating_git(0);
    let applied = apply_new_git(&git, &FakeFs::empty(), &new_plan()).unwrap();
    assert!(git.ran(&["worktree", "add", "-b", "feature", "/repo/.worktrees/feature", "main"]));
    assert_eq!(applied.path, "/repo/.worktrees/feature");
    assert_eq!(applied.created_branch_oid.as_deref(), Some("0123abc"));
    assert_eq!(applied.disposition, None);
    assert!(applied.remove_worktree_on_state_failure);
}

#[test]
fn new_git_step_prunes_the_target_parents_when_git_fails() {
    let git = creating_git(128);
    let fs = FakeFs::empty();
    let error = apply_new_git(&git, &fs, &new_plan()).unwrap_err();
    assert_eq!(error.code, ErrorCode::GitCommandFailed);
    assert_eq!(*fs.pruned.borrow(), ["/repo/.worktrees/feature"]);
    assert!(!git.ran(&["rev-parse", "--verify", "refs/heads/feature"]));
}

#[test]
fn new_git_step_refuses_a_target_that_moved_after_preflight() {
    let git = creating_git(0);
    let mut plan = new_plan();
    plan.target_path = "/repo/.worktrees/other".to_owned();
    let error = apply_new_git(&git, &FakeFs::empty(), &plan).unwrap_err();
    assert_eq!(error.code, ErrorCode::PathOutsideRepo);
    assert_eq!(error.message, "managed worktree target changed after preflight");
    assert_eq!(error.detail("actualPath"), Some(&DetailValue::Text("/repo/.worktrees/feature".to_owned())));
    assert_eq!(error.detail("expectedPath"), Some(&DetailValue::Text("/repo/.worktrees/other".to_owned())));
    assert!(!git.ran(&["worktree", "add", "-b", "feature", "/repo/.worktrees/other", "main"]));
}

#[test]
fn target_that_escapes_the_managed_root_is_refused() {
    let git = creating_git(0);
    let fs = FakeFs { escaping: vec!["/repo/.worktrees/feature".to_owned()], ..FakeFs::empty() };
    let error = apply_new_git(&git, &fs, &new_plan()).unwrap_err();
    assert_eq!(error.code, ErrorCode::PathOutsideRepo);
    assert_eq!(error.message, "path escapes the managed root");
}

#[test]
fn branch_that_climbs_out_of_the_managed_root_has_no_target() {
    let target = vde_worktree::create::resolve_target(&FakeFs::empty(), "/repo/.worktrees", "../outside");
    assert_eq!(target.unwrap_err().code, ErrorCode::PathOutsideRepo);
    let target = vde_worktree::create::resolve_target(&FakeFs::empty(), "/repo/.worktrees", "feature/a").unwrap();
    assert_eq!(target, "/repo/.worktrees/feature/a");
}

#[test]
fn switch_git_step_checks_that_an_existing_worktree_stayed_put() {
    let plan = SwitchPlan::Existing {
        repo_root: "/repo".to_owned(),
        branch: "feature".to_owned(),
        path: "/w/feature".to_owned(),
        base_branch: "main".to_owned(),
    };
    let same = ScriptedGit::new(vec![(&["worktree", "list", "--porcelain", "-z"], listing(&[("/w/feature", "feature")]))]);
    let applied = apply_switch_git(&same, &FakeFs::empty(), &plan).unwrap();
    assert_eq!(applied.disposition, Some(WorktreeDisposition::Existing));
    assert!(!applied.remove_worktree_on_state_failure);

    let moved = ScriptedGit::new(vec![(&["worktree", "list", "--porcelain", "-z"], listing(&[("/w/moved", "feature")]))]);
    let error = apply_switch_git(&moved, &FakeFs::empty(), &plan).unwrap_err();
    assert_eq!(error.code, ErrorCode::BranchInUse);
    assert_eq!(error.detail("actualPath"), Some(&DetailValue::Text("/w/moved".to_owned())));

    let gone = ScriptedGit::new(vec![(&["worktree", "list", "--porcelain", "-z"], listing(&[("/repo", "main")]))]);
    let error = apply_switch_git(&gone, &FakeFs::empty(), &plan).unwrap_err();
    assert_eq!(error.code, ErrorCode::WorktreeNotFound);
    assert_eq!(error.message, "worktree disappeared after preflight: feature");
}

#[test]
fn switch_git_step_attaches_an_existing_local_branch_without_creating_one() {
    let plan = SwitchPlan::Create {
        repo_root: "/repo".to_owned(),
        managed_worktree_root: "/repo/.worktrees".to_owned(),
        branch: "feature".to_owned(),
        target_path: "/repo/.worktrees/feature".to_owned(),
        base_branch: "main".to_owned(),
        mode: BranchCreationMode::ExistingLocalBranch,
    };
    let git = ScriptedGit::new(vec![
        (&["worktree", "list", "--porcelain", "-z"], listing(&[("/repo", "main")])),
        (&["show-ref", "--verify", "--quiet", "refs/heads/feature"], status(0, b"")),
        (&["worktree", "add", "/repo/.worktrees/feature", "feature"], status(0, b"")),
    ]);
    let applied = apply_switch_git(&git, &FakeFs::empty(), &plan).unwrap();
    assert_eq!(applied.disposition, Some(WorktreeDisposition::Created));
    assert_eq!(applied.created_branch_oid, None);
    assert!(!git.ran(&["rev-parse", "--verify", "refs/heads/feature"]));
}

#[test]
fn get_git_step_deletes_its_new_branch_when_the_worktree_cannot_be_added() {
    let plan = GetPlan::Create {
        repo_root: "/repo".to_owned(),
        managed_worktree_root: "/repo/.worktrees".to_owned(),
        remote: "origin".to_owned(),
        branch: "feature".to_owned(),
        target_path: "/repo/.worktrees/feature".to_owned(),
        base_branch: "main".to_owned(),
        mode: BranchCreationMode::NewBranch,
    };
    let git = ScriptedGit::new(vec![
        (&["worktree", "list", "--porcelain", "-z"], listing(&[("/repo", "main")])),
        (&["fetch", "origin", "+refs/heads/feature:refs/remotes/origin/feature"], status(0, b"")),
        (&["branch", "--track", "feature", "origin/feature"], status(0, b"")),
        (&["rev-parse", "--verify", "refs/heads/feature"], status(0, b"0123abc\n")),
        (&["worktree", "add", "/repo/.worktrees/feature", "feature"], status(128, b"")),
        (&["update-ref", "-d", "refs/heads/feature", "0123abc"], status(0, b"")),
    ]);
    let fs = FakeFs::empty();
    let error = apply_get_git(&git, &fs, &plan).unwrap_err();
    assert_eq!(error.code, ErrorCode::GitCommandFailed);
    assert!(git.ran(&["update-ref", "-d", "refs/heads/feature", "0123abc"]));
    assert_eq!(*fs.pruned.borrow(), ["/repo/.worktrees/feature"]);
}
