use std::cell::RefCell;

use vde_worktree::candidates::{
    branch_rows_of, candidates_output, completion_candidates, hook_rows_of, managed_rows_of, worktree_rows_of,
    CompletionCandidateKind, GitWorktree,
};
use vde_worktree::error::DetailValue;
use vde_worktree::git::GitCli;
use vde_worktree::process::{ProcessCommand, ProcessError, ProcessOutput, ProcessRunner};

struct RefsRunner {
    stdout: Vec<u8>,
    commands: RefCell<Vec<ProcessCommand>>,
}

impl ProcessRunner for RefsRunner {
    fn run(&self, command: &ProcessCommand) -> Result<ProcessOutput, ProcessError> {
        self.commands.borrow_mut().push(command.clone());
        Ok(ProcessOutput { stdout: self.stdout.clone(), exit_code: Some(0), ..Default::default() })
    }
}

fn worktree(path: &str, branch: Option<&str>) -> GitWorktree {
    GitWorktree { path: path.to_owned(), branch: branch.map(str::to_owned) }
}

fn texts(values: &[&str]) -> Vec<String> {
    values.iter().map(|value| (*value).to_owned()).collect()
}

#[test]
fn worktree_rows_name_branch_and_path_and_skip_detached_worktrees() {
    let rows = worktree_rows_of(&[
        worktree("/repo", Some("main")),
        worktree("/repo/.worktree/x", None),
        worktree("/w/odd\tpath", Some("feature\nname ")),
    ]);
    assert_eq!(rows, ["main\tpath=/repo", "feature name\tpath=/w/odd path"]);
}

#[test]
fn branch_rows_follow_lines_and_drop_remote_heads() {
    let stdout = b"origin/HEAD\r\norigin/main\norigin/feature\n";
    assert_eq!(branch_rows_of(stdout, true), ["origin/main", "origin/feature"]);
    assert_eq!(branch_rows_of(stdout, false), ["origin/HEAD", "origin/main", "origin/feature"]);
    assert!(branch_rows_of(b"", false).is_empty());
}

#[test]
fn hook_rows_keep_pre_and_post_hooks_in_sorted_order() {
    let rows = hook_rows_of(&texts(&["post-switch", "README", "pre-new", "post-new", "prefix"]));
    assert_eq!(rows, ["post-new", "post-switch", "pre-new"]);
}

#[test]
fn managed_rows_show_the_path_below_the_managed_root() {
    let rows = managed_rows_of(
        &[
            worktree("/repo", Some("main")),
            worktree("/repo/.worktree", Some("root")),
            worktree("/repo/.worktree/feature/a", Some("feature/a")),
            worktree("/repo/.worktree/detached", None),
        ],
        "/repo/.worktree",
    );
    assert_eq!(rows, ["feature/a\tbranch=feature/a", "detached\tbranch=(detached)"]);
}

#[test]
fn candidates_print_one_row_per_line() {
    let output = candidates_output(texts(&["a", "b"]));
    assert_eq!(output.human_stdout, "a\nb\n");
    assert_eq!(
        output.data,
        DetailValue::Object(vec![(
            "candidates".to_owned(),
            DetailValue::List(vec![DetailValue::Text("a".to_owned()), DetailValue::Text("b".to_owned())]),
        )])
    );
    assert_eq!(candidates_output(Vec::new()).human_stdout, "");
}

#[test]
fn branch_candidates_come_from_for_each_ref() {
    let git = GitCli::new(RefsRunner { stdout: b"origin/HEAD\norigin/topic\n".to_vec(), commands: RefCell::new(Vec::new()) });
    let output = completion_candidates(&git, "/repo", "/repo/.worktree", CompletionCandidateKind::RemoteBranches, &[], &[])
        .unwrap();
    assert_eq!(output.human_stdout, "origin/topic\n");
    let commands = git.runner().commands.borrow();
    assert_eq!(commands[0].args, ["for-each-ref", "--format=%(refname:short)", "refs/remotes"]);
}
