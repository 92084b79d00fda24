use vde_worktree::completion::{
    default_install_path, enhance_fish, enhance_zsh, replace_zsh_command_argument, CompletionShell,
};
use vde_worktree::error::{DetailValue, ErrorCode};
use vde_worktree::misc::{relative_path, sanitize, validate_disjoint_destinations, validate_relative};
use vde_worktree::plans::{
    paths_from_nul, parse_remote_branch, AdoptPlan, GetPlan, InitPlan, MvApplyPlan, MvPlan,
    MvResult, NewPlan, SwitchPlan, BranchCreationMode, UseInvocation, UseOptions, UseSharing,
};

#[test]
fn default_paths_follow_shell_conventions() {
    let home = "/home/example";
    assert_eq!(
        default_install_path(CompletionShell::Zsh, Some(home)).unwrap(),
        "/home/example/.zsh/completions/_vw"
    );
    assert_eq!(
        default_install_path(CompletionShell::Fish, Some(home)).unwrap(),
        "/home/example/.config/fish/completions/vw.fish"
    );
}

#[test]
fn missing_home_requires_an_explicit_path() {
    let error = default_install_path(CompletionShell::Zsh, None).unwrap_err();
    assert_eq!(error.code, ErrorCode::InvalidArgument);
    assert_eq!(error.message, "home directory is unavailable; pass --path explicitly");
}

#[test]
fn candidate_sanitization_preserves_single_tsv_record() {
    assert_eq!(sanitize("feature/a\tbad\nline"), "feature/a bad line");
}

#[test]
fn sanitization_trims_and_replaces_carriage_returns() {
    assert_eq!(sanitize("  a\r\nb\t "), "a  b");
    assert_eq!(sanitize("\n\t"), "");
}

#[test]
fn remote_branch_parser_splits_only_the_remote_prefix() {
    assert_eq!(
        parse_remote_branch("origin/feature/deep").expect("valid"),
        ("origin".to_owned(), "feature/deep".to_owned())
    );
    for invalid in ["origin", "/feature", "origin/"] {
        assert_eq!(parse_remote_branch(invalid).expect_err("invalid").code, ErrorCode::InvalidRemoteBranchFormat);
    }
}

#[test]
fn invalid_remote_branch_reports_the_value() {
    let error = parse_remote_branch("origin").unwrap_err();
    assert_eq!(error.message, "invalid remote branch format: origin");
    assert_eq!(error.exit_code(), 2);
}

#[test]
fn rejects_absolute_and_traversing_paths() {
    assert_eq!(validate_relative("/tmp/file").unwrap_err().code, ErrorCode::AbsolutePathNotAllowed);
    for path in ["../secret", "a/../../secret", "."] {
        assert_eq!(validate_relative(path).unwrap_err().code, ErrorCode::PathOutsideRepo);
    }
}

#[test]
fn relative_paths_must_stay_inside_the_repository() {
    assert!(validate_relative(".envrc").is_ok());
    assert!(validate_relative("./dir/file").is_ok());
    assert_eq!(validate_relative("/etc/passwd").unwrap_err().code, ErrorCode::AbsolutePathNotAllowed);
    assert_eq!(validate_relative("../x").unwrap_err().code, ErrorCode::PathOutsideRepo);
    assert_eq!(validate_relative("a/../b").unwrap_err().code, ErrorCode::PathOutsideRepo);
    assert_eq!(validate_relative(".").unwrap_err().code, ErrorCode::PathOutsideRepo);
    assert_eq!(validate_relative("").unwrap_err().code, ErrorCode::PathOutsideRepo);
}

#[test]
fn nul_separated_paths_skip_empty_fields_and_repeats() {
    assert_eq!(paths_from_nul(b"a\0b\0\0a\0c/d\0"), ["a", "b", "c/d"]);
    assert!(paths_from_nul(b"").is_empty());
}

#[test]
fn hook_targets_follow_each_plan() {
    let init = InitPlan {
        repo_root: "/repo".to_owned(),
        managed_worktree_root: "/repo/.worktree".to_owned(),
        metadata_directories: Vec::new(),
        exclude_path: "/repo/.git/info/exclude".to_owned(),
        exclude_block: None,
        already_initialized: false,
    };
    assert_eq!(init.hook_target().branch, None);
    assert_eq!(init.hook_target().worktree_path, "/repo");

    let new = NewPlan {
        repo_root: "/repo".to_owned(),
        managed_worktree_root: "/repo/.worktree".to_owned(),
        branch: "feature/a".to_owned(),
        target_path: "/repo/.worktree/feature/a".to_owned(),
        base_branch: "main".to_owned(),
    };
    assert_eq!(new.hook_target().branch.as_deref(), Some("feature/a"));
    assert_eq!(new.hook_target().worktree_path, "/repo/.worktree/feature/a");

    let switch = SwitchPlan::Existing {
        repo_root: "/repo".to_owned(),
        branch: "topic".to_owned(),
        path: "/elsewhere/topic".to_owned(),
        base_branch: "main".to_owned(),
    };
    assert_eq!(switch.hook_target().worktree_path, "/elsewhere/topic");

    let get = GetPlan::Create {
        repo_root: "/repo".to_owned(),
        managed_worktree_root: "/repo/.worktree".to_owned(),
        remote: "origin".to_owned(),
        branch: "feature/b".to_owned(),
        target_path: "/repo/.worktree/feature/b".to_owned(),
        base_branch: "main".to_owned(),
        mode: BranchCreationMode::NewBranch,
    };
    assert_eq!(get.hook_target().branch.as_deref(), Some("feature/b"));

    let adopt = AdoptPlan {
        repo_root: "/repo".to_owned(),
        managed_worktree_root: "/repo/.worktree".to_owned(),
        dry_run: true,
        candidates: Vec::new(),
        skipped: Vec::new(),
    };
    assert_eq!(adopt.hook_target().worktree_path, "/repo/.worktree");
    assert_eq!(adopt.hook_target().branch, None);
}

#[test]
fn mv_plan_accessors_and_hooks() {
    let noop = MvPlan::Noop(MvResult { branch: "a".to_owned(), path: "/repo/.worktree/a".to_owned(), metadata: None });
    assert!(!noop.requires_hooks());
    assert_eq!(noop.branch(), "a");
    let apply = MvPlan::Apply(Box::new(MvApplyPlan {
        old_branch: "a".to_owned(),
        new_branch: "b".to_owned(),
        current_path: "/repo/.worktree/a".to_owned(),
        target_path: "/repo/.worktree/b".to_owned(),
    }));
    assert!(apply.requires_hooks());
    assert_eq!(apply.branch(), "b");
    assert_eq!(apply.target_path(), "/repo/.worktree/b");
}

#[test]
fn use_options_default_to_the_safest_invocation() {
    let options = UseOptions::default();
    assert_eq!(options.invocation, UseInvocation::NonInteractive { allow_agent: false, allow_unsafe: false });
    assert_eq!(options.sharing, UseSharing::Reject);
}

#[test]
fn zsh_command_argument_is_replaced_only_inside_its_branch() {
    let script = "(switch)\n':branch:x'\n;;\n(use)\n':branch:x'\n;;\n";
    let replaced = replace_zsh_command_argument(script, "use", "':branch:x'", "':branch:y'");
    assert_eq!(replaced, "(switch)\n':branch:x'\n;;\n(use)\n':branch:y'\n;;\n");
    assert_eq!(replace_zsh_command_argument(script, "missing", "x", "y"), script);
    assert_eq!(replace_zsh_command_argument("(use)\nab\n;;", "use", "", "-"), "(use)\n-a-b-\n;;");
}

#[test]
fn zsh_script_gains_both_binary_names_and_dynamic_candidates() {
    let generated = "#compdef vw\n(use)\n':branch:_default'\n;;\n(del)\n':branch:_default'\n;;\n";
    let script = enhance_zsh(generated);
    assert!(script.starts_with("#compdef vw vde-worktree\n"));
    assert!(script.contains("_vw_complete_use_branches() { _vw_dynamic_candidates use-branches }"));
    let block = script.split_once("(use)\n").unwrap().1.split_once("\n;;").unwrap().0;
    assert!(block.contains("':branch:_vw_complete_use_branches'"));
    let del = script.split_once("(del)\n").unwrap().1.split_once("\n;;").unwrap().0;
    assert!(del.contains("':branch:_vw_complete_worktrees'"));
    assert!(!script.contains("node"));
}

#[test]
fn fish_script_repeats_completions_for_the_long_name() {
    let generated = "complete -c vw -n \"__fish_use_subcommand\" -a list\r\nset -l x\ncomplete -c vw -s h\n";
    let script = enhance_fish(generated);
    assert!(script.starts_with(generated));
    assert!(script.contains("\ncomplete -c vde-worktree -n \"__fish_use_subcommand\" -a list\ncomplete -c vde-worktree -s h\n\n"));
    assert!(script.contains("__fish_seen_subcommand_from use unabsorb"));
    assert!(script.contains("__vw_dynamic_candidates use-branches"));
    assert!(script.ends_with("end\n"));
}

#[test]
fn copy_destinations_must_not_repeat_or_contain_one_another() {
    let paths = |values: &[&str]| values.iter().map(|value| (*value).to_owned()).collect::<Vec<_>>();
    assert!(validate_disjoint_destinations(&paths(&[".envrc", "config/a", "config/b"])).is_ok());
    let error = validate_disjoint_destinations(&paths(&[".envrc", "config", "x", "config/nested"])).unwrap_err();
    assert_eq!(error.code, ErrorCode::InvalidArgument);
    assert_eq!(error.detail("path"), Some(&DetailValue::Text("config".to_owned())));
    assert_eq!(error.detail("conflictingPath"), Some(&DetailValue::Text("config/nested".to_owned())));
    let error = validate_disjoint_destinations(&paths(&["a/./b", "a/b"])).unwrap_err();
    assert_eq!(error.message, "copy/link paths must not duplicate or contain one another");
    assert!(validate_disjoint_destinations(&paths(&["ab", "a"])).is_ok());
}

#[test]
fn link_targets_climb_out_of_the_destination_directory() {
    assert_eq!(relative_path("/w/topic/config", "/repo/config/file").unwrap(), "../../../repo/config/file");
    assert_eq!(relative_path("/repo/a", "/repo/a/b").unwrap(), "b");
    assert_eq!(relative_path("/repo/a", "/repo/a").unwrap(), "");
    let error = relative_path("relative/a", "/repo/b").unwrap_err();
    assert_eq!(error.code, ErrorCode::UnsupportedRepositoryLayout);
}
