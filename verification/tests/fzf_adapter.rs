use std::cell::RefCell;
use std::collections::VecDeque;

use vde_worktree::fzf::{
    selection_next, selection_start, FzfStage, picker_command, popup_decision, FzfAdapter, FzfCommandFailure, FzfError, FzfRequest, FzfSelection,
    PickerCandidate, SelectorCdSurface,
};
use vde_worktree::process::{
    IoErrorKind, IoFailure, OutputPolicy, ProcessCommand, ProcessError, ProcessOutput,
    ProcessRunner, StdinPolicy,
};

#[derive(Debug)]
struct FakeRunner {
    commands: RefCell<Vec<ProcessCommand>>,
    outputs: RefCell<VecDeque<Result<ProcessOutput, ProcessError>>>,
}

impl FakeRunner {
    fn with_outputs(outputs: Vec<ProcessOutput>) -> Self {
        Self {
            commands: RefCell::new(Vec::new()),
            outputs: RefCell::new(outputs.into_iter().map(Ok).collect()),
        }
    }

    fn with_results(outputs: Vec<Result<ProcessOutput, ProcessError>>) -> Self {
        Self {
            commands: RefCell::new(Vec::new()),
            outputs: RefCell::new(outputs.into_iter().collect()),
        }
    }
}

impl ProcessRunner for FakeRunner {
    fn run(&self, command: &ProcessCommand) -> Result<ProcessOutput, ProcessError> {
        self.commands.borrow_mut().push(command.clone());
        self.outputs.borrow_mut().pop_front().expect("fake output")
    }
}

fn output(stdout: &str, exit_code: i32) -> ProcessOutput {
    ProcessOutput {
        stdout: stdout.as_bytes().to_vec(),
        stderr: Vec::new(),
        exit_code: Some(exit_code),
        timed_out: false,
        ..Default::default()
    }
}

fn candidate() -> PickerCandidate {
    PickerCandidate {
        line: "\u{1b}[38;2;1;2;3m* main\u{1b}[0m\t/repo\tpreview".to_owned(),
        path: "/repo".to_owned(),
    }
}

fn request(candidates: &[PickerCandidate]) -> FzfRequest<'_> {
    FzfRequest {
        candidates,
        cwd: "/repo",
        prompt: "worktree> ",
        surface: SelectorCdSurface::Inline,
        tmux_popup_opts: "80%,70%",
        extra_args: &[],
        stderr_is_terminal: true,
        in_tmux: false,
    }
}

#[test]
fn truncated_selection_is_rejected_even_if_its_prefix_matches_a_candidate() {
    let mut selection = output("* main\t/repo\tpreview\n", 0);
    selection.stdout_truncated = true;
    let adapter = FzfAdapter::new(FakeRunner::with_outputs(vec![output("0.60.0", 0), selection]));
    assert!(
        matches!(adapter.select_path(&request(&[candidate()])), Err(FzfError::CommandFailed(failure)) if failure.stdout_truncated)
    );
}

#[test]
fn uses_shell_free_argv_inherited_stderr_and_captured_stdout() {
    let candidates = [candidate()];
    let runner = FakeRunner::with_outputs(vec![
        output("0.60.0\n", 0),
        output("* main\t/repo\tpreview\n", 0),
    ]);
    let adapter = FzfAdapter::new(runner);
    assert_eq!(
        adapter.select_path(&request(&candidates)).unwrap(),
        FzfSelection::Selected("/repo".to_owned())
    );
    let commands = adapter.runner().commands.borrow();
    let selection = &commands[1];
    assert_eq!(selection.program, "fzf");
    assert_eq!(selection.stderr, OutputPolicy::Inherit);
    assert_eq!(selection.stdout, OutputPolicy::Capture);
    assert!(selection.args.contains(&"--delimiter=\t".to_owned()));
    assert!(selection.args.contains(&"--ansi".to_owned()));
    assert!(selection.args.contains(&"--preview=printf '%b' {3}".to_owned()));
}

#[test]
fn no_color_candidate_keeps_leading_alignment_spaces() {
    let candidates = [PickerCandidate {
        line: "  feature/a  CLEAN | UNKNOWN | OPEN\t/repo/a\tpreview".to_owned(),
        path: "/repo/a".to_owned(),
    }];
    let runner = FakeRunner::with_outputs(vec![
        output("0.60.0\n", 0),
        output("  feature/a  CLEAN | UNKNOWN | OPEN\t/repo/a\tpreview\n", 0),
    ]);
    let adapter = FzfAdapter::new(runner);

    assert_eq!(
        adapter.select_path(&request(&candidates)).unwrap(),
        FzfSelection::Selected("/repo/a".to_owned())
    );
    let commands = adapter.runner().commands.borrow();
    let StdinPolicy::Bytes(input) = &commands[1].stdin else {
        panic!("fzf input must be captured bytes");
    };
    assert!(input.starts_with(b"  feature/a"));
}

#[test]
fn auto_uses_native_tmux_only_when_capability_is_present() {
    let candidates = [candidate()];
    let runner = FakeRunner::with_outputs(vec![
        output("0.60.0", 0),
        output("usage: fzf --tmux", 0),
        output("* main\t/repo\tpreview", 0),
    ]);
    let adapter = FzfAdapter::new(runner);
    let mut request = request(&candidates);
    request.surface = SelectorCdSurface::Auto;
    request.in_tmux = true;
    request.tmux_popup_opts = "90%,80%";
    adapter.select_path(&request).unwrap();
    let commands = adapter.runner().commands.borrow();
    assert!(commands[2].args.contains(&"--tmux=90%,80%".to_owned()));
}

#[test]
fn explicit_popup_without_capability_is_typed_and_never_falls_back() {
    let candidates = [candidate()];
    let runner = FakeRunner::with_outputs(vec![output("0.50.0", 0), output("usage: fzf", 0)]);
    let adapter = FzfAdapter::new(runner);
    let mut request = request(&candidates);
    request.surface = SelectorCdSurface::TmuxPopup;
    request.in_tmux = true;
    assert!(matches!(adapter.select_path(&request), Err(FzfError::TmuxPopupUnsupported)));
    assert_eq!(adapter.runner().commands.borrow().len(), 2);
}

#[test]
fn explicit_popup_outside_tmux_is_typed_without_attempting_inline_or_capability_fallback() {
    let candidates = [candidate()];
    let runner = FakeRunner::with_outputs(vec![output("0.60.0", 0)]);
    let adapter = FzfAdapter::new(runner);
    let mut request = request(&candidates);
    request.surface = SelectorCdSurface::TmuxPopup;
    request.in_tmux = false;

    assert!(matches!(adapter.select_path(&request), Err(FzfError::TmuxPopupUnsupported)));
    assert_eq!(adapter.runner().commands.borrow().len(), 1);
}

#[test]
fn auto_uses_inline_when_the_tmux_capability_check_fails() {
    let candidates = [candidate()];
    let runner = FakeRunner::with_outputs(vec![
        output("0.60.0", 0),
        output("capability check failed", 2),
        output("* main\t/repo\tpreview", 0),
    ]);
    let adapter = FzfAdapter::new(runner);
    let mut request = request(&candidates);
    request.surface = SelectorCdSurface::Auto;
    request.in_tmux = true;

    assert_eq!(adapter.select_path(&request).unwrap(), FzfSelection::Selected("/repo".to_owned()));
    let commands = adapter.runner().commands.borrow();
    assert!(!commands[2].args.iter().any(|arg| arg.starts_with("--tmux=")));
}

#[test]
fn popup_runtime_failure_is_returned_without_inline_retry() {
    let candidates = [candidate()];
    let runner = FakeRunner::with_outputs(vec![
        output("0.60.0", 0),
        output("usage: fzf --tmux", 0),
        output("unknown option: --tmux", 2),
    ]);
    let adapter = FzfAdapter::new(runner);
    let mut request = request(&candidates);
    request.surface = SelectorCdSurface::TmuxPopup;
    request.in_tmux = true;
    assert!(matches!(
        adapter.select_path(&request),
        Err(FzfError::CommandFailed(FzfCommandFailure { exit_code: Some(2), .. }))
    ));
    let commands = adapter.runner().commands.borrow();
    assert_eq!(commands.len(), 3);
    assert!(commands[2].args.iter().any(|argument| argument.starts_with("--tmux=")));
}

#[test]
fn reports_cancel_130_and_rejects_unknown_selection() {
    let candidates = [candidate()];
    let cancelled = FzfAdapter::new(FakeRunner::with_outputs(vec![output("0.60.0", 0), output("", 130)]));
    assert_eq!(cancelled.select_path(&request(&candidates)).unwrap(), FzfSelection::Cancelled);

    let invalid = FzfAdapter::new(FakeRunner::with_outputs(vec![output("0.60.0", 0), output("outside", 0)]));
    assert!(matches!(invalid.select_path(&request(&candidates)), Err(FzfError::InvalidOutput(_))));
}

#[test]
fn stdout_may_be_piped_but_stderr_must_be_a_terminal() {
    let candidates = [candidate()];
    let adapter = FzfAdapter::new(FakeRunner::with_outputs(Vec::new()));
    let mut request = request(&candidates);
    request.stderr_is_terminal = false;
    assert!(matches!(adapter.select_path(&request), Err(FzfError::InteractiveRequired)));
    assert!(adapter.runner().commands.borrow().is_empty());
}

#[test]
fn empty_candidates_fail_before_dependency_checks() {
    let adapter = FzfAdapter::new(FakeRunner::with_outputs(Vec::new()));
    assert!(matches!(adapter.select_path(&request(&[])), Err(FzfError::NoCandidates)));
    assert!(adapter.runner().commands.borrow().is_empty());
}

#[test]
fn missing_fzf_binary_is_a_missing_dependency() {
    let candidates = [candidate()];
    let adapter = FzfAdapter::new(FakeRunner::with_results(vec![Err(ProcessError::Spawn(IoFailure {
        kind: IoErrorKind::NotFound,
        message: "No such file or directory".to_owned(),
    }))]));
    assert!(matches!(adapter.select_path(&request(&candidates)), Err(FzfError::DependencyMissing)));
}

#[test]
fn reserved_extra_arguments_are_rejected_before_any_process_runs() {
    let candidates = [candidate()];
    let adapter = FzfAdapter::new(FakeRunner::with_outputs(Vec::new()));
    let extra = vec!["--prompt=x".to_owned()];
    let mut request = request(&candidates);
    request.extra_args = &extra;
    assert!(matches!(adapter.select_path(&request), Err(FzfError::InvalidArgument(_))));
    assert!(adapter.runner().commands.borrow().is_empty());
}

#[test]
fn selected_path_is_the_candidate_path_not_the_visible_text() {
    let candidates = [
        PickerCandidate { line: "feature/a\t/repo/a\tp".to_owned(), path: "/somewhere/a".to_owned() },
        PickerCandidate { line: "feature/b\t/repo/b\tp".to_owned(), path: "/somewhere/b".to_owned() },
    ];
    let adapter = FzfAdapter::new(FakeRunner::with_outputs(vec![
        output("0.60.0", 0),
        output("feature/b\t/repo/b\tp\n", 0),
    ]));
    assert_eq!(
        adapter.select_path(&request(&candidates)).unwrap(),
        FzfSelection::Selected("/somewhere/b".to_owned())
    );
}

#[test]
fn surface_decision_follows_the_capability_only_inside_tmux() {
    assert!(matches!(popup_decision(SelectorCdSurface::Inline, true, Some(Ok(true))), Ok(false)));
    assert!(matches!(popup_decision(SelectorCdSurface::Auto, false, None), Ok(false)));
    assert!(matches!(popup_decision(SelectorCdSurface::Auto, true, Some(Ok(true))), Ok(true)));
    assert!(matches!(popup_decision(SelectorCdSurface::Auto, true, Some(Ok(false))), Ok(false)));
    assert!(matches!(popup_decision(SelectorCdSurface::Auto, true, Some(Err(FzfError::DependencyMissing))), Ok(false)));
    assert!(matches!(popup_decision(SelectorCdSurface::TmuxPopup, false, None), Err(FzfError::TmuxPopupUnsupported)));
    assert!(matches!(
        popup_decision(SelectorCdSurface::TmuxPopup, true, Some(Ok(false))),
        Err(FzfError::TmuxPopupUnsupported)
    ));
    assert!(matches!(popup_decision(SelectorCdSurface::TmuxPopup, true, Some(Ok(true))), Ok(true)));
    assert!(matches!(
        popup_decision(SelectorCdSurface::TmuxPopup, true, Some(Err(FzfError::DependencyMissing))),
        Err(FzfError::DependencyMissing)
    ));
}

#[test]
fn picker_command_feeds_candidates_and_leaves_stderr_to_the_terminal() {
    let candidates = [candidate()];
    let mut req = request(&candidates);
    req.tmux_popup_opts = "90%,80%";
    let command = picker_command(&req, true, &"line one".to_owned());
    assert_eq!(command.program, "fzf");
    assert_eq!(command.cwd.as_deref(), Some("/repo"));
    assert_eq!(command.stdin, StdinPolicy::Bytes(b"line one".to_vec()));
    assert_eq!(command.stdout, OutputPolicy::Capture);
    assert_eq!(command.stderr, OutputPolicy::Inherit);
    assert_eq!(command.timeout_ms, None);
    assert!(command.args.contains(&"--tmux=90%,80%".to_owned()));
    assert!(command.args.contains(&"--prompt=worktree> ".to_owned()));
    let inline = picker_command(&req, false, &"x".to_owned());
    assert!(!inline.args.iter().any(|a| a.starts_with("--tmux=")));
}

#[test]
fn selection_steps_name_each_run_and_stop_without_a_retry() {
    let empty: [PickerCandidate; 0] = [];
    let (stage, command) = selection_start(&request(&empty));
    assert!(matches!(stage, FzfStage::Done(Err(FzfError::NoCandidates))));
    assert!(command.is_none());

    let candidates = [candidate()];
    let mut popup = request(&candidates);
    popup.surface = SelectorCdSurface::TmuxPopup;
    let (stage, command) = selection_start(&popup);
    assert!(matches!(stage, FzfStage::Version));
    assert_eq!(command.unwrap().args, vec!["--version".to_owned()]);
    let (stage, command) = selection_next(&popup, stage, Ok(output("0.60.0", 0)));
    assert!(matches!(stage, FzfStage::Done(Err(FzfError::TmuxPopupUnsupported))));
    assert!(command.is_none());

    popup.in_tmux = true;
    let (stage, _) = selection_start(&popup);
    let (stage, command) = selection_next(&popup, stage, Ok(output("0.60.0", 0)));
    assert!(matches!(stage, FzfStage::Capability));
    assert_eq!(command.unwrap().args, vec!["--help".to_owned()]);
    let (stage, command) = selection_next(&popup, stage, Ok(output("usage: fzf --tmux", 0)));
    assert!(matches!(stage, FzfStage::Picking(_)));
    assert!(command.unwrap().args.iter().any(|a| a.starts_with("--tmux=")));
    let (stage, command) = selection_next(&popup, stage, Ok(output("unknown option: --tmux", 2)));
    assert!(matches!(stage, FzfStage::Done(Err(FzfError::CommandFailed(_)))));
    assert!(command.is_none());
}
