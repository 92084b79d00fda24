use std::cell::RefCell;

use vde_worktree::completion::{completion_script, run_completion, CompletionInstaller, CompletionShell};
use vde_worktree::error::{CliError, DetailValue, ErrorCode};

/// An installer double that records what it was asked to write and answers as told.
struct Installer {
    cleanup_committed: Option<bool>,
    written: RefCell<Vec<(String, Vec<u8>)>>,
}

impl CompletionInstaller for Installer {
    fn atomic_install(&self, destination: &str, content: &[u8]) -> Result<Option<CliError>, CliError> {
        self.written.borrow_mut().push((destination.to_owned(), content.to_vec()));
        Ok(self.cleanup_committed.map(|committed| {
            let mut error = CliError::new(ErrorCode::InternalError, "cleanup failed");
            error.insert_detail("committed", DetailValue::Bool(committed));
            error
        }))
    }
}

fn installer(cleanup_committed: Option<bool>) -> Installer {
    Installer { cleanup_committed, written: RefCell::new(Vec::new()) }
}

fn field<'a>(value: &'a DetailValue, key: &str) -> &'a DetailValue {
    match value {
        DetailValue::Object(entries) => &entries.iter().find(|(k, _)| k == key).expect("missing key").1,
        other => panic!("not an object: {other:?}"),
    }
}

#[test]
fn printing_a_script_ends_it_with_a_line_feed() {
    let output = run_completion(&installer(None), CompletionShell::Fish, false, None, None, "complete -c vw".to_owned()).unwrap();
    assert_eq!(output.human_stdout, "complete -c vw\n");
    assert_eq!(field(&output.data, "installed"), &DetailValue::Bool(false));
    assert_eq!(field(&output.data, "shell"), &DetailValue::Text("fish".to_owned()));
    let output = run_completion(&installer(None), CompletionShell::Zsh, false, None, None, "#compdef vw\n".to_owned()).unwrap();
    assert_eq!(output.human_stdout, "#compdef vw\n");
}

#[test]
fn installing_goes_to_the_requested_or_default_path() {
    let fake = installer(None);
    let output = run_completion(&fake, CompletionShell::Zsh, true, None, Some("/home/me"), "script".to_owned()).unwrap();
    assert_eq!(fake.written.borrow()[0].0, "/home/me/.zsh/completions/_vw");
    assert_eq!(fake.written.borrow()[0].1, b"script");
    assert_eq!(
        output.human_stdout,
        "installed completion: /home/me/.zsh/completions/_vw\nzsh note: add the directory to fpath, then run `autoload -Uz compinit && compinit`\n"
    );
    assert!(output.partial_error.is_none());

    let fake = installer(None);
    let output = run_completion(&fake, CompletionShell::Fish, true, Some("/tmp/vw.fish"), None, "script".to_owned()).unwrap();
    assert_eq!(output.human_stdout, "installed completion: /tmp/vw.fish\n");
    assert_eq!(field(&output.data, "path"), &DetailValue::Text("/tmp/vw.fish".to_owned()));

    let error = run_completion(&installer(None), CompletionShell::Fish, true, None, None, "script".to_owned()).unwrap_err();
    assert_eq!(error.message, "home directory is unavailable; pass --path explicitly");
}

#[test]
fn a_cleanup_error_is_kept_and_an_uncommitted_install_asks_for_recovery() {
    let output = run_completion(&installer(Some(true)), CompletionShell::Fish, true, Some("/c/vw.fish"), None, "s".to_owned()).unwrap();
    assert_eq!(field(&output.data, "installed"), &DetailValue::Bool(true));
    assert_eq!(output.partial_error.unwrap().message, "cleanup failed");

    let output = run_completion(&installer(Some(false)), CompletionShell::Zsh, true, Some("/c/_vw"), None, "s".to_owned()).unwrap();
    assert_eq!(field(&output.data, "installed"), &DetailValue::Bool(false));
    assert_eq!(output.human_stdout, "completion installation requires recovery: /c/_vw\n");
}

#[test]
fn generated_scripts_must_be_utf8() {
    let error = completion_script(CompletionShell::Fish, vec![0x66, 0xff]).unwrap_err();
    assert_eq!(error.code, ErrorCode::InternalError);
    assert!(error.message.starts_with("completion generator produced invalid UTF-8: "));
    let script = completion_script(CompletionShell::Fish, b"complete -c vw -l json\n".to_vec()).unwrap();
    assert!(script.contains("complete -c vde-worktree -l json"));
}
