//! `doctor`: dependency probes and the health report built from them and from the
//! repository checks. Nothing is locked, observed or recovered here.

use vstd::prelude::*;

use crate::error::{
    copy_detail, detail_view, object_view, CliError, DetailValue, DetailView, ErrorCode, ExecutionPhase,
    ExecutionReport, ExecutionState,
};
use crate::mapping::{int_or_null_value, int_or_null_view};
use crate::pipeline::{error_object, error_object_view, CommandOutput};
use crate::process::{describe_process_error, ProcessCommand, ProcessError, ProcessOutput, ProcessRunner};
use crate::text::{trim_spec, trim_str, utf8_lossy, utf8_lossy_string};

verus! {

/// How a check came out.
#[derive(Clone, Copy, Debug, PartialEq, Eq, Structural)]
pub enum CheckStatus {
    Passed,
    Error,
    Warning,
    Skipped,
}

pub open spec fn status_text(status: CheckStatus) -> Seq<char> {
    match status {
        CheckStatus::Passed => "ok"@,
        CheckStatus::Error => "error"@,
        CheckStatus::Warning => "warning"@,
        CheckStatus::Skipped => "skipped"@,
    }
}

impl CheckStatus {
    pub fn as_str(&self) -> (text: &'static str)
        ensures
            text@ == status_text(*self),
    {
        proof {
            reveal_strlit("ok");
            reveal_strlit("error");
            reveal_strlit("warning");
            reveal_strlit("skipped");
        }
        match self {
            CheckStatus::Passed => "ok",
            CheckStatus::Error => "error",
            CheckStatus::Warning => "warning",
            CheckStatus::Skipped => "skipped",
        }
    }
}

/// One line of the health report.
#[derive(Debug)]
pub struct DoctorCheck {
    pub name: String,
    pub status: CheckStatus,
    pub message: String,
    pub details: DetailValue,
}

/// A check written as a detail object.
pub open spec fn check_view(check: DoctorCheck) -> DetailView {
    DetailView::Object(
        seq![
            ("name"@, DetailView::Text(check.name@)),
            ("status"@, DetailView::Text(status_text(check.status))),
            ("message"@, DetailView::Text(check.message@)),
            ("details"@, detail_view(check.details)),
        ],
    )
}

/// The checks written as detail objects.
pub open spec fn checks_view(checks: Seq<DoctorCheck>) -> Seq<DetailView> {
    checks.map_values(|c: DoctorCheck| check_view(c))
}

pub fn check_value(check: &DoctorCheck) -> (value: DetailValue)
    ensures
        detail_view(value) == check_view(*check),
{
    let mut entries: Vec<(String, DetailValue)> = Vec::new();
    entries.push(("name".to_owned(), DetailValue::Text(check.name.clone())));
    entries.push(("status".to_owned(), DetailValue::Text(check.status.as_str().to_owned())));
    entries.push(("message".to_owned(), DetailValue::Text(check.message.clone())));
    entries.push(("details".to_owned(), copy_detail(&check.details)));
    proof {
        crate::error::lemma_object_view_index(entries@);
        assert(object_view(entries@) =~= seq![
            ("name"@, DetailView::Text(check.name@)),
            ("status"@, DetailView::Text(status_text(check.status))),
            ("message"@, DetailView::Text(check.message@)),
            ("details"@, detail_view(check.details)),
        ]);
    }
    DetailValue::Object(entries)
}

/// A check whose details are the error written as a detail object.
pub fn error_check(name: &str, error: CliError) -> (check: DoctorCheck)
    ensures
        check.name@ == name@,
        check.status == CheckStatus::Error,
        check.message@ == error.message@,
        detail_view(check.details) == error_object_view(error),
{
    let message = error.message.clone();
    DoctorCheck { name: name.to_owned(), status: CheckStatus::Error, message, details: error_object(error) }
}

/// A skipped check with no details.
pub fn skipped_check(name: &str, message: &str) -> (check: DoctorCheck)
    ensures
        check.name@ == name@,
        check.status == CheckStatus::Skipped,
        check.message@ == message@,
        detail_view(check.details) == DetailView::Object(Seq::empty()),
{
    let entries: Vec<(String, DetailValue)> = Vec::new();
    assert(object_view(entries@) =~= Seq::<(Seq<char>, DetailView)>::empty());
    DoctorCheck {
        name: name.to_owned(),
        status: CheckStatus::Skipped,
        message: message.to_owned(),
        details: DetailValue::Object(entries),
    }
}

// ----- dependency probes -----

/// A probe succeeds when the program ran to a zero status in time with nothing truncated. A
/// failed probe is an error when the program is required and a warning otherwise; one that
/// could not run reports why.
pub open spec fn dependency_check_ok(
    name: Seq<char>,
    required: bool,
    expose_output: bool,
    outcome: Result<ProcessOutput, ProcessError>,
    check: DoctorCheck,
) -> bool {
    check.name@ == name && match outcome {
        Ok(o) => {
            let success = o.exit_code == Some(0i32) && !o.timed_out && !o.spec_is_truncated();
            &&& check.status == (if success {
                CheckStatus::Passed
            } else if required {
                CheckStatus::Error
            } else {
                CheckStatus::Warning
            })
            &&& check.message@ == (if success {
                "available"@
            } else {
                "probe failed"@
            })
            &&& detail_view(check.details) == DetailView::Object(
                seq![
                    ("exitCode"@, int_or_null_view(o.exit_code)),
                    ("timedOut"@, DetailView::Bool(o.timed_out)),
                    ("signal"@, int_or_null_view(o.signal)),
                    ("stdoutTruncated"@, DetailView::Bool(o.stdout_truncated)),
                    ("stderrTruncated"@, DetailView::Bool(o.stderr_truncated)),
                    ("version"@, if expose_output {
                        DetailView::Text(trim_spec(utf8_lossy(o.stdout@)))
                    } else {
                        DetailView::Null
                    }),
                ],
            )
        },
        Err(e) => {
            &&& check.status == (if required {
                CheckStatus::Error
            } else {
                CheckStatus::Warning
            })
            &&& check.message@ == describe_process_error(e)
            &&& detail_view(check.details) == DetailView::Object(Seq::empty())
        },
    }
}

/// The check for one probe's outcome.
pub fn dependency_check(name: &str, required: bool, expose_output: bool, outcome: Result<ProcessOutput, ProcessError>) -> (check: DoctorCheck)
    ensures
        dependency_check_ok(name@, required, expose_output, outcome, check),
{
    proof {
        reveal_strlit("available");
        reveal_strlit("probe failed");
    }
    match outcome {
        Ok(output) => {
            let zero = match output.exit_code {
                Some(code) => code == 0,
                None => false,
            };
            let success = zero && !output.timed_out && !output.is_truncated();
            let status = if success {
                CheckStatus::Passed
            } else if required {
                CheckStatus::Error
            } else {
                CheckStatus::Warning
            };
            let message = if success {
                "available"
            } else {
                "probe failed"
            };
            let version = if expose_output {
                DetailValue::Text(trim_str(utf8_lossy_string(output.stdout.as_slice()).as_str()))
            } else {
                DetailValue::Null
            };
            let mut entries: Vec<(String, DetailValue)> = Vec::new();
            entries.push(("exitCode".to_owned(), int_or_null_value(output.exit_code)));
            entries.push(("timedOut".to_owned(), DetailValue::Bool(output.timed_out)));
            entries.push(("signal".to_owned(), int_or_null_value(output.signal)));
            entries.push(("stdoutTruncated".to_owned(), DetailValue::Bool(output.stdout_truncated)));
            entries.push(("stderrTruncated".to_owned(), DetailValue::Bool(output.stderr_truncated)));
            entries.push(("version".to_owned(), version));
            proof {
                crate::error::lemma_object_view_index(entries@);
                assert(object_view(entries@) =~= seq![
                    ("exitCode"@, int_or_null_view(output.exit_code)),
                    ("timedOut"@, DetailView::Bool(output.timed_out)),
                    ("signal"@, int_or_null_view(output.signal)),
                    ("stdoutTruncated"@, DetailView::Bool(output.stdout_truncated)),
                    ("stderrTruncated"@, DetailView::Bool(output.stderr_truncated)),
                    ("version"@, if expose_output {
                        DetailView::Text(trim_spec(utf8_lossy(output.stdout@)))
                    } else {
                        DetailView::Null
                    }),
                ]);
            }
            DoctorCheck { name: name.to_owned(), status, message: message.to_owned(), details: DetailValue::Object(entries) }
        },
        Err(error) => {
            let entries: Vec<(String, DetailValue)> = Vec::new();
            assert(object_view(entries@) =~= Seq::<(Seq<char>, DetailView)>::empty());
            DoctorCheck {
                name: name.to_owned(),
                status: if required {
                    CheckStatus::Error
                } else {
                    CheckStatus::Warning
                },
                message: error.describe(),
                details: DetailValue::Object(entries),
            }
        },
    }
}

pub open spec fn is_dependency_check(check: DoctorCheck, name: Seq<char>, required: bool, expose_output: bool) -> bool {
    exists|outcome: Result<ProcessOutput, ProcessError>| #[trigger] dependency_check_ok(name, required, expose_output, outcome, check)
}

/// Runs `program` with `arguments` in `cwd` with a five-second limit and checks the outcome;
/// the check is named `name`.
pub fn dependency_probe<R: ProcessRunner>(
    runner: &R,
    cwd: &str,
    name: &str,
    program: &str,
    arguments: &[&str],
    required: bool,
    expose_output: bool,
) -> (check: DoctorCheck)
    ensures
        is_dependency_check(check, name@, required, expose_output),
        exists|command: ProcessCommand, outcome: Result<ProcessOutput, ProcessError>|
            #[trigger] runner.ran(command, outcome) && probe_command_spec(command, cwd@, program@, arguments@)
                && dependency_check_ok(name@, required, expose_output, outcome, check),
{
    let mut command = ProcessCommand::new(program);
    let mut i: usize = 0;
    assert(command.args@.map_values(|a: String| a@) =~= arguments@.take(0).map_values(|a: &str| a@));
    while i < arguments.len()
        invariant
            i <= arguments@.len(),
            command.program@ == program@,
            command.args@.map_values(|a: String| a@) == arguments@.take(i as int).map_values(|a: &str| a@),
        decreases arguments.len() - i,
    {
        let argument = String::from_str(arguments[i]);
        let ghost prev = command.args@;
        assert(argument@ == arguments@[i as int]@);
        command.args.push(argument);
        assert(command.args@ == prev.push(argument));
        assert(arguments@.take(i + 1) =~= arguments@.take(i as int).push(arguments@[i as int]));
        assert(command.args@.map_values(|a: String| a@) =~= prev.map_values(|a: String| a@).push(argument@));
        assert(command.args@.map_values(|a: String| a@) =~= arguments@.take(i + 1).map_values(|a: &str| a@));
        i = i + 1;
    }
    assert(arguments@.take(arguments@.len() as int) =~= arguments@);
    command.cwd = Some(cwd.to_owned());
    command.timeout_ms = Some(5000);
    let outcome = runner.run(&command);
    let ghost o = outcome;
    let check = dependency_check(name, required, expose_output, outcome);
    assert(dependency_check_ok(name@, required, expose_output, o, check));
    assert(runner.ran(command, o) && probe_command_spec(command, cwd@, program@, arguments@));
    check
}

/// The probe of a dependency: `program` with `arguments`, in `cwd`, limited to five seconds.
pub open spec fn probe_command_spec(command: ProcessCommand, cwd: Seq<char>, program: Seq<char>, arguments: Seq<&str>) -> bool {
    &&& command.program@ == program
    &&& command.args@.map_values(|a: String| a@) == arguments.map_values(|a: &str| a@)
    &&& command.cwd matches Some(c) && c@ == cwd
    &&& command.timeout_ms == Some(5000u64)
}

// ----- the report -----

/// What the repository checks found, gathered before the dependency probes.
#[derive(Debug)]
pub struct RepositoryReport {
    pub repository: Option<DetailValue>,
    pub checks: Vec<DoctorCheck>,
    pub config: DetailValue,
    pub pending: DetailValue,
    /// Whether GitHub integration is enabled, when the configuration could be read.
    pub effective_gh: Option<bool>,
}

/// The GitHub checks: with integration enabled, the `gh` probe and, when it succeeded, the
/// authentication probe; otherwise one skipped check saying why.
pub open spec fn gh_part_ok(effective_gh: Option<bool>, part: Seq<DoctorCheck>) -> bool {
    match effective_gh {
        Some(true) => part.len() >= 1 && is_dependency_check(part[0], "gh"@, false, true) && if part[0].status
            == CheckStatus::Passed {
            part.len() == 2 && is_dependency_check(part[1], "githubAuthentication"@, false, false)
        } else {
            part.len() == 1
        },
        Some(false) => part.len() == 1 && part[0].name@ == "gh"@ && part[0].status == CheckStatus::Skipped
            && part[0].message@ == "GitHub integration is disabled"@ && detail_view(part[0].details)
            == DetailView::Object(Seq::empty()),
        None => part.len() == 1 && part[0].name@ == "gh"@ && part[0].status == CheckStatus::Skipped
            && part[0].message@ == "effective configuration is unavailable"@ && detail_view(part[0].details)
            == DetailView::Object(Seq::empty()),
    }
}

/// The checks in report order: `git`, the repository checks, the GitHub checks, `fzf` and
/// `tmux`.
pub open spec fn doctor_checks_ok(repository_checks: Seq<DoctorCheck>, effective_gh: Option<bool>, checks: Seq<DoctorCheck>) -> bool {
    let n = repository_checks.len() as int;
    &&& checks.len() >= n + 4
    &&& is_dependency_check(checks[0], "git"@, true, true)
    &&& checks.subrange(1, n + 1) == repository_checks
    &&& gh_part_ok(effective_gh, checks.subrange(n + 1, checks.len() - 2))
    &&& is_dependency_check(checks[checks.len() - 2], "fzf"@, false, true)
    &&& is_dependency_check(checks[checks.len() - 1], "tmux"@, false, true)
}

/// The names of the failed checks, in order.
pub open spec fn failed_names(checks: Seq<DoctorCheck>) -> Seq<Seq<char>>
    decreases checks.len(),
{
    if checks.len() == 0 {
        Seq::empty()
    } else {
        let earlier = failed_names(checks.drop_last());
        if checks.last().status == CheckStatus::Error {
            earlier.push(checks.last().name@)
        } else {
            earlier
        }
    }
}

/// `<name>: <status> — <message>` for each check.
pub open spec fn check_lines(checks: Seq<DoctorCheck>) -> Seq<char>
    decreases checks.len(),
{
    if checks.len() == 0 {
        Seq::empty()
    } else {
        check_lines(checks.drop_last()) + checks.last().name@ + ": "@ + status_text(checks.last().status) + " — "@
            + checks.last().message@ + "\n"@
    }
}

/// The partial error of an unhealthy report: the failed checks named, raised in preflight
/// before anything started.
pub open spec fn is_doctor_failure(error: CliError, failed: Seq<Seq<char>>) -> bool {
    &&& error.code == ErrorCode::SafetyRejected
    &&& error.message@ == "doctor found repository setup issues"@
    &&& object_view(error.details@) == seq![
        ("failedChecks"@, DetailView::List(failed.map_values(|n: Seq<char>| DetailView::Text(n)))),
    ]
    &&& error.execution matches Some(x)
    &&& x.phase == ExecutionPhase::Preflight
    &&& x.state == ExecutionState::NotStarted
    &&& x.completed@.len() == 0
    &&& x.recovery@.len() == 0
}

/// The report: healthy exactly when no check failed, with the failed checks named in a
/// partial error.
pub open spec fn doctor_report_ok(
    cwd: Seq<char>,
    repository: Option<DetailValue>,
    config: DetailValue,
    pending: DetailValue,
    checks: Seq<DoctorCheck>,
    output: CommandOutput,
) -> bool {
    let healthy = failed_names(checks).len() == 0;
    &&& detail_view(output.data) == DetailView::Object(
        seq![
            ("executionDirectory"@, DetailView::Text(cwd)),
            ("repository"@, match repository {
                Some(v) => detail_view(v),
                None => DetailView::Null,
            }),
            ("healthy"@, DetailView::Bool(healthy)),
            ("config"@, detail_view(config)),
            ("checks"@, DetailView::List(checks_view(checks))),
            ("pendingRecoveries"@, detail_view(pending)),
        ],
    )
    &&& output.human_stdout@ == check_lines(checks)
    &&& output.human_stderr@.len() == 0
    &&& healthy ==> output.partial_error is None
    &&& !healthy ==> (output.partial_error matches Some(e) && is_doctor_failure(e, failed_names(checks)))
}

fn status_line(out: &mut String, check: &DoctorCheck)
    ensures
        final(out)@ == old(out)@ + check.name@ + ": "@ + status_text(check.status) + " — "@ + check.message@ + "\n"@,
{
    out.append(check.name.as_str());
    out.append(": ");
    out.append(check.status.as_str());
    out.append(" — ");
    out.append(check.message.as_str());
    out.append("\n");
}

/// Builds the health report from the checks in report order.
pub fn doctor_report(cwd: &str, repository: Option<DetailValue>, config: DetailValue, pending: DetailValue, checks: Vec<DoctorCheck>) -> (output: CommandOutput)
    ensures
        doctor_report_ok(cwd@, repository, config, pending, checks@, output),
{
    let ghost all = checks@;
    let mut stdout = String::new();
    let mut failed: Vec<DetailValue> = Vec::new();
    let mut values: Vec<DetailValue> = Vec::new();
    let mut i: usize = 0;
    while i < checks.len()
        invariant
            i <= all.len(),
            all == checks@,
            stdout@ == check_lines(all.take(i as int)),
            crate::error::list_view(failed@) == failed_names(all.take(i as int)).map_values(|n: Seq<char>| DetailView::Text(n)),
            crate::error::list_view(values@) == checks_view(all.take(i as int)),
        decreases checks.len() - i,
    {
        let check = &checks[i];
        assert(all.take(i + 1).drop_last() =~= all.take(i as int));
        assert(all.take(i + 1).last() == all[i as int]);
        status_line(&mut stdout, check);
        if check.status == CheckStatus::Error {
            let name = DetailValue::Text(check.name.clone());
            proof {
                crate::error::lemma_list_view_push(failed@, name);
            }
            failed.push(name);
            assert(failed_names(all.take(i + 1)).map_values(|n: Seq<char>| DetailView::Text(n)) =~= failed_names(
                all.take(i as int),
            ).map_values(|n: Seq<char>| DetailView::Text(n)).push(DetailView::Text(check.name@)));
        } else {
            assert(failed_names(all.take(i + 1)) == failed_names(all.take(i as int)));
        }
        let value = check_value(check);
        proof {
            crate::error::lemma_list_view_push(values@, value);
        }
        values.push(value);
        assert(checks_view(all.take(i + 1)) =~= checks_view(all.take(i as int)).push(check_view(all[i as int])));
        i = i + 1;
    }
    assert(all.take(all.len() as int) =~= all);
    let healthy = failed.len() == 0;
    assert(healthy <==> crate::error::list_view(failed@).len() == 0);
    let ghost repository_view = if repository is Some {
        detail_view(repository->Some_0)
    } else {
        DetailView::Null
    };
    let ghost config_view = detail_view(config);
    let ghost pending_view = detail_view(pending);
    let repository_value = match repository {
        Some(v) => v,
        None => DetailValue::Null,
    };
    let mut entries: Vec<(String, DetailValue)> = Vec::new();
    entries.push(("executionDirectory".to_owned(), DetailValue::Text(cwd.to_owned())));
    entries.push(("repository".to_owned(), repository_value));
    entries.push(("healthy".to_owned(), DetailValue::Bool(healthy)));
    entries.push(("config".to_owned(), config));
    entries.push(("checks".to_owned(), DetailValue::List(values)));
    entries.push(("pendingRecoveries".to_owned(), pending));
    proof {
        crate::error::lemma_object_view_index(entries@);
        assert(object_view(entries@) =~= seq![
            ("executionDirectory"@, DetailView::Text(cwd@)),
            ("repository"@, repository_view),
            ("healthy"@, DetailView::Bool(healthy)),
            ("config"@, config_view),
            ("checks"@, DetailView::List(checks_view(all))),
            ("pendingRecoveries"@, pending_view),
        ]);
    }
    let ghost entries_view = object_view(entries@);
    let mut output = CommandOutput::new(DetailValue::Object(entries));
    output.human_stdout = stdout;
    assert(healthy == (failed_names(all).len() == 0));
    assert(entries_view =~= seq![
        ("executionDirectory"@, DetailView::Text(cwd@)),
        ("repository"@, match repository {
            Some(v) => detail_view(v),
            None => DetailView::Null,
        }),
        ("healthy"@, DetailView::Bool(failed_names(checks@).len() == 0)),
        ("config"@, detail_view(config)),
        ("checks"@, DetailView::List(checks_view(checks@))),
        ("pendingRecoveries"@, detail_view(pending)),
    ]);
    if !healthy {
        let ghost failed_view = crate::error::list_view(failed@);
        let mut details: Vec<(String, DetailValue)> = Vec::new();
        details.push(("failedChecks".to_owned(), DetailValue::List(failed)));
        proof {
            crate::error::lemma_object_view_index(details@);
            assert(object_view(details@) =~= seq![("failedChecks"@, DetailView::List(failed_view))]);
        }
        output.partial_error = Some(CliError {
            code: ErrorCode::SafetyRejected,
            message: String::from_str("doctor found repository setup issues"),
            details,
            execution: Some(ExecutionReport {
                phase: ExecutionPhase::Preflight,
                state: ExecutionState::NotStarted,
                completed: Vec::new(),
                recovery: Vec::new(),
            }),
        });
    }
    output
}

/// Runs `doctor`: probes `git`, adds the repository checks, probes `gh` (and its
/// authentication) when GitHub integration is enabled, probes `fzf` and `tmux`, and reports.
pub fn doctor_output<R: ProcessRunner>(runner: &R, cwd: &str, report: RepositoryReport) -> (output: CommandOutput)
    ensures
        exists|checks: Seq<DoctorCheck>|
            #[trigger] doctor_checks_ok(report.checks@, report.effective_gh, checks) && doctor_report_ok(
                cwd@,
                report.repository,
                report.config,
                report.pending,
                checks,
                output,
            ),
{
    let ghost original = report;
    let RepositoryReport { repository, checks: mut repository_checks, config, pending, effective_gh } = report;
    let mut checks: Vec<DoctorCheck> = Vec::new();
    checks.push(dependency_probe(runner, cwd, "git", "git", &["--version"], true, true));
    checks.append(&mut repository_checks);
    let ghost before_gh = checks@;
    match effective_gh {
        Some(true) => {
            let probe = dependency_probe(runner, cwd, "gh", "gh", &["--version"], false, true);
            let available = probe.status == CheckStatus::Passed;
            checks.push(probe);
            if available {
                checks.push(dependency_probe(runner, cwd, "githubAuthentication", "gh", &["auth", "status"], false, false));
            }
        },
        Some(false) => {
            checks.push(skipped_check("gh", "GitHub integration is disabled"));
        },
        None => {
            checks.push(skipped_check("gh", "effective configuration is unavailable"));
        },
    }
    let ghost after_gh = checks@;
    checks.push(dependency_probe(runner, cwd, "fzf", "fzf", &["--version"], false, true));
    checks.push(dependency_probe(runner, cwd, "tmux", "tmux", &["-V"], false, true));
    let ghost all = checks@;
    proof {
        reveal_strlit("gh");
        reveal_strlit("GitHub integration is disabled");
        reveal_strlit("effective configuration is unavailable");
        let n = original.checks@.len() as int;
        assert(all.subrange(1, n + 1) =~= original.checks@);
        assert(all.subrange(n + 1, all.len() - 2) =~= after_gh.subrange(n + 1, after_gh.len() as int));
        assert(after_gh.subrange(n + 1, after_gh.len() as int) =~= after_gh.skip(before_gh.len() as int));
    }
    let output = doctor_report(cwd, repository, config, pending, checks);
    assert(doctor_checks_ok(original.checks@, original.effective_gh, all));
    output
}

} // verus!
