//! The repository checks of `doctor`: what was found about the repository, its paths, its
//! initialization, its configuration, its base branch and its pending metadata recoveries,
//! each written as a check. The answers come from the file system and Git; this module
//! decides what is reported for each.

use vstd::prelude::*;

use crate::config::{effective_configuration, CommonOptions, LoadedConfig};
use crate::doctor::{check_view, checks_view, error_check, status_text, CheckStatus, DoctorCheck, RepositoryReport};
use crate::error::{detail_view, list_view, object_view, CliError, DetailValue, DetailView};
use crate::git::RepoContext;
use crate::mapping::text_view;
use crate::pipeline::error_object_view;

verus! {

/// The pending metadata recoveries: how many there are, and their description or the reason
/// it could not be written.
#[derive(Debug)]
pub struct PendingRecoveries {
    pub count: u32,
    pub value: Result<DetailValue, String>,
}

/// What the repository answered to each question `doctor` asks of it: its context, the first
/// of its paths that could not be used, whether it is initialized, the loaded configuration,
/// that configuration written out, the resolved base branch and the pending recoveries.
#[derive(Debug)]
pub struct RepositoryAnswers {
    pub context: Result<RepoContext, CliError>,
    pub path_error: Option<CliError>,
    pub initialized: Result<bool, CliError>,
    pub configuration: Result<LoadedConfig, CliError>,
    pub config_value: Result<DetailValue, CliError>,
    pub base_branch: Result<String, CliError>,
    pub pending: Result<PendingRecoveries, CliError>,
}

/// A check written as a detail object.
pub open spec fn check_json(name: Seq<char>, status: CheckStatus, message: Seq<char>, details: DetailView) -> DetailView {
    DetailView::Object(
        seq![
            ("name"@, DetailView::Text(name)),
            ("status"@, DetailView::Text(status_text(status))),
            ("message"@, DetailView::Text(message)),
            ("details"@, details),
        ],
    )
}

pub open spec fn error_check_json(name: Seq<char>, error: CliError) -> DetailView {
    check_json(name, CheckStatus::Error, error.message@, error_object_view(error))
}

/// The repository's three locations.
pub open spec fn repository_json(c: RepoContext) -> DetailView {
    DetailView::Object(
        seq![
            ("repoRoot"@, text_view(c.repo_root@)),
            ("currentWorktreeRoot"@, text_view(c.current_worktree_root@)),
            ("gitCommonDir"@, text_view(c.git_common_dir@)),
        ],
    )
}

pub open spec fn texts_json(texts: Seq<String>) -> DetailView {
    DetailView::List(texts.map_values(|t: String| DetailView::Text(t@)))
}

pub open spec fn initialization_checks(initialized: Result<bool, CliError>) -> Seq<DetailView> {
    match initialized {
        Ok(true) => seq![check_json("initialization"@, CheckStatus::Passed, "repository state directories exist"@, DetailView::Object(seq![("initialized"@, DetailView::Bool(true))]))],
        Ok(false) => seq![check_json("initialization"@, CheckStatus::Error, "run vw init to initialize repository state"@, DetailView::Object(seq![("initialized"@, DetailView::Bool(false))]))],
        Err(e) => seq![error_check_json("initialization"@, e)],
    }
}

pub open spec fn configuration_checks(
    configuration: Result<LoadedConfig, CliError>,
    config_value: Result<DetailValue, CliError>,
    base_branch: Result<String, CliError>,
) -> Seq<DetailView> {
    match configuration {
        Err(e) => seq![error_check_json("configuration"@, e)],
        Ok(loaded) => (match config_value {
            Err(e) => seq![error_check_json("configurationPaths"@, e)],
            Ok(_) => Seq::empty(),
        }) + seq![check_json("configuration"@, CheckStatus::Passed, "configuration is valid"@, DetailView::Object(seq![("loadedFiles"@, texts_json(loaded.loaded_files@))]))]
            + match base_branch {
            Ok(b) => seq![check_json("baseBranch"@, CheckStatus::Passed, "base branch resolved"@, DetailView::Object(seq![("branch"@, text_view(b@))]))],
            Err(e) => seq![error_check_json("baseBranch"@, e)],
        },
    }
}

pub open spec fn pending_checks(pending: Result<PendingRecoveries, CliError>) -> Seq<DetailView> {
    match pending {
        Err(e) => seq![error_check_json("pendingRecoveries"@, e)],
        Ok(p) => seq![if p.count == 0 {
            check_json("pendingRecoveries"@, CheckStatus::Passed, "no pending metadata transactions"@, DetailView::Object(seq![("count"@, DetailView::Int(0))]))
        } else {
            check_json(
                "pendingRecoveries"@,
                CheckStatus::Error,
                "pending metadata transactions require recovery before mutation"@,
                DetailView::Object(seq![("count"@, DetailView::Int(p.count as i64))]),
            )
        }] + match p.value {
            Ok(_) => Seq::empty(),
            Err(m) => seq![check_json("pendingRecoveryPaths"@, CheckStatus::Error, m@, DetailView::Object(Seq::empty()))],
        },
    }
}

/// The repository checks, in order: the repository itself (and nothing more when it could
/// not be resolved), the first unusable path, initialization, the configuration (its
/// written form, its validity with the loaded files, the base branch), and the pending
/// recoveries.
pub open spec fn repository_checks_spec(a: RepositoryAnswers) -> Seq<DetailView> {
    match a.context {
        Err(e) => seq![error_check_json("repository"@, e)],
        Ok(c) => seq![check_json("repository"@, CheckStatus::Passed, "Git repository resolved"@, repository_json(c))] + (match a.path_error {
            Some(e) => seq![error_check_json("repositoryPaths"@, e)],
            None => Seq::empty(),
        }) + initialization_checks(a.initialized) + configuration_checks(
            a.configuration,
            a.config_value,
            a.base_branch,
        ) + pending_checks(a.pending),
    }
}

/// What the report carries beside the checks: the repository's locations when it was
/// resolved, the written configuration, the pending recoveries' description (an empty list
/// when there is none), and whether GitHub integration is enabled after the command-line
/// switches, when the configuration could be read.
pub open spec fn repository_report_ok(a: RepositoryAnswers, common: CommonOptions, report: RepositoryReport) -> bool {
    &&& checks_view(report.checks@) == repository_checks_spec(a)
    &&& match a.context {
        Err(_) => report.repository is None && detail_view(report.config) == DetailView::Null && detail_view(report.pending)
            == DetailView::List(Seq::empty()) && report.effective_gh is None,
        Ok(c) => {
            &&& report.repository matches Some(r) && detail_view(r) == repository_json(c)
            &&& report.effective_gh == match a.configuration {
                Ok(loaded) => Some(
                    if common.gh {
                        true
                    } else if common.no_gh {
                        false
                    } else {
                        loaded.config.github.enabled
                    },
                ),
                Err(_) => None,
            }
            &&& detail_view(report.config) == match (a.configuration, a.config_value) {
                (Ok(_), Ok(v)) => detail_view(v),
                _ => DetailView::Null,
            }
            &&& detail_view(report.pending) == match a.pending {
                Ok(p) => match p.value {
                    Ok(v) => detail_view(v),
                    Err(_) => DetailView::List(Seq::empty()),
                },
                Err(_) => DetailView::List(Seq::empty()),
            }
        },
    }
}

fn make_check(name: &str, status: CheckStatus, message: &str, details: DetailValue) -> (check: DoctorCheck)
    ensures
        check_view(check) == check_json(name@, status, message@, detail_view(details)),
{
    DoctorCheck { name: name.to_owned(), status, message: message.to_owned(), details }
}

fn push_check(checks: &mut Vec<DoctorCheck>, check: DoctorCheck)
    ensures
        checks_view(final(checks)@) == checks_view(old(checks)@).push(check_view(check)),
{
    checks.push(check);
    assert(checks_view(checks@) =~= checks_view(old(checks)@).push(check_view(check)));
}

fn push_error_check(checks: &mut Vec<DoctorCheck>, name: &str, error: CliError)
    ensures
        checks_view(final(checks)@) == checks_view(old(checks)@).push(error_check_json(name@, error)),
{
    let ghost e = error;
    let check = error_check(name, error);
    assert(check_view(check) == error_check_json(name@, e));
    push_check(checks, check);
}

fn one_entry(key: &str, value: DetailValue) -> (v: DetailValue)
    ensures
        detail_view(v) == DetailView::Object(seq![(key@, detail_view(value))]),
{
    let mut entries: Vec<(String, DetailValue)> = Vec::new();
    entries.push((key.to_owned(), value));
    proof {
        crate::error::lemma_object_view_index(entries@);
        assert(object_view(entries@) =~= seq![(key@, detail_view(value))]);
    }
    DetailValue::Object(entries)
}

fn repository_value(c: &RepoContext) -> (v: DetailValue)
    ensures
        detail_view(v) == repository_json(*c),
{
    let mut entries: Vec<(String, DetailValue)> = Vec::new();
    entries.push(("repoRoot".to_owned(), DetailValue::Text(c.repo_root.clone())));
    entries.push(("currentWorktreeRoot".to_owned(), DetailValue::Text(c.current_worktree_root.clone())));
    entries.push(("gitCommonDir".to_owned(), DetailValue::Text(c.git_common_dir.clone())));
    proof {
        crate::error::lemma_object_view_index(entries@);
        assert(object_view(entries@) =~= seq![
            ("repoRoot"@, text_view(c.repo_root@)),
            ("currentWorktreeRoot"@, text_view(c.current_worktree_root@)),
            ("gitCommonDir"@, text_view(c.git_common_dir@)),
        ]);
    }
    DetailValue::Object(entries)
}

fn texts_value(texts: &Vec<String>) -> (v: DetailValue)
    ensures
        detail_view(v) == texts_json(texts@),
{
    let mut items: Vec<DetailValue> = Vec::new();
    let mut i: usize = 0;
    while i < texts.len()
        invariant
            i <= texts@.len(),
            list_view(items@) == texts@.take(i as int).map_values(|t: String| DetailView::Text(t@)),
        decreases texts.len() - i,
    {
        let item = DetailValue::Text(texts[i].clone());
        proof {
            crate::error::lemma_list_view_push(items@, item);
            assert(texts@.take(i + 1).map_values(|t: String| DetailView::Text(t@)) =~= texts@.take(i as int).map_values(
                |t: String| DetailView::Text(t@),
            ).push(DetailView::Text(texts@[i as int]@)));
        }
        items.push(item);
        i = i + 1;
    }
    assert(texts@.take(texts@.len() as int) =~= texts@);
    DetailValue::List(items)
}

fn push_initialization(checks: &mut Vec<DoctorCheck>, initialized: Result<bool, CliError>)
    ensures
        checks_view(final(checks)@) == checks_view(old(checks)@) + initialization_checks(initialized),
{
    proof {
        reveal_strlit("initialization");
        reveal_strlit("initialized");
        reveal_strlit("repository state directories exist");
        reveal_strlit("run vw init to initialize repository state");
    }
    match initialized {
        Ok(true) => push_check(checks, make_check("initialization", CheckStatus::Passed, "repository state directories exist", one_entry("initialized", DetailValue::Bool(true)))),
        Ok(false) => push_check(checks, make_check("initialization", CheckStatus::Error, "run vw init to initialize repository state", one_entry("initialized", DetailValue::Bool(false)))),
        Err(error) => push_error_check(checks, "initialization", error),
    }
    assert(checks_view(checks@) =~= checks_view(old(checks)@) + initialization_checks(initialized));
}

fn push_configuration(
    checks: &mut Vec<DoctorCheck>,
    configuration: Result<LoadedConfig, CliError>,
    config_value: Result<DetailValue, CliError>,
    base_branch: Result<String, CliError>,
    common: &CommonOptions,
) -> (found: (DetailValue, Option<bool>))
    ensures
        checks_view(final(checks)@) == checks_view(old(checks)@) + configuration_checks(configuration, config_value, base_branch),
        detail_view(found.0) == match (configuration, config_value) {
            (Ok(_), Ok(v)) => detail_view(v),
            _ => DetailView::Null,
        },
        found.1 == match configuration {
            Ok(loaded) => Some(
                if common.gh {
                    true
                } else if common.no_gh {
                    false
                } else {
                    loaded.config.github.enabled
                },
            ),
            Err(_) => None,
        },
{
    proof {
        reveal_strlit("configuration");
        reveal_strlit("configurationPaths");
        reveal_strlit("configuration is valid");
        reveal_strlit("loadedFiles");
        reveal_strlit("baseBranch");
        reveal_strlit("base branch resolved");
        reveal_strlit("branch");
    }
    let ghost c0 = configuration;
    let ghost v0 = config_value;
    let ghost b0 = base_branch;
    match configuration {
        Ok(loaded) => {
            let effective = effective_configuration(loaded, common);
            let effective_gh = Some(effective.config.github.enabled);
            let config = match config_value {
                Ok(value) => value,
                Err(error) => {
                    push_error_check(checks, "configurationPaths", error);
                    DetailValue::Null
                },
            };
            push_check(checks, make_check("configuration", CheckStatus::Passed, "configuration is valid", one_entry("loadedFiles", texts_value(&effective.loaded_files))));
            match base_branch {
                Ok(branch) => push_check(checks, make_check("baseBranch", CheckStatus::Passed, "base branch resolved", one_entry("branch", DetailValue::Text(branch)))),
                Err(error) => push_error_check(checks, "baseBranch", error),
            }
            assert(checks_view(checks@) =~= checks_view(old(checks)@) + configuration_checks(c0, v0, b0));
            (config, effective_gh)
        },
        Err(error) => {
            push_error_check(checks, "configuration", error);
            assert(checks_view(checks@) =~= checks_view(old(checks)@) + configuration_checks(c0, v0, b0));
            (DetailValue::Null, None)
        },
    }
}

fn push_pending(checks: &mut Vec<DoctorCheck>, pending: Result<PendingRecoveries, CliError>) -> (value: DetailValue)
    ensures
        checks_view(final(checks)@) == checks_view(old(checks)@) + pending_checks(pending),
        detail_view(value) == match pending {
            Ok(p) => match p.value {
                Ok(v) => detail_view(v),
                Err(_) => DetailView::List(Seq::empty()),
            },
            Err(_) => DetailView::List(Seq::empty()),
        },
{
    proof {
        reveal_strlit("pendingRecoveries");
        reveal_strlit("no pending metadata transactions");
        reveal_strlit("pending metadata transactions require recovery before mutation");
        reveal_strlit("count");
        reveal_strlit("pendingRecoveryPaths");
    }
    let ghost p0 = pending;
    let mut pending_value = DetailValue::List(Vec::new());
    assert(list_view(Seq::<DetailValue>::empty()) =~= Seq::empty());
    match pending {
        Ok(found) => {
            if found.count == 0 {
                push_check(checks, make_check("pendingRecoveries", CheckStatus::Passed, "no pending metadata transactions", one_entry("count", DetailValue::Int(0))));
            } else {
                push_check(checks, make_check("pendingRecoveries", CheckStatus::Error, "pending metadata transactions require recovery before mutation", one_entry("count", DetailValue::Int(found.count as i64))));
            }
            match found.value {
                Ok(value) => {
                    pending_value = value;
                },
                Err(message) => {
                    assert(object_view(Seq::<(String, DetailValue)>::empty()) =~= Seq::empty());
                    push_check(checks, make_check("pendingRecoveryPaths", CheckStatus::Error, message.as_str(), DetailValue::Object(Vec::new())));
                },
            }
        },
        Err(error) => push_error_check(checks, "pendingRecoveries", error),
    }
    assert(checks_view(checks@) =~= checks_view(old(checks)@) + pending_checks(p0));
    pending_value
}

/// Writes the repository's answers as `doctor`'s repository checks.
pub fn repository_checks(answers: RepositoryAnswers, common: &CommonOptions) -> (report: RepositoryReport)
    ensures
        repository_report_ok(answers, *common, report),
{
    let ghost a = answers;
    proof {
        reveal_strlit("repository");
        reveal_strlit("Git repository resolved");
        reveal_strlit("repositoryPaths");
    }
    let RepositoryAnswers { context, path_error, initialized, configuration, config_value, base_branch, pending } = answers;
    let mut checks: Vec<DoctorCheck> = Vec::new();
    let context = match context {
        Err(error) => {
            push_error_check(&mut checks, "repository", error);
            assert(checks_view(checks@) =~= repository_checks_spec(a));
            assert(list_view(Seq::<DetailValue>::empty()) =~= Seq::empty());
            return RepositoryReport {
                repository: None,
                checks,
                config: DetailValue::Null,
                pending: DetailValue::List(Vec::new()),
                effective_gh: None,
            };
        },
        Ok(context) => context,
    };
    push_check(&mut checks, make_check("repository", CheckStatus::Passed, "Git repository resolved", repository_value(&context)));
    match path_error {
        Some(error) => push_error_check(&mut checks, "repositoryPaths", error),
        None => {},
    }
    push_initialization(&mut checks, initialized);
    let (config, effective_gh) = push_configuration(&mut checks, configuration, config_value, base_branch, common);
    let pending_value = push_pending(&mut checks, pending);
    assert(checks_view(checks@) =~= repository_checks_spec(a));
    RepositoryReport { repository: Some(repository_value(&context)), checks, config, pending: pending_value, effective_gh }
}

} // verus!
