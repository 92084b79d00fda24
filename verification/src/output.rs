//! The stable output of the mutation commands: the JSON data, the human text on stdout and
//! the partial error of a command that succeeded only in part.

use vstd::prelude::*;

use crate::adoption::{AdoptFailed, AdoptResult};
use crate::error::{
    list_view, object_view, plain_error, CliError, DetailValue, DetailView, ErrorCode, ExecutionPhase, ExecutionReport,
    ExecutionState,
};
use crate::mapping::text_view;
use crate::pipeline::CommandOutput;
use crate::plans::{
    AdoptCandidate, AdoptSkipped, AdoptSkippedReason, ExtractGitApplied, ExtractResult, InitResult, MvGitApplied, MvResult,
    UseResult, WorktreeDisposition, WorktreeGitApplied, WorktreeLockRecord, WorktreeMutationResult,
};

verus! {

/// What a finished mutation hands to the output: its result, or a Git transition whose
/// metadata was never finalized.
#[derive(Debug)]
pub enum MutationResult {
    Init(InitResult),
    WorktreeGitApplied(WorktreeGitApplied),
    Worktree(WorktreeMutationResult),
    Adopt(AdoptResult),
    MvGitApplied(MvGitApplied),
    Mv(MvResult),
    ExtractGitApplied(ExtractGitApplied),
    Extract(ExtractResult),
    Use(UseResult),
    Lock(WorktreeLockRecord),
    Unlock { branch: String },
}

pub open spec fn newline() -> Seq<char> {
    seq!['\n']
}

/// `{"branch": .., "path": ..}` with the path on its own line for humans.
pub open spec fn path_output_ok(branch: Seq<char>, path: Seq<char>, out: CommandOutput) -> bool {
    &&& detail_view_of(out.data) == DetailView::Object(seq![("branch"@, text_view(branch)), ("path"@, text_view(path))])
    &&& out.human_stdout@ == path + newline()
    &&& out.human_stderr@.len() == 0
    &&& out.partial_error is None
}

pub open spec fn detail_view_of(v: DetailValue) -> DetailView {
    crate::error::detail_view(v)
}

pub open spec fn disposition_text(d: WorktreeDisposition) -> Seq<char> {
    match d {
        WorktreeDisposition::Created => "created"@,
        WorktreeDisposition::Existing => "existing"@,
    }
}

/// A created or connected worktree: its branch, path and, when known, whether it was
/// created or already existed.
pub open spec fn worktree_json(r: WorktreeMutationResult) -> DetailView {
    DetailView::Object(
        seq![("branch"@, text_view(r.branch@)), ("path"@, text_view(r.path@))] + match r.disposition {
            Some(d) => seq![("disposition"@, text_view(disposition_text(d)))],
            None => Seq::empty(),
        },
    )
}

pub open spec fn candidate_json(c: AdoptCandidate) -> DetailView {
    DetailView::Object(seq![("branch"@, text_view(c.branch@)), ("fromPath"@, text_view(c.from_path@)), ("toPath"@, text_view(c.to_path@))])
}

pub open spec fn text_or_null(t: Option<String>) -> DetailView {
    match t {
        Some(s) => DetailView::Text(s@),
        None => DetailView::Null,
    }
}

pub open spec fn reason_text(r: AdoptSkippedReason) -> Seq<char> {
    match r {
        AdoptSkippedReason::Detached => "detached"@,
        AdoptSkippedReason::Locked => "locked"@,
        AdoptSkippedReason::TargetExists => "target_exists"@,
        AdoptSkippedReason::TargetConflict => "target_conflict"@,
    }
}

pub open spec fn skipped_json(s: AdoptSkipped) -> DetailView {
    DetailView::Object(
        seq![
            ("branch"@, text_or_null(s.branch)),
            ("fromPath"@, text_view(s.from_path@)),
            ("toPath"@, text_or_null(s.to_path)),
            ("reason"@, text_view(reason_text(s.reason))),
        ],
    )
}

pub open spec fn phase_text(p: ExecutionPhase) -> Seq<char> {
    match p {
        ExecutionPhase::Preflight => "preflight"@,
        ExecutionPhase::PreHook => "preHook"@,
        ExecutionPhase::Apply => "apply"@,
        ExecutionPhase::Finalize => "finalize"@,
        ExecutionPhase::PostHook => "postHook"@,
        ExecutionPhase::Process => "process"@,
    }
}

pub open spec fn state_text(s: ExecutionState) -> Seq<char> {
    match s {
        ExecutionState::NotStarted => "notStarted"@,
        ExecutionState::Unknown => "unknown"@,
        ExecutionState::Applied => "applied"@,
        ExecutionState::RolledBack => "rolledBack"@,
        ExecutionState::RecoveryRequired => "recoveryRequired"@,
    }
}

/// An execution report: its phase, its state, the completed steps and the recovery entries.
pub open spec fn execution_json(x: ExecutionReport) -> DetailView {
    DetailView::Object(
        seq![
            ("phase"@, text_view(phase_text(x.phase))),
            ("state"@, text_view(state_text(x.state))),
            ("completed"@, DetailView::List(x.completed@.map_values(|c: String| DetailView::Text(c@)))),
            ("recovery"@, DetailView::Object(object_view(x.recovery@))),
        ],
    )
}

pub open spec fn failed_json(f: AdoptFailed) -> DetailView {
    DetailView::Object(
        seq![
            ("details"@, DetailView::Object(object_view(f.details@))),
            ("execution"@, execution_json(f.execution)),
            ("branch"@, text_view(f.branch@)),
            ("fromPath"@, text_view(f.from_path@)),
            ("toPath"@, text_view(f.to_path@)),
            ("code"@, text_view(f.code@)),
            ("message"@, text_view(f.message@)),
        ],
    )
}

/// The data of `adopt`: whether it was a dry run, the managed root, and its candidates,
/// moved, skipped and failed worktrees.
pub open spec fn adopt_json(r: AdoptResult) -> DetailView {
    DetailView::Object(
        seq![
            ("dryRun"@, DetailView::Bool(r.dry_run)),
            ("managedWorktreeRoot"@, text_view(r.managed_worktree_root@)),
            ("candidates"@, DetailView::List(r.candidates@.map_values(|c: AdoptCandidate| candidate_json(c)))),
            ("moved"@, DetailView::List(r.moved@.map_values(|c: AdoptCandidate| candidate_json(c)))),
            ("skipped"@, DetailView::List(r.skipped@.map_values(|s: AdoptSkipped| skipped_json(s)))),
            ("failed"@, DetailView::List(r.failed@.map_values(|f: AdoptFailed| failed_json(f)))),
        ],
    )
}

/// `<label>: <from> -> <to>` for each candidate, one per line.
pub open spec fn move_lines(label: Seq<char>, cs: Seq<AdoptCandidate>) -> Seq<char>
    decreases cs.len(),
{
    if cs.len() == 0 {
        Seq::empty()
    } else {
        move_lines(label, cs.drop_last()) + label + ": "@ + cs.last().from_path@ + " -> "@ + cs.last().to_path@ + newline()
    }
}

/// `failed: <from> -> <to> [<code>] <message>` for each failure, one per line.
pub open spec fn failure_lines(fs: Seq<AdoptFailed>) -> Seq<char>
    decreases fs.len(),
{
    if fs.len() == 0 {
        Seq::empty()
    } else {
        let f = fs.last();
        failure_lines(fs.drop_last()) + "failed: "@ + f.from_path@ + " -> "@ + f.to_path@ + " ["@ + f.code@ + "] "@ + f.message@
            + newline()
    }
}

/// The human text of `adopt`: the candidates of a dry run, else what moved and what failed.
pub open spec fn adopt_text(r: AdoptResult) -> Seq<char> {
    if r.dry_run {
        move_lines("candidate"@, r.candidates@)
    } else {
        move_lines("moved"@, r.moved@) + failure_lines(r.failed@)
    }
}

/// The output of each mutation result: the data as JSON, the human text and, where part of
/// `adopt` failed, a partial `SAFETY_REJECTED` error; a result whose metadata was never
/// finalized is an internal error.
pub open spec fn mutation_output_ok(result: MutationResult, out: Result<CommandOutput, CliError>) -> bool {
    match result {
        MutationResult::Init(r) => out matches Ok(o) && detail_view_of(o.data) == DetailView::Object(
            seq![("alreadyInitialized"@, DetailView::Bool(r.already_initialized))],
        ) && o.human_stdout@.len() == 0 && o.human_stderr@.len() == 0 && o.partial_error is None,
        MutationResult::WorktreeGitApplied(_) | MutationResult::MvGitApplied(_) | MutationResult::ExtractGitApplied(_) => out matches Err(
            e,
        ) && plain_error(e, ErrorCode::InternalError, "mutation metadata finalization was skipped"@),
        MutationResult::Worktree(r) => out matches Ok(o) && detail_view_of(o.data) == worktree_json(r) && o.human_stdout@ == r.path@
            + newline() && o.human_stderr@.len() == 0 && o.partial_error is None,
        MutationResult::Adopt(r) => out matches Ok(o) && detail_view_of(o.data) == adopt_json(r) && o.human_stdout@ == adopt_text(r)
            && o.human_stderr@.len() == 0 && if r.failed@.len() > 0 {
            o.partial_error matches Some(e) && plain_error(e, ErrorCode::SafetyRejected, "one or more worktrees could not be adopted"@)
        } else {
            o.partial_error is None
        },
        MutationResult::Mv(r) => out matches Ok(o) && path_output_ok(r.branch@, r.path@, o),
        MutationResult::Extract(r) => out matches Ok(o) && path_output_ok(r.branch@, r.path@, o),
        MutationResult::Use(r) => out matches Ok(o) && path_output_ok(r.branch@, r.path@, o),
        MutationResult::Lock(r) => out matches Ok(o) && detail_view_of(o.data) == DetailView::Object(
            seq![("branch"@, text_view(r.branch@)), ("reason"@, text_view(r.reason@)), ("owner"@, text_view(r.owner@))],
        ) && o.human_stdout@.len() == 0 && o.human_stderr@.len() == 0 && o.partial_error is None,
        MutationResult::Unlock { branch } => out matches Ok(o) && detail_view_of(o.data) == DetailView::Object(
            seq![("branch"@, text_view(branch@))],
        ) && o.human_stdout@.len() == 0 && o.human_stderr@.len() == 0 && o.partial_error is None,
    }
}

fn text_value(s: &String) -> (v: DetailValue)
    ensures
        detail_view_of(v) == DetailView::Text(s@),
{
    DetailValue::Text(s.clone())
}

fn optional_text(s: &Option<String>) -> (v: DetailValue)
    ensures
        detail_view_of(v) == text_or_null(*s),
{
    match s {
        Some(t) => DetailValue::Text(t.clone()),
        None => DetailValue::Null,
    }
}

fn line(out: &mut String, parts: &[&str])
    ensures
        final(out)@ == old(out)@ + parts_text(parts@, parts@.len() as int) + newline(),
{
    let mut i: usize = 0;
    while i < parts.len()
        invariant
            i <= parts@.len(),
            out@ == old(out)@ + parts_text(parts@, i as int),
        decreases parts.len() - i,
    {
        let ghost before = out@;
        out.append(parts[i]);
        assert(out@ =~= old(out)@ + parts_text(parts@, i + 1));
        i = i + 1;
    }
    let ghost before = out@;
    out.append("\n");
    proof {
        reveal_strlit("\n");
    }
    assert(out@ =~= before + newline());
}

fn text_line(text: &str) -> (line: String)
    ensures
        line@ == text@ + newline(),
{
    let mut line = String::new();
    line.append(text);
    line.append("\n");
    proof {
        reveal_strlit("\n");
    }
    assert(line@ =~= text@ + newline());
    line
}

pub open spec fn parts_text(parts: Seq<&str>, n: int) -> Seq<char>
    decreases n,
{
    if n <= 0 {
        Seq::empty()
    } else {
        parts_text(parts, n - 1) + parts[n - 1]@
    }
}

fn path_output(branch: &String, path: &String) -> (out: CommandOutput)
    ensures
        path_output_ok(branch@, path@, out),
{
    let mut entries: Vec<(String, DetailValue)> = Vec::new();
    entries.push(("branch".to_owned(), text_value(branch)));
    entries.push(("path".to_owned(), text_value(path)));
    proof {
        crate::error::lemma_object_view_index(entries@);
        assert(object_view(entries@) =~= seq![("branch"@, text_view(branch@)), ("path"@, text_view(path@))]);
    }
    let mut out = CommandOutput::new(DetailValue::Object(entries));
    out.human_stdout = text_line(path.as_str());
    out
}

fn candidate_value(c: &AdoptCandidate) -> (v: DetailValue)
    ensures
        detail_view_of(v) == candidate_json(*c),
{
    let mut entries: Vec<(String, DetailValue)> = Vec::new();
    entries.push(("branch".to_owned(), text_value(&c.branch)));
    entries.push(("fromPath".to_owned(), text_value(&c.from_path)));
    entries.push(("toPath".to_owned(), text_value(&c.to_path)));
    proof {
        crate::error::lemma_object_view_index(entries@);
        assert(object_view(entries@) =~= seq![
            ("branch"@, text_view(c.branch@)),
            ("fromPath"@, text_view(c.from_path@)),
            ("toPath"@, text_view(c.to_path@)),
        ]);
    }
    DetailValue::Object(entries)
}

fn reason_value(r: AdoptSkippedReason) -> (v: DetailValue)
    ensures
        detail_view_of(v) == text_view(reason_text(r)),
{
    let text = match r {
        AdoptSkippedReason::Detached => "detached",
        AdoptSkippedReason::Locked => "locked",
        AdoptSkippedReason::TargetExists => "target_exists",
        AdoptSkippedReason::TargetConflict => "target_conflict",
    };
    proof {
        reveal_strlit("detached");
        reveal_strlit("locked");
        reveal_strlit("target_exists");
        reveal_strlit("target_conflict");
    }
    DetailValue::Text(text.to_owned())
}

fn skipped_value(s: &AdoptSkipped) -> (v: DetailValue)
    ensures
        detail_view_of(v) == skipped_json(*s),
{
    let mut entries: Vec<(String, DetailValue)> = Vec::new();
    entries.push(("branch".to_owned(), optional_text(&s.branch)));
    entries.push(("fromPath".to_owned(), text_value(&s.from_path)));
    entries.push(("toPath".to_owned(), optional_text(&s.to_path)));
    entries.push(("reason".to_owned(), reason_value(s.reason)));
    proof {
        crate::error::lemma_object_view_index(entries@);
        assert(object_view(entries@) =~= seq![
            ("branch"@, text_or_null(s.branch)),
            ("fromPath"@, text_view(s.from_path@)),
            ("toPath"@, text_or_null(s.to_path)),
            ("reason"@, text_view(reason_text(s.reason))),
        ]);
    }
    DetailValue::Object(entries)
}

fn phase_value(p: ExecutionPhase) -> (v: DetailValue)
    ensures
        detail_view_of(v) == text_view(phase_text(p)),
{
    let text = match p {
        ExecutionPhase::Preflight => "preflight",
        ExecutionPhase::PreHook => "preHook",
        ExecutionPhase::Apply => "apply",
        ExecutionPhase::Finalize => "finalize",
        ExecutionPhase::PostHook => "postHook",
        ExecutionPhase::Process => "process",
    };
    proof {
        reveal_strlit("preflight");
        reveal_strlit("preHook");
        reveal_strlit("apply");
        reveal_strlit("finalize");
        reveal_strlit("postHook");
        reveal_strlit("process");
    }
    DetailValue::Text(text.to_owned())
}

fn state_value(s: ExecutionState) -> (v: DetailValue)
    ensures
        detail_view_of(v) == text_view(state_text(s)),
{
    let text = match s {
        ExecutionState::NotStarted => "notStarted",
        ExecutionState::Unknown => "unknown",
        ExecutionState::Applied => "applied",
        ExecutionState::RolledBack => "rolledBack",
        ExecutionState::RecoveryRequired => "recoveryRequired",
    };
    proof {
        reveal_strlit("notStarted");
        reveal_strlit("unknown");
        reveal_strlit("applied");
        reveal_strlit("rolledBack");
        reveal_strlit("recoveryRequired");
    }
    DetailValue::Text(text.to_owned())
}

fn texts_list(texts: &Vec<String>) -> (v: DetailValue)
    ensures
        detail_view_of(v) == DetailView::List(texts@.map_values(|c: String| DetailView::Text(c@))),
{
    let mut items: Vec<DetailValue> = Vec::new();
    let mut i: usize = 0;
    while i < texts.len()
        invariant
            i <= texts@.len(),
            list_view(items@) == texts@.take(i as int).map_values(|c: String| DetailView::Text(c@)),
        decreases texts.len() - i,
    {
        let item = DetailValue::Text(texts[i].clone());
        proof {
            crate::error::lemma_list_view_push(items@, item);
            assert(texts@.take(i + 1).map_values(|c: String| DetailView::Text(c@)) =~= texts@.take(i as int).map_values(
                |c: String| DetailView::Text(c@),
            ).push(DetailView::Text(texts@[i as int]@)));
        }
        items.push(item);
        i = i + 1;
    }
    assert(texts@.take(texts@.len() as int) =~= texts@);
    DetailValue::List(items)
}

fn entries_copy(entries: &Vec<(String, DetailValue)>) -> (v: DetailValue)
    ensures
        detail_view_of(v) == DetailView::Object(object_view(entries@)),
{
    let mut copy: Vec<(String, DetailValue)> = Vec::new();
    let mut i: usize = 0;
    while i < entries.len()
        invariant
            i <= entries@.len(),
            copy@.len() == i,
            forall|j: int| 0 <= j < i ==> #[trigger] copy@[j].0@ == entries@[j].0@ && detail_view_of(copy@[j].1) == detail_view_of(
                entries@[j].1,
            ),
        decreases entries.len() - i,
    {
        let key = entries[i].0.clone();
        let value = crate::error::copy_detail(&entries[i].1);
        copy.push((key, value));
        i = i + 1;
    }
    proof {
        crate::error::lemma_object_view_index(copy@);
        crate::error::lemma_object_view_index(entries@);
        assert(object_view(copy@) =~= object_view(entries@));
    }
    DetailValue::Object(copy)
}

fn execution_value(x: &ExecutionReport) -> (v: DetailValue)
    ensures
        detail_view_of(v) == execution_json(*x),
{
    let mut entries: Vec<(String, DetailValue)> = Vec::new();
    entries.push(("phase".to_owned(), phase_value(x.phase)));
    entries.push(("state".to_owned(), state_value(x.state)));
    entries.push(("completed".to_owned(), texts_list(&x.completed)));
    entries.push(("recovery".to_owned(), entries_copy(&x.recovery)));
    proof {
        crate::error::lemma_object_view_index(entries@);
        assert(object_view(entries@) =~= seq![
            ("phase"@, text_view(phase_text(x.phase))),
            ("state"@, text_view(state_text(x.state))),
            ("completed"@, DetailView::List(x.completed@.map_values(|c: String| DetailView::Text(c@)))),
            ("recovery"@, DetailView::Object(object_view(x.recovery@))),
        ]);
    }
    DetailValue::Object(entries)
}

fn failed_value(f: &AdoptFailed) -> (v: DetailValue)
    ensures
        detail_view_of(v) == failed_json(*f),
{
    let mut entries: Vec<(String, DetailValue)> = Vec::new();
    entries.push(("details".to_owned(), entries_copy(&f.details)));
    entries.push(("execution".to_owned(), execution_value(&f.execution)));
    entries.push(("branch".to_owned(), text_value(&f.branch)));
    entries.push(("fromPath".to_owned(), text_value(&f.from_path)));
    entries.push(("toPath".to_owned(), text_value(&f.to_path)));
    entries.push(("code".to_owned(), text_value(&f.code)));
    entries.push(("message".to_owned(), text_value(&f.message)));
    proof {
        crate::error::lemma_object_view_index(entries@);
        assert(object_view(entries@) =~= seq![
            ("details"@, DetailView::Object(object_view(f.details@))),
            ("execution"@, execution_json(f.execution)),
            ("branch"@, text_view(f.branch@)),
            ("fromPath"@, text_view(f.from_path@)),
            ("toPath"@, text_view(f.to_path@)),
            ("code"@, text_view(f.code@)),
            ("message"@, text_view(f.message@)),
        ]);
    }
    DetailValue::Object(entries)
}

fn candidates_list(cs: &Vec<AdoptCandidate>) -> (v: DetailValue)
    ensures
        detail_view_of(v) == DetailView::List(cs@.map_values(|c: AdoptCandidate| candidate_json(c))),
{
    let mut items: Vec<DetailValue> = Vec::new();
    let mut i: usize = 0;
    while i < cs.len()
        invariant
            i <= cs@.len(),
            list_view(items@) == cs@.take(i as int).map_values(|c: AdoptCandidate| candidate_json(c)),
        decreases cs.len() - i,
    {
        let item = candidate_value(&cs[i]);
        proof {
            crate::error::lemma_list_view_push(items@, item);
            assert(cs@.take(i + 1).map_values(|c: AdoptCandidate| candidate_json(c)) =~= cs@.take(i as int).map_values(
                |c: AdoptCandidate| candidate_json(c),
            ).push(candidate_json(cs@[i as int])));
        }
        items.push(item);
        i = i + 1;
    }
    assert(cs@.take(cs@.len() as int) =~= cs@);
    DetailValue::List(items)
}

fn skipped_list(ss: &Vec<AdoptSkipped>) -> (v: DetailValue)
    ensures
        detail_view_of(v) == DetailView::List(ss@.map_values(|s: AdoptSkipped| skipped_json(s))),
{
    let mut items: Vec<DetailValue> = Vec::new();
    let mut i: usize = 0;
    while i < ss.len()
        invariant
            i <= ss@.len(),
            list_view(items@) == ss@.take(i as int).map_values(|s: AdoptSkipped| skipped_json(s)),
        decreases ss.len() - i,
    {
        let item = skipped_value(&ss[i]);
        proof {
            crate::error::lemma_list_view_push(items@, item);
            assert(ss@.take(i + 1).map_values(|s: AdoptSkipped| skipped_json(s)) =~= ss@.take(i as int).map_values(
                |s: AdoptSkipped| skipped_json(s),
            ).push(skipped_json(ss@[i as int])));
        }
        items.push(item);
        i = i + 1;
    }
    assert(ss@.take(ss@.len() as int) =~= ss@);
    DetailValue::List(items)
}

fn failed_list(fs: &Vec<AdoptFailed>) -> (v: DetailValue)
    ensures
        detail_view_of(v) == DetailView::List(fs@.map_values(|f: AdoptFailed| failed_json(f))),
{
    let mut items: Vec<DetailValue> = Vec::new();
    let mut i: usize = 0;
    while i < fs.len()
        invariant
            i <= fs@.len(),
            list_view(items@) == fs@.take(i as int).map_values(|f: AdoptFailed| failed_json(f)),
        decreases fs.len() - i,
    {
        let item = failed_value(&fs[i]);
        proof {
            crate::error::lemma_list_view_push(items@, item);
            assert(fs@.take(i + 1).map_values(|f: AdoptFailed| failed_json(f)) =~= fs@.take(i as int).map_values(
                |f: AdoptFailed| failed_json(f),
            ).push(failed_json(fs@[i as int])));
        }
        items.push(item);
        i = i + 1;
    }
    assert(fs@.take(fs@.len() as int) =~= fs@);
    DetailValue::List(items)
}

fn append_move_lines(out: &mut String, label: &str, cs: &Vec<AdoptCandidate>)
    ensures
        final(out)@ == old(out)@ + move_lines(label@, cs@),
{
    let mut i: usize = 0;
    assert(cs@.take(0) =~= Seq::<AdoptCandidate>::empty());
    while i < cs.len()
        invariant
            i <= cs@.len(),
            out@ == old(out)@ + move_lines(label@, cs@.take(i as int)),
        decreases cs.len() - i,
    {
        let c = &cs[i];
        let ghost before = out@;
        let parts: [&str; 5] = [label, ": ", c.from_path.as_str(), " -> ", c.to_path.as_str()];
        line(out, &parts);
        proof {
            reveal_strlit(": ");
            reveal_strlit(" -> ");
            reveal_with_fuel(parts_text, 6);
            assert(cs@.take(i + 1).drop_last() =~= cs@.take(i as int));
            assert(parts_text(parts@, 5) =~= label@ + ": "@ + c.from_path@ + " -> "@ + c.to_path@);
            assert(out@ =~= old(out)@ + move_lines(label@, cs@.take(i + 1)));
        }
        i = i + 1;
    }
    assert(cs@.take(cs@.len() as int) =~= cs@);
}

fn append_failure_lines(out: &mut String, fs: &Vec<AdoptFailed>)
    ensures
        final(out)@ == old(out)@ + failure_lines(fs@),
{
    let mut i: usize = 0;
    assert(fs@.take(0) =~= Seq::<AdoptFailed>::empty());
    while i < fs.len()
        invariant
            i <= fs@.len(),
            out@ == old(out)@ + failure_lines(fs@.take(i as int)),
        decreases fs.len() - i,
    {
        let f = &fs[i];
        let parts: [&str; 8] = ["failed: ", f.from_path.as_str(), " -> ", f.to_path.as_str(), " [", f.code.as_str(), "] ", f.message.as_str()];
        line(out, &parts);
        proof {
            reveal_strlit("failed: ");
            reveal_strlit(" -> ");
            reveal_strlit(" [");
            reveal_strlit("] ");
            reveal_with_fuel(parts_text, 9);
            assert(fs@.take(i + 1).drop_last() =~= fs@.take(i as int));
            assert(parts_text(parts@, 8) =~= "failed: "@ + f.from_path@ + " -> "@ + f.to_path@ + " ["@ + f.code@ + "] "@ + f.message@);
            assert(out@ =~= old(out)@ + failure_lines(fs@.take(i + 1)));
        }
        i = i + 1;
    }
    assert(fs@.take(fs@.len() as int) =~= fs@);
}

fn adopt_output(r: AdoptResult) -> (out: CommandOutput)
    ensures
        detail_view_of(out.data) == adopt_json(r),
        out.human_stdout@ == adopt_text(r),
        out.human_stderr@.len() == 0,
        if r.failed@.len() > 0 {
            out.partial_error matches Some(e) && plain_error(e, ErrorCode::SafetyRejected, "one or more worktrees could not be adopted"@)
        } else {
            out.partial_error is None
        },
{
    let mut text = String::new();
    if r.dry_run {
        append_move_lines(&mut text, "candidate", &r.candidates);
    } else {
        append_move_lines(&mut text, "moved", &r.moved);
        append_failure_lines(&mut text, &r.failed);
    }
    proof {
        reveal_strlit("candidate");
        reveal_strlit("moved");
        assert(text@ =~= adopt_text(r));
    }
    let mut entries: Vec<(String, DetailValue)> = Vec::new();
    entries.push(("dryRun".to_owned(), DetailValue::Bool(r.dry_run)));
    entries.push(("managedWorktreeRoot".to_owned(), text_value(&r.managed_worktree_root)));
    entries.push(("candidates".to_owned(), candidates_list(&r.candidates)));
    entries.push(("moved".to_owned(), candidates_list(&r.moved)));
    entries.push(("skipped".to_owned(), skipped_list(&r.skipped)));
    entries.push(("failed".to_owned(), failed_list(&r.failed)));
    proof {
        crate::error::lemma_object_view_index(entries@);
        assert(object_view(entries@) =~= seq![
            ("dryRun"@, DetailView::Bool(r.dry_run)),
            ("managedWorktreeRoot"@, text_view(r.managed_worktree_root@)),
            ("candidates"@, DetailView::List(r.candidates@.map_values(|c: AdoptCandidate| candidate_json(c)))),
            ("moved"@, DetailView::List(r.moved@.map_values(|c: AdoptCandidate| candidate_json(c)))),
            ("skipped"@, DetailView::List(r.skipped@.map_values(|s: AdoptSkipped| skipped_json(s)))),
            ("failed"@, DetailView::List(r.failed@.map_values(|f: AdoptFailed| failed_json(f)))),
        ]);
    }
    let data = DetailValue::Object(entries);
    let mut out = if r.has_failures() {
        CommandOutput::partial(data, CliError::new(ErrorCode::SafetyRejected, "one or more worktrees could not be adopted"))
    } else {
        CommandOutput::new(data)
    };
    out.human_stdout = text;
    out
}

fn worktree_output(r: &WorktreeMutationResult) -> (out: CommandOutput)
    ensures
        detail_view_of(out.data) == worktree_json(*r),
        out.human_stdout@ == r.path@ + newline(),
        out.human_stderr@.len() == 0,
        out.partial_error is None,
{
    let mut entries: Vec<(String, DetailValue)> = Vec::new();
    entries.push(("branch".to_owned(), text_value(&r.branch)));
    entries.push(("path".to_owned(), text_value(&r.path)));
    match r.disposition {
        Some(d) => {
            let text = match d {
                WorktreeDisposition::Created => "created",
                WorktreeDisposition::Existing => "existing",
            };
            proof {
                reveal_strlit("created");
                reveal_strlit("existing");
            }
            entries.push(("disposition".to_owned(), DetailValue::Text(text.to_owned())));
        },
        None => {},
    }
    proof {
        crate::error::lemma_object_view_index(entries@);
        assert(object_view(entries@) =~= seq![("branch"@, text_view(r.branch@)), ("path"@, text_view(r.path@))] + match r.disposition {
            Some(d) => seq![("disposition"@, text_view(disposition_text(d)))],
            None => Seq::empty(),
        });
    }
    let mut out = CommandOutput::new(DetailValue::Object(entries));
    out.human_stdout = text_line(r.path.as_str());
    out
}

/// Renders the result of a mutation command: its stable JSON data, its human text and, for
/// an `adopt` in which some worktrees failed, the partial error.
pub fn mutation_command_output(result: MutationResult) -> (out: Result<CommandOutput, CliError>)
    ensures
        mutation_output_ok(result, out),
{
    let ghost original = result;
    match result {
        MutationResult::Init(r) => {
            let mut entries: Vec<(String, DetailValue)> = Vec::new();
            entries.push(("alreadyInitialized".to_owned(), DetailValue::Bool(r.already_initialized)));
            proof {
                crate::error::lemma_object_view_index(entries@);
                assert(object_view(entries@) =~= seq![("alreadyInitialized"@, DetailView::Bool(r.already_initialized))]);
            }
            Ok(CommandOutput::new(DetailValue::Object(entries)))
        },
        MutationResult::WorktreeGitApplied(_) | MutationResult::MvGitApplied(_) | MutationResult::ExtractGitApplied(_) => Err(
            CliError::new(ErrorCode::InternalError, "mutation metadata finalization was skipped"),
        ),
        MutationResult::Worktree(r) => Ok(worktree_output(&r)),
        MutationResult::Adopt(r) => Ok(adopt_output(r)),
        MutationResult::Mv(r) => Ok(path_output(&r.branch, &r.path)),
        MutationResult::Extract(r) => Ok(path_output(&r.branch, &r.path)),
        MutationResult::Use(r) => Ok(path_output(&r.branch, &r.path)),
        MutationResult::Lock(r) => {
            let mut entries: Vec<(String, DetailValue)> = Vec::new();
            entries.push(("branch".to_owned(), text_value(&r.branch)));
            entries.push(("reason".to_owned(), text_value(&r.reason)));
            entries.push(("owner".to_owned(), text_value(&r.owner)));
            proof {
                crate::error::lemma_object_view_index(entries@);
                assert(object_view(entries@) =~= seq![
                    ("branch"@, text_view(r.branch@)),
                    ("reason"@, text_view(r.reason@)),
                    ("owner"@, text_view(r.owner@)),
                ]);
            }
            Ok(CommandOutput::new(DetailValue::Object(entries)))
        },
        MutationResult::Unlock { branch } => {
            let mut entries: Vec<(String, DetailValue)> = Vec::new();
            entries.push(("branch".to_owned(), text_value(&branch)));
            proof {
                crate::error::lemma_object_view_index(entries@);
                assert(object_view(entries@) =~= seq![("branch"@, text_view(branch@))]);
            }
            Ok(CommandOutput::new(DetailValue::Object(entries)))
        },
    }
}

} // verus!
