//! Completion candidates: one tab-separated row per worktree, branch or hook, each value
//! sanitized so that it stays in its field and its row.

use vstd::prelude::*;

use crate::adopt::{lemma_text_less_irreflexive, lemma_text_less_transitive, text_less, text_less_exec};
use crate::completion::{lines_spec, text_lines};
use crate::error::{detail_view, list_view, object_view, DetailValue, DetailView};
use crate::git::{args_view, GitCli};
use crate::mapping::MapToCliError;
use crate::misc::{sanitize, sanitize_spec};
use crate::paths::{components, is_proper_prefix, path_components};
use crate::pipeline::CommandOutput;
use crate::process::{ProcessOutput, ProcessRunner};
use crate::text::{join_spec, join_strings, starts_with_str, utf8_lossy, utf8_lossy_string};
use crate::error::CliError;

verus! {

/// What completion asks candidates for.
#[derive(Clone, Copy, Debug, PartialEq, Eq, Structural)]
pub enum CompletionCandidateKind {
    Worktrees,
    UseBranches,
    RemoteBranches,
    Hooks,
    ManagedWorktrees,
}

/// A worktree as `git worktree list` reports it.
#[derive(Clone, Debug, PartialEq, Eq)]
pub struct GitWorktree {
    pub path: String,
    pub branch: Option<String>,
}

// ----- rows -----

/// `<branch>\tpath=<path>` for each worktree on a branch.
pub open spec fn worktree_rows(ws: Seq<GitWorktree>) -> Seq<Seq<char>>
    decreases ws.len(),
{
    if ws.len() == 0 {
        Seq::empty()
    } else {
        let earlier = worktree_rows(ws.drop_last());
        match ws.last().branch {
            Some(b) => earlier.push(sanitize_spec(b@) + "\tpath="@ + sanitize_spec(ws.last().path@)),
            None => earlier,
        }
    }
}

pub fn worktree_rows_of(ws: &[GitWorktree]) -> (rows: Vec<String>)
    ensures
        rows@.map_values(|r: String| r@) == worktree_rows(ws@),
{
    let mut rows: Vec<String> = Vec::new();
    let mut i: usize = 0;
    while i < ws.len()
        invariant
            i <= ws@.len(),
            rows@.map_values(|r: String| r@) == worktree_rows(ws@.take(i as int)),
        decreases ws.len() - i,
    {
        assert(ws@.take(i + 1).drop_last() =~= ws@.take(i as int));
        assert(ws@.take(i + 1).last() == ws@[i as int]);
        match &ws[i].branch {
            Some(branch) => {
                let mut row = sanitize(branch.as_str());
                row.append("\tpath=");
                row.append(sanitize(ws[i].path.as_str()).as_str());
                let ghost before = rows@;
                rows.push(row);
                assert(rows@.map_values(|r: String| r@) =~= before.map_values(|r: String| r@).push(row@));
            },
            None => {},
        }
        i = i + 1;
    }
    assert(ws@.take(ws@.len() as int) =~= ws@);
    rows
}

/// A remote's `HEAD` pointer, which is no branch to complete.
pub open spec fn names_remote_head(line: Seq<char>) -> bool {
    line.len() >= 5 && line.skip(line.len() - 5) == "/HEAD"@
}

/// One row per listed branch, remote `HEAD` pointers left out when asked.
pub open spec fn branch_rows(lines: Seq<Seq<char>>, skip_heads: bool) -> Seq<Seq<char>>
    decreases lines.len(),
{
    if lines.len() == 0 {
        Seq::empty()
    } else {
        let earlier = branch_rows(lines.drop_last(), skip_heads);
        if skip_heads && names_remote_head(lines.last()) {
            earlier
        } else {
            earlier.push(sanitize_spec(lines.last()))
        }
    }
}

fn ends_with_head(line: &str) -> (found: bool)
    ensures
        found == names_remote_head(line@),
{
    let chars = crate::text::chars_of(line);
    let n = chars.len();
    if n < 5 {
        return false;
    }
    let found = chars[n - 5] == '/' && chars[n - 4] == 'H' && chars[n - 3] == 'E' && chars[n - 2] == 'A' && chars[n - 1] == 'D';
    proof {
        reveal_strlit("/HEAD");
        if found {
            assert(line@.skip(n - 5) =~= "/HEAD"@);
        } else {
            assert(line@.skip(n - 5) != "/HEAD"@) by {
                if line@.skip(n - 5) == "/HEAD"@ {
                    assert(line@.skip(n - 5)[0] == line@[n - 5]);
                    assert(line@.skip(n - 5)[1] == line@[n - 4]);
                    assert(line@.skip(n - 5)[2] == line@[n - 3]);
                    assert(line@.skip(n - 5)[3] == line@[n - 2]);
                    assert(line@.skip(n - 5)[4] == line@[n - 1]);
                }
            }
        }
    }
    found
}

/// The branch rows of `git for-each-ref --format=%(refname:short)` output.
pub fn branch_rows_of(stdout: &[u8], skip_heads: bool) -> (rows: Vec<String>)
    ensures
        rows@.map_values(|r: String| r@) == branch_rows(lines_spec(utf8_lossy(stdout@)), skip_heads),
{
    let text = utf8_lossy_string(stdout);
    let lines = text_lines(text.as_str());
    let ghost all = lines_spec(utf8_lossy(stdout@));
    let mut rows: Vec<String> = Vec::new();
    let mut i: usize = 0;
    while i < lines.len()
        invariant
            i <= lines@.len(),
            lines@.map_values(|l: String| l@) == all,
            rows@.map_values(|r: String| r@) == branch_rows(all.take(i as int), skip_heads),
        decreases lines.len() - i,
    {
        assert(all.take(i + 1).drop_last() =~= all.take(i as int));
        assert(all.take(i + 1).last() == lines@[i as int]@);
        if !(skip_heads && ends_with_head(lines[i].as_str())) {
            let row = sanitize(lines[i].as_str());
            let ghost before = rows@;
            rows.push(row);
            assert(rows@.map_values(|r: String| r@) =~= before.map_values(|r: String| r@).push(row@));
        }
        i = i + 1;
    }
    assert(all.take(lines@.len() as int) =~= all);
    rows
}

/// A hook file is named `pre-…` or `post-…`.
pub open spec fn is_hook_name(name: Seq<char>) -> bool {
    (name.len() >= 4 && name.take(4) == "pre-"@) || (name.len() >= 5 && name.take(5) == "post-"@)
}

/// The sanitized hook names, in listing order.
pub open spec fn hook_rows(names: Seq<Seq<char>>) -> Seq<Seq<char>>
    decreases names.len(),
{
    if names.len() == 0 {
        Seq::empty()
    } else {
        let earlier = hook_rows(names.drop_last());
        if is_hook_name(names.last()) {
            earlier.push(sanitize_spec(names.last()))
        } else {
            earlier
        }
    }
}

/// No row sorts before an earlier one.
pub open spec fn sorted_texts(rows: Seq<Seq<char>>) -> bool {
    forall|k: int, l: int| 0 <= k < l < rows.len() ==> !text_less(#[trigger] rows[l], #[trigger] rows[k])
}

/// The hook rows sorted: the same rows, in code-point order.
pub fn hook_rows_of(names: &[String]) -> (rows: Vec<String>)
    ensures
        sorted_texts(rows@.map_values(|r: String| r@)),
        rows@.map_values(|r: String| r@).to_multiset() == hook_rows(names@.map_values(|n: String| n@)).to_multiset(),
{
    let ghost nv = names@.map_values(|n: String| n@);
    let mut rows: Vec<String> = Vec::new();
    let mut i: usize = 0;
    assert(rows@.map_values(|r: String| r@) =~= Seq::<Seq<char>>::empty());
    assert(hook_rows(nv.take(0)) =~= Seq::<Seq<char>>::empty());
    while i < names.len()
        invariant
            i <= names@.len(),
            nv == names@.map_values(|n: String| n@),
            sorted_texts(rows@.map_values(|r: String| r@)),
            rows@.map_values(|r: String| r@).to_multiset() == hook_rows(nv.take(i as int)).to_multiset(),
        decreases names.len() - i,
    {
        assert(nv.take(i + 1).drop_last() =~= nv.take(i as int));
        assert(nv.take(i + 1).last() == names@[i as int]@);
        let name = names[i].as_str();
        proof {
            reveal_strlit("pre-");
            reveal_strlit("post-");
        }
        if starts_with_str(name, "pre-") || starts_with_str(name, "post-") {
            let row = sanitize(name);
            let ghost rv = rows@.map_values(|r: String| r@);
            let mut p: usize = 0;
            while p < rows.len() && !text_less_exec(row.as_str(), rows[p].as_str())
                invariant
                    p <= rows@.len(),
                    rv == rows@.map_values(|r: String| r@),
                    forall|k: int| 0 <= k < p ==> !text_less(row@, #[trigger] rv[k]),
                decreases rows.len() - p,
            {
                p = p + 1;
            }
            let ghost before = rows@;
            rows.insert(p, row);
            proof {
                let after = rows@.map_values(|r: String| r@);
                assert(after =~= rv.insert(p as int, row@));
                assert forall|k: int, l: int| 0 <= k < l < after.len() implies !text_less(#[trigger] after[l], #[trigger] after[k]) by {
                    if l < p {
                        assert(after[l] == rv[l] && after[k] == rv[k]);
                    } else if l == p {
                        assert(after[k] == rv[k]);
                    } else if k < p {
                        assert(after[l] == rv[l - 1] && after[k] == rv[k]);
                    } else if k == p {
                        assert(after[l] == rv[l - 1]);
                        assert(text_less(row@, rv[p as int]));
                        if text_less(rv[l - 1], row@) {
                            lemma_text_less_transitive(rv[l - 1], row@, rv[p as int]);
                            if l - 1 == p {
                                lemma_text_less_irreflexive(rv[p as int]);
                            }
                        }
                    } else {
                        assert(after[l] == rv[l - 1] && after[k] == rv[k - 1]);
                    }
                }
                vstd::seq_lib::to_multiset_insert(rv, p as int, row@);
                assert(hook_rows(nv.take(i + 1)) == hook_rows(nv.take(i as int)).push(row@));
                vstd::seq_lib::to_multiset_build(hook_rows(nv.take(i as int)), row@);
            }
        } else {
            assert(hook_rows(nv.take(i + 1)) == hook_rows(nv.take(i as int)));
        }
        i = i + 1;
    }
    assert(nv.take(names@.len() as int) =~= nv);
    rows
}

/// A worktree strictly inside the managed root gives `<relative path>\tbranch=<branch>`,
/// `(detached)` standing for a missing branch; the relative path is its components below
/// the root joined with `/`.
pub open spec fn managed_row(w: GitWorktree, root: Seq<char>) -> Option<Seq<char>> {
    if is_proper_prefix(components(root), components(w.path@)) {
        let relative = join_spec(components(w.path@).skip(components(root).len() as int), "/"@);
        let branch = match w.branch {
            Some(b) => b@,
            None => "(detached)"@,
        };
        Some(sanitize_spec(relative) + "\tbranch="@ + sanitize_spec(branch))
    } else {
        None
    }
}

pub open spec fn managed_rows(ws: Seq<GitWorktree>, root: Seq<char>) -> Seq<Seq<char>>
    decreases ws.len(),
{
    if ws.len() == 0 {
        Seq::empty()
    } else {
        let earlier = managed_rows(ws.drop_last(), root);
        match managed_row(ws.last(), root) {
            Some(row) => earlier.push(row),
            None => earlier,
        }
    }
}

pub fn managed_rows_of(ws: &[GitWorktree], managed_root: &str) -> (rows: Vec<String>)
    ensures
        rows@.map_values(|r: String| r@) == managed_rows(ws@, managed_root@),
{
    let root = path_components(managed_root);
    let ghost rv = root@.map_values(|c: String| c@);
    let mut rows: Vec<String> = Vec::new();
    let mut i: usize = 0;
    while i < ws.len()
        invariant
            i <= ws@.len(),
            rv == root@.map_values(|c: String| c@),
            rv == components(managed_root@),
            rows@.map_values(|r: String| r@) == managed_rows(ws@.take(i as int), managed_root@),
        decreases ws.len() - i,
    {
        assert(ws@.take(i + 1).drop_last() =~= ws@.take(i as int));
        assert(ws@.take(i + 1).last() == ws@[i as int]);
        let parts = path_components(ws[i].path.as_str());
        let ghost pv = parts@.map_values(|c: String| c@);
        if root.len() < parts.len() && crate::paths::components_prefix(&root, &parts) {
            let mut rest: Vec<String> = Vec::new();
            let mut k: usize = root.len();
            while k < parts.len()
                invariant
                    root@.len() <= k <= parts@.len(),
                    pv == parts@.map_values(|c: String| c@),
                    rest@.map_values(|c: String| c@) == pv.subrange(root@.len() as int, k as int),
                decreases parts.len() - k,
            {
                let part = parts[k].as_str().to_owned();
                assert(part@ == pv[k as int]);
                let ghost before = rest@;
                rest.push(part);
                assert(rest@ == before.push(part));
                assert(rest@.map_values(|c: String| c@) =~= before.map_values(|c: String| c@).push(part@));
                assert(pv.subrange(root@.len() as int, k + 1) =~= pv.subrange(root@.len() as int, k as int).push(pv[k as int]));
                k = k + 1;
            }
            assert(pv.subrange(root@.len() as int, pv.len() as int) =~= pv.skip(rv.len() as int));
            let relative = join_strings(&rest, "/");
            let mut row = sanitize(relative.as_str());
            row.append("\tbranch=");
            proof {
                reveal_strlit("(detached)");
            }
            let branch = match &ws[i].branch {
                Some(b) => sanitize(b.as_str()),
                None => sanitize("(detached)"),
            };
            row.append(branch.as_str());
            let ghost before = rows@;
            rows.push(row);
            assert(rows@.map_values(|r: String| r@) =~= before.map_values(|r: String| r@).push(row@));
        }
        i = i + 1;
    }
    assert(ws@.take(ws@.len() as int) =~= ws@);
    rows
}

// ----- output -----

pub open spec fn texts_view(rows: Seq<Seq<char>>) -> Seq<DetailView> {
    rows.map_values(|r: Seq<char>| DetailView::Text(r))
}

/// The candidates as data, and one row per line for people.
pub open spec fn candidates_ok(rows: Seq<Seq<char>>, output: CommandOutput) -> bool {
    &&& detail_view(output.data) == DetailView::Object(seq![("candidates"@, DetailView::List(texts_view(rows)))])
    &&& output.human_stdout@ == (if rows.len() == 0 {
        Seq::empty()
    } else {
        join_spec(rows, "\n"@) + "\n"@
    })
    &&& output.human_stderr@.len() == 0
    &&& output.partial_error is None
}

pub fn candidates_output(rows: Vec<String>) -> (output: CommandOutput)
    ensures
        candidates_ok(rows@.map_values(|r: String| r@), output),
{
    let ghost rv = rows@.map_values(|r: String| r@);
    let stdout = if rows.len() == 0 {
        String::new()
    } else {
        let mut text = join_strings(&rows, "\n");
        text.append("\n");
        text
    };
    let mut items: Vec<DetailValue> = Vec::new();
    let mut i: usize = 0;
    while i < rows.len()
        invariant
            i <= rows@.len(),
            rv == rows@.map_values(|r: String| r@),
            list_view(items@) == texts_view(rv.take(i as int)),
        decreases rows.len() - i,
    {
        let item = DetailValue::Text(rows[i].clone());
        proof {
            crate::error::lemma_list_view_push(items@, item);
        }
        items.push(item);
        assert(texts_view(rv.take(i + 1)) =~= texts_view(rv.take(i as int)).push(DetailView::Text(rv[i as int])));
        i = i + 1;
    }
    assert(rv.take(rows@.len() as int) =~= rv);
    let mut entries: Vec<(String, DetailValue)> = Vec::new();
    entries.push(("candidates".to_owned(), DetailValue::List(items)));
    proof {
        crate::error::lemma_object_view_index(entries@);
        assert(object_view(entries@) =~= seq![("candidates"@, DetailView::List(texts_view(rv)))]);
    }
    let mut output = CommandOutput::new(DetailValue::Object(entries));
    output.human_stdout = stdout;
    output
}

pub open spec fn for_each_ref_args(refs: Seq<char>) -> Seq<Seq<char>> {
    seq!["for-each-ref"@, "--format=%(refname:short)"@, refs]
}

/// The branch listing behind the branch candidates of `kind`.
pub open spec fn branch_listing_args(kind: CompletionCandidateKind) -> Seq<Seq<char>> {
    for_each_ref_args(branch_refs(kind == CompletionCandidateKind::RemoteBranches))
}

/// The refs `for-each-ref` lists: the remote or the local branches.
pub open spec fn branch_refs(remote: bool) -> Seq<char> {
    if remote {
        "refs/remotes"@
    } else {
        "refs/heads"@
    }
}

/// Candidates of the given kind. Worktree rows come from the listed worktrees, hook rows
/// from the names in the hooks directory, branch rows from `git for-each-ref` over local or
/// remote branches.
pub fn completion_candidates<R: ProcessRunner>(
    git: &GitCli<R>,
    repo_root: &str,
    managed_root: &str,
    kind: CompletionCandidateKind,
    worktrees: &[GitWorktree],
    hook_names: &[String],
) -> (result: Result<CommandOutput, CliError>)
    ensures
        match kind {
            CompletionCandidateKind::Worktrees => result matches Ok(out) && candidates_ok(worktree_rows(worktrees@), out),
            CompletionCandidateKind::ManagedWorktrees => result matches Ok(out) && candidates_ok(
                managed_rows(worktrees@, managed_root@),
                out,
            ),
            CompletionCandidateKind::Hooks => result matches Ok(out) && exists|rows: Seq<Seq<char>>|
                #[trigger] sorted_texts(rows) && rows.to_multiset() == hook_rows(hook_names@.map_values(|n: String| n@)).to_multiset()
                    && candidates_ok(rows, out),
            CompletionCandidateKind::UseBranches => result matches Ok(out) ==> exists|o: ProcessOutput|
                o.exit_code == Some(0i32) && #[trigger] candidates_ok(branch_rows(lines_spec(utf8_lossy(o.stdout@)), false), out),
            CompletionCandidateKind::RemoteBranches => result matches Ok(out) ==> exists|o: ProcessOutput|
                o.exit_code == Some(0i32) && #[trigger] candidates_ok(branch_rows(lines_spec(utf8_lossy(o.stdout@)), true), out),
        },
        kind == CompletionCandidateKind::UseBranches || kind == CompletionCandidateKind::RemoteBranches ==> exists|
            raw: Result<ProcessOutput, crate::git::GitCliError>,
        |
            #[trigger] crate::git::git_checked_reported(
                git.spec_runner(),
                repo_root@,
                branch_listing_args(kind),
                git.spec_timeout_ms(),
                raw,
            ) && match raw {
                Ok(o) => result matches Ok(out) && candidates_ok(
                    branch_rows(lines_spec(utf8_lossy(o.stdout@)), kind == CompletionCandidateKind::RemoteBranches),
                    out,
                ),
                Err(g) => result matches Err(e) && crate::probes::is_mapped_git_error(e, g),
            },
{
    let rows = match kind {
        CompletionCandidateKind::Worktrees => worktree_rows_of(worktrees),
        CompletionCandidateKind::ManagedWorktrees => managed_rows_of(worktrees, managed_root),
        CompletionCandidateKind::Hooks => hook_rows_of(hook_names),
        CompletionCandidateKind::UseBranches | CompletionCandidateKind::RemoteBranches => {
            let remote = kind == CompletionCandidateKind::RemoteBranches;
            let mut args: Vec<String> = Vec::new();
            assert(crate::git::args_view(args@) =~= Seq::<Seq<char>>::empty());
            crate::probes::push_arg(&mut args, "for-each-ref");
            crate::probes::push_arg(&mut args, "--format=%(refname:short)");
            crate::probes::push_arg(&mut args, if remote {
                "refs/remotes"
            } else {
                "refs/heads"
            });
            assert(crate::git::args_view(args@) =~= for_each_ref_args(branch_refs(remote)));
            let listed = git.execute_checked(repo_root, &args);
            let ghost raw = listed;
            assert(branch_listing_args(kind) == for_each_ref_args(branch_refs(remote)));
            assert(crate::git::git_checked_reported(git.spec_runner(), repo_root@, branch_listing_args(kind), git.spec_timeout_ms(), raw));
            match listed {
                Ok(output) => {
                    let rows = branch_rows_of(output.stdout.as_slice(), remote);
                    let result = Ok(candidates_output(rows));
                    assert(result matches Ok(out) && candidates_ok(
                        branch_rows(lines_spec(utf8_lossy(output.stdout@)), kind == CompletionCandidateKind::RemoteBranches),
                        out,
                    ));
                    return result;
                },
                Err(error) => {
                    let ghost g = error;
                    let mapped = error.map_to_cli_error();
                    assert(crate::probes::is_mapped_git_error(mapped, g));
                    return Err(mapped);
                },
            }
        },
    };
    Ok(candidates_output(rows))
}

} // verus!
