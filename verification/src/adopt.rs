//! `adopt`: which existing worktrees outside the managed root are moved into it, in path
//! order, and which are skipped and why.

use vstd::prelude::*;

use crate::create::{target_reported, TargetFilesystem};
use crate::error::CliError;
use crate::paths::{join_path_spec, components, path_components, path_is_managed, path_is_managed_spec};
use crate::plans::{opt_text, AdoptCandidate, AdoptPlan, AdoptSkipped, AdoptSkippedReason};
use crate::text::{chars_of, str_eq};

verus! {

/// One worktree as `adopt` sees it.
#[derive(Clone, Debug, PartialEq, Eq)]
pub struct AdoptWorktree {
    pub path: String,
    pub branch: Option<String>,
    pub locked: bool,
}

/// Code-point order on texts.
pub open spec fn text_less(a: Seq<char>, b: Seq<char>) -> bool
    decreases a.len(),
{
    if a.len() == 0 {
        b.len() > 0
    } else if b.len() == 0 {
        false
    } else if a[0] != b[0] {
        (a[0] as u32) < (b[0] as u32)
    } else {
        text_less(a.drop_first(), b.drop_first())
    }
}

/// The root sorts first, then `.`, then `..`, then names in code-point order.
pub open spec fn component_rank(c: Seq<char>) -> int {
    if c == "/"@ {
        0
    } else if c == "."@ {
        1
    } else if c == ".."@ {
        2
    } else {
        3
    }
}

pub open spec fn component_less(a: Seq<char>, b: Seq<char>) -> bool {
    component_rank(a) < component_rank(b) || (component_rank(a) == 3 && component_rank(b) == 3 && text_less(a, b))
}

/// Lexicographic order on component sequences, as `Path`'s ordering.
pub open spec fn components_less(a: Seq<Seq<char>>, b: Seq<Seq<char>>) -> bool
    decreases a.len(),
{
    if a.len() == 0 {
        b.len() > 0
    } else if b.len() == 0 {
        false
    } else if a[0] == b[0] {
        components_less(a.drop_first(), b.drop_first())
    } else {
        component_less(a[0], b[0])
    }
}

pub open spec fn path_less(a: Seq<char>, b: Seq<char>) -> bool {
    components_less(components(a), components(b))
}

pub(crate) fn text_less_exec(a: &str, b: &str) -> (less: bool)
    ensures
        less == text_less(a@, b@),
{
    let x = chars_of(a);
    let y = chars_of(b);
    let mut i: usize = 0;
    assert(a@.skip(0) =~= a@);
    assert(b@.skip(0) =~= b@);
    while i < x.len() && i < y.len() && x[i] == y[i]
        invariant
            i <= x@.len(),
            i <= y@.len(),
            x@ == a@,
            y@ == b@,
            text_less(a@, b@) == text_less(a@.skip(i as int), b@.skip(i as int)),
        decreases x.len() - i,
    {
        assert(a@.skip(i as int).drop_first() =~= a@.skip(i + 1));
        assert(b@.skip(i as int).drop_first() =~= b@.skip(i + 1));
        i = i + 1;
    }
    if i == x.len() {
        assert(a@.skip(i as int).len() == 0);
        i < y.len()
    } else if i == y.len() {
        assert(b@.skip(i as int).len() == 0);
        false
    } else {
        assert(a@.skip(i as int)[0] == x@[i as int]);
        assert(b@.skip(i as int)[0] == y@[i as int]);
        (x[i] as u32) < (y[i] as u32)
    }
}

fn component_rank_exec(c: &str) -> (rank: u8)
    ensures
        rank == component_rank(c@),
{
    if str_eq(c, "/") {
        0
    } else if str_eq(c, ".") {
        1
    } else if str_eq(c, "..") {
        2
    } else {
        3
    }
}

pub open spec fn comp_view(v: Vec<String>) -> Seq<Seq<char>> {
    v@.map_values(|c: String| c@)
}

fn components_less_exec(a: &Vec<String>, b: &Vec<String>) -> (less: bool)
    ensures
        less == components_less(comp_view(*a), comp_view(*b)),
{
    let ghost av = a@.map_values(|c: String| c@);
    let ghost bv = b@.map_values(|c: String| c@);
    let mut i: usize = 0;
    assert(av.skip(0) =~= av);
    assert(bv.skip(0) =~= bv);
    while i < a.len() && i < b.len() && str_eq(a[i].as_str(), b[i].as_str())
        invariant
            i <= a@.len(),
            i <= b@.len(),
            av == a@.map_values(|c: String| c@),
            bv == b@.map_values(|c: String| c@),
            components_less(av, bv) == components_less(av.skip(i as int), bv.skip(i as int)),
        decreases a.len() - i,
    {
        assert(av.skip(i as int)[0] == av[i as int]);
        assert(bv.skip(i as int)[0] == bv[i as int]);
        assert(av.skip(i as int).drop_first() =~= av.skip(i + 1));
        assert(bv.skip(i as int).drop_first() =~= bv.skip(i + 1));
        i = i + 1;
    }
    if i == a.len() {
        assert(av.skip(i as int).len() == 0);
        i < b.len()
    } else if i == b.len() {
        assert(bv.skip(i as int).len() == 0);
        false
    } else {
        assert(av.skip(i as int)[0] == av[i as int]);
        assert(bv.skip(i as int)[0] == bv[i as int]);
        let ra = component_rank_exec(a[i].as_str());
        let rb = component_rank_exec(b[i].as_str());
        ra < rb || (ra == 3 && rb == 3 && text_less_exec(a[i].as_str(), b[i].as_str()))
    }
}

pub(crate) proof fn lemma_text_less_irreflexive(a: Seq<char>)
    ensures
        !text_less(a, a),
    decreases a.len(),
{
    if a.len() > 0 {
        lemma_text_less_irreflexive(a.drop_first());
    }
}

pub(crate) proof fn lemma_text_less_transitive(a: Seq<char>, b: Seq<char>, c: Seq<char>)
    requires
        text_less(a, b),
        text_less(b, c),
    ensures
        text_less(a, c),
    decreases a.len(),
{
    if a.len() > 0 && b.len() > 0 && c.len() > 0 && a[0] == b[0] && b[0] == c[0] {
        lemma_text_less_transitive(a.drop_first(), b.drop_first(), c.drop_first());
    }
}

proof fn lemma_components_less_irreflexive(a: Seq<Seq<char>>)
    ensures
        !components_less(a, a),
    decreases a.len(),
{
    if a.len() > 0 {
        lemma_components_less_irreflexive(a.drop_first());
    }
}

proof fn lemma_component_less_transitive(a: Seq<char>, b: Seq<char>, c: Seq<char>)
    requires
        component_less(a, b),
        component_less(b, c),
    ensures
        component_less(a, c),
{
    if component_rank(a) == 3 && component_rank(b) == 3 && component_rank(c) == 3 && text_less(a, b)
        && text_less(b, c) {
        lemma_text_less_transitive(a, b, c);
    }
}

proof fn lemma_component_less_irreflexive(a: Seq<char>)
    ensures
        !component_less(a, a),
{
    lemma_text_less_irreflexive(a);
}

proof fn lemma_components_less_transitive(a: Seq<Seq<char>>, b: Seq<Seq<char>>, c: Seq<Seq<char>>)
    requires
        components_less(a, b),
        components_less(b, c),
    ensures
        components_less(a, c),
    decreases a.len(),
{
    if a.len() > 0 && b.len() > 0 && c.len() > 0 {
        if a[0] == b[0] && b[0] == c[0] {
            lemma_components_less_transitive(a.drop_first(), b.drop_first(), c.drop_first());
        } else if a[0] == b[0] {
            assert(component_less(b[0], c[0]));
        } else if b[0] == c[0] {
            assert(component_less(a[0], b[0]));
        } else {
            lemma_component_less_transitive(a[0], b[0], c[0]);
            if a[0] == c[0] {
                lemma_component_less_irreflexive(a[0]);
            }
        }
    }
}

/// Law: path order is a strict order.
pub proof fn law_path_order_is_strict(a: Seq<char>, b: Seq<char>, c: Seq<char>)
    ensures
        !path_less(a, a),
        path_less(a, b) && path_less(b, c) ==> path_less(a, c),
        path_less(a, b) ==> !path_less(b, a),
{
    lemma_components_less_irreflexive(components(a));
    if path_less(a, b) && path_less(b, c) {
        lemma_components_less_transitive(components(a), components(b), components(c));
    }
    if path_less(a, b) && path_less(b, a) {
        lemma_components_less_transitive(components(a), components(b), components(a));
    }
}

/// `order` lists every index of `paths` once, and no later path sorts before an earlier one.
pub open spec fn sorted_order(paths: Seq<Seq<char>>, order: Seq<int>) -> bool {
    &&& order.len() == paths.len()
    &&& forall|k: int| 0 <= k < order.len() ==> 0 <= #[trigger] order[k] < paths.len()
    &&& forall|k: int, l: int| 0 <= k < l < order.len() ==> #[trigger] order[k] != #[trigger] order[l]
    &&& forall|k: int, l: int|
        0 <= k < l < order.len() ==> !path_less(#[trigger] paths[order[l]], #[trigger] paths[order[k]])
    &&& forall|j: int| 0 <= j < paths.len() ==> #[trigger] listed(order, j)
}

/// `j` occurs in `order`.
pub open spec fn listed(order: Seq<int>, j: int) -> bool {
    exists|k: int| 0 <= k < order.len() && order[k] == j
}

pub open spec fn order_view(order: Seq<usize>) -> Seq<int> {
    order.map_values(|i: usize| i as int)
}

/// The worktrees' indices in path order; equal paths keep their original order.
pub fn path_order(worktrees: &[AdoptWorktree]) -> (order: Vec<usize>)
    ensures
        sorted_order(worktrees@.map_values(|w: AdoptWorktree| w.path@), order_view(order@)),
{
    let n = worktrees.len();
    let ghost paths = worktrees@.map_values(|w: AdoptWorktree| w.path@);
    let mut comps: Vec<Vec<String>> = Vec::new();
    let mut i: usize = 0;
    while i < n
        invariant
            i <= n == worktrees@.len(),
            comps@.len() == i,
            forall|j: int| 0 <= j < i ==> #[trigger] comp_view(comps@[j]) == components(worktrees@[j].path@),
        decreases n - i,
    {
        comps.push(path_components(worktrees[i].path.as_str()));
        i = i + 1;
    }
    let mut order: Vec<usize> = Vec::new();
    let mut i: usize = 0;
    while i < n
        invariant
            i <= n == worktrees@.len(),
            paths == worktrees@.map_values(|w: AdoptWorktree| w.path@),
            comps@.len() == n,
            forall|j: int| 0 <= j < n ==> #[trigger] comp_view(comps@[j]) == components(worktrees@[j].path@),
            order@.len() == i,
            forall|k: int| 0 <= k < i ==> (#[trigger] order@[k] as int) < i,
            forall|k: int, l: int| 0 <= k < l < i ==> #[trigger] order@[k] != #[trigger] order@[l],
            forall|k: int, l: int|
                0 <= k < l < i ==> !path_less(#[trigger] paths[order@[l] as int], #[trigger] paths[order@[k] as int]),
            forall|j: int| 0 <= j < i ==> #[trigger] listed(order_view(order@), j),
        decreases n - i,
    {
        let mut p: usize = 0;
        while p < order.len() && !components_less_exec(&comps[i], &comps[order[p]])
            invariant
                i < n == worktrees@.len(),
                paths == worktrees@.map_values(|w: AdoptWorktree| w.path@),
                comps@.len() == n,
                forall|j: int| 0 <= j < n ==> #[trigger] comp_view(comps@[j]) == components(worktrees@[j].path@),
                order@.len() == i,
                forall|k: int| 0 <= k < i ==> (#[trigger] order@[k] as int) < i,
                p <= i,
                forall|k: int| 0 <= k < p ==> !path_less(paths[i as int], #[trigger] paths[order@[k] as int]),
            decreases i - p,
        {
            assert(paths[i as int] == worktrees@[i as int].path@);
            assert(paths[order@[p as int] as int] == worktrees@[order@[p as int] as int].path@);
            p = p + 1;
        }
        proof {
            if p < i {
                assert(paths[i as int] == worktrees@[i as int].path@);
                assert(paths[order@[p as int] as int] == worktrees@[order@[p as int] as int].path@);
                assert(path_less(paths[i as int], paths[order@[p as int] as int]));
            }
        }
        let ghost before = order@;
        order.insert(p, i);
        proof {
            assert(order@ =~= before.take(p as int).push(i).add(before.skip(p as int)));
            assert forall|k: int, l: int| 0 <= k < l < i + 1 implies !path_less(
                #[trigger] paths[order@[l] as int],
                #[trigger] paths[order@[k] as int],
            ) by {
                if l < p {
                } else if l == p {
                    assert(order@[l] == i);
                    assert(order@[k] == before[k]);
                } else if k < p {
                    assert(order@[l] == before[l - 1]);
                    assert(order@[k] == before[k]);
                } else if k == p {
                    assert(order@[k] == i);
                    assert(order@[l] == before[l - 1]);
                    let x = paths[before[l - 1] as int];
                    let y = paths[before[p as int] as int];
                    let z = paths[i as int];
                    law_path_order_is_strict(x, z, y);
                    if l - 1 > p {
                        assert(!path_less(x, y));
                    }
                } else {
                    assert(order@[l] == before[l - 1]);
                    assert(order@[k] == before[k - 1]);
                }
            }
            assert forall|k: int, l: int| 0 <= k < l < i + 1 implies #[trigger] order@[k] != #[trigger] order@[l] by {
                if l < p {
                } else if l == p {
                    assert(order@[k] == before[k]);
                } else if k < p {
                    assert(order@[l] == before[l - 1]);
                } else if k == p {
                    assert(order@[l] == before[l - 1]);
                } else {
                    assert(order@[l] == before[l - 1]);
                    assert(order@[k] == before[k - 1]);
                }
            }
            assert forall|j: int| 0 <= j < i + 1 implies #[trigger] listed(order_view(order@), j) by {
                if j == i {
                    assert(order_view(order@)[p as int] == j);
                } else {
                    assert(listed(order_view(before), j));
                    let k = choose|k: int| 0 <= k < before.len() && order_view(before)[k] == j;
                    if k < p {
                        assert(order@[k] == before[k]);
                        assert(order_view(order@)[k] == j);
                    } else {
                        assert(order@[k + 1] == before[k]);
                        assert(order_view(order@)[k + 1] == j);
                    }
                }
            }
            assert forall|k: int| 0 <= k < i + 1 implies (#[trigger] order@[k] as int) < i + 1 by {
                if k < p {
                    assert(order@[k] == before[k]);
                } else if k > p {
                    assert(order@[k] == before[k - 1]);
                }
            }
        }
        i = i + 1;
    }
    proof {
        assert(order_view(order@).len() == n);
        assert forall|k: int| 0 <= k < n implies 0 <= #[trigger] order_view(order@)[k] < n by {
            assert(order_view(order@)[k] == order@[k] as int);
        }
        assert forall|k: int, l: int| 0 <= k < l < n implies #[trigger] order_view(order@)[k] != #[trigger] order_view(order@)[l] by {
            assert(order_view(order@)[k] == order@[k] as int);
            assert(order_view(order@)[l] == order@[l] as int);
        }
        assert forall|k: int, l: int| 0 <= k < l < n implies !path_less(
            #[trigger] paths[order_view(order@)[l]],
            #[trigger] paths[order_view(order@)[k]],
        ) by {
            assert(order_view(order@)[k] == order@[k] as int);
            assert(order_view(order@)[l] == order@[l] as int);
        }

    }
    order
}

/// A worktree `adopt` considers: neither the repository root nor already inside the
/// managed root.
pub open spec fn adoptable(w: AdoptWorktree, repo_root: Seq<char>, managed_root: Seq<char>) -> bool {
    components(w.path@) != components(repo_root) && !path_is_managed_spec(w.path@, managed_root)
}

/// A candidate moves an adoptable, unlocked worktree of that branch.
pub open spec fn candidate_from(c: AdoptCandidate, ws: Seq<AdoptWorktree>, repo_root: Seq<char>, managed_root: Seq<char>) -> bool {
    exists|i: int|
        0 <= i < ws.len() && #[trigger] ws[i].path@ == c.from_path@ && opt_text(ws[i].branch) == Some(c.branch@)
            && !ws[i].locked && adoptable(ws[i], repo_root, managed_root)
}

/// A skipped entry names an adoptable worktree; detached ones have no branch, locked ones
/// are locked, and the others have a branch and a target.
pub open spec fn skipped_from(s: AdoptSkipped, ws: Seq<AdoptWorktree>, repo_root: Seq<char>, managed_root: Seq<char>) -> bool {
    exists|i: int|
        0 <= i < ws.len() && #[trigger] ws[i].path@ == s.from_path@ && opt_text(ws[i].branch) == opt_text(s.branch)
            && adoptable(ws[i], repo_root, managed_root) && match s.reason {
            AdoptSkippedReason::Detached => s.branch is None && s.to_path is None,
            AdoptSkippedReason::Locked => s.branch is Some && ws[i].locked && s.to_path is None,
            AdoptSkippedReason::TargetExists => s.branch is Some && !ws[i].locked && s.to_path is Some,
            AdoptSkippedReason::TargetConflict => s.branch is Some && !ws[i].locked && s.to_path is Some,
        }
}

fn same_components(a: &Vec<String>, b: &Vec<String>) -> (same: bool)
    ensures
        same == (comp_view(*a) == comp_view(*b)),
{
    if a.len() != b.len() {
        assert(comp_view(*a).len() != comp_view(*b).len());
        return false;
    }
    let mut i: usize = 0;
    while i < a.len()
        invariant
            i <= a@.len() == b@.len(),
            forall|j: int| 0 <= j < i ==> comp_view(*a)[j] == comp_view(*b)[j],
        decreases a.len() - i,
    {
        if !str_eq(a[i].as_str(), b[i].as_str()) {
            assert(comp_view(*a)[i as int] != comp_view(*b)[i as int]);
            return false;
        }
        i = i + 1;
    }
    assert(comp_view(*a) =~= comp_view(*b));
    true
}

fn copy_text(o: &Option<String>) -> (c: Option<String>)
    ensures
        opt_text(c) == opt_text(*o),
{
    match o {
        Some(s) => Some(s.clone()),
        None => None,
    }
}

pub open spec fn in_candidates(cands: Seq<AdoptCandidate>, path: Seq<char>) -> bool {
    exists|k: int| 0 <= k < cands.len() && cands[k].from_path@ == path
}

pub open spec fn in_skipped(skipped: Seq<AdoptSkipped>, path: Seq<char>) -> bool {
    exists|k: int| 0 <= k < skipped.len() && skipped[k].from_path@ == path
}

/// What every adopt plan satisfies, whatever the file system answered: every adoptable
/// worktree is a candidate or skipped, candidates come from unlocked worktrees with a
/// branch, skipped entries carry their reason, and no two candidates share a target.
pub open spec fn adopt_plan_ok(plan: AdoptPlan, ws: Seq<AdoptWorktree>, repo_root: Seq<char>, managed_root: Seq<char>, dry_run: bool) -> bool {
    &&& plan.repo_root@ == repo_root
    &&& plan.managed_worktree_root@ == managed_root
    &&& plan.dry_run == dry_run
    &&& forall|i: int|
        0 <= i < ws.len() && adoptable(ws[i], repo_root, managed_root) ==> in_candidates(plan.candidates@, #[trigger] ws[i].path@)
            || in_skipped(plan.skipped@, ws[i].path@)
    &&& forall|k: int| 0 <= k < plan.candidates@.len() ==> candidate_from(#[trigger] plan.candidates@[k], ws, repo_root, managed_root)
    &&& forall|k: int| 0 <= k < plan.skipped@.len() ==> skipped_from(#[trigger] plan.skipped@[k], ws, repo_root, managed_root)
    &&& forall|k: int, l: int|
        0 <= k < l < plan.candidates@.len() ==> components(#[trigger] plan.candidates@[k].to_path@) != components(
            #[trigger] plan.candidates@[l].to_path@,
        )
}

/// A candidate as plain texts: branch, source path, target path.
pub open spec fn candidate_view(c: AdoptCandidate) -> (Seq<char>, Seq<char>, Seq<char>) {
    (c.branch@, c.from_path@, c.to_path@)
}

/// A skipped worktree as plain texts: branch, source path, target path, reason.
pub open spec fn skipped_view(s: AdoptSkipped) -> (Option<Seq<char>>, Seq<char>, Option<Seq<char>>, AdoptSkippedReason) {
    (opt_text(s.branch), s.from_path@, opt_text(s.to_path), s.reason)
}

/// The worktrees in the given order.
pub open spec fn ordered_worktrees(ws: Seq<AdoptWorktree>, order: Seq<int>) -> Seq<AdoptWorktree> {
    order.map_values(|i: int| ws[i])
}

/// Whether planning `adopt` resolves a target for `w`: an adoptable worktree on a branch
/// that is not locked.
pub open spec fn adopt_consulted(w: AdoptWorktree, repo_root: Seq<char>, managed_root: Seq<char>) -> bool {
    adoptable(w, repo_root, managed_root) && w.branch is Some && !w.locked
}

/// The file system's answers behind an `adopt` plan are answers it may give: the `k`-th
/// target is what it answers when asked to contain the `k`-th worktree's branch in the
/// managed root, for each worktree whose target is resolved; the `j`-th presence is what it
/// answers when asked whether the `j`-th candidate's target exists.
pub open spec fn adopt_answers_reported<F: TargetFilesystem>(
    fs: &F,
    ws: Seq<AdoptWorktree>,
    repo_root: Seq<char>,
    managed_root: Seq<char>,
    order: Seq<int>,
    targets: Seq<Result<String, CliError>>,
    present: Seq<Result<bool, CliError>>,
) -> bool {
    let sws = ordered_worktrees(ws, order);
    &&& forall|kk: int|
        0 <= kk < targets.len() && kk < sws.len() && adopt_consulted(sws[kk], repo_root, managed_root)
            ==> #[trigger] target_reported(fs, managed_root, sws[kk].branch->Some_0@, targets[kk])
    &&& (adopt_unresolved(sws, repo_root, managed_root, targets) matches Ok((u, _)) ==> forall|jj: int|
        0 <= jj < present.len() && jj < u.len() ==> #[trigger] fs.exists_answer(u[jj].2, present[jj]))
}

/// The first pass of `adopt` over the worktrees in path order, for the file system's answers
/// `targets` (the `k`-th is the target resolved for the `k`-th worktree, where one is asked
/// for): worktrees at the repository root or inside the managed root are left alone; a
/// detached worktree and a locked one are skipped; any other becomes a candidate for the
/// resolved target of its branch. A failed resolution ends the pass with its error.
pub open spec fn adopt_unresolved(
    ws: Seq<AdoptWorktree>,
    repo_root: Seq<char>,
    managed_root: Seq<char>,
    targets: Seq<Result<String, CliError>>,
) -> Result<(Seq<(Seq<char>, Seq<char>, Seq<char>)>, Seq<(Option<Seq<char>>, Seq<char>, Option<Seq<char>>, AdoptSkippedReason)>), CliError>
    decreases ws.len(),
{
    if ws.len() == 0 {
        Ok((Seq::empty(), Seq::empty()))
    } else {
        let k = ws.len() - 1;
        let w = ws[k];
        match adopt_unresolved(ws.drop_last(), repo_root, managed_root, targets) {
            Err(e) => Err(e),
            Ok((u, sk)) => if !adoptable(w, repo_root, managed_root) {
                Ok((u, sk))
            } else {
                match w.branch {
                    None => Ok((u, sk.push((None, w.path@, None, AdoptSkippedReason::Detached)))),
                    Some(b) => if w.locked {
                        Ok((u, sk.push((Some(b@), w.path@, None, AdoptSkippedReason::Locked))))
                    } else {
                        match targets[k] {
                            Err(e) => Err(e),
                            Ok(t) => Ok((u.push((b@, w.path@, t@)), sk)),
                        }
                    },
                }
            },
        }
    }
}

/// The second pass of `adopt` over the first pass's candidates, for the file system's
/// answers `present` (whether the `k`-th candidate's target exists): an existing target is
/// skipped, a target already reserved by an earlier candidate is a conflict, and any other
/// candidate is kept and reserves its target. A failed check ends the pass with its error.
pub open spec fn adopt_resolved(
    unresolved: Seq<(Seq<char>, Seq<char>, Seq<char>)>,
    skipped: Seq<(Option<Seq<char>>, Seq<char>, Option<Seq<char>>, AdoptSkippedReason)>,
    present: Seq<Result<bool, CliError>>,
) -> Result<(Seq<(Seq<char>, Seq<char>, Seq<char>)>, Seq<(Option<Seq<char>>, Seq<char>, Option<Seq<char>>, AdoptSkippedReason)>), CliError>
    decreases unresolved.len(),
{
    if unresolved.len() == 0 {
        Ok((Seq::empty(), skipped))
    } else {
        let k = unresolved.len() - 1;
        let c = unresolved[k];
        match adopt_resolved(unresolved.drop_last(), skipped, present) {
            Err(e) => Err(e),
            Ok((cands, sk)) => match present[k] {
                Err(e) => Err(e),
                Ok(true) => Ok((cands, sk.push((Some(c.0), c.1, Some(c.2), AdoptSkippedReason::TargetExists)))),
                Ok(false) => if exists|j: int| 0 <= j < cands.len() && components(#[trigger] cands[j].2) == components(c.2) {
                    Ok((cands, sk.push((Some(c.0), c.1, Some(c.2), AdoptSkippedReason::TargetConflict))))
                } else {
                    Ok((cands.push(c), sk))
                },
            },
        }
    }
}

/// The `adopt` plan for the file system's answers, with the worktrees taken in path order.
pub open spec fn adopt_answered(
    ws: Seq<AdoptWorktree>,
    repo_root: Seq<char>,
    managed_root: Seq<char>,
    dry_run: bool,
    order: Seq<int>,
    targets: Seq<Result<String, CliError>>,
    present: Seq<Result<bool, CliError>>,
    result: Result<AdoptPlan, CliError>,
) -> bool {
    &&& sorted_order(ws.map_values(|w: AdoptWorktree| w.path@), order)
    &&& match adopt_unresolved(ordered_worktrees(ws, order), repo_root, managed_root, targets) {
        Err(e) => result == Err::<AdoptPlan, CliError>(e),
        Ok((u, sk)) => match adopt_resolved(u, sk, present) {
            Err(e) => result == Err::<AdoptPlan, CliError>(e),
            Ok((cands, skipped)) => result matches Ok(plan) && plan.candidates@.map_values(|c: AdoptCandidate| candidate_view(c))
                == cands && plan.skipped@.map_values(|s: AdoptSkipped| skipped_view(s)) == skipped && plan.repo_root@ == repo_root
                && plan.managed_worktree_root@ == managed_root && plan.dry_run == dry_run,
        },
    }
}

proof fn lemma_unresolved_error_stays(
    ws: Seq<AdoptWorktree>,
    m: int,
    repo_root: Seq<char>,
    managed_root: Seq<char>,
    targets: Seq<Result<String, CliError>>,
)
    requires
        0 <= m <= ws.len(),
        adopt_unresolved(ws.take(m), repo_root, managed_root, targets) is Err,
    ensures
        adopt_unresolved(ws, repo_root, managed_root, targets) == adopt_unresolved(ws.take(m), repo_root, managed_root, targets),
    decreases ws.len(),
{
    if ws.len() > m {
        assert(ws.drop_last().take(m) =~= ws.take(m));
        lemma_unresolved_error_stays(ws.drop_last(), m, repo_root, managed_root, targets);
    } else {
        assert(ws.take(m) =~= ws);
    }
}

proof fn lemma_unresolved_extend(
    ws: Seq<AdoptWorktree>,
    repo_root: Seq<char>,
    managed_root: Seq<char>,
    targets: Seq<Result<String, CliError>>,
    answer: Result<String, CliError>,
)
    requires
        targets.len() >= ws.len(),
    ensures
        adopt_unresolved(ws, repo_root, managed_root, targets) == adopt_unresolved(ws, repo_root, managed_root, targets.push(answer)),
    decreases ws.len(),
{
    if ws.len() > 0 {
        lemma_unresolved_extend(ws.drop_last(), repo_root, managed_root, targets, answer);
        assert(targets.push(answer)[ws.len() - 1] == targets[ws.len() - 1]);
    }
}

proof fn lemma_resolved_error_stays(
    u: Seq<(Seq<char>, Seq<char>, Seq<char>)>,
    m: int,
    skipped: Seq<(Option<Seq<char>>, Seq<char>, Option<Seq<char>>, AdoptSkippedReason)>,
    present: Seq<Result<bool, CliError>>,
)
    requires
        0 <= m <= u.len(),
        adopt_resolved(u.take(m), skipped, present) is Err,
    ensures
        adopt_resolved(u, skipped, present) == adopt_resolved(u.take(m), skipped, present),
    decreases u.len(),
{
    if u.len() > m {
        assert(u.drop_last().take(m) =~= u.take(m));
        lemma_resolved_error_stays(u.drop_last(), m, skipped, present);
    } else {
        assert(u.take(m) =~= u);
    }
}

proof fn lemma_resolved_extend(
    u: Seq<(Seq<char>, Seq<char>, Seq<char>)>,
    skipped: Seq<(Option<Seq<char>>, Seq<char>, Option<Seq<char>>, AdoptSkippedReason)>,
    present: Seq<Result<bool, CliError>>,
    answer: Result<bool, CliError>,
)
    requires
        present.len() >= u.len(),
    ensures
        adopt_resolved(u, skipped, present) == adopt_resolved(u, skipped, present.push(answer)),
    decreases u.len(),
{
    if u.len() > 0 {
        lemma_resolved_extend(u.drop_last(), skipped, present, answer);
        assert(present.push(answer)[u.len() - 1] == present[u.len() - 1]);
    }
}

/// Whether planning `adopt` asks the file system anything: some adoptable worktree has a
/// branch and is not locked, so its target is resolved and probed.
pub open spec fn adopt_consults_filesystem(ws: Seq<AdoptWorktree>, repo_root: Seq<char>, managed_root: Seq<char>) -> bool {
    exists|i: int| 0 <= i < ws.len() && adoptable(#[trigger] ws[i], repo_root, managed_root) && ws[i].branch is Some && !ws[i].locked
}

/// Plans `adopt`: worktrees outside the managed root, in path order, become candidates for a
/// move to their branch's place inside it; detached and locked worktrees, occupied targets
/// and a second worktree for an already reserved target are skipped. Errors of the file
/// system questions are returned as they are.
pub fn prepare_adopt<F: TargetFilesystem>(fs: &F, repo_root: &str, managed_worktree_root: &str, worktrees: &[AdoptWorktree], dry_run: bool) -> (result: Result<AdoptPlan, CliError>)
    ensures
        result matches Ok(plan) ==> adopt_plan_ok(plan, worktrees@, repo_root@, managed_worktree_root@, dry_run),
        result is Err ==> adopt_consults_filesystem(worktrees@, repo_root@, managed_worktree_root@),
        result matches Ok(plan) ==> forall|k: int|
            0 <= k < plan.candidates@.len() ==> #[trigger] plan.candidates@[k].to_path@ == join_path_spec(
                managed_worktree_root@,
                plan.candidates@[k].branch@,
            ),
        exists|order: Seq<int>, targets: Seq<Result<String, CliError>>, present: Seq<Result<bool, CliError>>|
            #[trigger] adopt_answered(worktrees@, repo_root@, managed_worktree_root@, dry_run, order, targets, present, result),
        exists|order: Seq<int>, targets: Seq<Result<String, CliError>>, present: Seq<Result<bool, CliError>>|
            #[trigger] adopt_answered(worktrees@, repo_root@, managed_worktree_root@, dry_run, order, targets, present, result)
                && adopt_answers_reported(fs, worktrees@, repo_root@, managed_worktree_root@, order, targets, present),
{
    let ghost ws = worktrees@;
    let ghost root = repo_root@;
    let ghost managed = managed_worktree_root@;
    let order = path_order(worktrees);
    let ghost ov = order_view(order@);
    let root_comps = path_components(repo_root);
    let mut unresolved: Vec<AdoptCandidate> = Vec::new();
    let mut skipped: Vec<AdoptSkipped> = Vec::new();
    let ghost sws = ordered_worktrees(ws, ov);
    let ghost any_present: Seq<Result<bool, CliError>> = arbitrary();
    let ghost mut targets: Seq<Result<String, CliError>> = Seq::empty();
    assert(sws.take(0) =~= Seq::<AdoptWorktree>::empty());
    assert(unresolved@.map_values(|c: AdoptCandidate| candidate_view(c)) =~= Seq::empty());
    assert(skipped@.map_values(|c: AdoptSkipped| skipped_view(c)) =~= Seq::empty());
    let mut k: usize = 0;
    while k < order.len()
        invariant
            sws == ordered_worktrees(ws, ov),
            targets.len() == k,
            forall|kk: int|
                0 <= kk < targets.len() && kk < sws.len() && adopt_consulted(sws[kk], root, managed)
                    ==> #[trigger] target_reported(fs, managed, sws[kk].branch->Some_0@, targets[kk]),
            forall|u: int| 0 <= u < unresolved@.len() ==> #[trigger] unresolved@[u].to_path@ == join_path_spec(managed, unresolved@[u].branch@),
            adopt_unresolved(sws.take(k as int), root, managed, targets) == Ok::<_, CliError>(
                (
                    unresolved@.map_values(|c: AdoptCandidate| candidate_view(c)),
                    skipped@.map_values(|c: AdoptSkipped| skipped_view(c)),
                ),
            ),
            ws == worktrees@,
            root == repo_root@,
            managed == managed_worktree_root@,
            ov == order_view(order@),
            sorted_order(ws.map_values(|w: AdoptWorktree| w.path@), ov),
            comp_view(root_comps) == components(repo_root@),
            k <= order@.len(),
            forall|u: int| 0 <= u < unresolved@.len() ==> candidate_from(#[trigger] unresolved@[u], ws, root, managed),
            forall|u: int| 0 <= u < skipped@.len() ==> skipped_from(#[trigger] skipped@[u], ws, root, managed),
            forall|kk: int|
                0 <= kk < k && adoptable(ws[ov[kk]], root, managed) ==> in_candidates(unresolved@, #[trigger] ws[ov[kk]].path@)
                    || in_skipped(skipped@, ws[ov[kk]].path@),
        decreases order@.len() - k,
    {
        let idx = order[k];
        assert(ov[k as int] == idx as int);
        assert(0 <= ov[k as int] < ws.map_values(|w: AdoptWorktree| w.path@).len());
        let w = &worktrees[idx];
        let comps = path_components(w.path.as_str());
        let at_root = same_components(&comps, &root_comps);
        let managed_path = path_is_managed(w.path.as_str(), managed_worktree_root);
        let ghost before_u = unresolved@;
        let ghost before_s = skipped@;
        let ghost before_t = targets;
        let ghost mut answer: Result<String, CliError> = arbitrary();
        assert(sws[k as int] == ws[idx as int]);
        assert(sws.take(k + 1).drop_last() =~= sws.take(k as int));
        if !at_root && !managed_path {
            assert(adoptable(ws[idx as int], root, managed));
            match &w.branch {
                None => {
                    let entry = AdoptSkipped {
                        branch: None,
                        from_path: w.path.clone(),
                        to_path: None,
                        reason: AdoptSkippedReason::Detached,
                    };
                    assert(skipped_from(entry, ws, root, managed)) by {
                        assert(ws[idx as int].path@ == entry.from_path@);
                    }
                    skipped.push(entry);
                },
                Some(branch) => {
                    if w.locked {
                        let entry = AdoptSkipped {
                            branch: Some(branch.clone()),
                            from_path: w.path.clone(),
                            to_path: None,
                            reason: AdoptSkippedReason::Locked,
                        };
                        assert(skipped_from(entry, ws, root, managed)) by {
                            assert(ws[idx as int].path@ == entry.from_path@);
                        }
                        skipped.push(entry);
                    } else {
                        let to_path = match crate::create::resolve_target(fs, managed_worktree_root, branch.as_str()) {
                            Ok(path) => path,
                            Err(error) => {
                                assert(adoptable(ws[idx as int], root, managed) && ws[idx as int].branch is Some);
                                proof {
                                    let t2 = targets.push(Err(error));
                                    lemma_unresolved_extend(sws.take(k as int), root, managed, targets, Err(error));
                                    assert(adopt_unresolved(sws.take(k + 1), root, managed, t2) == Err::<
                                        (Seq<(Seq<char>, Seq<char>, Seq<char>)>, Seq<(Option<Seq<char>>, Seq<char>, Option<Seq<char>>, AdoptSkippedReason)>),
                                        CliError,
                                    >(error));
                                    lemma_unresolved_error_stays(sws, k + 1, root, managed, t2);
                                    assert(adopt_answered(ws, root, managed, dry_run, ov, t2, any_present, Err::<AdoptPlan, CliError>(error)));
                                    assert forall|kk: int|
                                        0 <= kk < t2.len() && kk < sws.len() && adopt_consulted(sws[kk], root, managed)
                                            implies #[trigger] target_reported(fs, managed, sws[kk].branch->Some_0@, t2[kk]) by {
                                        if kk < k {
                                            assert(t2[kk] == targets[kk]);
                                        }
                                    }
                                    assert(adopt_answers_reported(fs, ws, root, managed, ov, t2, any_present));
                                }
                                return Err(error);
                            },
                        };
                        proof {
                            answer = Ok(to_path);
                        }
                        let candidate = AdoptCandidate { branch: branch.clone(), from_path: w.path.clone(), to_path };
                        assert(candidate_from(candidate, ws, root, managed)) by {
                            assert(ws[idx as int].path@ == candidate.from_path@);
                        }
                        unresolved.push(candidate);
                    }
                },
            }
        }
        proof {
            targets = before_t.push(answer);
            lemma_unresolved_extend(sws.take(k as int), root, managed, before_t, answer);
            assert forall|kk: int|
                0 <= kk < targets.len() && kk < sws.len() && adopt_consulted(sws[kk], root, managed)
                    implies #[trigger] target_reported(fs, managed, sws[kk].branch->Some_0@, targets[kk]) by {
                if kk < k {
                    assert(targets[kk] == before_t[kk]);
                }
            }
            assert(unresolved@.map_values(|c: AdoptCandidate| candidate_view(c)) =~= if unresolved@.len() > before_u.len() {
                before_u.map_values(|c: AdoptCandidate| candidate_view(c)).push(candidate_view(unresolved@.last()))
            } else {
                before_u.map_values(|c: AdoptCandidate| candidate_view(c))
            });
            assert(skipped@.map_values(|c: AdoptSkipped| skipped_view(c)) =~= if skipped@.len() > before_s.len() {
                before_s.map_values(|c: AdoptSkipped| skipped_view(c)).push(skipped_view(skipped@.last()))
            } else {
                before_s.map_values(|c: AdoptSkipped| skipped_view(c))
            });
        }
        proof {
            assert forall|u: int| 0 <= u < unresolved@.len() implies candidate_from(#[trigger] unresolved@[u], ws, root, managed) by {
                if u < before_u.len() {
                    assert(unresolved@[u] == before_u[u]);
                }
            }
            assert forall|u: int| 0 <= u < skipped@.len() implies skipped_from(#[trigger] skipped@[u], ws, root, managed) by {
                if u < before_s.len() {
                    assert(skipped@[u] == before_s[u]);
                }
            }
            assert forall|kk: int|
                0 <= kk < k + 1 && adoptable(ws[ov[kk]], root, managed) implies in_candidates(unresolved@, #[trigger] ws[ov[kk]].path@)
                    || in_skipped(skipped@, ws[ov[kk]].path@) by {
                if kk < k {
                    if in_candidates(before_u, ws[ov[kk]].path@) {
                        let x = choose|x: int| 0 <= x < before_u.len() && before_u[x].from_path@ == ws[ov[kk]].path@;
                        assert(unresolved@[x] == before_u[x]);
                    } else {
                        let x = choose|x: int| 0 <= x < before_s.len() && before_s[x].from_path@ == ws[ov[kk]].path@;
                        assert(skipped@[x] == before_s[x]);
                    }
                } else {
                    assert(ov[kk] == idx as int);
                    if !at_root && !managed_path {
                        if unresolved@.len() > before_u.len() {
                            assert(unresolved@[before_u.len() as int].from_path@ == ws[idx as int].path@);
                        } else {
                            assert(skipped@[before_s.len() as int].from_path@ == ws[idx as int].path@);
                        }
                    } else {
                        assert(!adoptable(ws[idx as int], root, managed));
                    }
                }
            }
        }
        k = k + 1;
    }
    let ghost first_skipped = skipped@;
    let ghost uv = unresolved@.map_values(|c: AdoptCandidate| candidate_view(c));
    let ghost fsv = skipped@.map_values(|c: AdoptSkipped| skipped_view(c));
    assert(sws.take(order@.len() as int) =~= sws);
    assert(adopt_unresolved(sws, root, managed, targets) == Ok::<_, CliError>((uv, fsv)));
    let ghost mut present: Seq<Result<bool, CliError>> = Seq::empty();
    let mut reserved: Vec<Vec<String>> = Vec::new();
    let mut candidates: Vec<AdoptCandidate> = Vec::new();
    let mut j: usize = 0;
    assert(uv.take(0) =~= Seq::<(Seq<char>, Seq<char>, Seq<char>)>::empty());
    assert(candidates@.map_values(|c: AdoptCandidate| candidate_view(c)) =~= Seq::empty());
    while j < unresolved.len()
        invariant
            sws == ordered_worktrees(ws, ov),
            sorted_order(ws.map_values(|w: AdoptWorktree| w.path@), ov),
            adopt_unresolved(sws, root, managed, targets) == Ok::<_, CliError>((uv, fsv)),
            uv == unresolved@.map_values(|c: AdoptCandidate| candidate_view(c)),
            present.len() == j,
            forall|kk: int|
                0 <= kk < targets.len() && kk < sws.len() && adopt_consulted(sws[kk], root, managed)
                    ==> #[trigger] target_reported(fs, managed, sws[kk].branch->Some_0@, targets[kk]),
            forall|jj: int| 0 <= jj < present.len() && jj < uv.len() ==> #[trigger] fs.exists_answer(uv[jj].2, present[jj]),
            forall|u: int| 0 <= u < unresolved@.len() ==> #[trigger] unresolved@[u].to_path@ == join_path_spec(managed, unresolved@[u].branch@),
            forall|u: int| 0 <= u < candidates@.len() ==> #[trigger] candidates@[u].to_path@ == join_path_spec(managed, candidates@[u].branch@),
            adopt_resolved(uv.take(j as int), fsv, present) == Ok::<_, CliError>(
                (
                    candidates@.map_values(|c: AdoptCandidate| candidate_view(c)),
                    skipped@.map_values(|c: AdoptSkipped| skipped_view(c)),
                ),
            ),
            forall|x: int| 0 <= x < candidates@.len() ==> #[trigger] candidates@[x].to_path@ == candidate_view(candidates@[x]).2,
            ws == worktrees@,
            root == repo_root@,
            managed == managed_worktree_root@,
            j <= unresolved@.len(),
            forall|u: int| 0 <= u < unresolved@.len() ==> candidate_from(#[trigger] unresolved@[u], ws, root, managed),
            forall|u: int| 0 <= u < skipped@.len() ==> skipped_from(#[trigger] skipped@[u], ws, root, managed),
            forall|u: int| 0 <= u < candidates@.len() ==> candidate_from(#[trigger] candidates@[u], ws, root, managed),
            first_skipped.len() <= skipped@.len(),
            forall|u: int| 0 <= u < first_skipped.len() ==> #[trigger] skipped@[u] == first_skipped[u],
            forall|jj: int| 0 <= jj < j ==> in_candidates(candidates@, #[trigger] unresolved@[jj].from_path@) || in_skipped(
                skipped@,
                unresolved@[jj].from_path@,
            ),
            reserved@.len() == candidates@.len(),
            forall|u: int| 0 <= u < reserved@.len() ==> #[trigger] comp_view(reserved@[u]) == components(candidates@[u].to_path@),
            forall|a: int, b: int|
                0 <= a < b < candidates@.len() ==> components(#[trigger] candidates@[a].to_path@) != components(
                    #[trigger] candidates@[b].to_path@,
                ),
        decreases unresolved@.len() - j,
    {
        let u = &unresolved[j];
        let ghost before_c = candidates@;
        let ghost before_s = skipped@;
        let ghost before_p = present;
        let ghost c = uv[j as int];
        assert(uv.take(j + 1).drop_last() =~= uv.take(j as int));
        assert(uv.take(j + 1).last() == c);
        assert(c == candidate_view(unresolved@[j as int]));
        assert(candidate_from(unresolved@[j as int], ws, root, managed));
        let probed = fs.path_exists(u.to_path.as_str());
        let ghost pr = probed;
        assert(fs.exists_answer(c.2, pr));
        let exists = match probed {
            Ok(exists) => exists,
            Err(error) => {
                proof {
                    let p2 = present.push(Err(error));
                    assert forall|jj: int| 0 <= jj < p2.len() && jj < uv.len() implies #[trigger] fs.exists_answer(uv[jj].2, p2[jj]) by {
                        if jj < j {
                            assert(p2[jj] == present[jj]);
                        }
                    }
                    assert(adopt_answers_reported(fs, ws, root, managed, ov, targets, p2));
                    lemma_resolved_extend(uv.take(j as int), fsv, present, Err(error));
                    lemma_resolved_error_stays(uv, j + 1, fsv, p2);
                    assert(uv.take(unresolved@.len() as int) =~= uv);
                    assert(adopt_answered(ws, root, managed, dry_run, ov, targets, p2, Err::<AdoptPlan, CliError>(error)));
                    let i = choose|i: int|
                        0 <= i < ws.len() && #[trigger] ws[i].path@ == u.from_path@ && opt_text(ws[i].branch) == Some(u.branch@)
                            && !ws[i].locked && adoptable(ws[i], root, managed);
                    assert(adoptable(ws[i], root, managed) && ws[i].branch is Some);
                }
                return Err(error);
            },
        };
        let ghost wi = choose|i: int|
            0 <= i < ws.len() && #[trigger] ws[i].path@ == u.from_path@ && opt_text(ws[i].branch) == Some(u.branch@)
                && !ws[i].locked && adoptable(ws[i], root, managed);
        proof {
            present = before_p.push(Ok(exists));
            lemma_resolved_extend(uv.take(j as int), fsv, before_p, Ok(exists));
            assert forall|jj: int| 0 <= jj < present.len() && jj < uv.len() implies #[trigger] fs.exists_answer(uv[jj].2, present[jj]) by {
                if jj < j {
                    assert(present[jj] == before_p[jj]);
                }
            }
        }
        if exists {
            let entry = AdoptSkipped {
                branch: Some(u.branch.clone()),
                from_path: u.from_path.clone(),
                to_path: Some(u.to_path.clone()),
                reason: AdoptSkippedReason::TargetExists,
            };
            assert(skipped_from(entry, ws, root, managed)) by {
                assert(ws[wi].path@ == entry.from_path@);
            }
            skipped.push(entry);
        } else {
            let target = path_components(u.to_path.as_str());
            let mut taken = false;
            let mut r: usize = 0;
            while r < reserved.len()
                invariant
                    r <= reserved@.len(),
                    comp_view(target) == components(u.to_path@),
                    taken == exists|x: int| 0 <= x < r && comp_view(reserved@[x]) == comp_view(target),
                decreases reserved@.len() - r,
            {
                if same_components(&reserved[r], &target) {
                    taken = true;
                }
                r = r + 1;
            }
            proof {
                let cv = candidates@.map_values(|x: AdoptCandidate| candidate_view(x));
                if taken {
                    let x = choose|x: int| 0 <= x < reserved@.len() && comp_view(reserved@[x]) == comp_view(target);
                    assert(components(cv[x].2) == components(c.2));
                } else {
                    assert forall|y: int| 0 <= y < cv.len() implies components(#[trigger] cv[y].2) != components(c.2) by {
                        assert(comp_view(reserved@[y]) == components(candidates@[y].to_path@));
                    }
                }
            }
            if taken {
                let entry = AdoptSkipped {
                    branch: Some(u.branch.clone()),
                    from_path: u.from_path.clone(),
                    to_path: Some(u.to_path.clone()),
                    reason: AdoptSkippedReason::TargetConflict,
                };
                assert(skipped_from(entry, ws, root, managed)) by {
                    assert(ws[wi].path@ == entry.from_path@);
                }
                skipped.push(entry);
            } else {
                let ghost before_r = reserved@;
                reserved.push(target);
                let candidate = AdoptCandidate {
                    branch: u.branch.clone(),
                    from_path: u.from_path.clone(),
                    to_path: u.to_path.clone(),
                };
                assert(candidate_from(candidate, ws, root, managed)) by {
                    assert(ws[wi].path@ == candidate.from_path@);
                }
                candidates.push(candidate);
                proof {
                    assert forall|a: int, b: int|
                        0 <= a < b < candidates@.len() implies components(#[trigger] candidates@[a].to_path@) != components(
                            #[trigger] candidates@[b].to_path@,
                        ) by {
                        if b == before_c.len() {
                            assert(candidates@[a] == before_c[a]);
                            assert(comp_view(before_r[a]) == components(before_c[a].to_path@));
                        } else {
                            assert(candidates@[a] == before_c[a]);
                            assert(candidates@[b] == before_c[b]);
                        }
                    }
                    assert forall|x: int| 0 <= x < reserved@.len() implies #[trigger] comp_view(reserved@[x]) == components(candidates@[x].to_path@) by {
                        if x < before_r.len() {
                            assert(reserved@[x] == before_r[x]);
                            assert(candidates@[x] == before_c[x]);
                        }
                    }
                }
            }
        }
        proof {
            assert(candidates@.map_values(|x: AdoptCandidate| candidate_view(x)) =~= if candidates@.len() > before_c.len() {
                before_c.map_values(|x: AdoptCandidate| candidate_view(x)).push(candidate_view(candidates@.last()))
            } else {
                before_c.map_values(|x: AdoptCandidate| candidate_view(x))
            });
            assert(skipped@.map_values(|x: AdoptSkipped| skipped_view(x)) =~= if skipped@.len() > before_s.len() {
                before_s.map_values(|x: AdoptSkipped| skipped_view(x)).push(skipped_view(skipped@.last()))
            } else {
                before_s.map_values(|x: AdoptSkipped| skipped_view(x))
            });
        }
        proof {
            assert forall|x: int| 0 <= x < candidates@.len() implies candidate_from(#[trigger] candidates@[x], ws, root, managed) by {
                if x < before_c.len() {
                    assert(candidates@[x] == before_c[x]);
                }
            }
            assert forall|x: int| 0 <= x < skipped@.len() implies skipped_from(#[trigger] skipped@[x], ws, root, managed) by {
                if x < before_s.len() {
                    assert(skipped@[x] == before_s[x]);
                }
            }
            assert forall|jj: int| 0 <= jj < j + 1 implies in_candidates(candidates@, #[trigger] unresolved@[jj].from_path@)
                || in_skipped(skipped@, unresolved@[jj].from_path@) by {
                if jj < j {
                    if in_candidates(before_c, unresolved@[jj].from_path@) {
                        let x = choose|x: int| 0 <= x < before_c.len() && before_c[x].from_path@ == unresolved@[jj].from_path@;
                        assert(candidates@[x] == before_c[x]);
                    } else {
                        let x = choose|x: int| 0 <= x < before_s.len() && before_s[x].from_path@ == unresolved@[jj].from_path@;
                        assert(skipped@[x] == before_s[x]);
                    }
                } else {
                    if candidates@.len() > before_c.len() {
                        assert(candidates@[before_c.len() as int].from_path@ == unresolved@[jj].from_path@);
                    } else {
                        assert(skipped@[before_s.len() as int].from_path@ == unresolved@[jj].from_path@);
                    }
                }
            }
        }
        j = j + 1;
    }
    let plan = AdoptPlan {
        repo_root: repo_root.to_owned(),
        managed_worktree_root: managed_worktree_root.to_owned(),
        dry_run,
        candidates,
        skipped,
    };
    proof {
        assert(uv.take(unresolved@.len() as int) =~= uv);
        assert(adopt_answered(ws, root, managed, dry_run, ov, targets, present, Ok::<AdoptPlan, CliError>(plan)));
        assert(adopt_answers_reported(fs, ws, root, managed, ov, targets, present));
    }
    proof {
        assert forall|i: int|
            0 <= i < ws.len() && adoptable(ws[i], root, managed) implies in_candidates(plan.candidates@, #[trigger] ws[i].path@)
                || in_skipped(plan.skipped@, ws[i].path@) by {
            assert(listed(ov, i));
            let kk = choose|kk: int| 0 <= kk < ov.len() && ov[kk] == i;
            if in_candidates(unresolved@, ws[i].path@) {
                let x = choose|x: int| 0 <= x < unresolved@.len() && unresolved@[x].from_path@ == ws[i].path@;
                assert(in_candidates(plan.candidates@, unresolved@[x].from_path@) || in_skipped(
                    plan.skipped@,
                    unresolved@[x].from_path@,
                ));
            } else {
                assert(in_skipped(first_skipped, ws[i].path@));
                let x = choose|x: int| 0 <= x < first_skipped.len() && first_skipped[x].from_path@ == ws[i].path@;
                assert(plan.skipped@[x] == first_skipped[x]);
            }
        }
    }
    Ok(plan)
}

} // verus!
