//! Unix path arithmetic on text paths: components, joining, prefixes and relative paths,
//! as `std::path` defines them.

use vstd::prelude::*;

use crate::text::{chars_of, join_spec, join_strings, split_on, str_eq, string_of};

verus! {

pub open spec fn is_absolute_spec(p: Seq<char>) -> bool {
    p.len() > 0 && p[0] == '/'
}

pub fn is_absolute(p: &str) -> (absolute: bool)
    ensures
        absolute == is_absolute_spec(p@),
{
    let chars = chars_of(p);
    chars.len() > 0 && chars[0] == '/'
}

/// `Path::join`: an absolute `rel` replaces `base`; otherwise `rel` follows `base`, with a `/`
/// between them unless `base` is empty or already ends with one.
pub open spec fn join_path_spec(base: Seq<char>, rel: Seq<char>) -> Seq<char> {
    if is_absolute_spec(rel) {
        rel
    } else if base.len() == 0 || base.last() == '/' {
        base + rel
    } else {
        base + "/"@ + rel
    }
}

pub fn join_path(base: &str, rel: &str) -> (joined: String)
    ensures
        joined@ == join_path_spec(base@, rel@),
{
    if is_absolute(rel) {
        return rel.to_owned();
    }
    let chars = chars_of(base);
    let mut joined = base.to_owned();
    if chars.len() > 0 && chars[chars.len() - 1] != '/' {
        joined.append("/");
    }
    joined.append(rel);
    joined
}

/// Path segments that name something: not empty and not `.`.
pub open spec fn named_segments(segs: Seq<Seq<char>>) -> Seq<Seq<char>>
    decreases segs.len(),
{
    if segs.len() == 0 {
        Seq::empty()
    } else {
        let prev = named_segments(segs.drop_last());
        if segs.last().len() > 0 && segs.last() != "."@ {
            prev.push(segs.last())
        } else {
            prev
        }
    }
}

/// `Path::components`, each written as its text: `/` for the root, `.` for a leading
/// current-directory component, `..` for a parent, and the name otherwise. Repeated
/// separators and interior `.` segments produce nothing.
pub open spec fn components(p: Seq<char>) -> Seq<Seq<char>> {
    let segs = split_on(p, '/');
    if is_absolute_spec(p) {
        seq!["/"@] + named_segments(segs.drop_first())
    } else if segs.len() > 0 && segs[0] == "."@ {
        seq!["."@] + named_segments(segs.drop_first())
    } else {
        named_segments(segs)
    }
}

fn split_chars(s: &Vec<char>, sep: char) -> (pieces: Vec<Vec<char>>)
    ensures
        pieces@.map_values(|p: Vec<char>| p@) == split_on(s@, sep),
{
    let mut done: Vec<Vec<char>> = Vec::new();
    let mut current: Vec<char> = Vec::new();
    let mut i: usize = 0;
    assert(s@.take(0) =~= Seq::<char>::empty());
    assert(done@.map_values(|p: Vec<char>| p@).push(current@) =~= split_on(s@.take(0), sep));
    while i < s.len()
        invariant
            i <= s@.len(),
            done@.map_values(|p: Vec<char>| p@).push(current@) == split_on(s@.take(i as int), sep),
        decreases s.len() - i,
    {
        let ghost prev = done@.map_values(|p: Vec<char>| p@).push(current@);
        assert(s@.take(i + 1).drop_last() =~= s@.take(i as int));
        assert(s@.take(i + 1).last() == s@[i as int]);
        if s[i] == sep {
            let finished = current;
            done.push(finished);
            current = Vec::new();
            assert(done@.map_values(|p: Vec<char>| p@).push(current@) =~= prev.push(Seq::empty()));
        } else {
            let ghost before = done@.map_values(|p: Vec<char>| p@);
            current.push(s[i]);
            assert(done@.map_values(|p: Vec<char>| p@) == before);
            assert(done@.map_values(|p: Vec<char>| p@).push(current@) =~= prev.update(
                prev.len() - 1,
                prev.last().push(s@[i as int]),
            ));
        }
        i = i + 1;
    }
    assert(s@.take(s@.len() as int) =~= s@);
    done.push(current);
    done
}

fn is_dot(seg: &Vec<char>) -> (dot: bool)
    ensures
        dot == (seg@ == "."@),
{
    proof {
        reveal_strlit(".");
    }
    let dot = seg.len() == 1 && seg[0] == '.';
    proof {
        if seg@ == "."@ {
            assert(seg@[0] == '.');
        }
        if dot {
            assert(seg@ =~= "."@);
        }
    }
    dot
}

/// The components of a path, as `components` describes them.
pub fn path_components(p: &str) -> (parts: Vec<String>)
    ensures
        parts@.map_values(|c: String| c@) == components(p@),
{
    let chars = chars_of(p);
    let segs = split_chars(&chars, '/');
    let ghost sv = segs@.map_values(|v: Vec<char>| v@);
    proof {
        crate::text::lemma_split_on_nonempty(p@, '/');
    }
    let absolute = is_absolute(p);
    let mut parts: Vec<String> = Vec::new();
    let mut i: usize = 0;
    let ghost skipped: int = 0;
    if absolute {
        parts.push(String::from_str("/"));
        i = 1;
        proof { skipped = 1; }
    } else if is_dot(&segs[0]) {
        parts.push(String::from_str("."));
        i = 1;
        proof { skipped = 1; }
    }
    let ghost head = parts@.map_values(|c: String| c@);
    assert(sv.subrange(skipped, i as int) =~= Seq::<Seq<char>>::empty());
    while i < segs.len()
        invariant
            1 <= segs@.len(),
            skipped <= i <= segs@.len(),
            skipped == 0 || skipped == 1,
            sv == segs@.map_values(|v: Vec<char>| v@),
            parts@.map_values(|c: String| c@) == head + named_segments(sv.subrange(skipped, i as int)),
        decreases segs.len() - i,
    {
        assert(sv.subrange(skipped, i + 1).drop_last() =~= sv.subrange(skipped, i as int));
        assert(sv[i as int] == segs@[i as int]@);
        if segs[i].len() > 0 && !is_dot(&segs[i]) {
            let ghost before = parts@.map_values(|c: String| c@);
            parts.push(string_of(&segs[i]));
            assert(parts@.map_values(|c: String| c@) =~= before.push(sv[i as int]));
        }
        i = i + 1;
    }
    proof {
        if skipped == 1 {
            assert(sv.subrange(1, sv.len() as int) =~= sv.drop_first());
        } else {
            assert(sv.subrange(0, sv.len() as int) =~= sv);
        }
        reveal_strlit("/");
        reveal_strlit(".");
    }
    parts
}

/// `a` is a strict prefix of `b`.
pub open spec fn is_proper_prefix(a: Seq<Seq<char>>, b: Seq<Seq<char>>) -> bool {
    a.len() < b.len() && b.take(a.len() as int) == a
}

pub(crate) fn components_prefix(a: &Vec<String>, b: &Vec<String>) -> (prefix: bool)
    ensures
        prefix == (a@.len() <= b@.len() && b@.map_values(|c: String| c@).take(a@.len() as int)
            == a@.map_values(|c: String| c@)),
{
    let ghost av = a@.map_values(|c: String| c@);
    let ghost bv = b@.map_values(|c: String| c@);
    if a.len() > b.len() {
        return false;
    }
    let mut i: usize = 0;
    while i < a.len()
        invariant
            i <= a@.len() <= b@.len(),
            av == a@.map_values(|c: String| c@),
            bv == b@.map_values(|c: String| c@),
            bv.take(i as int) == av.take(i as int),
        decreases a.len() - i,
    {
        if !str_eq(a[i].as_str(), b[i].as_str()) {
            assert(bv.take(a@.len() as int)[i as int] == bv[i as int]);
            return false;
        }
        assert(bv.take(i + 1) =~= bv.take(i as int).push(bv[i as int]));
        assert(av.take(i + 1) =~= av.take(i as int).push(av[i as int]));
        i = i + 1;
    }
    assert(av.take(a@.len() as int) =~= av);
    true
}

/// `Path` equality: the same components.
pub open spec fn same_path(a: Seq<char>, b: Seq<char>) -> bool {
    components(a) == components(b)
}

pub fn paths_equal(a: &str, b: &str) -> (same: bool)
    ensures
        same == same_path(a@, b@),
{
    let pa = path_components(a);
    let pb = path_components(b);
    let ghost av = pa@.map_values(|c: String| c@);
    let ghost bv = pb@.map_values(|c: String| c@);
    if pa.len() != pb.len() {
        assert(av.len() != bv.len());
        return false;
    }
    let same = components_prefix(&pa, &pb);
    assert(bv.take(av.len() as int) =~= bv);
    same
}

/// A managed worktree lies strictly inside the managed root (`Path::starts_with` and `!=`,
/// which both compare components).
pub open spec fn path_is_managed_spec(path: Seq<char>, root: Seq<char>) -> bool {
    is_proper_prefix(components(root), components(path))
}

pub fn path_is_managed(path: &str, managed_root: &str) -> (managed: bool)
    ensures
        managed == path_is_managed_spec(path@, managed_root@),
{
    let p = path_components(path);
    let r = path_components(managed_root);
    r.len() < p.len() && components_prefix(&r, &p)
}

/// The managed worktree root: an absolute configured root as given, a relative one inside
/// the repository root.
pub open spec fn managed_root_spec(repo_root: Seq<char>, configured: Seq<char>) -> Seq<char> {
    if is_absolute_spec(configured) {
        configured
    } else {
        join_path_spec(repo_root, configured)
    }
}

pub fn resolve_managed_worktree_root(repo_root: &str, configured_root: &str) -> (root: String)
    ensures
        root@ == managed_root_spec(repo_root@, configured_root@),
{
    if is_absolute(configured_root) {
        configured_root.to_owned()
    } else {
        join_path(repo_root, configured_root)
    }
}

/// The `.git/info/exclude` entry for a managed root inside the repository: its components
/// below the repository root joined with `/` and ending in `/` (`./` for the root itself);
/// nothing when the managed root is not inside the repository.
pub open spec fn exclude_entry_spec(repo_root: Seq<char>, managed_root: Seq<char>) -> Option<Seq<char>> {
    let rc = components(repo_root);
    let mc = components(managed_root);
    if rc.len() <= mc.len() && mc.take(rc.len() as int) == rc {
        if mc.len() == rc.len() {
            Some("./"@)
        } else {
            Some(join_spec(mc.skip(rc.len() as int), "/"@) + "/"@)
        }
    } else {
        None
    }
}

pub fn managed_root_exclude_entry(repo_root: &str, managed_root: &str) -> (entry: Option<String>)
    ensures
        match entry {
            Some(e) => exclude_entry_spec(repo_root@, managed_root@) == Some(e@),
            None => exclude_entry_spec(repo_root@, managed_root@) is None,
        },
{
    let rc = path_components(repo_root);
    let mc = path_components(managed_root);
    if !components_prefix(&rc, &mc) {
        return None;
    }
    if mc.len() == rc.len() {
        return Some(String::from_str("./"));
    }
    let mut rest: Vec<String> = Vec::new();
    let mut i: usize = rc.len();
    let ghost mv = mc@.map_values(|c: String| c@);
    while i < mc.len()
        invariant
            rc@.len() <= i <= mc@.len(),
            mv == mc@.map_values(|c: String| c@),
            rest@.map_values(|c: String| c@) == mv.subrange(rc@.len() as int, i as int),
        decreases mc.len() - i,
    {
        let ghost before = rest@.map_values(|c: String| c@);
        rest.push(mc[i].clone());
        assert(rest@.map_values(|c: String| c@) =~= before.push(mv[i as int]));
        assert(mv.subrange(rc@.len() as int, i + 1) =~= mv.subrange(rc@.len() as int, i as int).push(mv[i as int]));
        i = i + 1;
    }
    assert(mv.subrange(rc@.len() as int, mv.len() as int) =~= mv.skip(rc@.len() as int));
    let mut entry = join_strings(&rest, "/");
    entry.append("/");
    Some(entry)
}

/// A path that stays inside the repository: relative, not empty, with at least one named
/// component and no `..`.
pub open spec fn is_repository_relative(p: Seq<char>) -> bool {
    let cs = components(p);
    &&& !is_absolute_spec(p)
    &&& p.len() > 0
    &&& forall|i: int| 0 <= i < cs.len() ==> #[trigger] cs[i] != ".."@
    &&& exists|i: int| 0 <= i < cs.len() && #[trigger] cs[i] != "."@
}

pub fn repository_relative(p: &str) -> (relative: bool)
    ensures
        relative == is_repository_relative(p@),
{
    if is_absolute(p) || p.unicode_len() == 0 {
        return false;
    }
    let cs = path_components(p);
    let ghost cv = cs@.map_values(|c: String| c@);
    let mut named = false;
    let mut i: usize = 0;
    while i < cs.len()
        invariant
            i <= cs@.len(),
            cv == cs@.map_values(|c: String| c@),
            cv == components(p@),
            forall|j: int| 0 <= j < i ==> #[trigger] cv[j] != ".."@,
            named == exists|j: int| 0 <= j < i && #[trigger] cv[j] != "."@,
        decreases cs.len() - i,
    {
        assert(cv[i as int] == cs@[i as int]@);
        if str_eq(cs[i].as_str(), "..") {
            return false;
        }
        if !str_eq(cs[i].as_str(), ".") {
            named = true;
        }
        i = i + 1;
    }
    named
}

} // verus!
