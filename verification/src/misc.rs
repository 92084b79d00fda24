//! Helpers of the miscellaneous commands: sanitized candidate values for completion and the
//! picker, and the path rules of `copy` and `link`: repository-relative paths without
//! traversal, destinations that do not overlap, and relative link targets.

use vstd::prelude::*;

use crate::adopt::comp_view;
use crate::error::{object_view, CliError, DetailValue, DetailView, ErrorCode};
use crate::paths::{
    components, components_prefix, is_absolute, is_absolute_spec, is_repository_relative, path_components,
    repository_relative,
};
use crate::text::{chars_of, controls_to_spaces, join_spec, join_strings, str_eq, string_of, trim_chars, trim_spec};

verus! {

/// A value for one tab-separated candidate row: tabs and line breaks become spaces and the
/// result is trimmed, so the value stays in its field and its row.
pub open spec fn sanitize_spec(value: Seq<char>) -> Seq<char> {
    trim_spec(controls_to_spaces(value))
}

pub fn sanitize(value: &str) -> (out: String)
    ensures
        out@ == sanitize_spec(value@),
{
    let chars = chars_of(value);
    let mut mapped: Vec<char> = Vec::new();
    let mut i: usize = 0;
    while i < chars.len()
        invariant
            i <= chars@.len(),
            chars@ == value@,
            mapped@ == controls_to_spaces(value@.take(i as int)),
        decreases chars.len() - i,
    {
        let c = chars[i];
        let m = if c == '\t' || c == '\r' || c == '\n' {
            ' '
        } else {
            c
        };
        mapped.push(m);
        assert(controls_to_spaces(value@.take(i + 1)) =~= controls_to_spaces(value@.take(i as int)).push(m));
        i = i + 1;
    }
    assert(value@.take(chars@.len() as int) =~= value@);
    string_of(&trim_chars(&mapped))
}

/// Law: a sanitized value holds no tab, carriage return or line feed.
pub proof fn law_sanitized_values_stay_in_their_field(value: Seq<char>)
    ensures
        forall|i: int|
            0 <= i < sanitize_spec(value).len() ==> #[trigger] sanitize_spec(value)[i] != '\t'
                && sanitize_spec(value)[i] != '\r' && sanitize_spec(value)[i] != '\n',
{
    let m = controls_to_spaces(value);
    crate::text::lemma_trim_subrange(m);
}

/// `copy` and `link` take repository-relative paths without traversal.
pub fn validate_relative(path: &str) -> (result: Result<(), CliError>)
    ensures
        is_absolute_spec(path@) ==> (result matches Err(e) && e.code == ErrorCode::AbsolutePathNotAllowed
            && e.message@ == "absolute path is not allowed: "@ + path@),
        !is_absolute_spec(path@) && is_repository_relative(path@) ==> result is Ok,
        !is_absolute_spec(path@) && !is_repository_relative(path@) ==> (result matches Err(e) && e.code
            == ErrorCode::PathOutsideRepo && e.message@ == "path must be repository-relative without traversal"@
            && object_view(e.details@) == seq![("path"@, DetailView::Text(path@))]),
{
    if is_absolute(path) {
        let mut message = String::from_str("absolute path is not allowed: ");
        message.append(path);
        return Err(CliError { code: ErrorCode::AbsolutePathNotAllowed, message, details: Vec::new(), execution: None });
    }
    if repository_relative(path) {
        return Ok(());
    }
    let mut details: Vec<(String, DetailValue)> = Vec::new();
    details.push(("path".to_owned(), DetailValue::Text(path.to_owned())));
    proof {
        crate::error::lemma_object_view_index(details@);
        assert(object_view(details@) =~= seq![("path"@, DetailView::Text(path@))]);
    }
    Err(CliError {
        code: ErrorCode::PathOutsideRepo,
        message: String::from_str("path must be repository-relative without traversal"),
        details,
        execution: None,
    })
}

/// `Path::starts_with`: `prefix`'s components begin `path`'s.
pub open spec fn starts_with_path(path: Seq<char>, prefix: Seq<char>) -> bool {
    components(prefix).len() <= components(path).len() && components(path).take(components(prefix).len() as int)
        == components(prefix)
}

/// Two destinations overlap when one equals or contains the other.
pub open spec fn overlapping(a: Seq<char>, b: Seq<char>) -> bool {
    starts_with_path(a, b) || starts_with_path(b, a)
}

/// No pair `(i', j')` before `(i, j)`, in order of `i` and then `j`, overlaps.
pub open spec fn no_overlap_before(rels: Seq<Seq<char>>, i: int, j: int) -> bool {
    &&& forall|a: int, b: int| 0 <= a < i && a < b < rels.len() ==> !overlapping(#[trigger] rels[a], #[trigger] rels[b])
    &&& forall|b: int| i < b < j ==> !overlapping(rels[i], #[trigger] rels[b])
}

fn starts_with_components(path: &Vec<String>, prefix: &Vec<String>) -> (found: bool)
    ensures
        found == (prefix@.len() <= path@.len() && path@.map_values(|c: String| c@).take(prefix@.len() as int)
            == prefix@.map_values(|c: String| c@)),
{
    components_prefix(prefix, path)
}

/// `copy` and `link` refuse destinations that repeat or contain one another; the first such
/// pair, in argument order, is reported.
pub fn validate_disjoint_destinations(relatives: &[String]) -> (result: Result<(), CliError>)
    ensures
        match result {
            Ok(_) => forall|a: int, b: int|
                0 <= a < b < relatives@.len() ==> !overlapping(#[trigger] relatives@[a]@, #[trigger] relatives@[b]@),
            Err(e) => exists|i: int, j: int|
                0 <= i < j < relatives@.len() && overlapping(#[trigger] relatives@[i]@, #[trigger] relatives@[j]@)
                    && no_overlap_before(relatives@.map_values(|r: String| r@), i, j) && e.code == ErrorCode::InvalidArgument
                    && e.message@ == "copy/link paths must not duplicate or contain one another"@ && e.execution is None
                    && object_view(e.details@) == seq![
                    ("path"@, DetailView::Text(relatives@[i]@)),
                    ("conflictingPath"@, DetailView::Text(relatives@[j]@)),
                ],
        },
{
    let ghost rv = relatives@.map_values(|r: String| r@);
    let mut parts: Vec<Vec<String>> = Vec::new();
    let mut k: usize = 0;
    while k < relatives.len()
        invariant
            k <= relatives@.len(),
            parts@.len() == k,
            forall|m: int| 0 <= m < k ==> #[trigger] comp_view(parts@[m]) == components(relatives@[m]@),
        decreases relatives.len() - k,
    {
        parts.push(path_components(relatives[k].as_str()));
        k = k + 1;
    }
    let mut i: usize = 0;
    while i < relatives.len()
        invariant
            i <= relatives@.len(),
            rv == relatives@.map_values(|r: String| r@),
            parts@.len() == relatives@.len(),
            forall|m: int| 0 <= m < relatives@.len() ==> #[trigger] comp_view(parts@[m]) == components(relatives@[m]@),
            forall|a: int, b: int| 0 <= a < i && a < b < relatives@.len() ==> !overlapping(#[trigger] relatives@[a]@, #[trigger] relatives@[b]@),
        decreases relatives.len() - i,
    {
        let mut j: usize = i + 1;
        while j < relatives.len()
            invariant
                i < relatives@.len(),
                i + 1 <= j <= relatives@.len(),
                rv == relatives@.map_values(|r: String| r@),
                parts@.len() == relatives@.len(),
                forall|m: int| 0 <= m < relatives@.len() ==> #[trigger] comp_view(parts@[m]) == components(relatives@[m]@),
                forall|a: int, b: int| 0 <= a < i && a < b < relatives@.len() ==> !overlapping(#[trigger] relatives@[a]@, #[trigger] relatives@[b]@),
                forall|b: int| i < b < j ==> !overlapping(relatives@[i as int]@, #[trigger] relatives@[b]@),
            decreases relatives.len() - j,
        {
            assert(comp_view(parts@[i as int]) == components(relatives@[i as int]@));
            assert(comp_view(parts@[j as int]) == components(relatives@[j as int]@));
            if starts_with_components(&parts[i], &parts[j]) || starts_with_components(&parts[j], &parts[i]) {
                let mut details: Vec<(String, DetailValue)> = Vec::new();
                details.push(("path".to_owned(), DetailValue::Text(relatives[i].as_str().to_owned())));
                details.push(("conflictingPath".to_owned(), DetailValue::Text(relatives[j].as_str().to_owned())));
                proof {
                    crate::error::lemma_object_view_index(details@);
                    assert(object_view(details@) =~= seq![
                        ("path"@, DetailView::Text(relatives@[i as int]@)),
                        ("conflictingPath"@, DetailView::Text(relatives@[j as int]@)),
                    ]);
                    assert(rv[i as int] == relatives@[i as int]@);
                    assert forall|a: int, b: int| 0 <= a < i && a < b < rv.len() implies !overlapping(#[trigger] rv[a], #[trigger] rv[b]) by {
                        assert(rv[a] == relatives@[a]@ && rv[b] == relatives@[b]@);
                    }
                    assert forall|b: int| i < b < j implies !overlapping(rv[i as int], #[trigger] rv[b]) by {
                        assert(rv[b] == relatives@[b]@);
                    }
                }
                return Err(CliError {
                    code: ErrorCode::InvalidArgument,
                    message: String::from_str("copy/link paths must not duplicate or contain one another"),
                    details,
                    execution: None,
                });
            }
            j = j + 1;
        }
        i = i + 1;
    }
    Ok(())
}

/// The components of `to` as seen from `from`: up out of what `from` has beyond their shared
/// leading components, then down into the rest of `to`.
pub open spec fn shared_prefix_len(a: Seq<Seq<char>>, b: Seq<Seq<char>>) -> nat
    decreases a.len(),
{
    if a.len() == 0 || b.len() == 0 || a[0] != b[0] {
        0
    } else {
        1 + shared_prefix_len(a.drop_first(), b.drop_first())
    }
}

pub open spec fn relative_components(from: Seq<Seq<char>>, to: Seq<Seq<char>>) -> Seq<Seq<char>> {
    let shared = shared_prefix_len(from, to) as int;
    Seq::new((from.len() - shared) as nat, |k: int| ".."@) + to.skip(shared)
}

/// The path from `from` to `to` for a relative link; paths on different roots have none.
pub fn relative_path(from: &str, to: &str) -> (result: Result<String, CliError>)
    ensures
        match result {
            Ok(path) => shared_prefix_len(components(from@), components(to@)) > 0 && path@ == join_spec(
                relative_components(components(from@), components(to@)),
                "/"@,
            ),
            Err(e) => shared_prefix_len(components(from@), components(to@)) == 0 && e.code
                == ErrorCode::UnsupportedRepositoryLayout && e.message@
                == "source and destination are on different filesystem roots"@ && e.details@.len() == 0
                && e.execution is None,
        },
{
    let a = path_components(from);
    let b = path_components(to);
    let ghost av = a@.map_values(|c: String| c@);
    let ghost bv = b@.map_values(|c: String| c@);
    let mut shared: usize = 0;
    assert(av.skip(0) =~= av);
    assert(bv.skip(0) =~= bv);
    while shared < a.len() && shared < b.len() && str_eq(a[shared].as_str(), b[shared].as_str())
        invariant
            shared <= a@.len(),
            shared <= b@.len(),
            av == a@.map_values(|c: String| c@),
            bv == b@.map_values(|c: String| c@),
            shared_prefix_len(av, bv) == shared + shared_prefix_len(av.skip(shared as int), bv.skip(shared as int)),
        decreases a.len() - shared,
    {
        assert(av.skip(shared as int)[0] == av[shared as int]);
        assert(bv.skip(shared as int)[0] == bv[shared as int]);
        assert(av.skip(shared as int).drop_first() =~= av.skip(shared + 1));
        assert(bv.skip(shared as int).drop_first() =~= bv.skip(shared + 1));
        shared = shared + 1;
    }
    proof {
        if shared < a@.len() && shared < b@.len() {
            assert(av.skip(shared as int)[0] == av[shared as int]);
            assert(bv.skip(shared as int)[0] == bv[shared as int]);
        }
        assert(shared_prefix_len(av.skip(shared as int), bv.skip(shared as int)) == 0);
    }
    if shared == 0 {
        return Err(CliError::new(ErrorCode::UnsupportedRepositoryLayout, "source and destination are on different filesystem roots"));
    }
    let ghost target = relative_components(av, bv);
    let mut parts: Vec<String> = Vec::new();
    let mut k: usize = shared;
    while k < a.len()
        invariant
            shared <= k <= a@.len(),
            parts@.map_values(|c: String| c@) =~= Seq::new((k - shared) as nat, |m: int| ".."@),
        decreases a.len() - k,
    {
        let up = String::from_str("..");
        proof {
            reveal_strlit("..");
        }
        let ghost before = parts@;
        parts.push(up);
        assert(parts@.map_values(|c: String| c@) =~= before.map_values(|c: String| c@).push(up@));
        k = k + 1;
    }
    let mut m: usize = shared;
    while m < b.len()
        invariant
            shared <= m <= b@.len(),
            bv == b@.map_values(|c: String| c@),
            parts@.map_values(|c: String| c@) =~= Seq::new((a@.len() - shared) as nat, |x: int| ".."@) + bv.subrange(shared as int, m as int),
        decreases b.len() - m,
    {
        let part = b[m].as_str().to_owned();
        assert(part@ == bv[m as int]);
        let ghost before = parts@;
        parts.push(part);
        assert(parts@.map_values(|c: String| c@) =~= before.map_values(|c: String| c@).push(part@));
        assert(bv.subrange(shared as int, m + 1) =~= bv.subrange(shared as int, m as int).push(bv[m as int]));
        m = m + 1;
    }
    assert(bv.subrange(shared as int, b@.len() as int) =~= bv.skip(shared as int));
    Ok(join_strings(&parts, "/"))
}

} // verus!
