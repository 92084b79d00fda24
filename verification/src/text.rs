//! Character- and byte-sequence operations with their mathematical meaning:
//! substring search, left-to-right replacement, trimming and line splitting.

use vstd::prelude::*;
use vstd::utf8::{decode_utf8, valid_utf8};

verus! {

pub assume_specification[ String::push ](string: &mut String, ch: char)
    ensures
        final(string)@ == old(string)@.push(ch),
;

/// `needle` occurs in `s` starting at index `i`.
pub open spec fn matches_at<T>(s: Seq<T>, needle: Seq<T>, i: int) -> bool {
    &&& 0 <= i
    &&& i + needle.len() <= s.len()
    &&& s.subrange(i, i + needle.len()) == needle
}

/// The first index at or after `i` where `needle` occurs.
pub open spec fn find_from<T>(s: Seq<T>, needle: Seq<T>, i: int) -> Option<int>
    decreases s.len() + 1 - i,
{
    if i < 0 || i + needle.len() > s.len() {
        None
    } else if matches_at(s, needle, i) {
        Some(i)
    } else {
        find_from(s, needle, i + 1)
    }
}

/// Every non-overlapping occurrence of `needle` at or after `i`, scanned left to right,
/// replaced by `with` (the semantics of `str::replace` for a non-empty needle).
pub open spec fn replace_from<T>(s: Seq<T>, needle: Seq<T>, with: Seq<T>, i: int) -> Seq<T>
    decreases s.len() - i,
{
    if i < 0 || i >= s.len() {
        Seq::empty()
    } else if needle.len() > 0 && matches_at(s, needle, i) {
        with + replace_from(s, needle, with, i + needle.len())
    } else {
        seq![s[i]] + replace_from(s, needle, with, i + 1)
    }
}

pub open spec fn replace_all<T>(s: Seq<T>, needle: Seq<T>, with: Seq<T>) -> Seq<T> {
    replace_from(s, needle, with, 0)
}

/// Only the first occurrence at or after `i` replaced (the semantics of `replacen(.., 1)`).
pub open spec fn replace_first_from<T>(s: Seq<T>, needle: Seq<T>, with: Seq<T>, i: int) -> Seq<T>
    decreases s.len() - i,
{
    if i < 0 || i >= s.len() {
        Seq::empty()
    } else if needle.len() > 0 && matches_at(s, needle, i) {
        with + s.subrange(i + needle.len(), s.len() as int)
    } else {
        seq![s[i]] + replace_first_from(s, needle, with, i + 1)
    }
}

pub open spec fn replace_first<T>(s: Seq<T>, needle: Seq<T>, with: Seq<T>) -> Seq<T> {
    replace_first_from(s, needle, with, 0)
}

pub proof fn lemma_find_from_bounds<T>(s: Seq<T>, needle: Seq<T>, i: int)
    ensures
        find_from(s, needle, i) matches Some(k) ==> i <= k && matches_at(s, needle, k) && (
        forall|j: int| i <= j < k ==> !matches_at(s, needle, j)),
        find_from(s, needle, i) is None ==> forall|j: int|
            i <= j && 0 <= i ==> !#[trigger] matches_at(s, needle, j),
    decreases s.len() + 1 - i,
{
    if i < 0 || i + needle.len() > s.len() {
    } else if matches_at(s, needle, i) {
    } else {
        lemma_find_from_bounds(s, needle, i + 1);
    }
}

/// Character sequence of a string slice, as a vector.
pub fn chars_of(s: &str) -> (chars: Vec<char>)
    ensures
        chars@ == s@,
{
    let n = s.unicode_len();
    let mut chars: Vec<char> = Vec::new();
    let mut i: usize = 0;
    while i < n
        invariant
            n == s@.len(),
            i <= n,
            chars@ == s@.subrange(0, i as int),
        decreases n - i,
    {
        chars.push(s.get_char(i));
        i = i + 1;
    }
    chars
}

/// A string holding exactly the given characters.
pub fn string_of(chars: &Vec<char>) -> (s: String)
    ensures
        s@ == chars@,
{
    let mut s = String::new();
    let mut i: usize = 0;
    while i < chars.len()
        invariant
            i <= chars.len(),
            s@ == chars@.subrange(0, i as int),
        decreases chars.len() - i,
    {
        s.push(chars[i]);
        i = i + 1;
    }
    s
}

/// Whether `needle` occurs at index `i` of `s`.
pub fn slice_matches_at(s: &[char], needle: &[char], i: usize) -> (found: bool)
    requires
        i <= s@.len(),
    ensures
        found == matches_at(s@, needle@, i as int),
{
    if needle.len() > s.len() - i {
        return false;
    }
    let mut j: usize = 0;
    while j < needle.len()
        invariant
            i + needle@.len() <= s@.len(),
            i + needle@.len() <= s.len(),
            j <= needle@.len(),
                forall|k: int| 0 <= k < j ==> s@[i + k] == needle@[k],
        decreases needle.len() - j,
    {
        assert(i + j < s@.len());
        if s[i + j] != needle[j] {
            assert(s@.subrange(i as int, i + needle@.len())[j as int] != needle@[j as int]);
            return false;
        }
        j = j + 1;
    }
    assert(s@.subrange(i as int, i + needle@.len()) =~= needle@);
    true
}

/// The first index at or after `start` where `needle` occurs in `s`.
pub fn find_in(s: &[char], needle: &[char], start: usize) -> (found: Option<usize>)
    requires
        start <= s@.len(),
    ensures
        found matches Some(k) ==> find_from(s@, needle@, start as int) == Some(k as int),
        found is None ==> find_from(s@, needle@, start as int) is None,
{
    let mut i = start;
    while i < s.len()
        invariant
            start <= i <= s@.len(),
                find_from(s@, needle@, start as int) == find_from(s@, needle@, i as int),
        decreases s.len() - i,
    {
        if slice_matches_at(s, needle, i) {
            return Some(i);
        }
        if needle.len() > s.len() - i {
            return None;
        }
        i = i + 1;
    }
    if needle.len() == 0 {
        assert(matches_at(s@, needle@, i as int)) by {
            assert(s@.subrange(i as int, i as int) =~= needle@);
        }
        return Some(i);
    }
    None
}

/// Left-to-right replacement of every occurrence of a non-empty `needle`.
pub fn replace_all_in(s: &[char], needle: &[char], with: &[char]) -> (out: Vec<char>)
    requires
        needle@.len() > 0,
    ensures
        out@ == replace_all(s@, needle@, with@),
{
    let mut out: Vec<char> = Vec::new();
    let mut i: usize = 0;
    while i < s.len()
        invariant
            i <= s@.len(),
            needle@.len() > 0,
                out@ + replace_from(s@, needle@, with@, i as int) == replace_all(s@, needle@, with@),
        decreases s.len() - i,
    {
        if slice_matches_at(s, needle, i) {
            let ghost before = out@;
            let mut k: usize = 0;
            while k < with.len()
                invariant
                    k <= with@.len(),
                    out@ == before + with@.subrange(0, k as int),
                decreases with.len() - k,
            {
                out.push(with[k]);
                k = k + 1;
            }
            assert(with@.subrange(0, with@.len() as int) =~= with@);
            assert(out@ + replace_from(s@, needle@, with@, i + needle@.len()) =~= before
                + replace_from(s@, needle@, with@, i as int));
            i = i + needle.len();
        } else {
            let ghost before = out@;
            out.push(s[i]);
            assert(out@ + replace_from(s@, needle@, with@, i + 1) =~= before + replace_from(
                s@,
                needle@,
                with@,
                i as int,
            ));
            i = i + 1;
        }
    }
    assert(out@ + replace_from(s@, needle@, with@, i as int) =~= out@);
    out
}

/// Replacement of only the first occurrence of a non-empty `needle`.
pub fn replace_first_in(s: &[char], needle: &[char], with: &[char]) -> (out: Vec<char>)
    requires
        needle@.len() > 0,
    ensures
        out@ == replace_first(s@, needle@, with@),
{
    let mut out: Vec<char> = Vec::new();
    let mut i: usize = 0;
    while i < s.len()
        invariant
            i <= s@.len(),
            needle@.len() > 0,
                out@ + replace_first_from(s@, needle@, with@, i as int) == replace_first(
                s@,
                needle@,
                with@,
            ),
        decreases s.len() - i,
    {
        if slice_matches_at(s, needle, i) {
            let ghost before = out@;
            let mut k: usize = 0;
            while k < with.len()
                invariant
                    k <= with@.len(),
                    out@ == before + with@.subrange(0, k as int),
                decreases with.len() - k,
            {
                out.push(with[k]);
                k = k + 1;
            }
            let mut j: usize = i + needle.len();
            while j < s.len()
                invariant
                    i + needle@.len() <= j <= s@.len(),
                    out@ == before + with@ + s@.subrange(i + needle@.len(), j as int),
                decreases s.len() - j,
            {
                out.push(s[j]);
                j = j + 1;
            }
            assert(out@ =~= before + replace_first_from(s@, needle@, with@, i as int));
            return out;
        } else {
            let ghost before = out@;
            out.push(s[i]);
            assert(out@ + replace_first_from(s@, needle@, with@, i + 1) =~= before
                + replace_first_from(s@, needle@, with@, i as int));
            i = i + 1;
        }
    }
    assert(out@ + replace_first_from(s@, needle@, with@, i as int) =~= out@);
    out
}

/// `str::replace` for a non-empty pattern.
pub fn replace_str(s: &str, needle: &str, with: &str) -> (out: String)
    requires
        needle@.len() > 0,
    ensures
        out@ == replace_all(s@, needle@, with@),
{
    let s_chars = chars_of(s);
    let needle_chars = chars_of(needle);
    let with_chars = chars_of(with);
    let out = replace_all_in(s_chars.as_slice(), needle_chars.as_slice(), with_chars.as_slice());
    string_of(&out)
}

/// `str::replacen(.., 1)` for a non-empty pattern.
pub fn replace_first_str(s: &str, needle: &str, with: &str) -> (out: String)
    requires
        needle@.len() > 0,
    ensures
        out@ == replace_first(s@, needle@, with@),
{
    let s_chars = chars_of(s);
    let needle_chars = chars_of(needle);
    let with_chars = chars_of(with);
    let out = replace_first_in(s_chars.as_slice(), needle_chars.as_slice(), with_chars.as_slice());
    string_of(&out)
}

/// Whether `s` starts with `prefix`.
pub fn starts_with_str(s: &str, prefix: &str) -> (found: bool)
    ensures
        found == matches_at(s@, prefix@, 0),
{
    let s_chars = chars_of(s);
    let prefix_chars = chars_of(prefix);
    slice_matches_at(s_chars.as_slice(), prefix_chars.as_slice(), 0)
}

/// Whether two string slices hold the same characters.
pub fn str_eq(a: &str, b: &str) -> (same: bool)
    ensures
        same == (a@ == b@),
{
    let a_chars = chars_of(a);
    let b_chars = chars_of(b);
    if a_chars.len() != b_chars.len() {
        return false;
    }
    let found = slice_matches_at(a_chars.as_slice(), b_chars.as_slice(), 0);
    proof {
        if found {
            assert(a@.subrange(0, b@.len() as int) =~= a@);
        } else {
            if a@ == b@ {
                assert(a@.subrange(0, b@.len() as int) =~= b@);
            }
        }
    }
    found
}

/// The Unicode `White_Space` property, which is what `char::is_whitespace` tests.
pub open spec fn is_unicode_whitespace(c: char) -> bool {
    let v = c as u32;
    (0x9 <= v <= 0xd) || v == 0x20 || v == 0x85 || v == 0xa0 || v == 0x1680 || (0x2000 <= v
        <= 0x200a) || v == 0x2028 || v == 0x2029 || v == 0x202f || v == 0x205f || v == 0x3000
}

pub fn is_whitespace_char(c: char) -> (ws: bool)
    ensures
        ws == is_unicode_whitespace(c),
{
    let v = c as u32;
    (0x9 <= v && v <= 0xd) || v == 0x20 || v == 0x85 || v == 0xa0 || v == 0x1680 || (0x2000 <= v
        && v <= 0x200a) || v == 0x2028 || v == 0x2029 || v == 0x202f || v == 0x205f || v == 0x3000
}

/// Index of the first character of `s` that is not whitespace (or `s.len()`).
pub open spec fn leading_ws_end(s: Seq<char>, i: int) -> int
    decreases s.len() - i,
{
    if i < 0 || i >= s.len() || !is_unicode_whitespace(s[i]) {
        i
    } else {
        leading_ws_end(s, i + 1)
    }
}

/// One past the last character of `s[..end]` that is not whitespace.
pub open spec fn trailing_ws_start(s: Seq<char>, end: int) -> int
    decreases end,
{
    if end <= 0 || end > s.len() || !is_unicode_whitespace(s[end - 1]) {
        end
    } else {
        trailing_ws_start(s, end - 1)
    }
}

/// `str::trim`: leading and trailing Unicode whitespace removed.
pub open spec fn trim_spec(s: Seq<char>) -> Seq<char> {
    let start = leading_ws_end(s, 0);
    let end = trailing_ws_start(s, s.len() as int);
    if start >= end {
        Seq::empty()
    } else {
        s.subrange(start, end)
    }
}

proof fn lemma_leading_ws_end_bounds(s: Seq<char>, i: int)
    requires
        0 <= i <= s.len(),
    ensures
        i <= leading_ws_end(s, i) <= s.len(),
    decreases s.len() - i,
{
    if i < s.len() && is_unicode_whitespace(s[i]) {
        lemma_leading_ws_end_bounds(s, i + 1);
    }
}

proof fn lemma_trailing_ws_start_bounds(s: Seq<char>, end: int)
    requires
        0 <= end <= s.len(),
    ensures
        0 <= trailing_ws_start(s, end) <= end,
    decreases end,
{
    if end > 0 && is_unicode_whitespace(s[end - 1]) {
        lemma_trailing_ws_start_bounds(s, end - 1);
    }
}

/// `str::trim` on a character vector.
pub fn trim_chars(s: &Vec<char>) -> (out: Vec<char>)
    ensures
        out@ == trim_spec(s@),
{
    let mut start: usize = 0;
    while start < s.len() && is_whitespace_char(s[start])
        invariant
            start <= s@.len(),
            leading_ws_end(s@, 0) == leading_ws_end(s@, start as int),
        decreases s.len() - start,
    {
        start = start + 1;
    }
    let mut end: usize = s.len();
    while end > 0 && is_whitespace_char(s[end - 1])
        invariant
            end <= s@.len(),
            trailing_ws_start(s@, s@.len() as int) == trailing_ws_start(s@, end as int),
        decreases end,
    {
        end = end - 1;
    }
    let mut out: Vec<char> = Vec::new();
    if start >= end {
        return out;
    }
    let mut k: usize = start;
    while k < end
        invariant
            start <= k <= end <= s@.len(),
            out@ == s@.subrange(start as int, k as int),
        decreases end - k,
    {
        out.push(s[k]);
        k = k + 1;
    }
    out
}

/// `value.replace(['\r', '\n'], " ")`: every carriage return and newline becomes a space.
pub open spec fn newlines_to_spaces(s: Seq<char>) -> Seq<char> {
    s.map_values(|c: char| if c == '\r' || c == '\n' { ' ' } else { c })
}

/// Each tab, carriage return and newline becomes a space.
pub open spec fn controls_to_spaces(s: Seq<char>) -> Seq<char> {
    s.map_values(|c: char| if c == '\t' || c == '\r' || c == '\n' { ' ' } else { c })
}

/// Trailing carriage returns and newlines removed (`trim_end_matches(['\r', '\n'])`).
pub open spec fn trim_trailing_newlines_spec(s: Seq<char>) -> Seq<char>
    decreases s.len(),
{
    if s.len() > 0 && (s.last() == '\r' || s.last() == '\n') {
        trim_trailing_newlines_spec(s.drop_last())
    } else {
        s
    }
}

/// A UTF-8 decoding that replaces invalid sequences (`String::from_utf8_lossy`).
pub uninterp spec fn utf8_lossy(bytes: Seq<u8>) -> Seq<char>;

/// `String::from_utf8_lossy(bytes).into_owned()`. Documented: on valid UTF-8 the result is
/// exactly the decoded text; otherwise invalid sequences become U+FFFD (named, not stated).
#[verifier::external_body]
pub fn utf8_lossy_string(bytes: &[u8]) -> (text: String)
    ensures
        text@ == utf8_lossy(bytes@),
        valid_utf8(bytes@) ==> text@ == decode_utf8(bytes@),
{
    String::from_utf8_lossy(bytes).into_owned()
}

/// `String::from_utf8`: the text when the bytes are valid UTF-8; otherwise the decoder's
/// error as text (its wording is std's and is not stated).
#[verifier::external_body]
pub fn utf8_string(bytes: Vec<u8>) -> (text: Result<String, String>)
    ensures
        text is Ok <==> valid_utf8(bytes@),
        text matches Ok(t) ==> t@ == decode_utf8(bytes@),
{
    match String::from_utf8(bytes) {
        Ok(text) => Ok(text),
        Err(error) => Err(error.to_string()),
    }
}

/// Whether `needle` occurs at index `i` of the byte slice `s`.
pub fn bytes_match_at(s: &[u8], needle: &[u8], i: usize) -> (found: bool)
    requires
        i <= s@.len(),
    ensures
        found == matches_at(s@, needle@, i as int),
{
    if needle.len() > s.len() - i {
        return false;
    }
    let mut j: usize = 0;
    while j < needle.len()
        invariant
            i + needle@.len() <= s@.len(),
            i + needle@.len() <= s.len(),
            j <= needle@.len(),
            forall|k: int| 0 <= k < j ==> s@[i + k] == needle@[k],
        decreases needle.len() - j,
    {
        if s[i + j] != needle[j] {
            assert(s@.subrange(i as int, i + needle@.len())[j as int] != needle@[j as int]);
            return false;
        }
        j = j + 1;
    }
    assert(s@.subrange(i as int, i + needle@.len()) =~= needle@);
    true
}

/// `needle` occurs somewhere in `s`.
pub open spec fn contains_subseq<T>(s: Seq<T>, needle: Seq<T>) -> bool {
    exists|i: int| #[trigger] matches_at(s, needle, i)
}

/// Whether `needle` occurs anywhere in the byte slice `s`.
pub fn bytes_contain(s: &[u8], needle: &[u8]) -> (found: bool)
    ensures
        found == contains_subseq(s@, needle@),
{
    let mut i: usize = 0;
    while i < s.len()
        invariant
            i <= s@.len(),
            forall|j: int| 0 <= j < i ==> !matches_at(s@, needle@, j),
        decreases s@.len() - i,
    {
        if bytes_match_at(s, needle, i) {
            return true;
        }
        i = i + 1;
    }
    if bytes_match_at(s, needle, i) {
        return true;
    }
    assert forall|j: int| !matches_at(s@, needle@, j) by {
        if 0 <= j && j < i {
        }
    }
    false
}

/// Parts joined with `sep` between consecutive parts (`[..].join(sep)`).
pub open spec fn join_spec<T>(parts: Seq<Seq<T>>, sep: Seq<T>) -> Seq<T>
    decreases parts.len(),
{
    if parts.len() == 0 {
        Seq::empty()
    } else if parts.len() == 1 {
        parts[0]
    } else {
        join_spec(parts.drop_last(), sep) + sep + parts.last()
    }
}

/// Joins strings with a separator.
pub fn join_strings(parts: &Vec<String>, sep: &str) -> (joined: String)
    ensures
        joined@ == join_spec(parts@.map_values(|p: String| p@), sep@),
{
    let ghost views = parts@.map_values(|p: String| p@);
    let mut joined = String::new();
    let mut i: usize = 0;
    while i < parts.len()
        invariant
            i <= parts@.len(),
            views == parts@.map_values(|p: String| p@),
            joined@ == join_spec(views.take(i as int), sep@),
        decreases parts.len() - i,
    {
        if i > 0 {
            joined.append(sep);
        }
        joined.append(parts[i].as_str());
        assert(views.take(i + 1).drop_last() =~= views.take(i as int));
        i = i + 1;
    }
    assert(views.take(parts@.len() as int) =~= views);
    joined
}

/// `str::trim` on a string.
pub fn trim_str(s: &str) -> (out: String)
    ensures
        out@ == trim_spec(s@),
{
    string_of(&trim_chars(&chars_of(s)))
}

/// The decimal digits of a natural number, most significant first.
pub open spec fn digits_of(n: nat) -> Seq<char>
    decreases n,
{
    if n < 10 {
        seq![((n + 48) as u8) as char]
    } else {
        digits_of(n / 10).push((((n % 10) + 48) as u8) as char)
    }
}

/// The decimal text of an integer, with a leading `-` when negative.
pub open spec fn decimal_spec(n: int) -> Seq<char> {
    if n < 0 {
        seq!['-'] + digits_of((-n) as nat)
    } else {
        digits_of(n as nat)
    }
}

fn push_digits(out: &mut String, n: u64)
    ensures
        final(out)@ == old(out)@ + digits_of(n as nat),
    decreases n,
{
    if n >= 10 {
        push_digits(out, n / 10);
    }
    let d: u8 = (n % 10) as u8;
    let c: char = (d + 48) as char;
    out.push(c);
}

/// Appends the decimal text of `n`.
pub fn push_decimal(out: &mut String, n: i64)
    ensures
        final(out)@ == old(out)@ + decimal_spec(n as int),
{
    if n < 0 {
        out.push('-');
        let magnitude: u64 = if n == i64::MIN {
            9223372036854775808u64
        } else {
            (-n) as u64
        };
        push_digits(out, magnitude);
        assert(final(out)@ =~= old(out)@ + decimal_spec(n as int));
    } else {
        push_digits(out, n as u64);
    }
}

/// The pieces of `b` between occurrences of `sep` (`slice::split`): always at least one
/// piece, empty pieces included.
pub open spec fn split_on<T>(b: Seq<T>, sep: T) -> Seq<Seq<T>>
    decreases b.len(),
{
    if b.len() == 0 {
        seq![Seq::empty()]
    } else {
        let prev = split_on(b.drop_last(), sep);
        if b.last() == sep {
            prev.push(Seq::empty())
        } else {
            prev.update(prev.len() - 1, prev.last().push(b.last()))
        }
    }
}

pub proof fn lemma_split_on_nonempty<T>(b: Seq<T>, sep: T)
    ensures
        split_on(b, sep).len() >= 1,
    decreases b.len(),
{
    if b.len() > 0 {
        lemma_split_on_nonempty(b.drop_last(), sep);
    }
}

/// Splits bytes at every `sep` byte.
pub fn split_bytes(b: &[u8], sep: u8) -> (pieces: Vec<Vec<u8>>)
    ensures
        pieces@.map_values(|p: Vec<u8>| p@) == split_on(b@, sep),
{
    let mut done: Vec<Vec<u8>> = Vec::new();
    let mut current: Vec<u8> = Vec::new();
    let mut i: usize = 0;
    assert(b@.take(0) =~= Seq::<u8>::empty());
    assert(done@.map_values(|p: Vec<u8>| p@).push(current@) =~= split_on(b@.take(0), sep));
    while i < b.len()
        invariant
            i <= b@.len(),
            done@.map_values(|p: Vec<u8>| p@).push(current@) == split_on(b@.take(i as int), sep),
        decreases b.len() - i,
    {
        let ghost prev = done@.map_values(|p: Vec<u8>| p@).push(current@);
        assert(b@.take(i + 1).drop_last() =~= b@.take(i as int));
        assert(b@.take(i + 1).last() == b@[i as int]);
        if b[i] == sep {
            let finished = current;
            done.push(finished);
            current = Vec::new();
            assert(done@.map_values(|p: Vec<u8>| p@).push(current@) =~= prev.push(Seq::empty()));
        } else {
            let ghost before = done@.map_values(|p: Vec<u8>| p@);
            current.push(b[i]);
            assert(done@.map_values(|p: Vec<u8>| p@) == before);
            assert(done@.map_values(|p: Vec<u8>| p@).push(current@) =~= prev.update(
                prev.len() - 1,
                prev.last().push(b@[i as int]),
            ));
        }
        i = i + 1;
    }
    assert(b@.take(b@.len() as int) =~= b@);
    done.push(current);
    done
}

/// `{:?}` of an `Option<i32>`: `Some(<n>)` or `None`.
pub open spec fn debug_option_spec(value: Option<i32>) -> Seq<char> {
    match value {
        Some(n) => "Some("@ + decimal_spec(n as int) + ")"@,
        None => "None"@,
    }
}

pub fn push_debug_option(out: &mut String, value: Option<i32>)
    ensures
        final(out)@ == old(out)@ + debug_option_spec(value),
{
    match value {
        Some(n) => {
            out.append("Some(");
            push_decimal(out, n as i64);
            out.append(")");
            assert(final(out)@ =~= old(out)@ + debug_option_spec(value));
        },
        None => {
            out.append("None");
        },
    }
}

/// `{}` of a `bool`.
pub open spec fn bool_text(value: bool) -> Seq<char> {
    if value {
        "true"@
    } else {
        "false"@
    }
}

pub fn push_bool(out: &mut String, value: bool)
    ensures
        final(out)@ == old(out)@ + bool_text(value),
{
    if value {
        out.append("true");
    } else {
        out.append("false");
    }
}

/// A character as it appears inside a quoted, escaped string.
pub open spec fn escaped_char(c: char) -> Seq<char> {
    if c == '"' {
        seq!['\\', '"']
    } else if c == '\\' {
        seq!['\\', '\\']
    } else if c == '\n' {
        seq!['\\', 'n']
    } else if c == '\r' {
        seq!['\\', 'r']
    } else if c == '\t' {
        seq!['\\', 't']
    } else {
        seq![c]
    }
}

pub open spec fn escaped(s: Seq<char>) -> Seq<char>
    decreases s.len(),
{
    if s.len() == 0 {
        Seq::empty()
    } else {
        escaped(s.drop_last()) + escaped_char(s.last())
    }
}

/// The text in double quotes with quotes, backslashes and line breaks escaped.
pub open spec fn quoted(s: Seq<char>) -> Seq<char> {
    seq!['"'] + escaped(s) + seq!['"']
}

pub fn push_quoted(out: &mut String, s: &str)
    ensures
        final(out)@ == old(out)@ + quoted(s@),
{
    let chars = chars_of(s);
    out.push('"');
    let ghost start = out@;
    let mut i: usize = 0;
    while i < chars.len()
        invariant
            i <= chars@.len(),
            chars@ == s@,
            out@ == start + escaped(s@.take(i as int)),
        decreases chars.len() - i,
    {
        let c = chars[i];
        if c == '"' {
            out.append("\\\"");
        } else if c == '\\' {
            out.append("\\\\");
        } else if c == '\n' {
            out.append("\\n");
        } else if c == '\r' {
            out.append("\\r");
        } else if c == '\t' {
            out.append("\\t");
        } else {
            out.push(c);
        }
        proof {
            reveal_strlit("\\\"");
            reveal_strlit("\\\\");
            reveal_strlit("\\n");
            reveal_strlit("\\r");
            reveal_strlit("\\t");
            assert(s@.take(i + 1).drop_last() =~= s@.take(i as int));
            assert(out@ =~= start + escaped(s@.take(i + 1)));
        }
        i = i + 1;
    }
    assert(s@.take(chars@.len() as int) =~= s@);
    out.push('"');
    assert(final(out)@ =~= old(out)@ + quoted(s@));
}

/// Trimming keeps a contiguous piece of the text.
pub proof fn lemma_trim_subrange(s: Seq<char>)
    ensures
        exists|a: int, b: int| 0 <= a <= b <= s.len() && trim_spec(s) == s.subrange(a, b),
{
    lemma_leading_ws_end_bounds(s, 0);
    lemma_trailing_ws_start_bounds(s, s.len() as int);
    let start = leading_ws_end(s, 0);
    let end = trailing_ws_start(s, s.len() as int);
    if start >= end {
        assert(trim_spec(s) == s.subrange(0, 0));
    } else {
        assert(trim_spec(s) == s.subrange(start, end));
    }
}

} // verus!
