//! Pull-request state lookup through the GitHub CLI: which branches are asked about, how the
//! `gh pr list` invocation is built, and how its JSON answer becomes one state per branch.
//! A disabled or failing lookup is reported as `unknown`, never as "no PR".

use vstd::prelude::*;

use crate::process::{
    describe_process_error, OutputPolicy, ProcessCommand, ProcessError, ProcessOutput,
    ProcessRunner, StdinPolicy,
};
use crate::text::{
    chars_of, join_spec, join_strings, str_eq, string_of, trim_chars, trim_spec, utf8_lossy,
    utf8_lossy_string,
};

verus! {

/// Default `gh` timeout in milliseconds.
pub const DEFAULT_GH_TIMEOUT_MS: u64 = 30000;

/// Branches per `gh pr list` query.
pub const GH_BRANCH_BATCH_SIZE: usize = 25;

#[derive(Clone, Copy, Debug, PartialEq, Eq, Structural)]
pub enum PrStatus {
    NoPullRequest,
    Open,
    Merged,
    ClosedUnmerged,
    Unknown,
}

#[derive(Clone, Copy, Debug, PartialEq, Eq, Structural)]
pub enum PrUnavailableReason {
    Disabled,
    DependencyMissing,
    CommandFailed,
    TimedOut,
    AuthenticationRequired,
    InvalidResponse,
}

/// Why a PR state is unknown, with the evidence that was available.
#[derive(Clone, Debug, PartialEq, Eq)]
pub struct PrDiagnostic {
    pub reason: PrUnavailableReason,
    pub message: Option<String>,
    pub exit_code: Option<i32>,
}

#[derive(Clone, Debug, PartialEq, Eq)]
pub struct PrState {
    pub status: Option<PrStatus>,
    pub url: Option<String>,
    pub head_oid: Option<String>,
    pub diagnostic: Option<PrDiagnostic>,
}

pub open spec fn opt_view(o: Option<String>) -> Option<Seq<char>> {
    match o {
        Some(s) => Some(s@),
        None => None,
    }
}

/// A state that says "no PR exists for this branch".
pub open spec fn is_none_state(s: PrState) -> bool {
    &&& s.status == Some(PrStatus::NoPullRequest)
    &&& s.url is None
    &&& s.head_oid is None
    &&& s.diagnostic is None
}

/// An unknown state with its reason, message and exit code.
pub open spec fn is_unknown_state(s: PrState, reason: PrUnavailableReason, message: Option<Seq<char>>, exit_code: Option<i32>) -> bool {
    &&& s.status == Some(PrStatus::Unknown)
    &&& s.url is None
    &&& s.head_oid is None
    &&& s.diagnostic matches Some(d) && d.reason == reason && opt_view(d.message) == message
        && d.exit_code == exit_code
}

impl PrState {
    pub fn none() -> (state: Self)
        ensures
            is_none_state(state),
    {
        PrState { status: Some(PrStatus::NoPullRequest), url: None, head_oid: None, diagnostic: None }
    }

    pub fn unavailable(reason: PrUnavailableReason, message: Option<String>, exit_code: Option<i32>) -> (state: Self)
        ensures
            is_unknown_state(state, reason, opt_view(message), exit_code),
    {
        PrState {
            status: Some(PrStatus::Unknown),
            url: None,
            head_oid: None,
            diagnostic: Some(PrDiagnostic { reason, message, exit_code }),
        }
    }
}

/// PR states keyed by branch name, in the order the branches were asked about.
#[derive(Clone, Debug)]
pub struct PrStateMap {
    pub entries: Vec<(String, PrState)>,
}

pub open spec fn entry_keys(entries: Seq<(String, PrState)>) -> Seq<Seq<char>> {
    entries.map_values(|e: (String, PrState)| e.0@)
}

impl PrStateMap {
    pub fn len(&self) -> (n: usize)
        ensures
            n == self.entries@.len(),
    {
        self.entries.len()
    }

    /// The state of the first entry for `branch`.
    pub fn get(&self, branch: &str) -> (state: Option<&PrState>)
        ensures
            state matches Some(s) ==> exists|i: int|
                0 <= i < self.entries@.len() && self.entries@[i].0@ == branch@ && self.entries@[i].1
                    == *s,
            state is None ==> forall|i: int|
                0 <= i < self.entries@.len() ==> self.entries@[i].0@ != branch@,
    {
        let mut i: usize = 0;
        while i < self.entries.len()
            invariant
                i <= self.entries@.len(),
                forall|j: int| 0 <= j < i ==> self.entries@[j].0@ != branch@,
            decreases self.entries.len() - i,
        {
            if str_eq(self.entries[i].0.as_str(), branch) {
                return Some(&self.entries[i].1);
            }
            i = i + 1;
        }
        None
    }
}

// ----- target branches -----

/// Named, non-empty branches other than the base, each once, in first-seen order.
pub open spec fn target_branches_spec(branches: Seq<Option<String>>, base: Seq<char>) -> Seq<Seq<char>>
    decreases branches.len(),
{
    if branches.len() == 0 {
        Seq::empty()
    } else {
        let prev = target_branches_spec(branches.drop_last(), base);
        match branches.last() {
            Some(b) => if b@.len() > 0 && b@ != base && !prev.contains(b@) {
                prev.push(b@)
            } else {
                prev
            },
            None => prev,
        }
    }
}

pub fn target_branches(branches: &[Option<String>], base_branch: &str) -> (targets: Vec<String>)
    ensures
        targets@.map_values(|t: String| t@) == target_branches_spec(branches@, base_branch@),
{
    let mut targets: Vec<String> = Vec::new();
    let mut i: usize = 0;
    while i < branches.len()
        invariant
            i <= branches@.len(),
            targets@.map_values(|t: String| t@) == target_branches_spec(branches@.take(i as int), base_branch@),
        decreases branches.len() - i,
    {
        let ghost prev = targets@.map_values(|t: String| t@);
        assert(branches@.take(i + 1).drop_last() =~= branches@.take(i as int));
        match &branches[i] {
            Some(branch) => {
                let mut seen = false;
                let mut k: usize = 0;
                while k < targets.len()
                    invariant
                        k <= targets@.len(),
                        prev == targets@.map_values(|t: String| t@),
                        seen == exists|j: int| 0 <= j < k && prev[j] == branch@,
                    decreases targets.len() - k,
                {
                    assert(prev[k as int] == targets@[k as int]@);
                    if str_eq(targets[k].as_str(), branch.as_str()) {
                        seen = true;
                    }
                    k = k + 1;
                }
                assert(seen == prev.contains(branch@));
                if branch.unicode_len() > 0 && !str_eq(branch.as_str(), base_branch) && !seen {
                    targets.push(branch.clone());
                    assert(targets@.map_values(|t: String| t@) =~= prev.push(branch@));
                }
            },
            None => {},
        }
        i = i + 1;
    }
    assert(branches@.take(branches@.len() as int) =~= branches@);
    targets
}

/// Every branch mapped to the same unknown state.
pub open spec fn all_unknown(entries: Seq<(String, PrState)>, branches: Seq<Seq<char>>, reason: PrUnavailableReason, message: Option<Seq<char>>, exit_code: Option<i32>) -> bool {
    &&& entry_keys(entries) == branches
    &&& forall|i: int|
        0 <= i < entries.len() ==> is_unknown_state(#[trigger] entries[i].1, reason, message, exit_code)
}

pub fn unknown_states(branches: &[String], reason: PrUnavailableReason, message: Option<&str>, exit_code: Option<i32>) -> (entries: Vec<(String, PrState)>)
    ensures
        all_unknown(
            entries@,
            branches@.map_values(|b: String| b@),
            reason,
            match message {
                Some(m) => Some(m@),
                None => None,
            },
            exit_code,
        ),
{
    let mut entries: Vec<(String, PrState)> = Vec::new();
    let mut i: usize = 0;
    assert(entry_keys(entries@) =~= branches@.map_values(|b: String| b@).take(0));
    while i < branches.len()
        invariant
            i <= branches@.len(),
            all_unknown(
                entries@,
                branches@.map_values(|b: String| b@).take(i as int),
                reason,
                match message {
                    Some(m) => Some(m@),
                    None => None,
                },
                exit_code,
            ),
        decreases branches.len() - i,
    {
        let text = match message {
            Some(m) => Some(m.to_owned()),
            None => None,
        };
        let state = PrState::unavailable(reason, text, exit_code);
        let ghost before = entries@;
        entries.push((branches[i].clone(), state));
        assert(entry_keys(entries@) =~= entry_keys(before).push(branches@[i as int]@));
        assert(branches@.map_values(|b: String| b@).take(i + 1) =~= branches@.map_values(
            |b: String| b@,
        ).take(i as int).push(branches@[i as int]@));
        i = i + 1;
    }
    assert(branches@.map_values(|b: String| b@).take(branches@.len() as int) =~= branches@.map_values(
        |b: String| b@,
    ));
    entries
}


// ----- the JSON answer -----

/// One JSON value, reduced to what the PR record check needs.
#[derive(Clone, Debug, PartialEq, Eq)]
pub enum JsonField {
    Null,
    Bool(bool),
    Number,
    Text(String),
    Array,
    Object,
}

pub enum JsonFieldView {
    Null,
    Bool(bool),
    Number,
    Text(Seq<char>),
    Array,
    Object,
}

pub open spec fn json_field_view(f: JsonField) -> JsonFieldView {
    match f {
        JsonField::Null => JsonFieldView::Null,
        JsonField::Bool(b) => JsonFieldView::Bool(b),
        JsonField::Number => JsonFieldView::Number,
        JsonField::Text(t) => JsonFieldView::Text(t@),
        JsonField::Array => JsonFieldView::Array,
        JsonField::Object => JsonFieldView::Object,
    }
}

/// A JSON object as its members, each key once.
pub type JsonRecord = Vec<(String, JsonField)>;

pub open spec fn record_view(r: Seq<(String, JsonField)>) -> Seq<(Seq<char>, JsonFieldView)> {
    r.map_values(|e: (String, JsonField)| (e.0@, json_field_view(e.1)))
}

pub open spec fn records_view(rs: Seq<JsonRecord>) -> Seq<Seq<(Seq<char>, JsonFieldView)>> {
    rs.map_values(|r: JsonRecord| record_view(r@))
}

/// What `serde_json` parses from the bytes when they hold a JSON array of objects.
pub uninterp spec fn json_object_array(raw: Seq<u8>) -> Option<Seq<Seq<(Seq<char>, JsonFieldView)>>>;

/// Parses the bytes with `serde_json::from_slice` as an array of objects (keys sorted, each
/// key once); `None` when the bytes are not JSON or not an array of objects. The result is
/// named, not stated.
#[verifier::external_body]
pub fn parse_json_object_array(raw: &[u8]) -> (records: Option<Vec<JsonRecord>>)
    ensures
        records matches Some(rs) ==> json_object_array(raw@) == Some(records_view(rs@)),
        records is None ==> json_object_array(raw@) is None,
{
    let parsed: Vec<std::collections::BTreeMap<String, serde_json::Value>> = serde_json::from_slice(raw).ok()?;
    Some(parsed.into_iter().map(|object| object.into_iter().map(|(key, value)| (key, match value {
        serde_json::Value::Null => JsonField::Null,
        serde_json::Value::Bool(flag) => JsonField::Bool(flag),
        serde_json::Value::Number(_) => JsonField::Number,
        serde_json::Value::String(text) => JsonField::Text(text),
        serde_json::Value::Array(_) => JsonField::Array,
        serde_json::Value::Object(_) => JsonField::Object,
    })).collect()).collect())
}

/// The instant an RFC 3339 timestamp denotes, in nanoseconds since the Unix epoch.
pub uninterp spec fn rfc3339_unix_nanos(text: Seq<char>) -> Option<int>;

/// `OffsetDateTime::parse(text, &Rfc3339)` followed by `unix_timestamp_nanos`; `None` when
/// the text is not an RFC 3339 timestamp. The instant is named, not stated.
#[verifier::external_body]
pub fn parse_rfc3339_nanos(text: &str) -> (nanos: Option<i128>)
    ensures
        nanos matches Some(n) ==> rfc3339_unix_nanos(text@) == Some(n as int),
        nanos is None ==> rfc3339_unix_nanos(text@) is None,
{
    time::OffsetDateTime::parse(text, &time::format_description::well_known::Rfc3339).ok().map(
        |value| value.unix_timestamp_nanos(),
    )
}

/// The value of the first member named `key`.
pub open spec fn field_of(r: Seq<(Seq<char>, JsonFieldView)>, key: Seq<char>) -> Option<JsonFieldView>
    decreases r.len(),
{
    if r.len() == 0 {
        None
    } else if r[0].0 == key {
        Some(r[0].1)
    } else {
        field_of(r.drop_first(), key)
    }
}

/// A member that is a string.
pub open spec fn text_of(r: Seq<(Seq<char>, JsonFieldView)>, key: Seq<char>) -> Option<Seq<char>> {
    match field_of(r, key) {
        Some(JsonFieldView::Text(t)) => Some(t),
        _ => None,
    }
}

/// A member that is absent, null or a string (what an optional string field accepts).
pub open spec fn optional_text_ok(r: Seq<(Seq<char>, JsonFieldView)>, key: Seq<char>) -> bool {
    match field_of(r, key) {
        None => true,
        Some(JsonFieldView::Null) => true,
        Some(JsonFieldView::Text(_)) => true,
        _ => false,
    }
}

pub open spec fn ascii_upper(s: Seq<char>) -> Seq<char> {
    s.map_values(|c: char| if 'a' <= c <= 'z' { ((c as u8) - 32) as char } else { c })
}

/// The timestamp text, parsed; absent or non-string timestamps do not parse.
pub open spec fn timestamp_of(r: Seq<(Seq<char>, JsonFieldView)>, key: Seq<char>) -> Option<int> {
    match text_of(r, key) {
        Some(t) => rfc3339_unix_nanos(t),
        None => None,
    }
}

/// A record is acceptable when it has all required members, every summary member is a
/// string or null, and the branch, state, url and timestamps are well formed.
pub open spec fn record_valid(r: Seq<(Seq<char>, JsonFieldView)>) -> bool {
    &&& field_of(r, "headRefName"@) is Some
    &&& field_of(r, "state"@) is Some
    &&& field_of(r, "mergedAt"@) is Some
    &&& field_of(r, "updatedAt"@) is Some
    &&& field_of(r, "url"@) is Some
    &&& optional_text_ok(r, "headRefOid"@)
    &&& optional_text_ok(r, "headRefName"@)
    &&& optional_text_ok(r, "state"@)
    &&& optional_text_ok(r, "mergedAt"@)
    &&& optional_text_ok(r, "updatedAt"@)
    &&& optional_text_ok(r, "url"@)
    &&& text_of(r, "headRefName"@) matches Some(b) && b.len() > 0
    &&& timestamp_of(r, "updatedAt"@) is Some
    &&& text_of(r, "state"@) matches Some(st) && (ascii_upper(st) == "OPEN"@ || ascii_upper(st)
        == "CLOSED"@ || ascii_upper(st) == "MERGED"@)
    &&& text_of(r, "url"@) matches Some(u) && u.len() > 0
    &&& match text_of(r, "mergedAt"@) {
        Some(m) => m.len() > 0 ==> rfc3339_unix_nanos(m) is Some,
        None => true,
    }
}

/// A merge timestamp wins; otherwise the (case-insensitive) state decides.
pub open spec fn record_status(r: Seq<(Seq<char>, JsonFieldView)>) -> PrStatus {
    if text_of(r, "mergedAt"@) matches Some(m) && m.len() > 0 {
        PrStatus::Merged
    } else if text_of(r, "state"@) matches Some(st) && ascii_upper(st) == "MERGED"@ {
        PrStatus::Merged
    } else if text_of(r, "state"@) matches Some(st) && ascii_upper(st) == "OPEN"@ {
        PrStatus::Open
    } else if text_of(r, "state"@) matches Some(st) && ascii_upper(st) == "CLOSED"@ {
        PrStatus::ClosedUnmerged
    } else {
        PrStatus::Unknown
    }
}

/// A non-empty string member.
pub open spec fn non_empty_text(r: Seq<(Seq<char>, JsonFieldView)>, key: Seq<char>) -> Option<Seq<char>> {
    match text_of(r, key) {
        Some(t) => if t.len() > 0 {
            Some(t)
        } else {
            None
        },
        None => None,
    }
}

/// The state a valid record reports.
pub open spec fn state_of_record(s: PrState, r: Seq<(Seq<char>, JsonFieldView)>) -> bool {
    &&& s.status == Some(record_status(r))
    &&& opt_view(s.url) == non_empty_text(r, "url"@)
    &&& opt_view(s.head_oid) == non_empty_text(r, "headRefOid"@)
    &&& s.diagnostic is None
}

/// Among the first `n` records, the index of the latest record for `branch`: the greatest
/// update time, later records winning ties.
pub open spec fn latest_record(rs: Seq<Seq<(Seq<char>, JsonFieldView)>>, branch: Seq<char>, n: int) -> Option<int>
    decreases n,
{
    if n <= 0 || n > rs.len() {
        None
    } else {
        let prev = latest_record(rs, branch, n - 1);
        if text_of(rs[n - 1], "headRefName"@) == Some(branch) && (prev is None || timestamp_of(
            rs[n - 1],
            "updatedAt"@,
        ).unwrap() >= timestamp_of(rs[prev.unwrap()], "updatedAt"@).unwrap()) {
            Some(n - 1)
        } else {
            prev
        }
    }
}

/// The answer for each asked-about branch: its latest record's state, or "no PR".
pub open spec fn states_from_records(entries: Seq<(String, PrState)>, rs: Seq<Seq<(Seq<char>, JsonFieldView)>>, branches: Seq<Seq<char>>) -> bool {
    &&& entry_keys(entries) == branches
    &&& forall|i: int|
        0 <= i < entries.len() ==> match latest_record(rs, branches[i], rs.len() as int) {
            Some(k) => state_of_record(#[trigger] entries[i].1, rs[k]),
            None => is_none_state(entries[i].1),
        }
}

fn field_in<'a>(record: &'a JsonRecord, key: &str) -> (field: Option<&'a JsonField>)
    ensures
        match field {
            Some(f) => field_of(record_view(record@), key@) == Some(json_field_view(*f)),
            None => field_of(record_view(record@), key@) is None,
        },
{
    let ghost r = record_view(record@);
    let mut i: usize = 0;
    assert(r.skip(0) =~= r);
    while i < record.len()
        invariant
            i <= record@.len(),
            r == record_view(record@),
            field_of(r, key@) == field_of(r.skip(i as int), key@),
        decreases record.len() - i,
    {
        assert(r.skip(i as int)[0] == r[i as int]);
        if str_eq(record[i].0.as_str(), key) {
            return Some(&record[i].1);
        }
        assert(r.skip(i as int).drop_first() =~= r.skip(i + 1));
        i = i + 1;
    }
    None
}

fn text_in<'a>(record: &'a JsonRecord, key: &str) -> (text: Option<&'a String>)
    ensures
        opt_view(match text {
            Some(t) => Some(*t),
            None => None,
        }) == text_of(record_view(record@), key@),
{
    match field_in(record, key) {
        Some(JsonField::Text(t)) => Some(t),
        _ => None,
    }
}

fn optional_text_valid(record: &JsonRecord, key: &str) -> (ok: bool)
    ensures
        ok == optional_text_ok(record_view(record@), key@),
{
    match field_in(record, key) {
        None => true,
        Some(JsonField::Null) => true,
        Some(JsonField::Text(_)) => true,
        _ => false,
    }
}

fn upper_ascii(text: &str) -> (upper: Vec<char>)
    ensures
        upper@ == ascii_upper(text@),
{
    let chars = chars_of(text);
    let mut out: Vec<char> = Vec::new();
    let mut i: usize = 0;
    while i < chars.len()
        invariant
            i <= chars@.len(),
            chars@ == text@,
            out@ == ascii_upper(text@.take(i as int)),
        decreases chars.len() - i,
    {
        let c = chars[i];
        let u = if 'a' <= c && c <= 'z' { ((c as u8) - 32) as char } else { c };
        out.push(u);
        assert(ascii_upper(text@.take(i + 1)) =~= ascii_upper(text@.take(i as int)).push(u));
        i = i + 1;
    }
    assert(text@.take(chars@.len() as int) =~= text@);
    out
}

fn chars_eq(a: &Vec<char>, b: &str) -> (same: bool)
    ensures
        same == (a@ == b@),
{
    let s = string_of(a);
    str_eq(s.as_str(), b)
}

fn timestamp_in(record: &JsonRecord, key: &str) -> (nanos: Option<i128>)
    ensures
        match nanos {
            Some(n) => timestamp_of(record_view(record@), key@) == Some(n as int),
            None => timestamp_of(record_view(record@), key@) is None,
        },
{
    match text_in(record, key) {
        Some(t) => parse_rfc3339_nanos(t.as_str()),
        None => None,
    }
}

fn record_is_valid(record: &JsonRecord) -> (valid: bool)
    ensures
        valid == record_valid(record_view(record@)),
{
    if field_in(record, "headRefName").is_none() || field_in(record, "state").is_none()
        || field_in(record, "mergedAt").is_none() || field_in(record, "updatedAt").is_none()
        || field_in(record, "url").is_none() {
        return false;
    }
    if !optional_text_valid(record, "headRefOid") || !optional_text_valid(record, "headRefName")
        || !optional_text_valid(record, "state") || !optional_text_valid(record, "mergedAt")
        || !optional_text_valid(record, "updatedAt") || !optional_text_valid(record, "url") {
        return false;
    }
    match text_in(record, "headRefName") {
        Some(branch) => {
            if branch.unicode_len() == 0 {
                return false;
            }
        },
        None => {
            return false;
        },
    }
    if timestamp_in(record, "updatedAt").is_none() {
        return false;
    }
    match text_in(record, "state") {
        Some(state) => {
            let upper = upper_ascii(state.as_str());
            if !chars_eq(&upper, "OPEN") && !chars_eq(&upper, "CLOSED") && !chars_eq(&upper, "MERGED") {
                return false;
            }
        },
        None => {
            return false;
        },
    }
    match text_in(record, "url") {
        Some(url) => {
            if url.unicode_len() == 0 {
                return false;
            }
        },
        None => {
            return false;
        },
    }
    match text_in(record, "mergedAt") {
        Some(merged_at) => {
            if merged_at.unicode_len() > 0 && parse_rfc3339_nanos(merged_at.as_str()).is_none() {
                return false;
            }
        },
        None => {},
    }
    true
}

fn non_empty_text_in(record: &JsonRecord, key: &str) -> (text: Option<String>)
    ensures
        opt_view(text) == non_empty_text(record_view(record@), key@),
{
    match text_in(record, key) {
        Some(t) => {
            if t.unicode_len() > 0 {
                Some(t.clone())
            } else {
                None
            }
        },
        None => None,
    }
}

/// The PR status a record reports.
pub fn pr_status(record: &JsonRecord) -> (status: PrStatus)
    ensures
        status == record_status(record_view(record@)),
{
    match text_in(record, "mergedAt") {
        Some(merged_at) => {
            if merged_at.unicode_len() > 0 {
                return PrStatus::Merged;
            }
        },
        None => {},
    }
    match text_in(record, "state") {
        Some(state) => {
            let upper = upper_ascii(state.as_str());
            if chars_eq(&upper, "MERGED") {
                PrStatus::Merged
            } else if chars_eq(&upper, "OPEN") {
                PrStatus::Open
            } else if chars_eq(&upper, "CLOSED") {
                PrStatus::ClosedUnmerged
            } else {
                PrStatus::Unknown
            }
        },
        None => PrStatus::Unknown,
    }
}

fn state_from_record(record: &JsonRecord) -> (state: PrState)
    ensures
        state_of_record(state, record_view(record@)),
{
    PrState {
        status: Some(pr_status(record)),
        url: non_empty_text_in(record, "url"),
        head_oid: non_empty_text_in(record, "headRefOid"),
        diagnostic: None,
    }
}

/// Every record is well formed.
pub open spec fn all_records_valid(rv: Seq<Seq<(Seq<char>, JsonFieldView)>>) -> bool {
    forall|k: int| 0 <= k < rv.len() ==> #[trigger] record_valid(rv[k])
}

/// The batch answer for parsed records: absent when the parse failed or a record is
/// malformed, otherwise each branch with its latest record's state or "no PR".
pub open spec fn batch_answer(result: Option<Vec<(String, PrState)>>, parsed: Option<Seq<Seq<(Seq<char>, JsonFieldView)>>>, branches: Seq<Seq<char>>) -> bool {
    match parsed {
        None => result is None,
        Some(rv) => if all_records_valid(rv) {
            result matches Some(entries) && states_from_records(entries@, rv, branches)
        } else {
            result is None
        },
    }
}

pub open spec fn parsed_view(records: Option<Vec<JsonRecord>>) -> Option<Seq<Seq<(Seq<char>, JsonFieldView)>>> {
    match records {
        Some(rs) => Some(records_view(rs@)),
        None => None,
    }
}

/// The per-branch answer from parsed records: `None` when the parse failed or any record is
/// malformed (the whole batch is then unknown); otherwise each branch gets its latest
/// record's state or "no PR".
pub fn pr_states_from_records(records: Option<Vec<JsonRecord>>, branches: &[String]) -> (result: Option<Vec<(String, PrState)>>)
    ensures
        batch_answer(result, parsed_view(records), branches@.map_values(|b: String| b@)),
{
    match records {
        Some(rs) => states_from_valid_records(&rs, branches),
        None => None,
    }
}

fn states_from_valid_records(records: &Vec<JsonRecord>, branches: &[String]) -> (result: Option<Vec<(String, PrState)>>)
    ensures
        batch_answer(result, Some(records_view(records@)), branches@.map_values(|b: String| b@)),
{
    let ghost rv = records_view(records@);
    let mut k: usize = 0;
    while k < records.len()
        invariant
            k <= records@.len(),
            rv == records_view(records@),
            forall|j: int| 0 <= j < k ==> #[trigger] record_valid(rv[j]),
        decreases records.len() - k,
    {
        assert(rv[k as int] == record_view(records@[k as int]@));
        if !record_is_valid(&records[k]) {
            assert(!record_valid(rv[k as int]));
            return None;
        }
        k = k + 1;
    }
    let ghost bv = branches@.map_values(|b: String| b@);
    let mut entries: Vec<(String, PrState)> = Vec::new();
    let mut i: usize = 0;
    assert(entry_keys(entries@) =~= bv.take(0));
    while i < branches.len()
        invariant
            i <= branches@.len(),
            rv == records_view(records@),
            bv == branches@.map_values(|b: String| b@),
            forall|j: int| 0 <= j < rv.len() ==> #[trigger] record_valid(rv[j]),
            states_from_records(entries@, rv, bv.take(i as int)),
        decreases branches.len() - i,
    {
        let branch = &branches[i];
        let mut best: Option<usize> = None;
        let mut best_time: i128 = 0;
        let mut n: usize = 0;
        while n < records.len()
            invariant
                n <= records@.len(),
                rv == records_view(records@),
                forall|j: int| 0 <= j < rv.len() ==> #[trigger] record_valid(rv[j]),
                match best {
                    Some(b) => latest_record(rv, branch@, n as int) == Some(b as int) && b < n
                        && timestamp_of(rv[b as int], "updatedAt"@) == Some(best_time as int),
                    None => latest_record(rv, branch@, n as int) is None,
                },
            decreases records.len() - n,
        {
            let record = &records[n];
            assert(record_valid(rv[n as int]));
            let matches_branch = match text_in(record, "headRefName") {
                Some(name) => str_eq(name.as_str(), branch.as_str()),
                None => false,
            };
            if matches_branch {
                let time = timestamp_in(record, "updatedAt").unwrap();
                let replace = match best {
                    None => true,
                    Some(_) => time >= best_time,
                };
                if replace {
                    best = Some(n);
                    best_time = time;
                }
            }
            n = n + 1;
        }
        let state = match best {
            Some(b) => state_from_record(&records[b]),
            None => PrState::none(),
        };
        let ghost before = entries@;
        entries.push((branch.clone(), state));
        assert(bv.take(i + 1) =~= bv.take(i as int).push(bv[i as int]));
        assert(entry_keys(entries@) =~= entry_keys(before).push(bv[i as int]));
        assert forall|j: int| 0 <= j < entries@.len() implies match latest_record(
            rv,
            bv.take(i + 1)[j],
            rv.len() as int,
        ) {
            Some(kk) => state_of_record(#[trigger] entries@[j].1, rv[kk]),
            None => is_none_state(entries@[j].1),
        } by {
            if j < i {
                assert(entries@[j] == before[j]);
                assert(bv.take(i + 1)[j] == bv.take(i as int)[j]);
            }
        }
        i = i + 1;
    }
    assert(bv.take(branches@.len() as int) =~= bv);
    Some(entries)
}

/// Parses `gh pr list --json` output into one state per branch.
pub fn parse_pr_states(raw: &[u8], branches: &[String]) -> (result: Option<Vec<(String, PrState)>>)
    ensures
        batch_answer(result, json_object_array(raw@), branches@.map_values(|b: String| b@)),
{
    let records = parse_json_object_array(raw);
    assert(parsed_view(records) == json_object_array(raw@));
    pr_states_from_records(records, branches)
}

// ----- one `gh pr list` batch -----

pub open spec fn batch_search(batch: Seq<Seq<char>>) -> Seq<char> {
    join_spec(batch.map_values(|b: Seq<char>| "head:"@ + b), " OR "@)
}

/// The arguments of `gh pr list` for one batch of branches.
pub open spec fn batch_args(base: Seq<char>, batch: Seq<Seq<char>>) -> Seq<Seq<char>> {
    seq![
        "pr"@, "list"@, "--state"@, "all"@, "--base"@, base, "--search"@, batch_search(batch),
        "--limit"@, "1000"@, "--json"@, "headRefName,headRefOid,state,mergedAt,updatedAt,url"@,
    ]
}

/// The process command for `gh` with the given arguments: run in the repository, no stdin,
/// both output streams captured, bounded by the timeout.
pub open spec fn gh_command_spec(command: ProcessCommand, repo_root: Seq<char>, args: Seq<Seq<char>>, timeout_ms: u64) -> bool {
    &&& command.program@ == "gh"@
    &&& command.args@.map_values(|a: String| a@) == args
    &&& opt_view(command.cwd) == Some(repo_root)
    &&& command.env@.len() == 0
    &&& command.inherit_env
    &&& command.stdin == StdinPolicy::Null
    &&& command.stdout == OutputPolicy::Capture
    &&& command.stderr == OutputPolicy::Capture
    &&& command.timeout_ms == Some(timeout_ms)
    &&& command.max_output_bytes == crate::process::DEFAULT_MAX_OUTPUT_BYTES
}

pub fn gh_command(repo_root: &str, args: Vec<String>, timeout_ms: u64) -> (command: ProcessCommand)
    ensures
        gh_command_spec(command, repo_root@, args@.map_values(|a: String| a@), timeout_ms),
{
    let mut command = ProcessCommand::new("gh");
    command.args = args;
    command.cwd = Some(repo_root.to_owned());
    command.stdin = StdinPolicy::Null;
    command.stdout = OutputPolicy::Capture;
    command.stderr = OutputPolicy::Capture;
    command.timeout_ms = Some(timeout_ms);
    command
}

fn push_arg(args: &mut Vec<String>, arg: &str)
    ensures
        final(args)@.map_values(|a: String| a@) == old(args)@.map_values(|a: String| a@).push(arg@),
{
    args.push(arg.to_owned());
    assert(args@.map_values(|a: String| a@) =~= old(args)@.map_values(|a: String| a@).push(arg@));
}

/// `head:<branch>` terms joined with ` OR `.
pub fn search_query(batch: &[String]) -> (search: String)
    ensures
        search@ == batch_search(batch@.map_values(|b: String| b@)),
{
    let mut terms: Vec<String> = Vec::new();
    let mut i: usize = 0;
    while i < batch.len()
        invariant
            i <= batch@.len(),
            terms@.map_values(|t: String| t@) == batch@.map_values(|b: String| b@).take(i as int).map_values(
                |b: Seq<char>| "head:"@ + b,
            ),
        decreases batch.len() - i,
    {
        let mut term = String::from_str("head:");
        term.append(batch[i].as_str());
        let ghost before = terms@.map_values(|t: String| t@);
        terms.push(term);
        assert(terms@.map_values(|t: String| t@) =~= before.push("head:"@ + batch@[i as int]@));
        assert(batch@.map_values(|b: String| b@).take(i + 1).map_values(|b: Seq<char>| "head:"@ + b)
            =~= batch@.map_values(|b: String| b@).take(i as int).map_values(|b: Seq<char>| "head:"@ + b).push(
            "head:"@ + batch@[i as int]@,
        ));
        i = i + 1;
    }
    assert(batch@.map_values(|b: String| b@).take(batch@.len() as int) =~= batch@.map_values(|b: String| b@));
    join_strings(&terms, " OR ")
}

pub fn batch_arguments(base_branch: &str, batch: &[String]) -> (args: Vec<String>)
    ensures
        args@.map_values(|a: String| a@) == batch_args(base_branch@, batch@.map_values(|b: String| b@)),
{
    let search = search_query(batch);
    let mut args: Vec<String> = Vec::new();
    assert(args@.map_values(|a: String| a@) =~= Seq::<Seq<char>>::empty());
    push_arg(&mut args, "pr");
    push_arg(&mut args, "list");
    push_arg(&mut args, "--state");
    push_arg(&mut args, "all");
    push_arg(&mut args, "--base");
    push_arg(&mut args, base_branch);
    push_arg(&mut args, "--search");
    push_arg(&mut args, search.as_str());
    push_arg(&mut args, "--limit");
    push_arg(&mut args, "1000");
    push_arg(&mut args, "--json");
    push_arg(&mut args, "headRefName,headRefOid,state,mergedAt,updatedAt,url");
    assert(args@.map_values(|a: String| a@) =~= batch_args(base_branch@, batch@.map_values(|b: String| b@)));
    args
}

/// Why a finished `gh` run that did not succeed left the states unknown.
pub open spec fn failure_reason(output: ProcessOutput) -> PrUnavailableReason {
    if output.timed_out {
        PrUnavailableReason::TimedOut
    } else if output.exit_code == Some(4i32) {
        PrUnavailableReason::AuthenticationRequired
    } else {
        PrUnavailableReason::CommandFailed
    }
}

pub open spec fn invalid_response_message() -> Seq<char> {
    "gh returned an invalid PR response"@
}

/// The states of one batch, given what running `gh` produced.
pub open spec fn batch_result_ok(outcome: Result<ProcessOutput, ProcessError>, batch: Seq<Seq<char>>, entries: Seq<(String, PrState)>) -> bool {
    match outcome {
        Err(error) => all_unknown(
            entries,
            batch,
            if error.spec_is_missing_program() {
                PrUnavailableReason::DependencyMissing
            } else {
                PrUnavailableReason::CommandFailed
            },
            Some(describe_process_error(error)),
            None,
        ),
        Ok(output) => if output.timed_out || output.exit_code != Some(0i32) {
            all_unknown(
                entries,
                batch,
                failure_reason(output),
                Some(trim_spec(utf8_lossy(output.stderr@))),
                output.exit_code,
            )
        } else {
            match json_object_array(output.stdout@) {
                Some(rv) => if all_records_valid(rv) {
                    states_from_records(entries, rv, batch)
                } else {
                    all_unknown(entries, batch, PrUnavailableReason::InvalidResponse, Some(invalid_response_message()), output.exit_code)
                },
                None => all_unknown(
                    entries,
                    batch,
                    PrUnavailableReason::InvalidResponse,
                    Some(invalid_response_message()),
                    output.exit_code,
                ),
            }
        },
    }
}

/// Turns the outcome of one `gh pr list` run into one state per branch of the batch.
pub fn batch_states(outcome: Result<ProcessOutput, ProcessError>, batch: &[String]) -> (entries: Vec<(String, PrState)>)
    ensures
        batch_result_ok(outcome, batch@.map_values(|b: String| b@), entries@),
{
    let output = match outcome {
        Ok(output) => output,
        Err(error) => {
            let reason = if error.is_missing_program() {
                PrUnavailableReason::DependencyMissing
            } else {
                PrUnavailableReason::CommandFailed
            };
            let message = error.describe();
            return unknown_states(batch, reason, Some(message.as_str()), None);
        },
    };
    let succeeded = match output.exit_code {
        Some(code) => code == 0,
        None => false,
    };
    if output.timed_out || !succeeded {
        let reason = if output.timed_out {
            PrUnavailableReason::TimedOut
        } else {
            match output.exit_code {
                Some(code) => if code == 4 {
                    PrUnavailableReason::AuthenticationRequired
                } else {
                    PrUnavailableReason::CommandFailed
                },
                None => PrUnavailableReason::CommandFailed,
            }
        };
        let stderr = utf8_lossy_string(output.stderr.as_slice());
        let trimmed = string_of(&trim_chars(&chars_of(stderr.as_str())));
        return unknown_states(batch, reason, Some(trimmed.as_str()), output.exit_code);
    }
    match parse_pr_states(output.stdout.as_slice(), batch) {
        Some(entries) => entries,
        None => unknown_states(
            batch,
            PrUnavailableReason::InvalidResponse,
            Some("gh returned an invalid PR response"),
            output.exit_code,
        ),
    }
}

// ----- the lookup -----

/// The bounds `[lo, hi)` of batch `c` among `n` targets.
pub open spec fn batch_lo(c: int) -> int {
    c * (GH_BRANCH_BATCH_SIZE as int)
}

pub open spec fn batch_hi(n: int, c: int) -> int {
    if batch_lo(c) + GH_BRANCH_BATCH_SIZE as int <= n {
        batch_lo(c) + GH_BRANCH_BATCH_SIZE as int
    } else {
        n
    }
}

/// Batch `c` of the targets was answered by some run of `gh`: its entries are what
/// `batch_result_ok` gives for that run.
pub open spec fn batch_answered(targets: Seq<Seq<char>>, entries: Seq<(String, PrState)>, c: int) -> bool {
    let lo = batch_lo(c);
    let hi = batch_hi(targets.len() as int, c);
    exists|outcome: Result<ProcessOutput, ProcessError>|
        #[trigger] batch_result_ok(outcome, targets.subrange(lo, hi), entries.subrange(lo, hi))
}

/// What `resolve_pr_states` returns: nothing without a base branch; otherwise one entry per
/// target branch, in order, all `unknown` (disabled) when the lookup is off, and each batch of
/// at most `GH_BRANCH_BATCH_SIZE` branches answered by one `gh` run when it is on.
pub open spec fn lookup_result_ok(base_branch: Option<Seq<char>>, branches: Seq<Option<String>>, enabled: bool, entries: Seq<(String, PrState)>) -> bool {
    match base_branch {
        None => entries.len() == 0,
        Some(base) => {
            let targets = target_branches_spec(branches, base);
            &&& entry_keys(entries) == targets
            &&& !enabled ==> all_unknown(entries, targets, PrUnavailableReason::Disabled, None, None)
            &&& enabled ==> forall|c: int|
                0 <= c && batch_lo(c) < targets.len() ==> #[trigger] batch_answered(targets, entries, c)
        },
    }
}

/// Batch `c` of the target branches was answered by a reply `runner` may give to the `gh`
/// command of that batch, run in `repo_root` with the client's timeout.
pub open spec fn batch_run_reported<R: ProcessRunner>(
    runner: R,
    repo_root: Seq<char>,
    base: Seq<char>,
    timeout_ms: u64,
    targets: Seq<Seq<char>>,
    entries: Seq<(String, PrState)>,
    c: int,
) -> bool {
    let lo = batch_lo(c);
    let hi = batch_hi(targets.len() as int, c);
    exists|command: ProcessCommand, outcome: Result<ProcessOutput, ProcessError>|
        #[trigger] runner.ran(command, outcome) && gh_command_spec(command, repo_root, batch_args(base, targets.subrange(lo, hi)), timeout_ms)
            && batch_result_ok(outcome, targets.subrange(lo, hi), entries.subrange(lo, hi))
}

/// With the lookup on, every batch's states are read from a reply `runner` may give to that
/// batch's `gh` command.
pub open spec fn lookup_runs_reported<R: ProcessRunner>(
    runner: R,
    repo_root: Seq<char>,
    base_branch: Option<Seq<char>>,
    branches: Seq<Option<String>>,
    enabled: bool,
    timeout_ms: u64,
    entries: Seq<(String, PrState)>,
) -> bool {
    match base_branch {
        None => true,
        Some(base) => {
            let targets = target_branches_spec(branches, base);
            enabled ==> forall|c: int|
                0 <= c && batch_lo(c) < targets.len() ==> #[trigger] batch_run_reported(runner, repo_root, base, timeout_ms, targets, entries, c)
        },
    }
}

proof fn lemma_batch_keys(outcome: Result<ProcessOutput, ProcessError>, batch: Seq<Seq<char>>, entries: Seq<(String, PrState)>)
    requires
        batch_result_ok(outcome, batch, entries),
    ensures
        entry_keys(entries) == batch,
{
}

/// How many `gh` runs a lookup of `n` branches takes: one per batch of at most
/// `GH_BRANCH_BATCH_SIZE` branches.
pub open spec fn batch_count(n: int) -> int {
    (n + GH_BRANCH_BATCH_SIZE as int - 1) / (GH_BRANCH_BATCH_SIZE as int)
}

/// The `gh` runs of a lookup, in order: none without a base branch, when the lookup is off
/// or when no branch needs a state; otherwise one `gh pr list` per batch of the target
/// branches, in the repository root, bounded by the client's timeout.
pub open spec fn lookup_commands_ok(
    repo_root: Seq<char>,
    base_branch: Option<Seq<char>>,
    branches: Seq<Option<String>>,
    enabled: bool,
    timeout_ms: u64,
    commands: Seq<ProcessCommand>,
) -> bool {
    match base_branch {
        None => commands.len() == 0,
        Some(base) => {
            let targets = target_branches_spec(branches, base);
            if !enabled || targets.len() == 0 {
                commands.len() == 0
            } else {
                &&& commands.len() == batch_count(targets.len() as int)
                &&& forall|c: int|
                    0 <= c < commands.len() ==> #[trigger] gh_command_spec(
                        commands[c],
                        repo_root,
                        batch_args(base, targets.subrange(batch_lo(c), batch_hi(targets.len() as int, c))),
                        timeout_ms,
                    )
            }
        },
    }
}

/// Looks up pull-request states through the GitHub CLI.
#[derive(Debug)]
pub struct GhCli<R> {
    runner: R,
    timeout_ms: u64,
}

impl<R: ProcessRunner> GhCli<R> {
    pub closed spec fn spec_runner(&self) -> R {
        self.runner
    }

    pub closed spec fn spec_timeout_ms(&self) -> u64 {
        self.timeout_ms
    }

    /// A client with the default timeout.
    pub fn new(runner: R) -> (client: Self)
        ensures
            client.spec_runner() == runner,
            client.spec_timeout_ms() == DEFAULT_GH_TIMEOUT_MS,
    {
        GhCli { runner, timeout_ms: DEFAULT_GH_TIMEOUT_MS }
    }

    /// A client whose `gh` runs are bounded by `timeout_ms` milliseconds.
    pub fn with_timeout(runner: R, timeout_ms: u64) -> (client: Self)
        ensures
            client.spec_runner() == runner,
            client.spec_timeout_ms() == timeout_ms,
    {
        GhCli { runner, timeout_ms }
    }

    /// The runner the client drives.
    pub fn runner(&self) -> (runner: &R)
        ensures
            *runner == self.spec_runner(),
    {
        &self.runner
    }

    /// The `gh` runs that `resolve_pr_states` makes for these arguments, in order.
    pub fn lookup_commands(&self, repo_root: &str, base_branch: Option<&str>, branches: &[Option<String>], enabled: bool) -> (commands: Vec<ProcessCommand>)
        ensures
            lookup_commands_ok(
                repo_root@,
                match base_branch {
                    Some(b) => Some(b@),
                    None => None,
                },
                branches@,
                enabled,
                self.spec_timeout_ms(),
                commands@,
            ),
    {
        let mut commands: Vec<ProcessCommand> = Vec::new();
        let base = match base_branch {
            Some(base) => base,
            None => {
                return commands;
            },
        };
        let targets = target_branches(branches, base);
        let ghost tv = targets@.map_values(|t: String| t@);
        if !enabled || targets.len() == 0 {
            return commands;
        }
        let n = targets.len();
        let mut start: usize = 0;
        while start < n
            invariant
                n == targets@.len(),
                n > 0,
                tv == targets@.map_values(|t: String| t@),
                tv == target_branches_spec(branches@, base@),
                start <= n,
                start < n ==> start == batch_lo(commands@.len() as int),
                start == n ==> commands@.len() == batch_count(n as int),
                forall|c: int|
                    0 <= c < commands@.len() ==> #[trigger] gh_command_spec(
                        commands@[c],
                        repo_root@,
                        batch_args(base@, tv.subrange(batch_lo(c), batch_hi(n as int, c))),
                        self.timeout_ms,
                    ),
            decreases n - start,
        {
            let end = if n - start > GH_BRANCH_BATCH_SIZE {
                start + GH_BRANCH_BATCH_SIZE
            } else {
                n
            };
            let ghost c0 = commands@.len() as int;
            assert(batch_hi(n as int, c0) == end);
            let mut batch: Vec<String> = Vec::new();
            let mut j: usize = start;
            while j < end
                invariant
                    start <= j <= end,
                    end <= n == targets@.len(),
                    tv == targets@.map_values(|t: String| t@),
                    batch@.map_values(|b: String| b@) == tv.subrange(start as int, j as int),
                decreases end - j,
            {
                let ghost prev = batch@.map_values(|b: String| b@);
                let item = targets[j].clone();
                assert(item@ == tv[j as int]);
                batch.push(item);
                assert(batch@.map_values(|b: String| b@) =~= prev.push(tv[j as int]));
                assert(tv.subrange(start as int, j + 1) =~= tv.subrange(start as int, j as int).push(tv[j as int]));
                j = j + 1;
            }
            let command = gh_command(repo_root, batch_arguments(base, &batch), self.timeout_ms);
            let ghost before = commands@;
            commands.push(command);
            proof {
                assert forall|c: int|
                    0 <= c < commands@.len() implies #[trigger] gh_command_spec(
                        commands@[c],
                        repo_root@,
                        batch_args(base@, tv.subrange(batch_lo(c), batch_hi(n as int, c))),
                        self.timeout_ms,
                    ) by {
                    if c < before.len() {
                        assert(commands@[c] == before[c]);
                    }
                }
            }
            start = end;
        }
        commands
    }

    /// Resolves all non-base branches. A disabled or unavailable `gh`, a failed batch and a
    /// malformed batch response are reported as `unknown`, never as a false "no PR".
    pub fn resolve_pr_states(&self, repo_root: &str, base_branch: Option<&str>, branches: &[Option<String>], enabled: bool) -> (states: PrStateMap)
        ensures
            lookup_result_ok(
                match base_branch {
                    Some(b) => Some(b@),
                    None => None,
                },
                branches@,
                enabled,
                states.entries@,
            ),
            lookup_runs_reported(
                self.spec_runner(),
                repo_root@,
                match base_branch {
                    Some(b) => Some(b@),
                    None => None,
                },
                branches@,
                enabled,
                self.spec_timeout_ms(),
                states.entries@,
            ),
    {
        let commands = self.lookup_commands(repo_root, base_branch, branches, enabled);
        let base = match base_branch {
            Some(base) => base,
            None => {
                return PrStateMap { entries: Vec::new() };
            },
        };
        let targets = target_branches(branches, base);
        let ghost tv = targets@.map_values(|t: String| t@);
        if targets.len() == 0 {
            let states = PrStateMap { entries: Vec::new() };
            assert(entry_keys(states.entries@) =~= tv);
            return states;
        }
        if !enabled {
            return PrStateMap { entries: unknown_states(&targets, PrUnavailableReason::Disabled, None, None) };
        }
        let n = targets.len();
        let mut merged: Vec<(String, PrState)> = Vec::new();
        let mut start: usize = 0;
        let mut index: usize = 0;
        assert(entry_keys(merged@) =~= tv.take(0));
        while start < n
            invariant
                commands@.len() == batch_count(n as int),
                start < n ==> start == batch_lo(index as int),
                n == targets@.len(),
                tv == targets@.map_values(|t: String| t@),
                start <= n,
                start < n ==> (start as int) % (GH_BRANCH_BATCH_SIZE as int) == 0,
                entry_keys(merged@) == tv.take(start as int),
                forall|c: int|
                    0 <= c && batch_lo(c) < start ==> #[trigger] batch_answered(tv, merged@, c),
                forall|c: int| 0 <= c && batch_lo(c) < start ==> batch_hi(n as int, c) <= start,
                forall|c: int|
                    0 <= c && batch_lo(c) < start ==> #[trigger] batch_run_reported(self.runner, repo_root@, base@, self.timeout_ms, tv, merged@, c),
                forall|c: int|
                    0 <= c < commands@.len() ==> #[trigger] gh_command_spec(
                        commands@[c],
                        repo_root@,
                        batch_args(base@, tv.subrange(batch_lo(c), batch_hi(tv.len() as int, c))),
                        self.timeout_ms,
                    ),
            decreases n - start,
        {
            let end = if n - start > GH_BRANCH_BATCH_SIZE {
                start + GH_BRANCH_BATCH_SIZE
            } else {
                n
            };
            let ghost c0 = start as int / (GH_BRANCH_BATCH_SIZE as int);
            assert(batch_lo(c0) == start);
            assert(batch_hi(n as int, c0) == end);
            let mut batch: Vec<String> = Vec::new();
            let mut j: usize = start;
            while j < end
                invariant
                    start <= j <= end,
                    end <= n == targets@.len(),
                    tv == targets@.map_values(|t: String| t@),
                    batch@.map_values(|b: String| b@) == tv.subrange(start as int, j as int),
                decreases end - j,
            {
                let ghost prev = batch@.map_values(|b: String| b@);
                let item = targets[j].clone();
                assert(item@ == tv[j as int]);
                batch.push(item);
                assert(batch@.map_values(|b: String| b@) =~= prev.push(tv[j as int]));
                assert(tv.subrange(start as int, j + 1) =~= tv.subrange(start as int, j as int).push(tv[j as int]));
                j = j + 1;
            }
            assert(index < commands@.len());
            let outcome = self.runner.run(&commands[index]);
            let ghost seen = outcome;
            assert(c0 == index as int);
            assert(self.runner.ran(commands@[index as int], seen));
            let mut entries = batch_states(outcome, &batch);
            proof {
                lemma_batch_keys(seen, tv.subrange(start as int, end as int), entries@);
            }
            let ghost before = merged@;
            let ghost added = entries@;
            merged.append(&mut entries);
            proof {
                assert(merged@.len() == end) by {
                    assert(entry_keys(before).len() == before.len());
                    assert(entry_keys(added).len() == added.len());
                }
                assert(entry_keys(merged@) =~= tv.take(end as int)) by {
                    assert(entry_keys(merged@) =~= entry_keys(before) + entry_keys(added));
                }
                assert(merged@.subrange(start as int, end as int) =~= added);
                assert(batch_result_ok(seen, tv.subrange(start as int, end as int), added));
                assert(batch_result_ok(seen, tv.subrange(batch_lo(c0), batch_hi(n as int, c0)), merged@.subrange(batch_lo(c0), batch_hi(n as int, c0))));
                assert(tv.len() == n);
                assert(batch_answered(tv, merged@, c0));
                assert(batch_run_reported(self.runner, repo_root@, base@, self.timeout_ms, tv, merged@, c0));
                assert forall|c: int| 0 <= c && batch_lo(c) < end implies #[trigger] batch_run_reported(
                    self.runner, repo_root@, base@, self.timeout_ms, tv, merged@, c) by {
                    if batch_lo(c) < start {
                        let lo = batch_lo(c);
                        let hi = batch_hi(n as int, c);
                        assert(merged@.subrange(lo, hi) =~= before.subrange(lo, hi));
                        assert(batch_run_reported(self.runner, repo_root@, base@, self.timeout_ms, tv, before, c));
                    } else {
                        assert(c == c0);
                    }
                }
                assert forall|c: int| 0 <= c && batch_lo(c) < end implies #[trigger] batch_answered(tv, merged@, c) by {
                    if batch_lo(c) < start {
                        let lo = batch_lo(c);
                        let hi = batch_hi(n as int, c);
                        assert(merged@.subrange(lo, hi) =~= before.subrange(lo, hi));
                        assert(batch_answered(tv, before, c));
                    } else {
                        assert(c == c0);
                    }
                }
            }
            start = end;
            index = index + 1;
        }
        assert(tv.take(n as int) =~= tv);
        PrStateMap { entries: merged }
    }
}

}
