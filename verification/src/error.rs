//! The command-line error model: stable error codes with their exit statuses, structured
//! details, and the execution report attached to errors raised during a mutation.

use vstd::prelude::*;

verus! {

/// Stable, machine-readable error codes.
#[derive(Clone, Copy, Debug, PartialEq, Eq, Structural)]
pub enum ErrorCode {
    InvalidArgument,
    InvalidConfig,
    InvalidRemoteBranchFormat,
    AbsolutePathNotAllowed,
    PathOutsideRepo,
    UnsafeFlagRequired,
    NotGitRepository,
    NotInitialized,
    UnsupportedRepositoryLayout,
    WorktreeNotFound,
    BranchAlreadyExists,
    BranchAlreadyAttached,
    BranchInUse,
    DetachedHead,
    DirtyWorktree,
    TargetPathNotEmpty,
    LockConflict,
    SafetyRejected,
    RemoteNotFound,
    RemoteBranchNotFound,
    DependencyMissing,
    RepoLockTimeout,
    HookNotFound,
    HookNotExecutable,
    HookTimeout,
    HookFailed,
    GitCommandFailed,
    StashApplyFailed,
    ChildProcessFailed,
    InternalError,
    Cancelled,
}

/// The process exit status of each error code.
pub open spec fn exit_status(code: ErrorCode) -> i32 {
    match code {
        ErrorCode::InvalidArgument | ErrorCode::InvalidConfig | ErrorCode::InvalidRemoteBranchFormat
        | ErrorCode::AbsolutePathNotAllowed | ErrorCode::PathOutsideRepo
        | ErrorCode::UnsafeFlagRequired => 2,
        ErrorCode::NotGitRepository | ErrorCode::NotInitialized | ErrorCode::UnsupportedRepositoryLayout
        | ErrorCode::BranchAlreadyExists | ErrorCode::BranchAlreadyAttached | ErrorCode::BranchInUse
        | ErrorCode::DetachedHead | ErrorCode::DirtyWorktree | ErrorCode::TargetPathNotEmpty
        | ErrorCode::LockConflict | ErrorCode::SafetyRejected => 4,
        ErrorCode::WorktreeNotFound | ErrorCode::RemoteNotFound | ErrorCode::RemoteBranchNotFound => 3,
        ErrorCode::DependencyMissing => 5,
        ErrorCode::RepoLockTimeout => 6,
        ErrorCode::HookNotFound | ErrorCode::HookNotExecutable | ErrorCode::HookTimeout
        | ErrorCode::HookFailed => 10,
        ErrorCode::GitCommandFailed | ErrorCode::StashApplyFailed => 20,
        ErrorCode::ChildProcessFailed => 21,
        ErrorCode::InternalError => 30,
        ErrorCode::Cancelled => 130,
    }
}

/// The JSON spelling of each error code.
pub open spec fn code_name(code: ErrorCode) -> Seq<char> {
    match code {
        ErrorCode::InvalidArgument => "INVALID_ARGUMENT"@,
        ErrorCode::InvalidConfig => "INVALID_CONFIG"@,
        ErrorCode::InvalidRemoteBranchFormat => "INVALID_REMOTE_BRANCH_FORMAT"@,
        ErrorCode::AbsolutePathNotAllowed => "ABSOLUTE_PATH_NOT_ALLOWED"@,
        ErrorCode::PathOutsideRepo => "PATH_OUTSIDE_REPO"@,
        ErrorCode::UnsafeFlagRequired => "UNSAFE_FLAG_REQUIRED"@,
        ErrorCode::NotGitRepository => "NOT_GIT_REPOSITORY"@,
        ErrorCode::NotInitialized => "NOT_INITIALIZED"@,
        ErrorCode::UnsupportedRepositoryLayout => "UNSUPPORTED_REPOSITORY_LAYOUT"@,
        ErrorCode::WorktreeNotFound => "WORKTREE_NOT_FOUND"@,
        ErrorCode::BranchAlreadyExists => "BRANCH_ALREADY_EXISTS"@,
        ErrorCode::BranchAlreadyAttached => "BRANCH_ALREADY_ATTACHED"@,
        ErrorCode::BranchInUse => "BRANCH_IN_USE"@,
        ErrorCode::DetachedHead => "DETACHED_HEAD"@,
        ErrorCode::DirtyWorktree => "DIRTY_WORKTREE"@,
        ErrorCode::TargetPathNotEmpty => "TARGET_PATH_NOT_EMPTY"@,
        ErrorCode::LockConflict => "LOCK_CONFLICT"@,
        ErrorCode::SafetyRejected => "SAFETY_REJECTED"@,
        ErrorCode::RemoteNotFound => "REMOTE_NOT_FOUND"@,
        ErrorCode::RemoteBranchNotFound => "REMOTE_BRANCH_NOT_FOUND"@,
        ErrorCode::DependencyMissing => "DEPENDENCY_MISSING"@,
        ErrorCode::RepoLockTimeout => "REPO_LOCK_TIMEOUT"@,
        ErrorCode::HookNotFound => "HOOK_NOT_FOUND"@,
        ErrorCode::HookNotExecutable => "HOOK_NOT_EXECUTABLE"@,
        ErrorCode::HookTimeout => "HOOK_TIMEOUT"@,
        ErrorCode::HookFailed => "HOOK_FAILED"@,
        ErrorCode::GitCommandFailed => "GIT_COMMAND_FAILED"@,
        ErrorCode::StashApplyFailed => "STASH_APPLY_FAILED"@,
        ErrorCode::ChildProcessFailed => "CHILD_PROCESS_FAILED"@,
        ErrorCode::InternalError => "INTERNAL_ERROR"@,
        ErrorCode::Cancelled => "CANCELLED"@,
    }
}

impl ErrorCode {
    pub fn exit_code(&self) -> (status: i32)
        ensures
            status == exit_status(*self),
    {
        match self {
            ErrorCode::InvalidArgument | ErrorCode::InvalidConfig | ErrorCode::InvalidRemoteBranchFormat
            | ErrorCode::AbsolutePathNotAllowed | ErrorCode::PathOutsideRepo
            | ErrorCode::UnsafeFlagRequired => 2,
            ErrorCode::NotGitRepository | ErrorCode::NotInitialized
            | ErrorCode::UnsupportedRepositoryLayout | ErrorCode::BranchAlreadyExists
            | ErrorCode::BranchAlreadyAttached | ErrorCode::BranchInUse | ErrorCode::DetachedHead
            | ErrorCode::DirtyWorktree | ErrorCode::TargetPathNotEmpty | ErrorCode::LockConflict
            | ErrorCode::SafetyRejected => 4,
            ErrorCode::WorktreeNotFound | ErrorCode::RemoteNotFound
            | ErrorCode::RemoteBranchNotFound => 3,
            ErrorCode::DependencyMissing => 5,
            ErrorCode::RepoLockTimeout => 6,
            ErrorCode::HookNotFound | ErrorCode::HookNotExecutable | ErrorCode::HookTimeout
            | ErrorCode::HookFailed => 10,
            ErrorCode::GitCommandFailed | ErrorCode::StashApplyFailed => 20,
            ErrorCode::ChildProcessFailed => 21,
            ErrorCode::InternalError => 30,
            ErrorCode::Cancelled => 130,
        }
    }

    /// The JSON spelling, such as `GIT_COMMAND_FAILED`.
    pub fn as_str(&self) -> (name: &'static str)
        ensures
            name@ == code_name(*self),
    {
        match self {
            ErrorCode::InvalidArgument => "INVALID_ARGUMENT",
            ErrorCode::InvalidConfig => "INVALID_CONFIG",
            ErrorCode::InvalidRemoteBranchFormat => "INVALID_REMOTE_BRANCH_FORMAT",
            ErrorCode::AbsolutePathNotAllowed => "ABSOLUTE_PATH_NOT_ALLOWED",
            ErrorCode::PathOutsideRepo => "PATH_OUTSIDE_REPO",
            ErrorCode::UnsafeFlagRequired => "UNSAFE_FLAG_REQUIRED",
            ErrorCode::NotGitRepository => "NOT_GIT_REPOSITORY",
            ErrorCode::NotInitialized => "NOT_INITIALIZED",
            ErrorCode::UnsupportedRepositoryLayout => "UNSUPPORTED_REPOSITORY_LAYOUT",
            ErrorCode::WorktreeNotFound => "WORKTREE_NOT_FOUND",
            ErrorCode::BranchAlreadyExists => "BRANCH_ALREADY_EXISTS",
            ErrorCode::BranchAlreadyAttached => "BRANCH_ALREADY_ATTACHED",
            ErrorCode::BranchInUse => "BRANCH_IN_USE",
            ErrorCode::DetachedHead => "DETACHED_HEAD",
            ErrorCode::DirtyWorktree => "DIRTY_WORKTREE",
            ErrorCode::TargetPathNotEmpty => "TARGET_PATH_NOT_EMPTY",
            ErrorCode::LockConflict => "LOCK_CONFLICT",
            ErrorCode::SafetyRejected => "SAFETY_REJECTED",
            ErrorCode::RemoteNotFound => "REMOTE_NOT_FOUND",
            ErrorCode::RemoteBranchNotFound => "REMOTE_BRANCH_NOT_FOUND",
            ErrorCode::DependencyMissing => "DEPENDENCY_MISSING",
            ErrorCode::RepoLockTimeout => "REPO_LOCK_TIMEOUT",
            ErrorCode::HookNotFound => "HOOK_NOT_FOUND",
            ErrorCode::HookNotExecutable => "HOOK_NOT_EXECUTABLE",
            ErrorCode::HookTimeout => "HOOK_TIMEOUT",
            ErrorCode::HookFailed => "HOOK_FAILED",
            ErrorCode::GitCommandFailed => "GIT_COMMAND_FAILED",
            ErrorCode::StashApplyFailed => "STASH_APPLY_FAILED",
            ErrorCode::ChildProcessFailed => "CHILD_PROCESS_FAILED",
            ErrorCode::InternalError => "INTERNAL_ERROR",
            ErrorCode::Cancelled => "CANCELLED",
        }
    }
}

/// A JSON-shaped detail value.
#[derive(Debug, PartialEq, Eq)]
pub enum DetailValue {
    Null,
    Bool(bool),
    Int(i64),
    Text(String),
    List(Vec<DetailValue>),
    Object(Vec<(String, DetailValue)>),
}

/// The value stored under `key`: the first entry with that key.
pub open spec fn detail_of(details: Seq<(String, DetailValue)>, key: Seq<char>) -> Option<DetailValue>
    decreases details.len(),
{
    if details.len() == 0 {
        None
    } else if details[0].0@ == key {
        Some(details[0].1)
    } else {
        detail_of(details.drop_first(), key)
    }
}

pub open spec fn detail_keys(details: Seq<(String, DetailValue)>) -> Seq<Seq<char>> {
    details.map_values(|e: (String, DetailValue)| e.0@)
}

/// Each key occurs once.
pub open spec fn keys_unique(details: Seq<(String, DetailValue)>) -> bool {
    forall|i: int, j: int|
        0 <= i < j < details.len() ==> #[trigger] details[i].0@ != #[trigger] details[j].0@
}

/// Where in a mutation an error was raised.
#[derive(Clone, Copy, Debug, PartialEq, Eq, Structural)]
pub enum ExecutionPhase {
    Preflight,
    PreHook,
    Apply,
    Finalize,
    PostHook,
    Process,
}

/// What the error left behind.
#[derive(Clone, Copy, Debug, PartialEq, Eq, Structural)]
pub enum ExecutionState {
    NotStarted,
    Unknown,
    Applied,
    RolledBack,
    RecoveryRequired,
}

/// The execution report of an error raised during a mutation.
#[derive(Debug, PartialEq, Eq)]
pub struct ExecutionReport {
    pub phase: ExecutionPhase,
    pub state: ExecutionState,
    pub completed: Vec<String>,
    pub recovery: Vec<(String, DetailValue)>,
}

/// An error as the command line reports it.
#[derive(Debug, PartialEq, Eq)]
pub struct CliError {
    pub code: ErrorCode,
    pub message: String,
    pub details: Vec<(String, DetailValue)>,
    pub execution: Option<ExecutionReport>,
}

/// An error with the given code and message and nothing else.
pub open spec fn plain_error(error: CliError, code: ErrorCode, message: Seq<char>) -> bool {
    &&& error.code == code
    &&& error.message@ == message
    &&& error.details@.len() == 0
    &&& error.execution is None
}

impl CliError {
    pub fn new(code: ErrorCode, message: &str) -> (error: Self)
        ensures
            plain_error(error, code, message@),
    {
        CliError { code, message: message.to_owned(), details: Vec::new(), execution: None }
    }

    pub fn exit_code(&self) -> (status: i32)
        ensures
            status == exit_status(self.code),
    {
        self.code.exit_code()
    }

    /// The detail stored under `key`, if any.
    pub fn detail(&self, key: &str) -> (value: Option<&DetailValue>)
        ensures
            match value {
                Some(v) => detail_of(self.details@, key@) == Some(*v),
                None => detail_of(self.details@, key@) is None,
            },
    {
        let ghost d = self.details@;
        let mut i: usize = 0;
        assert(d.skip(0) =~= d);
        while i < self.details.len()
            invariant
                i <= d.len(),
                d == self.details@,
                detail_of(d, key@) == detail_of(d.skip(i as int), key@),
            decreases self.details.len() - i,
        {
            assert(d.skip(i as int)[0] == d[i as int]);
            if crate::text::str_eq(self.details[i].0.as_str(), key) {
                return Some(&self.details[i].1);
            }
            assert(d.skip(i as int).drop_first() =~= d.skip(i + 1));
            i = i + 1;
        }
        None
    }

    /// Stores `value` under `key`, replacing an earlier value for that key.
    pub fn insert_detail(&mut self, key: &str, value: DetailValue)
        ensures
            detail_of(final(self).details@, key@) == Some(value),
            forall|k: Seq<char>| k != key@ ==> detail_of(final(self).details@, k) == detail_of(old(self).details@, k),
            final(self).code == old(self).code,
            final(self).message == old(self).message,
            final(self).execution == old(self).execution,
            keys_unique(old(self).details@) ==> keys_unique(final(self).details@),
    {
        insert_entry(&mut self.details, key, value);
    }

}

/// Sets `key` to `value` in an entry list: the existing entry is replaced in place, or a new
/// entry is appended.
pub fn insert_entry(entries: &mut Vec<(String, DetailValue)>, key: &str, value: DetailValue)
    ensures
        detail_of(final(entries)@, key@) == Some(value),
        forall|k: Seq<char>| k != key@ ==> detail_of(final(entries)@, k) == detail_of(old(entries)@, k),
        keys_unique(old(entries)@) ==> keys_unique(final(entries)@),
        object_view(final(entries)@) == view_insert(object_view(old(entries)@), key@, detail_view(value)),
        detail_keys(final(entries)@) == if detail_keys(old(entries)@).contains(key@) {
            detail_keys(old(entries)@)
        } else {
            detail_keys(old(entries)@).push(key@)
        },
{
    let ghost d = entries@;
    let mut i: usize = 0;
    while i < entries.len()
        invariant
            i <= d.len(),
            d == entries@,
            d == old(entries)@,
            forall|j: int| 0 <= j < i ==> d[j].0@ != key@,
        decreases entries.len() - i,
    {
        if crate::text::str_eq(entries[i].0.as_str(), key) {
            let entry = (key.to_owned(), value);
            proof {
                lemma_view_insert_update(d, i as int, entry);
                lemma_detail_of_update(d, i as int, entry);
                assert(detail_keys(d)[i as int] == key@);
                assert(detail_keys(d.update(i as int, entry)) =~= detail_keys(d));
            }
            entries.set(i, entry);
            return;
        }
        i = i + 1;
    }
    let entry = (key.to_owned(), value);
    proof {
        lemma_view_insert_push(d, entry);
        lemma_detail_of_push_new(d, entry);
        assert(detail_keys(d.push(entry)) =~= detail_keys(d).push(key@));
        if detail_keys(d).contains(key@) {
            let j = choose|j: int| 0 <= j < detail_keys(d).len() && detail_keys(d)[j] == key@;
            assert(d[j].0@ == key@);
        }
    }
    entries.push(entry);
}

proof fn lemma_detail_of_update(d: Seq<(String, DetailValue)>, i: int, e: (String, DetailValue))
    requires
        0 <= i < d.len(),
        d[i].0@ == e.0@,
        forall|j: int| 0 <= j < i ==> d[j].0@ != e.0@,
    ensures
        detail_of(d.update(i, e), e.0@) == Some(e.1),
        forall|k: Seq<char>| k != e.0@ ==> detail_of(d.update(i, e), k) == detail_of(d, k),
        keys_unique(d) ==> keys_unique(d.update(i, e)),
    decreases i,
{
    let u = d.update(i, e);
    if i > 0 {
        assert(u.drop_first() =~= d.drop_first().update(i - 1, e));
        lemma_detail_of_update(d.drop_first(), i - 1, e);
    } else {
        assert(u.drop_first() =~= d.drop_first());
    }
    assert forall|k: Seq<char>| k != e.0@ implies detail_of(u, k) == detail_of(d, k) by {
        if i > 0 {
            assert(u[0] == d[0]);
            assert(detail_of(u.drop_first(), k) == detail_of(d.drop_first(), k));
        } else {
            assert(u[0] == e);
            assert(d[0].0@ != k);
            assert(u.drop_first() =~= d.drop_first());
        }
    }
    assert forall|a: int, b: int| keys_unique(d) && 0 <= a < b < u.len() implies #[trigger] u[a].0@ != #[trigger] u[b].0@ by {
        assert(u[a].0@ == d[a].0@);
        assert(u[b].0@ == d[b].0@);
    }
}

proof fn lemma_detail_of_push_new(d: Seq<(String, DetailValue)>, e: (String, DetailValue))
    requires
        forall|j: int| 0 <= j < d.len() ==> d[j].0@ != e.0@,
    ensures
        detail_of(d.push(e), e.0@) == Some(e.1),
        forall|k: Seq<char>| k != e.0@ ==> detail_of(d.push(e), k) == detail_of(d, k),
        keys_unique(d) ==> keys_unique(d.push(e)),
    decreases d.len(),
{
    let p = d.push(e);
    if d.len() > 0 {
        assert(p.drop_first() =~= d.drop_first().push(e));
        lemma_detail_of_push_new(d.drop_first(), e);
    } else {
        assert(p.drop_first() =~= d);
    }
    assert forall|k: Seq<char>| k != e.0@ implies detail_of(p, k) == detail_of(d, k) by {
        if d.len() > 0 {
            assert(p[0] == d[0]);
            assert(detail_of(p.drop_first(), k) == detail_of(d.drop_first(), k));
        } else {
            assert(p[0] == e);
            assert(p.drop_first().len() == 0);
            assert(detail_of(p.drop_first(), k) is None);
        }
    }
    assert forall|a: int, b: int| keys_unique(d) && 0 <= a < b < p.len() implies #[trigger] p[a].0@ != #[trigger] p[b].0@ by {
        if b == d.len() {
            assert(p[a] == d[a]);
        } else {
            assert(p[a] == d[a]);
            assert(p[b] == d[b]);
        }
    }
}

/// A detail value with its texts as character sequences.
pub enum DetailView {
    Null,
    Bool(bool),
    Int(i64),
    Text(Seq<char>),
    List(Seq<DetailView>),
    Object(Seq<(Seq<char>, DetailView)>),
}

pub open spec fn detail_view(v: DetailValue) -> DetailView
    decreases v,
{
    match v {
        DetailValue::Null => DetailView::Null,
        DetailValue::Bool(b) => DetailView::Bool(b),
        DetailValue::Int(n) => DetailView::Int(n),
        DetailValue::Text(t) => DetailView::Text(t@),
        DetailValue::List(items) => DetailView::List(list_view(items@)),
        DetailValue::Object(entries) => DetailView::Object(object_view(entries@)),
    }
}

pub open spec fn list_view(items: Seq<DetailValue>) -> Seq<DetailView>
    decreases items,
{
    if items.len() == 0 {
        Seq::empty()
    } else {
        seq![detail_view(items[0])] + list_view(items.drop_first())
    }
}

pub open spec fn object_view(entries: Seq<(String, DetailValue)>) -> Seq<(Seq<char>, DetailView)>
    decreases entries,
{
    if entries.len() == 0 {
        Seq::empty()
    } else {
        seq![(entries[0].0@, detail_view(entries[0].1))] + object_view(entries.drop_first())
    }
}

pub proof fn lemma_list_view_push(s: Seq<DetailValue>, x: DetailValue)
    ensures
        list_view(s.push(x)) == list_view(s).push(detail_view(x)),
    decreases s.len(),
{
    if s.len() == 0 {
        assert(s.push(x).drop_first() =~= s);
        assert(list_view(s.push(x)) =~= list_view(s).push(detail_view(x)));
    } else {
        assert(s.push(x).drop_first() =~= s.drop_first().push(x));
        lemma_list_view_push(s.drop_first(), x);
        assert(list_view(s.push(x)) =~= list_view(s).push(detail_view(x)));
    }
}

pub proof fn lemma_object_view_push(s: Seq<(String, DetailValue)>, x: (String, DetailValue))
    ensures
        object_view(s.push(x)) == object_view(s).push((x.0@, detail_view(x.1))),
    decreases s.len(),
{
    if s.len() == 0 {
        assert(s.push(x).drop_first() =~= s);
        assert(object_view(s.push(x)) =~= object_view(s).push((x.0@, detail_view(x.1))));
    } else {
        assert(s.push(x).drop_first() =~= s.drop_first().push(x));
        lemma_object_view_push(s.drop_first(), x);
        assert(object_view(s.push(x)) =~= object_view(s).push((x.0@, detail_view(x.1))));
    }
}

/// A deep copy of a detail value.
pub fn copy_detail(v: &DetailValue) -> (c: DetailValue)
    ensures
        detail_view(c) == detail_view(*v),
    decreases v,
{
    match v {
        DetailValue::Null => DetailValue::Null,
        DetailValue::Bool(b) => DetailValue::Bool(*b),
        DetailValue::Int(n) => DetailValue::Int(*n),
        DetailValue::Text(t) => DetailValue::Text(t.clone()),
        DetailValue::List(items) => {
            let mut out: Vec<DetailValue> = Vec::new();
            let mut i: usize = 0;
            assert(list_view(out@) =~= list_view(items@.take(0)));
            while i < items.len()
                invariant
                    i <= items@.len(),
                    *v == DetailValue::List(*items),
                    list_view(out@) == list_view(items@.take(i as int)),
                decreases items.len() - i,
            {
                proof {
                    vstd::std_specs::vec::axiom_vec_index_decreases(*items, i as int);
                    assert(decreases_to!(*v => (*v)->List_0));
                }
                let item = copy_detail(&items[i]);
                proof {
                    lemma_list_view_push(out@, item);
                    lemma_list_view_push(items@.take(i as int), items@[i as int]);
                    assert(items@.take(i + 1) =~= items@.take(i as int).push(items@[i as int]));
                }
                out.push(item);
                i = i + 1;
            }
            assert(items@.take(items@.len() as int) =~= items@);
            DetailValue::List(out)
        },
        DetailValue::Object(entries) => {
            let mut out: Vec<(String, DetailValue)> = Vec::new();
            let mut i: usize = 0;
            assert(object_view(out@) =~= object_view(entries@.take(0)));
            while i < entries.len()
                invariant
                    i <= entries@.len(),
                    *v == DetailValue::Object(*entries),
                    object_view(out@) == object_view(entries@.take(i as int)),
                decreases entries.len() - i,
            {
                proof {
                    vstd::std_specs::vec::axiom_vec_index_decreases(*entries, i as int);
                    assert(decreases_to!(*v => (*v)->Object_0));
                    assert(decreases_to!(entries@[i as int] => entries@[i as int].1));
                }
                let value = copy_detail(&entries[i].1);
                let key = entries[i].0.clone();
                let entry = (key, value);
                proof {
                    lemma_object_view_push(out@, entry);
                    lemma_object_view_push(entries@.take(i as int), entries@[i as int]);
                    assert(entries@.take(i + 1) =~= entries@.take(i as int).push(entries@[i as int]));
                }
                out.push(entry);
                i = i + 1;
            }
            assert(entries@.take(entries@.len() as int) =~= entries@);
            DetailValue::Object(out)
        },
    }
}

/// The entry list with `key` set to `value`: the first entry for `key` replaced in place, or
/// a new entry appended.
pub open spec fn view_insert(d: Seq<(Seq<char>, DetailView)>, key: Seq<char>, value: DetailView) -> Seq<(Seq<char>, DetailView)>
    decreases d.len(),
{
    if d.len() == 0 {
        seq![(key, value)]
    } else if d[0].0 == key {
        d.update(0, (key, value))
    } else {
        seq![d[0]] + view_insert(d.drop_first(), key, value)
    }
}

pub proof fn lemma_object_view_index(d: Seq<(String, DetailValue)>)
    ensures
        object_view(d).len() == d.len(),
        forall|j: int| 0 <= j < d.len() ==> #[trigger] object_view(d)[j] == (d[j].0@, detail_view(d[j].1)),
    decreases d.len(),
{
    if d.len() > 0 {
        lemma_object_view_index(d.drop_first());
        assert forall|j: int| 0 <= j < d.len() implies #[trigger] object_view(d)[j] == (d[j].0@, detail_view(d[j].1)) by {
            if j > 0 {
                assert(object_view(d)[j] == object_view(d.drop_first())[j - 1]);
            }
        }
    }
}

proof fn lemma_view_insert_update(d: Seq<(String, DetailValue)>, i: int, e: (String, DetailValue))
    requires
        0 <= i < d.len(),
        d[i].0@ == e.0@,
        forall|j: int| 0 <= j < i ==> d[j].0@ != e.0@,
    ensures
        object_view(d.update(i, e)) == view_insert(object_view(d), e.0@, detail_view(e.1)),
    decreases i,
{
    lemma_object_view_index(d);
    lemma_object_view_index(d.update(i, e));
    if i == 0 {
        assert(object_view(d.update(i, e)) =~= view_insert(object_view(d), e.0@, detail_view(e.1)));
    } else {
        lemma_view_insert_update(d.drop_first(), i - 1, e);
        assert(d.update(i, e).drop_first() =~= d.drop_first().update(i - 1, e));
        assert(object_view(d).drop_first() == object_view(d.drop_first()));
        assert(object_view(d.update(i, e)) =~= view_insert(object_view(d), e.0@, detail_view(e.1)));
    }
}

proof fn lemma_view_insert_push(d: Seq<(String, DetailValue)>, e: (String, DetailValue))
    requires
        forall|j: int| 0 <= j < d.len() ==> d[j].0@ != e.0@,
    ensures
        object_view(d.push(e)) == view_insert(object_view(d), e.0@, detail_view(e.1)),
    decreases d.len(),
{
    lemma_object_view_push(d, e);
    lemma_object_view_index(d);
    if d.len() > 0 {
        lemma_view_insert_push(d.drop_first(), e);
        lemma_object_view_push(d.drop_first(), e);
        assert(object_view(d).drop_first() == object_view(d.drop_first()));
        assert(object_view(d.push(e)) =~= view_insert(object_view(d), e.0@, detail_view(e.1)));
    } else {
        assert(object_view(d.push(e)) =~= view_insert(object_view(d), e.0@, detail_view(e.1)));
    }
}

} // verus!
