//! The decisions of the file-system transactions behind `copy`, `link` and the completion
//! installation: the names tried for a transaction directory and when to give up, what to do
//! with each source entry while staging a copy, and which directories a completion script's
//! parent needs. The file system itself is reached from outside this crate; these functions
//! say what is done with each answer it gives.

use vstd::prelude::*;

use crate::error::{plain_error, CliError, ErrorCode};
use crate::install::{is_path_changed, path_changed};
use crate::paths::{components, path_components};

verus! {

/// How many names a transaction directory is tried under before giving up.
pub const TRANSACTION_ATTEMPTS: u32 = 128;

/// The lowercase hexadecimal digit of `d`.
pub open spec fn hex_digit(d: nat) -> char {
    if d < 10 {
        (('0' as nat) + d) as char
    } else {
        (('a' as nat) + d - 10) as char
    }
}

/// `n` in lowercase hexadecimal, without leading zeros (`0` for zero).
pub open spec fn hex_spec(n: nat) -> Seq<char>
    decreases n,
{
    if n < 16 {
        seq![hex_digit(n)]
    } else {
        hex_spec(n / 16).push(hex_digit(n % 16))
    }
}

fn hex_char(d: u8) -> (c: char)
    requires
        d < 16,
    ensures
        c == hex_digit(d as nat),
{
    let c = if d < 10 {
        (0x30u8 + d) as char
    } else {
        (0x61u8 + d - 10) as char
    };
    assert(c == hex_digit(d as nat)) by {
        assert('0' as nat == 0x30);
        assert('a' as nat == 0x61);
    }
    c
}

/// Appends `n` in lowercase hexadecimal.
pub fn push_hex(out: &mut String, n: u128)
    ensures
        final(out)@ == old(out)@ + hex_spec(n as nat),
    decreases n,
{
    if n >= 16 {
        push_hex(out, n / 16);
    }
    out.push(hex_char((n % 16) as u8));
    proof {
        if n >= 16 {
            assert(hex_spec(n as nat) == hex_spec((n / 16) as nat).push(hex_digit((n % 16) as nat)));
        }
    }
}

/// The name of a transaction directory: the prefix, then the process id, the time in
/// nanoseconds and the attempt counter, in hexadecimal and separated by dashes.
pub open spec fn transaction_name_spec(prefix: Seq<char>, pid: u32, nanos: u128, counter: u64) -> Seq<char> {
    prefix + hex_spec(pid as nat) + "-"@ + hex_spec(nanos as nat) + "-"@ + hex_spec(counter as nat)
}

pub fn transaction_name(prefix: &str, pid: u32, nanos: u128, counter: u64) -> (name: String)
    ensures
        name@ == transaction_name_spec(prefix@, pid, nanos, counter),
{
    let mut name = String::from_str(prefix);
    push_hex(&mut name, pid as u128);
    name.append("-");
    push_hex(&mut name, nanos);
    name.append("-");
    push_hex(&mut name, counter as u128);
    proof {
        reveal_strlit("-");
    }
    assert(name@ =~= transaction_name_spec(prefix@, pid, nanos, counter));
    name
}

/// After attempt `attempt` (counted from 0) found its name taken, the next attempt, if any
/// is left.
pub fn next_transaction_attempt(attempt: u32, collided: bool) -> (next: Option<u32>)
    ensures
        next == (if collided && attempt + 1 < TRANSACTION_ATTEMPTS {
            Some((attempt + 1) as u32)
        } else {
            None::<u32>
        }),
{
    if collided && attempt < TRANSACTION_ATTEMPTS - 1 {
        Some(attempt + 1)
    } else {
        None
    }
}

/// The refusal when every name was taken.
pub fn transaction_names_exhausted(completion: bool) -> (error: CliError)
    ensures
        plain_error(
            error,
            ErrorCode::InternalError,
            if completion {
                "failed to allocate a unique completion transaction"@
            } else {
                "failed to allocate a unique transaction directory"@
            },
        ),
{
    if completion {
        CliError::new(ErrorCode::InternalError, "failed to allocate a unique completion transaction")
    } else {
        CliError::new(ErrorCode::InternalError, "failed to allocate a unique transaction directory")
    }
}

// ----- staging a copy -----

/// The kind of a file-system entry.
#[derive(Clone, Copy, Debug, PartialEq, Eq, Structural)]
pub enum NodeKind {
    File,
    Directory,
    Symlink,
    Other,
}

/// A file-system entry as observed: its device, inode, kind and permission bits.
#[derive(Clone, Copy, Debug, PartialEq, Eq, Structural)]
pub struct NodeIdentity {
    pub device: u64,
    pub inode: u64,
    pub kind: NodeKind,
    pub mode: u32,
}

/// A source entry as validated before staging: its identity and, for a link, its target.
#[derive(Debug)]
pub struct ValidatedEntry {
    pub identity: NodeIdentity,
    pub link_target: Option<String>,
}

/// What to stage for a source entry.
#[derive(Debug, PartialEq, Eq)]
pub enum CopyStep {
    /// Make a link with the validated target.
    Link(String),
    /// Open the file, check it, copy it and give the copy these permission bits.
    File { mode: u32 },
    /// Open the directory, check it, make the copy with these permission bits, then copy
    /// its entries other than `.` and `..`.
    Directory { mode: u32 },
}

pub open spec fn same_object(a: NodeIdentity, b: NodeIdentity) -> bool {
    a.device == b.device && a.inode == b.inode
}

/// What staging does with a source entry, observed without following links: an entry not
/// validated before, or one that is no longer the validated object of the same kind, is
/// refused as changed; a link is recreated with its validated target; a file or directory is
/// copied with its permission bits; anything else is refused.
pub open spec fn copy_step_ok(
    name: Seq<char>,
    display: Seq<char>,
    expected: Option<ValidatedEntry>,
    observed: NodeIdentity,
    step: Result<CopyStep, CliError>,
) -> bool {
    match expected {
        None => step matches Err(e) && is_path_changed(e, "source entry appeared during staging"@, display),
        Some(v) => if !same_object(observed, v.identity) || observed.kind != v.identity.kind {
            step matches Err(e) && is_path_changed(e, "source entry changed before it was opened through a directory handle"@, display)
        } else {
            match observed.kind {
                NodeKind::Symlink => match v.link_target {
                    None => step matches Err(e) && is_path_changed(e, "validated source symlink target is unavailable"@, display),
                    Some(t) => step matches Ok(CopyStep::Link(l)) && l@ == t@,
                },
                NodeKind::File => step == Ok::<CopyStep, CliError>(CopyStep::File { mode: observed.mode & 0o7777 }),
                NodeKind::Directory => step == Ok::<CopyStep, CliError>(CopyStep::Directory { mode: observed.mode & 0o7777 }),
                NodeKind::Other => step matches Err(e) && plain_error(e, ErrorCode::InvalidArgument, "unsupported copy source type: "@ + name),
            }
        },
    }
}

pub fn copy_step(name: &str, display: &str, expected: &Option<ValidatedEntry>, observed: NodeIdentity) -> (step: Result<CopyStep, CliError>)
    ensures
        copy_step_ok(name@, display@, *expected, observed, step),
{
    let validated = match expected {
        None => {
            return Err(path_changed("source entry appeared during staging", display));
        },
        Some(v) => v,
    };
    if observed.device != validated.identity.device || observed.inode != validated.identity.inode
        || observed.kind != validated.identity.kind {
        return Err(path_changed("source entry changed before it was opened through a directory handle", display));
    }
    match observed.kind {
        NodeKind::Symlink => match &validated.link_target {
            None => Err(path_changed("validated source symlink target is unavailable", display)),
            Some(target) => Ok(CopyStep::Link(target.clone())),
        },
        NodeKind::File => Ok(CopyStep::File { mode: observed.mode & 0o7777 }),
        NodeKind::Directory => Ok(CopyStep::Directory { mode: observed.mode & 0o7777 }),
        NodeKind::Other => {
            let mut message = String::from_str("unsupported copy source type: ");
            message.append(name);
            Err(CliError::new(ErrorCode::InvalidArgument, message.as_str()))
        },
    }
}

/// After the source file or directory was opened: it must still be the validated object.
pub fn opened_step(directory: bool, display: &str, expected: NodeIdentity, opened: NodeIdentity) -> (checked: Result<(), CliError>)
    ensures
        same_object(opened, expected) ==> checked is Ok,
        !same_object(opened, expected) ==> (checked matches Err(e) && is_path_changed(
            e,
            if directory {
                "opened source directory differs from its validated identity"@
            } else {
                "opened source file differs from its validated identity"@
            },
            display@,
        )),
{
    if opened.device == expected.device && opened.inode == expected.inode {
        Ok(())
    } else if directory {
        Err(path_changed("opened source directory differs from its validated identity", display))
    } else {
        Err(path_changed("opened source file differs from its validated identity", display))
    }
}

/// Whether a directory entry is copied: every name but `.` and `..`.
pub fn copies_entry(name: &str) -> (copied: bool)
    ensures
        copied == (name@ != "."@ && name@ != ".."@),
{
    proof {
        reveal_strlit(".");
        reveal_strlit("..");
    }
    !crate::text::str_eq(name, ".") && !crate::text::str_eq(name, "..")
}

// ----- setting up a placement transaction -----

/// Where setting up the transaction directory of a `copy` or `link` under a target root
/// stands. Each stage names the file-system work to do next; `Done` holds the outcome.
#[derive(Debug)]
pub enum PlacementSetup {
    /// Observe the root by its path, open a handle on it and observe the handle.
    OpenRoot,
    /// Create the transaction directory, mode 0o700, under the name of attempt `attempt`.
    CreateDirectory { root: NodeIdentity, attempt: u32 },
    /// Observe the directory just created, without following links.
    InspectCreated { root: NodeIdentity },
    /// Open the created directory through the root's handle and observe the handle.
    OpenTransaction { root: NodeIdentity, created: NodeIdentity },
    /// Create `staged`, mode 0o700, inside the transaction.
    MakeStaged { root: NodeIdentity },
    /// Create `backup`, mode 0o700, inside the transaction.
    MakeBackup { root: NodeIdentity },
    /// Open `staged` without following links.
    OpenStaged { root: NodeIdentity },
    /// Open `backup` without following links.
    OpenBackup { root: NodeIdentity },
    /// Observe the root again, by its path and through the held handle.
    Revalidate { root: NodeIdentity },
    /// Remove the transaction directory and fail with the error, reporting a failed removal.
    Abort(CliError),
    /// Remove the transaction directory, whatever comes of it, and fail with the error.
    Discard(CliError),
    Done(Result<(), CliError>),
}

/// What the file system answered to the work of a stage.
#[derive(Debug)]
pub enum SetupEvent {
    /// The root as seen by its path and through its handle.
    RootSeen { by_path: NodeIdentity, by_handle: NodeIdentity },
    /// The transaction directory as created or as opened.
    DirectorySeen(NodeIdentity),
    /// The name tried was already taken.
    NameTaken,
    Completed,
    Failed(CliError),
    /// The transaction directory was removed, or its removal failed with this message.
    Removed(Option<String>),
}

/// The same file-system object of the same kind.
pub open spec fn same_node(a: NodeIdentity, b: NodeIdentity) -> bool {
    same_object(a, b) && a.kind == b.kind
}

/// The stage after `stage` once its work answered `event`, for the target root shown as
/// `display`. Until the directory exists a failure ends the setup; after that it removes
/// the directory first. A root or directory that is no longer the object first seen is
/// refused as changed, a taken name moves to the next attempt while attempts are left, and
/// an answer that does not fit the stage changes nothing.
pub open spec fn setup_next_ok(display: Seq<char>, stage: PlacementSetup, event: SetupEvent, next: PlacementSetup) -> bool {
    match stage {
        PlacementSetup::OpenRoot => match event {
            SetupEvent::RootSeen { by_path, by_handle } => if same_node(by_handle, by_path) {
                next == PlacementSetup::CreateDirectory { root: by_path, attempt: 0 }
            } else {
                next matches PlacementSetup::Done(Err(e))
                    && is_path_changed(e, "target worktree changed while its directory handle was opened"@, display)
            },
            SetupEvent::Failed(e) => next == PlacementSetup::Done(Err(e)),
            _ => next == stage,
        },
        PlacementSetup::CreateDirectory { root, attempt } => match event {
            SetupEvent::Completed => next == PlacementSetup::InspectCreated { root },
            SetupEvent::NameTaken => if attempt + 1 < TRANSACTION_ATTEMPTS {
                next == PlacementSetup::CreateDirectory { root, attempt: (attempt + 1) as u32 }
            } else {
                next matches PlacementSetup::Done(Err(e))
                    && plain_error(e, ErrorCode::InternalError, "failed to allocate a unique transaction directory"@)
            },
            SetupEvent::Failed(e) => next == PlacementSetup::Done(Err(e)),
            _ => next == stage,
        },
        PlacementSetup::InspectCreated { root } => match event {
            SetupEvent::DirectorySeen(created) => next == PlacementSetup::OpenTransaction { root, created },
            SetupEvent::Failed(e) => next == PlacementSetup::Abort(e),
            _ => next == stage,
        },
        PlacementSetup::OpenTransaction { root, created } => match event {
            SetupEvent::DirectorySeen(opened) => if same_node(opened, created) {
                next == PlacementSetup::MakeStaged { root }
            } else {
                next matches PlacementSetup::Abort(e)
                    && is_path_changed(e, "placement transaction changed while its handle was opened"@, display)
            },
            SetupEvent::Failed(e) => next == PlacementSetup::Abort(e),
            _ => next == stage,
        },
        PlacementSetup::MakeStaged { root } => match event {
            SetupEvent::Completed => next == PlacementSetup::MakeBackup { root },
            SetupEvent::Failed(e) => next == PlacementSetup::Abort(e),
            _ => next == stage,
        },
        PlacementSetup::MakeBackup { root } => match event {
            SetupEvent::Completed => next == PlacementSetup::OpenStaged { root },
            SetupEvent::Failed(e) => next == PlacementSetup::Abort(e),
            _ => next == stage,
        },
        PlacementSetup::OpenStaged { root } => match event {
            SetupEvent::Completed => next == PlacementSetup::OpenBackup { root },
            SetupEvent::Failed(e) => next == PlacementSetup::Abort(e),
            _ => next == stage,
        },
        PlacementSetup::OpenBackup { root } => match event {
            SetupEvent::Completed => next == PlacementSetup::Revalidate { root },
            SetupEvent::Failed(e) => next == PlacementSetup::Abort(e),
            _ => next == stage,
        },
        PlacementSetup::Revalidate { root } => match event {
            SetupEvent::RootSeen { by_path, by_handle } => if same_node(by_path, root) && same_node(by_handle, root) {
                next == PlacementSetup::Done(Ok(()))
            } else {
                next matches PlacementSetup::Discard(e)
                    && is_path_changed(e, "target worktree changed during placement transaction"@, display)
            },
            SetupEvent::Failed(e) => next == PlacementSetup::Discard(e),
            _ => next == stage,
        },
        PlacementSetup::Abort(e) => match event {
            SetupEvent::Removed(None) => next == PlacementSetup::Done(Err(e)),
            SetupEvent::Removed(Some(m)) => next matches PlacementSetup::Done(Err(out))
                && crate::placement::extended(e, out, crate::placement::cleanup_entries(m@)),
            _ => next == stage,
        },
        PlacementSetup::Discard(e) => match event {
            SetupEvent::Removed(_) => next == PlacementSetup::Done(Err(e)),
            _ => next == stage,
        },
        PlacementSetup::Done(_) => next == stage,
    }
}

/// Whether the transaction directory exists at `stage`, before the setup ends or cleans up.
pub open spec fn holds_directory(stage: PlacementSetup) -> bool {
    match stage {
        PlacementSetup::InspectCreated { .. }
        | PlacementSetup::OpenTransaction { .. }
        | PlacementSetup::MakeStaged { .. }
        | PlacementSetup::MakeBackup { .. }
        | PlacementSetup::OpenStaged { .. }
        | PlacementSetup::OpenBackup { .. }
        | PlacementSetup::Revalidate { .. } => true,
        _ => false,
    }
}

/// A failure leaves nothing behind: once the transaction directory exists, a failure leads
/// to its removal with that same error; before, the setup ends with the error at once.
pub proof fn law_setup_failure_leaves_nothing(display: Seq<char>, stage: PlacementSetup, e: CliError, next: PlacementSetup)
    requires
        !(stage is Done),
        !(stage is Abort),
        !(stage is Discard),
        setup_next_ok(display, stage, SetupEvent::Failed(e), next),
    ensures
        holds_directory(stage) ==> (next == PlacementSetup::Abort(e) || next == PlacementSetup::Discard(e)),
        !holds_directory(stage) ==> next == PlacementSetup::Done(Err(e)),
{
}

fn same_node_exec(a: NodeIdentity, b: NodeIdentity) -> (same: bool)
    ensures
        same == same_node(a, b),
{
    a.device == b.device && a.inode == b.inode && a.kind == b.kind
}

/// The next stage of setting up a placement transaction under the root shown as `display`.
pub fn placement_setup_step(display: &str, stage: PlacementSetup, event: SetupEvent) -> (next: PlacementSetup)
    ensures
        setup_next_ok(display@, stage, event, next),
{
    match stage {
        PlacementSetup::OpenRoot => match event {
            SetupEvent::RootSeen { by_path, by_handle } => if same_node_exec(by_handle, by_path) {
                PlacementSetup::CreateDirectory { root: by_path, attempt: 0 }
            } else {
                PlacementSetup::Done(Err(path_changed("target worktree changed while its directory handle was opened", display)))
            },
            SetupEvent::Failed(e) => PlacementSetup::Done(Err(e)),
            _ => PlacementSetup::OpenRoot,
        },
        PlacementSetup::CreateDirectory { root, attempt } => match event {
            SetupEvent::Completed => PlacementSetup::InspectCreated { root },
            SetupEvent::NameTaken => match next_transaction_attempt(attempt, true) {
                Some(next) => PlacementSetup::CreateDirectory { root, attempt: next },
                None => PlacementSetup::Done(Err(transaction_names_exhausted(false))),
            },
            SetupEvent::Failed(e) => PlacementSetup::Done(Err(e)),
            _ => PlacementSetup::CreateDirectory { root, attempt },
        },
        PlacementSetup::InspectCreated { root } => match event {
            SetupEvent::DirectorySeen(created) => PlacementSetup::OpenTransaction { root, created },
            SetupEvent::Failed(e) => PlacementSetup::Abort(e),
            _ => PlacementSetup::InspectCreated { root },
        },
        PlacementSetup::OpenTransaction { root, created } => match event {
            SetupEvent::DirectorySeen(opened) => if same_node_exec(opened, created) {
                PlacementSetup::MakeStaged { root }
            } else {
                PlacementSetup::Abort(path_changed("placement transaction changed while its handle was opened", display))
            },
            SetupEvent::Failed(e) => PlacementSetup::Abort(e),
            _ => PlacementSetup::OpenTransaction { root, created },
        },
        PlacementSetup::MakeStaged { root } => match event {
            SetupEvent::Completed => PlacementSetup::MakeBackup { root },
            SetupEvent::Failed(e) => PlacementSetup::Abort(e),
            _ => PlacementSetup::MakeStaged { root },
        },
        PlacementSetup::MakeBackup { root } => match event {
            SetupEvent::Completed => PlacementSetup::OpenStaged { root },
            SetupEvent::Failed(e) => PlacementSetup::Abort(e),
            _ => PlacementSetup::MakeBackup { root },
        },
        PlacementSetup::OpenStaged { root } => match event {
            SetupEvent::Completed => PlacementSetup::OpenBackup { root },
            SetupEvent::Failed(e) => PlacementSetup::Abort(e),
            _ => PlacementSetup::OpenStaged { root },
        },
        PlacementSetup::OpenBackup { root } => match event {
            SetupEvent::Completed => PlacementSetup::Revalidate { root },
            SetupEvent::Failed(e) => PlacementSetup::Abort(e),
            _ => PlacementSetup::OpenBackup { root },
        },
        PlacementSetup::Revalidate { root } => match event {
            SetupEvent::RootSeen { by_path, by_handle } => if same_node_exec(by_path, root) && same_node_exec(by_handle, root) {
                PlacementSetup::Done(Ok(()))
            } else {
                PlacementSetup::Discard(path_changed("target worktree changed during placement transaction", display))
            },
            SetupEvent::Failed(e) => PlacementSetup::Discard(e),
            _ => PlacementSetup::Revalidate { root },
        },
        PlacementSetup::Abort(e) => match event {
            SetupEvent::Removed(cleanup) => PlacementSetup::Done(Err(crate::placement::attach_transaction_cleanup(e, cleanup))),
            _ => PlacementSetup::Abort(e),
        },
        PlacementSetup::Discard(e) => match event {
            SetupEvent::Removed(_) => PlacementSetup::Done(Err(e)),
            _ => PlacementSetup::Discard(e),
        },
        PlacementSetup::Done(result) => PlacementSetup::Done(result),
    }
}

// ----- the parent of a completion script -----

/// The directories from the root down to a completion script's parent, given as an absolute
/// path: a path that climbs with `..` is refused.
pub open spec fn parent_components_ok(path: Seq<char>, result: Result<Vec<String>, CliError>) -> bool {
    if components(path).contains(".."@) {
        result matches Err(e) && plain_error(e, ErrorCode::PathOutsideRepo, "completion path must not contain parent traversal"@)
    } else {
        result matches Ok(parts) && parts@.map_values(|p: String| p@) == components(path)
    }
}

pub fn completion_parent_components(path: &str) -> (result: Result<Vec<String>, CliError>)
    ensures
        parent_components_ok(path@, result),
{
    let parts = path_components(path);
    let mut i: usize = 0;
    while i < parts.len()
        invariant
            i <= parts@.len(),
            parts@.map_values(|p: String| p@) == components(path@),
            forall|j: int| 0 <= j < i ==> parts@[j]@ != ".."@,
        decreases parts.len() - i,
    {
        proof {
            reveal_strlit("..");
        }
        if crate::text::str_eq(parts[i].as_str(), "..") {
            assert(components(path@)[i as int] == ".."@);
            return Err(CliError::new(ErrorCode::PathOutsideRepo, "completion path must not contain parent traversal"));
        }
        i = i + 1;
    }
    proof {
        if components(path@).contains(".."@) {
            let j = choose|j: int| 0 <= j < components(path@).len() && components(path@)[j] == ".."@;
            assert(parts@.map_values(|p: String| p@)[j] == parts@[j]@);
        }
    }
    Ok(parts)
}

/// What an ancestor of the completion directory turned out to be.
#[derive(Debug)]
pub enum AncestorAnswer {
    Directory,
    NotDirectory,
    Missing,
    Failed(CliError),
}

/// What follows an ancestor's answer.
#[derive(Debug)]
pub enum AncestorStep {
    /// The ancestor exists: the missing directories below it are created.
    Found,
    /// The ancestor is missing: its parent is asked next.
    Climb,
    Refuse(CliError),
}

/// Walking up from the completion directory: an existing directory ends the walk; anything
/// else existing is refused; a missing entry sends the walk to its parent, and a missing
/// root is refused as having no existing ancestor.
pub open spec fn ancestor_step_ok(path: Seq<char>, has_parent: bool, answer: AncestorAnswer, step: AncestorStep) -> bool {
    match answer {
        AncestorAnswer::Directory => step is Found,
        AncestorAnswer::NotDirectory => step matches AncestorStep::Refuse(e) && plain_error(
            e,
            ErrorCode::InvalidArgument,
            "completion directory ancestor is not a directory: "@ + path,
        ),
        AncestorAnswer::Missing => if has_parent {
            step is Climb
        } else {
            step matches AncestorStep::Refuse(e) && plain_error(
                e,
                ErrorCode::InvalidArgument,
                "completion path has no existing directory ancestor"@,
            )
        },
        AncestorAnswer::Failed(e) => step == AncestorStep::Refuse(e),
    }
}

pub fn ancestor_step(path: &str, has_parent: bool, answer: AncestorAnswer) -> (step: AncestorStep)
    ensures
        ancestor_step_ok(path@, has_parent, answer, step),
{
    match answer {
        AncestorAnswer::Directory => AncestorStep::Found,
        AncestorAnswer::NotDirectory => {
            let mut message = String::from_str("completion directory ancestor is not a directory: ");
            message.append(path);
            AncestorStep::Refuse(CliError::new(ErrorCode::InvalidArgument, message.as_str()))
        },
        AncestorAnswer::Missing => if has_parent {
            AncestorStep::Climb
        } else {
            AncestorStep::Refuse(CliError::new(ErrorCode::InvalidArgument, "completion path has no existing directory ancestor"))
        },
        AncestorAnswer::Failed(error) => AncestorStep::Refuse(error),
    }
}

} // verus!
