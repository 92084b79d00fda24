use vde_worktree::error::ErrorCode;
use vde_worktree::staging::{
    ancestor_step, completion_parent_components, copies_entry, copy_step, next_transaction_attempt, transaction_name,
    placement_setup_step, AncestorAnswer, AncestorStep, CopyStep, NodeIdentity, NodeKind, PlacementSetup, SetupEvent,
    ValidatedEntry,
};
use vde_worktree::error::{CliError, DetailValue};

fn node(inode: u64, kind: NodeKind) -> NodeIdentity {
    NodeIdentity { device: 1, inode, kind, mode: 0o100755 }
}

#[test]
fn transaction_names_are_hexadecimal_and_attempts_are_bounded() {
    assert_eq!(transaction_name(".vde-placement-", 255, 4096, 0), ".vde-placement-ff-1000-0");
    assert_eq!(next_transaction_attempt(0, true), Some(1));
    assert_eq!(next_transaction_attempt(126, true), Some(127));
    assert_eq!(next_transaction_attempt(127, true), None);
    assert_eq!(next_transaction_attempt(3, false), None);
}

#[test]
fn copy_steps_follow_the_validated_source() {
    let file = ValidatedEntry { identity: node(7, NodeKind::File), link_target: None };
    assert_eq!(copy_step("a", "/t/a", &Some(file), node(7, NodeKind::File)).unwrap(), CopyStep::File { mode: 0o755 });
    let moved = ValidatedEntry { identity: node(7, NodeKind::File), link_target: None };
    let error = copy_step("a", "/t/a", &Some(moved), node(8, NodeKind::File)).unwrap_err();
    assert_eq!(error.message, "source entry changed before it was opened through a directory handle");
    let error = copy_step("a", "/t/a", &None, node(8, NodeKind::File)).unwrap_err();
    assert_eq!(error.message, "source entry appeared during staging");
    let link = ValidatedEntry { identity: node(9, NodeKind::Symlink), link_target: Some("../b".to_owned()) };
    assert_eq!(copy_step("l", "/t/l", &Some(link), node(9, NodeKind::Symlink)).unwrap(), CopyStep::Link("../b".to_owned()));
    let fifo = ValidatedEntry { identity: node(3, NodeKind::Other), link_target: None };
    let error = copy_step("pipe", "/t/pipe", &Some(fifo), node(3, NodeKind::Other)).unwrap_err();
    assert_eq!(error.code, ErrorCode::InvalidArgument);
    assert_eq!(error.message, "unsupported copy source type: pipe");
    assert!(copies_entry("x"));
    assert!(!copies_entry(".."));
}

#[test]
fn completion_parent_refuses_traversal_and_walks_up_missing_ancestors() {
    assert_eq!(completion_parent_components("/home/me/.zfunc").unwrap(), vec!["/".to_owned(), "home".to_owned(), "me".to_owned(), ".zfunc".to_owned()]);
    let error = completion_parent_components("/home/../etc").unwrap_err();
    assert_eq!(error.code, ErrorCode::PathOutsideRepo);
    assert!(matches!(ancestor_step("/home", true, AncestorAnswer::Missing), AncestorStep::Climb));
    assert!(matches!(ancestor_step("/home", true, AncestorAnswer::Directory), AncestorStep::Found));
    match ancestor_step("/home/file", true, AncestorAnswer::NotDirectory) {
        AncestorStep::Refuse(error) => assert_eq!(error.message, "completion directory ancestor is not a directory: /home/file"),
        other => panic!("unexpected {other:?}"),
    }
    assert!(matches!(ancestor_step("/", false, AncestorAnswer::Missing), AncestorStep::Refuse(_)));
}

#[test]
fn placement_setup_checks_identities_and_removes_what_it_created_on_failure() {
    let root = node(1, NodeKind::Directory);
    let seen = SetupEvent::RootSeen { by_path: root, by_handle: root };
    let mut stage = placement_setup_step("/t", PlacementSetup::OpenRoot, seen);
    assert!(matches!(stage, PlacementSetup::CreateDirectory { attempt: 0, .. }));
    stage = placement_setup_step("/t", stage, SetupEvent::NameTaken);
    assert!(matches!(stage, PlacementSetup::CreateDirectory { attempt: 1, .. }));
    stage = placement_setup_step("/t", stage, SetupEvent::Completed);
    assert!(matches!(stage, PlacementSetup::InspectCreated { .. }));
    stage = placement_setup_step("/t", stage, SetupEvent::DirectorySeen(node(5, NodeKind::Directory)));
    let swapped = placement_setup_step("/t", stage, SetupEvent::DirectorySeen(node(6, NodeKind::Directory)));
    match &swapped {
        PlacementSetup::Abort(error) => {
            assert_eq!(error.code, ErrorCode::PathOutsideRepo);
            assert_eq!(error.message, "placement transaction changed while its handle was opened");
        }
        other => panic!("unexpected stage {other:?}"),
    }
    match placement_setup_step("/t", swapped, SetupEvent::Removed(Some("busy".to_owned()))) {
        PlacementSetup::Done(Err(error)) => assert_eq!(
            error.details,
            vec![
                ("path".to_owned(), DetailValue::Text("/t".to_owned())),
                ("transactionCleanupFailed".to_owned(), DetailValue::Bool(true)),
                ("transactionCleanupError".to_owned(), DetailValue::Text("busy".to_owned())),
            ]
        ),
        other => panic!("unexpected stage {other:?}"),
    }

    let moved = SetupEvent::RootSeen { by_path: root, by_handle: node(2, NodeKind::Directory) };
    match placement_setup_step("/t", PlacementSetup::OpenRoot, moved) {
        PlacementSetup::Done(Err(error)) => {
            assert_eq!(error.message, "target worktree changed while its directory handle was opened")
        }
        other => panic!("unexpected stage {other:?}"),
    }
    let mut last = PlacementSetup::CreateDirectory { root, attempt: 127 };
    last = placement_setup_step("/t", last, SetupEvent::NameTaken);
    match last {
        PlacementSetup::Done(Err(error)) => assert_eq!(error.message, "failed to allocate a unique transaction directory"),
        other => panic!("unexpected stage {other:?}"),
    }
    let failed = CliError::new(ErrorCode::InternalError, "mkdir failed");
    let abort = placement_setup_step("/t", PlacementSetup::MakeBackup { root }, SetupEvent::Failed(failed));
    assert!(matches!(abort, PlacementSetup::Abort(_)));
    let mut done = PlacementSetup::Revalidate { root };
    done = placement_setup_step("/t", done, SetupEvent::RootSeen { by_path: root, by_handle: root });
    assert!(matches!(done, PlacementSetup::Done(Ok(()))));
}
