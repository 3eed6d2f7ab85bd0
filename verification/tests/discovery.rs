use maildir::DirEntry;
use maildir::Listing;
use maildir::Maildir;
use maildir::MaildirErrorKind;
use maildir::WalkEvent;

fn dir(name: &str) -> DirEntry {
    DirEntry { name: name.to_string(), is_dir: true }
}

fn valid_listing() -> Listing {
    Listing::Entries(vec![dir("cur"), dir("new"), dir("tmp")])
}

fn invalid_listing() -> Listing {
    Listing::Entries(vec![dir("cur")])
}

#[test]
fn recursive_discovery_flattens() {
    // One valid mailbox directly under the root, one three levels deep, and
    // a sibling that is no mailbox: two children, depth collapsed, the
    // non-mailbox skipped without failing the call.
    let events = vec![
        WalkEvent::Dir { path: "root/child".to_string(), listing: valid_listing() },
        WalkEvent::Dir { path: "root/other".to_string(), listing: invalid_listing() },
        WalkEvent::File { path: "root/notes.txt".to_string() },
        WalkEvent::Dir { path: "root/a/b/deep".to_string(), listing: valid_listing() },
    ];
    let m = Maildir::from_dir_recursive("root".to_string(), &valid_listing(), &events).unwrap();
    assert_eq!(m.path(), "root");
    assert!(m.has_subdirs());
    let children = m.subdirs().expect("children loaded");
    assert_eq!(children.len(), 2);
    assert_eq!(children[0].path(), "root/child");
    assert_eq!(children[1].path(), "root/a/b/deep");
    assert!(children[0].subdirs().is_none());
}

#[test]
fn invalid_root_fails_discovery() {
    let e = Maildir::from_dir_recursive("root".to_string(), &invalid_listing(), &vec![])
        .unwrap_err();
    assert_eq!(e.kind(), MaildirErrorKind::NotAMaildirError);
    assert_eq!(e.cause().unwrap().kind(), MaildirErrorKind::NewDirDoesNotExist);
}

#[test]
fn walk_fault_aborts_discovery() {
    let events = vec![
        WalkEvent::Dir { path: "root/child".to_string(), listing: valid_listing() },
        WalkEvent::Fault,
        WalkEvent::Dir { path: "root/late".to_string(), listing: valid_listing() },
    ];
    let e = Maildir::from_dir_recursive("root".to_string(), &valid_listing(), &events)
        .unwrap_err();
    assert_eq!(e.kind(), MaildirErrorKind::IOError);
}

#[test]
fn nested_read_failure_aborts_discovery() {
    let events = vec![
        WalkEvent::Dir { path: "root/child".to_string(), listing: Listing::ReadFailure },
    ];
    let e = Maildir::from_dir_recursive("root".to_string(), &valid_listing(), &events)
        .unwrap_err();
    assert_eq!(e.kind(), MaildirErrorKind::IOError);
}

#[test]
fn load_subdirs_populates_once() {
    let mut m = Maildir::from_path("root".to_string(), &valid_listing()).unwrap();
    assert!(m.subdirs().is_none());
    assert!(!m.has_subdirs());

    let events = vec![
        WalkEvent::Dir { path: "root/child".to_string(), listing: valid_listing() },
    ];
    m.load_subdirs(&events).unwrap();
    assert!(m.has_subdirs());
    assert_eq!(m.subdirs().unwrap().len(), 1);

    // Re-triggering a load is a no-op that keeps the cached children, even
    // when the walk would now say something else.
    let other_events = vec![
        WalkEvent::Dir { path: "root/x".to_string(), listing: valid_listing() },
        WalkEvent::Dir { path: "root/y".to_string(), listing: valid_listing() },
    ];
    m.load_subdirs(&other_events).unwrap();
    let children = m.subdirs().unwrap();
    assert_eq!(children.len(), 1);
    assert_eq!(children[0].path(), "root/child");
}

#[test]
fn failed_load_leaves_unloaded() {
    let mut m = Maildir::from_path("root".to_string(), &valid_listing()).unwrap();
    let events = vec![WalkEvent::Fault];
    let e = m.load_subdirs(&events).unwrap_err();
    assert_eq!(e.kind(), MaildirErrorKind::IOError);
    assert!(m.subdirs().is_none());

    // A later, clean scan still goes through.
    m.load_subdirs(&vec![]).unwrap();
    assert!(m.subdirs().is_some());
    assert!(!m.has_subdirs());
}
