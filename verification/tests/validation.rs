use maildir::error::errkind_to_str;
use maildir::DirEntry;
use maildir::Listing;
use maildir::Maildir;
use maildir::MaildirErrorKind;

fn dir(name: &str) -> DirEntry {
    DirEntry { name: name.to_string(), is_dir: true }
}

fn file(name: &str) -> DirEntry {
    DirEntry { name: name.to_string(), is_dir: false }
}

fn valid_root() -> Listing {
    Listing::Entries(vec![dir("cur"), dir("new"), dir("tmp")])
}

#[test]
fn empty_maildir_validates() {
    let m = Maildir::from_path("mb".to_string(), &valid_root()).unwrap();
    assert_eq!(m.path(), "mb");
    assert!(m.subdirs().is_none());

    let empty = Listing::Entries(vec![]);
    assert_eq!(m.count_cur_mail(&empty).unwrap(), 0);
    assert_eq!(m.count_new_mail(&empty).unwrap(), 0);
    assert_eq!(m.count_tmp_mail(&empty).unwrap(), 0);
    assert!(!m.has_cur_mail(&empty).unwrap());
    assert!(!m.has_new_mail(&empty).unwrap());
    assert!(!m.has_tmp_mail(&empty).unwrap());
}

#[test]
fn missing_tmp_reports_tmp_cause() {
    let listing = Listing::Entries(vec![dir("cur"), dir("new"), file("stray")]);
    let e = Maildir::from_path("mb".to_string(), &listing).unwrap_err();
    assert_eq!(e.kind(), MaildirErrorKind::NotAMaildirError);
    let cause = e.cause().expect("a structural cause");
    assert_eq!(cause.kind(), MaildirErrorKind::TmpDirDoesNotExist);
    assert!(cause.cause().is_none());
}

#[test]
fn missing_all_reports_cur_cause() {
    let listing = Listing::Entries(vec![]);
    let e = Maildir::from_path("mb".to_string(), &listing).unwrap_err();
    assert_eq!(e.kind(), MaildirErrorKind::NotAMaildirError);
    let cause = e.cause().expect("a structural cause");
    assert_eq!(cause.kind(), MaildirErrorKind::CurDirDoesNotExist);
    assert_ne!(cause.kind(), MaildirErrorKind::NewDirDoesNotExist);
    assert_ne!(cause.kind(), MaildirErrorKind::TmpDirDoesNotExist);
}

#[test]
fn required_names_must_be_directories() {
    let listing = Listing::Entries(vec![file("cur"), dir("new"), dir("tmp")]);
    let e = Maildir::from_path("mb".to_string(), &listing).unwrap_err();
    assert_eq!(e.kind(), MaildirErrorKind::NotAMaildirError);
    assert_eq!(e.cause().unwrap().kind(), MaildirErrorKind::CurDirDoesNotExist);
}

#[test]
fn listing_failure_is_io_error() {
    let e = Maildir::from_path("mb".to_string(), &Listing::ReadFailure).unwrap_err();
    assert_eq!(e.kind(), MaildirErrorKind::IOError);
    assert!(e.cause().is_none());
}

#[test]
fn error_constructors_and_accessors() {
    let inner = MaildirErrorKind::TmpDirDoesNotExist.into_error();
    assert_eq!(inner.kind(), MaildirErrorKind::TmpDirDoesNotExist);
    assert!(inner.cause().is_none());

    let outer = MaildirErrorKind::NotAMaildirError.into_error_with_cause(Box::new(inner));
    assert_eq!(outer.kind(), MaildirErrorKind::NotAMaildirError);
    assert_eq!(outer.cause().unwrap().kind(), MaildirErrorKind::TmpDirDoesNotExist);

    assert_eq!(errkind_to_str(&MaildirErrorKind::IOError), "IO Error");
    assert_eq!(errkind_to_str(&MaildirErrorKind::NotAMaildirError), "Not a maildir");
    assert_eq!(
        errkind_to_str(&MaildirErrorKind::CurDirDoesNotExist),
        "'cur' directory does not exist"
    );
}
