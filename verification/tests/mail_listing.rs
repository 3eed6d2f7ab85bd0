use maildir::listing::scan_for_mail;
use maildir::DirEntry;
use maildir::Listing;
use maildir::Maildir;
use maildir::MaildirErrorKind;
use maildir::MailSubdir;

fn dir(name: &str) -> DirEntry {
    DirEntry { name: name.to_string(), is_dir: true }
}

fn file(name: &str) -> DirEntry {
    DirEntry { name: name.to_string(), is_dir: false }
}

fn mailbox() -> Maildir {
    let root = Listing::Entries(vec![dir("cur"), dir("new"), dir("tmp")]);
    Maildir::from_path("mb".to_string(), &root).unwrap()
}

#[test]
fn count_cur_counts_files_only() {
    // N = 3 regular files, M = 2 subdirectories: the count is N.
    let listing = Listing::Entries(vec![
        file("msg1"),
        dir("folder1"),
        file("msg2"),
        dir("folder2"),
        file("msg3"),
    ]);
    assert_eq!(mailbox().count_cur_mail(&listing).unwrap(), 3);
}

#[test]
fn hidden_files_are_excluded() {
    let listing = Listing::Entries(vec![file(".hidden"), file("msg1"), file(".cache")]);
    let m = mailbox();
    assert_eq!(m.count_new_mail(&listing).unwrap(), 1);
    let refs = m.new_mails_pathes(&listing).unwrap();
    assert_eq!(refs.len(), 1);
    assert_eq!(refs[0].path, "mb/new/msg1");
}

#[test]
fn existence_check_reads_one_entry() {
    // With a qualifying file in front, the scan stops after a single read.
    let entries = vec![file("msg1"), file("msg2"), dir("folder")];
    let (found, reads) = scan_for_mail(&entries);
    assert!(found);
    assert_eq!(reads, 1);

    // The first qualifying entry sits behind two non-qualifying ones: the
    // scan reads exactly up to it.
    let entries = vec![dir("folder"), file(".hidden"), file("msg1"), file("msg2")];
    let (found, reads) = scan_for_mail(&entries);
    assert!(found);
    assert_eq!(reads, 3);

    let listing = Listing::Entries(vec![file("msg1")]);
    assert!(mailbox().has_new_mail(&listing).unwrap());
}

#[test]
fn existence_scan_exhausts_without_mail() {
    let entries = vec![dir("folder"), file(".hidden")];
    let (found, reads) = scan_for_mail(&entries);
    assert!(!found);
    assert_eq!(reads, 2);
}

#[test]
fn mail_pathes_carry_full_paths_and_tags() {
    let listing = Listing::Entries(vec![file("a"), dir("skip"), file("b")]);
    let m = mailbox();

    let cur = m.cur_mails_pathes(&listing).unwrap();
    assert_eq!(cur.len(), 2);
    assert_eq!(cur[0].path, "mb/cur/a");
    assert_eq!(cur[1].path, "mb/cur/b");
    assert_eq!(cur[0].subdir, MailSubdir::Cur);

    let new = m.new_mails_pathes(&listing).unwrap();
    assert_eq!(new[0].path, "mb/new/a");
    assert_eq!(new[0].subdir, MailSubdir::New);

    let tmp = m.tmp_mails_pathes(&listing).unwrap();
    assert_eq!(tmp[1].path, "mb/tmp/b");
    assert_eq!(tmp[1].subdir, MailSubdir::Tmp);

    let picked = m.get_mail_pathes(MailSubdir::Cur, &listing).unwrap();
    assert_eq!(picked.len(), 2);
    assert_eq!(picked[0].path, "mb/cur/a");
}

#[test]
fn counts_match_listing_lengths() {
    let listing = Listing::Entries(vec![file("a"), file(".h"), dir("d"), file("b")]);
    let m = mailbox();
    let refs = m.cur_mails_pathes(&listing).unwrap();
    assert_eq!(m.count_cur_mail(&listing).unwrap(), refs.len());
    assert_eq!(m.has_cur_mail(&listing).unwrap(), refs.len() != 0);
}

#[test]
fn listing_failure_propagates_everywhere() {
    let m = mailbox();
    assert_eq!(m.count_tmp_mail(&Listing::ReadFailure).unwrap_err().kind(), MaildirErrorKind::IOError);
    assert_eq!(m.has_tmp_mail(&Listing::ReadFailure).unwrap_err().kind(), MaildirErrorKind::IOError);
    assert_eq!(m.tmp_mails_pathes(&Listing::ReadFailure).unwrap_err().kind(), MaildirErrorKind::IOError);
    assert_eq!(m.has_new_mail_in(&Listing::ReadFailure).unwrap_err().kind(), MaildirErrorKind::IOError);
    assert_eq!(m.count_mail_in(&Listing::ReadFailure).unwrap_err().kind(), MaildirErrorKind::IOError);
}
