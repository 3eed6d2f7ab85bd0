//! The maildir type itself: validation of one directory, recursive discovery
//! of nested mailboxes, and the per-subdirectory mail listing engine.

use vstd::prelude::*;

use crate::error::MaildirError;
use crate::error::MaildirErrorKind;
use crate::listing::DirEntry;
use crate::listing::Listing;
use crate::listing::MailReference;
use crate::listing::MailSubdir;
use crate::listing::WalkEvent;
use crate::listing::contains_dir_named;
use crate::listing::count_qualifying;
use crate::listing::entry_qualifies;
use crate::listing::has_qualifying;
use crate::listing::lemma_contains_push;
use crate::listing::mail_path;
use crate::listing::qualifying_paths;
use crate::listing::ref_paths;
use crate::listing::scan_for_mail;
use crate::listing::subdir_name;

verus! {

/// The child-mailbox slot of a maildir: never scanned yet, or scanned once
/// with the result cached (possibly empty).
#[derive(Debug)]
pub enum Subdirs {
    Unloaded,
    Loaded(Vec<Maildir>),
}

/// One validated maildir: a directory that, at validation time, held direct
/// child directories named `cur`, `new` and `tmp`.
#[derive(Debug)]
pub struct Maildir {
    path: String,
    subdirs: Subdirs,
}

/// What validating one directory listing yields: a maildir, the first missing
/// required subdirectory in the order cur, new, tmp, or a filesystem failure.
pub enum Validation {
    Valid,
    MissingCur,
    MissingNew,
    MissingTmp,
    ReadFailed,
}

/// The outcome that the maildir convention assigns to one directory listing:
/// `cur`, `new` and `tmp` must exist as direct child directories, checked in
/// that fixed order, first missing name wins.
pub open spec fn validation_of_entries(es: Seq<DirEntry>) -> Validation {
    if !contains_dir_named(es, "cur"@) {
        Validation::MissingCur
    } else if !contains_dir_named(es, "new"@) {
        Validation::MissingNew
    } else if !contains_dir_named(es, "tmp"@) {
        Validation::MissingTmp
    } else {
        Validation::Valid
    }
}

pub open spec fn validation_of(l: Listing) -> Validation {
    match l {
        Listing::ReadFailure => Validation::ReadFailed,
        Listing::Entries(es) => validation_of_entries(es@),
    }
}

/// First-checked-wins: a directory with no `cur` subdirectory reports the
/// missing `cur`, whatever else is missing too.
pub proof fn lemma_first_missing_wins(es: Seq<DirEntry>)
    requires
        !contains_dir_named(es, "cur"@),
    ensures
        validation_of_entries(es) == Validation::MissingCur,
{
}

/// A directory validates exactly when `cur`, `new` and `tmp` are all present
/// as directories among its entries.
pub proof fn lemma_valid_iff_all_present(es: Seq<DirEntry>)
    ensures
        validation_of_entries(es) == Validation::Valid <==> contains_dir_named(es, "cur"@)
            && contains_dir_named(es, "new"@) && contains_dir_named(es, "tmp"@),
{
}

/// Whether a result is the structural failure that reports the given missing
/// subdirectory: a not-a-maildir error whose chained cause carries the
/// missing-directory kind.
pub open spec fn is_structural_failure(
    r: Result<Maildir, MaildirError>,
    cause_kind: MaildirErrorKind,
) -> bool {
    &&& r matches Err(e)
    &&& e.kind_of() == MaildirErrorKind::NotAMaildirError
    &&& e.cause_of() matches Some(c) && c.kind_of() == cause_kind && c.cause_of() is None
}

/// Whether a result is a filesystem failure.
pub open spec fn is_io_failure(r: Result<Maildir, MaildirError>) -> bool {
    r matches Err(e) && e.kind_of() == MaildirErrorKind::IOError
}

/// What `from_path` owes for a given path and listing outcome.
pub open spec fn validation_post(
    r: Result<Maildir, MaildirError>,
    p: Seq<char>,
    l: Listing,
) -> bool {
    match validation_of(l) {
        Validation::Valid => {
            &&& r matches Ok(m)
            &&& m.path_view() == p
            &&& !m.subdirs_loaded()
        },
        Validation::MissingCur => is_structural_failure(r, MaildirErrorKind::CurDirDoesNotExist),
        Validation::MissingNew => is_structural_failure(r, MaildirErrorKind::NewDirDoesNotExist),
        Validation::MissingTmp => is_structural_failure(r, MaildirErrorKind::TmpDirDoesNotExist),
        Validation::ReadFailed => is_io_failure(r),
    }
}

/// The paths of a sequence of maildirs, in order.
pub open spec fn paths_of(cs: Seq<Maildir>) -> Seq<Seq<char>> {
    Seq::new(cs.len(), |i: int| cs[i].path_view())
}

/// What a depth-first walk discovers: the paths of the descendant directories
/// that validate as maildirs, in walk order, with structural failures skipped
/// silently; or nothing, when the walk itself or a nested listing fails.
pub open spec fn discovered(events: Seq<WalkEvent>) -> Option<Seq<Seq<char>>>
    decreases events.len(),
{
    if events.len() == 0 {
        Some(Seq::empty())
    } else {
        match discovered(events.drop_last()) {
            None => None,
            Some(ps) => match events.last() {
                WalkEvent::File { .. } => Some(ps),
                WalkEvent::Fault => None,
                WalkEvent::Dir { path, listing } => match validation_of(listing) {
                    Validation::Valid => Some(ps.push(path@)),
                    Validation::ReadFailed => None,
                    _ => Some(ps),
                },
            },
        }
    }
}

/// Whether the maildirs `cs` are exactly the freshly validated mailboxes at
/// the paths `ps`, in order, each still unloaded.
pub open spec fn children_match(cs: Seq<Maildir>, ps: Seq<Seq<char>>) -> bool {
    &&& paths_of(cs) == ps
    &&& forall|i: int| 0 <= i < cs.len() ==> !(#[trigger] cs[i]).subdirs_loaded()
}

/// A descendant that fails validation structurally is skipped silently: the
/// walk discovers the same children with or without that event.
pub proof fn lemma_walk_skips_non_mailbox(events: Seq<WalkEvent>, path: String, listing: Listing)
    requires
        validation_of(listing) == Validation::MissingCur || validation_of(listing)
            == Validation::MissingNew || validation_of(listing) == Validation::MissingTmp,
    ensures
        discovered(events.push(WalkEvent::Dir { path, listing })) == discovered(events),
{
    let ext = events.push(WalkEvent::Dir { path, listing });
    assert(ext.drop_last() == events);
}

/// A descendant that validates is appended to the discovered children, at
/// whatever depth of the tree the walk met it.
pub proof fn lemma_walk_appends_mailbox(events: Seq<WalkEvent>, path: String, listing: Listing)
    requires
        validation_of(listing) == Validation::Valid,
        discovered(events) matches Some(ps),
    ensures
        discovered(events.push(WalkEvent::Dir { path, listing })) matches Some(qs) && qs
            == discovered(events)->Some_0.push(path@),
{
    let ext = events.push(WalkEvent::Dir { path, listing });
    assert(ext.drop_last() == events);
}

/// A filesystem failure on the walk or on a nested validation aborts the
/// whole discovery.
pub proof fn lemma_walk_aborts_on_io_failure(events: Seq<WalkEvent>, e: WalkEvent)
    requires
        (e matches WalkEvent::Fault) || (e matches WalkEvent::Dir { listing, .. }
            && validation_of(listing) == Validation::ReadFailed),
    ensures
        discovered(events.push(e)) is None,
{
    let ext = events.push(e);
    assert(ext.drop_last() == events);
}

/// Once a walk prefix has aborted, every extension of it aborts too.
proof fn lemma_discovered_none_extends(s: Seq<WalkEvent>, n: int)
    requires
        0 <= n <= s.len(),
        discovered(s.subrange(0, n)) is None,
    ensures
        discovered(s) is None,
    decreases s.len() - n,
{
    if n < s.len() {
        assert(s.subrange(0, n + 1).drop_last() == s.subrange(0, n));
        lemma_discovered_none_extends(s, n + 1);
    } else {
        assert(s.subrange(0, n) == s);
    }
}

impl Maildir {
    /// The path this maildir was validated at.
    pub closed spec fn path_view(&self) -> Seq<char> {
        self.path@
    }

    /// Whether the child-mailbox scan has been performed and cached.
    pub closed spec fn subdirs_loaded(&self) -> bool {
        self.subdirs matches Subdirs::Loaded(_)
    }

    /// The cached child mailboxes; meaningful only once loaded.
    pub closed spec fn subdirs_view(&self) -> Seq<Maildir> {
        match self.subdirs {
            Subdirs::Loaded(ref v) => v@,
            Subdirs::Unloaded => Seq::empty(),
        }
    }

    /// Validates one directory as a maildir. The listing holds the direct
    /// entries of `p` (or the failure of reading them). The three required
    /// names are checked in the fixed order cur, new, tmp against each
    /// entry's base name, and each must be a directory; the first missing one
    /// is reported as the structural cause. A listing failure is reported as
    /// a filesystem failure, never absorbed.
    pub fn from_path(p: String, listing: &Listing) -> (r: Result<Maildir, MaildirError>)
        ensures
            validation_post(r, p@, *listing),
    {
        match listing {
            Listing::ReadFailure => Err(MaildirErrorKind::IOError.into_error()),
            Listing::Entries(entries) => {
                let cur_name: String = "cur".to_owned();
                let new_name: String = "new".to_owned();
                let tmp_name: String = "tmp".to_owned();
                let mut has_cur = false;
                let mut has_new = false;
                let mut has_tmp = false;
                let n = entries.len();
                let mut i: usize = 0;
                while i < n
                    invariant
                        0 <= i <= n,
                        n == entries@.len(),
                        cur_name@ == "cur"@,
                        new_name@ == "new"@,
                        tmp_name@ == "tmp"@,
                        has_cur == contains_dir_named(entries@.subrange(0, i as int), "cur"@),
                        has_new == contains_dir_named(entries@.subrange(0, i as int), "new"@),
                        has_tmp == contains_dir_named(entries@.subrange(0, i as int), "tmp"@),
                    decreases n - i,
                {
                    let e = &entries[i];
                    if e.is_dir {
                        if e.name == cur_name {
                            has_cur = true;
                        }
                        if e.name == new_name {
                            has_new = true;
                        }
                        if e.name == tmp_name {
                            has_tmp = true;
                        }
                    }
                    proof {
                        let pre = entries@.subrange(0, i as int);
                        let post = entries@.subrange(0, i as int + 1);
                        assert(post == pre.push(entries@[i as int]));
                        lemma_contains_push(pre, entries@[i as int], "cur"@);
                        lemma_contains_push(pre, entries@[i as int], "new"@);
                        lemma_contains_push(pre, entries@[i as int], "tmp"@);
                    }
                    i = i + 1;
                }
                proof {
                    assert(entries@.subrange(0, n as int) == entries@);
                }
                if !has_cur {
                    let cause = Box::new(MaildirErrorKind::CurDirDoesNotExist.into_error());
                    Err(MaildirErrorKind::NotAMaildirError.into_error_with_cause(cause))
                } else if !has_new {
                    let cause = Box::new(MaildirErrorKind::NewDirDoesNotExist.into_error());
                    Err(MaildirErrorKind::NotAMaildirError.into_error_with_cause(cause))
                } else if !has_tmp {
                    let cause = Box::new(MaildirErrorKind::TmpDirDoesNotExist.into_error());
                    Err(MaildirErrorKind::NotAMaildirError.into_error_with_cause(cause))
                } else {
                    Ok(Maildir { path: p, subdirs: Subdirs::Unloaded })
                }
            },
        }
    }

    /// Folds one depth-first walk into the list of descendant maildirs, in
    /// walk order. A descendant that fails validation structurally is skipped
    /// silently; a walk fault or a filesystem failure on a nested validation
    /// aborts the whole scan.
    pub fn discover_children(events: &Vec<WalkEvent>) -> (r: Result<Vec<Maildir>, MaildirError>)
        ensures
            match discovered(events@) {
                Some(ps) => r matches Ok(cs) && children_match(cs@, ps),
                None => r matches Err(e) && e.kind_of() == MaildirErrorKind::IOError,
            },
    {
        let mut children: Vec<Maildir> = Vec::new();
        let n = events.len();
        let mut i: usize = 0;
        while i < n
            invariant
                0 <= i <= n,
                n == events@.len(),
                discovered(events@.subrange(0, i as int)) == Some(paths_of(children@)),
                forall|j: int|
                    0 <= j < children@.len() ==> !(#[trigger] children@[j]).subdirs_loaded(),
            decreases n - i,
        {
            proof {
                assert(events@.subrange(0, i as int + 1).drop_last() == events@.subrange(
                    0,
                    i as int,
                ));
            }
            match &events[i] {
                WalkEvent::File { .. } => {},
                WalkEvent::Fault => {
                    proof {
                        lemma_discovered_none_extends(events@, i as int + 1);
                    }
                    return Err(MaildirErrorKind::IOError.into_error());
                },
                WalkEvent::Dir { path, listing } => {
                    let ghost before = children@;
                    match Maildir::from_path(path.clone(), listing) {
                        Ok(m) => {
                            children.push(m);
                            proof {
                                assert(paths_of(children@) =~= paths_of(before).push(
                                    m.path_view(),
                                ));
                            }
                        },
                        Err(e) => {
                            match e.kind() {
                                MaildirErrorKind::IOError => {
                                    proof {
                                        lemma_discovered_none_extends(events@, i as int + 1);
                                    }
                                    return Err(e);
                                },
                                _ => {},
                            }
                        },
                    }
                },
            }
            i = i + 1;
        }
        proof {
            assert(events@.subrange(0, n as int) == events@);
        }
        Ok(children)
    }

    /// Validates the root directory, then attaches every descendant maildir
    /// that the walk discovered as a direct child, nesting depth collapsed.
    /// A root that fails validation fails the whole call; so does any
    /// filesystem failure during the walk. Structural failures of descendants
    /// are skipped silently.
    pub fn from_dir_recursive(p: String, root_listing: &Listing, events: &Vec<WalkEvent>) -> (r:
        Result<Maildir, MaildirError>)
        ensures
            match validation_of(*root_listing) {
                Validation::Valid => match discovered(events@) {
                    Some(ps) => {
                        &&& r matches Ok(m)
                        &&& m.path_view() == p@
                        &&& m.subdirs_loaded()
                        &&& children_match(m.subdirs_view(), ps)
                    },
                    None => is_io_failure(r),
                },
                Validation::MissingCur => is_structural_failure(
                    r,
                    MaildirErrorKind::CurDirDoesNotExist,
                ),
                Validation::MissingNew => is_structural_failure(
                    r,
                    MaildirErrorKind::NewDirDoesNotExist,
                ),
                Validation::MissingTmp => is_structural_failure(
                    r,
                    MaildirErrorKind::TmpDirDoesNotExist,
                ),
                Validation::ReadFailed => is_io_failure(r),
            },
    {
        let mut this = match Maildir::from_path(p, root_listing) {
            Ok(m) => m,
            Err(e) => {
                return Err(e);
            },
        };
        let children = match Maildir::discover_children(events) {
            Ok(cs) => cs,
            Err(e) => {
                return Err(e);
            },
        };
        this.subdirs = Subdirs::Loaded(children);
        Ok(this)
    }

    /// Performs the child-mailbox scan once: on an unloaded maildir the walk
    /// events are folded and the result cached; on a loaded one the call is a
    /// no-op that keeps the cached children. A failed scan leaves the maildir
    /// unloaded.
    pub fn load_subdirs(&mut self, events: &Vec<WalkEvent>) -> (r: Result<(), MaildirError>)
        ensures
            final(self).path_view() == old(self).path_view(),
            old(self).subdirs_loaded() ==> r is Ok && final(self).subdirs_loaded()
                && final(self).subdirs_view() == old(self).subdirs_view(),
            !old(self).subdirs_loaded() ==> match discovered(events@) {
                Some(ps) => r is Ok && final(self).subdirs_loaded() && children_match(
                    final(self).subdirs_view(),
                    ps,
                ),
                None => (r matches Err(e) && e.kind_of() == MaildirErrorKind::IOError)
                    && !final(self).subdirs_loaded(),
            },
    {
        let already = match &self.subdirs {
            Subdirs::Loaded(_) => true,
            Subdirs::Unloaded => false,
        };
        if already {
            return Ok(());
        }
        match Maildir::discover_children(events) {
            Ok(cs) => {
                self.subdirs = Subdirs::Loaded(cs);
                Ok(())
            },
            Err(e) => Err(e),
        }
    }

    /// Whether the child scan has run and found at least one child mailbox.
    pub fn has_subdirs(&self) -> (b: bool)
        ensures
            b == (self.subdirs_loaded() && self.subdirs_view().len() != 0),
    {
        match &self.subdirs {
            Subdirs::Loaded(s) => s.len() != 0,
            Subdirs::Unloaded => false,
        }
    }

    /// The cached child mailboxes, or nothing when no scan has run yet.
    pub fn subdirs(&self) -> (r: Option<&Vec<Maildir>>)
        ensures
            match r {
                Some(v) => self.subdirs_loaded() && v@ == self.subdirs_view(),
                None => !self.subdirs_loaded(),
            },
    {
        match &self.subdirs {
            Subdirs::Loaded(v) => Some(v),
            Subdirs::Unloaded => None,
        }
    }

    /// The path this maildir was validated at.
    pub fn path(&self) -> (r: &String)
        ensures
            r@ == self.path_view(),
    {
        &self.path
    }

    /// Lists the message files of one subdirectory: the references to the
    /// regular, non-hidden direct entries of `<path>/<subdirectory>`, in
    /// listing order, under their full paths. A listing failure is reported
    /// as a filesystem failure.
    pub fn get_mail_pathes(&self, subdir: MailSubdir, listing: &Listing) -> (r: Result<
        Vec<MailReference>,
        MaildirError,
    >)
        ensures
            match listing {
                Listing::ReadFailure => r matches Err(e) && e.kind_of()
                    == MaildirErrorKind::IOError,
                Listing::Entries(es) => {
                    &&& r matches Ok(v)
                    &&& ref_paths(v@) == qualifying_paths(self.path_view(), subdir, es@)
                    &&& forall|i: int| 0 <= i < v@.len() ==> (#[trigger] v@[i]).subdir == subdir
                },
            },
    {
        match listing {
            Listing::ReadFailure => Err(MaildirErrorKind::IOError.into_error()),
            Listing::Entries(entries) => {
                let mut prefix = self.path.clone();
                prefix.append("/");
                match subdir {
                    MailSubdir::Cur => prefix.append("cur"),
                    MailSubdir::New => prefix.append("new"),
                    MailSubdir::Tmp => prefix.append("tmp"),
                }
                prefix.append("/");
                assert(prefix@ == self.path_view() + "/"@ + subdir_name(subdir) + "/"@);
                let mut v: Vec<MailReference> = Vec::new();
                let n = entries.len();
                let mut i: usize = 0;
                while i < n
                    invariant
                        0 <= i <= n,
                        n == entries@.len(),
                        prefix@ == self.path_view() + "/"@ + subdir_name(subdir) + "/"@,
                        ref_paths(v@) == qualifying_paths(
                            self.path_view(),
                            subdir,
                            entries@.subrange(0, i as int),
                        ),
                        forall|j: int| 0 <= j < v@.len() ==> (#[trigger] v@[j]).subdir == subdir,
                    decreases n - i,
                {
                    proof {
                        assert(entries@.subrange(0, i as int + 1).drop_last() == entries@.subrange(
                            0,
                            i as int,
                        ));
                    }
                    let e = &entries[i];
                    if entry_qualifies(e) {
                        let ghost before = v@;
                        let mut full = prefix.clone();
                        full.append(e.name.as_str());
                        proof {
                            assert(full@ == mail_path(self.path_view(), subdir, e.name@));
                        }
                        v.push(MailReference { path: full, subdir });
                        proof {
                            assert(ref_paths(v@) =~= ref_paths(before).push(
                                v@[before.len() as int].path@,
                            ));
                        }
                    }
                    i = i + 1;
                }
                proof {
                    assert(entries@.subrange(0, n as int) == entries@);
                }
                Ok(v)
            },
        }
    }

    /// The message files of the `new` subdirectory, given its listing.
    pub fn new_mails_pathes(&self, listing: &Listing) -> (r: Result<
        Vec<MailReference>,
        MaildirError,
    >)
        ensures
            match listing {
                Listing::ReadFailure => r matches Err(e) && e.kind_of()
                    == MaildirErrorKind::IOError,
                Listing::Entries(es) => {
                    &&& r matches Ok(v)
                    &&& ref_paths(v@) == qualifying_paths(self.path_view(), MailSubdir::New, es@)
                    &&& forall|i: int|
                        0 <= i < v@.len() ==> (#[trigger] v@[i]).subdir == MailSubdir::New
                },
            },
    {
        self.get_mail_pathes(MailSubdir::New, listing)
    }

    /// The message files of the `tmp` subdirectory, given its listing.
    pub fn tmp_mails_pathes(&self, listing: &Listing) -> (r: Result<
        Vec<MailReference>,
        MaildirError,
    >)
        ensures
            match listing {
                Listing::ReadFailure => r matches Err(e) && e.kind_of()
                    == MaildirErrorKind::IOError,
                Listing::Entries(es) => {
                    &&& r matches Ok(v)
                    &&& ref_paths(v@) == qualifying_paths(self.path_view(), MailSubdir::Tmp, es@)
                    &&& forall|i: int|
                        0 <= i < v@.len() ==> (#[trigger] v@[i]).subdir == MailSubdir::Tmp
                },
            },
    {
        self.get_mail_pathes(MailSubdir::Tmp, listing)
    }

    /// The message files of the `cur` subdirectory, given its listing.
    pub fn cur_mails_pathes(&self, listing: &Listing) -> (r: Result<
        Vec<MailReference>,
        MaildirError,
    >)
        ensures
            match listing {
                Listing::ReadFailure => r matches Err(e) && e.kind_of()
                    == MaildirErrorKind::IOError,
                Listing::Entries(es) => {
                    &&& r matches Ok(v)
                    &&& ref_paths(v@) == qualifying_paths(self.path_view(), MailSubdir::Cur, es@)
                    &&& forall|i: int|
                        0 <= i < v@.len() ==> (#[trigger] v@[i]).subdir == MailSubdir::Cur
                },
            },
    {
        self.get_mail_pathes(MailSubdir::Cur, listing)
    }

    /// Whether one subdirectory listing holds at least one message file,
    /// scanning front to back and stopping at the first hit.
    pub fn has_new_mail_in(&self, listing: &Listing) -> (r: Result<bool, MaildirError>)
        ensures
            match listing {
                Listing::ReadFailure => r matches Err(e) && e.kind_of()
                    == MaildirErrorKind::IOError,
                Listing::Entries(es) => r matches Ok(b) && b == has_qualifying(es@),
            },
    {
        match listing {
            Listing::ReadFailure => Err(MaildirErrorKind::IOError.into_error()),
            Listing::Entries(entries) => {
                let (found, _) = scan_for_mail(entries);
                Ok(found)
            },
        }
    }

    /// Whether the `new` subdirectory holds at least one message file.
    pub fn has_new_mail(&self, listing: &Listing) -> (r: Result<bool, MaildirError>)
        ensures
            match listing {
                Listing::ReadFailure => r matches Err(e) && e.kind_of()
                    == MaildirErrorKind::IOError,
                Listing::Entries(es) => r matches Ok(b) && b == has_qualifying(es@),
            },
    {
        self.has_new_mail_in(listing)
    }

    /// Whether the `tmp` subdirectory holds at least one message file.
    pub fn has_tmp_mail(&self, listing: &Listing) -> (r: Result<bool, MaildirError>)
        ensures
            match listing {
                Listing::ReadFailure => r matches Err(e) && e.kind_of()
                    == MaildirErrorKind::IOError,
                Listing::Entries(es) => r matches Ok(b) && b == has_qualifying(es@),
            },
    {
        self.has_new_mail_in(listing)
    }

    /// Whether the `cur` subdirectory holds at least one message file.
    pub fn has_cur_mail(&self, listing: &Listing) -> (r: Result<bool, MaildirError>)
        ensures
            match listing {
                Listing::ReadFailure => r matches Err(e) && e.kind_of()
                    == MaildirErrorKind::IOError,
                Listing::Entries(es) => r matches Ok(b) && b == has_qualifying(es@),
            },
    {
        self.has_new_mail_in(listing)
    }

    /// Counts the message files of one subdirectory listing in a single
    /// streaming pass, without materialising the path list.
    pub fn count_mail_in(&self, listing: &Listing) -> (r: Result<usize, MaildirError>)
        ensures
            match listing {
                Listing::ReadFailure => r matches Err(e) && e.kind_of()
                    == MaildirErrorKind::IOError,
                Listing::Entries(es) => r matches Ok(c) && c == count_qualifying(es@),
            },
    {
        match listing {
            Listing::ReadFailure => Err(MaildirErrorKind::IOError.into_error()),
            Listing::Entries(entries) => {
                let n = entries.len();
                let mut c: usize = 0;
                let mut i: usize = 0;
                while i < n
                    invariant
                        0 <= i <= n,
                        n == entries@.len(),
                        c <= i,
                        c == count_qualifying(entries@.subrange(0, i as int)),
                    decreases n - i,
                {
                    proof {
                        assert(entries@.subrange(0, i as int + 1).drop_last() == entries@.subrange(
                            0,
                            i as int,
                        ));
                    }
                    if entry_qualifies(&entries[i]) {
                        c = c + 1;
                    }
                    i = i + 1;
                }
                proof {
                    assert(entries@.subrange(0, n as int) == entries@);
                }
                Ok(c)
            },
        }
    }

    /// The number of message files in the `new` subdirectory.
    pub fn count_new_mail(&self, listing: &Listing) -> (r: Result<usize, MaildirError>)
        ensures
            match listing {
                Listing::ReadFailure => r matches Err(e) && e.kind_of()
                    == MaildirErrorKind::IOError,
                Listing::Entries(es) => r matches Ok(c) && c == count_qualifying(es@),
            },
    {
        self.count_mail_in(listing)
    }

    /// The number of message files in the `tmp` subdirectory.
    pub fn count_tmp_mail(&self, listing: &Listing) -> (r: Result<usize, MaildirError>)
        ensures
            match listing {
                Listing::ReadFailure => r matches Err(e) && e.kind_of()
                    == MaildirErrorKind::IOError,
                Listing::Entries(es) => r matches Ok(c) && c == count_qualifying(es@),
            },
    {
        self.count_mail_in(listing)
    }

    /// The number of message files in the `cur` subdirectory.
    pub fn count_cur_mail(&self, listing: &Listing) -> (r: Result<usize, MaildirError>)
        ensures
            match listing {
                Listing::ReadFailure => r matches Err(e) && e.kind_of()
                    == MaildirErrorKind::IOError,
                Listing::Entries(es) => r matches Ok(c) && c == count_qualifying(es@),
            },
    {
        self.count_mail_in(listing)
    }
}

} // verus!
