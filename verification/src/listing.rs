//! The filesystem snapshot model: the plain values that one directory read or
//! one step of a tree walk hands to the library, and the specification
//! functions that say which entries count as mail.

use vstd::prelude::*;

verus! {

/// One direct entry of a directory: its base name and whether it is itself
/// a directory.
#[derive(Debug)]
pub struct DirEntry {
    pub name: String,
    pub is_dir: bool,
}

/// The outcome of listing the direct entries of one directory: either the
/// entries, or a filesystem failure.
#[derive(Debug)]
pub enum Listing {
    Entries(Vec<DirEntry>),
    ReadFailure,
}

/// One event of a depth-first walk over a directory tree: a descendant
/// directory together with the listing of its direct entries, a descendant
/// that is not a directory, or a failure of the walk itself.
#[derive(Debug)]
pub enum WalkEvent {
    Dir { path: String, listing: Listing },
    File { path: String },
    Fault,
}

/// The three subdirectories a maildir owns.
#[derive(Clone, Copy, Debug, PartialEq, Eq, Structural)]
pub enum MailSubdir {
    Cur,
    New,
    Tmp,
}

/// One message file, identified without parsing it: its full path and the
/// subdirectory it sits in.
#[derive(Debug)]
pub struct MailReference {
    pub path: String,
    pub subdir: MailSubdir,
}

/// Whether an entry is a directory carrying exactly the given base name.
pub open spec fn entry_is_dir_named(e: DirEntry, name: Seq<char>) -> bool {
    e.is_dir && e.name@ == name
}

/// Whether some entry of the listing is a directory with the given base name.
pub open spec fn contains_dir_named(s: Seq<DirEntry>, name: Seq<char>) -> bool {
    exists|i: int| 0 <= i < s.len() && entry_is_dir_named(s[i], name)
}

/// A dot-prefixed (hidden) base name.
pub open spec fn is_hidden(name: Seq<char>) -> bool {
    name.len() > 0 && name[0] == '.'
}

/// Whether an entry counts as a message file: a regular file whose name is
/// not dot-prefixed.
pub open spec fn qualifies(e: DirEntry) -> bool {
    !e.is_dir && !is_hidden(e.name@)
}

/// Whether the listing holds at least one message file.
pub open spec fn has_qualifying(s: Seq<DirEntry>) -> bool {
    exists|i: int| 0 <= i < s.len() && qualifies(s[i])
}

/// How many entries of the listing count as message files.
pub open spec fn count_qualifying(s: Seq<DirEntry>) -> nat
    decreases s.len(),
{
    if s.len() == 0 {
        0
    } else {
        count_qualifying(s.drop_last()) + if qualifies(s.last()) {
            1nat
        } else {
            0nat
        }
    }
}

/// How many entries a front-to-back existence scan reads before it stops:
/// everything up to and including the first message file, or the whole
/// listing when there is none.
pub open spec fn scan_len(s: Seq<DirEntry>) -> nat
    decreases s.len(),
{
    if s.len() == 0 {
        0
    } else if qualifies(s[0]) {
        1
    } else {
        1 + scan_len(s.subrange(1, s.len() as int))
    }
}

/// The base name of a maildir subdirectory.
pub open spec fn subdir_name(t: MailSubdir) -> Seq<char> {
    match t {
        MailSubdir::Cur => "cur"@,
        MailSubdir::New => "new"@,
        MailSubdir::Tmp => "tmp"@,
    }
}

/// The full path of a message file: `<base>/<subdirectory>/<name>`.
pub open spec fn mail_path(base: Seq<char>, t: MailSubdir, name: Seq<char>) -> Seq<char> {
    base + "/"@ + subdir_name(t) + "/"@ + name
}

/// The full paths of the message files of a listing, in listing order.
pub open spec fn qualifying_paths(base: Seq<char>, t: MailSubdir, s: Seq<DirEntry>) -> Seq<
    Seq<char>,
>
    decreases s.len(),
{
    if s.len() == 0 {
        Seq::empty()
    } else {
        let front = qualifying_paths(base, t, s.drop_last());
        if qualifies(s.last()) {
            front.push(mail_path(base, t, s.last().name@))
        } else {
            front
        }
    }
}

/// The paths of a sequence of mail references, in order.
pub open spec fn ref_paths(rs: Seq<MailReference>) -> Seq<Seq<char>> {
    Seq::new(rs.len(), |i: int| rs[i].path@)
}

/// Whether an entry counts as a message file, decided executably.
pub fn entry_qualifies(e: &DirEntry) -> (b: bool)
    ensures
        b == qualifies(*e),
{
    if e.is_dir {
        false
    } else {
        let n = e.name.as_str().unicode_len();
        if n == 0 {
            true
        } else {
            e.name.as_str().get_char(0) != '.'
        }
    }
}

/// Adding one entry to the back of a listing finds a named directory exactly
/// when the front did, or the new entry is it.
pub proof fn lemma_contains_push(s: Seq<DirEntry>, e: DirEntry, name: Seq<char>)
    ensures
        contains_dir_named(s.push(e), name) == (contains_dir_named(s, name) || entry_is_dir_named(
            e,
            name,
        )),
{
    if contains_dir_named(s, name) {
        let i = choose|i: int| 0 <= i < s.len() && entry_is_dir_named(s[i], name);
        assert(s.push(e)[i] == s[i]);
    }
    if entry_is_dir_named(e, name) {
        assert(s.push(e)[s.len() as int] == e);
    }
    if contains_dir_named(s.push(e), name) && !entry_is_dir_named(e, name) {
        let i = choose|i: int| 0 <= i < s.push(e).len() && entry_is_dir_named(s.push(e)[i], name);
        assert(0 <= i < s.len() && s.push(e)[i] == s[i]);
    }
}

/// An existence scan stops exactly at the first message file: if entry `i` is
/// the first qualifying one, the scan reads `i + 1` entries and no more.
pub proof fn lemma_scan_stops_at_first(s: Seq<DirEntry>, i: int)
    requires
        0 <= i < s.len(),
        qualifies(s[i]),
        forall|j: int| 0 <= j < i ==> !qualifies(s[j]),
    ensures
        scan_len(s) == i + 1,
    decreases i,
{
    if i > 0 {
        let t = s.subrange(1, s.len() as int);
        assert(t[i - 1] == s[i]);
        assert(forall|j: int| 0 <= j < i - 1 ==> t[j] == s[j + 1] && !qualifies(t[j]));
        lemma_scan_stops_at_first(t, i - 1);
    }
}

/// A scan over a listing with no message file reads every entry.
pub proof fn lemma_scan_exhausts(s: Seq<DirEntry>)
    requires
        !has_qualifying(s),
    ensures
        scan_len(s) == s.len(),
    decreases s.len(),
{
    if s.len() > 0 {
        assert(!qualifies(s[0]));
        let t = s.subrange(1, s.len() as int);
        assert(forall|j: int| 0 <= j < t.len() ==> t[j] == s[j + 1]);
        assert(!has_qualifying(t));
        lemma_scan_exhausts(t);
    }
}

/// A listing holds a message file exactly when its streamed count is not
/// zero: the existence checks and the counts agree.
pub proof fn lemma_has_iff_count_nonzero(s: Seq<DirEntry>)
    ensures
        has_qualifying(s) <==> count_qualifying(s) != 0,
    decreases s.len(),
{
    if s.len() > 0 {
        lemma_has_iff_count_nonzero(s.drop_last());
        if has_qualifying(s.drop_last()) {
            let i = choose|i: int| 0 <= i < s.drop_last().len() && qualifies(s.drop_last()[i]);
            assert(s[i] == s.drop_last()[i]);
        }
        if qualifies(s.last()) {
            assert(qualifies(s[s.len() - 1]));
        }
        if has_qualifying(s) && !qualifies(s.last()) {
            let i = choose|i: int| 0 <= i < s.len() && qualifies(s[i]);
            assert(0 <= i < s.drop_last().len() && s.drop_last()[i] == s[i]);
        }
    }
}

/// Counting and listing agree: the streamed count of message files equals
/// the number of paths the path listing yields for the same entries.
pub proof fn lemma_count_matches_listing(base: Seq<char>, t: MailSubdir, s: Seq<DirEntry>)
    ensures
        count_qualifying(s) == qualifying_paths(base, t, s).len(),
    decreases s.len(),
{
    if s.len() > 0 {
        lemma_count_matches_listing(base, t, s.drop_last());
    }
}

/// Scans the entries of one subdirectory listing for a message file, reading
/// front to back and stopping at the first hit. Returns whether one exists
/// and how many entries were read before stopping.
pub fn scan_for_mail(entries: &Vec<DirEntry>) -> (r: (bool, usize))
    ensures
        r.0 == has_qualifying(entries@),
        r.1 == scan_len(entries@),
        r.0 ==> 1 <= r.1 <= entries@.len() && qualifies(entries@[r.1 - 1]),
{
    let n = entries.len();
    let mut i: usize = 0;
    while i < n
        invariant
            0 <= i <= n,
            n == entries@.len(),
            forall|j: int| 0 <= j < i ==> !qualifies(entries@[j]),
        decreases n - i,
    {
        if entry_qualifies(&entries[i]) {
            proof {
                lemma_scan_stops_at_first(entries@, i as int);
            }
            return (true, i + 1);
        }
        i = i + 1;
    }
    proof {
        lemma_scan_exhausts(entries@);
    }
    (false, n)
}

} // verus!
