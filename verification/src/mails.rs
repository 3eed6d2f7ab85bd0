//! Lazy enumeration of parsed messages: a forward, single-pass stream over
//! the message files of one subdirectory, parsing each file's bytes as they
//! are consumed and failing the whole stream at the first file that cannot
//! be read or parsed.

use vstd::prelude::*;

use mailparse::MailParseError;
use mailparse::ParsedMail;

use crate::error::MaildirError;
use crate::error::MaildirErrorKind;
use crate::listing::Listing;
use crate::listing::MailReference;
use crate::listing::MailSubdir;
use crate::listing::qualifying_paths;
use crate::listing::ref_paths;
use crate::maildir::Maildir;

verus! {

#[verifier::external_type_specification]
#[verifier::external_body]
pub struct ExParsedMail<'a>(ParsedMail<'a>);

#[verifier::external_type_specification]
#[verifier::external_body]
pub struct ExMailParseError(MailParseError);

/// Whether a byte sequence parses as a MIME message.
pub uninterp spec fn parses_ok(bytes: Seq<u8>) -> bool;

/// Relies on mailparse::parse_mail: parses one message from raw bytes; the
/// outcome is a function of the bytes alone.
pub assume_specification[ mailparse::parse_mail ](raw_data: &[u8]) -> (r: Result<
    ParsedMail<'_>,
    MailParseError,
>)
    ensures
        r is Ok <==> parses_ok(raw_data@),
;

/// A forward, single-pass stream of parsed messages. The stream itself holds
/// only the message references; the caller reads each file's bytes and hands
/// them to `next_message`, which parses them on consumption. The first read
/// or parse failure is surfaced and is terminal: no further message is ever
/// produced by that stream, though messages already yielded stand.
#[derive(Debug)]
pub struct MessageStream {
    refs: Vec<MailReference>,
    pos: usize,
    failed: bool,
}

impl MessageStream {
    /// The message references this stream enumerates.
    pub closed spec fn refs_view(&self) -> Seq<MailReference> {
        self.refs@
    }

    /// How many references have been consumed so far.
    pub closed spec fn pos_view(&self) -> int {
        self.pos as int
    }

    /// Whether a read or parse failure has been surfaced.
    pub closed spec fn has_failed(&self) -> bool {
        self.failed
    }

    /// The consumed prefix never outruns the references.
    #[verifier::type_invariant]
    closed spec fn wf(&self) -> bool {
        self.pos <= self.refs@.len()
    }

    /// A fresh stream over the given message references.
    pub fn new(refs: Vec<MailReference>) -> (s: MessageStream)
        ensures
            s.refs_view() == refs@,
            s.pos_view() == 0,
            !s.has_failed(),
    {
        MessageStream { refs, pos: 0, failed: false }
    }

    /// The message file whose bytes the next `next_message` call expects, or
    /// nothing when the stream is exhausted or has failed.
    pub fn pending(&self) -> (r: Option<&MailReference>)
        ensures
            match r {
                Some(mr) => !self.has_failed() && self.pos_view() < self.refs_view().len() && *mr
                    == self.refs_view()[self.pos_view()],
                None => self.has_failed() || self.pos_view() >= self.refs_view().len(),
            },
    {
        if self.failed {
            None
        } else if self.pos < self.refs.len() {
            Some(&self.refs[self.pos])
        } else {
            None
        }
    }

    /// Consumes the next message: `bytes` are the contents of the pending
    /// file, or nothing when reading it failed. A parsable file yields its
    /// message and advances the stream; an unreadable or unparsable one puts
    /// the stream into its terminal failed state and surfaces the failure,
    /// as does every later call on a failed stream. An exhausted stream
    /// yields nothing.
    pub fn next_message<'a>(&mut self, bytes: Option<&'a [u8]>) -> (r: Result<
        Option<ParsedMail<'a>>,
        MaildirError,
    >)
        ensures
            final(self).refs_view() == old(self).refs_view(),
            old(self).has_failed() ==> (r matches Err(e) && e.kind_of()
                == MaildirErrorKind::IOError) && final(self).has_failed() && final(self).pos_view()
                == old(self).pos_view(),
            !old(self).has_failed() && old(self).pos_view() >= old(self).refs_view().len() ==> (
            r matches Ok(m) && m is None) && !final(self).has_failed() && final(self).pos_view()
                == old(self).pos_view(),
            !old(self).has_failed() && old(self).pos_view() < old(self).refs_view().len()
                ==> match bytes {
                None => (r matches Err(e) && e.kind_of() == MaildirErrorKind::IOError)
                    && final(self).has_failed() && final(self).pos_view() == old(self).pos_view(),
                Some(b) => if parses_ok(b@) {
                    (r matches Ok(m) && m is Some) && !final(self).has_failed()
                        && final(self).pos_view() == old(self).pos_view() + 1
                } else {
                    (r matches Err(e) && e.kind_of() == MaildirErrorKind::IOError)
                        && final(self).has_failed()
                        && final(self).pos_view() == old(self).pos_view()
                },
            },
    {
        proof {
            use_type_invariant(&*self);
        }
        if self.failed {
            return Err(MaildirErrorKind::IOError.into_error());
        }
        if self.pos >= self.refs.len() {
            return Ok(None);
        }
        match bytes {
            None => {
                self.failed = true;
                Err(MaildirErrorKind::IOError.into_error())
            },
            Some(b) => match mailparse::parse_mail(b) {
                Ok(m) => {
                    self.pos = self.pos + 1;
                    Ok(Some(m))
                },
                Err(_) => {
                    self.failed = true;
                    Err(MaildirErrorKind::IOError.into_error())
                },
            },
        }
    }
}

impl Maildir {
    /// A message stream over the message files of one subdirectory, given
    /// its listing. Each message is parsed only when consumed.
    pub fn get_mails(&self, subdir: MailSubdir, listing: &Listing) -> (r: Result<
        MessageStream,
        MaildirError,
    >)
        ensures
            match listing {
                Listing::ReadFailure => r matches Err(e) && e.kind_of()
                    == MaildirErrorKind::IOError,
                Listing::Entries(es) => {
                    &&& r matches Ok(st)
                    &&& !st.has_failed()
                    &&& st.pos_view() == 0
                    &&& ref_paths(st.refs_view()) == qualifying_paths(
                        self.path_view(),
                        subdir,
                        es@,
                    )
                },
            },
    {
        match self.get_mail_pathes(subdir, listing) {
            Ok(refs) => Ok(MessageStream::new(refs)),
            Err(e) => Err(e),
        }
    }

    /// A message stream over the `new` subdirectory, given its listing.
    pub fn new_mails(&self, listing: &Listing) -> (r: Result<MessageStream, MaildirError>)
        ensures
            match listing {
                Listing::ReadFailure => r matches Err(e) && e.kind_of()
                    == MaildirErrorKind::IOError,
                Listing::Entries(es) => {
                    &&& r matches Ok(st)
                    &&& !st.has_failed()
                    &&& st.pos_view() == 0
                    &&& ref_paths(st.refs_view()) == qualifying_paths(
                        self.path_view(),
                        MailSubdir::New,
                        es@,
                    )
                },
            },
    {
        self.get_mails(MailSubdir::New, listing)
    }

    /// A message stream over the `tmp` subdirectory, given its listing.
    pub fn tmp_mails(&self, listing: &Listing) -> (r: Result<MessageStream, MaildirError>)
        ensures
            match listing {
                Listing::ReadFailure => r matches Err(e) && e.kind_of()
                    == MaildirErrorKind::IOError,
                Listing::Entries(es) => {
                    &&& r matches Ok(st)
                    &&& !st.has_failed()
                    &&& st.pos_view() == 0
                    &&& ref_paths(st.refs_view()) == qualifying_paths(
                        self.path_view(),
                        MailSubdir::Tmp,
                        es@,
                    )
                },
            },
    {
        self.get_mails(MailSubdir::Tmp, listing)
    }

    /// A message stream over the `cur` subdirectory, given its listing.
    pub fn cur_mails(&self, listing: &Listing) -> (r: Result<MessageStream, MaildirError>)
        ensures
            match listing {
                Listing::ReadFailure => r matches Err(e) && e.kind_of()
                    == MaildirErrorKind::IOError,
                Listing::Entries(es) => {
                    &&& r matches Ok(st)
                    &&& !st.has_failed()
                    &&& st.pos_view() == 0
                    &&& ref_paths(st.refs_view()) == qualifying_paths(
                        self.path_view(),
                        MailSubdir::Cur,
                        es@,
                    )
                },
            },
    {
        self.get_mails(MailSubdir::Cur, listing)
    }
}

} // verus!
