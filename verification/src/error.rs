//! The error taxonomy of the library: a small set of failure kinds with
//! optional causal chaining.

use vstd::prelude::*;

verus! {

/// The kinds of failure a maildir operation can report.
#[derive(Clone, Copy, Debug, PartialEq, Eq, Structural)]
pub enum MaildirErrorKind {
    IOError,
    NotAMaildirError,
    CurDirDoesNotExist,
    NewDirDoesNotExist,
    TmpDirDoesNotExist,
}

impl MaildirErrorKind {
    /// Wraps this kind into an error with no underlying cause.
    pub fn into_error(self) -> (r: MaildirError)
        ensures
            r.kind_of() == self,
            r.cause_of() is None,
    {
        MaildirError::new(self, None)
    }

    /// Wraps this kind into an error chained onto an underlying cause.
    pub fn into_error_with_cause(self, cause: Box<MaildirError>) -> (r: MaildirError)
        ensures
            r.kind_of() == self,
            r.cause_of() == Some(*cause),
    {
        MaildirError::new(self, Some(cause))
    }
}

/// A failure value: a kind, plus an optional chained cause of arbitrary depth.
#[derive(Debug)]
pub struct MaildirError {
    kind: MaildirErrorKind,
    cause: Option<Box<MaildirError>>,
}

impl MaildirError {
    /// The kind of this error, as seen by contracts.
    pub closed spec fn kind_of(&self) -> MaildirErrorKind {
        self.kind
    }

    /// The chained cause of this error, as seen by contracts.
    pub closed spec fn cause_of(&self) -> Option<MaildirError> {
        match self.cause {
            Some(ref b) => Some(**b),
            None => None,
        }
    }

    pub fn new(kind: MaildirErrorKind, cause: Option<Box<MaildirError>>) -> (r: MaildirError)
        ensures
            r.kind_of() == kind,
            r.cause_of() == (match cause {
                Some(b) => Some(*b),
                None => None::<MaildirError>,
            }),
    {
        MaildirError { kind, cause }
    }

    pub fn kind(&self) -> (k: MaildirErrorKind)
        ensures
            k == self.kind_of(),
    {
        self.kind
    }

    /// Accessor for the (optional) underlying cause of this error.
    pub fn cause(&self) -> (c: Option<&MaildirError>)
        ensures
            match c {
                Some(e) => self.cause_of() == Some(*e),
                None => self.cause_of() is None,
            },
    {
        match self.cause {
            Some(ref b) => Some(&**b),
            None => None,
        }
    }
}

/// A human-readable description of an error kind.
pub fn errkind_to_str(k: &MaildirErrorKind) -> &'static str {
    match *k {
        MaildirErrorKind::IOError => "IO Error",
        MaildirErrorKind::NotAMaildirError => "Not a maildir",
        MaildirErrorKind::CurDirDoesNotExist => "'cur' directory does not exist",
        MaildirErrorKind::NewDirDoesNotExist => "'new' directory does not exist",
        MaildirErrorKind::TmpDirDoesNotExist => "'tmp' directory does not exist",
    }
}

} // verus!
