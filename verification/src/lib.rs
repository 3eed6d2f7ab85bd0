pub mod error;
pub mod listing;
pub mod maildir;
pub mod mails;

pub use error::MaildirError;
pub use error::MaildirErrorKind;
pub use listing::DirEntry;
pub use listing::Listing;
pub use listing::MailReference;
pub use listing::MailSubdir;
pub use listing::WalkEvent;
pub use maildir::Maildir;
pub use maildir::Subdirs;
pub use mails::MessageStream;
