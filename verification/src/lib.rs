//! A remote file system client that works over SCP and a POSIX shell.
//!
//! The library decides and never talks to the network itself. A request gives the first
//! [`step::Step`]; whoever drives the client performs it, hands back what came of it, and
//! gets the next step, until there is a reply or a failure.

pub mod client;
pub mod conversation;
pub mod entry;
pub mod error;
pub mod laws;
pub mod listing;
pub mod listing_laws;
pub mod path;
pub mod pex;
pub mod request_laws;
pub mod shell;
pub mod step;
pub mod text;
pub mod time;
pub mod view_laws;

pub use client::ScpFs;
pub use client::SshOpts;
pub use client::SshSession;
pub use client::Welcome;
pub use entry::Directory;
pub use entry::Entry;
pub use entry::File;
pub use entry::Metadata;
pub use error::RemoteError;
pub use error::RemoteErrorType;
pub use error::RemoteResult;
pub use pex::UnixPex;
pub use pex::UnixPexClass;
pub use time::Timestamp;
