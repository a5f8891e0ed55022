//! What can go wrong.

use vstd::prelude::*;

use crate::text::join3;

verus! {

/// The kinds of failure.
#[derive(Clone, Copy, Debug, PartialEq, Eq, Structural)]
pub enum RemoteErrorType {
    AuthenticationFailed,
    BadAddress,
    ConnectionError,
    CouldNotOpenFile,
    CouldNotRemoveFile,
    DirectoryAlreadyExists,
    DirectoryNotEmpty,
    FileCreateDenied,
    NoSuchFileOrDirectory,
    NotConnected,
    ProtocolError,
    StatFailed,
    UnsupportedFeature,
}

impl RemoteErrorType {
    /// The kind in words.
    pub open spec fn words(self) -> Seq<char> {
        match self {
            RemoteErrorType::AuthenticationFailed => "authentication failed"@,
            RemoteErrorType::BadAddress => "bad address"@,
            RemoteErrorType::ConnectionError => "connection error"@,
            RemoteErrorType::CouldNotOpenFile => "could not open file"@,
            RemoteErrorType::CouldNotRemoveFile => "could not remove file"@,
            RemoteErrorType::DirectoryAlreadyExists => "directory already exists"@,
            RemoteErrorType::DirectoryNotEmpty => "directory is not empty"@,
            RemoteErrorType::FileCreateDenied => "failed to create file"@,
            RemoteErrorType::NoSuchFileOrDirectory => "no such file or directory"@,
            RemoteErrorType::NotConnected => "not connected yet"@,
            RemoteErrorType::ProtocolError => "protocol error"@,
            RemoteErrorType::StatFailed => "could not stat file"@,
            RemoteErrorType::UnsupportedFeature => "unsupported feature"@,
        }
    }

    /// The kind in words.
    pub fn description(&self) -> (r: &'static str)
        ensures
            r@ == self.words(),
    {
        match self {
            RemoteErrorType::AuthenticationFailed => "authentication failed",
            RemoteErrorType::BadAddress => "bad address",
            RemoteErrorType::ConnectionError => "connection error",
            RemoteErrorType::CouldNotOpenFile => "could not open file",
            RemoteErrorType::CouldNotRemoveFile => "could not remove file",
            RemoteErrorType::DirectoryAlreadyExists => "directory already exists",
            RemoteErrorType::DirectoryNotEmpty => "directory is not empty",
            RemoteErrorType::FileCreateDenied => "failed to create file",
            RemoteErrorType::NoSuchFileOrDirectory => "no such file or directory",
            RemoteErrorType::NotConnected => "not connected yet",
            RemoteErrorType::ProtocolError => "protocol error",
            RemoteErrorType::StatFailed => "could not stat file",
            RemoteErrorType::UnsupportedFeature => "unsupported feature",
        }
    }
}

/// A failure, with a message where there is more to say than its kind.
#[derive(Clone, Debug, PartialEq, Eq)]
pub struct RemoteError {
    pub kind: RemoteErrorType,
    pub msg: Option<String>,
}

/// A failure as a value.
#[verifier::ext_equal]
pub struct Failure {
    pub kind: RemoteErrorType,
    pub msg: Option<Seq<char>>,
}

/// The text of a string that may be there.
pub open spec fn opt_text(s: Option<String>) -> Option<Seq<char>> {
    match s {
        Some(s) => Some(s@),
        None => None,
    }
}

impl View for RemoteError {
    type V = Failure;

    open spec fn view(&self) -> Failure {
        Failure { kind: self.kind, msg: opt_text(self.msg) }
    }
}

impl Failure {
    /// A failure of which the kind says all.
    pub open spec fn plain(kind: RemoteErrorType) -> Failure {
        Failure { kind, msg: None }
    }

    /// A failure with a message.
    pub open spec fn told(kind: RemoteErrorType, msg: Seq<char>) -> Failure {
        Failure { kind, msg: Some(msg) }
    }

    /// The failure in words: the kind, and the message in brackets.
    pub open spec fn words(self) -> Seq<char> {
        match self.msg {
            Some(msg) => self.kind.words() + " ("@ + msg + ")"@,
            None => self.kind.words(),
        }
    }
}

impl RemoteError {
    /// A failure of which the kind says all.
    pub fn new(kind: RemoteErrorType) -> (r: RemoteError)
        ensures
            r@ == Failure::plain(kind),
    {
        RemoteError { kind, msg: None }
    }

    /// A failure with a message.
    pub fn new_ex(kind: RemoteErrorType, msg: String) -> (r: RemoteError)
        ensures
            r@ == Failure::told(kind, msg@),
    {
        RemoteError { kind, msg: Some(msg) }
    }

    /// The failure in words.
    pub fn message(&self) -> (r: String)
        ensures
            r@ == self@.words(),
    {
        match &self.msg {
            Some(msg) => {
                let mut out = join3(self.kind.description(), " (", msg.as_str());
                out.append(")");
                out
            },
            None => self.kind.description().to_owned(),
        }
    }
}

/// The outcome of what may fail.
pub type RemoteResult<T> = Result<T, RemoteError>;

} // verus!
