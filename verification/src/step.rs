//! The vocabulary of a conversation with the remote host: what a caller asks for, what is
//! to be done next, and what is still to be decided once that is done.

use vstd::prelude::*;

use crate::entry::nodes;
use crate::entry::Entry;
use crate::entry::Facts;
use crate::entry::Metadata;
use crate::entry::Node;
use crate::error::opt_text;
use crate::error::Failure;
use crate::error::RemoteErrorType;
use crate::error::RemoteResult;
use crate::pex::UnixPex;
use crate::time::Instant;
use crate::time::Timestamp;

verus! {

/// How many bytes a stream to or from the remote host gathers before it passes them on.
pub const STREAM_BUFFER: usize = 65536;

/// What a caller asks for.
#[derive(Debug, PartialEq, Eq)]
pub enum Request {
    Pwd,
    ChangeDir { dir: String },
    ListDir { path: String },
    Stat { path: String },
    Exists { path: String },
    SetStat { path: String, metadata: Metadata },
    RemoveFile { path: String },
    RemoveDir { path: String },
    RemoveDirAll { path: String },
    CreateDir { path: String, mode: UnixPex },
    Symlink { path: String, target: String },
    Copy { src: String, dest: String },
    Move { src: String, dest: String },
    Exec { cmd: String },
    Create { path: String, metadata: Metadata },
    Open { path: String },
}

/// A request as a value.
#[verifier::ext_equal]
pub enum RequestModel {
    Pwd,
    ChangeDir { dir: Seq<char> },
    ListDir { path: Seq<char> },
    Stat { path: Seq<char> },
    Exists { path: Seq<char> },
    SetStat { path: Seq<char>, facts: Facts },
    RemoveFile { path: Seq<char> },
    RemoveDir { path: Seq<char> },
    RemoveDirAll { path: Seq<char> },
    CreateDir { path: Seq<char>, mode: UnixPex },
    Symlink { path: Seq<char>, target: Seq<char> },
    Copy { src: Seq<char>, dest: Seq<char> },
    Move { src: Seq<char>, dest: Seq<char> },
    Exec { cmd: Seq<char> },
    Create { path: Seq<char>, facts: Facts },
    Open { path: Seq<char> },
}

impl View for Request {
    type V = RequestModel;

    open spec fn view(&self) -> RequestModel {
        match self {
            Request::Pwd => RequestModel::Pwd,
            Request::ChangeDir { dir } => RequestModel::ChangeDir { dir: dir@ },
            Request::ListDir { path } => RequestModel::ListDir { path: path@ },
            Request::Stat { path } => RequestModel::Stat { path: path@ },
            Request::Exists { path } => RequestModel::Exists { path: path@ },
            Request::SetStat { path, metadata } => RequestModel::SetStat {
                path: path@,
                facts: metadata@,
            },
            Request::RemoveFile { path } => RequestModel::RemoveFile { path: path@ },
            Request::RemoveDir { path } => RequestModel::RemoveDir { path: path@ },
            Request::RemoveDirAll { path } => RequestModel::RemoveDirAll { path: path@ },
            Request::CreateDir { path, mode } => RequestModel::CreateDir {
                path: path@,
                mode: *mode,
            },
            Request::Symlink { path, target } => RequestModel::Symlink {
                path: path@,
                target: target@,
            },
            Request::Copy { src, dest } => RequestModel::Copy { src: src@, dest: dest@ },
            Request::Move { src, dest } => RequestModel::Move { src: src@, dest: dest@ },
            Request::Exec { cmd } => RequestModel::Exec { cmd: cmd@ },
            Request::Create { path, metadata } => RequestModel::Create {
                path: path@,
                facts: metadata@,
            },
            Request::Open { path } => RequestModel::Open { path: path@ },
        }
    }
}

/// What is to be decided once the output of a command is there.
#[derive(Debug, PartialEq, Eq)]
pub enum OutputTask {
    /// Take over the working directory.
    ChangeDir { dir: String },
    /// Read the entries of a directory.
    ListDir { path: String },
    /// Read the one entry that was asked about.
    Stat { path: String },
}

/// An output task as a value.
#[verifier::ext_equal]
pub enum OutputTaskModel {
    ChangeDir { dir: Seq<char> },
    ListDir { path: Seq<char> },
    Stat { path: Seq<char> },
}

impl View for OutputTask {
    type V = OutputTaskModel;

    open spec fn view(&self) -> OutputTaskModel {
        match self {
            OutputTask::ChangeDir { dir } => OutputTaskModel::ChangeDir { dir: dir@ },
            OutputTask::ListDir { path } => OutputTaskModel::ListDir { path: path@ },
            OutputTask::Stat { path } => OutputTaskModel::Stat { path: path@ },
        }
    }
}

/// What is to be decided once the exit status of a command is there.
#[derive(Debug, PartialEq, Eq)]
pub enum StatusTask {
    /// Tell the caller whether the test succeeded.
    Exists,
    /// The test was whether `path` is a directory: list it in the right way.
    StatKind { path: String },
    /// The test was whether something is there: run `command` only where it is.
    IfPresent { command: String, refusal: RemoteErrorType, about: Option<String> },
    /// The test was whether something is there: run `command` only where nothing is.
    IfAbsent { taken: RemoteErrorType, command: String, refusal: RemoteErrorType },
    /// The test was whether the target of a link is there: test its own path next.
    LinkTarget { probe: String, command: String },
    /// The test was whether something is there: set its attributes where it is.
    SetStat { path: String, mode: Option<UnixPex>, atime: Timestamp, mtime: Timestamp },
    /// The permissions were set: set both times next.
    SetMode { path: String, atime: Timestamp, mtime: Timestamp },
    /// The time of the last access was set: set that of the last change next.
    SetAccess { path: String, mtime: Timestamp },
    /// The time of the last change was set.
    SetModified,
    /// The test was whether something is there: receive it where it is.
    Open { path: String },
    /// The command that was asked for was run.
    Effect { refusal: RemoteErrorType, about: Option<String> },
}

/// A status task as a value.
#[verifier::ext_equal]
pub enum StatusTaskModel {
    Exists,
    StatKind { path: Seq<char> },
    IfPresent { command: Seq<char>, refusal: RemoteErrorType, about: Option<Seq<char>> },
    IfAbsent { taken: RemoteErrorType, command: Seq<char>, refusal: RemoteErrorType },
    LinkTarget { probe: Seq<char>, command: Seq<char> },
    SetStat { path: Seq<char>, mode: Option<UnixPex>, atime: Instant, mtime: Instant },
    SetMode { path: Seq<char>, atime: Instant, mtime: Instant },
    SetAccess { path: Seq<char>, mtime: Instant },
    SetModified,
    Open { path: Seq<char> },
    Effect { refusal: RemoteErrorType, about: Option<Seq<char>> },
}

impl View for StatusTask {
    type V = StatusTaskModel;

    open spec fn view(&self) -> StatusTaskModel {
        match self {
            StatusTask::Exists => StatusTaskModel::Exists,
            StatusTask::StatKind { path } => StatusTaskModel::StatKind { path: path@ },
            StatusTask::IfPresent { command, refusal, about } => StatusTaskModel::IfPresent {
                command: command@,
                refusal: *refusal,
                about: opt_text(*about),
            },
            StatusTask::IfAbsent { taken, command, refusal } => StatusTaskModel::IfAbsent {
                taken: *taken,
                command: command@,
                refusal: *refusal,
            },
            StatusTask::LinkTarget { probe, command } => StatusTaskModel::LinkTarget {
                probe: probe@,
                command: command@,
            },
            StatusTask::SetStat { path, mode, atime, mtime } => StatusTaskModel::SetStat {
                path: path@,
                mode: *mode,
                atime: atime@,
                mtime: mtime@,
            },
            StatusTask::SetMode { path, atime, mtime } => StatusTaskModel::SetMode {
                path: path@,
                atime: atime@,
                mtime: mtime@,
            },
            StatusTask::SetAccess { path, mtime } => StatusTaskModel::SetAccess {
                path: path@,
                mtime: mtime@,
            },
            StatusTask::SetModified => StatusTaskModel::SetModified,
            StatusTask::Open { path } => StatusTaskModel::Open { path: path@ },
            StatusTask::Effect { refusal, about } => StatusTaskModel::Effect {
                refusal: *refusal,
                about: opt_text(*about),
            },
        }
    }
}

/// What a caller gets in the end.
#[derive(Debug, PartialEq, Eq)]
pub enum Reply {
    /// It was done.
    Unit,
    /// Yes or no.
    Flag(bool),
    /// A path.
    Path(String),
    /// A file or a directory.
    Entry(Entry),
    /// Files and directories.
    Entries(Vec<Entry>),
    /// The exit status and the output of a command.
    Output { status: u32, stdout: String },
    /// The stream that was opened.
    Stream,
}

/// A reply as a value.
#[verifier::ext_equal]
pub enum ReplyModel {
    Unit,
    Flag(bool),
    Path(Seq<char>),
    Entry(Node),
    Entries(Seq<Node>),
    Output { status: u32, stdout: Seq<char> },
    Stream,
}

impl View for Reply {
    type V = ReplyModel;

    open spec fn view(&self) -> ReplyModel {
        match self {
            Reply::Unit => ReplyModel::Unit,
            Reply::Flag(b) => ReplyModel::Flag(*b),
            Reply::Path(p) => ReplyModel::Path(p@),
            Reply::Entry(e) => ReplyModel::Entry(e@),
            Reply::Entries(v) => ReplyModel::Entries(nodes(v@)),
            Reply::Output { status, stdout } => ReplyModel::Output {
                status: *status,
                stdout: stdout@,
            },
            Reply::Stream => ReplyModel::Stream,
        }
    }
}

/// A file that is about to be sent.
#[derive(Debug, PartialEq, Eq)]
pub struct Upload {
    pub path: String,
    pub mode: i32,
    pub size: u64,
    pub mtime: u64,
    pub atime: u64,
}

/// An upload as a value.
#[verifier::ext_equal]
pub struct UploadModel {
    pub path: Seq<char>,
    pub mode: int,
    pub size: u64,
    pub mtime: int,
    pub atime: int,
}

impl View for Upload {
    type V = UploadModel;

    open spec fn view(&self) -> UploadModel {
        UploadModel {
            path: self.path@,
            mode: self.mode as int,
            size: self.size,
            mtime: self.mtime as int,
            atime: self.atime as int,
        }
    }
}

/// What is to be done next.
#[derive(Debug, PartialEq, Eq)]
pub enum Step {
    /// Run a command and read its output.
    Output { command: String, reading: OutputTask },
    /// Run a command and get its exit status.
    Status { command: String, task: StatusTask },
    /// Run a command of the caller in a directory, and get its exit status and output.
    StatusAt { command: String, dir: String },
    /// Open a blocking SCP stream to the remote host.
    Send { upload: Upload },
    /// Open a blocking SCP stream from the remote host.
    Receive { path: String },
    /// Nothing: this is what the caller gets.
    Done(Reply),
}

/// A step as a value.
#[verifier::ext_equal]
pub enum StepModel {
    Output { command: Seq<char>, reading: OutputTaskModel },
    Status { command: Seq<char>, task: StatusTaskModel },
    StatusAt { command: Seq<char>, dir: Seq<char> },
    Send { upload: UploadModel },
    Receive { path: Seq<char> },
    Done(ReplyModel),
}

impl View for Step {
    type V = StepModel;

    open spec fn view(&self) -> StepModel {
        match self {
            Step::Output { command, reading } => StepModel::Output {
                command: command@,
                reading: reading@,
            },
            Step::Status { command, task } => StepModel::Status {
                command: command@,
                task: task@,
            },
            Step::StatusAt { command, dir } => StepModel::StatusAt {
                command: command@,
                dir: dir@,
            },
            Step::Send { upload } => StepModel::Send { upload: upload@ },
            Step::Receive { path } => StepModel::Receive { path: path@ },
            Step::Done(reply) => StepModel::Done(reply@),
        }
    }
}

/// What comes of a step as a value: the next step, or a failure.
pub open spec fn outcome(r: RemoteResult<Step>) -> Result<StepModel, Failure> {
    match r {
        Ok(step) => Ok(step@),
        Err(e) => Err(e@),
    }
}

/// The output of a command as a value.
pub open spec fn output_of(r: RemoteResult<String>) -> Result<Seq<char>, Failure> {
    match r {
        Ok(s) => Ok(s@),
        Err(e) => Err(e@),
    }
}

/// The exit status and the output of a command as a value.
pub open spec fn status_of(r: RemoteResult<(u32, String)>) -> Result<(u32, Seq<char>), Failure> {
    match r {
        Ok((code, s)) => Ok((code, s@)),
        Err(e) => Err(e@),
    }
}

/// Whether a stream was opened, as a value.
pub open spec fn opened_of(r: Result<(), String>) -> Result<(), Seq<char>> {
    match r {
        Ok(()) => Ok(()),
        Err(s) => Err(s@),
    }
}

} // verus!
