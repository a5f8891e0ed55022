//! The values that stand for the types of the client: each part of a value is that part of
//! what it stands for.

use vstd::prelude::*;

use crate::entry::nodes;
use crate::entry::Entry;
use crate::entry::Metadata;
use crate::entry::Node;
use crate::error::opt_text;
use crate::error::Failure;
use crate::error::RemoteError;
use crate::error::RemoteErrorType;
use crate::listing::group_texts;
use crate::step::opened_of;
use crate::step::outcome;
use crate::step::output_of;
use crate::step::status_of;
use crate::step::OutputTask;
use crate::step::OutputTaskModel;
use crate::step::Reply;
use crate::step::ReplyModel;
use crate::step::Request;
use crate::step::RequestModel;
use crate::step::StatusTask;
use crate::step::StatusTaskModel;
use crate::step::Step;
use crate::step::StepModel;
use crate::step::Upload;
use crate::text::texts;

verus! {

/// Whether `text` is the text of a string that may be there.
pub open spec fn same_text(text: Option<Seq<char>>, s: Option<String>) -> bool {
    match (text, s) {
        (Some(t), Some(s)) => t == s@,
        (None, None) => true,
        _ => false,
    }
}

/// A string that may be there is seen as its text.
pub proof fn law_optional_string_is_its_text(s: Option<String>)
    ensures
        same_text(opt_text(s), s),
{
}

/// Metadata is seen in full.
pub proof fn law_metadata_is_seen_in_full(m: Metadata)
    ensures
        m@.atime == m.atime@,
        m@.ctime == m.ctime@,
        m@.mtime == m.mtime@,
        m@.gid == m.gid,
        m@.mode == m.mode,
        m@.size == m.size,
        m@.uid == m.uid,
        same_text(m@.symlink, m.symlink),
{
}

/// An entry is seen as the kind that it is, with its name, path, extension and metadata.
pub proof fn law_entry_is_seen_in_full(e: Entry)
    ensures
        e matches Entry::Directory(d) ==> {
            &&& e@ matches Node::Directory { name, abs_path, facts }
            &&& name == d.name@ && abs_path == d.abs_path@ && facts == d.metadata@
            &&& e@.name() == name && e@.abs_path() == abs_path && e@.facts() == facts
        },
        e matches Entry::File(f) ==> {
            &&& e@ matches Node::File { name, abs_path, extension, facts }
            &&& name == f.name@ && abs_path == f.abs_path@ && facts == f.metadata@
            &&& same_text(extension, f.extension)
            &&& e@.name() == name && e@.abs_path() == abs_path && e@.facts() == facts
        },
{
}

/// A collection is seen item by item, in its order.
pub proof fn law_collections_are_seen_in_order(
    entries: Seq<Entry>,
    strings: Seq<String>,
    groups: Seq<Option<String>>,
    i: int,
)
    ensures
        nodes(entries).len() == entries.len(),
        texts(strings).len() == strings.len(),
        group_texts(groups).len() == groups.len(),
        0 <= i < entries.len() ==> nodes(entries)[i] == entries[i]@,
        0 <= i < strings.len() ==> texts(strings)[i] == strings[i]@,
        0 <= i < groups.len() ==> same_text(group_texts(groups)[i], groups[i]),
{
}

/// A failure is seen with its kind and its message.
pub proof fn law_failure_is_seen_in_full(e: RemoteError)
    ensures
        e@.kind == e.kind,
        same_text(e@.msg, e.msg),
{
}

/// Kinds of failure are told apart by their words.
pub proof fn law_words_tell_kinds_apart(a: RemoteErrorType, b: RemoteErrorType)
    requires
        a.words() == b.words(),
    ensures
        a == b,
{
    lemma_words_of_kinds(a);
    lemma_words_of_kinds(b);
}

/// The length of the words for a kind, with one of their letters where other words are as long.
proof fn lemma_words_of_kinds(kind: RemoteErrorType)
    ensures
        ({
            let w = kind.words();
            match kind {
                RemoteErrorType::AuthenticationFailed => w.len() == 21 && w[0] == 'a',
                RemoteErrorType::BadAddress => w.len() == 11,
                RemoteErrorType::ConnectionError => w.len() == 16,
                RemoteErrorType::CouldNotOpenFile => w.len() == 19 && w[10] == 'o',
                RemoteErrorType::CouldNotRemoveFile => w.len() == 21 && w[0] == 'c',
                RemoteErrorType::DirectoryAlreadyExists => w.len() == 24,
                RemoteErrorType::DirectoryNotEmpty => w.len() == 22,
                RemoteErrorType::FileCreateDenied => w.len() == 21 && w[0] == 'f',
                RemoteErrorType::NoSuchFileOrDirectory => w.len() == 25,
                RemoteErrorType::NotConnected => w.len() == 17,
                RemoteErrorType::ProtocolError => w.len() == 14,
                RemoteErrorType::StatFailed => w.len() == 19 && w[10] == 's',
                RemoteErrorType::UnsupportedFeature => w.len() == 19 && w[10] == 'd',
            }
        }),
{
    reveal_strlit("authentication failed");
    reveal_strlit("bad address");
    reveal_strlit("connection error");
    reveal_strlit("could not open file");
    reveal_strlit("could not remove file");
    reveal_strlit("directory already exists");
    reveal_strlit("directory is not empty");
    reveal_strlit("failed to create file");
    reveal_strlit("no such file or directory");
    reveal_strlit("not connected yet");
    reveal_strlit("protocol error");
    reveal_strlit("could not stat file");
    reveal_strlit("unsupported feature");
}

/// A request is seen as the request that it is, with its paths and whatever else it has.
pub proof fn law_request_is_seen_in_full(r: Request)
    ensures
        match (r, r@) {
            (Request::Pwd, RequestModel::Pwd) => true,
            (Request::ChangeDir { dir }, RequestModel::ChangeDir { dir: d }) => d == dir@,
            (Request::ListDir { path }, RequestModel::ListDir { path: p }) => p == path@,
            (Request::Stat { path }, RequestModel::Stat { path: p }) => p == path@,
            (Request::Exists { path }, RequestModel::Exists { path: p }) => p == path@,
            (Request::SetStat { path, metadata }, RequestModel::SetStat { path: p, facts }) => p
                == path@ && facts == metadata@,
            (Request::RemoveFile { path }, RequestModel::RemoveFile { path: p }) => p == path@,
            (Request::RemoveDir { path }, RequestModel::RemoveDir { path: p }) => p == path@,
            (Request::RemoveDirAll { path }, RequestModel::RemoveDirAll { path: p }) => p == path@,
            (Request::CreateDir { path, mode }, RequestModel::CreateDir { path: p, mode: m }) => p
                == path@ && m == mode,
            (Request::Symlink { path, target }, RequestModel::Symlink { path: p, target: t }) => p
                == path@ && t == target@,
            (Request::Copy { src, dest }, RequestModel::Copy { src: s, dest: d }) => s == src@ && d
                == dest@,
            (Request::Move { src, dest }, RequestModel::Move { src: s, dest: d }) => s == src@ && d
                == dest@,
            (Request::Exec { cmd }, RequestModel::Exec { cmd: c }) => c == cmd@,
            (Request::Create { path, metadata }, RequestModel::Create { path: p, facts }) => p
                == path@ && facts == metadata@,
            (Request::Open { path }, RequestModel::Open { path: p }) => p == path@,
            _ => false,
        },
{
}

/// A task for an output is seen as the task that it is, with its path.
pub proof fn law_output_task_is_seen_in_full(t: OutputTask)
    ensures
        match (t, t@) {
            (OutputTask::ChangeDir { dir }, OutputTaskModel::ChangeDir { dir: d }) => d == dir@,
            (OutputTask::ListDir { path }, OutputTaskModel::ListDir { path: p }) => p == path@,
            (OutputTask::Stat { path }, OutputTaskModel::Stat { path: p }) => p == path@,
            _ => false,
        },
{
}

/// A task for an exit status is seen as the task that it is, with all that it has.
pub proof fn law_status_task_is_seen_in_full(t: StatusTask)
    ensures
        match (t, t@) {
            (StatusTask::Exists, StatusTaskModel::Exists) => true,
            (StatusTask::StatKind { path }, StatusTaskModel::StatKind { path: p }) => p == path@,
            (
                StatusTask::IfPresent { command, refusal, about },
                StatusTaskModel::IfPresent { command: c, refusal: k, about: a },
            ) => c == command@ && k == refusal && same_text(a, about),
            (
                StatusTask::IfAbsent { taken, command, refusal },
                StatusTaskModel::IfAbsent { taken: t, command: c, refusal: k },
            ) => t == taken && c == command@ && k == refusal,
            (
                StatusTask::LinkTarget { probe, command },
                StatusTaskModel::LinkTarget { probe: p, command: c },
            ) => p == probe@ && c == command@,
            (
                StatusTask::SetStat { path, mode, atime, mtime },
                StatusTaskModel::SetStat { path: p, mode: o, atime: a, mtime: m },
            ) => p == path@ && o == mode && a == atime@ && m == mtime@,
            (
                StatusTask::SetMode { path, atime, mtime },
                StatusTaskModel::SetMode { path: p, atime: a, mtime: m },
            ) => p == path@ && a == atime@ && m == mtime@,
            (
                StatusTask::SetAccess { path, mtime },
                StatusTaskModel::SetAccess { path: p, mtime: m },
            ) => p == path@ && m == mtime@,
            (StatusTask::SetModified, StatusTaskModel::SetModified) => true,
            (StatusTask::Open { path }, StatusTaskModel::Open { path: p }) => p == path@,
            (
                StatusTask::Effect { refusal, about },
                StatusTaskModel::Effect { refusal: k, about: a },
            ) => k == refusal && same_text(a, about),
            _ => false,
        },
{
}

/// A reply is seen as the reply that it is, with all that it tells.
pub proof fn law_reply_is_seen_in_full(r: Reply)
    ensures
        match (r, r@) {
            (Reply::Unit, ReplyModel::Unit) => true,
            (Reply::Flag(b), ReplyModel::Flag(c)) => c == b,
            (Reply::Path(p), ReplyModel::Path(q)) => q == p@,
            (Reply::Entry(e), ReplyModel::Entry(n)) => n == e@,
            (Reply::Entries(v), ReplyModel::Entries(n)) => n.len() == v@.len() && forall|i: int|
                0 <= i < v@.len() ==> #[trigger] n[i] == v@[i]@,
            (
                Reply::Output { status, stdout },
                ReplyModel::Output { status: code, stdout: text },
            ) => code == status && text == stdout@,
            (Reply::Stream, ReplyModel::Stream) => true,
            _ => false,
        },
{
}

/// A file that is about to be sent is seen in full.
pub proof fn law_upload_is_seen_in_full(u: Upload)
    ensures
        u@.path == u.path@,
        u@.mode == u.mode,
        u@.size == u.size,
        u@.mtime == u.mtime,
        u@.atime == u.atime,
{
}

/// A step is seen as the step that it is, with its command and all else that it has.
pub proof fn law_step_is_seen_in_full(s: Step)
    ensures
        match (s, s@) {
            (
                Step::Output { command, reading },
                StepModel::Output { command: c, reading: r },
            ) => c == command@ && r == reading@,
            (Step::Status { command, task }, StepModel::Status { command: c, task: t }) => c
                == command@ && t == task@,
            (Step::StatusAt { command, dir }, StepModel::StatusAt { command: c, dir: d }) => c
                == command@ && d == dir@,
            (Step::Send { upload }, StepModel::Send { upload: u }) => u == upload@,
            (Step::Receive { path }, StepModel::Receive { path: p }) => p == path@,
            (Step::Done(reply), StepModel::Done(r)) => r == reply@,
            _ => false,
        },
{
}

/// What came of an exchange is seen as it came: a success with its value, a failure with its
/// cause.
pub proof fn law_outcomes_are_seen_as_they_came(
    step: Step,
    text: String,
    code: u32,
    cause: RemoteError,
)
    ensures
        outcome(Ok(step)) == Ok::<StepModel, Failure>(step@),
        outcome(Err(cause)) == Err::<StepModel, Failure>(cause@),
        output_of(Ok(text)) == Ok::<Seq<char>, Failure>(text@),
        output_of(Err(cause)) == Err::<Seq<char>, Failure>(cause@),
        status_of(Ok((code, text))) == Ok::<(u32, Seq<char>), Failure>((code, text@)),
        status_of(Err(cause)) == Err::<(u32, Seq<char>), Failure>(cause@),
        opened_of(Ok(())) == Ok::<(), Seq<char>>(()),
        opened_of(Err(text)) == Err::<(), Seq<char>>(text@),
{
}

} // verus!
