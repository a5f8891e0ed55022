//! The decisions of the client: the first step of a request, and the step that follows from
//! what came back for the last one.

use vstd::prelude::*;

use crate::entry::Facts;
use crate::entry::Metadata;
use crate::error::opt_text;
use crate::error::Failure;
use crate::error::RemoteError;
use crate::error::RemoteErrorType;
use crate::error::RemoteResult;
use crate::listing::line_node;
use crate::listing::listing_nodes;
use crate::listing::parse_line;
use crate::listing::parse_listing;
use crate::path::absolutize;
use crate::path::joined;
use crate::path::parent;
use crate::path::parent_of;
use crate::pex::UnixPex;
use crate::shell;
use crate::shell::change_dir_command;
use crate::shell::chmod_command;
use crate::shell::copy_command;
use crate::shell::create_dir_command;
use crate::shell::exists_command;
use crate::shell::in_quotes;
use crate::shell::is_directory_command;
use crate::shell::list_command;
use crate::shell::move_command;
use crate::shell::remove_dir_all_command;
use crate::shell::remove_dir_command;
use crate::shell::remove_file_command;
use crate::shell::stat_dir_command;
use crate::shell::stat_file_command;
use crate::shell::symlink_command;
use crate::shell::touch_access_command;
use crate::shell::touch_modified_command;
use crate::step::opened_of;
use crate::step::outcome;
use crate::step::output_of;
use crate::step::status_of;
use crate::step::OutputTask;
use crate::step::OutputTaskModel;
use crate::step::Reply;
use crate::step::ReplyModel;
use crate::step::Request;
use crate::step::RequestModel;
use crate::step::StatusTask;
use crate::step::StatusTaskModel;
use crate::step::Step;
use crate::step::StepModel;
use crate::step::Upload;
use crate::step::UploadModel;
use crate::text::lines_of;
use crate::text::part;
use crate::text::trim;
use crate::text::trimmed;
use crate::time::elapsed;
use crate::time::in_calendar;
use crate::time::Instant;
use crate::time::Timestamp;

verus! {

/// The permissions of a new file that was given none.
pub const DEFAULT_MODE: i32 = 0o644;

/// The step that asks whether something is at `path`, taken below `wrkdir`, and goes on with
/// `task`.
pub open spec fn probe(wrkdir: Seq<char>, path: Seq<char>, task: StatusTaskModel) -> StepModel {
    StepModel::Status { command: exists_command(joined(wrkdir, path)), task }
}

/// The step that asks whether something is at `path`, and runs `command` only where it is.
pub open spec fn change_present(
    wrkdir: Seq<char>,
    path: Seq<char>,
    command: Seq<char>,
    refusal: RemoteErrorType,
    about: Option<Seq<char>>,
) -> StepModel {
    probe(wrkdir, path, StatusTaskModel::IfPresent { command, refusal, about })
}

/// The file to send for new contents at `path`.
pub open spec fn upload_of(path: Seq<char>, facts: Facts) -> UploadModel {
    UploadModel {
        path,
        mode: match facts.mode {
            Some(mode) => mode.mode(),
            None => DEFAULT_MODE as int,
        },
        size: facts.size,
        mtime: elapsed(facts.mtime),
        atime: elapsed(facts.atime),
    }
}

/// The first step of a request on a connected client.
pub open spec fn first_step(wrkdir: Seq<char>, request: RequestModel) -> StepModel {
    match request {
        RequestModel::Pwd => StepModel::Done(ReplyModel::Path(wrkdir)),
        RequestModel::ChangeDir { dir } => {
            let dir = joined(wrkdir, dir);
            StepModel::Output {
                command: change_dir_command(dir),
                reading: OutputTaskModel::ChangeDir { dir },
            }
        },
        RequestModel::ListDir { path } => {
            let path = joined(wrkdir, path);
            StepModel::Output {
                command: list_command(path),
                reading: OutputTaskModel::ListDir { path },
            }
        },
        RequestModel::Stat { path } => {
            let path = joined(wrkdir, path);
            StepModel::Status {
                command: is_directory_command(joined(wrkdir, path)),
                task: StatusTaskModel::StatKind { path },
            }
        },
        RequestModel::Exists { path } => probe(wrkdir, path, StatusTaskModel::Exists),
        RequestModel::SetStat { path, facts } => {
            let path = joined(wrkdir, path);
            let (mode, atime, mtime) = (facts.mode, facts.atime, facts.mtime);
            probe(wrkdir, path, StatusTaskModel::SetStat { path, mode, atime, mtime })
        },
        RequestModel::RemoveFile { path } => {
            let path = joined(wrkdir, path);
            let refusal = RemoteErrorType::CouldNotRemoveFile;
            change_present(wrkdir, path, remove_file_command(path), refusal, None)
        },
        RequestModel::RemoveDir { path } => {
            let path = joined(wrkdir, path);
            let refusal = RemoteErrorType::DirectoryNotEmpty;
            change_present(wrkdir, path, remove_dir_command(path), refusal, None)
        },
        RequestModel::RemoveDirAll { path } => {
            let path = joined(wrkdir, path);
            let refusal = RemoteErrorType::CouldNotRemoveFile;
            change_present(wrkdir, path, remove_dir_all_command(path), refusal, None)
        },
        RequestModel::CreateDir { path, mode } => {
            let path = joined(wrkdir, path);
            probe(
                wrkdir,
                path,
                StatusTaskModel::IfAbsent {
                    taken: RemoteErrorType::DirectoryAlreadyExists,
                    command: create_dir_command(mode, path),
                    refusal: RemoteErrorType::FileCreateDenied,
                },
            )
        },
        RequestModel::Symlink { path, target } => {
            let path = joined(wrkdir, path);
            probe(
                wrkdir,
                target,
                StatusTaskModel::LinkTarget {
                    probe: exists_command(joined(wrkdir, path)),
                    command: symlink_command(target, path),
                },
            )
        },
        RequestModel::Copy { src, dest } => {
            let src = joined(wrkdir, src);
            let dest = joined(wrkdir, dest);
            let refusal = RemoteErrorType::FileCreateDenied;
            change_present(wrkdir, src, copy_command(src, dest), refusal, Some(in_quotes(dest)))
        },
        RequestModel::Move { src, dest } => {
            let src = joined(wrkdir, src);
            let dest = joined(wrkdir, dest);
            let refusal = RemoteErrorType::FileCreateDenied;
            change_present(wrkdir, src, move_command(src, dest), refusal, Some(in_quotes(dest)))
        },
        RequestModel::Exec { cmd } => StepModel::StatusAt { command: cmd, dir: wrkdir },
        RequestModel::Create { path, facts } => StepModel::Send {
            upload: upload_of(joined(wrkdir, path), facts),
        },
        RequestModel::Open { path } => {
            let path = joined(wrkdir, path);
            probe(wrkdir, path, StatusTaskModel::Open { path })
        },
    }
}

/// What comes of a request: it needs a connection.
pub open spec fn start_of(
    connected: bool,
    wrkdir: Seq<char>,
    request: RequestModel,
) -> Result<StepModel, Failure> {
    if !connected {
        Err(Failure::plain(RemoteErrorType::NotConnected))
    } else {
        Ok(first_step(wrkdir, request))
    }
}

/// Whether a command was run and succeeded.
pub open spec fn succeeded(status: Result<(u32, Seq<char>), Failure>) -> bool {
    match status {
        Ok((code, _)) => code == 0,
        Err(_) => false,
    }
}

/// What comes of a command that had to succeed: `next` where it did, `refused` where it
/// failed, and a protocol error where it was not run.
pub open spec fn after_success(
    status: Result<(u32, Seq<char>), Failure>,
    next: StepModel,
    refused: Failure,
) -> Result<StepModel, Failure> {
    match status {
        Ok((code, _)) => if code == 0 {
            Ok(next)
        } else {
            Err(refused)
        },
        Err(e) => Err(Failure::told(RemoteErrorType::ProtocolError, e.words())),
    }
}

/// The step that sets the time of the last access of `path`, and that of the last change
/// after it.
pub open spec fn set_access(path: Seq<char>, atime: Instant, mtime: Instant) -> StepModel {
    StepModel::Status {
        command: touch_access_command(atime, path),
        task: StatusTaskModel::SetAccess { path, mtime },
    }
}

/// Whether the time that is to be set next, where one is, can be written as a date.
pub open spec fn next_time_has_date(
    task: StatusTaskModel,
    status: Result<(u32, Seq<char>), Failure>,
) -> bool {
    succeeded(status) ==> match task {
        StatusTaskModel::SetStat { mode, atime, .. } => mode is Some || in_calendar(atime),
        StatusTaskModel::SetMode { atime, .. } => in_calendar(atime),
        StatusTaskModel::SetAccess { mtime, .. } => in_calendar(mtime),
        _ => true,
    }
}

/// What comes of the exit status of a command.
pub open spec fn after_status(
    task: StatusTaskModel,
    status: Result<(u32, Seq<char>), Failure>,
) -> Result<StepModel, Failure> {
    let stat_failed = Failure::plain(RemoteErrorType::StatFailed);
    match task {
        StatusTaskModel::Exists => match status {
            Ok((code, _)) => Ok(StepModel::Done(ReplyModel::Flag(code == 0))),
            Err(e) => Err(Failure::told(RemoteErrorType::StatFailed, e.words())),
        },
        StatusTaskModel::StatKind { path } => match status {
            Ok((code, _)) => Ok(
                StepModel::Output {
                    command: if code == 0 {
                        stat_dir_command(path)
                    } else {
                        stat_file_command(path)
                    },
                    reading: OutputTaskModel::Stat { path },
                },
            ),
            Err(e) => Err(Failure::told(RemoteErrorType::StatFailed, e.words())),
        },
        StatusTaskModel::IfPresent { command, refusal, about } => if succeeded(status) {
            Ok(StepModel::Status { command, task: StatusTaskModel::Effect { refusal, about } })
        } else {
            Err(Failure::plain(RemoteErrorType::NoSuchFileOrDirectory))
        },
        StatusTaskModel::IfAbsent { taken, command, refusal } => if succeeded(status) {
            Err(Failure::plain(taken))
        } else {
            Ok(
                StepModel::Status {
                    command,
                    task: StatusTaskModel::Effect { refusal, about: None },
                },
            )
        },
        StatusTaskModel::LinkTarget { probe, command } => if succeeded(status) {
            Ok(
                StepModel::Status {
                    command: probe,
                    task: StatusTaskModel::IfAbsent {
                        taken: RemoteErrorType::FileCreateDenied,
                        command,
                        refusal: RemoteErrorType::FileCreateDenied,
                    },
                },
            )
        } else {
            Err(Failure::plain(RemoteErrorType::NoSuchFileOrDirectory))
        },
        StatusTaskModel::SetStat { path, mode, atime, mtime } => if succeeded(status) {
            Ok(
                match mode {
                    Some(mode) => StepModel::Status {
                        command: chmod_command(mode, path),
                        task: StatusTaskModel::SetMode { path, atime, mtime },
                    },
                    None => set_access(path, atime, mtime),
                },
            )
        } else {
            Err(Failure::plain(RemoteErrorType::NoSuchFileOrDirectory))
        },
        StatusTaskModel::SetMode { path, atime, mtime } => after_success(
            status,
            set_access(path, atime, mtime),
            stat_failed,
        ),
        StatusTaskModel::SetAccess { path, mtime } => after_success(
            status,
            StepModel::Status {
                command: touch_modified_command(mtime, path),
                task: StatusTaskModel::SetModified,
            },
            stat_failed,
        ),
        StatusTaskModel::SetModified => after_success(
            status,
            StepModel::Done(ReplyModel::Unit),
            stat_failed,
        ),
        StatusTaskModel::Open { path } => if succeeded(status) {
            Ok(StepModel::Receive { path })
        } else {
            Err(Failure::plain(RemoteErrorType::NoSuchFileOrDirectory))
        },
        StatusTaskModel::Effect { refusal, about } => after_success(
            status,
            StepModel::Done(ReplyModel::Unit),
            Failure { kind: refusal, msg: about },
        ),
    }
}

/// The directory that the output of a change of directory reports, where that succeeded:
/// the output starts with the status 0, and the directory follows.
pub open spec fn reached_dir(output: Seq<char>) -> Option<Seq<char>> {
    let output = trimmed(output);
    if output.len() > 0 && output[0] == '0' {
        Some(trimmed(output.skip(1)))
    } else {
        None
    }
}

/// What comes of the output of a command.
pub open spec fn after_output(
    task: OutputTaskModel,
    output: Result<Seq<char>, Failure>,
    this_year: nat,
) -> Result<StepModel, Failure> {
    match output {
        Err(e) => Err(Failure::told(RemoteErrorType::ProtocolError, e.words())),
        Ok(output) => match task {
            OutputTaskModel::ChangeDir { dir } => match reached_dir(output) {
                Some(reached) => Ok(StepModel::Done(ReplyModel::Path(reached))),
                None => Err(
                    Failure::told(RemoteErrorType::NoSuchFileOrDirectory, in_quotes(dir)),
                ),
            },
            OutputTaskModel::ListDir { path } => Ok(
                StepModel::Done(
                    ReplyModel::Entries(listing_nodes(path, lines_of(output), this_year)),
                ),
            ),
            OutputTaskModel::Stat { path } => match parent_of(path) {
                None => Err(Failure::told(RemoteErrorType::StatFailed, "Path has no parent"@)),
                Some(above) => match line_node(above, trimmed(output), this_year) {
                    Some(node) => Ok(StepModel::Done(ReplyModel::Entry(node))),
                    None => Err(Failure::plain(RemoteErrorType::NoSuchFileOrDirectory)),
                },
            },
        },
    }
}

/// The working directory once the output of a command is there: it changes only where a
/// change of directory succeeded.
pub open spec fn wrkdir_after_output(
    wrkdir: Seq<char>,
    task: OutputTaskModel,
    output: Result<Seq<char>, Failure>,
) -> Seq<char> {
    match (task, output) {
        (OutputTaskModel::ChangeDir { .. }, Ok(output)) => match reached_dir(output) {
            Some(reached) => reached,
            None => wrkdir,
        },
        _ => wrkdir,
    }
}

/// What comes of a command of the caller.
pub open spec fn after_exec(status: Result<(u32, Seq<char>), Failure>) -> Result<
    StepModel,
    Failure,
> {
    match status {
        Ok((status, stdout)) => Ok(StepModel::Done(ReplyModel::Output { status, stdout })),
        Err(e) => Err(e),
    }
}

/// What comes of the attempt to open a stream.
pub open spec fn after_opening(
    opened: Result<(), Seq<char>>,
    refusal: RemoteErrorType,
) -> Result<StepModel, Failure> {
    match opened {
        Ok(()) => Ok(StepModel::Done(ReplyModel::Stream)),
        Err(why) => Err(Failure::told(refusal, why)),
    }
}

/// Asks whether something is at `path`, and goes on with `task`.
fn ask(wrkdir: &str, path: &str, task: StatusTask) -> (r: Step)
    ensures
        r@ == probe(wrkdir@, path@, task@),
{
    let there = absolutize(wrkdir, path);
    Step::Status { command: shell::test_exists(there.as_str()), task }
}

/// Asks whether something is at `path`, and runs `command` only where it is.
fn ask_to_change(
    wrkdir: &str,
    path: &str,
    command: String,
    refusal: RemoteErrorType,
    about: Option<String>,
) -> (r: Step)
    ensures
        r@ == change_present(wrkdir@, path@, command@, refusal, opt_text(about)),
{
    ask(wrkdir, path, StatusTask::IfPresent { command, refusal, about })
}

/// The file to send for new contents at `path`.
fn upload(path: String, metadata: &Metadata) -> (r: Upload)
    ensures
        r@ == upload_of(path@, metadata@),
{
    let mode: i32 = match metadata.mode {
        Some(mode) => {
            proof {
                crate::pex::law_mode_gives_back_permissions(mode);
            }
            u32::from(mode) as i32
        },
        None => DEFAULT_MODE,
    };
    Upload {
        path,
        mode,
        size: metadata.size,
        mtime: metadata.mtime.secs_since_epoch(),
        atime: metadata.atime.secs_since_epoch(),
    }
}

/// The first step that sets the attributes of `path`.
fn set_stat(wrkdir: &str, path: &str, metadata: &Metadata) -> (r: Step)
    ensures
        r@ == first_step(wrkdir@, RequestModel::SetStat { path: path@, facts: metadata@ }),
{
    let path = absolutize(wrkdir, path);
    let there = path.clone();
    let (mode, atime, mtime) = (metadata.mode, metadata.atime, metadata.mtime);
    ask(wrkdir, there.as_str(), StatusTask::SetStat { path, mode, atime, mtime })
}

/// The first step that makes a directory at `path`.
fn create_dir(wrkdir: &str, path: &str, mode: UnixPex) -> (r: Step)
    ensures
        r@ == first_step(wrkdir@, RequestModel::CreateDir { path: path@, mode }),
{
    let path = absolutize(wrkdir, path);
    let command = shell::create_dir(mode, path.as_str());
    ask(
        wrkdir,
        path.as_str(),
        StatusTask::IfAbsent {
            taken: RemoteErrorType::DirectoryAlreadyExists,
            command,
            refusal: RemoteErrorType::FileCreateDenied,
        },
    )
}

/// The first step that makes a link to `target` at `path`.
fn symlink(wrkdir: &str, path: &str, target: &str) -> (r: Step)
    ensures
        r@ == first_step(wrkdir@, RequestModel::Symlink { path: path@, target: target@ }),
{
    let path = absolutize(wrkdir, path);
    let there = absolutize(wrkdir, path.as_str());
    let probe = shell::test_exists(there.as_str());
    let command = shell::symlink(target, path.as_str());
    ask(wrkdir, target, StatusTask::LinkTarget { probe, command })
}

/// The first step that copies `src` to `dest`.
fn copy(wrkdir: &str, src: &str, dest: &str) -> (r: Step)
    ensures
        r@ == first_step(wrkdir@, RequestModel::Copy { src: src@, dest: dest@ }),
{
    let src = absolutize(wrkdir, src);
    let dest = absolutize(wrkdir, dest);
    let command = shell::copy(src.as_str(), dest.as_str());
    let about = Some(shell::quote(dest.as_str()));
    ask_to_change(wrkdir, src.as_str(), command, RemoteErrorType::FileCreateDenied, about)
}

/// The first step that moves `src` to `dest`.
fn mov(wrkdir: &str, src: &str, dest: &str) -> (r: Step)
    ensures
        r@ == first_step(wrkdir@, RequestModel::Move { src: src@, dest: dest@ }),
{
    let src = absolutize(wrkdir, src);
    let dest = absolutize(wrkdir, dest);
    let command = shell::mov(src.as_str(), dest.as_str());
    let about = Some(shell::quote(dest.as_str()));
    ask_to_change(wrkdir, src.as_str(), command, RemoteErrorType::FileCreateDenied, about)
}

/// Begins a request in the working directory `wrkdir`, given whether the client is
/// connected.
pub fn start(connected: bool, wrkdir: &str, request: Request) -> (r: RemoteResult<Step>)
    ensures
        outcome(r) == start_of(connected, wrkdir@, request@),
{
    if !connected {
        return Err(RemoteError::new(RemoteErrorType::NotConnected));
    }
    let step = match request {
        Request::Pwd => Step::Done(Reply::Path(wrkdir.to_owned())),
        Request::ChangeDir { dir } => {
            let dir = absolutize(wrkdir, dir.as_str());
            let command = shell::change_dir(dir.as_str());
            Step::Output { command, reading: OutputTask::ChangeDir { dir } }
        },
        Request::ListDir { path } => {
            let path = absolutize(wrkdir, path.as_str());
            let command = shell::list(path.as_str());
            Step::Output { command, reading: OutputTask::ListDir { path } }
        },
        Request::Stat { path } => {
            let path = absolutize(wrkdir, path.as_str());
            let there = absolutize(wrkdir, path.as_str());
            let command = shell::test_directory(there.as_str());
            Step::Status { command, task: StatusTask::StatKind { path } }
        },
        Request::Exists { path } => ask(wrkdir, path.as_str(), StatusTask::Exists),
        Request::SetStat { path, metadata } => set_stat(wrkdir, path.as_str(), &metadata),
        Request::RemoveFile { path } => {
            let path = absolutize(wrkdir, path.as_str());
            let command = shell::remove_file(path.as_str());
            let refusal = RemoteErrorType::CouldNotRemoveFile;
            ask_to_change(wrkdir, path.as_str(), command, refusal, None)
        },
        Request::RemoveDir { path } => {
            let path = absolutize(wrkdir, path.as_str());
            let command = shell::remove_dir(path.as_str());
            let refusal = RemoteErrorType::DirectoryNotEmpty;
            ask_to_change(wrkdir, path.as_str(), command, refusal, None)
        },
        Request::RemoveDirAll { path } => {
            let path = absolutize(wrkdir, path.as_str());
            let command = shell::remove_dir_all(path.as_str());
            let refusal = RemoteErrorType::CouldNotRemoveFile;
            ask_to_change(wrkdir, path.as_str(), command, refusal, None)
        },
        Request::CreateDir { path, mode } => create_dir(wrkdir, path.as_str(), mode),
        Request::Symlink { path, target } => symlink(wrkdir, path.as_str(), target.as_str()),
        Request::Copy { src, dest } => copy(wrkdir, src.as_str(), dest.as_str()),
        Request::Move { src, dest } => mov(wrkdir, src.as_str(), dest.as_str()),
        Request::Exec { cmd } => Step::StatusAt { command: cmd, dir: wrkdir.to_owned() },
        Request::Create { path, metadata } => {
            let path = absolutize(wrkdir, path.as_str());
            Step::Send { upload: upload(path, &metadata) }
        },
        Request::Open { path } => {
            let path = absolutize(wrkdir, path.as_str());
            let there = absolutize(wrkdir, path.as_str());
            let command = shell::test_exists(there.as_str());
            Step::Status { command, task: StatusTask::Open { path } }
        },
    };
    Ok(step)
}

/// Whether a command was run and succeeded.
fn is_success(status: &RemoteResult<(u32, String)>) -> (r: bool)
    ensures
        r == succeeded(status_of(*status)),
{
    match status {
        Ok((code, _)) => *code == 0,
        Err(_) => false,
    }
}

/// Whether the command for an attribute succeeded: one that failed could not set it, and one
/// that was not run is a protocol error.
fn check_attribute(status: RemoteResult<(u32, String)>) -> (r: RemoteResult<()>)
    ensures
        match status_of(status) {
            Ok((code, _)) => if code == 0 {
                r is Ok
            } else {
                r is Err && r->Err_0@ == Failure::plain(RemoteErrorType::StatFailed)
            },
            Err(e) => r is Err && r->Err_0@ == Failure::told(
                RemoteErrorType::ProtocolError,
                e.words(),
            ),
        },
{
    match status {
        Ok((code, _)) => if code == 0 {
            Ok(())
        } else {
            Err(RemoteError::new(RemoteErrorType::StatFailed))
        },
        Err(e) => Err(RemoteError::new_ex(RemoteErrorType::ProtocolError, e.message())),
    }
}

/// What comes of a command that had to succeed.
fn need_success(
    status: RemoteResult<(u32, String)>,
    next: Step,
    refused: RemoteError,
) -> (r: RemoteResult<Step>)
    ensures
        outcome(r) == after_success(status_of(status), next@, refused@),
{
    match status {
        Ok((code, _)) => if code == 0 {
            Ok(next)
        } else {
            Err(refused)
        },
        Err(e) => Err(RemoteError::new_ex(RemoteErrorType::ProtocolError, e.message())),
    }
}

/// The step that sets the time of the last access of `path`, and that of the last change
/// after it.
fn touch_access(path: String, atime: Timestamp, mtime: Timestamp) -> (r: Step)
    requires
        in_calendar(atime@),
    ensures
        r@ == set_access(path@, atime@, mtime@),
{
    let command = shell::touch_access(atime, path.as_str());
    Step::Status { command, task: StatusTask::SetAccess { path, mtime } }
}

/// Whether the time that is to be set next, where one is, can be written as a date.
pub fn can_write_next_time(task: &StatusTask, status: &RemoteResult<(u32, String)>) -> (r: bool)
    ensures
        r == next_time_has_date(task@, status_of(*status)),
{
    if !is_success(status) {
        return true;
    }
    match task {
        StatusTask::SetStat { mode, atime, .. } => mode.is_some() || atime.has_date(),
        StatusTask::SetMode { atime, .. } => atime.has_date(),
        StatusTask::SetAccess { mtime, .. } => mtime.has_date(),
        _ => true,
    }
}

/// The failure for a path at which nothing is.
fn no_such() -> (r: RemoteResult<Step>)
    ensures
        outcome(r) == Err::<StepModel, Failure>(
            Failure::plain(RemoteErrorType::NoSuchFileOrDirectory),
        ),
{
    Err(RemoteError::new(RemoteErrorType::NoSuchFileOrDirectory))
}

/// Goes on once the exit status of a command is there. A time that is to be set next must
/// be one that can be written as a date.
pub fn on_status(task: StatusTask, status: RemoteResult<(u32, String)>) -> (r: RemoteResult<Step>)
    requires
        next_time_has_date(task@, status_of(status)),
    ensures
        outcome(r) == after_status(task@, status_of(status)),
{
    match task {
        StatusTask::Exists => match status {
            Ok((code, _)) => Ok(Step::Done(Reply::Flag(code == 0))),
            Err(e) => Err(RemoteError::new_ex(RemoteErrorType::StatFailed, e.message())),
        },
        StatusTask::StatKind { path } => match status {
            Ok((code, _)) => {
                let command = if code == 0 {
                    shell::stat_dir(path.as_str())
                } else {
                    shell::stat_file(path.as_str())
                };
                Ok(Step::Output { command, reading: OutputTask::Stat { path } })
            },
            Err(e) => Err(RemoteError::new_ex(RemoteErrorType::StatFailed, e.message())),
        },
        StatusTask::IfPresent { command, refusal, about } => if is_success(&status) {
            Ok(Step::Status { command, task: StatusTask::Effect { refusal, about } })
        } else {
            no_such()
        },
        StatusTask::IfAbsent { taken, command, refusal } => if is_success(&status) {
            Err(RemoteError::new(taken))
        } else {
            Ok(Step::Status { command, task: StatusTask::Effect { refusal, about: None } })
        },
        StatusTask::LinkTarget { probe, command } => if is_success(&status) {
            let task = StatusTask::IfAbsent {
                taken: RemoteErrorType::FileCreateDenied,
                command,
                refusal: RemoteErrorType::FileCreateDenied,
            };
            Ok(Step::Status { command: probe, task })
        } else {
            no_such()
        },
        StatusTask::SetStat { path, mode, atime, mtime } => if is_success(&status) {
            match mode {
                Some(mode) => {
                    let command = shell::chmod(mode, path.as_str());
                    Ok(
                        Step::Status { command, task: StatusTask::SetMode { path, atime, mtime } },
                    )
                },
                None => Ok(touch_access(path, atime, mtime)),
            }
        } else {
            no_such()
        },
        StatusTask::SetMode { path, atime, mtime } => match check_attribute(status) {
            Ok(()) => Ok(touch_access(path, atime, mtime)),
            Err(e) => Err(e),
        },
        StatusTask::SetAccess { path, mtime } => match check_attribute(status) {
            Ok(()) => {
                let command = shell::touch_modified(mtime, path.as_str());
                Ok(Step::Status { command, task: StatusTask::SetModified })
            },
            Err(e) => Err(e),
        },
        StatusTask::SetModified => need_success(
            status,
            Step::Done(Reply::Unit),
            RemoteError::new(RemoteErrorType::StatFailed),
        ),
        StatusTask::Open { path } => if is_success(&status) {
            Ok(Step::Receive { path })
        } else {
            no_such()
        },
        StatusTask::Effect { refusal, about } => need_success(
            status,
            Step::Done(Reply::Unit),
            RemoteError { kind: refusal, msg: about },
        ),
    }
}

/// The directory that the output of a change of directory reports, where that succeeded.
pub fn read_reached_dir(output: &str) -> (r: Option<String>)
    ensures
        match reached_dir(output@) {
            Some(dir) => r is Some && r->0@ == dir,
            None => r is None,
        },
{
    let output = trim(output);
    let output = output.as_str();
    let n: usize = output.unicode_len();
    if n > 0 && output.get_char(0) == '0' {
        let rest = part(output, 1, n);
        assert(rest@ == output@.skip(1));
        Some(trim(rest.as_str()))
    } else {
        None
    }
}

/// Goes on once the output of a command is there. Times in it are read in the current year.
pub fn on_output(task: OutputTask, output: RemoteResult<String>, this_year: u32) -> (r:
    RemoteResult<Step>)
    ensures
        outcome(r) == after_output(task@, output_of(output), this_year as nat),
{
    let output = match output {
        Ok(output) => output,
        Err(e) => {
            return Err(RemoteError::new_ex(RemoteErrorType::ProtocolError, e.message()));
        },
    };
    match task {
        OutputTask::ChangeDir { dir } => match read_reached_dir(output.as_str()) {
            Some(reached) => Ok(Step::Done(Reply::Path(reached))),
            None => Err(
                RemoteError::new_ex(
                    RemoteErrorType::NoSuchFileOrDirectory,
                    shell::quote(dir.as_str()),
                ),
            ),
        },
        OutputTask::ListDir { path } => Ok(
            Step::Done(Reply::Entries(parse_listing(path.as_str(), output.as_str(), this_year))),
        ),
        OutputTask::Stat { path } => match parent(path.as_str()) {
            None => Err(
                RemoteError::new_ex(RemoteErrorType::StatFailed, "Path has no parent".to_owned()),
            ),
            Some(above) => {
                let line = trim(output.as_str());
                match parse_line(above.as_str(), line.as_str(), this_year) {
                    Some(entry) => Ok(Step::Done(Reply::Entry(entry))),
                    None => no_such(),
                }
            },
        },
    }
}

/// Goes on once a command of the caller was run.
pub fn on_exec(status: RemoteResult<(u32, String)>) -> (r: RemoteResult<Step>)
    ensures
        outcome(r) == after_exec(status_of(status)),
{
    match status {
        Ok((status, stdout)) => Ok(Step::Done(Reply::Output { status, stdout })),
        Err(e) => Err(e),
    }
}

/// Goes on once it was tried to open a stream to the remote host.
pub fn on_send(opened: Result<(), String>) -> (r: RemoteResult<Step>)
    ensures
        outcome(r) == after_opening(opened_of(opened), RemoteErrorType::FileCreateDenied),
{
    match opened {
        Ok(()) => Ok(Step::Done(Reply::Stream)),
        Err(why) => Err(RemoteError::new_ex(RemoteErrorType::FileCreateDenied, why)),
    }
}

/// Goes on once it was tried to open a stream from the remote host.
pub fn on_receive(opened: Result<(), String>) -> (r: RemoteResult<Step>)
    ensures
        outcome(r) == after_opening(opened_of(opened), RemoteErrorType::CouldNotOpenFile),
{
    match opened {
        Ok(()) => Ok(Step::Done(Reply::Stream)),
        Err(why) => Err(RemoteError::new_ex(RemoteErrorType::CouldNotOpenFile, why)),
    }
}

} // verus!
