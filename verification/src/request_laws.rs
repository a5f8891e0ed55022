//! What each request does to the remote host, and what its caller gets.

use vstd::prelude::*;

use crate::client::may_answer;
use crate::client::ClientModel;
use crate::client::FAREWELL;
use crate::conversation::after_exec;
use crate::conversation::after_opening;
use crate::conversation::after_output;
use crate::conversation::after_status;
use crate::conversation::first_step;
use crate::conversation::next_time_has_date;
use crate::conversation::reached_dir;
use crate::conversation::start_of;
use crate::conversation::wrkdir_after_output;
use crate::conversation::DEFAULT_MODE;
use crate::entry::Facts;
use crate::error::Failure;
use crate::error::RemoteErrorType;
use crate::listing::line_node;
use crate::listing::listing_nodes;
use crate::path::joined;
use crate::path::parent_of;
use crate::pex::bit;
use crate::pex::UnixPex;
use crate::shell::at_command;
use crate::shell::change_dir_command;
use crate::shell::chmod_command;
use crate::shell::create_dir_command;
use crate::shell::exists_command;
use crate::shell::is_directory_command;
use crate::shell::list_command;
use crate::shell::octal_mode;
use crate::shell::remove_dir_all_command;
use crate::shell::remove_dir_command;
use crate::shell::remove_file_command;
use crate::shell::stat_dir_command;
use crate::shell::stat_file_command;
use crate::shell::touch_access_command;
use crate::shell::touch_modified_command;
use crate::shell::PWD_COMMAND;
use crate::step::OutputTaskModel;
use crate::step::ReplyModel;
use crate::step::RequestModel;
use crate::step::StatusTaskModel;
use crate::step::StepModel;
use crate::step::STREAM_BUFFER;
use crate::text::is_space;
use crate::text::lemma_middle_is_kept;
use crate::text::lines_of;
use crate::text::numeral;
use crate::text::trimmed;
use crate::text::value_in_base;
use crate::time::utc_text;
use crate::time::Instant;

verus! {

// Connection
/// A client refuses every request as not connected, unless it has a session; with one it may
/// also begin the request, in its own working directory.
pub proof fn law_client_answers_from_its_working_directory(
    client: ClientModel,
    request: RequestModel,
    answer: Result<StepModel, Failure>,
)
    ensures
        may_answer(client, request, answer) <==> {
            ||| answer == Err::<StepModel, Failure>(
                Failure { kind: RemoteErrorType::NotConnected, msg: None },
            )
            ||| client.session is Some && answer == Ok::<StepModel, Failure>(
                first_step(client.wrkdir, request),
            )
        },
{
}

/// Whether a request begins depends on the connection alone.
pub proof fn law_connection_alone_decides_whether_a_request_begins(
    wrkdir: Seq<char>,
    request: RequestModel,
)
    ensures
        start_of(false, wrkdir, request) == Err::<StepModel, Failure>(
            Failure { kind: RemoteErrorType::NotConnected, msg: None },
        ),
        start_of(true, wrkdir, request) == Ok::<StepModel, Failure>(first_step(wrkdir, request)),
{
}

/// The fixed texts and numbers of the client.
pub proof fn law_fixed_values()
    ensures
        FAREWELL@ == "Mandi!"@,
        PWD_COMMAND@ == "pwd"@,
        DEFAULT_MODE == 420,
        STREAM_BUFFER == 65536,
{
}

// Paths
/// Whether a path starts at the root.
pub open spec fn rooted(path: Seq<char>) -> bool {
    path.len() > 0 && path[0] == '/'
}

/// A request whose paths are all written from the working directory.
pub open spec fn written_out(wrkdir: Seq<char>, request: RequestModel) -> RequestModel {
    match request {
        RequestModel::Pwd => request,
        RequestModel::ChangeDir { dir } => RequestModel::ChangeDir { dir: joined(wrkdir, dir) },
        RequestModel::ListDir { path } => RequestModel::ListDir { path: joined(wrkdir, path) },
        RequestModel::Stat { path } => RequestModel::Stat { path: joined(wrkdir, path) },
        RequestModel::Exists { path } => RequestModel::Exists { path: joined(wrkdir, path) },
        RequestModel::SetStat { path, facts } => RequestModel::SetStat {
            path: joined(wrkdir, path),
            facts,
        },
        RequestModel::RemoveFile { path } => RequestModel::RemoveFile {
            path: joined(wrkdir, path),
        },
        RequestModel::RemoveDir { path } => RequestModel::RemoveDir { path: joined(wrkdir, path) },
        RequestModel::RemoveDirAll { path } => RequestModel::RemoveDirAll {
            path: joined(wrkdir, path),
        },
        RequestModel::CreateDir { path, mode } => RequestModel::CreateDir {
            path: joined(wrkdir, path),
            mode,
        },
        RequestModel::Symlink { path, target } => RequestModel::Symlink {
            path: joined(wrkdir, path),
            target,
        },
        RequestModel::Copy { src, dest } => RequestModel::Copy {
            src: joined(wrkdir, src),
            dest: joined(wrkdir, dest),
        },
        RequestModel::Move { src, dest } => RequestModel::Move {
            src: joined(wrkdir, src),
            dest: joined(wrkdir, dest),
        },
        RequestModel::Exec { .. } => request,
        RequestModel::Create { path, facts } => RequestModel::Create {
            path: joined(wrkdir, path),
            facts,
        },
        RequestModel::Open { path } => RequestModel::Open { path: joined(wrkdir, path) },
    }
}

/// A relative path asks for the same as the path that it stands for: below a working
/// directory that starts at the root, a request is the request for the paths written out.
#[verifier::rlimit(40)]
pub proof fn law_relative_path_asks_for_the_path_below(wrkdir: Seq<char>, request: RequestModel)
    requires
        rooted(wrkdir),
    ensures
        first_step(wrkdir, request) == first_step(wrkdir, written_out(wrkdir, request)),
{
    assert forall|p: Seq<char>|
        joined(wrkdir, #[trigger] joined(wrkdir, p)) == joined(wrkdir, p) by {
        lemma_path_below_is_rooted(wrkdir, p);
    }
    match request {
        RequestModel::Pwd => {},
        RequestModel::ChangeDir { .. } => {},
        RequestModel::ListDir { .. } => {},
        RequestModel::Stat { .. } => {},
        RequestModel::Exists { .. } => {},
        RequestModel::SetStat { .. } => {},
        RequestModel::RemoveFile { .. } => {},
        RequestModel::RemoveDir { .. } => {},
        RequestModel::RemoveDirAll { .. } => {},
        RequestModel::CreateDir { .. } => {},
        RequestModel::Symlink { .. } => {},
        RequestModel::Copy { .. } => {},
        RequestModel::Move { .. } => {},
        RequestModel::Exec { .. } => {},
        RequestModel::Create { .. } => {},
        RequestModel::Open { .. } => {},
    }
}

proof fn lemma_path_below_is_rooted(wrkdir: Seq<char>, path: Seq<char>)
    requires
        rooted(wrkdir),
    ensures
        rooted(joined(wrkdir, path)),
        joined(wrkdir, joined(wrkdir, path)) == joined(wrkdir, path),
{
}

/// Whether all paths of a request start at the root.
pub open spec fn all_rooted(request: RequestModel) -> bool {
    match request {
        RequestModel::Pwd => false,
        RequestModel::Exec { .. } => false,
        RequestModel::ChangeDir { dir } => rooted(dir),
        RequestModel::ListDir { path } => rooted(path),
        RequestModel::Stat { path } => rooted(path),
        RequestModel::Exists { path } => rooted(path),
        RequestModel::SetStat { path, .. } => rooted(path),
        RequestModel::RemoveFile { path } => rooted(path),
        RequestModel::RemoveDir { path } => rooted(path),
        RequestModel::RemoveDirAll { path } => rooted(path),
        RequestModel::CreateDir { path, .. } => rooted(path),
        RequestModel::Symlink { path, target } => rooted(path) && rooted(target),
        RequestModel::Copy { src, dest } => rooted(src) && rooted(dest),
        RequestModel::Move { src, dest } => rooted(src) && rooted(dest),
        RequestModel::Create { path, .. } => rooted(path),
        RequestModel::Open { path } => rooted(path),
    }
}

/// A path from the root means the same whatever the working directory is.
#[verifier::rlimit(40)]
pub proof fn law_rooted_path_does_not_depend_on_the_working_directory(
    wrkdir: Seq<char>,
    other: Seq<char>,
    request: RequestModel,
)
    requires
        all_rooted(request),
    ensures
        first_step(wrkdir, request) == first_step(other, request),
{
}

/// A command about a path names that path: commands about different paths differ.
#[verifier::rlimit(40)]
pub proof fn law_commands_tell_paths_apart(p: Seq<char>, q: Seq<char>)
    ensures
        exists_command(p) == exists_command(q) ==> p == q,
        is_directory_command(p) == is_directory_command(q) ==> p == q,
        change_dir_command(p) == change_dir_command(q) ==> p == q,
        list_command(p) == list_command(q) ==> p == q,
        stat_dir_command(p) == stat_dir_command(q) ==> p == q,
        stat_file_command(p) == stat_file_command(q) ==> p == q,
        remove_file_command(p) == remove_file_command(q) ==> p == q,
        remove_dir_command(p) == remove_dir_command(q) ==> p == q,
        remove_dir_all_command(p) == remove_dir_all_command(q) ==> p == q,
{
    if exists_command(p) == exists_command(q) {
        lemma_middle_is_kept("test -e \""@, p, q, "\""@);
    }
    if is_directory_command(p) == is_directory_command(q) {
        lemma_middle_is_kept("test -d \""@, p, q, "\""@);
    }
    if change_dir_command(p) == change_dir_command(q) {
        lemma_middle_is_kept("cd \""@, p, q, "\"; echo $?; pwd"@);
    }
    if list_command(p) == list_command(q) {
        lemma_middle_is_kept("unset LANG; ls -la \""@, p, q, "/\""@);
    }
    if stat_dir_command(p) == stat_dir_command(q) {
        lemma_middle_is_kept("ls -ld \""@, p, q, "\""@);
    }
    if stat_file_command(p) == stat_file_command(q) {
        lemma_middle_is_kept("ls -l \""@, p, q, "\""@);
    }
    if remove_file_command(p) == remove_file_command(q) {
        lemma_middle_is_kept("rm -f \""@, p, q, "\""@);
    }
    if remove_dir_command(p) == remove_dir_command(q) {
        lemma_middle_is_kept("rmdir \""@, p, q, "\""@);
    }
    if remove_dir_all_command(p) == remove_dir_all_command(q) {
        lemma_middle_is_kept("rm -rf \""@, p, q, "\""@);
    }
}

// The working directory
/// The working directory is told without asking the host.
pub proof fn law_pwd_is_told_at_once(wrkdir: Seq<char>)
    ensures
        first_step(wrkdir, RequestModel::Pwd) == StepModel::Done(ReplyModel::Path(wrkdir)),
{
}

/// A change of directory enters the directory, and lets the host print the status of that and
/// the directory that was reached.
pub proof fn law_change_dir_enters_the_directory(wrkdir: Seq<char>, dir: Seq<char>)
    ensures
        first_step(wrkdir, RequestModel::ChangeDir { dir }) == (StepModel::Output {
            command: "cd \""@ + joined(wrkdir, dir) + "\"; echo $?; pwd"@,
            reading: OutputTaskModel::ChangeDir { dir: joined(wrkdir, dir) },
        }),
{
}

/// Where the host prints the status 0 and a directory, with any white space around both, that
/// directory is entered and told.
pub proof fn law_printed_directory_is_entered(
    wrkdir: Seq<char>,
    asked: Seq<char>,
    before: Seq<char>,
    between: Seq<char>,
    reached: Seq<char>,
    after: Seq<char>,
    this_year: nat,
)
    requires
        forall|i: int| 0 <= i < before.len() ==> is_space(before[i]),
        forall|i: int| 0 <= i < between.len() ==> is_space(between[i]),
        forall|i: int| 0 <= i < after.len() ==> is_space(after[i]),
        reached.len() > 0,
        !is_space(reached[0]),
        !is_space(reached.last()),
    ensures
        ({
            let reading = OutputTaskModel::ChangeDir { dir: asked };
            let printed = before + seq!['0'] + between + reached + after;
            &&& wrkdir_after_output(wrkdir, reading, Ok(printed)) == reached
            &&& after_output(reading, Ok(printed), this_year) == Ok::<StepModel, Failure>(
                StepModel::Done(ReplyModel::Path(reached)),
            )
        }),
{
    let printed = before + seq!['0'] + between + reached + after;
    let none = Seq::<char>::empty();
    let inner = seq!['0'] + between + reached;
    assert(inner.last() == reached.last());
    assert(before + inner + after == printed);
    crate::text::law_trimming_takes_space_away_again(before, inner, after);
    assert(inner.skip(1) == between + reached + none);
    crate::text::law_trimming_takes_space_away_again(between, reached, none);
    assert(reached_dir(printed) == Some(reached));
}

/// Where what the host prints does not start with a 0, nothing is entered, and the failure
/// names the directory that was asked for.
pub proof fn law_other_status_enters_nothing(
    wrkdir: Seq<char>,
    asked: Seq<char>,
    output: Seq<char>,
    this_year: nat,
)
    requires
        trimmed(output).len() == 0 || trimmed(output)[0] != '0',
    ensures
        ({
            let reading = OutputTaskModel::ChangeDir { dir: asked };
            &&& wrkdir_after_output(wrkdir, reading, Ok(output)) == wrkdir
            &&& after_output(reading, Ok(output), this_year) == Err::<StepModel, Failure>(
                Failure {
                    kind: RemoteErrorType::NoSuchFileOrDirectory,
                    msg: Some("\""@ + asked + "\""@),
                },
            )
        }),
{
}

/// A command whose output could not be read changes nothing and is a protocol error that
/// tells the cause.
pub proof fn law_lost_output_is_a_protocol_error(
    wrkdir: Seq<char>,
    reading: OutputTaskModel,
    cause: Failure,
    this_year: nat,
)
    ensures
        wrkdir_after_output(wrkdir, reading, Err(cause)) == wrkdir,
        after_output(reading, Err(cause), this_year) == Err::<StepModel, Failure>(
            Failure { kind: RemoteErrorType::ProtocolError, msg: Some(cause.words()) },
        ),
{
}

/// A failure is told by its kind, with its message in brackets.
pub proof fn law_failure_is_told_with_its_message(kind: RemoteErrorType, msg: Seq<char>)
    ensures
        (Failure { kind, msg: None }).words() == kind.words(),
        (Failure { kind, msg: Some(msg) }).words() == kind.words() + " ("@ + msg + ")"@,
        Failure::plain(kind) == (Failure { kind, msg: None }),
        Failure::told(kind, msg) == (Failure { kind, msg: Some(msg) }),
{
}

// Reading
/// A listing asks for all that is in the directory, and its reply holds the entries of the
/// lines that the host prints, for that directory.
pub proof fn law_list_dir_reads_the_directory(
    wrkdir: Seq<char>,
    path: Seq<char>,
    output: Seq<char>,
    this_year: nat,
)
    ensures
        first_step(wrkdir, RequestModel::ListDir { path }) == (StepModel::Output {
            command: "unset LANG; ls -la \""@ + joined(wrkdir, path) + "/\""@,
            reading: OutputTaskModel::ListDir { path: joined(wrkdir, path) },
        }),
        after_output(OutputTaskModel::ListDir { path }, Ok(output), this_year) == Ok::<
            StepModel,
            Failure,
        >(
            StepModel::Done(
                ReplyModel::Entries(listing_nodes(path, lines_of(output), this_year)),
            ),
        ),
{
}

/// A stat asks about the path below the working directory, first whether it is a directory,
/// and lists that same path after either answer: a directory as such, anything else as a
/// file.
pub proof fn law_stat_is_about_the_path_below(
    wrkdir: Seq<char>,
    path: Seq<char>,
    code: u32,
    stdout: Seq<char>,
)
    ensures
        ({
            let there = joined(wrkdir, path);
            &&& rooted(wrkdir) ==> joined(wrkdir, there) == there
            &&& first_step(wrkdir, RequestModel::Stat { path }) matches StepModel::Status {
                command: asked,
                task,
            } && {
                &&& asked == "test -d \""@ + joined(wrkdir, there) + "\""@
                &&& after_status(task, Ok((code, stdout))) == Ok::<StepModel, Failure>(
                    StepModel::Output {
                        command: if code == 0 {
                            "ls -ld \""@ + there + "\""@
                        } else {
                            "ls -l \""@ + there + "\""@
                        },
                        reading: OutputTaskModel::Stat { path: there },
                    },
                )
            }
        }),
{
}

/// A stat that cannot be asked fails with the cause.
pub proof fn law_unanswered_stat_fails(path: Seq<char>, cause: Failure)
    ensures
        after_status(StatusTaskModel::StatKind { path }, Err(cause)) == Err::<StepModel, Failure>(
            Failure { kind: RemoteErrorType::StatFailed, msg: Some(cause.words()) },
        ),
{
}

/// The reply to a stat is the entry of the one line that the host prints, in the directory
/// above the path. There is no reply for a path with nothing above it, and none where the line
/// shows no entry.
pub proof fn law_stat_tells_the_entry_of_its_line(
    path: Seq<char>,
    before: Seq<char>,
    line: Seq<char>,
    after: Seq<char>,
    this_year: nat,
)
    requires
        forall|i: int| 0 <= i < before.len() ==> is_space(before[i]),
        forall|i: int| 0 <= i < after.len() ==> is_space(after[i]),
        line.len() > 0 ==> !is_space(line[0]) && !is_space(line.last()),
    ensures
        after_output(OutputTaskModel::Stat { path }, Ok(before + line + after), this_year) == (
        match parent_of(path) {
            None => Err::<StepModel, Failure>(
                Failure {
                    kind: RemoteErrorType::StatFailed,
                    msg: Some("Path has no parent"@),
                },
            ),
            Some(above) => match line_node(above, line, this_year) {
                Some(node) => Ok(StepModel::Done(ReplyModel::Entry(node))),
                None => Err(
                    Failure { kind: RemoteErrorType::NoSuchFileOrDirectory, msg: None },
                ),
            },
        }),
{
    crate::text::law_trimming_takes_space_away_again(before, line, after);
}

/// Whether something exists is what the exit status of the test for its path says.
pub proof fn law_existence_is_what_the_host_says(
    wrkdir: Seq<char>,
    path: Seq<char>,
    code: u32,
    stdout: Seq<char>,
    cause: Failure,
)
    ensures
        first_step(wrkdir, RequestModel::Exists { path }) == (StepModel::Status {
            command: "test -e \""@ + joined(wrkdir, path) + "\""@,
            task: StatusTaskModel::Exists,
        }),
        after_status(StatusTaskModel::Exists, Ok((code, stdout))) == Ok::<StepModel, Failure>(
            StepModel::Done(ReplyModel::Flag(code == 0)),
        ),
        after_status(StatusTaskModel::Exists, Err(cause)) == Err::<StepModel, Failure>(
            Failure { kind: RemoteErrorType::StatFailed, msg: Some(cause.words()) },
        ),
{
}

// Running
/// A command of the caller is run as it is, in the working directory.
pub proof fn law_exec_runs_the_command_in_the_working_directory(
    wrkdir: Seq<char>,
    cmd: Seq<char>,
)
    ensures
        first_step(wrkdir, RequestModel::Exec { cmd }) == (StepModel::StatusAt {
            command: cmd,
            dir: wrkdir,
        }),
        at_command(wrkdir, cmd) == "cd \""@ + wrkdir + "\"; "@ + cmd,
{
}

/// The caller of a command gets the exit status and the output that the host answered with,
/// whatever they are, or the failure to run it as it is.
pub proof fn law_exec_gives_back_status_and_output(
    code: u32,
    text: Seq<char>,
    cause: Failure,
)
    ensures
        after_exec(Ok((code, text))) matches Ok(
            StepModel::Done(ReplyModel::Output { status, stdout }),
        ) && status == code && stdout == text,
        after_exec(Err(cause)) == Err::<StepModel, Failure>(cause),
{
}

/// Commands that ended differently are told apart.
pub proof fn law_exec_tells_results_apart(
    a: Result<(u32, Seq<char>), Failure>,
    b: Result<(u32, Seq<char>), Failure>,
)
    requires
        after_exec(a) == after_exec(b),
    ensures
        a == b,
{
    if a is Ok && b is Ok {
        let (c, s) = a->Ok_0;
        let (d, t) = b->Ok_0;
        law_exec_gives_back_status_and_output(c, s, Failure::plain(RemoteErrorType::StatFailed));
        law_exec_gives_back_status_and_output(d, t, Failure::plain(RemoteErrorType::StatFailed));
        assert(a->Ok_0 == b->Ok_0);
    }
}

// Changing
/// What the outcome of a command that has to succeed is: a success goes on, a refusal is told
/// as such, and a command that was not run is a protocol error that tells the cause.
pub proof fn law_effect_is_what_the_host_says(
    refusal: RemoteErrorType,
    about: Option<Seq<char>>,
    code: u32,
    stdout: Seq<char>,
    cause: Failure,
)
    ensures
        ({
            let task = StatusTaskModel::Effect { refusal, about };
            &&& after_status(task, Ok((code, stdout))) == if code == 0 {
                Ok::<StepModel, Failure>(StepModel::Done(ReplyModel::Unit))
            } else {
                Err(Failure { kind: refusal, msg: about })
            }
            &&& after_status(task, Err(cause)) == Err::<StepModel, Failure>(
                Failure { kind: RemoteErrorType::ProtocolError, msg: Some(cause.words()) },
            )
        }),
{
}

/// A test decides which way a request goes: with what was tested for there, or not there.
pub proof fn law_tests_decide_the_way(
    probe: Seq<char>,
    command: Seq<char>,
    taken: RemoteErrorType,
    refusal: RemoteErrorType,
    about: Option<Seq<char>>,
    found: Result<(u32, Seq<char>), Failure>,
)
    ensures
        ({
            let there = found matches Ok((code, _)) && code == 0;
            let no_such = Failure { kind: RemoteErrorType::NoSuchFileOrDirectory, msg: None };
            let denied = RemoteErrorType::FileCreateDenied;
            let present = after_status(
                StatusTaskModel::IfPresent { command, refusal, about },
                found,
            );
            let absent = after_status(
                StatusTaskModel::IfAbsent { taken, command, refusal },
                found,
            );
            let target = after_status(StatusTaskModel::LinkTarget { probe, command }, found);
            &&& there ==> present == Ok::<StepModel, Failure>(
                StepModel::Status { command, task: StatusTaskModel::Effect { refusal, about } },
            )
            &&& !there ==> present == Err::<StepModel, Failure>(no_such)
            &&& there ==> absent == Err::<StepModel, Failure>(Failure { kind: taken, msg: None })
            &&& !there ==> absent == Ok::<StepModel, Failure>(
                StepModel::Status {
                    command,
                    task: StatusTaskModel::Effect { refusal, about: None },
                },
            )
            &&& there ==> target == Ok::<StepModel, Failure>(
                StepModel::Status {
                    command: probe,
                    task: StatusTaskModel::IfAbsent { taken: denied, command, refusal: denied },
                },
            )
            &&& !there ==> target == Err::<StepModel, Failure>(no_such)
        }),
{
}

/// A removal tests for the path below the working directory, and where it is there runs the
/// one command that removes it.
pub proof fn law_removals_remove_the_path_below(wrkdir: Seq<char>, path: Seq<char>)
    ensures
        ({
            let there = joined(wrkdir, path);
            let asked = "test -e \""@ + joined(wrkdir, there) + "\""@;
            let rm = "rm -f \""@ + there + "\""@;
            let rmdir = "rmdir \""@ + there + "\""@;
            let rm_all = "rm -rf \""@ + there + "\""@;
            let kept = RemoteErrorType::CouldNotRemoveFile;
            let full = RemoteErrorType::DirectoryNotEmpty;
            &&& rooted(wrkdir) ==> joined(wrkdir, there) == there
            &&& asks_then_runs(
                first_step(wrkdir, RequestModel::RemoveFile { path }),
                asked,
                rm,
                Failure { kind: kept, msg: None },
            )
            &&& asks_then_runs(
                first_step(wrkdir, RequestModel::RemoveDir { path }),
                asked,
                rmdir,
                Failure { kind: full, msg: None },
            )
            &&& asks_then_runs(
                first_step(wrkdir, RequestModel::RemoveDirAll { path }),
                asked,
                rm_all,
                Failure { kind: kept, msg: None },
            )
        }),
{
}

/// Whether a step runs `asked`; unless that succeeds the request fails as there is no such
/// path, and where it succeeds `command` is run, whose refusal is `refused`.
pub open spec fn asks_then_runs(
    step: StepModel,
    asked: Seq<char>,
    command: Seq<char>,
    refused: Failure,
) -> bool {
    step matches StepModel::Status { command: first, task } && {
        &&& first == asked
        &&& forall|code: u32, out: Seq<char>|
            #![trigger after_status(task, Ok((code, out)))]
            after_status(task, Ok((code, out))) == if code == 0 {
                Ok::<StepModel, Failure>(
                    StepModel::Status {
                        command,
                        task: StatusTaskModel::Effect { refusal: refused.kind, about: refused.msg },
                    },
                )
            } else {
                Err(Failure { kind: RemoteErrorType::NoSuchFileOrDirectory, msg: None })
            }
        &&& forall|e: Failure|
            #![trigger after_status(task, Err(e))]
            after_status(task, Err(e)) == Err::<StepModel, Failure>(
                Failure { kind: RemoteErrorType::NoSuchFileOrDirectory, msg: None },
            )
    }
}

/// A copy and a move test for the source below the working directory, and where it is there
/// take it to the destination below the working directory; a refusal names the destination.
pub proof fn law_copy_and_move_go_from_source_to_destination(
    wrkdir: Seq<char>,
    src: Seq<char>,
    dest: Seq<char>,
)
    ensures
        ({
            let source = joined(wrkdir, src);
            let target = joined(wrkdir, dest);
            let asked = "test -e \""@ + joined(wrkdir, source) + "\""@;
            let refused = Failure {
                kind: RemoteErrorType::FileCreateDenied,
                msg: Some("\""@ + target + "\""@),
            };
            &&& rooted(wrkdir) ==> joined(wrkdir, source) == source
            &&& asks_then_runs(
                first_step(wrkdir, RequestModel::Copy { src, dest }),
                asked,
                "cp -rf \""@ + source + "\" \""@ + target + "\""@,
                refused,
            )
            &&& asks_then_runs(
                first_step(wrkdir, RequestModel::Move { src, dest }),
                asked,
                "mv -f \""@ + source + "\" \""@ + target + "\""@,
                refused,
            )
        }),
{
}

/// A numeral for permissions: octal digits with the value of all nine permissions.
pub open spec fn spells_permissions(m: Seq<char>, mode: UnixPex) -> bool {
    &&& m == numeral(value_in_base(m, 8), 8)
    &&& value_in_base(m, 8) == 256 * bit(mode.user.read) + 128 * bit(mode.user.write) + 64 * bit(
        mode.user.execute,
    ) + 32 * bit(mode.group.read) + 16 * bit(mode.group.write) + 8 * bit(mode.group.execute) + 4
        * bit(mode.others.read) + 2 * bit(mode.others.write) + bit(mode.others.execute)
}

proof fn lemma_octal_mode_spells(mode: UnixPex)
    ensures
        spells_permissions(octal_mode(mode), mode),
{
    crate::pex::law_mode_gives_back_permissions(mode);
    crate::pex::law_mode_has_a_bit_for_each_permission(mode);
    crate::text::law_numeral_stands_for_its_number(mode.mode() as nat, 8);
}

/// The command that sets permissions, and the one that makes a directory with permissions,
/// hold an octal numeral with the value of all nine permissions, and the quoted path.
#[verifier::rlimit(40)]
pub proof fn law_commands_spell_all_permissions(mode: UnixPex, path: Seq<char>)
    ensures
        exists|m: Seq<char>|
            #[trigger] spells_permissions(m, mode) && chmod_command(mode, path) == "chmod "@ + m
                + " \""@ + path + "\""@,
        exists|m: Seq<char>|
            #[trigger] spells_permissions(m, mode) && create_dir_command(mode, path)
                == "mkdir -m "@ + m + " \""@ + path + "\""@,
{
    lemma_octal_mode_spells(mode);
}

/// Different permissions never give the same command for one path.
pub proof fn law_commands_tell_permissions_apart(a: UnixPex, b: UnixPex, path: Seq<char>)
    ensures
        chmod_command(a, path) == chmod_command(b, path) ==> a == b,
        create_dir_command(a, path) == create_dir_command(b, path) ==> a == b,
{
    if chmod_command(a, path) == chmod_command(b, path) {
        lemma_same_numeral("chmod "@, a, b, path);
    }
    if create_dir_command(a, path) == create_dir_command(b, path) {
        lemma_same_numeral("mkdir -m "@, a, b, path);
    }
}

proof fn lemma_same_numeral(head: Seq<char>, a: UnixPex, b: UnixPex, path: Seq<char>)
    requires
        head + octal_mode(a) + " \""@ + path + "\""@ == head + octal_mode(b) + " \""@ + path
            + "\""@,
    ensures
        a == b,
{
    let (m, n) = (octal_mode(a), octal_mode(b));
    let tail = " \""@ + path + "\""@;
    assert(head + m + " \""@ + path + "\""@ =~= head + m + tail);
    assert(head + n + " \""@ + path + "\""@ =~= head + n + tail);
    lemma_middle_is_kept(head, m, n, tail);
    lemma_numeral_tells_permissions(a, b);
}

proof fn lemma_numeral_tells_permissions(a: UnixPex, b: UnixPex)
    requires
        octal_mode(a) == octal_mode(b),
    ensures
        a == b,
{
    crate::pex::law_mode_gives_back_permissions(a);
    crate::pex::law_mode_gives_back_permissions(b);
    crate::text::law_numerals_differ(a.mode() as nat, b.mode() as nat, 8);
}

/// A time is set to the date and time of its instant in UTC, down to the second, on the
/// quoted path.
pub proof fn law_touch_writes_the_instant(t: Instant, path: Seq<char>)
    ensures
        touch_access_command(t, path) == "touch -a -t "@ + utc_text(
            t.secs,
            t.nanos,
            "%Y%m%d%H%M.%S"@,
        ) + " \""@ + path + "\""@,
        touch_modified_command(t, path) == "touch -m -t "@ + utc_text(
            t.secs,
            t.nanos,
            "%Y%m%d%H%M.%S"@,
        ) + " \""@ + path + "\""@,
{
}

/// Setting attributes tests for the path below the working directory. Where it is there, the
/// given permissions are set on that path if there are any, then the given time of last
/// access, then the given time of last change.
#[verifier::rlimit(40)]
pub proof fn law_setstat_sets_what_was_given(
    wrkdir: Seq<char>,
    path: Seq<char>,
    facts: Facts,
    code: u32,
    out: Seq<char>,
)
    requires
        code == 0,
    ensures
        ({
            let there = joined(wrkdir, path);
            let time = |t: Instant| utc_text(t.secs, t.nanos, "%Y%m%d%H%M.%S"@);
            let access = "touch -a -t "@ + time(facts.atime) + " \""@ + there + "\""@;
            let modified = "touch -m -t "@ + time(facts.mtime) + " \""@ + there + "\""@;
            let done = Ok::<(u32, Seq<char>), Failure>((code, out));
            &&& rooted(wrkdir) ==> joined(wrkdir, there) == there
            &&& first_step(wrkdir, RequestModel::SetStat { path, facts }) matches StepModel::Status {
                command: asked,
                task: found,
            } && asked == "test -e \""@ + joined(wrkdir, there) + "\""@ && (match facts.mode {
                Some(mode) => after_status(found, done) matches Ok(
                    StepModel::Status { command: chmod, task: mode_set },
                ) && (exists|m: Seq<char>| #[trigger]
                    spells_permissions(m, mode) && chmod == "chmod "@ + m + " \""@ + there
                        + "\""@) && sets_times(after_status(mode_set, done), access, modified, done),
                None => sets_times(after_status(found, done), access, modified, done),
            })
        }),
{
    if let Some(mode) = facts.mode {
        law_commands_spell_all_permissions(mode, joined(wrkdir, path));
    }
}

/// Whether a step runs `access`, then `modified`, and then the request is done.
pub open spec fn sets_times(
    step: Result<StepModel, Failure>,
    access: Seq<char>,
    modified: Seq<char>,
    done: Result<(u32, Seq<char>), Failure>,
) -> bool {
    step matches Ok(StepModel::Status { command: first, task: access_set }) && first == access && (
    after_status(access_set, done) matches Ok(
        StepModel::Status { command: second, task: modified_set },
    ) && second == modified && after_status(modified_set, done) == Ok::<StepModel, Failure>(
        StepModel::Done(ReplyModel::Unit),
    ))
}

/// Attributes of what is not there are not set, and an attribute that could not be set ends
/// the request: a refusal as a failed stat, a command that was not run as a protocol error
/// that tells the cause.
pub proof fn law_setstat_failures(
    path: Seq<char>,
    mode: Option<UnixPex>,
    atime: Instant,
    mtime: Instant,
    code: u32,
    out: Seq<char>,
    cause: Failure,
)
    requires
        code != 0,
    ensures
        ({
            let no_such = Failure { kind: RemoteErrorType::NoSuchFileOrDirectory, msg: None };
            let refused = Failure { kind: RemoteErrorType::StatFailed, msg: None };
            let lost = Failure { kind: RemoteErrorType::ProtocolError, msg: Some(cause.words()) };
            let found = StatusTaskModel::SetStat { path, mode, atime, mtime };
            let mode_set = StatusTaskModel::SetMode { path, atime, mtime };
            let access_set = StatusTaskModel::SetAccess { path, mtime };
            let modified_set = StatusTaskModel::SetModified;
            &&& after_status(found, Ok((code, out))) == Err::<StepModel, Failure>(no_such)
            &&& after_status(found, Err(cause)) == Err::<StepModel, Failure>(no_such)
            &&& after_status(mode_set, Ok((code, out))) == Err::<StepModel, Failure>(refused)
            &&& after_status(mode_set, Err(cause)) == Err::<StepModel, Failure>(lost)
            &&& after_status(access_set, Ok((code, out))) == Err::<StepModel, Failure>(refused)
            &&& after_status(access_set, Err(cause)) == Err::<StepModel, Failure>(lost)
            &&& after_status(modified_set, Ok((code, out))) == Err::<StepModel, Failure>(refused)
            &&& after_status(modified_set, Err(cause)) == Err::<StepModel, Failure>(lost)
        }),
{
}

/// Only a time that is about to be written has to be in the calendar.
pub proof fn law_only_the_next_time_has_to_be_in_the_calendar(
    task: StatusTaskModel,
    status: Result<(u32, Seq<char>), Failure>,
)
    ensures
        !(status matches Ok((code, _)) && code == 0) ==> next_time_has_date(task, status),
        !(task is SetStat || task is SetMode || task is SetAccess) ==> next_time_has_date(
            task,
            status,
        ),
        task matches StatusTaskModel::SetStat { mode, atime, .. } ==> (mode is Some
            || -8_334_601_228_800 <= atime.secs <= 8_210_266_876_799) ==> next_time_has_date(
            task,
            status,
        ),
        task matches StatusTaskModel::SetMode { atime, .. } ==> -8_334_601_228_800 <= atime.secs
            <= 8_210_266_876_799 ==> next_time_has_date(task, status),
        task matches StatusTaskModel::SetAccess { mtime, .. } ==> -8_334_601_228_800 <= mtime.secs
            <= 8_210_266_876_799 ==> next_time_has_date(task, status),
{
}

/// A directory is made at the path below the working directory with all the given
/// permissions, and only where the host finds nothing there.
pub proof fn law_create_dir_makes_the_directory_below(
    wrkdir: Seq<char>,
    path: Seq<char>,
    mode: UnixPex,
    found: Result<(u32, Seq<char>), Failure>,
)
    ensures
        ({
            let there = joined(wrkdir, path);
            &&& rooted(wrkdir) ==> joined(wrkdir, there) == there
            &&& first_step(wrkdir, RequestModel::CreateDir { path, mode }) matches StepModel::Status {
                command: asked,
                task,
            } && {
                &&& asked == "test -e \""@ + joined(wrkdir, there) + "\""@
                &&& (found matches Ok((code, _)) && code == 0) ==> after_status(task, found)
                    == Err::<StepModel, Failure>(
                    Failure { kind: RemoteErrorType::DirectoryAlreadyExists, msg: None },
                )
                &&& !(found matches Ok((code, _)) && code == 0) ==> (after_status(
                    task,
                    found,
                ) matches Ok(StepModel::Status { command, task: done }) && {
                    &&& exists|m: Seq<char>| #[trigger]
                        spells_permissions(m, mode) && command == "mkdir -m "@ + m + " \""@ + there
                            + "\""@
                    &&& done == (StatusTaskModel::Effect {
                        refusal: RemoteErrorType::FileCreateDenied,
                        about: None,
                    })
                })
            }
        }),
{
    law_commands_spell_all_permissions(mode, joined(wrkdir, path));
}

/// A link to the target, as it was given, is made at the path below the working directory.
/// The host must find the target below the working directory, and nothing at the path.
pub proof fn law_symlink_links_to_the_target_as_given(
    wrkdir: Seq<char>,
    path: Seq<char>,
    target: Seq<char>,
    target_found: Result<(u32, Seq<char>), Failure>,
    path_found: Result<(u32, Seq<char>), Failure>,
)
    ensures
        ({
            let there = joined(wrkdir, path);
            let denied = RemoteErrorType::FileCreateDenied;
            &&& rooted(wrkdir) ==> joined(wrkdir, there) == there
            &&& first_step(wrkdir, RequestModel::Symlink { path, target }) matches StepModel::Status {
                command: asked,
                task,
            } && {
                &&& asked == "test -e \""@ + joined(wrkdir, target) + "\""@
                &&& !(target_found matches Ok((code, _)) && code == 0) ==> after_status(
                    task,
                    target_found,
                ) == Err::<StepModel, Failure>(
                    Failure { kind: RemoteErrorType::NoSuchFileOrDirectory, msg: None },
                )
                &&& (target_found matches Ok((code, _)) && code == 0) ==> (after_status(
                    task,
                    target_found,
                ) matches Ok(StepModel::Status { command: asked_next, task: next }) && {
                    &&& asked_next == "test -e \""@ + joined(wrkdir, there) + "\""@
                    &&& after_status(next, path_found) == if (path_found matches Ok((code, _))
                        && code == 0) {
                        Err::<StepModel, Failure>(Failure { kind: denied, msg: None })
                    } else {
                        Ok(
                            StepModel::Status {
                                command: "ln -s \""@ + target + "\" \""@ + there + "\""@,
                                task: StatusTaskModel::Effect { refusal: denied, about: None },
                            },
                        )
                    }
                })
            }
        }),
{
}

// Streams
/// A new file is sent to the path below the working directory with the size that was given,
/// the permissions that were given or else those to read for all and to write for the owner,
/// and the seconds from the epoch to the times that were given.
pub proof fn law_create_sends_what_was_given(wrkdir: Seq<char>, path: Seq<char>, facts: Facts)
    ensures
        first_step(wrkdir, RequestModel::Create { path, facts }) matches StepModel::Send {
            upload,
        } && {
            &&& upload.path == joined(wrkdir, path)
            &&& upload.size == facts.size
            &&& facts.mode is None ==> upload.mode == 256 + 128 + 32 + 4
            &&& facts.mode matches Some(mode) ==> upload.mode == 256 * bit(mode.user.read) + 128
                * bit(mode.user.write) + 64 * bit(mode.user.execute) + 32 * bit(mode.group.read)
                + 16 * bit(mode.group.write) + 8 * bit(mode.group.execute) + 4 * bit(
                mode.others.read,
            ) + 2 * bit(mode.others.write) + bit(mode.others.execute)
            &&& facts.mtime.secs >= 0 ==> upload.mtime == facts.mtime.secs
            &&& facts.mtime.secs < 0 ==> upload.mtime == 0
            &&& facts.atime.secs >= 0 ==> upload.atime == facts.atime.secs
            &&& facts.atime.secs < 0 ==> upload.atime == 0
        },
{
    if let Some(mode) = facts.mode {
        crate::pex::law_mode_has_a_bit_for_each_permission(mode);
    }
}

/// The file that is received is the one at the path below the working directory, which the
/// host must have found; a path from the root is received as it is.
pub proof fn law_open_receives_the_path_below(
    wrkdir: Seq<char>,
    path: Seq<char>,
    found: Result<(u32, Seq<char>), Failure>,
)
    ensures
        ({
            let there = if rooted(path) {
                path
            } else if wrkdir.len() == 0 || wrkdir.last() == '/' {
                wrkdir + path
            } else {
                wrkdir + seq!['/'] + path
            };
            &&& there == joined(wrkdir, path)
            &&& rooted(wrkdir) ==> joined(wrkdir, there) == there
            &&& first_step(wrkdir, RequestModel::Open { path }) matches StepModel::Status {
                command: asked,
                task,
            } && {
                &&& asked == "test -e \""@ + joined(wrkdir, there) + "\""@
                &&& after_status(task, found) == if (found matches Ok((code, _)) && code == 0) {
                    Ok::<StepModel, Failure>(StepModel::Receive { path: there })
                } else {
                    Err(Failure { kind: RemoteErrorType::NoSuchFileOrDirectory, msg: None })
                }
            }
        }),
{
}

/// A stream that was opened is handed to the caller, and one that was not is a failure of the
/// given kind that tells why.
pub proof fn law_opened_stream_is_handed_over(why: Seq<char>, refusal: RemoteErrorType)
    ensures
        after_opening(Ok(()), refusal) == Ok::<StepModel, Failure>(
            StepModel::Done(ReplyModel::Stream),
        ),
        after_opening(Err(why), refusal) == Err::<StepModel, Failure>(
            Failure { kind: refusal, msg: Some(why) },
        ),
{
}

} // verus!
