//! What holds of the client as a whole.

use vstd::prelude::*;

use crate::client::may_answer;
use crate::client::ClientModel;
use crate::conversation::after_exec;
use crate::conversation::after_opening;
use crate::conversation::after_output;
use crate::conversation::after_status;
use crate::conversation::after_success;
use crate::conversation::first_step;
use crate::conversation::start_of;
use crate::conversation::succeeded;
use crate::conversation::wrkdir_after_output;
use crate::entry::Facts;
use crate::entry::Node;
use crate::error::Failure;
use crate::error::RemoteErrorType;
use crate::listing::bare_name;
use crate::listing::field;
use crate::listing::groups_fit;
use crate::listing::is_dots;
use crate::listing::lemma_first_letter_is_the_kind;
use crate::listing::line_node;
use crate::listing::listed_node;
use crate::listing::listing_nodes;
use crate::listing::name_and_link;
use crate::listing::name_shown;
use crate::listing::regex_captures;
use crate::listing::LINK_ARROW;
use crate::listing::LS_PATTERN;
use crate::path::absolute;
use crate::path::extension_of;
use crate::path::file_name_of;
use crate::path::joined;
use crate::path::plain_name;
use crate::path::suffix_of;
use crate::pex::UnixPex;
use crate::shell::chmod_command;
use crate::shell::copy_command;
use crate::shell::create_dir_command;
use crate::shell::exists_command;
use crate::shell::in_quotes;
use crate::shell::move_command;
use crate::shell::remove_dir_all_command;
use crate::shell::remove_dir_command;
use crate::shell::remove_file_command;
use crate::shell::stat_dir_command;
use crate::shell::stat_file_command;
use crate::shell::symlink_command;
use crate::shell::touch_access_command;
use crate::shell::touch_modified_command;
use crate::step::OutputTaskModel;
use crate::step::ReplyModel;
use crate::step::RequestModel;
use crate::step::StatusTaskModel;
use crate::step::StepModel;
use crate::text::find_from;
use crate::time::Instant;

verus! {

/// A client without a session answers every request with the failure that it is not
/// connected.
pub proof fn law_client_without_session_refuses(
    client: ClientModel,
    request: RequestModel,
    answer: Result<StepModel, Failure>,
)
    requires
        client.session is None,
        may_answer(client, request, answer),
    ensures
        answer == Err::<StepModel, Failure>(Failure::plain(RemoteErrorType::NotConnected)),
{
}

/// A connected client never refuses to begin a request.
pub proof fn law_connected_client_begins(wrkdir: Seq<char>, request: RequestModel)
    ensures
        start_of(true, wrkdir, request) is Ok,
{
}

/// How many exchanges with the remote host a step may still take.
pub open spec fn exchanges(step: StepModel) -> nat {
    match step {
        StepModel::Done(_) => 0,
        StepModel::Output { .. } => 1,
        StepModel::StatusAt { .. } => 1,
        StepModel::Send { .. } => 1,
        StepModel::Receive { .. } => 1,
        StepModel::Status { task, .. } => match task {
            StatusTaskModel::Exists => 1,
            StatusTaskModel::SetModified => 1,
            StatusTaskModel::Effect { .. } => 1,
            StatusTaskModel::StatKind { .. } => 2,
            StatusTaskModel::IfPresent { .. } => 2,
            StatusTaskModel::IfAbsent { .. } => 2,
            StatusTaskModel::Open { .. } => 2,
            StatusTaskModel::SetAccess { .. } => 2,
            StatusTaskModel::LinkTarget { .. } => 3,
            StatusTaskModel::SetMode { .. } => 3,
            StatusTaskModel::SetStat { .. } => 4,
        },
    }
}

/// No request takes more than four exchanges: at most that many are ahead at first, and
/// each exchange leaves fewer.
pub proof fn law_every_request_ends(
    wrkdir: Seq<char>,
    request: RequestModel,
    command: Seq<char>,
    task: StatusTaskModel,
    status: Result<(u32, Seq<char>), Failure>,
)
    ensures
        exchanges(first_step(wrkdir, request)) <= 4,
        after_status(task, status) is Ok ==> exchanges(after_status(task, status)->Ok_0)
            < exchanges(StepModel::Status { command, task }),
{
}

/// Once the output of a command was read, a command of the caller was run or a stream was
/// opened, nothing is left to do.
pub proof fn law_other_exchanges_are_the_last(
    reading: OutputTaskModel,
    output: Result<Seq<char>, Failure>,
    this_year: nat,
    status: Result<(u32, Seq<char>), Failure>,
    opened: Result<(), Seq<char>>,
    refusal: RemoteErrorType,
)
    ensures
        after_output(reading, output, this_year) is Ok ==> after_output(
            reading,
            output,
            this_year,
        )->Ok_0 is Done,
        after_exec(status) is Ok ==> after_exec(status)->Ok_0 is Done,
        after_opening(opened, refusal) is Ok ==> after_opening(opened, refusal)->Ok_0 is Done,
{
}

/// What a request needs to be there: the path, as the client takes it.
pub open spec fn subject(wrkdir: Seq<char>, request: RequestModel) -> Option<Seq<char>> {
    match request {
        RequestModel::SetStat { path, .. } => Some(joined(wrkdir, path)),
        RequestModel::RemoveFile { path } => Some(joined(wrkdir, path)),
        RequestModel::RemoveDir { path } => Some(joined(wrkdir, path)),
        RequestModel::RemoveDirAll { path } => Some(joined(wrkdir, path)),
        RequestModel::Copy { src, .. } => Some(joined(wrkdir, src)),
        RequestModel::Move { src, .. } => Some(joined(wrkdir, src)),
        RequestModel::Open { path } => Some(joined(wrkdir, path)),
        _ => None,
    }
}

/// Below an absolute working directory, whatever needs its subject to be there first asks
/// the remote host for that very path. Unless the host finds it, the request fails and no
/// other command is run; where the host finds it, the request goes on.
pub proof fn law_subject_is_looked_for_first(
    wrkdir: Seq<char>,
    request: RequestModel,
    status: Result<(u32, Seq<char>), Failure>,
)
    requires
        absolute(wrkdir),
        subject(wrkdir, request) is Some,
    ensures
        first_step(wrkdir, request) matches StepModel::Status { command, task } && {
            &&& command == exists_command(subject(wrkdir, request)->0)
            &&& !succeeded(status) ==> after_status(task, status) == Err::<StepModel, Failure>(
                Failure::plain(RemoteErrorType::NoSuchFileOrDirectory),
            )
            &&& succeeded(status) ==> after_status(task, status) is Ok
        },
{
}

/// A command that changes something, and the failure where the host refuses it.
pub struct Change {
    pub command: Seq<char>,
    pub refused: Failure,
}

/// What a removal, a copy or a move comes down to.
pub open spec fn change(wrkdir: Seq<char>, request: RequestModel) -> Option<Change> {
    match request {
        RequestModel::RemoveFile { path } => Some(
            Change {
                command: remove_file_command(joined(wrkdir, path)),
                refused: Failure::plain(RemoteErrorType::CouldNotRemoveFile),
            },
        ),
        RequestModel::RemoveDir { path } => Some(
            Change {
                command: remove_dir_command(joined(wrkdir, path)),
                refused: Failure::plain(RemoteErrorType::DirectoryNotEmpty),
            },
        ),
        RequestModel::RemoveDirAll { path } => Some(
            Change {
                command: remove_dir_all_command(joined(wrkdir, path)),
                refused: Failure::plain(RemoteErrorType::CouldNotRemoveFile),
            },
        ),
        RequestModel::Copy { src, dest } => Some(
            Change {
                command: copy_command(joined(wrkdir, src), joined(wrkdir, dest)),
                refused: Failure::told(
                    RemoteErrorType::FileCreateDenied,
                    in_quotes(joined(wrkdir, dest)),
                ),
            },
        ),
        RequestModel::Move { src, dest } => Some(
            Change {
                command: move_command(joined(wrkdir, src), joined(wrkdir, dest)),
                refused: Failure::told(
                    RemoteErrorType::FileCreateDenied,
                    in_quotes(joined(wrkdir, dest)),
                ),
            },
        ),
        _ => None,
    }
}

/// A removal, a copy or a move whose subject was found runs its one command, and what comes
/// of that is what comes of the request.
pub proof fn law_found_subject_is_changed_once(
    wrkdir: Seq<char>,
    request: RequestModel,
    found: Result<(u32, Seq<char>), Failure>,
    status: Result<(u32, Seq<char>), Failure>,
)
    requires
        change(wrkdir, request) is Some,
        succeeded(found),
    ensures
        first_step(wrkdir, request) matches StepModel::Status { task, .. } && (after_status(
            task,
            found,
        ) matches Ok(StepModel::Status { command, task: done }) && {
            &&& command == change(wrkdir, request)->0.command
            &&& after_status(done, status) == after_success(
                status,
                StepModel::Done(ReplyModel::Unit),
                change(wrkdir, request)->0.refused,
            )
        }),
{
}

/// A directory is made only where the host finds nothing at its path, and where something
/// is found the failure says that it is there already.
pub proof fn law_directory_is_made_only_where_nothing_is(
    wrkdir: Seq<char>,
    path: Seq<char>,
    mode: UnixPex,
    found: Result<(u32, Seq<char>), Failure>,
    status: Result<(u32, Seq<char>), Failure>,
)
    requires
        absolute(wrkdir),
    ensures
        first_step(wrkdir, RequestModel::CreateDir { path, mode }) matches StepModel::Status {
            command: asked,
            task,
        } && {
            &&& asked == exists_command(joined(wrkdir, path))
            &&& succeeded(found) ==> after_status(task, found) == Err::<StepModel, Failure>(
                Failure::plain(RemoteErrorType::DirectoryAlreadyExists),
            )
            &&& !succeeded(found) ==> (after_status(task, found) matches Ok(
                StepModel::Status { command, task: done },
            ) && {
                &&& command == create_dir_command(mode, joined(wrkdir, path))
                &&& after_status(done, status) == after_success(
                    status,
                    StepModel::Done(ReplyModel::Unit),
                    Failure::plain(RemoteErrorType::FileCreateDenied),
                )
            })
        },
{
}

/// A link is made only where the host finds its target and finds nothing at its own path.
pub proof fn law_link_needs_a_target_and_a_free_path(
    wrkdir: Seq<char>,
    path: Seq<char>,
    target: Seq<char>,
    target_found: Result<(u32, Seq<char>), Failure>,
    path_found: Result<(u32, Seq<char>), Failure>,
    status: Result<(u32, Seq<char>), Failure>,
)
    requires
        absolute(wrkdir),
    ensures
        first_step(wrkdir, RequestModel::Symlink { path, target }) matches StepModel::Status {
            command: asked,
            task,
        } && {
            &&& asked == exists_command(joined(wrkdir, target))
            &&& !succeeded(target_found) ==> after_status(task, target_found) == Err::<
                StepModel,
                Failure,
            >(Failure::plain(RemoteErrorType::NoSuchFileOrDirectory))
            &&& succeeded(target_found) ==> (after_status(task, target_found) matches Ok(
                StepModel::Status { command: asked_next, task: next },
            ) && {
                &&& asked_next == exists_command(joined(wrkdir, path))
                &&& succeeded(path_found) ==> after_status(next, path_found) == Err::<
                    StepModel,
                    Failure,
                >(Failure::plain(RemoteErrorType::FileCreateDenied))
                &&& !succeeded(path_found) ==> (after_status(next, path_found) matches Ok(
                    StepModel::Status { command, task: done },
                ) && {
                    &&& command == symlink_command(target, joined(wrkdir, path))
                    &&& after_status(done, status) == after_success(
                        status,
                        StepModel::Done(ReplyModel::Unit),
                        Failure::plain(RemoteErrorType::FileCreateDenied),
                    )
                })
            })
        },
{
}

/// A step that runs `command` for its exit status and goes on with `task`.
pub open spec fn runs(
    step: Result<StepModel, Failure>,
    command: Seq<char>,
    task: StatusTaskModel,
) -> bool {
    step == Ok::<StepModel, Failure>(StepModel::Status { command, task })
}

/// Attributes are set in order: the permissions where some are given, the time of the last
/// access, the time of the last change. Each command is run only after the one before it
/// has succeeded, and the request succeeds with the last of them.
pub proof fn law_attributes_are_set_in_order(
    wrkdir: Seq<char>,
    path: Seq<char>,
    facts: Facts,
    success: Result<(u32, Seq<char>), Failure>,
)
    requires
        succeeded(success),
    ensures
        ({
            let there = joined(wrkdir, path);
            let access = touch_access_command(facts.atime, there);
            let modified = touch_modified_command(facts.mtime, there);
            let found = match first_step(wrkdir, RequestModel::SetStat { path, facts }) {
                StepModel::Status { task, .. } => after_status(task, success),
                step => Ok(step),
            };
            let (atime, mtime) = (facts.atime, facts.mtime);
            let mode_set = StatusTaskModel::SetMode { path: there, atime, mtime };
            let access_set = StatusTaskModel::SetAccess { path: there, mtime };
            let modified_set = StatusTaskModel::SetModified;
            &&& match facts.mode {
                Some(mode) => runs(found, chmod_command(mode, there), mode_set),
                None => runs(found, access, access_set),
            }
            &&& runs(after_status(mode_set, success), access, access_set)
            &&& runs(after_status(access_set, success), modified, modified_set)
            &&& after_status(modified_set, success) == Ok::<StepModel, Failure>(
                StepModel::Done(ReplyModel::Unit),
            )
        }),
{
}

/// An attribute that could not be set ends the request with a failure, and no further
/// command is run.
pub proof fn law_attribute_failure_ends_the_request(
    path: Seq<char>,
    atime: Instant,
    mtime: Instant,
    status: Result<(u32, Seq<char>), Failure>,
)
    requires
        !succeeded(status),
    ensures
        after_status(StatusTaskModel::SetMode { path, atime, mtime }, status) is Err,
        after_status(StatusTaskModel::SetAccess { path, mtime }, status) is Err,
        after_status(StatusTaskModel::SetModified, status) is Err,
{
}

/// An entry is asked for as a directory exactly where the host says that it is one.
pub proof fn law_stat_lists_directories_as_such(
    path: Seq<char>,
    code: u32,
    stdout: Seq<char>,
)
    ensures
        after_status(StatusTaskModel::StatKind { path }, Ok((code, stdout))) == Ok::<
            StepModel,
            Failure,
        >(
            StepModel::Output {
                command: if code == 0 {
                    stat_dir_command(path)
                } else {
                    stat_file_command(path)
                },
                reading: OutputTaskModel::Stat { path },
            },
        ),
{
}

/// After a change of directory that succeeded, the working directory is the one that the
/// change reported; after one that failed it is the one from before.
pub proof fn law_pwd_tells_the_directory_that_was_entered(
    wrkdir: Seq<char>,
    dir: Seq<char>,
    output: Result<Seq<char>, Failure>,
    this_year: nat,
)
    ensures
        ({
            let reading = OutputTaskModel::ChangeDir { dir };
            let answer = after_output(reading, output, this_year);
            let after = wrkdir_after_output(wrkdir, reading, output);
            &&& answer is Ok ==> answer == start_of(true, after, RequestModel::Pwd)
            &&& answer is Err ==> after == wrkdir
        }),
{
}

/// Reading a listing or an entry leaves the working directory alone.
pub proof fn law_reading_keeps_the_working_directory(
    wrkdir: Seq<char>,
    reading: OutputTaskModel,
    output: Result<Seq<char>, Failure>,
)
    requires
        !(reading is ChangeDir),
    ensures
        wrkdir_after_output(wrkdir, reading, output) == wrkdir,
{
}

/// What a line shows is never the directory itself or the one above.
pub proof fn law_entry_is_not_dots(dir: Seq<char>, line: Seq<char>, this_year: nat)
    ensures
        line_node(dir, line, this_year) is Some ==> !is_dots(
            line_node(dir, line, this_year)->0.name(),
        ),
{
}

/// No entry of a listing is the directory itself or the one above.
pub proof fn law_listing_has_no_dots(
    dir: Seq<char>,
    lines: Seq<Seq<char>>,
    this_year: nat,
    i: int,
)
    requires
        0 <= i < listing_nodes(dir, lines, this_year).len(),
    ensures
        !is_dots(listing_nodes(dir, lines, this_year)[i].name()),
    decreases lines.len(),
{
    if lines.len() > 0 {
        let before = listing_nodes(dir, lines.drop_last(), this_year);
        if i < before.len() {
            law_listing_has_no_dots(dir, lines.drop_last(), this_year, i);
        } else {
            law_entry_is_not_dots(dir, lines.last(), this_year);
        }
    }
}

/// A listing has at most as many entries as lines.
pub proof fn law_listing_is_no_longer_than_its_lines(
    dir: Seq<char>,
    lines: Seq<Seq<char>>,
    this_year: nat,
)
    ensures
        listing_nodes(dir, lines, this_year).len() <= lines.len(),
    decreases lines.len(),
{
    if lines.len() > 0 {
        law_listing_is_no_longer_than_its_lines(dir, lines.drop_last(), this_year);
    }
}

/// The entries of two runs of lines are those of the first followed by those of the second.
pub proof fn law_listing_keeps_the_order_of_lines(
    dir: Seq<char>,
    first: Seq<Seq<char>>,
    second: Seq<Seq<char>>,
    this_year: nat,
)
    ensures
        listing_nodes(dir, first + second, this_year) == listing_nodes(dir, first, this_year)
            + listing_nodes(dir, second, this_year),
    decreases second.len(),
{
    if second.len() == 0 {
        assert(first + second == first);
    } else {
        law_listing_keeps_the_order_of_lines(dir, first, second.drop_last(), this_year);
        assert((first + second).drop_last() == first + second.drop_last());
        assert((first + second).last() == second.last());
    }
}

/// An entry lies in the directory that was listed, under its own name; the path of an entry
/// whose name is a plain one ends with that name, and a file has the extension of its name.
pub proof fn law_entry_lies_in_its_directory(
    dir: Seq<char>,
    groups: Seq<Option<Seq<char>>>,
    mtime: Instant,
)
    requires
        listed_node(dir, groups, mtime) is Some,
    ensures
        ({
            let node = listed_node(dir, groups, mtime)->0;
            &&& node.abs_path() == joined(dir, node.name())
            &&& plain_name(node.name()) ==> file_name_of(node.abs_path()) == Some(node.name())
            &&& plain_name(node.name()) ==> (node matches Node::File { extension, .. }
                ==> extension == suffix_of(node.name()))
        }),
{
    let name = listed_node(dir, groups, mtime)->0.name();
    if plain_name(name) {
        crate::path::law_joined_name_is_the_file_name(dir, name);
    }
}

/// The name of an entry is a plain one wherever the line shows a name that ends in one.
pub proof fn law_entry_name_is_plain(shown: Seq<char>)
    requires
        file_name_of(shown) is Some,
    ensures
        plain_name(bare_name(shown)),
        !is_dots(bare_name(shown)),
{
    crate::path::law_file_name_is_plain(shown);
}

/// Whether a line shows an entry, its kind and its name depend on the line alone. The
/// directory that was listed decides the path and what follows from the path, and the
/// current year the time of the last change. Where the groups of the match are those that
/// the line starts with, the name is that of the name field, cut before the arrow where the
/// line starts with `l`, and the line decides the kind by its first letter.
pub proof fn law_line_alone_decides_kind_and_name(
    p: Seq<char>,
    q: Seq<char>,
    line: Seq<char>,
    y: nat,
    z: nat,
)
    ensures
        line_node(p, line, y) is Some <==> line_node(q, line, z) is Some,
        line_node(p, line, y) is Some ==> {
            let a = line_node(p, line, y)->0;
            let b = line_node(q, line, z)->0;
            &&& a is Directory <==> b is Directory
            &&& a.name() == b.name()
            &&& !is_dots(a.name())
            &&& a.abs_path() == joined(p, a.name())
            &&& b.abs_path() == joined(q, a.name())
            &&& a matches Node::File { extension, abs_path, .. } ==> extension == extension_of(
                abs_path,
            )
            &&& b matches Node::File { extension, abs_path, .. } ==> extension == extension_of(
                abs_path,
            )
            &&& b.facts() == (Facts { mtime: b.facts().mtime, ..a.facts() })
            &&& y == z ==> b.facts() == a.facts()
        },
        regex_captures(LS_PATTERN@, line) matches Some(groups) ==> groups_fit(line, groups)
            ==> {
            let shown = name_shown(line[0] == 'l', field(groups, 8));
            &&& line_node(p, line, y) is None <==> is_dots(bare_name(shown.0))
            &&& line_node(p, line, y) is Some ==> {
                let a = line_node(p, line, y)->0;
                &&& a.name() == bare_name(shown.0)
                &&& a is Directory <==> line[0] == 'd'
                &&& a.facts().symlink == shown.1
            }
        },
{
    if let Some(groups) = regex_captures(LS_PATTERN@, line) {
        if groups_fit(line, groups) {
            lemma_first_letter_is_the_kind(line, groups);
        }
    }
}

/// Only a symbolic link has a target, and neither a link nor a file is a directory.
pub proof fn law_only_links_have_targets(
    dir: Seq<char>,
    groups: Seq<Option<Seq<char>>>,
    mtime: Instant,
)
    requires
        listed_node(dir, groups, mtime) is Some,
    ensures
        ({
            let node = listed_node(dir, groups, mtime)->0;
            &&& node.facts().symlink is Some ==> field(groups, 1) =~= seq!['l']
            &&& node is Directory <==> field(groups, 1) =~= seq!['d']
            &&& node is Directory ==> node.facts().symlink is None
        }),
{
    assert(seq!['d'][0] != seq!['l'][0]);
}

/// A text that was found stays found where more text follows.
proof fn lemma_find_in_front(s: Seq<char>, rest: Seq<char>, pattern: Seq<char>, from: int)
    requires
        0 <= from,
        find_from(s, pattern, from) is Some,
    ensures
        find_from(s + rest, pattern, from) == find_from(s, pattern, from),
    decreases s.len() - from,
{
    let here = s.subrange(from, from + pattern.len());
    assert((s + rest).subrange(from, from + pattern.len()) == here);
    if !(here =~= pattern) {
        lemma_find_in_front(s, rest, pattern, from + 1);
    }
}

/// What is found behind a front is what is found in the text behind it.
proof fn lemma_find_behind(front: Seq<char>, s: Seq<char>, pattern: Seq<char>, from: int)
    requires
        0 <= from,
    ensures
        find_from(front + s, pattern, front.len() + from) == match find_from(s, pattern, from) {
            Some(i) => Some(front.len() + i),
            None => None,
        },
    decreases s.len() - from,
{
    if from + pattern.len() <= s.len() {
        let here = s.subrange(from, from + pattern.len());
        let start = front.len() + from;
        assert((front + s).subrange(start, start + pattern.len()) == here);
        if !(here =~= pattern) {
            lemma_find_behind(front, s, pattern, from + 1);
        }
    }
}

/// A link that is shown as its name, an arrow and its target is read back as that name and
/// target. The arrow must be the first one, and the target must hold none.
pub proof fn law_link_reads_back(name: Seq<char>, target: Seq<char>)
    requires
        find_from(name + LINK_ARROW@, LINK_ARROW@, 0) == Some(name.len() as int),
        find_from(target, LINK_ARROW@, 0) is None,
    ensures
        name_and_link(name + LINK_ARROW@ + target) == (name, Some(target)),
{
    let front = name + LINK_ARROW@;
    let token = front + target;
    lemma_find_in_front(front, target, LINK_ARROW@, 0);
    lemma_find_behind(front, target, LINK_ARROW@, 0);
    assert(token.take(name.len() as int) == name);
    assert(token.skip(front.len() as int) == target);
}

/// A name without an arrow is read as it is, and has no target.
pub proof fn law_name_without_arrow_is_kept(name: Seq<char>)
    requires
        find_from(name, LINK_ARROW@, 0) is None,
    ensures
        name_and_link(name) == (name, None::<Seq<char>>),
{
}

} // verus!
