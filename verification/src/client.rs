//! The SCP client.

use vstd::prelude::*;

use crate::conversation;
use crate::conversation::after_output;
use crate::conversation::start_of;
use crate::conversation::wrkdir_after_output;
use crate::entry::Entry;
use crate::entry::Metadata;
use crate::error::opt_text;
use crate::error::Failure;
use crate::error::RemoteError;
use crate::error::RemoteErrorType;
use crate::error::RemoteResult;
use crate::listing;
use crate::listing::bare_name;
use crate::listing::field;
use crate::listing::groups_fit;
use crate::listing::is_dots;
use crate::listing::line_node;
use crate::listing::name_and_link;
use crate::listing::name_shown;
use crate::listing::regex_captures;
use crate::listing::starts_as_entry;
use crate::listing::LS_PATTERN;
use crate::pex::shown_pex;
use crate::pex::UnixPex;
use crate::step::opened_of;
use crate::step::outcome;
use crate::step::output_of;
use crate::step::OutputTask;
use crate::step::Reply;
use crate::step::Request;
use crate::step::RequestModel;
use crate::step::Step;
use crate::step::StepModel;
use crate::text::trim;
use crate::text::trimmed;

pub use ssh2::Session as SshSession;

verus! {

/// What is said to the remote host when the client leaves.
pub const FAREWELL: &'static str = "Mandi!";

/// A session of the crate `ssh2`. What a session knows changes as it talks to its host, so
/// nothing is said of the inside of one.
#[verifier::external_type_specification]
#[verifier::external_body]
pub struct ExSession(ssh2::Session);

/// Calls `ssh2::Session::authenticated`. The answer rests on what the session has been
/// through, so the contract claims nothing of it.
#[verifier::external_body]
fn session_authenticated(session: &ssh2::Session) -> (r: bool) {
    session.authenticated()
}

/// Calls `ssh2::Session::banner`. The answer is what the remote host has sent, so the
/// contract claims nothing of it.
#[verifier::external_body]
fn session_banner(session: &ssh2::Session) -> (r: Option<String>) {
    session.banner().map(String::from)
}

/// Where to connect to, and as whom.
#[derive(Clone, Debug, PartialEq, Eq)]
pub struct SshOpts {
    pub host: String,
    pub port: Option<u16>,
    pub username: Option<String>,
    pub password: Option<String>,
}

impl SshOpts {
    /// Options for `host`, with nothing else set.
    pub fn new(host: &str) -> (r: SshOpts)
        ensures
            r.host@ == host@,
            r.port is None,
            r.username is None,
            r.password is None,
    {
        SshOpts { host: host.to_owned(), port: None, username: None, password: None }
    }
}

/// What the remote host says when the client arrives.
#[derive(Clone, Debug, PartialEq, Eq)]
pub struct Welcome {
    pub banner: Option<String>,
}

/// SCP "filesystem" client
pub struct ScpFs {
    session: Option<SshSession>,
    wrkdir: String,
    opts: SshOpts,
}

/// The client as a value.
pub struct ClientModel {
    pub session: Option<SshSession>,
    pub wrkdir: Seq<char>,
    pub opts: SshOpts,
}

impl View for ScpFs {
    type V = ClientModel;

    closed spec fn view(&self) -> ClientModel {
        ClientModel { session: self.session, wrkdir: self.wrkdir@, opts: self.opts }
    }
}

/// What a client may answer to a request: as a client that is connected, or as one that is
/// not; the latter for certain where it has no session.
pub open spec fn may_answer(
    client: ClientModel,
    request: RequestModel,
    answer: Result<StepModel, Failure>,
) -> bool {
    ||| answer == start_of(false, client.wrkdir, request)
    ||| client.session is Some && answer == start_of(true, client.wrkdir, request)
}

/// Refuses a client that is not connected.
pub fn require_connection(connected: bool) -> (r: RemoteResult<()>)
    ensures
        connected ==> r is Ok,
        !connected ==> r is Err && r->Err_0@ == Failure::plain(RemoteErrorType::NotConnected),
{
    if connected {
        Ok(())
    } else {
        Err(RemoteError::new(RemoteErrorType::NotConnected))
    }
}

impl ScpFs {
    /// A client that is not connected yet.
    pub fn new(opts: SshOpts) -> (r: ScpFs)
        ensures
            r@.session is None,
            r@.wrkdir == "/"@,
            r@.opts == opts,
    {
        ScpFs { session: None, wrkdir: "/".to_owned(), opts }
    }

    /// Get a reference to current `session` value.
    pub fn session(&mut self) -> (r: Option<&mut SshSession>)
        ensures
            match r {
                Some(s) => old(self)@.session == Some(*s) && final(self)@.session == Some(
                    *final(s),
                ),
                None => old(self)@.session is None && final(self)@.session is None,
            },
            final(self)@.wrkdir == old(self)@.wrkdir,
            final(self)@.opts == old(self)@.opts,
    {
        match &mut self.session {
            Some(s) => Some(s),
            None => None,
        }
    }

    /// Where the client connects to, and as whom.
    pub fn opts(&self) -> (r: &SshOpts)
        ensures
            *r == self@.opts,
    {
        &self.opts
    }

    /// Whether a client whose session answers as given is connected.
    pub fn is_connected_given(&self, authenticated: bool) -> (r: bool)
        ensures
            r == (self@.session is Some && authenticated),
    {
        self.session.is_some() && authenticated
    }

    /// Whether the client has a session that is authenticated.
    pub fn is_connected(&self) -> (r: bool)
        ensures
            self@.session is None ==> !r,
    {
        match &self.session {
            Some(session) => self.is_connected_given(session_authenticated(session)),
            None => false,
        }
    }

    /// Check connection status
    pub fn check_connection(&self) -> (r: RemoteResult<()>)
        ensures
            r is Err ==> r->Err_0@ == Failure::plain(RemoteErrorType::NotConnected),
            self@.session is None ==> r is Err,
    {
        require_connection(self.is_connected())
    }

    /// Begins a request.
    pub fn submit(&self, request: Request) -> (r: RemoteResult<Step>)
        ensures
            may_answer(self@, request@, outcome(r)),
    {
        conversation::start(self.is_connected(), self.wrkdir.as_str(), request)
    }

    /// Takes over a session that was opened, with what the remote host said and what the
    /// command `pwd` printed. Where `pwd` could not be run, the client stays as it was.
    pub fn finish_connect(
        &mut self,
        session: SshSession,
        banner: Option<String>,
        pwd: RemoteResult<String>,
    ) -> (r: RemoteResult<Welcome>)
        ensures
            match pwd {
                Ok(output) => {
                    &&& r == Ok::<Welcome, RemoteError>(Welcome { banner })
                    &&& final(self)@ == (ClientModel {
                        session: Some(session),
                        wrkdir: trimmed(output@),
                        opts: old(self)@.opts,
                    })
                },
                Err(e) => {
                    &&& r == Err::<Welcome, RemoteError>(e)
                    &&& final(self)@ == old(self)@
                },
            },
    {
        match pwd {
            Ok(output) => {
                self.wrkdir = trim(output.as_str());
                self.session = Some(session);
                Ok(Welcome { banner })
            },
            Err(e) => Err(e),
        }
    }

    /// Takes over what came of the attempt to open a session: the session, and what the
    /// command `pwd` printed there. Where either failed, the client stays as it was.
    pub fn connect(
        &mut self,
        opened: RemoteResult<(SshSession, RemoteResult<String>)>,
    ) -> (r: RemoteResult<Welcome>)
        ensures
            match opened {
                Ok((session, Ok(output))) => {
                    &&& r is Ok
                    &&& final(self)@ == (ClientModel {
                        session: Some(session),
                        wrkdir: trimmed(output@),
                        opts: old(self)@.opts,
                    })
                },
                Ok((_, Err(e))) => {
                    &&& r == Err::<Welcome, RemoteError>(e)
                    &&& final(self)@ == old(self)@
                },
                Err(e) => {
                    &&& r == Err::<Welcome, RemoteError>(e)
                    &&& final(self)@ == old(self)@
                },
            },
    {
        match opened {
            Ok((session, pwd)) => {
                let banner = session_banner(&session);
                self.finish_connect(session, banner, pwd)
            },
            Err(e) => Err(e),
        }
    }

    /// What to say to the remote host in order to leave it.
    pub fn disconnect(&self) -> (r: RemoteResult<&'static str>)
        ensures
            match r {
                Ok(farewell) => self@.session is Some && farewell@ == FAREWELL@,
                Err(e) => self@.session is None && e@ == Failure::plain(
                    RemoteErrorType::NotConnected,
                ),
            },
    {
        if self.session.is_some() {
            Ok(FAREWELL)
        } else {
            Err(RemoteError::new(RemoteErrorType::NotConnected))
        }
    }

    /// Goes on once the farewell was said: the session is given up where that succeeded,
    /// and kept otherwise.
    pub fn on_disconnect(&mut self, closed: Result<(), String>) -> (r: RemoteResult<()>)
        ensures
            final(self)@.wrkdir == old(self)@.wrkdir,
            final(self)@.opts == old(self)@.opts,
            match opened_of(closed) {
                Ok(()) => r is Ok && final(self)@.session is None,
                Err(why) => {
                    &&& r is Err
                    &&& r->Err_0@ == Failure::told(RemoteErrorType::ConnectionError, why)
                    &&& final(self)@.session == old(self)@.session
                },
            },
    {
        match closed {
            Ok(()) => {
                self.session = None;
                Ok(())
            },
            Err(why) => Err(RemoteError::new_ex(RemoteErrorType::ConnectionError, why)),
        }
    }

    /// The working directory.
    pub fn pwd(&self) -> (r: RemoteResult<Step>)
        ensures
            may_answer(self@, RequestModel::Pwd, outcome(r)),
    {
        self.submit(Request::Pwd)
    }

    /// Makes `dir` the working directory.
    pub fn change_dir(&self, dir: &str) -> (r: RemoteResult<Step>)
        ensures
            may_answer(self@, RequestModel::ChangeDir { dir: dir@ }, outcome(r)),
    {
        self.submit(Request::ChangeDir { dir: dir.to_owned() })
    }

    /// The entries of the directory `path`.
    pub fn list_dir(&self, path: &str) -> (r: RemoteResult<Step>)
        ensures
            may_answer(self@, RequestModel::ListDir { path: path@ }, outcome(r)),
    {
        self.submit(Request::ListDir { path: path.to_owned() })
    }

    /// The entry at `path`.
    pub fn stat(&self, path: &str) -> (r: RemoteResult<Step>)
        ensures
            may_answer(self@, RequestModel::Stat { path: path@ }, outcome(r)),
    {
        self.submit(Request::Stat { path: path.to_owned() })
    }

    /// Whether something is at `path`.
    pub fn path_exists(&self, path: &str) -> (r: RemoteResult<Step>)
        ensures
            may_answer(self@, RequestModel::Exists { path: path@ }, outcome(r)),
    {
        self.submit(Request::Exists { path: path.to_owned() })
    }

    /// Sets the permissions, where some are given, and the times of `path`.
    pub fn setstat(&self, path: &str, metadata: Metadata) -> (r: RemoteResult<Step>)
        ensures
            may_answer(
                self@,
                RequestModel::SetStat { path: path@, facts: metadata@ },
                outcome(r),
            ),
    {
        self.submit(Request::SetStat { path: path.to_owned(), metadata })
    }

    /// Removes the file `path`.
    pub fn remove_file(&self, path: &str) -> (r: RemoteResult<Step>)
        ensures
            may_answer(self@, RequestModel::RemoveFile { path: path@ }, outcome(r)),
    {
        self.submit(Request::RemoveFile { path: path.to_owned() })
    }

    /// Removes the empty directory `path`.
    pub fn remove_dir(&self, path: &str) -> (r: RemoteResult<Step>)
        ensures
            may_answer(self@, RequestModel::RemoveDir { path: path@ }, outcome(r)),
    {
        self.submit(Request::RemoveDir { path: path.to_owned() })
    }

    /// Removes the directory `path` and all that is in it.
    pub fn remove_dir_all(&self, path: &str) -> (r: RemoteResult<Step>)
        ensures
            may_answer(self@, RequestModel::RemoveDirAll { path: path@ }, outcome(r)),
    {
        self.submit(Request::RemoveDirAll { path: path.to_owned() })
    }

    /// Makes the directory `path`.
    pub fn create_dir(&self, path: &str, mode: UnixPex) -> (r: RemoteResult<Step>)
        ensures
            may_answer(self@, RequestModel::CreateDir { path: path@, mode }, outcome(r)),
    {
        self.submit(Request::CreateDir { path: path.to_owned(), mode })
    }

    /// Makes a symbolic link to `target` at `path`.
    pub fn symlink(&self, path: &str, target: &str) -> (r: RemoteResult<Step>)
        ensures
            may_answer(
                self@,
                RequestModel::Symlink { path: path@, target: target@ },
                outcome(r),
            ),
    {
        self.submit(Request::Symlink { path: path.to_owned(), target: target.to_owned() })
    }

    /// Copies `src` to `dest`.
    pub fn copy(&self, src: &str, dest: &str) -> (r: RemoteResult<Step>)
        ensures
            may_answer(self@, RequestModel::Copy { src: src@, dest: dest@ }, outcome(r)),
    {
        self.submit(Request::Copy { src: src.to_owned(), dest: dest.to_owned() })
    }

    /// Moves `src` to `dest`.
    pub fn mov(&self, src: &str, dest: &str) -> (r: RemoteResult<Step>)
        ensures
            may_answer(self@, RequestModel::Move { src: src@, dest: dest@ }, outcome(r)),
    {
        self.submit(Request::Move { src: src.to_owned(), dest: dest.to_owned() })
    }

    /// Runs a command in the working directory.
    pub fn exec(&self, cmd: &str) -> (r: RemoteResult<Step>)
        ensures
            may_answer(self@, RequestModel::Exec { cmd: cmd@ }, outcome(r)),
    {
        self.submit(Request::Exec { cmd: cmd.to_owned() })
    }

    /// Appending is not supported.
    pub fn append(&self, _path: &str, _metadata: &Metadata) -> (r: RemoteResult<Step>)
        ensures
            outcome(r) == Err::<StepModel, Failure>(
                Failure::plain(RemoteErrorType::UnsupportedFeature),
            ),
    {
        Err(RemoteError::new(RemoteErrorType::UnsupportedFeature))
    }

    /// Opens a stream for new contents of the file `path`.
    pub fn create(&self, path: &str, metadata: &Metadata) -> (r: RemoteResult<Step>)
        ensures
            may_answer(
                self@,
                RequestModel::Create { path: path@, facts: metadata@ },
                outcome(r),
            ),
    {
        self.submit(Request::Create { path: path.to_owned(), metadata: metadata.clone() })
    }

    /// Opens a stream of the contents of the file `path`.
    pub fn open(&self, path: &str) -> (r: RemoteResult<Step>)
        ensures
            may_answer(self@, RequestModel::Open { path: path@ }, outcome(r)),
    {
        self.submit(Request::Open { path: path.to_owned() })
    }

    /// Goes on once the output of a command is there: a change of directory that succeeded
    /// sets the working directory, and nothing else changes the client.
    pub fn on_output(
        &mut self,
        task: OutputTask,
        output: RemoteResult<String>,
        this_year: u32,
    ) -> (r: RemoteResult<Step>)
        ensures
            outcome(r) == after_output(task@, output_of(output), this_year as nat),
            final(self)@ == (ClientModel {
                session: old(self)@.session,
                wrkdir: wrkdir_after_output(old(self)@.wrkdir, task@, output_of(output)),
                opts: old(self)@.opts,
            }),
    {
        let step = conversation::on_output(task, output, this_year);
        if let Ok(Step::Done(Reply::Path(reached))) = &step {
            self.wrkdir = reached.clone();
        }
        step
    }

    /// Parse a line of `ls -l` output and tokenize the output into an `Entry`
    pub fn parse_ls_output(&self, path: &str, line: &str, this_year: u32) -> (r: Result<
        Entry,
        (),
    >)
        ensures
            match line_node(path@, line@, this_year as nat) {
                Some(node) => r is Ok && r->Ok_0@ == node,
                None => r is Err,
            },
            r is Ok ==> {
                &&& starts_as_entry(line@)
                &&& r->Ok_0@.facts().mode == Some(shown_pex(line@.subrange(1, 10)))
                &&& r->Ok_0@ is Directory <==> line@[0] == 'd'
            },
            regex_captures(LS_PATTERN@, line@) matches Some(groups) ==> {
                let shown = name_shown(line@[0] == 'l', field(groups, 8));
                &&& groups_fit(line@, groups)
                &&& r is Err <==> is_dots(bare_name(shown.0))
                &&& r is Ok ==> r->Ok_0@.facts().symlink == shown.1
            },
    {
        match listing::parse_line(path, line, this_year) {
            Some(entry) => Ok(entry),
            None => Err(()),
        }
    }

    /// Returns from a `ls -l` command output file name token, the name of the file and the
    /// symbolic link (if there is any)
    pub fn get_name_and_link(&self, token: &str) -> (r: (String, Option<String>))
        ensures
            (r.0@, opt_text(r.1)) == name_and_link(token@),
    {
        listing::split_link(token)
    }
}

} // verus!
