use scpfs::conversation::{
    can_write_next_time, on_exec, on_output, on_receive, on_send, on_status, start,
};
use scpfs::step::{OutputTask, Reply, Request, StatusTask, Step, Upload};
use scpfs::{
    shell, Metadata, RemoteError, RemoteErrorType, RemoteResult, ScpFs, SshOpts, SshSession,
    Timestamp, UnixPex,
};

fn s(text: &str) -> String {
    String::from(text)
}

fn plain(kind: RemoteErrorType) -> RemoteError {
    RemoteError::new(kind)
}

fn told(kind: RemoteErrorType, msg: &str) -> RemoteError {
    RemoteError::new_ex(kind, s(msg))
}

fn begin(wrkdir: &str, request: Request) -> Step {
    start(true, wrkdir, request).unwrap()
}

fn status(step: Step) -> (String, StatusTask) {
    match step {
        Step::Status { command, task } => (command, task),
        other => panic!("{:?}", other),
    }
}

fn output(step: Step) -> (String, OutputTask) {
    match step {
        Step::Output { command, reading } => (command, reading),
        other => panic!("{:?}", other),
    }
}

fn done() -> RemoteResult<(u32, String)> {
    Ok((0, String::new()))
}

fn failed() -> RemoteResult<(u32, String)> {
    Ok((1, String::new()))
}

fn lost() -> RemoteResult<(u32, String)> {
    Err(told(RemoteErrorType::ProtocolError, "channel closed"))
}

const LOST: &str = "protocol error (channel closed)";

fn requests() -> Vec<Request> {
    vec![
        Request::Pwd,
        Request::ChangeDir { dir: s("d") },
        Request::ListDir { path: s("d") },
        Request::Stat { path: s("d") },
        Request::Exists { path: s("d") },
        Request::SetStat { path: s("d"), metadata: Metadata::default() },
        Request::RemoveFile { path: s("d") },
        Request::RemoveDir { path: s("d") },
        Request::RemoveDirAll { path: s("d") },
        Request::CreateDir { path: s("d"), mode: UnixPex::from(0o755) },
        Request::Symlink { path: s("d"), target: s("t") },
        Request::Copy { src: s("d"), dest: s("e") },
        Request::Move { src: s("d"), dest: s("e") },
        Request::Exec { cmd: s("true") },
        Request::Create { path: s("d"), metadata: Metadata::default() },
        Request::Open { path: s("d") },
    ]
}

#[test]
fn every_request_needs_a_connection() {
    for request in requests() {
        assert_eq!(
            start(false, "/", request),
            Err(plain(RemoteErrorType::NotConnected))
        );
    }
    for request in requests() {
        assert!(start(true, "/", request).is_ok());
    }
}

/// Runs a request with every command answered by `answer`, and counts the exchanges.
fn drive(request: Request, answer: fn() -> RemoteResult<(u32, String)>) -> (usize, RemoteResult<Reply>) {
    let mut exchanges = 0;
    let mut step = start(true, "/srv", request);
    loop {
        step = match step {
            Err(e) => return (exchanges, Err(e)),
            Ok(Step::Done(reply)) => return (exchanges, Ok(reply)),
            Ok(Step::Output { reading, .. }) => on_output(reading, answer().map(|r| r.1), 2021),
            Ok(Step::Status { task, .. }) => on_status(task, answer()),
            Ok(Step::StatusAt { .. }) => on_exec(answer()),
            Ok(Step::Send { .. }) => on_send(answer().map(|_| ()).map_err(|e| e.message())),
            Ok(Step::Receive { .. }) => on_receive(answer().map(|_| ()).map_err(|e| e.message())),
        };
        exchanges += 1;
    }
}

#[test]
fn every_request_ends_soon() {
    for answer in [done, failed, lost] {
        for request in requests() {
            assert!(drive(request, answer).0 <= 4);
        }
    }
    let metadata = Metadata { mode: Some(UnixPex::from(0o644)), ..Metadata::default() };
    let request = Request::SetStat { path: s("a"), metadata };
    assert_eq!(drive(request, done), (4, Ok(Reply::Unit)));
}

#[test]
fn pwd_is_known_without_asking() {
    assert_eq!(begin("/srv", Request::Pwd), Step::Done(Reply::Path(s("/srv"))));
}

#[test]
fn changing_the_directory() {
    let (command, task) = output(begin("/srv", Request::ChangeDir { dir: s("omar") }));
    assert_eq!(command, "cd \"/srv/omar\"; echo $?; pwd");
    assert_eq!(task, OutputTask::ChangeDir { dir: s("/srv/omar") });
    assert_eq!(
        on_output(task, Ok(s("0\n/srv/omar\n")), 2021),
        Ok(Step::Done(Reply::Path(s("/srv/omar"))))
    );
    let task = || OutputTask::ChangeDir { dir: s("/srv/omar") };
    assert_eq!(
        on_output(task(), Ok(s("1\n/srv\n")), 2021),
        Err(told(RemoteErrorType::NoSuchFileOrDirectory, "\"/srv/omar\""))
    );
    assert_eq!(
        on_output(task(), Ok(s("  ")), 2021),
        Err(told(RemoteErrorType::NoSuchFileOrDirectory, "\"/srv/omar\""))
    );
    assert_eq!(
        on_output(task(), Err(told(RemoteErrorType::ProtocolError, "channel closed")), 2021),
        Err(told(RemoteErrorType::ProtocolError, LOST))
    );
}

#[test]
fn client_follows_a_change_of_directory() {
    let mut client = ScpFs::new(SshOpts::new("localhost"));
    let session = SshSession::new().unwrap();
    client.connect(Ok((session, Ok(s("/config\n"))))).unwrap();
    let task = || OutputTask::ChangeDir { dir: s("/srv") };
    let step = client.on_output(task(), Ok(s("0\n/srv\n")), 2021);
    assert_eq!(step, Ok(Step::Done(Reply::Path(s("/srv")))));
    assert!(client.on_output(task(), Ok(s("1\n/srv\n")), 2021).is_err());
    let listing = OutputTask::ListDir { path: s("/srv") };
    assert_eq!(
        client.on_output(listing, Ok(s("total 0\n")), 2021),
        Ok(Step::Done(Reply::Entries(Vec::new())))
    );
    assert!(client.session().is_some());
}

#[test]
fn pwd_tells_the_directory_that_was_entered() {
    let task = OutputTask::ChangeDir { dir: s("/srv/x") };
    let entered = on_output(task, Ok(s(" 0\n /srv/real x \n")), 2021);
    assert_eq!(entered, start(true, "/srv/real x", Request::Pwd));
}

#[test]
fn listing_a_directory() {
    let (command, task) = output(begin("/srv", Request::ListDir { path: s("/tmp") }));
    assert_eq!(command, "unset LANG; ls -la \"/tmp/\"");
    let text = "total 4\n-rw-r--r-- 1 root root 7 Jan  1  2020 a.txt\n";
    match on_output(task, Ok(s(text)), 2021) {
        Ok(Step::Done(Reply::Entries(entries))) => {
            assert_eq!(entries.len(), 1);
            assert_eq!(entries[0].path(), "/tmp/a.txt");
        }
        other => panic!("{:?}", other),
    }
    let task = OutputTask::ListDir { path: s("/tmp") };
    assert_eq!(
        on_output(task, Err(told(RemoteErrorType::ProtocolError, "channel closed")), 2021),
        Err(told(RemoteErrorType::ProtocolError, LOST))
    );
}

#[test]
fn asking_for_an_entry() {
    let (command, task) = status(begin("/srv", Request::Stat { path: s("/config/") }));
    assert_eq!(command, "test -d \"/config/\"");
    let (command, reading) = output(on_status(task, done()).unwrap());
    assert_eq!(command, "ls -ld \"/config/\"");
    let text = "drwxr-xr-x 2 root root 4096 Jan  1  2020 /config/\n";
    match on_output(reading, Ok(s(text)), 2021) {
        Ok(Step::Done(Reply::Entry(entry))) => {
            let dir = entry.unwrap_dir();
            assert_eq!(dir.name, "config");
            assert_eq!(dir.abs_path, "/config");
        }
        other => panic!("{:?}", other),
    }
    let task = StatusTask::StatKind { path: s("/config/sshd.pid") };
    let (command, reading) = output(on_status(task, failed()).unwrap());
    assert_eq!(command, "ls -l \"/config/sshd.pid\"");
    assert_eq!(
        on_output(reading, Ok(s("ls: no such file")), 2021),
        Err(plain(RemoteErrorType::NoSuchFileOrDirectory))
    );
    let task = StatusTask::StatKind { path: s("/") };
    assert_eq!(on_status(task, lost()), Err(told(RemoteErrorType::StatFailed, LOST)));
    assert_eq!(
        on_output(OutputTask::Stat { path: s("/") }, Ok(s("")), 2021),
        Err(told(RemoteErrorType::StatFailed, "Path has no parent"))
    );
    assert_eq!(
        on_output(
            OutputTask::Stat { path: s("/a") },
            Err(told(RemoteErrorType::ProtocolError, "channel closed")),
            2021
        ),
        Err(told(RemoteErrorType::ProtocolError, LOST))
    );
}

#[test]
fn asking_whether_a_path_exists() {
    let (command, task) = status(begin("/srv", Request::Exists { path: s("a") }));
    assert_eq!(command, "test -e \"/srv/a\"");
    assert_eq!(on_status(task, done()), Ok(Step::Done(Reply::Flag(true))));
    assert_eq!(
        on_status(StatusTask::Exists, failed()),
        Ok(Step::Done(Reply::Flag(false)))
    );
    assert_eq!(
        on_status(StatusTask::Exists, lost()),
        Err(told(RemoteErrorType::StatFailed, LOST))
    );
}

#[test]
fn setting_attributes_in_order() {
    let metadata = Metadata {
        mode: Some(UnixPex::from(0o640)),
        atime: Timestamp::new(0, 0).unwrap(),
        mtime: Timestamp::new(1_604_707_201, 0).unwrap(),
        ..Metadata::default()
    };
    let (command, task) = status(begin("/srv", Request::SetStat { path: s("a"), metadata }));
    assert_eq!(command, "test -e \"/srv/a\"");
    let (command, task) = status(on_status(task, done()).unwrap());
    assert_eq!(command, "chmod 640 \"/srv/a\"");
    let (command, task) = status(on_status(task, done()).unwrap());
    assert_eq!(command, "touch -a -t 197001010000.00 \"/srv/a\"");
    let (command, task) = status(on_status(task, done()).unwrap());
    assert_eq!(command, "touch -m -t 202011070000.01 \"/srv/a\"");
    assert_eq!(on_status(task, done()), Ok(Step::Done(Reply::Unit)));
    // Without permissions
    let request = Request::SetStat { path: s("a"), metadata: Metadata::default() };
    let (_, task) = status(begin("/srv", request));
    let (command, _) = status(on_status(task, done()).unwrap());
    assert_eq!(command, "touch -a -t 197001010000.00 \"/srv/a\"");
    // Failures
    let epoch = Timestamp::unix_epoch();
    let set_mode = || StatusTask::SetMode { path: s("/a"), atime: epoch, mtime: epoch };
    assert_eq!(on_status(set_mode(), failed()), Err(plain(RemoteErrorType::StatFailed)));
    assert_eq!(
        on_status(set_mode(), lost()),
        Err(told(RemoteErrorType::ProtocolError, LOST))
    );
    let set_access = StatusTask::SetAccess { path: s("/a"), mtime: epoch };
    assert_eq!(on_status(set_access, failed()), Err(plain(RemoteErrorType::StatFailed)));
    assert_eq!(
        on_status(StatusTask::SetModified, failed()),
        Err(plain(RemoteErrorType::StatFailed))
    );
}

fn check_change(request: fn() -> Request, asked: &str, expected: &str, refused: RemoteError) {
    for answer in [failed, lost] {
        let (command, task) = status(begin("/srv", request()));
        assert_eq!(command, asked);
        assert_eq!(
            on_status(task, answer()),
            Err(plain(RemoteErrorType::NoSuchFileOrDirectory))
        );
    }
    let run = || {
        let (_, task) = status(begin("/srv", request()));
        let (command, task) = status(on_status(task, done()).unwrap());
        assert_eq!(command, expected);
        task
    };
    assert_eq!(on_status(run(), done()), Ok(Step::Done(Reply::Unit)));
    assert_eq!(on_status(run(), failed()), Err(refused));
    assert_eq!(on_status(run(), lost()), Err(told(RemoteErrorType::ProtocolError, LOST)));
}

#[test]
fn changing_what_is_there() {
    check_change(
        || Request::RemoveFile { path: s("a") },
        "test -e \"/srv/a\"",
        "rm -f \"/srv/a\"",
        plain(RemoteErrorType::CouldNotRemoveFile),
    );
    check_change(
        || Request::RemoveDir { path: s("a") },
        "test -e \"/srv/a\"",
        "rmdir \"/srv/a\"",
        plain(RemoteErrorType::DirectoryNotEmpty),
    );
    check_change(
        || Request::RemoveDirAll { path: s("a") },
        "test -e \"/srv/a\"",
        "rm -rf \"/srv/a\"",
        plain(RemoteErrorType::CouldNotRemoveFile),
    );
    check_change(
        || Request::Copy { src: s("a"), dest: s("/b") },
        "test -e \"/srv/a\"",
        "cp -rf \"/srv/a\" \"/b\"",
        told(RemoteErrorType::FileCreateDenied, "\"/b\""),
    );
    check_change(
        || Request::Move { src: s("a"), dest: s("b") },
        "test -e \"/srv/a\"",
        "mv -f \"/srv/a\" \"/srv/b\"",
        told(RemoteErrorType::FileCreateDenied, "\"/srv/b\""),
    );
}

#[test]
fn making_a_directory() {
    let request = || Request::CreateDir { path: s("/tmp/omar"), mode: UnixPex::from(0o775) };
    let (command, task) = status(begin("/srv", request()));
    assert_eq!(command, "test -e \"/tmp/omar\"");
    assert_eq!(
        on_status(task, done()),
        Err(plain(RemoteErrorType::DirectoryAlreadyExists))
    );
    for answer in [failed, lost] {
        let (_, task) = status(begin("/srv", request()));
        let (command, task) = status(on_status(task, answer()).unwrap());
        assert_eq!(command, "mkdir -m 775 \"/tmp/omar\"");
        assert_eq!(on_status(task, failed()), Err(plain(RemoteErrorType::FileCreateDenied)));
    }
}

#[test]
fn making_a_link() {
    let request = || Request::Symlink { path: s("l"), target: s("t") };
    let (command, task) = status(begin("/srv", request()));
    assert_eq!(command, "test -e \"/srv/t\"");
    assert_eq!(
        on_status(task, failed()),
        Err(plain(RemoteErrorType::NoSuchFileOrDirectory))
    );
    let (_, task) = status(begin("/srv", request()));
    let (command, task) = status(on_status(task, done()).unwrap());
    assert_eq!(command, "test -e \"/srv/l\"");
    assert_eq!(on_status(task, done()), Err(plain(RemoteErrorType::FileCreateDenied)));
    let (_, task) = status(begin("/srv", request()));
    let (_, task) = status(on_status(task, done()).unwrap());
    let (command, task) = status(on_status(task, failed()).unwrap());
    assert_eq!(command, "ln -s \"t\" \"/srv/l\"");
    assert_eq!(on_status(task, failed()), Err(plain(RemoteErrorType::FileCreateDenied)));
}

#[test]
fn relative_working_directory_is_applied_to_the_probe_again() {
    let (command, task) = status(begin("srv", Request::RemoveFile { path: s("a") }));
    assert_eq!(command, "test -e \"srv/srv/a\"");
    let (command, _) = status(on_status(task, done()).unwrap());
    assert_eq!(command, "rm -f \"srv/a\"");
}

#[test]
fn running_a_command() {
    assert_eq!(
        begin("/srv", Request::Exec { cmd: s("echo 5") }),
        Step::StatusAt { command: s("echo 5"), dir: s("/srv") }
    );
    assert_eq!(shell::at("/srv", "echo 5"), "cd \"/srv\"; echo 5");
    assert_eq!(
        on_exec(Ok((0, s("5\n")))),
        Ok(Step::Done(Reply::Output { status: 0, stdout: s("5\n") }))
    );
    assert_eq!(
        on_exec(lost()),
        Err(told(RemoteErrorType::ProtocolError, "channel closed"))
    );
    assert_eq!(shell::PWD_COMMAND, "pwd");
}

#[test]
fn sending_a_file() {
    let metadata = Metadata {
        size: 9,
        atime: Timestamp::new(-5, 0).unwrap(),
        mtime: Timestamp::new(7, 999).unwrap(),
        ..Metadata::default()
    };
    let request = Request::Create { path: s("omar.txt"), metadata };
    assert_eq!(
        begin("/tmp", request),
        Step::Send {
            upload: Upload { path: s("/tmp/omar.txt"), mode: 0o644, size: 9, mtime: 7, atime: 0 }
        }
    );
    let metadata = Metadata { mode: Some(UnixPex::from(0o755)), ..Metadata::default() };
    let request = Request::Create { path: s("/a"), metadata };
    assert_eq!(
        begin("/tmp", request),
        Step::Send { upload: Upload { path: s("/a"), mode: 0o755, size: 0, mtime: 0, atime: 0 } }
    );
    assert_eq!(on_send(Ok(())), Ok(Step::Done(Reply::Stream)));
    assert_eq!(
        on_send(Err(s("denied"))),
        Err(told(RemoteErrorType::FileCreateDenied, "denied"))
    );
}

#[test]
fn instants_beyond_the_calendar_are_sent_as_seconds() {
    let metadata = Metadata {
        mtime: Timestamp::new(8_210_266_876_800, 0).unwrap(),
        atime: Timestamp::new(i64::MAX, 5).unwrap(),
        ..Metadata::default()
    };
    match begin("/tmp", Request::Create { path: s("a"), metadata }) {
        Step::Send { upload } => {
            assert_eq!(upload.mtime, 8_210_266_876_800);
            assert_eq!(upload.atime, i64::MAX as u64);
        }
        other => panic!("{:?}", other),
    }
}

#[test]
fn only_a_time_that_is_written_next_needs_a_date() {
    let far = Timestamp::new(i64::MAX, 0).unwrap();
    let near = Timestamp::unix_epoch();
    let metadata = |mode: Option<UnixPex>| Metadata {
        atime: near,
        mtime: far,
        mode,
        ..Metadata::default()
    };
    let request = Request::SetStat { path: s("/a"), metadata: metadata(None) };
    let (_, task) = status(begin("/", request));
    assert!(can_write_next_time(&task, &done()));
    let (command, task) = status(on_status(task, done()).unwrap());
    assert_eq!(command, "touch -a -t 197001010000.00 \"/a\"");
    assert!(!can_write_next_time(&task, &done()));
    assert!(can_write_next_time(&task, &failed()));
    assert_eq!(on_status(task, failed()), Err(plain(RemoteErrorType::StatFailed)));
    let task = || StatusTask::SetStat {
        path: s("/a"),
        mode: Some(UnixPex::from(0o600)),
        atime: far,
        mtime: near,
    };
    assert!(can_write_next_time(&task(), &done()));
    assert_eq!(
        on_status(task(), failed()),
        Err(plain(RemoteErrorType::NoSuchFileOrDirectory))
    );
    let (command, task) = status(on_status(task(), done()).unwrap());
    assert_eq!(command, "chmod 600 \"/a\"");
    assert!(!can_write_next_time(&task, &done()));
    assert!(can_write_next_time(&StatusTask::SetModified, &done()));
}

#[test]
fn receiving_a_file() {
    let (command, task) = status(begin("/tmp", Request::Open { path: s("a") }));
    assert_eq!(command, "test -e \"/tmp/a\"");
    assert_eq!(on_status(task, done()), Ok(Step::Receive { path: s("/tmp/a") }));
    assert_eq!(
        on_status(StatusTask::Open { path: s("/tmp/a") }, failed()),
        Err(plain(RemoteErrorType::NoSuchFileOrDirectory))
    );
    assert_eq!(on_receive(Ok(())), Ok(Step::Done(Reply::Stream)));
    assert_eq!(
        on_receive(Err(s("denied"))),
        Err(told(RemoteErrorType::CouldNotOpenFile, "denied"))
    );
}

#[test]
fn failures_in_words() {
    let kinds = [
        (RemoteErrorType::AuthenticationFailed, "authentication failed"),
        (RemoteErrorType::BadAddress, "bad address"),
        (RemoteErrorType::ConnectionError, "connection error"),
        (RemoteErrorType::CouldNotOpenFile, "could not open file"),
        (RemoteErrorType::CouldNotRemoveFile, "could not remove file"),
        (RemoteErrorType::DirectoryAlreadyExists, "directory already exists"),
        (RemoteErrorType::DirectoryNotEmpty, "directory is not empty"),
        (RemoteErrorType::FileCreateDenied, "failed to create file"),
        (RemoteErrorType::NoSuchFileOrDirectory, "no such file or directory"),
        (RemoteErrorType::NotConnected, "not connected yet"),
        (RemoteErrorType::ProtocolError, "protocol error"),
        (RemoteErrorType::StatFailed, "could not stat file"),
        (RemoteErrorType::UnsupportedFeature, "unsupported feature"),
    ];
    for (kind, words) in kinds {
        assert_eq!(plain(kind).message(), words);
        assert_eq!(told(kind, "why").message(), format!("{} (why)", words));
    }
}
