use scpfs::{
    Entry, File, Metadata, RemoteError, RemoteErrorType, ScpFs, SshOpts, SshSession, UnixPex,
};

const THIS_YEAR: u32 = 2021;

#[test]
fn should_init_scp_fs() {
    let mut client = ScpFs::new(SshOpts::new("localhost"));
    assert!(client.session().is_none());
    assert_eq!(client.is_connected(), false);
    assert_eq!(client.opts().host.as_str(), "localhost");
}

#[test]
fn should_fail_connection_to_bad_server() {
    let mut client = ScpFs::new(SshOpts::new("mybad.verybad.server"));
    let bad_server = RemoteError::new_ex(
        RemoteErrorType::BadAddress,
        client.opts().host.clone(),
    );
    assert!(client.connect(Err(bad_server)).is_err());
    assert!(client.session().is_none());
}

#[test]
fn should_get_name_and_link() {
    let client = ScpFs::new(SshOpts::new("localhost"));
    assert_eq!(
        client.get_name_and_link("Cargo.toml"),
        (String::from("Cargo.toml"), None)
    );
    assert_eq!(
        client.get_name_and_link("Cargo -> Cargo.toml"),
        (String::from("Cargo"), Some(String::from("Cargo.toml")))
    );
}

#[test]
fn should_parse_file_ls_output() {
    let client = ScpFs::new(SshOpts::new("localhost"));
    // File
    let entry = client
        .parse_ls_output(
            "/tmp",
            "-rw-r--r-- 1 root root  2056 giu 13 21:11 /tmp/Cargo.toml",
            THIS_YEAR,
        )
        .ok()
        .unwrap()
        .unwrap_file();
    assert_eq!(entry.name.as_str(), "Cargo.toml");
    assert_eq!(entry.abs_path.as_str(), "/tmp/Cargo.toml");
    assert_eq!(u32::from(entry.metadata.mode.unwrap()), 0o644_u32);
    assert_eq!(entry.metadata.size, 2056);
    assert_eq!(entry.extension.unwrap().as_str(), "toml");
    assert!(entry.metadata.symlink.is_none());
    // File (year)
    let entry = client
        .parse_ls_output(
            "/tmp",
            "-rw-rw-rw- 1 root root  3368 nov  7  2020 CODE_OF_CONDUCT.md",
            THIS_YEAR,
        )
        .ok()
        .unwrap()
        .unwrap_file();
    assert_eq!(entry.name.as_str(), "CODE_OF_CONDUCT.md");
    assert_eq!(entry.abs_path.as_str(), "/tmp/CODE_OF_CONDUCT.md");
    assert_eq!(u32::from(entry.metadata.mode.unwrap()), 0o666_u32);
    assert_eq!(entry.metadata.size, 3368);
    assert_eq!(entry.extension.unwrap().as_str(), "md");
    assert!(entry.metadata.symlink.is_none());
}

#[test]
fn should_parse_directory_from_ls_output() {
    let client = ScpFs::new(SshOpts::new("localhost"));
    // Directory
    let entry = client
        .parse_ls_output(
            "/tmp",
            "drwxr-xr-x 1 root root   512 giu 13 21:11 docs",
            THIS_YEAR,
        )
        .ok()
        .unwrap()
        .unwrap_dir();
    assert_eq!(entry.name.as_str(), "docs");
    assert_eq!(entry.abs_path.as_str(), "/tmp/docs");
    assert_eq!(u32::from(entry.metadata.mode.unwrap()), 0o755_u32);
    assert!(entry.metadata.symlink.is_none());
    // Short metadata
    assert!(client
        .parse_ls_output(
            "/tmp",
            "drwxr-xr-x 1 root root   512 giu 13 21:11",
            THIS_YEAR,
        )
        .is_err());
    // Special file
    assert!(client
        .parse_ls_output(
            "/tmp",
            "crwxr-xr-x 1 root root   512 giu 13 21:11 ttyS1",
            THIS_YEAR,
        )
        .is_err());
    // Bad pex
    assert!(client
        .parse_ls_output(
            "/tmp",
            "-rwxr-xr 1 root root   512 giu 13 21:11 ttyS1",
            THIS_YEAR,
        )
        .is_err());
}

#[test]
fn should_parse_symlink_from_ls_output() {
    let client = ScpFs::new(SshOpts::new("localhost"));
    // File
    let entry = client
        .parse_ls_output(
            "/tmp",
            "lrw-r--r-- 1 root root  2056 giu 13 21:11 Cargo.toml -> Cargo.prod.toml",
            THIS_YEAR,
        )
        .ok()
        .unwrap()
        .unwrap_file();
    assert_eq!(entry.name.as_str(), "Cargo.toml");
    assert_eq!(entry.abs_path.as_str(), "/tmp/Cargo.toml");
    assert_eq!(u32::from(entry.metadata.mode.unwrap()), 0o644_u32);
    assert_eq!(entry.metadata.size, 2056);
    assert_eq!(entry.extension.unwrap().as_str(), "toml");
    assert_eq!(
        entry.metadata.symlink.as_deref().unwrap(),
        "Cargo.prod.toml"
    );
}

#[test]
fn should_return_errors_on_uninitialized_client() {
    let client = ScpFs::new(SshOpts::new("localhost"));
    assert!(client.change_dir("/tmp").is_err());
    assert!(client.copy("/nowhere", "/culonia").is_err());
    assert!(client.exec("echo 5").is_err());
    assert!(client.disconnect().is_err());
    assert!(client.list_dir("/tmp").is_err());
    assert!(client.create_dir("/tmp", UnixPex::from(0o755)).is_err());
    assert!(client.symlink("/a", "/b").is_err());
    assert!(client.pwd().is_err());
    assert!(client.remove_dir_all("/nowhere").is_err());
    assert!(client.mov("/nowhere", "/culonia").is_err());
    assert!(client.stat("/tmp").is_err());
    assert!(client.setstat("/tmp", Metadata::default()).is_err());
    assert!(client.open("/tmp/pippo.txt").is_err());
    assert!(client
        .create("/tmp/pippo.txt", &Metadata::default())
        .is_err());
    assert!(client
        .append("/tmp/pippo.txt", &Metadata::default())
        .is_err());
}

#[test]
fn unconnected_client_names_the_reason() {
    let client = ScpFs::new(SshOpts::new("localhost"));
    let not_connected = RemoteError::new(RemoteErrorType::NotConnected);
    assert_eq!(client.check_connection(), Err(not_connected.clone()));
    assert_eq!(client.pwd(), Err(not_connected.clone()));
    assert_eq!(client.path_exists("/tmp"), Err(not_connected.clone()));
    assert_eq!(client.remove_file("/tmp"), Err(not_connected.clone()));
    assert_eq!(client.remove_dir("/tmp"), Err(not_connected.clone()));
    assert_eq!(client.disconnect(), Err(not_connected));
    assert_eq!(
        client.append("/tmp/a", &Metadata::default()),
        Err(RemoteError::new(RemoteErrorType::UnsupportedFeature))
    );
}

#[test]
fn session_without_login_is_not_a_connection() {
    let mut client = ScpFs::new(SshOpts::new("localhost"));
    let session = SshSession::new().unwrap();
    let welcome = client
        .connect(Ok((session, Ok(String::from("/config\n")))))
        .unwrap();
    assert_eq!(welcome.banner, None);
    assert!(client.session().is_some());
    assert!(!client.is_connected());
    assert!(!client.is_connected_given(false));
    assert!(client.is_connected_given(true));
    assert_eq!(
        client.pwd(),
        Err(RemoteError::new(RemoteErrorType::NotConnected))
    );
    // The farewell needs a session only
    assert_eq!(client.disconnect(), Ok("Mandi!"));
    let lost = client.on_disconnect(Err(String::from("socket closed")));
    assert_eq!(
        lost,
        Err(RemoteError::new_ex(
            RemoteErrorType::ConnectionError,
            String::from("socket closed")
        ))
    );
    assert!(client.session().is_some());
    assert_eq!(client.on_disconnect(Ok(())), Ok(()));
    assert!(client.session().is_none());
    assert!(!client.is_connected_given(true));
}

#[test]
fn failed_pwd_leaves_the_client_as_it_was() {
    let mut client = ScpFs::new(SshOpts::new("localhost"));
    let failure = RemoteError::new(RemoteErrorType::ProtocolError);
    let session = SshSession::new().unwrap();
    assert_eq!(
        client.connect(Ok((session, Err(failure.clone())))),
        Err(failure)
    );
    assert!(client.session().is_none());
}

#[test]
fn banner_is_passed_on() {
    let mut client = ScpFs::new(SshOpts::new("localhost"));
    let session = SshSession::new().unwrap();
    let welcome = client.finish_connect(
        session,
        Some(String::from("SSH-2.0-OpenSSH")),
        Ok(String::from("/")),
    );
    assert_eq!(
        welcome.unwrap().banner.as_deref(),
        Some("SSH-2.0-OpenSSH")
    );
}

#[test]
fn entries_tell_their_path_and_metadata() {
    let dummy = Entry::File(File {
        name: String::from("cucumber.txt"),
        abs_path: String::from("/cucumber.txt"),
        extension: None,
        metadata: Metadata::default(),
    });
    assert_eq!(dummy.path(), "/cucumber.txt");
    assert_eq!(dummy.metadata(), &Metadata::default());
    assert_eq!(dummy.clone().unwrap_file().name, "cucumber.txt");
}
