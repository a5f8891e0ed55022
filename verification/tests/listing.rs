use scpfs::listing::{build_entry, parse_line, parse_listing, split_link};
use scpfs::time::{choose_time, fmt_time_utc, parse_lstime};
use scpfs::{Entry, Timestamp, UnixPex, UnixPexClass};

fn groups(texts: &[&str]) -> Vec<Option<String>> {
    texts.iter().map(|t| Some(String::from(*t))).collect()
}

fn line_groups(kind: &str, letters: &str, name: &str) -> Vec<Option<String>> {
    groups(&["", kind, letters, "1", "1000", "100", "42", "Jan  1  2020", name])
}

#[test]
fn times_with_a_year_are_read_as_days() {
    let entry = parse_line(
        "/",
        "-rw-r--r-- 1 0 0 1 Nov  7  2020 a.txt",
        2021,
    )
    .unwrap()
    .unwrap_file();
    assert_eq!(entry.metadata.mtime.secs(), 1_604_707_200);
    assert_eq!(entry.metadata.mtime.nanos(), 0);
    assert_eq!(entry.metadata.uid, Some(0));
    assert_eq!(entry.metadata.gid, Some(0));
    assert_eq!(entry.metadata.atime, Timestamp::unix_epoch());
    assert_eq!(entry.metadata.ctime, Timestamp::unix_epoch());
}

#[test]
fn times_with_hours_are_read_in_the_current_year() {
    let entry = parse_line("/", "-rw-r--r-- 1 u g 1 Jun 13 21:11 a", 2021).unwrap();
    assert_eq!(entry.metadata().mtime.secs(), 1_623_618_660);
    let entry = parse_line("/", "-rw-r--r-- 1 u g 1 Jun 13 21:11 a", 2020).unwrap();
    assert_eq!(entry.metadata().mtime.secs(), 1_592_082_660);
    assert_eq!(entry.metadata().uid, None);
    assert_eq!(entry.metadata().gid, None);
}

#[test]
fn times_that_cannot_be_read_are_the_epoch() {
    let entry = parse_line("/", "-rw-r--r-- 1 u g 1 giu 13 21:11 a", 2021).unwrap();
    assert_eq!(entry.metadata().mtime, Timestamp::unix_epoch());
    let entry = parse_line("/", "-rw-r--r-- 1 u g 1 Jan  1  1960 a", 2021).unwrap();
    assert_eq!(entry.metadata().mtime, Timestamp::unix_epoch());
}

#[test]
fn readings_of_a_time_are_chosen_from() {
    assert_eq!(choose_time(Some(5), Some(7)).unwrap().secs(), 5);
    assert_eq!(choose_time(None, Some(7)).unwrap().secs(), 7);
    assert_eq!(choose_time(None, None), None);
    assert_eq!(choose_time(Some(-1), Some(7)).unwrap().secs(), 0);
    assert_eq!(choose_time(Some(i64::MAX), None).unwrap().secs(), i64::MAX);
    assert_eq!(
        parse_lstime("Nov 7 2020", "%b %d %Y", "%b %d %H:%M", 2021)
            .unwrap()
            .secs(),
        1_604_707_200
    );
    assert_eq!(
        parse_lstime("Nov 31 2020", "%b %d %Y", "%b %d %H:%M", 2021),
        None
    );
}

#[test]
fn instants_have_less_than_a_second_of_nanoseconds() {
    assert!(Timestamp::new(i64::MAX, 999_999_999).is_some());
    assert!(Timestamp::new(i64::MIN, 0).is_some());
    assert!(Timestamp::new(0, 1_000_000_000).is_none());
}

#[test]
fn dates_are_bounded_by_the_calendar() {
    assert!(Timestamp::new(8_210_266_876_799, 0).unwrap().has_date());
    assert!(!Timestamp::new(8_210_266_876_800, 0).unwrap().has_date());
    assert!(Timestamp::new(-8_334_601_228_800, 0).unwrap().has_date());
    assert!(!Timestamp::new(-8_334_601_228_801, 0).unwrap().has_date());
    // Both ends can be written
    let last = Timestamp::new(8_210_266_876_799, 999_999_999).unwrap();
    assert_eq!(fmt_time_utc(last), "+26214212312359.59");
    let first = Timestamp::new(-8_334_601_228_800, 0).unwrap();
    assert_eq!(fmt_time_utc(first), "-26214301010000.00");
}

#[test]
fn instants_are_written_for_touch() {
    let t = Timestamp::new(1_604_707_201, 5).unwrap();
    assert_eq!(fmt_time_utc(t), "202011070000.01");
    assert_eq!(fmt_time_utc(Timestamp::unix_epoch()), "197001010000.00");
    let before = Timestamp::new(-1, 500_000_000).unwrap();
    assert_eq!(fmt_time_utc(before), "196912312359.59");
    assert_eq!(before.secs_since_epoch(), 0);
    assert_eq!(t.secs_since_epoch(), 1_604_707_201);
}

#[test]
fn groups_make_entries() {
    let mtime = Timestamp::new(77, 0).unwrap();
    let file = build_entry("/home", &line_groups("-", "rwsr-x--x", "a/b/c.tar.gz"), mtime)
        .unwrap()
        .unwrap_file();
    assert_eq!(file.name, "c.tar.gz");
    assert_eq!(file.abs_path, "/home/c.tar.gz");
    assert_eq!(file.extension.as_deref(), Some("gz"));
    assert_eq!(file.metadata.uid, Some(1000));
    assert_eq!(file.metadata.gid, Some(100));
    assert_eq!(file.metadata.size, 42);
    assert_eq!(file.metadata.mtime, mtime);
    assert_eq!(file.metadata.symlink, None);
    assert_eq!(u32::from(file.metadata.mode.unwrap()), 0o751);
    let dir = build_entry("/", &line_groups("d", "---------", "-> x"), mtime)
        .unwrap()
        .unwrap_dir();
    assert_eq!(dir.name, "-> x");
    assert_eq!(dir.abs_path, "/-> x");
    assert_eq!(u32::from(dir.metadata.mode.unwrap()), 0);
    let link = build_entry("/", &line_groups("l", "rwxrwxrwx", "a -> /b/c -> d"), mtime)
        .unwrap()
        .unwrap_file();
    assert_eq!(link.name, "a");
    assert_eq!(link.metadata.symlink.as_deref(), Some("/b/c"));
}

#[test]
fn groups_that_make_no_entry() {
    let mtime = Timestamp::unix_epoch();
    assert!(build_entry("/", &Vec::new(), mtime).is_none());
    assert!(build_entry("/", &groups(&["", "-", "rwxrwxrwx", "1", "u", "g", "1", "t"]), mtime).is_none());
    let mut gap = line_groups("-", "rwxrwxrwx", "a");
    gap[3] = None;
    assert!(build_entry("/", &gap, mtime).is_none());
    assert!(build_entry("/", &line_groups("c", "rwxrwxrwx", "a"), mtime).is_none());
    assert!(build_entry("/", &line_groups("-", "rwxrwxrw", "a"), mtime).is_none());
    assert!(build_entry("/", &line_groups("d", "rwxrwxrwx", "."), mtime).is_none());
    assert!(build_entry("/", &line_groups("d", "rwxrwxrwx", ".."), mtime).is_none());
    // A path that leads upward has no name of its own
    let up = build_entry("/tmp", &line_groups("d", "rwxrwxrwx", "/home/.."), mtime).unwrap();
    assert_eq!(up.path(), "/home/..");
}

#[test]
fn numbers_that_do_not_fit_are_dropped() {
    let mtime = Timestamp::unix_epoch();
    let g = groups(&["", "-", "rwxrwxrwx", "1", "4294967295", "4294967296", "18446744073709551616", "t", "a"]);
    let file = build_entry("/", &g, mtime).unwrap().unwrap_file();
    assert_eq!(file.metadata.uid, Some(u32::MAX));
    assert_eq!(file.metadata.gid, None);
    assert_eq!(file.metadata.size, 0);
}

#[test]
fn listing_keeps_order_and_skips_what_is_no_entry() {
    let output = "total 12\r\ndrwxr-xr-x 2 root root 4096 Jan  1  2020 .\ndrwxr-xr-x 2 root root 4096 Jan  1  2020 ..\n-rw-r--r-- 1 root root 7 Jan  1  2020 b.txt\r\ncrw-rw-rw- 1 root root 1, 3 Jan  1  2020 null\nlrwxrwxrwx 1 root root 5 Jan  1  2020 l -> b.txt\ndrwxr-xr-x 2 root root 4096 Jan  1  2020 a";
    let entries = parse_listing("/srv", output, 2021);
    let paths: Vec<&str> = entries.iter().map(|e| e.path()).collect();
    assert_eq!(paths, vec!["/srv/b.txt", "/srv/l", "/srv/a"]);
    assert!(matches!(entries[2], Entry::Directory(_)));
    assert_eq!(parse_listing("/srv", "", 2021).len(), 0);
}

#[test]
fn name_may_hold_spaces() {
    let entry = parse_line("/", "-rw-r--r-- 1 root root 7 Jan  1  2020 my file.txt", 2021).unwrap();
    assert_eq!(entry.path(), "/my file.txt");
}

#[test]
fn links_read_back() {
    assert_eq!(split_link("a -> b"), (String::from("a"), Some(String::from("b"))));
    assert_eq!(split_link("a -> "), (String::from("a"), Some(String::new())));
    assert_eq!(split_link(" -> b"), (String::new(), Some(String::from("b"))));
    assert_eq!(split_link("a->b"), (String::from("a->b"), None));
    assert_eq!(split_link("a -> -> b"), (String::from("a"), Some(String::from("-> b"))));
    assert_eq!(split_link(""), (String::new(), None));
    for token in ["x", "x -> y", "x -> y -> z", " ->  -> ", "é -> ü", " -> -> -> "] {
        let parts: Vec<&str> = token.split(" -> ").collect();
        let (name, link) = split_link(token);
        assert_eq!(name.as_str(), parts[0]);
        assert_eq!(link.as_deref(), parts.get(1).copied());
    }
}

#[test]
fn permissions_and_numbers_give_each_other_back() {
    for mode in 0..=0o777_u32 {
        let pex = UnixPex::from(mode);
        assert_eq!(u32::from(pex), mode);
    }
    assert_eq!(UnixPex::from(0o1754), UnixPex::from(0o754));
    let pex = UnixPex::from(0o754);
    assert_eq!(pex.user, UnixPexClass::new(true, true, true));
    assert_eq!(pex.group, UnixPexClass::new(true, false, true));
    assert_eq!(pex.others, UnixPexClass::new(true, false, false));
    assert_eq!(UnixPexClass::from(6), UnixPexClass::new(true, true, false));
    assert_eq!(UnixPexClass::from(6).as_byte(), 6);
    assert_eq!(UnixPex::new(pex.user, pex.group, pex.others), pex);
}

#[test]
fn listings_follow_each_other() {
    let first = "-rw-r--r-- 1 root root 7 Jan  1  2020 a\nnoise\n";
    let second = "drwxr-xr-x 1 root root 7 Jan  1  2020 b\n-rw-r--r-- 1 root root 7 Jan  1  2020 /x/c\n";
    let mut expected = parse_listing("/d", first, 2021);
    expected.extend(parse_listing("/d", second, 2021));
    let both = parse_listing("/d", &format!("{}{}", first, second), 2021);
    assert_eq!(both, expected);
    assert_eq!(both.len(), 3);
    assert_eq!(both[2].path(), "/d/c");
}

#[test]
fn line_alone_decides_kind_and_name() {
    let line = "lrwxrwxrwx 1 root root 5 Jun 13 21:11 /x/l.so -> b.txt";
    let a = parse_line("/p", line, 2020).unwrap().unwrap_file();
    let b = parse_line("/q/", line, 2021).unwrap().unwrap_file();
    assert_eq!(a.name, "l.so");
    assert_eq!(b.name, a.name);
    assert_eq!(a.abs_path, "/p/l.so");
    assert_eq!(b.abs_path, "/q/l.so");
    assert_eq!(a.extension, b.extension);
    assert_eq!(a.metadata.symlink.as_deref(), Some("b.txt"));
    assert_eq!(b.metadata.symlink, a.metadata.symlink);
    for dir in ["/p", "/q"] {
        assert!(parse_line(dir, "drwxr-xr-x 1 root root 4096 nov 7 2020 .", 2021).is_none());
        assert!(parse_line(dir, "drwxr-xr-x 1 root root 4096 nov 7 2020 ..", 2021).is_none());
        let arrow = "-rw-r--r-- 1 root root 4096 nov 7 2020 a -> b";
        let file = parse_line(dir, arrow, 2021).unwrap().unwrap_file();
        assert_eq!(file.name, "a -> b");
        assert_eq!(file.metadata.symlink, None);
    }
}
