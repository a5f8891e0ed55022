use scpfs::path::{absolutize, extension, file_name, is_absolute, join, parent};
use scpfs::text::{is_space_char, join3, lines, parse_unsigned, part, trim, write_numeral};
use std::path::{Path, PathBuf};

fn sample_paths() -> Vec<String> {
    let segments = ["", ".", "..", "a", ".b", "c.d", "..e", "f.", "g..h"];
    let mut all = vec![String::new(), String::from("/")];
    for x in segments {
        all.push(x.to_string());
        all.push(format!("/{}", x));
        for y in segments {
            all.push(format!("{}/{}", x, y));
            all.push(format!("/{}/{}", x, y));
            for z in segments {
                all.push(format!("{}/{}/{}", x, y, z));
                all.push(format!("/{}/{}/{}", x, y, z));
                all.push(format!("{}/{}/{}/", x, y, z));
            }
        }
    }
    all
}

#[test]
fn paths_are_taken_apart_as_unix_paths() {
    for s in sample_paths() {
        let p = Path::new(&s);
        assert_eq!(is_absolute(&s), p.is_absolute(), "{:?}", s);
        assert_eq!(
            file_name(&s),
            p.file_name().map(|n| n.to_string_lossy().to_string()),
            "{:?}",
            s
        );
        assert_eq!(
            extension(&s),
            p.extension().map(|n| n.to_string_lossy().to_string()),
            "{:?}",
            s
        );
        assert_eq!(
            parent(&s),
            p.parent().map(|n| n.to_string_lossy().to_string()),
            "{:?}",
            s
        );
    }
}

#[test]
fn paths_are_joined_as_unix_paths() {
    for base in ["", "/", "/tmp", "/tmp/", "rel", "rel/", "."] {
        for rest in ["", "/", "a", "a/b", "/x", "..", "./y"] {
            let mut p = PathBuf::from(base);
            p.push(rest);
            assert_eq!(join(base, rest), p.to_string_lossy());
            assert_eq!(absolutize(base, rest), p.to_string_lossy());
        }
    }
}

#[test]
fn absolutize_twice_is_absolutize_once() {
    let once = absolutize("/home/omar", "docs/a.txt");
    assert_eq!(once, "/home/omar/docs/a.txt");
    assert_eq!(absolutize("/home/omar", &once), once);
    assert_eq!(absolutize("/home/omar", "/etc"), "/etc");
}

#[test]
fn joined_name_is_the_file_name() {
    assert_eq!(file_name(&join("/tmp", "a.txt")).as_deref(), Some("a.txt"));
    assert_eq!(parent(&join("/tmp/", "a.txt")).as_deref(), Some("/tmp"));
    assert_eq!(parent(&join("/", "a.txt")).as_deref(), Some("/"));
    assert_eq!(parent("/"), None);
    assert_eq!(file_name("/tmp/.."), None);
}

#[test]
fn file_names_are_plain() {
    for s in sample_paths() {
        if let Some(name) = file_name(&s) {
            assert!(!name.contains('/'));
            assert!(!["", ".", ".."].contains(&name.as_str()));
            assert_eq!(file_name(&join("/srv", &name)), Some(name));
        }
    }
}

#[test]
fn white_space_is_what_unicode_says() {
    for n in 0..=0x10ffff_u32 {
        if let Some(c) = char::from_u32(n) {
            assert_eq!(is_space_char(c), c.is_whitespace(), "{:x}", n);
        }
    }
}

#[test]
fn trimming() {
    for s in ["", " ", "a", " a", "a ", "\r\n a b \t\n", "\u{3000}x\u{a0}", "/config\n"] {
        assert_eq!(trim(s), s.trim());
        assert_eq!(trim(&trim(s)), trim(s));
        let t = trim(s);
        assert!(!t.chars().next().map(is_space_char).unwrap_or(false));
        assert!(!t.chars().last().map(is_space_char).unwrap_or(false));
    }
}

#[test]
fn splitting_into_lines() {
    for s in [
        "", "\n", "\n\n", "a", "a\n", "a\r\n", "a\r", "a\r\n\r\nb", "a\nb\nc", "\r\n", "\r", "a\n\rb\r\r\n",
        "é\nü\r\n",
    ] {
        let expected: Vec<String> = s.lines().map(String::from).collect();
        assert_eq!(lines(s), expected, "{:?}", s);
        assert!(lines(s).iter().all(|line| !line.contains('\n')));
        let mut more = vec![String::from("first")];
        more.extend(lines(s));
        assert_eq!(lines(&format!("first\r\n{}", s)), more);
    }
}

#[test]
fn reading_numbers() {
    for s in [
        "", "+", "-", "0", "+0", "-0", "007", "42", "4294967295", "4294967296", "99999999999999999999",
        "18446744073709551615", "18446744073709551616", "1 ", " 1", "1a", "++1", "\u{661}", "root", "a1",
    ] {
        assert_eq!(parse_unsigned(s, u64::MAX), s.parse::<u64>().ok(), "{:?}", s);
        assert_eq!(
            parse_unsigned(s, u32::MAX as u64),
            s.parse::<u32>().ok().map(|n| n as u64),
            "{:?}",
            s
        );
    }
    assert_eq!(parse_unsigned("7", 5), None);
    assert_eq!(parse_unsigned("10", 9), None);
}

#[test]
fn writing_numbers() {
    for n in [0, 7, 8, 9, 10, 0o644, 0o777, 1970, 2021, u32::MAX] {
        assert_eq!(write_numeral(n, 8), format!("{:o}", n));
        assert_eq!(write_numeral(n, 10), format!("{}", n));
        assert_eq!(
            parse_unsigned(&write_numeral(n, 10), u64::MAX),
            Some(n as u64)
        );
    }
}

#[test]
fn taking_parts_and_joining() {
    assert_eq!(part("aéb", 1, 3), "éb");
    assert_eq!(join3("a", "é", "c"), "aéc");
}
